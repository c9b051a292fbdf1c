pub mod primitive_to;

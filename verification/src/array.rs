pub mod binary;
pub mod boolean;
pub mod dictionary;
pub mod growable;
pub mod null;
pub mod primitive;

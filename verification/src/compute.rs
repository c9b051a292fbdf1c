pub mod cast;
pub mod rem;
pub mod take;

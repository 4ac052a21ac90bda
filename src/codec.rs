pub mod id;
pub mod parameters;

pub use id::Id;

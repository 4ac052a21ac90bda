pub mod codec;
pub mod error;
pub mod filter;
pub mod media;

pub use codec::parameters::{Block, Parameters, Release};
pub use error::Error;
pub use filter::sink::Sink;

pub mod error;
pub mod orchestrator;
pub mod simulator;

pub use error::FetchError;

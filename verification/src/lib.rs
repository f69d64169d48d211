//! A first-in, first-out queue with an optional ceiling on the number of
//! items it admits.
pub mod comparison;
pub mod decimal;
pub mod equality;
pub mod error;
pub mod laws;
pub mod model;
pub mod ordering;
pub mod queue;

pub use error::QueueError;
pub use model::{QueueModel, Step};
pub use queue::{queue, Queue};

//! The two ways in which an operation on a queue is refused.
use vstd::prelude::*;
use vstd::string::*;
use crate::decimal::{append_decimal, decimal};

verus! {

/// Why a queue refused an operation. The queue is unchanged whenever one of
/// these is returned.
#[derive(Debug, Clone, Copy, PartialEq, Eq, Structural)]
pub enum QueueError {
    /// An item was offered to a queue that already holds as many items as
    /// its capacity admits.
    QueueFull { bound: usize, size: usize },
    /// A new capacity was requested that is smaller than the number of items
    /// the queue holds.
    BoundTooSmall { requested: usize, size: usize },
}

impl QueueError {
    /// The message that describes the error to a reader: what was refused,
    /// then the capacity at stake and the number of items held, both in
    /// decimal.
    pub open spec fn message_text(self) -> Seq<char> {
        match self {
            QueueError::QueueFull { bound, size } => "The queue is full, capacity: "@ + decimal(
                bound as nat,
            ) + " size: "@ + decimal(size as nat),
            QueueError::BoundTooSmall { requested, size } =>
                "Capacity cannot be smaller than size, new_capacity: "@ + decimal(requested as nat)
                    + " size: "@ + decimal(size as nat),
        }
    }

    /// Renders the error as a message for a reader.
    pub fn message(&self) -> (text: String)
        ensures
            text@ == self.message_text(),
    {
        match self {
            QueueError::QueueFull { bound, size } => {
                let mut text = String::from_str("The queue is full, capacity: ");
                append_decimal(&mut text, *bound);
                text.append(" size: ");
                append_decimal(&mut text, *size);
                text
            },
            QueueError::BoundTooSmall { requested, size } => {
                let mut text = String::from_str(
                    "Capacity cannot be smaller than size, new_capacity: ",
                );
                append_decimal(&mut text, *requested);
                text.append(" size: ");
                append_decimal(&mut text, *size);
                text
            },
        }
    }
}

} // verus!

//! A minimal cooperative task executor: computations that suspend by
//! reporting `Pending` are wrapped into shared, lock-protected thoughts,
//! queued on a FIFO ready queue, and driven by worker loops; a cloneable
//! waker capability re-enqueues a parked thought when progress is possible.

mod brain;
mod mind;
pub mod protocol;
mod queue;
mod thought;
mod wakeable;

pub use brain::Brain;
pub use queue::QueueCore;
pub use queue::Receiver;
pub use queue::Sender;
pub use queue::channel;
pub use thought::Think;
pub use thought::Thought;
pub use mind::GiveNumber;
pub use mind::MasterThought;
pub use mind::Outcome;
pub use mind::main_thought;
pub use wakeable::Wakeable;
pub use wakeable::Waker;

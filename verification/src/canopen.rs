//! The names that most callers need, in one place.

pub use crate::cob::Cob;
pub use crate::controller::{CanOpenController, NmtState};
pub use crate::message::CanMessage;
pub use crate::od::{ObjectDictionary, ObjectSubscriber, ObjectValue};

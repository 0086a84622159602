//! Anytime results: values that may keep improving until a consumer commits to
//! one, after which every consumer sees the same value for ever.

pub mod state;
pub mod slot;
pub mod laws;
pub mod attempt;
pub mod lock;
pub mod holder;

pub use crate::attempt::{Offer, Poisoned};
pub use crate::holder::Anytime;
pub use crate::slot::Slot;

//! Control a family of same-titled application windows as a group: discover
//! them by title, cycle focus among them, and plan synthetic clicks against
//! each of them.
//!
//! The crate holds the decision logic only. Callers perform the actual
//! operating-system calls (window enumeration, focus changes, message
//! posting) and feed their outcomes back into the types defined here.

pub mod focus;
pub mod input;
pub mod manager;
pub mod notifier;
pub mod window;

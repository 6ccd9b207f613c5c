//! Building blocks of a Matter device stack.
pub use stack::MatterStack;

pub mod ble;
pub mod bump;
pub mod bump_alloc;
pub mod endpoints;
pub mod error;
pub mod eth;
pub mod network;
pub mod persist;
pub mod rand;
pub mod stack;
pub mod tasks;
pub mod udp;
pub mod wireless;

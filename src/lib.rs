//! An in-process event bus: producers publish text messages, and every
//! subscriber currently registered receives each message exactly once.

pub mod bus;
pub mod message;
pub mod model;
pub mod subscriber;

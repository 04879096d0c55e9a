use vstd::prelude::*;

pub mod address;
pub mod bluetooth;
pub mod bluetooth_state;
pub mod singletons;
pub mod text;
pub mod widgets;
pub mod window;

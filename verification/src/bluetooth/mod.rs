pub mod bluetooth_settings;
pub mod device;
pub mod message;

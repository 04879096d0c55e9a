pub mod battery_indicator;
pub mod device_action_row;
pub mod paired_device_row;
pub mod startup_error_message;

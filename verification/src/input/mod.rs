pub mod key_capture;
pub mod key_event;

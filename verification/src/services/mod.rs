//! The request and subscribe handlers, one family per resource.

pub mod device;
pub mod device_record;
pub mod greenhouse;
pub mod user;

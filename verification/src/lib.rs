//! Device capability model and discovery event handling for a
//! hardware-control protocol server.

pub mod actuator;
pub mod bounds;
pub mod configuration;
pub mod device_feature;
pub mod device_manager;
pub mod errors;
pub mod feature_type;
pub mod message_set;
pub mod message_type;
pub mod raw;
pub mod sensor;
pub mod server;

pub mod connection;
pub mod framing;
pub mod geoip;
pub mod pipeline;
pub mod record;
pub mod storage;

pub use pipeline::Pipeline;
pub use record::{AuthAttempt, AuthAttemptRecord};

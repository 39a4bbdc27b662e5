//! Client configuration.

pub mod builders;
pub mod client;
pub mod env;
pub mod host;
pub mod keys;
pub mod kinds;
pub mod properties;
pub mod refresher;
pub mod settings;
pub mod uri;
pub mod values;
pub mod write_type;

pub use client::GoosefsConfig;
pub use host::HostEnv;
pub use kinds::{CacheEvictorType, MasterPoolSchedule};
pub use properties::{ConfigLoadError, PropertiesMap};
pub use refresher::{ConfigRefresher, TransparentAccelerationSwitch};
pub use uri::UriParseError;
pub use write_type::WriteType;

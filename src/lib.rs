pub mod builder;
pub mod engine;
pub mod error;
pub mod event;
pub mod facade;
pub mod keyer;
pub mod message;
pub mod protocol;
pub mod text;
pub mod transport;

pub use builder::WinKeyerBuilder;
pub use error::{Error, Result};
pub use event::{KeyerEvent, KeyerStatus};
pub use keyer::{KeyerCapabilities, KeyerInfo};
pub use protocol::types::{LoadDefaults, ModeRegister, PaddleMode, PinConfig, WinKeyerVersion};
pub use transport::MockPort;

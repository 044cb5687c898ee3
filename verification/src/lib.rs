//! Building blocks for running an in-memory node in end-to-end tests:
//! where the node keeps its state, how its log lines are teed to a sink,
//! and the settings a test node starts with.

pub mod config;
pub mod filter;
pub mod level;
pub mod logging;
pub mod path;
pub mod record;
pub mod tee;

pub use config::{default_config, NodeSettings};
pub use level::{Level, LevelFilter};
pub use logging::{accepts, logger};
pub use path::{base_path, BasePath};
pub use record::{emission, Emission};
pub use tee::{InstallAction, TeeState};

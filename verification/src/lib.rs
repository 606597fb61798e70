//! Normalisation, state and settings logic of the Codex usage meter.

pub mod clock;
pub mod commands;
pub mod error;
pub mod paths;
pub mod percent;
pub mod provider;
pub mod refresh;
pub mod settings;
pub mod state;
pub mod usage;

pub use commands::{set_dock_meter_geometry, set_dock_meter_visible, set_launch_at_login, set_refresh_interval};
pub use error::AppError;
pub use provider::{CodexAppServerProvider, CodexUsageProvider, ProviderError, ProviderSnapshot, ProviderWindow};
pub use state::{AppSettings, UsageSnapshot};
pub use usage::UsageService;

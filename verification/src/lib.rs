//! Core logic of a microphone mute agent: a rate limiter for expensive
//! per-tick work, the mute-state transition rules, a popup presenter model,
//! and the reactor's event-dispatch policy.

pub mod config;
pub mod popup;
pub mod reactor;
pub mod state;
pub mod throttle;

pub use config::AppVars;
pub use config::ConfigError;
pub use config::capitalize;
pub use popup::Monitor;
pub use popup::Popup;
pub use popup::get_mute_title_text;
pub use reactor::EventIds;
pub use reactor::MenuAction;
pub use reactor::Message;
pub use reactor::Reactor;
pub use state::DeviceError;
pub use state::MuteState;
pub use throttle::Throttle;
pub use throttle::ThrottleError;

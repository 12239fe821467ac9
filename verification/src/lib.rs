//! xframe: the decision logic of an egui application framework for desktop and
//! mobile hosts, verified with Verus.
//!
//! The window system, the renderer and the egui context live outside this
//! library; what stays here are the rules that drive them: the host
//! application's life-cycle state machine, the platform flags, the repaint
//! scheduling of the event loop and the per-viewport bookkeeping of window
//! events.

pub mod app_life_cycle_handler;
pub mod app_life_cycle_state;
pub mod current_platform;
pub mod event_loop;
pub mod life_cycle_dispatch;
pub mod paste;
pub mod render_options;
pub mod repaint_schedule;
pub mod storage;
pub mod viewport_events;

pub use app_life_cycle_handler::{AppLifeCycleHandler, LifeCycleWindowEvent};
pub use app_life_cycle_state::AppLifeCycleState;
pub use current_platform::{CurrentPlatform, TargetOs};
pub use event_loop::{EventLoopState, EventResult};
pub use render_options::{HardwareAcceleration, Renderer};
pub use storage::{Storage, APP_KEY};

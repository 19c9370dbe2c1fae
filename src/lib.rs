//! Native window-message interception for a desktop media-player shell:
//! the handle slots, the subclass records, the taskbar thumbnail toolbar and
//! the minimize/close-to-tray policy, as verified decisions that a thin
//! native adapter carries out.

pub mod handle;
pub mod icons;
pub mod message;
pub mod overlay;
pub mod router;
pub mod settings;
pub mod shell;
pub mod subclass;
pub mod thumbar;
pub mod window_manager;

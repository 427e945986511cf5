//! In-memory navigation history with browser-like push / replace / back
//! semantics, and a registry of weakly held route observers.
pub mod listener;
pub mod route;
pub mod service;

pub use listener::{AsListener, Callback, Listener};
pub use route::SwitchRoute;
pub use service::{
    location_path, notify_callbacks, retain_live, route_from_location, History,
    SimpleRouteService, SwitchRouteService,
};

//! A small cross-platform UI layer: elements are created through a renderer,
//! linked into a tree, and published to a native host.

pub mod element;
pub mod error;
pub mod tables;
pub mod model;
pub mod history;
pub mod registry;
pub mod callbacks;
pub mod platform;
pub mod renderer;
pub mod text;
pub mod app;
pub mod java;
pub mod session;
pub mod android;

pub use element::{ElementId, ViewHandle};
pub use error::{HostFailure, RenderError};
pub use registry::ViewRegistry;
pub use model::{HostRequest, RendererModel};
pub use platform::{Component, NativeHost, PlatformRenderer};
pub use renderer::Renderer;
pub use text::Text;
pub use app::{App, LifecycleEvent, Reaction};
pub use android::{show_classes, AndroidHost, AndroidRenderer};
pub use callbacks::{Callback, CallbackRegistry, ClickHandler};

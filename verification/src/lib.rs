//! A minimal scene graph and the lifecycle of the surface it is rendered to.
//!
//! The scene graph is an arena of render nodes (geometry, images, shadows and
//! transforms). The surface lifecycle is a state machine that decides which
//! physical device to use, how a swapchain is to be created and when it has to
//! be created again. Talking to the graphics driver and to the window system is
//! left to the caller: the lifecycle is told what happened and answers with
//! what has to be done next.

pub mod device;
pub mod error;
pub mod lifecycle;
pub mod materials;
pub mod nodes;
pub mod outside;
pub mod presentation;
pub mod render_node;
pub mod renderer;
pub mod scalar;
pub mod scene;
pub mod swapchain;

pub use error::{RenderError, RenderResult};
pub use render_node::RenderNode;
pub use renderer::Renderer;

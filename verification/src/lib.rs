//! A live-reloading vector-graphics viewer, verified at its core.
//!
//! The library holds the logic of the viewer: parsing a document into a
//! [`scene::Scene`], rasterizing it at a target size, the presentation
//! surface whose buffer always matches the window, the debounce policy of
//! the file watcher, and the event-loop controller that ties them together.
//! Window creation, file reads and the GPU upload live outside the library,
//! which hands them plain values.

pub mod controller;
pub mod debounce;
pub mod raster;
pub mod scene;
pub mod surface;

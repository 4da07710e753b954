//! Viewport layout and asset streaming for a small real-time 3D engine.
//!
//! The crate holds the parts of the engine that carry invariants and can be
//! stated over whole numbers:
//!
//! * [`viewport`]: the splittable viewport tree, its walk and its input
//!   handler;
//! * [`gameplay`] and [`registry`]: the queue of pending image requests, the
//!   per-frame pump, and the texture arrays that the images go to;
//! * [`event`] and [`platform`]: the window events and their queue;
//! * [`text`], [`mdi`] and [`scene`]: the integer side of text layout, of
//!   indirect draws and of the scene.
//!
//! Nothing here talks to a window, a file or a GPU. Events come in as
//! values, and what is to be done on the GPU goes out as values. Colours are
//! 8-bit channels and rectangles are pixel rectangles; the caller turns them
//! into floating point where a renderer wants that.

pub mod math;
pub mod gpu;
pub mod img;
pub mod mt;
pub mod texture2d;
pub mod registry;
pub mod cubemap;
pub mod device;
pub mod mouse_cursor;
pub mod viewport;
pub mod event;
pub mod platform;
pub mod gl_setup;
pub mod scene;
pub mod gameplay;
pub mod mdi;
pub mod text;

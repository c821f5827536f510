//! Core logic of the FastView image browser: the directory catalog, the
//! thumbnail grid geometry, the presentation state behind the renderer, the
//! thumbnail work queue, the cache record format, the view controller, and
//! what is made of the metadata of an image.
//!
//! Everything here works on plain values. Reading directories and files,
//! talking to the GPU, the window system, the cache database and the worker
//! thread's channels are left to the program that links this library.

pub mod cache;
pub mod controller;
pub mod image_loader;
pub mod input_handler;
pub mod layout;
pub mod metadata;
pub mod paths;
pub mod pixels;
pub mod prompt;
pub mod renderer;
pub mod text;
pub mod worker;

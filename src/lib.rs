//! Lifecycle and render-pass planning for a GPU renderer that draws into a
//! framebuffer owned by a host windowing toolkit.
//!
//! The library decides; the host performs. Each lifecycle callback of the host
//! is handed to [`area::WgpuArea`], which answers with a [`area::Request`] saying what the
//! host side must do next (open an adapter, adopt the host framebuffer, record
//! and submit one render pass, release everything), and the outcome of that
//! work comes back as the next event.
pub mod area;
pub mod frame;
pub mod laws;

//! Core Animation: the compositor's scheduling and geometry, and the
//! choice of the full-screen `CAEAGLLayer` fast path.
pub mod composition;
pub mod ca_eagl_layer;

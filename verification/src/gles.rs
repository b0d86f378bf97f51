//! The OpenGL ES side of the emulator: parameter tables, the fixed-point
//! bookkeeping of the OpenGL ES 1.1 on OpenGL 2.1 layer, and frame counting.
//! The OpenGL calls themselves are made around this library.
pub mod gles1_on_gl2;
pub mod gles1_params;
pub mod present;
pub mod util;

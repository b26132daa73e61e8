//! Verified core of a small path tracer: packing of pixel colors and the
//! framebuffer layout, the nearest-hit choice of the scene query, and the
//! bounce budget of the diffuse shader.
pub mod pixel;
pub mod scene;
pub mod shade;

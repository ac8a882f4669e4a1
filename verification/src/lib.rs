//! Verified core of an orbital-camera sky renderer: the orbit-drag state
//! machine, resampling of RGBA16F sky textures, the bookkeeping of the
//! background sky loaders, the render loop's scheduling decisions and the
//! integer limits of the integrator settings.
pub mod drag;
pub mod frame;
pub mod hdr;
pub mod loader;
pub mod settings;

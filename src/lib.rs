//! The exact side of a path-tracing renderer: rays as a pair of origin and
//! direction; the scene's primitive list with its shared material table and
//! its nearest-hit scan; the decisions of the radiance estimate (when a ray
//! ends black, sees the sky or bounces), of each material (diffuse, reflect,
//! refract or absorb) and of the sphere test (which root is the hit); the
//! order in which pixels are evaluated and written; and the plain-PPM text of
//! the finished image. The floating-point arithmetic these decisions rest on
//! is the caller's.

pub mod integrator;
pub mod material;
pub mod ppm;
pub mod raster;
pub mod ray;
pub mod scene;
pub mod sphere;

//! Wrappers around OpenGL objects (buffers, shaders, programs, textures,
//! vertex arrays), each owning one driver handle, with every decision they
//! make verified. The wrappers never call the driver themselves: each
//! operation takes what the driver reported (a new handle, a status, a log)
//! and hands back the driver calls to issue, as plain [`driver::GlCall`]
//! values, which the caller issues in order. `device` gives those calls a
//! meaning as updates of the driver's binding table; each module states the
//! laws of its wrapper over it. `image` decodes pictures for textures.

pub mod buffer;
pub mod device;
pub mod driver;
pub mod image;
pub mod shader;
pub mod shader_program;
pub mod texture;
pub mod vertex_array;

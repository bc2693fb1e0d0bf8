//! Verified core of a GPU rendering backend: resource lifecycle management,
//! per-frame double buffering, replay of a declarative draw-command log into
//! native-call descriptions, and image layout/access synchronization.

pub mod attribute;
pub mod buffer;
pub mod draw;
pub mod frame;
pub mod geom;
pub mod gfx;
pub mod glsl;
pub mod gpu_texture;
pub mod image;
pub mod material;
pub mod mesh;
pub mod pipeline;
pub mod replay;
pub mod resource;
pub mod shader;
pub mod swapchain;
pub mod texture_data;
pub mod uniform;
pub mod util;

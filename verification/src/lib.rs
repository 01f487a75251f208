//! A retained-mode 3D scene renderer core against a portable GPU device
//! model.
//!
//! Applications register geometry, materials and textures in content
//! addressed loaders, build a [`renderer::Renderer`] for a drawable surface,
//! and insert scene nodes into a [`scene::Scene`].  The scene owns one GPU
//! resident record per node, caches compiled render pipelines by shader
//! identity, keeps lighting and camera uniform buffers packed in the fixed
//! binding-slot layout, and assembles one indexed draw per node each frame.
//!
//! GPU resources are modelled as plain values: a buffer is an allocation
//! handle plus its current contents as 32-bit words.  A thin host shim turns
//! the assembled frames and buffer contents into calls on a real GPU device;
//! everything the engine decides — what is allocated, what every buffer
//! holds, what is drawn, and in which order — is specified and verified
//! here.

pub mod camera;
pub mod cuboid;
pub mod geometry;
pub mod renderer;
pub mod kv;
pub mod laws;
pub mod lighting;
pub mod loader;
pub mod material;
pub mod mathops;
pub mod mesh_basic;
pub mod object3d;
pub mod resource;
pub mod scene;
pub mod texture;
pub mod units;

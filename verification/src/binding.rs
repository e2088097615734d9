use vstd::prelude::*;

verus! {

/// The shader stage that may read a bound resource.
#[derive(Clone, Copy, Debug, PartialEq, Eq, Structural)]
pub enum ShaderStage {
    Vertex,
    Fragment,
}

/// What a buffer may be used for.
#[derive(Clone, Copy, Debug, PartialEq, Eq, Structural)]
pub struct BufferUsages {
    pub uniform: bool,
    pub copy_dst: bool,
    pub vertex: bool,
    pub index: bool,
}

/// The kind of resource behind one binding of a bind group.
#[derive(Clone, Copy, Debug, PartialEq, Eq, Structural)]
pub enum BindingType {
    /// A read-only uniform buffer, bound whole and at a fixed offset.
    UniformBuffer,
    /// A two-dimensional, single-sampled texture of filterable float samples.
    Texture2d,
    /// A filtering sampler.
    FilteringSampler,
}

/// One slot of a bind group layout.
#[derive(Clone, Copy, Debug, PartialEq, Eq, Structural)]
pub struct BindGroupLayoutEntry {
    pub binding: u32,
    pub visibility: ShaderStage,
    pub ty: BindingType,
}

/// The resources that a bind group exposes together.
#[derive(Clone, Copy, Debug, PartialEq, Eq, Structural)]
pub enum BindGroupKind {
    /// The camera's view-projection matrix.
    Camera,
    /// The diffuse texture and its sampler.
    Texture,
}

} // verus!

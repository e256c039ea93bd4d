use vstd::prelude::*;

verus! {

/// The subset of GPU image formats that the pipeline declares.
#[derive(Clone, Copy, PartialEq, Eq, Structural, Debug)]
pub enum Format {
    Rgba8Unorm,
    R32Sfloat,
    Rg16Sfloat,
    Rgba16Sfloat,
    Rgba16Snorm,
    Rgba32Sfloat,
    D32Sfloat,
}

pub const USAGE_SAMPLED: u32 = 1;
pub const USAGE_STORAGE: u32 = 2;
pub const USAGE_TRANSFER_SRC: u32 = 4;
pub const USAGE_TRANSFER_DST: u32 = 8;

/// Description of a GPU image: everything the scheduler needs to pair,
/// alias and synchronize physical allocations. Immutable once a pass
/// declares it.
#[derive(Clone, Copy, PartialEq, Eq, Structural, Debug)]
pub struct ImageDesc {
    pub format: Format,
    pub width: u32,
    pub height: u32,
    pub depth: u32,
    pub usage: u32,
    pub mip_levels: u32,
    pub array_layers: u32,
}

/// Description of a GPU buffer.
#[derive(Clone, Copy, PartialEq, Eq, Structural, Debug)]
pub struct BufferDesc {
    pub size_bytes: usize,
    pub usage: u32,
}

/// What a graph resource describes: an image, a buffer, or a ray-tracing
/// acceleration structure (opaque to this core beyond its identity).
#[derive(Clone, Copy, PartialEq, Eq, Structural, Debug)]
pub enum ResourceDesc {
    Image(ImageDesc),
    Buffer(BufferDesc),
    AccelStructure,
}

/// Two image descriptors are compatible when format, extent and usage are
/// equal; this is what pairing a temporal stream's output with its history
/// requires.
pub open spec fn desc_compatible(a: ImageDesc, b: ImageDesc) -> bool {
    a.format == b.format && a.width == b.width && a.height == b.height && a.depth == b.depth
        && a.usage == b.usage
}

impl ImageDesc {
    /// A fresh 2D single-mip image description with no usage flags.
    pub fn new_2d(format: Format, width: u32, height: u32) -> (d: ImageDesc)
        ensures
            d == (ImageDesc {
                format,
                width,
                height,
                depth: 1u32,
                usage: 0u32,
                mip_levels: 1u32,
                array_layers: 1u32,
            }),
    {
        ImageDesc { format, width, height, depth: 1, usage: 0, mip_levels: 1, array_layers: 1 }
    }

    /// The same image with another format.
    pub fn with_format(self, format: Format) -> (d: ImageDesc)
        ensures
            d == (ImageDesc { format, ..self }),
    {
        ImageDesc { format, ..self }
    }

    /// The same image with the given usage flags (replacing the old ones).
    pub fn with_usage(self, usage: u32) -> (d: ImageDesc)
        ensures
            d == (ImageDesc { usage, ..self }),
    {
        ImageDesc { usage, ..self }
    }

    /// Half resolution in width and height, rounding up so a nonzero extent
    /// never collapses to zero.
    pub fn half_res(self) -> (d: ImageDesc)
        ensures
            d == (ImageDesc {
                width: ((self.width + 1) / 2) as u32,
                height: ((self.height + 1) / 2) as u32,
                ..self
            }),
    {
        ImageDesc {
            width: self.width / 2 + self.width % 2,
            height: self.height / 2 + self.height % 2,
            ..self
        }
    }
}

} // verus!

//! Plain descriptions of GPU resources and accesses: pixel formats, image
//! and buffer descriptors, aspect masks, and the access-type tags that the
//! graph engine uses to order and synchronize passes.

use vstd::prelude::*;

verus! {

/// Pixel format of an image resource.
#[derive(Clone, Copy, Debug, PartialEq, Eq, Structural)]
pub enum Format {
    R8Unorm,
    R16G16B16A16Sfloat,
    R32Sfloat,
    R32G32B32A32Sfloat,
    D24UnormS8Uint,
    D32Sfloat,
}

/// The planes of an image view that an access touches.
#[derive(Clone, Copy, Debug, PartialEq, Eq, Structural)]
pub enum AspectMask {
    Color,
    Depth,
    Stencil,
    DepthStencil,
}

/// How a pass touches a resource. The graph engine orders and synchronizes
/// conflicting accesses from these tags; this layer only records them.
#[derive(Clone, Copy, Debug, PartialEq, Eq, Structural)]
pub enum AccessType {
    ComputeShaderReadSampledImageOrUniformTexelBuffer,
    VertexShaderReadSampledImageOrUniformTexelBuffer,
    FragmentShaderReadSampledImageOrUniformTexelBuffer,
    AnyShaderReadOther,
    IndexBuffer,
    IndirectBuffer,
    ComputeShaderWrite,
    AnyShaderWrite,
    TransferWrite,
    ColorAttachmentWrite,
    DepthStencilAttachmentWrite,
    General,
}

impl AccessType {
    /// Whether the tag grants write access. `General` is read-modify-write
    /// in place, so it counts as a write.
    pub open spec fn is_write(self) -> bool {
        match self {
            AccessType::ComputeShaderWrite => true,
            AccessType::AnyShaderWrite => true,
            AccessType::TransferWrite => true,
            AccessType::ColorAttachmentWrite => true,
            AccessType::DepthStencilAttachmentWrite => true,
            AccessType::General => true,
            _ => false,
        }
    }

    /// Runtime test matching [`AccessType::is_write`].
    pub fn is_write_access(&self) -> (r: bool)
        ensures
            r == self.is_write(),
    {
        match self {
            AccessType::ComputeShaderWrite => true,
            AccessType::AnyShaderWrite => true,
            AccessType::TransferWrite => true,
            AccessType::ColorAttachmentWrite => true,
            AccessType::DepthStencilAttachmentWrite => true,
            AccessType::General => true,
            _ => false,
        }
    }
}

/// Description of an image resource: its extent in texels and its format.
#[verifier::ext_equal]
#[derive(Clone, Copy, Debug, PartialEq, Eq)]
pub struct ImageDesc {
    pub extent: [u32; 3],
    pub format: Format,
}

/// `d` with its format replaced: the extent is kept, the original format
/// plays no part in the result.
pub open spec fn with_format(d: ImageDesc, format: Format) -> ImageDesc {
    ImageDesc { extent: d.extent, format }
}

impl ImageDesc {
    /// A description with the given extent and format.
    pub fn new(extent: [u32; 3], format: Format) -> (d: ImageDesc)
        ensures
            d.extent@ == extent@,
            d.format == format,
    {
        ImageDesc { extent, format }
    }

    /// The same extent with a different format: the shape of every derived
    /// render target ("same size as the input, new pixel format"). The
    /// result does not depend on the receiver's own format.
    pub fn format(self, format: Format) -> (d: ImageDesc)
        ensures
            d == with_format(self, format),
            d.extent@ == self.extent@,
            d.format == format,
    {
        ImageDesc { extent: self.extent, format }
    }
}

/// What a buffer may be used for.
#[derive(Clone, Copy, Debug, PartialEq, Eq, Structural)]
pub enum BufferUsage {
    Storage,
    Index,
    Indirect,
}

/// Description of a buffer resource: its size in bytes and its usage.
#[derive(Clone, Copy, Debug, PartialEq, Eq, Structural)]
pub struct BufferDesc {
    pub size: usize,
    pub usage: BufferUsage,
}

impl BufferDesc {
    /// A description with the given byte size and usage.
    pub fn new(size: usize, usage: BufferUsage) -> (d: BufferDesc)
        ensures
            d.size == size,
            d.usage == usage,
    {
        BufferDesc { size, usage }
    }
}

/// An externally managed bindless descriptor set, referenced opaquely and
/// never composed by this layer.
#[derive(Clone, Copy, Debug, PartialEq, Eq, Structural)]
pub struct RawDescriptorSet {
    pub id: u64,
}

/// An opaque reference to a backend render pass object (the attachment
/// layout a raster pipeline is compiled against).
#[derive(Clone, Copy, Debug, PartialEq, Eq, Structural)]
pub struct RenderPass {
    pub id: u64,
}

} // verus!

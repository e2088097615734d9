use crate::binding::{BindGroupLayoutEntry, BindingType, ShaderStage};
use crate::surface::TextureUsages;
use vstd::prelude::*;

verus! {

/// The extent of a texture in texels.
#[derive(Clone, Copy, Debug, PartialEq, Eq, Structural)]
pub struct Extent3d {
    pub width: u32,
    pub height: u32,
    pub depth_or_array_layers: u32,
}

/// The format in which an image is uploaded: four 8-bit channels, red first,
/// whose colours are decoded from sRGB when the texture is sampled.
#[derive(Clone, Copy, Debug, PartialEq, Eq, Structural)]
pub enum TexelFormat {
    Rgba8UnormSrgb,
}

/// How the texels of a sampled texture are picked.
#[derive(Clone, Copy, Debug, PartialEq, Eq, Structural)]
pub enum FilterMode {
    Nearest,
    Linear,
}

/// How a texture continues beyond its edges.
#[derive(Clone, Copy, Debug, PartialEq, Eq, Structural)]
pub enum AddressMode {
    ClampToEdge,
    Repeat,
    MirrorRepeat,
}

/// What is asked of the device when the texture is created.
#[derive(Clone, Copy, Debug, PartialEq, Eq, Structural)]
pub struct TextureDescriptor {
    pub size: Extent3d,
    pub mip_level_count: u32,
    pub sample_count: u32,
    pub format: TexelFormat,
    pub usage: TextureUsages,
}

/// The part of a texture that an upload writes to.
#[derive(Clone, Copy, Debug, PartialEq, Eq, Structural)]
pub struct ImageCopy {
    pub mip_level: u32,
    pub origin_x: u32,
    pub origin_y: u32,
    pub origin_z: u32,
}

/// How the rows of an image lie in the bytes that are uploaded.
#[derive(Clone, Copy, Debug, PartialEq, Eq, Structural)]
pub struct ImageDataLayout {
    pub offset: u64,
    pub bytes_per_row: Option<u32>,
    pub rows_per_image: Option<u32>,
}

/// How the texture is sampled.
#[derive(Clone, Copy, Debug, PartialEq, Eq, Structural)]
pub struct SamplerDescriptor {
    pub address_mode: AddressMode,
    pub mag_filter: FilterMode,
    pub min_filter: FilterMode,
    pub mipmap_filter: FilterMode,
}

/// Bytes per texel of the upload format.
pub const BYTES_PER_TEXEL: u32 = 4;

/// Whether the rows of an image this wide can be described: the length of a
/// row in bytes has to fit in 32 bits.
pub open spec fn row_fits(width: u32) -> bool {
    BYTES_PER_TEXEL * width <= u32::MAX
}

/// A two-dimensional image as the device sees it.
pub struct Texture {
    dimensions: (u32, u32),
    size: Extent3d,
}

impl Texture {
    #[verifier::type_invariant]
    spec fn inv(self) -> bool {
        &&& row_fits(self.dimensions.0)
        &&& self.size == (Extent3d {
            width: self.dimensions.0,
            height: self.dimensions.1,
            depth_or_array_layers: 1,
        })
    }

    /// Width and height of the image in texels.
    pub closed spec fn spec_dimensions(&self) -> (u32, u32) {
        self.dimensions
    }

    /// The layout slots of the texture's bind group: the texture itself,
    /// then its sampler, both read by the fragment stage.
    pub open spec fn spec_bind_group_layout() -> Seq<BindGroupLayoutEntry> {
        seq![
            BindGroupLayoutEntry {
                binding: 0,
                visibility: ShaderStage::Fragment,
                ty: BindingType::Texture2d,
            },
            BindGroupLayoutEntry {
                binding: 1,
                visibility: ShaderStage::Fragment,
                ty: BindingType::FilteringSampler,
            },
        ]
    }

    /// The texture for an image of `dimensions.0` by `dimensions.1` texels,
    /// or `None` for an image too wide for its rows to be described.
    pub fn new(dimensions: (u32, u32)) -> (r: Option<Self>)
        ensures
            r.is_some() <==> row_fits(dimensions.0),
            r.is_some() ==> r.unwrap().spec_dimensions() == dimensions,
    {
        if dimensions.0 <= u32::MAX / BYTES_PER_TEXEL {
            Some(
                Texture {
                    dimensions,
                    size: Extent3d {
                        width: dimensions.0,
                        height: dimensions.1,
                        depth_or_array_layers: 1,
                    },
                },
            )
        } else {
            None
        }
    }

    /// Width and height of the image in texels.
    pub fn dimensions(&self) -> (r: (u32, u32))
        ensures
            r == self.spec_dimensions(),
    {
        self.dimensions
    }

    /// The extent of the texture: that of the image, one layer deep.
    pub fn size(&self) -> (r: Extent3d)
        ensures
            r == (Extent3d {
                width: self.spec_dimensions().0,
                height: self.spec_dimensions().1,
                depth_or_array_layers: 1,
            }),
    {
        proof {
            use_type_invariant(self);
        }
        self.size
    }

    /// What is asked of the device: a single-sampled texture without
    /// mipmaps that can be bound and copied to.
    pub fn descriptor(&self) -> (r: TextureDescriptor)
        ensures
            r == (TextureDescriptor {
                size: Extent3d {
                    width: self.spec_dimensions().0,
                    height: self.spec_dimensions().1,
                    depth_or_array_layers: 1,
                },
                mip_level_count: 1,
                sample_count: 1,
                format: TexelFormat::Rgba8UnormSrgb,
                usage: TextureUsages {
                    copy_dst: true,
                    texture_binding: true,
                    render_attachment: false,
                },
            }),
    {
        TextureDescriptor {
            size: self.size(),
            mip_level_count: 1,
            sample_count: 1,
            format: TexelFormat::Rgba8UnormSrgb,
            usage: TextureUsages { copy_dst: true, texture_binding: true, render_attachment: false },
        }
    }

    /// The target of the upload: the whole first mip level.
    pub fn get_image_copy(&self) -> (r: ImageCopy)
        ensures
            r == (ImageCopy { mip_level: 0, origin_x: 0, origin_y: 0, origin_z: 0 }),
    {
        ImageCopy { mip_level: 0, origin_x: 0, origin_y: 0, origin_z: 0 }
    }

    /// The layout of the uploaded bytes: rows of four bytes per texel, one
    /// after the other from the first byte on.
    pub fn get_image_data_layout(&self) -> (r: ImageDataLayout)
        ensures
            r.offset == 0,
            r.bytes_per_row == Some((BYTES_PER_TEXEL * self.spec_dimensions().0) as u32),
            BYTES_PER_TEXEL * self.spec_dimensions().0 <= u32::MAX,
            r.rows_per_image == Some(self.spec_dimensions().1),
    {
        proof {
            use_type_invariant(self);
        }
        ImageDataLayout {
            offset: 0,
            bytes_per_row: Some(BYTES_PER_TEXEL * self.dimensions.0),
            rows_per_image: Some(self.dimensions.1),
        }
    }

    /// The number of bytes that the upload reads: all rows of the image.
    pub fn data_len(&self) -> (n: u64)
        ensures
            n == BYTES_PER_TEXEL * self.spec_dimensions().0 * self.spec_dimensions().1,
    {
        proof {
            use_type_invariant(self);
        }
        let row: u64 = (BYTES_PER_TEXEL * self.dimensions.0) as u64;
        let rows: u64 = self.dimensions.1 as u64;
        assert(row * rows <= u64::MAX) by (nonlinear_arith)
            requires
                row <= u32::MAX,
                rows <= u32::MAX,
        ;
        row * rows
    }

    /// The layout slots of the texture's bind group.
    pub fn get_bind_group_layout() -> (r: Vec<BindGroupLayoutEntry>)
        ensures
            r@ == Self::spec_bind_group_layout(),
    {
        let mut r: Vec<BindGroupLayoutEntry> = Vec::new();
        r.push(
            BindGroupLayoutEntry {
                binding: 0,
                visibility: ShaderStage::Fragment,
                ty: BindingType::Texture2d,
            },
        );
        r.push(
            BindGroupLayoutEntry {
                binding: 1,
                visibility: ShaderStage::Fragment,
                ty: BindingType::FilteringSampler,
            },
        );
        assert(r@ =~= Self::spec_bind_group_layout());
        r
    }

    /// The sampler of the texture: mirrored beyond the edges, smooth when
    /// magnified, nearest texel when minified.
    pub fn sampler() -> (r: SamplerDescriptor)
        ensures
            r == (SamplerDescriptor {
                address_mode: AddressMode::MirrorRepeat,
                mag_filter: FilterMode::Linear,
                min_filter: FilterMode::Nearest,
                mipmap_filter: FilterMode::Nearest,
            }),
    {
        SamplerDescriptor {
            address_mode: AddressMode::MirrorRepeat,
            mag_filter: FilterMode::Linear,
            min_filter: FilterMode::Nearest,
            mipmap_filter: FilterMode::Nearest,
        }
    }
}

} // verus!

use vstd::prelude::*;

use crate::region::{box_of, crop_box, has_area, within, CopyBox, CropRect, RegionError};

verus! {

/// Bind flag: the texture can be sampled as a shader input.
pub const BIND_SHADER_RESOURCE: u32 = 0x8;

/// CPU access flag: the texture can be mapped for reading.
pub const CPU_ACCESS_READ: u32 = 0x20000;

/// How the GPU and the CPU may use a texture.
#[derive(Clone, Copy, Debug, PartialEq, Eq, Structural)]
pub enum TextureUsage {
    Default,
    Immutable,
    Dynamic,
    Staging,
}

/// The description of a 2D texture.
#[derive(Clone, Copy, Debug, PartialEq, Eq, Structural)]
pub struct TextureDesc {
    pub width: u32,
    pub height: u32,
    pub mip_levels: u32,
    pub array_size: u32,
    pub format: u32,
    pub sample_count: u32,
    pub sample_quality: u32,
    pub usage: TextureUsage,
    pub bind_flags: u32,
    pub cpu_access_flags: u32,
    pub misc_flags: u32,
}

/// The description of the texture that receives a copy of `source`: CPU-readable
/// staging when `staging`, else sampleable by the GPU; sized to `region` when
/// one is given. Format, mip levels, array size and sampling are kept.
pub open spec fn destination_spec(source: TextureDesc, staging: bool, region: Option<CopyBox>) -> TextureDesc {
    TextureDesc {
        width: match region {
            Some(b) => (b.right - b.left) as u32,
            None => source.width,
        },
        height: match region {
            Some(b) => (b.bottom - b.top) as u32,
            None => source.height,
        },
        usage: if staging {
            TextureUsage::Staging
        } else {
            TextureUsage::Default
        },
        bind_flags: if staging {
            0
        } else {
            BIND_SHADER_RESOURCE
        },
        cpu_access_flags: if staging {
            CPU_ACCESS_READ
        } else {
            0
        },
        misc_flags: 0,
        ..source
    }
}

/// A texture with this description can be mapped for reading.
pub open spec fn is_readable(desc: TextureDesc) -> bool {
    desc.usage == TextureUsage::Staging && desc.cpu_access_flags == CPU_ACCESS_READ
}

/// Derives the description of the copy destination from the source's.
pub fn destination_desc(source: &TextureDesc, staging: bool, region: Option<CopyBox>) -> (r: TextureDesc)
    requires
        region matches Some(b) ==> b.left <= b.right && b.top <= b.bottom,
    ensures
        r == destination_spec(*source, staging, region),
{
    let mut desc = *source;
    desc.misc_flags = 0;
    if staging {
        desc.usage = TextureUsage::Staging;
        desc.bind_flags = 0;
        desc.cpu_access_flags = CPU_ACCESS_READ;
    } else {
        desc.usage = TextureUsage::Default;
        desc.bind_flags = BIND_SHADER_RESOURCE;
        desc.cpu_access_flags = 0;
    }
    if let Some(b) = region {
        desc.width = b.right - b.left;
        desc.height = b.bottom - b.top;
    }
    desc
}

/// How to materialise a copy of a captured frame: the destination's description,
/// and the source region when only part of the frame is copied.
#[derive(Clone, Copy, Debug, PartialEq, Eq, Structural)]
pub struct CopyPlan {
    pub desc: TextureDesc,
    pub region: Option<CopyBox>,
}

/// Plans the copy of a frame described by `source`: whole when `crop` is none,
/// else the crop rectangle, which must have area and lie within the source.
pub fn plan_copy(source: &TextureDesc, staging: bool, crop: Option<CropRect>) -> (r: Result<
    CopyPlan,
    RegionError,
>)
    ensures
        crop is None ==> r == Ok::<CopyPlan, RegionError>(
            CopyPlan { desc: destination_spec(*source, staging, None), region: None },
        ),
        crop matches Some(c) ==> (r is Ok <==> has_area(c) && within(
            c,
            source.width as nat,
            source.height as nat,
        )),
        crop matches Some(c) && !has_area(c) ==> r == Err::<CopyPlan, RegionError>(RegionError::Empty),
        crop matches Some(c) && has_area(c) && !within(c, source.width as nat, source.height as nat)
            ==> r == Err::<CopyPlan, RegionError>(RegionError::OutOfBounds),
        crop matches Some(c) ==> (r is Ok ==> r == Ok::<CopyPlan, RegionError>(
            CopyPlan {
                desc: destination_spec(*source, staging, Some(box_of(c))),
                region: Some(box_of(c)),
            },
        )),
{
    match crop {
        None => Ok(CopyPlan { desc: destination_desc(source, staging, None), region: None }),
        Some(rect) => {
            let b = crop_box(rect, source.width, source.height)?;
            Ok(CopyPlan { desc: destination_desc(source, staging, Some(b)), region: Some(b) })
        },
    }
}

/// A cropped copy has the crop rectangle's width and height, and its local
/// origin is the rectangle's top-left corner in the source: the copy box
/// starts at `(x, y)` and spans one slice.
pub proof fn lemma_crop_geometry(source: TextureDesc, staging: bool, crop: CropRect)
    requires
        has_area(crop),
        within(crop, source.width as nat, source.height as nat),
    ensures
        ({
            let b = box_of(crop);
            let desc = destination_spec(source, staging, Some(b));
            &&& desc.width == crop.width
            &&& desc.height == crop.height
            &&& desc.format == source.format
            &&& b.left == crop.x
            &&& b.top == crop.y
            &&& b.right - b.left == crop.width
            &&& b.bottom - b.top == crop.height
            &&& b.front == 0
            &&& b.back == 1
        }),
{
}

/// A whole copy has the source's size and format.
pub proof fn lemma_whole_copy_geometry(source: TextureDesc, staging: bool)
    ensures
        destination_spec(source, staging, None).width == source.width,
        destination_spec(source, staging, None).height == source.height,
        destination_spec(source, staging, None).format == source.format,
        staging ==> is_readable(destination_spec(source, staging, None)),
{
}

} // verus!

//! Images and image views, and the layout-transition barriers between
//! their uses.
//!
//! The image memory itself lives in the backend; an image here carries its
//! handle and the state the engine must track: current layout, format and
//! mip count. `change_layout` is the transition-barrier decision: from the
//! old and new layout it derives the access masks and pipeline stages of
//! the barrier the backend must insert.

use vstd::prelude::*;

use crate::gapi::Engine;

verus! {

/// What an attachment is for; decides usage bits and aspect flags.
#[derive(Clone, Copy, PartialEq, Eq, Structural, Debug)]
pub enum AttachmentType {
    ColorGBuffer,
    DepthGBuffer,
    DepthShadowBuffer,
    ColorDisplay,
    DepthStencilDisplay,
    ShadowAccumulator,
    Effect,
    Depth,
}

/// Pixel formats the engine allocates attachments and textures with.
#[derive(Clone, Copy, PartialEq, Eq, Structural, Debug)]
pub enum Format {
    RgbaFloat,
    RgbaByte,
    DepthFloat,
    Float,
    FlagBits8,
    FlagBits32,
    FlagBits64,
    FloatUniform8,
}

/// Coarse image layouts as the render layer names them.
#[derive(Clone, Copy, PartialEq, Eq, Structural, Debug)]
pub enum Layout {
    Uninitialized,
    DepthStencil,
    Display,
    ShaderReadOnly,
}

/// What an image is written as.
#[derive(Clone, Copy, PartialEq, Eq, Structural, Debug)]
pub enum Usage {
    Color,
    DepthStencil,
}

/// Dimensionality of an image.
#[derive(Clone, Copy, PartialEq, Eq, Structural, Debug)]
pub enum ImageType {
    Cube,
    D2,
    D3,
}

/// Device-level image layouts that transitions are decided over.
#[derive(Clone, Copy, PartialEq, Eq, Structural, Debug)]
pub enum ImageLayout {
    Undefined,
    Preinitialized,
    ColorAttachmentOptimal,
    DepthStencilAttachmentOptimal,
    TransferSrcOptimal,
    TransferDstOptimal,
    ShaderReadOnlyOptimal,
}

pub const ACCESS_HOST_WRITE: u32 = 0x4000;

pub const ACCESS_TRANSFER_READ: u32 = 0x800;

pub const ACCESS_TRANSFER_WRITE: u32 = 0x1000;

pub const ACCESS_COLOR_ATTACHMENT_WRITE: u32 = 0x100;

pub const ACCESS_DEPTH_STENCIL_ATTACHMENT_WRITE: u32 = 0x400;

pub const ACCESS_SHADER_READ: u32 = 0x20;

pub const STAGE_TRANSFER: u32 = 0x1000;

pub const STAGE_FRAGMENT_SHADER: u32 = 0x80;

/// The accesses that must have completed before leaving a layout.
pub open spec fn src_access_for(l: ImageLayout) -> u32 {
    match l {
        ImageLayout::Undefined => 0,
        ImageLayout::Preinitialized => ACCESS_HOST_WRITE,
        ImageLayout::ColorAttachmentOptimal => ACCESS_COLOR_ATTACHMENT_WRITE,
        ImageLayout::DepthStencilAttachmentOptimal => ACCESS_DEPTH_STENCIL_ATTACHMENT_WRITE,
        ImageLayout::TransferSrcOptimal => ACCESS_TRANSFER_READ,
        ImageLayout::TransferDstOptimal => ACCESS_TRANSFER_WRITE,
        ImageLayout::ShaderReadOnlyOptimal => ACCESS_SHADER_READ,
    }
}

/// The accesses that wait on the barrier when entering a layout; only
/// these layouts are valid transition targets.
pub open spec fn dst_access_for(l: ImageLayout) -> u32 {
    match l {
        ImageLayout::TransferDstOptimal => ACCESS_TRANSFER_WRITE,
        ImageLayout::TransferSrcOptimal => ACCESS_TRANSFER_READ,
        ImageLayout::ColorAttachmentOptimal => ACCESS_COLOR_ATTACHMENT_WRITE,
        ImageLayout::DepthStencilAttachmentOptimal => ACCESS_DEPTH_STENCIL_ATTACHMENT_WRITE,
        ImageLayout::ShaderReadOnlyOptimal => ACCESS_SHADER_READ,
        _ => 0,
    }
}

/// Layouts an image can be transitioned into.
pub open spec fn supported_transition_target(l: ImageLayout) -> bool {
    match l {
        ImageLayout::Undefined => false,
        ImageLayout::Preinitialized => false,
        _ => true,
    }
}

/// A pipeline barrier the backend must insert: the full layout transition
/// for one image.
#[derive(Clone, Copy, PartialEq, Eq, Structural, Debug)]
pub struct Barrier {
    pub image: u64,
    pub old_layout: ImageLayout,
    pub new_layout: ImageLayout,
    pub src_access_mask: u32,
    pub dst_access_mask: u32,
    pub src_stage: u32,
    pub dst_stage: u32,
    pub levels_count: u32,
}

/// An image: its backend handle and the state the engine tracks for it.
#[derive(Clone, Copy, PartialEq, Eq, Structural, Debug)]
pub struct Image {
    pub vk_data: u64,
    pub layout: ImageLayout,
    pub format: Format,
    pub mips_count: u8,
}

impl Image {
    /// Wraps an image the backend already owns (a swapchain image).
    pub fn new_with_vk_data(vk_image: u64, layout: ImageLayout, format: Format) -> (r: Self)
        ensures
            r == (Image { vk_data: vk_image, layout, format, mips_count: 1u8 }),
    {
        Image { vk_data: vk_image, layout, format, mips_count: 1 }
    }

    /// Decides the transition barrier from the current layout to
    /// `new_layout` and tracks the image as being in the new layout.
    ///
    /// Leaving `Undefined` for a shader-read layout must still order the
    /// host and transfer writes that initialized the image, so the source
    /// mask is widened there; a shader-read target moves the destination
    /// stage from the transfer stage to the fragment shader.
    pub fn change_layout(&mut self, new_layout: ImageLayout) -> (b: Barrier)
        requires
            supported_transition_target(new_layout),
        ensures
            final(self).layout == new_layout,
            final(self).vk_data == old(self).vk_data,
            final(self).format == old(self).format,
            final(self).mips_count == old(self).mips_count,
            b.image == old(self).vk_data,
            b.old_layout == old(self).layout,
            b.new_layout == new_layout,
            b.levels_count == old(self).mips_count,
            b.src_stage == STAGE_TRANSFER,
            b.dst_stage == if new_layout is ShaderReadOnlyOptimal {
                STAGE_FRAGMENT_SHADER
            } else {
                STAGE_TRANSFER
            },
            b.dst_access_mask == dst_access_for(new_layout),
            b.src_access_mask == if new_layout is ShaderReadOnlyOptimal && src_access_for(
                old(self).layout,
            ) == 0 {
                ACCESS_HOST_WRITE | ACCESS_TRANSFER_WRITE
            } else {
                src_access_for(old(self).layout)
            },
    {
        let mut dst_stage: u32 = STAGE_TRANSFER;
        let mut src_access_mask: u32 = match self.layout {
            ImageLayout::Undefined => 0,
            ImageLayout::Preinitialized => ACCESS_HOST_WRITE,
            ImageLayout::ColorAttachmentOptimal => ACCESS_COLOR_ATTACHMENT_WRITE,
            ImageLayout::DepthStencilAttachmentOptimal => ACCESS_DEPTH_STENCIL_ATTACHMENT_WRITE,
            ImageLayout::TransferSrcOptimal => ACCESS_TRANSFER_READ,
            ImageLayout::TransferDstOptimal => ACCESS_TRANSFER_WRITE,
            ImageLayout::ShaderReadOnlyOptimal => ACCESS_SHADER_READ,
        };
        let dst_access_mask: u32 = match new_layout {
            ImageLayout::TransferDstOptimal => ACCESS_TRANSFER_WRITE,
            ImageLayout::TransferSrcOptimal => ACCESS_TRANSFER_READ,
            ImageLayout::ColorAttachmentOptimal => ACCESS_COLOR_ATTACHMENT_WRITE,
            ImageLayout::DepthStencilAttachmentOptimal => ACCESS_DEPTH_STENCIL_ATTACHMENT_WRITE,
            ImageLayout::ShaderReadOnlyOptimal => {
                dst_stage = STAGE_FRAGMENT_SHADER;
                if src_access_mask == 0 {
                    src_access_mask = ACCESS_HOST_WRITE | ACCESS_TRANSFER_WRITE;
                }
                ACCESS_SHADER_READ
            },
            ImageLayout::Undefined => 0,
            ImageLayout::Preinitialized => 0,
        };
        let b = Barrier {
            image: self.vk_data,
            old_layout: self.layout,
            new_layout,
            src_access_mask,
            dst_access_mask,
            src_stage: STAGE_TRANSFER,
            dst_stage,
            levels_count: self.mips_count as u32,
        };
        self.layout = new_layout;
        b
    }
}

/// A view over an image, through which attachments and textures read it.
#[derive(Clone, Copy, PartialEq, Eq, Structural, Debug)]
pub struct View {
    pub image: Image,
    pub vk_data: u64,
}

impl View {
    /// Creates the backend view object for an existing image.
    pub fn create_vk_data_with_image(image: &Image, eng: &mut Engine) -> (r: u64)
        requires
            old(eng).spec_next_handle() < u64::MAX,
        ensures
            Engine::allocated_one(*old(eng), *final(eng), r),
    {
        eng.create_image_view()
    }

    /// A view over an image the engine owns.
    pub fn new_with_image(image: Image, eng: &mut Engine) -> (r: Self)
        requires
            old(eng).spec_next_handle() < u64::MAX,
        ensures
            r.image == image,
            Engine::allocated_one(*old(eng), *final(eng), r.vk_data),
    {
        let vk_data = View::create_vk_data_with_image(&image, eng);
        View { image, vk_data }
    }

    /// A view over an image the backend owns (a swapchain image).
    pub fn new_with_vk_image(
        vk_image: u64,
        format: Format,
        layout: ImageLayout,
        eng: &mut Engine,
    ) -> (r: Self)
        requires
            old(eng).spec_next_handle() < u64::MAX,
        ensures
            r.image == (Image { vk_data: vk_image, layout, format, mips_count: 1u8 }),
            Engine::allocated_one(*old(eng), *final(eng), r.vk_data),
    {
        View::new_with_image(Image::new_with_vk_data(vk_image, layout, format), eng)
    }

    /// A freshly allocated attachment image of the given format and size,
    /// with a view over it. The image starts out in the undefined layout.
    pub fn new_attachment(
        eng: &mut Engine,
        format: Format,
        attachment_type: AttachmentType,
        width: u32,
        height: u32,
    ) -> (r: Self)
        requires
            old(eng).spec_next_handle() + 2 <= u64::MAX,
        ensures
            Engine::allocated_two(*old(eng), *final(eng), r.image.vk_data, r.vk_data),
            r.image.layout is Undefined,
            r.image.format == format,
            r.image.mips_count == 1u8,
    {
        let vk_image = eng.create_image();
        let image = Image { vk_data: vk_image, layout: ImageLayout::Undefined, format, mips_count: 1 };
        let vk_data = View::create_vk_data_with_image(&image, eng);
        View { image, vk_data }
    }

    /// An attachment sized to the render surface; the backend supplies the
    /// surface extent.
    pub fn new_surface_attachment(
        eng: &mut Engine,
        format: Format,
        attachment_type: AttachmentType,
    ) -> (r: Self)
        requires
            old(eng).spec_next_handle() + 2 <= u64::MAX,
        ensures
            Engine::allocated_two(*old(eng), *final(eng), r.image.vk_data, r.vk_data),
            r.image.layout is Undefined,
            r.image.format == format,
            r.image.mips_count == 1u8,
    {
        let vk_image = eng.create_image();
        let image = Image { vk_data: vk_image, layout: ImageLayout::Undefined, format, mips_count: 1 };
        let vk_data = View::create_vk_data_with_image(&image, eng);
        View { image, vk_data }
    }

    /// The depth-stencil attachment of the surface, in the depth format the
    /// device supports.
    pub fn new_depth_stencil(eng: &mut Engine) -> (r: Self)
        requires
            old(eng).spec_next_handle() + 2 <= u64::MAX,
        ensures
            Engine::allocated_two(*old(eng), *final(eng), r.image.vk_data, r.vk_data),
            r.image.layout is Undefined,
            r.image.format is DepthFloat,
            r.image.mips_count == 1u8,
    {
        View::new_surface_attachment(eng, Format::DepthFloat, AttachmentType::DepthStencilDisplay)
    }
}

} // verus!

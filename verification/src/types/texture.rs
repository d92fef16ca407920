//! Textures: decoded images that shaders sample, and the depth target.

use vstd::prelude::*;
use crate::device::{
    BindGroupEntry, BindGroupId, BindGroupLayoutEntry, BindGroupLayoutId, BindingResource,
    BindingType, Device, RequestView, ShaderStages, TexelFormat, TextureId,
};
use crate::render_pass::{PassOp, RenderPass};

verus! {

/// A width and a height in texels.
#[derive(Clone, Copy, Debug, PartialEq, Eq, Structural)]
pub struct TextureSize {
    pub width: u32,
    pub height: u32,
}

/// A decoded image: `width * height` texels of four bytes each, row by row.
#[derive(Clone, Debug, PartialEq, Eq)]
pub struct ImageData {
    pub width: u32,
    pub height: u32,
    pub rgba: Vec<u8>,
}

pub struct ImageDataView {
    pub width: u32,
    pub height: u32,
    pub rgba: Seq<u8>,
}

impl View for ImageData {
    type V = ImageDataView;

    open spec fn view(&self) -> ImageDataView {
        ImageDataView { width: self.width, height: self.height, rgba: self.rgba@ }
    }
}

impl ImageDataView {
    /// The image has texels, and exactly as many bytes as its size asks for.
    pub open spec fn well_formed(self) -> bool {
        &&& self.width > 0
        &&& self.height > 0
        &&& self.rgba.len() == 4 * self.width * self.height
    }
}

/// The layout and the bind group through which a shader samples a texture.
#[derive(Clone, Copy, Debug, PartialEq, Eq, Structural)]
pub struct TextureBinding {
    pub bind_group_layout: BindGroupLayoutId,
    pub bind_group: BindGroupId,
}

/// A texture on the device. An image texture can be bound for sampling; the
/// depth target cannot.
#[derive(Clone, Copy, Debug, PartialEq, Eq, Structural)]
pub struct Texture {
    pub texture: TextureId,
    pub size: TextureSize,
    pub format: TexelFormat,
    pub binding: Option<TextureBinding>,
}

/// The three requests that make an image texture, its layout and its bind
/// group, when the first of them is request number `at`. The layout has the
/// texture at binding 0 and its sampler at binding 1, both for the fragment stage.
pub open spec fn image_texture_requests(image: ImageDataView, at: nat) -> Seq<RequestView> {
    seq![
        RequestView::CreateTexture {
            width: image.width,
            height: image.height,
            format: TexelFormat::Rgba8UnormSrgb,
            pixels: image.rgba,
        },
        RequestView::CreateBindGroupLayout {
            entries: seq![
                BindGroupLayoutEntry {
                    binding: 0,
                    visibility: ShaderStages { vertex: false, fragment: true },
                    ty: BindingType::Texture,
                    count: None,
                },
                BindGroupLayoutEntry {
                    binding: 1,
                    visibility: ShaderStages { vertex: false, fragment: true },
                    ty: BindingType::Sampler,
                    count: None,
                },
            ],
        },
        RequestView::CreateBindGroup {
            layout: BindGroupLayoutId { index: (at + 1) as usize },
            bindings: seq![
                BindGroupEntry {
                    binding: 0,
                    resource: BindingResource::TextureView(TextureId { index: at as usize }),
                },
                BindGroupEntry {
                    binding: 1,
                    resource: BindingResource::Sampler(TextureId { index: at as usize }),
                },
            ],
        },
    ]
}

/// The image texture that the three requests at `at` make.
pub open spec fn image_texture(image: ImageDataView, at: nat) -> Texture {
    Texture {
        texture: TextureId { index: at as usize },
        size: TextureSize { width: image.width, height: image.height },
        format: TexelFormat::Rgba8UnormSrgb,
        binding: Some(
            TextureBinding {
                bind_group_layout: BindGroupLayoutId { index: (at + 1) as usize },
                bind_group: BindGroupId { index: (at + 2) as usize },
            },
        ),
    }
}

/// The request that makes a depth target of the given size.
pub open spec fn depth_texture_request(width: u32, height: u32) -> RequestView {
    RequestView::CreateTexture {
        width,
        height,
        format: TexelFormat::Depth32Float,
        pixels: Seq::empty(),
    }
}

/// The depth target that request number `at` makes.
pub open spec fn depth_texture(width: u32, height: u32, at: nat) -> Texture {
    Texture {
        texture: TextureId { index: at as usize },
        size: TextureSize { width, height },
        format: TexelFormat::Depth32Float,
        binding: None,
    }
}

impl Texture {
    /// Whether `image` can be uploaded: it has texels, and exactly as many
    /// bytes as its size asks for.
    pub fn accepts(image: &ImageData) -> (ok: bool)
        ensures
            ok == image@.well_formed(),
    {
        if image.width == 0 || image.height == 0 {
            return false;
        }
        assert(image.width * image.height <= 0xffff_ffff * 0xffff_ffff) by (nonlinear_arith)
            requires
                image.width <= 0xffff_ffff,
                image.height <= 0xffff_ffff,
        ;
        let texels: u64 = (image.width as u64) * (image.height as u64);
        let bytes: u128 = 4 * (texels as u128);
        assert(4 * image.width * image.height == 4 * (image.width * image.height))
            by (nonlinear_arith);
        image.rgba.len() as u128 == bytes
    }

    /// Uploads a decoded image as a texture that shaders can sample. A
    /// malformed image is refused and nothing is asked of the device.
    pub fn from_image(device: &mut Device, image: &ImageData) -> (r: Option<Texture>)
        ensures
            r is Some <==> image@.well_formed(),
            r matches Some(texture) ==> {
                &&& final(device)@ == old(device)@ + image_texture_requests(
                    image@,
                    old(device)@.len(),
                )
                &&& texture == image_texture(image@, old(device)@.len())
            },
            r is None ==> final(device)@ == old(device)@,
    {
        if !Self::accepts(image) {
            return None;
        }
        let ghost decoded = image@;
        let size = TextureSize { width: image.width, height: image.height };
        let texture = device.create_texture(
            image.width,
            image.height,
            TexelFormat::Rgba8UnormSrgb,
            image.rgba.clone(),
        );
        let mut entries: Vec<BindGroupLayoutEntry> = Vec::new();
        entries.push(
            BindGroupLayoutEntry {
                binding: 0,
                visibility: ShaderStages { vertex: false, fragment: true },
                ty: BindingType::Texture,
                count: None,
            },
        );
        entries.push(
            BindGroupLayoutEntry {
                binding: 1,
                visibility: ShaderStages { vertex: false, fragment: true },
                ty: BindingType::Sampler,
                count: None,
            },
        );
        let ghost slots = entries@;
        let bind_group_layout = device.create_bind_group_layout(entries);
        let mut bindings: Vec<BindGroupEntry> = Vec::new();
        bindings.push(BindGroupEntry { binding: 0, resource: BindingResource::TextureView(texture) });
        bindings.push(BindGroupEntry { binding: 1, resource: BindingResource::Sampler(texture) });
        let ghost bound = bindings@;
        let bind_group = device.create_bind_group(bind_group_layout, bindings);
        proof {
            let expected = image_texture_requests(decoded, old(device)@.len());
            assert(expected[1] matches RequestView::CreateBindGroupLayout { entries: e }
                && e =~= slots);
            assert(expected[2] matches RequestView::CreateBindGroup { layout: l, bindings: b }
                && b =~= bound);
            assert(device@ =~= old(device)@ + image_texture_requests(decoded, old(device)@.len()));
        }
        Some(
            Texture {
                texture,
                size,
                format: TexelFormat::Rgba8UnormSrgb,
                binding: Some(TextureBinding { bind_group_layout, bind_group }),
            },
        )
    }

    /// Asks for a depth target of the given size.
    pub fn create_depth_texture(device: &mut Device, width: u32, height: u32) -> (texture: Texture)
        ensures
            final(device)@ == old(device)@.push(depth_texture_request(width, height)),
            texture == depth_texture(width, height, old(device)@.len()),
    {
        let texture = device.create_texture(width, height, TexelFormat::Depth32Float, Vec::new());
        Texture {
            texture,
            size: TextureSize { width, height },
            format: TexelFormat::Depth32Float,
            binding: None,
        }
    }

    /// Replaces this depth target by a new one of the given size.
    pub fn resize_screen_texture(&mut self, device: &mut Device, width: u32, height: u32)
        ensures
            final(device)@ == old(device)@.push(depth_texture_request(width, height)),
            *final(self) == depth_texture(width, height, old(device)@.len()),
    {
        *self = Self::create_depth_texture(device, width, height);
    }

    /// The size that the texture was made with.
    pub fn get_texture_size(&self) -> (size: TextureSize)
        ensures
            size == self.size,
    {
        self.size
    }

    /// The layout of the texture's bind group, if it can be sampled.
    pub fn get_bind_group_layout(&self) -> (layout: Option<BindGroupLayoutId>)
        ensures
            layout == self.spec_bind_group_layout(),
    {
        match self.binding {
            Some(binding) => Some(binding.bind_group_layout),
            None => None,
        }
    }

    pub open spec fn spec_bind_group_layout(&self) -> Option<BindGroupLayoutId> {
        match self.binding {
            Some(binding) => Some(binding.bind_group_layout),
            None => None,
        }
    }

    /// What binding the texture at slot `index` records: its bind group, if it has one.
    pub open spec fn bind_ops(&self, index: u32) -> Seq<PassOp> {
        match self.binding {
            Some(binding) => seq![PassOp::SetBindGroup { index, group: binding.bind_group }],
            None => Seq::empty(),
        }
    }

    /// Binds the texture's bind group at bind-group slot `index`. A texture
    /// that cannot be sampled binds nothing.
    pub fn bind(&self, index: u32, render_pass: &mut RenderPass)
        ensures
            final(render_pass)@ == old(render_pass)@.plus(self.bind_ops(index)),
    {
        match self.binding {
            Some(binding) => {
                render_pass.set_bind_group(index, binding.bind_group);
            },
            None => {
                proof {
                    crate::render_pass::lemma_plus(old(render_pass)@, Seq::empty(), Seq::empty());
                }
            },
        }
    }
}

} // verus!

//! The multisampled colour target that anti-aliased drawing renders into.
//!
//! The manager never talks to the GPU itself. Whoever owns the device hands
//! [`Msaa::target`] an allocator; the manager decides whether to call it.
use vstd::prelude::*;

verus! {

/// An anti-aliasing strategy.
#[derive(Clone, Copy, Debug, PartialEq, Eq, Hash)]
pub enum Antialiasing {
    /// Multisample anti-aliasing with 2 samples per pixel.
    MSAAx2,
    /// Multisample anti-aliasing with 4 samples per pixel.
    MSAAx4,
    /// Multisample anti-aliasing with 8 samples per pixel.
    MSAAx8,
    /// Multisample anti-aliasing with 16 samples per pixel.
    MSAAx16,
}

impl Antialiasing {
    /// The number of samples per pixel that the strategy asks for.
    pub open spec fn samples(self) -> u32 {
        match self {
            Antialiasing::MSAAx2 => 2,
            Antialiasing::MSAAx4 => 4,
            Antialiasing::MSAAx8 => 8,
            Antialiasing::MSAAx16 => 16,
        }
    }

    /// Returns the number of samples per pixel.
    pub fn sample_count(self) -> (count: u32)
        ensures
            count == self.samples(),
    {
        match self {
            Antialiasing::MSAAx2 => 2,
            Antialiasing::MSAAx4 => 4,
            Antialiasing::MSAAx8 => 8,
            Antialiasing::MSAAx16 => 16,
        }
    }
}

/// The extent of a texture in texels.
#[derive(Clone, Copy, Debug, PartialEq, Eq, Hash)]
pub struct Extent3d {
    /// The width of the texture.
    pub width: u32,
    /// The height of the texture.
    pub height: u32,
    /// The depth of a 3D texture, or the number of layers of an array.
    pub depth_or_array_layers: u32,
}

/// The dimensionality of a texture.
#[derive(Clone, Copy, Debug, PartialEq, Eq, Hash)]
pub enum TextureDimension {
    /// A one-dimensional texture.
    D1,
    /// A two-dimensional texture.
    D2,
    /// A three-dimensional texture.
    D3,
}

/// What a texture is going to be used for.
#[derive(Clone, Copy, Debug, PartialEq, Eq, Hash)]
pub enum TextureUsage {
    /// The source of a copy.
    CopySrc,
    /// The destination of a copy.
    CopyDst,
    /// A texture that shaders sample from.
    TextureBinding,
    /// A texture that shaders write to.
    StorageBinding,
    /// The colour or depth attachment of a render pass.
    RenderAttachment,
}

/// Everything an allocator needs to know to create a texture.
#[derive(Clone, Copy, Debug, PartialEq, Eq, Hash)]
pub struct TextureDescriptor<Format> {
    /// The extent of the texture.
    pub size: Extent3d,
    /// The number of mip levels.
    pub mip_level_count: u32,
    /// The number of samples per texel.
    pub sample_count: u32,
    /// The dimensionality of the texture.
    pub dimension: TextureDimension,
    /// The texel format.
    pub format: Format,
    /// The use the texture is created for.
    pub usage: TextureUsage,
}

impl<Format> TextureDescriptor<Format> {
    /// The descriptor of a multisample render target of `width` by `height`
    /// texels: one layer, one mip level, two-dimensional, attachable.
    pub open spec fn multisample(
        format: Format,
        sample_count: u32,
        width: u32,
        height: u32,
    ) -> Self {
        TextureDescriptor {
            size: Extent3d { width, height, depth_or_array_layers: 1 },
            mip_level_count: 1,
            sample_count,
            dimension: TextureDimension::D2,
            format,
            usage: TextureUsage::RenderAttachment,
        }
    }
}

/// A live multisample target: the view to render into, and the extent it
/// was allocated with.
#[derive(Debug)]
pub struct Target<Handle> {
    /// The view of the texture.
    pub view: Handle,
    /// The width the texture was allocated with.
    pub width: u32,
    /// The height the texture was allocated with.
    pub height: u32,
}

impl<Handle> Target<Handle> {
    /// Allocates a target of `width` by `height` texels.
    ///
    /// `allocate` is called exactly once, with the multisample descriptor
    /// for the given format, sample count and extent.
    pub fn new<Format, Allocate>(
        allocate: Allocate,
        format: Format,
        sample_count: u32,
        width: u32,
        height: u32,
    ) -> (target: Target<Handle>) where Allocate: FnOnce(TextureDescriptor<Format>) -> Handle
        requires
            allocate.requires(
                (TextureDescriptor::multisample(format, sample_count, width, height),),
            ),
        ensures
            target.width == width,
            target.height == height,
            allocate.ensures(
                (TextureDescriptor::multisample(format, sample_count, width, height),),
                target.view,
            ),
    {
        let extent = Extent3d { width, height, depth_or_array_layers: 1 };

        let descriptor = TextureDescriptor {
            size: extent,
            mip_level_count: 1,
            sample_count,
            dimension: TextureDimension::D2,
            format,
            usage: TextureUsage::RenderAttachment,
        };

        let view = allocate(descriptor);

        Target { view, width, height }
    }
}

/// The manager of the multisample target.
///
/// The target is absent until it is first asked for, and is replaced
/// whenever it is asked for with another extent.
#[derive(Debug)]
pub struct Msaa<Format, Handle> {
    /// The texel format of every target.
    pub format: Format,
    /// The number of samples per texel of every target.
    pub sample_count: u32,
    /// The live target, if one was allocated.
    pub target: Option<Target<Handle>>,
}

impl<Format: Copy, Handle> Msaa<Format, Handle> {
    /// Whether the live target has exactly the given extent.
    pub open spec fn holds(self, width: u32, height: u32) -> bool {
        self.target matches Some(target) && target.width == width && target.height == height
    }

    /// The descriptor that a target of the given extent is allocated with.
    pub open spec fn descriptor(self, width: u32, height: u32) -> TextureDescriptor<Format> {
        TextureDescriptor::multisample(self.format, self.sample_count, width, height)
    }

    /// The manager after a target of the given extent was asked for, where
    /// `fresh` is the view that an allocation would give.
    pub open spec fn after_request(self, width: u32, height: u32, fresh: Handle) -> Self {
        if self.holds(width, height) {
            self
        } else {
            Msaa {
                format: self.format,
                sample_count: self.sample_count,
                target: Some(Target { view: fresh, width, height }),
            }
        }
    }

    /// Creates a manager without a target.
    pub fn new(format: Format, antialiasing: Antialiasing) -> (msaa: Msaa<Format, Handle>)
        ensures
            msaa.format == format,
            msaa.sample_count == antialiasing.samples(),
            msaa.target is None,
    {
        Msaa { format, sample_count: antialiasing.sample_count(), target: None }
    }

    /// Returns the view of a target of exactly `width` by `height` texels.
    ///
    /// Where the live target already has that extent, it is kept and
    /// `allocate` is dropped unused. Otherwise the live target, if any, is
    /// released and `allocate` provides its replacement.
    pub fn target<Allocate>(&mut self, allocate: Allocate, width: u32, height: u32) -> (view:
        &Handle) where Allocate: FnOnce(TextureDescriptor<Format>) -> Handle
        requires
            !old(self).holds(width, height) ==> allocate.requires(
                (old(self).descriptor(width, height),),
            ),
        ensures
            *final(self) == old(self).after_request(width, height, *view),
            old(self).holds(width, height) ==> Some(*view) == old(self).current_view(),
            !old(self).holds(width, height) ==> allocate.ensures(
                (old(self).descriptor(width, height),),
                *view,
            ),
    {
        let reuse = match &self.target {
            None => false,
            Some(target) => target.width == width && target.height == height,
        };

        if !reuse {
            self.target = Some(
                Target::new(allocate, self.format, self.sample_count, width, height),
            );
        }

        let target = self.target.as_ref().unwrap();

        &target.view
    }

    /// The view of the live target, if there is one.
    pub open spec fn current_view(self) -> Option<Handle> {
        match self.target {
            Some(target) => Some(target.view),
            None => None,
        }
    }

    /// Asking twice for the same extent allocates once: the second request
    /// leaves the manager, and with it the view, as the first one left it.
    pub proof fn lemma_same_extent_reuses(self, width: u32, height: u32, first: Handle, second: Handle)
        ensures
            self.after_request(width, height, first).holds(width, height),
            self.after_request(width, height, first).after_request(width, height, second)
                == self.after_request(width, height, first),
    {
    }

    /// After a request the live target has the requested extent, whatever
    /// was held before, and nothing but the target has changed.
    pub proof fn lemma_extent_follows_request(self, width: u32, height: u32, fresh: Handle)
        ensures
            self.after_request(width, height, fresh).target matches Some(target)
                && target.width == width && target.height == height,
            !self.holds(width, height) ==> self.after_request(width, height, fresh).current_view()
                == Some(fresh),
            self.after_request(width, height, fresh).format == self.format,
            self.after_request(width, height, fresh).sample_count == self.sample_count,
    {
    }
}

} // verus!

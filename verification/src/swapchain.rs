//! The presentable image chain: its geometry, what a surface offers, and the
//! description a chain is created and rebuilt from.

use vstd::prelude::*;

verus! {

/// Size of a surface or of an image, in pixels.
#[derive(Clone, Copy, Debug, PartialEq, Eq, Structural)]
pub struct Extent {
    pub width: u32,
    pub height: u32,
}

impl Extent {
    /// The extent with the given width and height.
    pub fn new(width: u32, height: u32) -> (e: Extent)
        ensures
            e == (Extent { width, height }),
    {
        Extent { width, height }
    }

    /// The extent as `[width, height]`.
    pub fn dimensions(&self) -> (d: [u32; 2])
        ensures
            d@ == seq![self.width, self.height],
    {
        [self.width, self.height]
    }
}

/// How presented images are queued for display.
#[derive(Clone, Copy, Debug, PartialEq, Eq, Structural)]
pub enum PresentMode {
    Immediate,
    Mailbox,
    Fifo,
    FifoRelaxed,
}

/// How the alpha channel of a presented image is combined with what lies
/// behind the surface.
#[derive(Clone, Copy, Debug, PartialEq, Eq, Structural)]
pub enum CompositeAlpha {
    Opaque,
    PreMultiplied,
    PostMultiplied,
    Inherit,
}

/// The composite alpha modes that a surface accepts.
#[derive(Clone, Copy, Debug, PartialEq, Eq, Structural)]
pub struct SupportedCompositeAlpha {
    pub opaque: bool,
    pub pre_multiplied: bool,
    pub post_multiplied: bool,
    pub inherit: bool,
}

impl SupportedCompositeAlpha {
    /// The first accepted mode in the order opaque, pre-multiplied,
    /// post-multiplied, inherit; `None` where no mode is accepted.
    pub open spec fn first(self) -> Option<CompositeAlpha> {
        if self.opaque {
            Some(CompositeAlpha::Opaque)
        } else if self.pre_multiplied {
            Some(CompositeAlpha::PreMultiplied)
        } else if self.post_multiplied {
            Some(CompositeAlpha::PostMultiplied)
        } else if self.inherit {
            Some(CompositeAlpha::Inherit)
        } else {
            None
        }
    }
}

/// Calls `vulkano::swapchain::SupportedCompositeAlpha::iter` and takes the
/// iterator's first item. Not proved: that the iterator walks the four modes
/// in the order opaque, pre-multiplied, post-multiplied, inherit and yields
/// exactly those whose flag is set, so that its first item is
/// `supported.first()`.
#[verifier::external_body]
fn first_composite_alpha(supported: SupportedCompositeAlpha) -> (mode: Option<CompositeAlpha>)
    ensures
        mode == supported.first(),
{
    let mut flags = vulkano::swapchain::SupportedCompositeAlpha::none();
    flags.opaque = supported.opaque;
    flags.pre_multiplied = supported.pre_multiplied;
    flags.post_multiplied = supported.post_multiplied;
    flags.inherit = supported.inherit;
    flags.iter().next().map(|mode| match mode {
        vulkano::swapchain::CompositeAlpha::Opaque => CompositeAlpha::Opaque,
        vulkano::swapchain::CompositeAlpha::PreMultiplied => CompositeAlpha::PreMultiplied,
        vulkano::swapchain::CompositeAlpha::PostMultiplied => CompositeAlpha::PostMultiplied,
        _ => CompositeAlpha::Inherit,
    })
}

/// What a surface reports of itself before a chain is created on it.
#[derive(Debug)]
pub struct SurfaceCapabilities {
    /// The least number of images a chain on this surface holds.
    pub min_image_count: u32,
    /// The image formats the surface accepts, in the order reported.
    pub formats: Vec<u32>,
    /// The composite alpha modes the surface accepts.
    pub supported_composite_alpha: SupportedCompositeAlpha,
    /// The presentation modes the device offers on this surface.
    pub present_modes: Vec<PresentMode>,
}

/// The code of the sRGB non-linear colour space, in which every chain is
/// created.
pub const SRGB_NON_LINEAR: u32 = 0;

/// The description a chain is created from. Format, colour space, image
/// count, composite alpha and presentation mode are fixed at creation; a
/// rebuild changes the extent alone.
#[derive(Clone, Copy, Debug, PartialEq, Eq, Structural)]
pub struct SwapchainInfo {
    pub min_image_count: u32,
    pub image_format: u32,
    pub image_color_space: u32,
    pub image_extent: Extent,
    pub composite_alpha: CompositeAlpha,
    pub present_mode: PresentMode,
}

impl SwapchainInfo {
    /// This description with its extent replaced by `extent`.
    pub open spec fn spec_with_extent(self, extent: Extent) -> SwapchainInfo {
        SwapchainInfo { image_extent: extent, ..self }
    }

    /// The description for rebuilding a chain at `extent`: every other field
    /// is carried over.
    #[verifier::when_used_as_spec(spec_with_extent)]
    pub fn with_extent(self, extent: Extent) -> (info: SwapchainInfo)
        ensures
            info == self.spec_with_extent(extent),
            info.min_image_count == self.min_image_count,
            info.image_format == self.image_format,
            info.image_color_space == self.image_color_space,
            info.composite_alpha == self.composite_alpha,
            info.present_mode == self.present_mode,
            info.image_extent == extent,
    {
        SwapchainInfo {
            min_image_count: self.min_image_count,
            image_format: self.image_format,
            image_color_space: self.image_color_space,
            image_extent: extent,
            composite_alpha: self.composite_alpha,
            present_mode: self.present_mode,
        }
    }
}

/// Whether `mode` occurs in `modes`.
pub fn offers_present_mode(modes: &Vec<PresentMode>, mode: PresentMode) -> (found: bool)
    ensures
        found == modes@.contains(mode),
{
    let mut i: usize = 0;
    while i < modes.len()
        invariant
            i <= modes.len(),
            forall|k: int| 0 <= k < i ==> modes@[k] != mode,
        decreases modes.len() - i,
    {
        if modes[i] == mode {
            return true;
        }
        i += 1;
    }
    false
}

impl SurfaceCapabilities {
    /// Whether a chain that presents by `present_mode` can be created on the
    /// surface: it reports a format, accepts a composite alpha mode, and the
    /// device offers the presentation mode.
    pub open spec fn spec_can_create(&self, present_mode: PresentMode) -> bool {
        &&& self.formats@.len() > 0
        &&& self.supported_composite_alpha.first() is Some
        &&& self.present_modes@.contains(present_mode)
    }

    /// Whether a chain that presents by `present_mode` can be created on the
    /// surface.
    #[verifier::when_used_as_spec(spec_can_create)]
    pub fn can_create(&self, present_mode: PresentMode) -> (possible: bool)
        ensures
            possible == self.spec_can_create(present_mode),
    {
        self.formats.len() > 0 && first_composite_alpha(self.supported_composite_alpha).is_some()
            && offers_present_mode(&self.present_modes, present_mode)
    }

    /// The description of the chain on this surface at `image_extent` with
    /// `present_mode`: the format is the first one reported, the colour
    /// space sRGB non-linear, the composite alpha the first one accepted, the
    /// image count the surface's minimum.
    pub open spec fn chain(&self, image_extent: Extent, present_mode: PresentMode) -> SwapchainInfo
        recommends
            self.spec_can_create(present_mode),
    {
        SwapchainInfo {
            min_image_count: self.min_image_count,
            image_format: self.formats@[0],
            image_color_space: SRGB_NON_LINEAR,
            image_extent,
            composite_alpha: self.supported_composite_alpha.first()->Some_0,
            present_mode,
        }
    }
}

/// Describes the chain to create on `surface` at `image_extent` with
/// `present_mode`. A surface on which no such chain can be created is
/// fatal: the caller ends the program on it and does not call;
/// `SurfaceCapabilities::can_create` tells.
pub fn create_swap_chain(
    surface: &SurfaceCapabilities,
    image_extent: Extent,
    present_mode: PresentMode,
) -> (created: SwapchainInfo)
    requires
        surface.spec_can_create(present_mode),
    ensures
        created == surface.chain(image_extent, present_mode),
{
    let image_format: u32 = surface.formats[0];
    let composite_alpha = first_composite_alpha(surface.supported_composite_alpha).unwrap();
    SwapchainInfo {
        min_image_count: surface.min_image_count,
        image_format,
        image_color_space: SRGB_NON_LINEAR,
        image_extent,
        composite_alpha,
        present_mode,
    }
}

} // verus!

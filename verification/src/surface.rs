//! The drawing surface: its configured size, when it is (re)configured,
//! and what each frame does with the texture the surface hands out.

use vstd::prelude::*;

verus! {

/// `value` brought into `[1, max]`, as `u32::clamp(value, 1, max)` does.
pub open spec fn clamp_dim(value: u32, max: u32) -> u32 {
    if value < 1 {
        1
    } else if value > max {
        max
    } else {
        value
    }
}

/// `u32::clamp(value, 1, max)`, for a `max` of at least 1 (below that the
/// standard `clamp` panics).
pub fn clamp_dimension(value: u32, max: u32) -> (r: u32)
    requires
        1 <= max,
    ensures
        r == clamp_dim(value, max),
        1 <= r <= max,
        1 <= value <= max ==> r == value,
        value > max ==> r == max,
        value == 0 ==> r == 1,
{
    if value < 1 {
        1
    } else if value > max {
        max
    } else {
        value
    }
}

/// Clamping to `[1, max]` keeps a value inside the range, takes a value
/// above the range to exactly `max`, and a zero to exactly 1.
pub proof fn lemma_clamp_dim(value: u32, max: u32)
    requires
        1 <= max,
    ensures
        1 <= clamp_dim(value, max) <= max,
        1 <= value <= max ==> clamp_dim(value, max) == value,
        value > max ==> clamp_dim(value, max) == max,
        value == 0 ==> clamp_dim(value, max) == 1,
{
}

/// The size the surface is configured with, and whether it has been
/// configured with the canvas's own size yet.
pub struct SurfaceConfig {
    pub width: u32,
    pub height: u32,
    pub configured: bool,
}

impl SurfaceConfig {
    /// A configuration never has an empty side.
    pub open spec fn wf(self) -> bool {
        self.width >= 1 && self.height >= 1
    }

    /// The configuration after the canvas reports `width` x `height`: a
    /// canvas with an empty side leaves it as it is; otherwise the sides are
    /// clamped to `[1, max_dimension]` and the surface counts as configured.
    pub open spec fn resized(self, width: u32, height: u32, max_dimension: u32) -> SurfaceConfig {
        if width > 0 && height > 0 {
            SurfaceConfig {
                width: clamp_dim(width, max_dimension),
                height: clamp_dim(height, max_dimension),
                configured: true,
            }
        } else {
            self
        }
    }

    /// The initial configuration for a canvas of `canvas_width` x
    /// `canvas_height`, before the first resize: clamped sides, not yet
    /// configured.
    pub fn new(canvas_width: u32, canvas_height: u32, max_dimension: u32) -> (config: SurfaceConfig)
        requires
            1 <= max_dimension,
        ensures
            config.width == clamp_dim(canvas_width, max_dimension),
            config.height == clamp_dim(canvas_height, max_dimension),
            !config.configured,
            config.wf(),
            config.width <= max_dimension && config.height <= max_dimension,
            1 <= canvas_width <= max_dimension ==> config.width == canvas_width,
            1 <= canvas_height <= max_dimension ==> config.height == canvas_height,
            canvas_width > max_dimension ==> config.width == max_dimension,
            canvas_height > max_dimension ==> config.height == max_dimension,
            canvas_width == 0 ==> config.width == 1,
            canvas_height == 0 ==> config.height == 1,
    {
        SurfaceConfig {
            width: clamp_dimension(canvas_width, max_dimension),
            height: clamp_dimension(canvas_height, max_dimension),
            configured: false,
        }
    }

    /// Follows the canvas to `width` x `height`. Returns whether the
    /// surface must be configured again with the new size.
    pub fn resize(&mut self, width: u32, height: u32, max_dimension: u32) -> (apply: bool)
        requires
            1 <= max_dimension,
        ensures
            apply == (width > 0 && height > 0),
            *final(self) == old(self).resized(width, height, max_dimension),
            apply ==> final(self).configured,
            apply ==> final(self).width == (if width > max_dimension { max_dimension } else { width }),
            apply ==> final(self).height == (if height > max_dimension { max_dimension } else { height }),
            !apply ==> *final(self) == *old(self),
    {
        if width > 0 && height > 0 {
            self.width = clamp_dimension(width, max_dimension);
            self.height = clamp_dimension(height, max_dimension);
            self.configured = true;
            true
        } else {
            false
        }
    }
}

/// Every well-formed configuration stays well formed across a resize.
pub proof fn lemma_resize_keeps_wf(config: SurfaceConfig, width: u32, height: u32, max_dimension: u32)
    requires
        config.wf(),
        1 <= max_dimension,
    ensures
        config.resized(width, height, max_dimension).wf(),
{
}

/// Once configured, a surface stays configured whatever the canvas does.
pub proof fn lemma_resize_keeps_configured(config: SurfaceConfig, width: u32, height: u32, max_dimension: u32)
    requires
        config.configured,
    ensures
        config.resized(width, height, max_dimension).configured,
{
}

/// A configured side never exceeds the device's limit, and a side within
/// the limit is taken as it is.
pub proof fn lemma_resize_within_limit(config: SurfaceConfig, width: u32, height: u32, max_dimension: u32)
    requires
        1 <= max_dimension,
        width > 0,
        height > 0,
    ensures
        config.resized(width, height, max_dimension).width <= max_dimension,
        config.resized(width, height, max_dimension).height <= max_dimension,
        width <= max_dimension ==> config.resized(width, height, max_dimension).width == width,
        height <= max_dimension ==> config.resized(width, height, max_dimension).height == height,
        width > max_dimension ==> config.resized(width, height, max_dimension).width == max_dimension,
        height > max_dimension ==> config.resized(width, height, max_dimension).height
            == max_dimension,
        config.resized(width, height, max_dimension).configured,
{
}

/// Resizing twice to the same canvas size is the same as resizing once.
pub proof fn lemma_resize_idempotent(config: SurfaceConfig, width: u32, height: u32, max_dimension: u32)
    requires
        1 <= max_dimension,
    ensures
        config.resized(width, height, max_dimension).resized(width, height, max_dimension)
            == config.resized(width, height, max_dimension),
{
}

/// What acquiring the surface's next texture gave back.
pub enum SurfaceStatus {
    Success,
    Suboptimal,
    Timeout,
    Occluded,
    Outdated,
    Lost,
    Validation,
}

/// What a frame does: configure the surface again first, and draw into
/// the acquired texture.
pub struct FramePlan {
    pub reconfigure: bool,
    pub draw: bool,
}

/// Whether a frame with this acquisition status draws: only when a texture
/// was handed out.
pub open spec fn spec_draws(status: SurfaceStatus) -> bool {
    status is Success || status is Suboptimal
}

/// Whether a frame with this acquisition status configures the surface
/// again: when the texture no longer fits the surface, or the configuration
/// is outdated.
pub open spec fn spec_reconfigures(status: SurfaceStatus) -> bool {
    status is Suboptimal || status is Outdated
}

/// The plan of a frame on a configured surface, given what acquiring the
/// next texture gave back. Timeouts, occlusion, validation errors and a
/// lost surface skip the frame.
pub fn frame_plan(status: SurfaceStatus) -> (plan: FramePlan)
    ensures
        plan.draw == spec_draws(status),
        plan.reconfigure == spec_reconfigures(status),
{
    match status {
        SurfaceStatus::Success => FramePlan { reconfigure: false, draw: true },
        SurfaceStatus::Suboptimal => FramePlan { reconfigure: true, draw: true },
        SurfaceStatus::Timeout => FramePlan { reconfigure: false, draw: false },
        SurfaceStatus::Occluded => FramePlan { reconfigure: false, draw: false },
        SurfaceStatus::Validation => FramePlan { reconfigure: false, draw: false },
        SurfaceStatus::Outdated => FramePlan { reconfigure: true, draw: false },
        SurfaceStatus::Lost => FramePlan { reconfigure: false, draw: false },
    }
}

/// Picks the index of the surface format to render with: the first sRGB
/// one, else the first one. The list must not be empty (the surface always
/// supports at least one format; an empty list panics in the caller).
pub fn choose_surface_format(srgb: &Vec<bool>) -> (index: usize)
    requires
        srgb.len() > 0,
    ensures
        index < srgb.len(),
        srgb@.contains(true) ==> srgb@[index as int] && forall|j: int| 0 <= j < index ==> !srgb@[j],
        !srgb@.contains(true) ==> index == 0,
{
    let mut i: usize = 0;
    while i < srgb.len()
        invariant
            i <= srgb.len(),
            forall|j: int| 0 <= j < i ==> !srgb@[j],
        decreases srgb.len() - i,
    {
        if srgb[i] {
            return i;
        }
        i = i + 1;
    }
    0
}

} // verus!

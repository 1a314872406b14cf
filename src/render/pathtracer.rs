use vstd::prelude::*;

verus! {

/// Renders a scene by Monte Carlo path tracing: each pixel averages
/// `samples_per_pixel` jittered rays, and each ray bounces at most `max_depth` times.
#[derive(Clone, Copy, Debug, PartialEq, Eq, Structural)]
pub struct PathTracer {
    pub samples_per_pixel: u32,
    pub max_depth: u32,
}

impl PathTracer {
    pub fn new(samples_per_pixel: u32, max_depth: u32) -> (r: PathTracer)
        ensures
            r.samples_per_pixel == samples_per_pixel,
            r.max_depth == max_depth,
    {
        PathTracer { samples_per_pixel, max_depth }
    }
}

/// What became of a ray traced into the scene.
#[derive(Clone, Copy, Debug, PartialEq, Eq, Structural)]
pub enum Interaction {
    /// It hit a primitive whose material scattered it.
    Scattered,
    /// It hit a primitive whose material absorbed it.
    Absorbed,
    /// It hit nothing and left the scene.
    Escaped,
}

/// What a ray contributes at one level of the path tracer's recursion.
#[derive(Clone, Copy, Debug, PartialEq, Eq, Structural)]
pub enum ShadeStep {
    /// No light: the depth is used up, or the ray was absorbed.
    Black,
    /// The sky gradient seen in the ray's direction.
    Sky,
    /// The scattering material's attenuation times the light that the scattered ray
    /// gathers with `depth` bounces left.
    Bounce { depth: u32 },
}

/// The step taken for a ray with `depth` bounces left, given what tracing it gave.
pub open spec fn spec_shade_step(depth: u32, interaction: Interaction) -> ShadeStep {
    if depth == 0 {
        ShadeStep::Black
    } else {
        match interaction {
            Interaction::Scattered => ShadeStep::Bounce { depth: (depth - 1) as u32 },
            Interaction::Absorbed => ShadeStep::Black,
            Interaction::Escaped => ShadeStep::Sky,
        }
    }
}

/// Decides what a ray with `depth` bounces left contributes. `trace` traces the ray
/// into the scene and scatters it at the hit; it is called only when depth is left,
/// so a ray with no depth left is black whatever the scene holds.
pub fn shade_step<F: FnOnce() -> Interaction>(depth: u32, trace: F) -> (r: ShadeStep)
    requires
        depth > 0 ==> trace.requires(()),
    ensures
        depth == 0 ==> r == ShadeStep::Black,
        depth > 0 ==> exists|i: Interaction| trace.ensures((), i) && r == spec_shade_step(depth, i),
        r matches ShadeStep::Bounce { depth: d } ==> d < depth,
{
    if depth == 0 {
        return ShadeStep::Black;
    }
    let interaction = trace();
    let step = match interaction {
        Interaction::Scattered => ShadeStep::Bounce { depth: depth - 1 },
        Interaction::Absorbed => ShadeStep::Black,
        Interaction::Escaped => ShadeStep::Sky,
    };
    assert(trace.ensures((), interaction) && step == spec_shade_step(depth, interaction));
    step
}

/// How many pixels pass between two progress reports.
pub const PROGRESS_INTERVAL: usize = 1000;

/// Whether progress is reported after `count` of `total_pixels` pixels: every
/// [`PROGRESS_INTERVAL`] pixels, and at the last one.
pub fn report_progress_at(total_pixels: usize, count: usize) -> (r: bool)
    ensures
        r == (count % PROGRESS_INTERVAL == 0 || count == total_pixels),
{
    count % PROGRESS_INTERVAL == 0 || count == total_pixels
}

} // verus!

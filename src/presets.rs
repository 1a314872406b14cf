use crate::render::helloworld::HelloWorld;
use crate::render::pathtracer::PathTracer;
use vstd::prelude::*;

verus! {

/// The image width used when none is given; the height follows from the camera.
pub const DEFAULT_WIDTH: u32 = 800;

/// The rendering presets a user can choose from: the test gradient, or the path
/// tracer at one of three quality levels.
#[derive(Clone, Copy, Debug, PartialEq, Eq, Structural)]
pub enum Algorithm {
    HelloWorld,
    PathTracerLowRes,
    PathTracer,
    PathTracerHighRes,
}

impl Default for Algorithm {
    fn default() -> (r: Algorithm)
        ensures
            r == Algorithm::HelloWorld,
    {
        Algorithm::HelloWorld
    }
}

/// A renderer configured from a preset.
#[derive(Clone, Copy, Debug, PartialEq, Eq, Structural)]
pub enum SelectedRenderer {
    HelloWorld(HelloWorld),
    PathTracer(PathTracer),
}

/// The path tracer a preset stands for, as samples per pixel and maximum depth;
/// `None` for the gradient.
pub open spec fn preset_settings(algorithm: Algorithm) -> Option<(u32, u32)> {
    match algorithm {
        Algorithm::HelloWorld => None,
        Algorithm::PathTracerLowRes => Some((10, 50)),
        Algorithm::PathTracer => Some((100, 50)),
        Algorithm::PathTracerHighRes => Some((1000, 100)),
    }
}

/// The renderer a preset stands for.
pub fn select_renderer(algorithm: &Algorithm) -> (r: SelectedRenderer)
    ensures
        preset_settings(*algorithm) is None ==> r == SelectedRenderer::HelloWorld(HelloWorld {}),
        preset_settings(*algorithm) matches Some((samples, depth)) ==> r
            == SelectedRenderer::PathTracer(
            PathTracer { samples_per_pixel: samples, max_depth: depth },
        ),
{
    match algorithm {
        Algorithm::HelloWorld => SelectedRenderer::HelloWorld(HelloWorld::new()),
        Algorithm::PathTracer => SelectedRenderer::PathTracer(PathTracer::new(100, 50)),
        Algorithm::PathTracerLowRes => SelectedRenderer::PathTracer(PathTracer::new(10, 50)),
        Algorithm::PathTracerHighRes => SelectedRenderer::PathTracer(PathTracer::new(1000, 100)),
    }
}

} // verus!

use srt::presets::{select_renderer, Algorithm as Preset, SelectedRenderer, DEFAULT_WIDTH};
use srt::render::helloworld::HelloWorld;
use srt::render::pathtracer::{report_progress_at, shade_step, Interaction, PathTracer, ShadeStep};
use srt::render::Algorithm;

#[test]
fn algorithm_names() {
    assert_eq!(Algorithm::HelloWorld.to_string(), "HelloWorld");
    assert_eq!(Algorithm::PathTracer.to_string(), "PathTracer");
    assert_eq!(Algorithm::default(), Algorithm::HelloWorld);
}

#[test]
fn hello_world_renderer() {
    assert_eq!(HelloWorld::new(), HelloWorld {});
}

#[test]
fn path_tracer_keeps_its_settings() {
    let tracer = PathTracer::new(7, 3);
    assert_eq!(tracer.samples_per_pixel, 7);
    assert_eq!(tracer.max_depth, 3);
}

#[test]
fn presets_select_their_renderers() {
    assert_eq!(Preset::default(), Preset::HelloWorld);
    assert_eq!(
        select_renderer(&Preset::HelloWorld),
        SelectedRenderer::HelloWorld(HelloWorld {})
    );
    assert_eq!(
        select_renderer(&Preset::PathTracerLowRes),
        SelectedRenderer::PathTracer(PathTracer::new(10, 50))
    );
    assert_eq!(
        select_renderer(&Preset::PathTracer),
        SelectedRenderer::PathTracer(PathTracer::new(100, 50))
    );
    assert_eq!(
        select_renderer(&Preset::PathTracerHighRes),
        SelectedRenderer::PathTracer(PathTracer::new(1000, 100))
    );
    assert_eq!(DEFAULT_WIDTH, 800);
}

#[test]
fn no_depth_left_is_black_without_tracing() {
    let step = shade_step(0, || -> Interaction { panic!("traced with no depth left") });
    assert_eq!(step, ShadeStep::Black);
}

#[test]
fn scattered_ray_bounces_with_one_less_depth() {
    assert_eq!(
        shade_step(5, || Interaction::Scattered),
        ShadeStep::Bounce { depth: 4 }
    );
    assert_eq!(
        shade_step(1, || Interaction::Scattered),
        ShadeStep::Bounce { depth: 0 }
    );
}

#[test]
fn absorbed_ray_is_black_and_escaped_ray_sees_the_sky() {
    assert_eq!(shade_step(3, || Interaction::Absorbed), ShadeStep::Black);
    assert_eq!(shade_step(3, || Interaction::Escaped), ShadeStep::Sky);
    assert_eq!(shade_step(u32::MAX, || Interaction::Escaped), ShadeStep::Sky);
}

#[test]
fn a_path_ends_within_its_depth() {
    let mut depth = 50;
    let mut bounces = 0;
    while let ShadeStep::Bounce { depth: next } = shade_step(depth, || Interaction::Scattered) {
        depth = next;
        bounces += 1;
    }
    assert_eq!(bounces, 50);
    assert_eq!(depth, 0);
}

#[test]
fn progress_is_reported_every_thousand_pixels_and_at_the_end() {
    assert!(report_progress_at(2500, 1000));
    assert!(report_progress_at(2500, 2000));
    assert!(report_progress_at(2500, 2500));
    assert!(!report_progress_at(2500, 1));
    assert!(!report_progress_at(2500, 1999));
    assert!(report_progress_at(10, 10));
    assert!(!report_progress_at(10, 9));
}

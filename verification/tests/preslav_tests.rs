use generative_art::canvas::{OmniCanvas, Shape};
use generative_art::color::{Color, CHANNEL_ONE};
use generative_art::preslav::{
    PreslavSketcher, PreslavSketcherSettings, ReferenceImage, SketchRng, FRAC_ONE,
};
use generative_art::sketchers::{PreslavRunner, ProgressSink, Sketcher};

fn settings() -> PreslavSketcherSettings {
    PreslavSketcherSettings {
        output_width: 4,
        output_height: 4,
        expected_iterations: 10,
        stroke_reduction: FRAC_ONE / 10,
        stroke_jitter: 2000,
        stroke_inversion_threshold: FRAC_ONE / 2,
        initial_alpha: CHANNEL_ONE / 4,
        alpha_increase: 1000,
        min_edge_count: 3,
        max_edge_count: 7,
        initial_stroke_size: 10000,
    }
}

fn reference() -> ReferenceImage {
    let mut data = Vec::new();
    for i in 0..(4 * 4 * 3) {
        data.push((i * 5 % 256) as u8);
    }
    ReferenceImage::from_raw(4, 4, data)
}

#[test]
fn seeded_sketchers_paint_identical_scenes() {
    let image = reference();
    let mut a = PreslavSketcher::new(&settings(), SketchRng::Seeded { state: 42 });
    let mut b = PreslavSketcher::new(&settings(), SketchRng::Seeded { state: 42 });
    for _ in 0..10 {
        a.step(&image);
        b.step(&image);
    }
    assert_eq!(a.render().elements, b.render().elements);
    assert_eq!(a.render().elements.len(), 10);
}

#[test]
fn different_seeds_usually_diverge() {
    let image = reference();
    let mut a = PreslavSketcher::new(&settings(), SketchRng::Seeded { state: 1 });
    let mut b = PreslavSketcher::new(&settings(), SketchRng::Seeded { state: 2 });
    for _ in 0..5 {
        a.step(&image);
        b.step(&image);
    }
    assert_ne!(a.render().elements, b.render().elements);
}

#[test]
fn stroke_size_strictly_decreases_and_stays_positive() {
    let image = reference();
    let mut sketcher = PreslavSketcher::new(&settings(), SketchRng::Seeded { state: 7 });
    let mut last = sketcher.stroke_size;
    for _ in 0..30 {
        sketcher.step(&image);
        assert!(sketcher.stroke_size < last);
        assert!(sketcher.stroke_size > 0);
        last = sketcher.stroke_size;
    }
}

#[test]
fn opacity_grows_without_clamp() {
    let image = reference();
    let mut sketcher = PreslavSketcher::new(&settings(), SketchRng::Seeded { state: 7 });
    let initial = sketcher.alpha;
    for _ in 0..1000 {
        sketcher.step(&image);
    }
    assert_eq!(sketcher.alpha, initial + 1000 * 1000);
    assert!(sketcher.alpha > CHANNEL_ONE as u64);
    let scene = sketcher.render();
    let last_fill = scene.elements[999].fill.unwrap();
    assert_eq!(last_fill.opacity, initial + 999 * 1000);
}

#[test]
fn outline_appears_only_at_the_inversion_threshold() {
    let image = reference();
    // Threshold 0.5 of an initial stroke size of 10 pixels.
    let mut above = PreslavSketcher::new(&settings(), SketchRng::Seeded { state: 3 });
    above.stroke_size = 6000;
    above.step(&image);
    assert_eq!(above.render().elements[0].stroke, None);

    let mut below = PreslavSketcher::new(&settings(), SketchRng::Seeded { state: 3 });
    below.stroke_size = 4000;
    below.step(&image);
    let stroke = below.render().elements[0].stroke.expect("an outline is due");
    assert_eq!(stroke.opacity, 2 * (CHANNEL_ONE / 4) as u64);
}

#[test]
fn outline_color_contrasts_with_the_fill() {
    // A dark reference image gets white outlines, a light one black.
    let dark = ReferenceImage::from_raw(1, 1, vec![10, 10, 10]);
    let mut s = PreslavSketcher::new(&settings(), SketchRng::Seeded { state: 3 });
    s.stroke_size = 1000;
    s.step(&dark);
    assert_eq!(s.render().elements[0].stroke.unwrap().color, Color::white());

    let light = ReferenceImage::from_raw(1, 1, vec![200, 200, 200]);
    let mut t = PreslavSketcher::new(&settings(), SketchRng::Seeded { state: 3 });
    t.stroke_size = 1000;
    t.step(&light);
    assert_eq!(t.render().elements[0].stroke.unwrap().color, Color::black());
}

#[test]
fn step_samples_within_the_configured_ranges() {
    let image = reference();
    let mut sketcher = PreslavSketcher::new(&settings(), SketchRng::Seeded { state: 11 });
    for _ in 0..20 {
        sketcher.step(&image);
    }
    for e in sketcher.render().elements.iter() {
        match e.shape {
            Shape::RegularPolygon { center, radius, edge_count, rotation } => {
                assert!((3..=7).contains(&edge_count));
                assert!(rotation < 1000000);
                assert!(radius > 0);
                // The center is the jittered sample point: within the
                // image bounds extended by the jitter.
                assert!(center.x >= -2000 && center.x < 4000 + 2000);
                assert!(center.y >= -2000 && center.y < 4000 + 2000);
            }
            Shape::Rect { .. } => panic!("steps paint polygons"),
        }
        let fill = e.fill.expect("every polygon is filled");
        assert_eq!(fill.color.a, CHANNEL_ONE);
    }
}

#[test]
fn entropy_strategy_also_paints_in_range() {
    let image = reference();
    let mut sketcher = PreslavSketcher::new(&settings(), SketchRng::Entropy);
    for _ in 0..5 {
        sketcher.step(&image);
    }
    let scene = sketcher.render();
    assert_eq!(scene.elements.len(), 5);
    for e in scene.elements.iter() {
        match e.shape {
            Shape::RegularPolygon { edge_count, rotation, .. } => {
                assert!((3..=7).contains(&edge_count));
                assert!(rotation < 1000000);
            }
            Shape::Rect { .. } => panic!("steps paint polygons"),
        }
    }
}

#[test]
fn render_is_a_snapshot() {
    let image = reference();
    let mut sketcher = PreslavSketcher::new(&settings(), SketchRng::Seeded { state: 9 });
    sketcher.step(&image);
    let snapshot = sketcher.render();
    sketcher.step(&image);
    assert_eq!(snapshot.elements.len(), 1);
    assert_eq!(sketcher.render().elements.len(), 2);
}

struct RecordingSink {
    reports: Vec<u32>,
}

impl ProgressSink for RecordingSink {
    fn report(&mut self, progress_per_mille: u32) {
        self.reports.push(progress_per_mille);
    }
}

#[test]
fn runner_reports_non_decreasing_progress_and_returns_the_scene() {
    let mut runner = PreslavRunner {
        sketcher: PreslavSketcher::new(&settings(), SketchRng::Seeded { state: 5 }),
        reference: reference(),
        iterations: 8,
    };
    let mut sink = RecordingSink { reports: Vec::new() };
    let canvas = runner.run(&mut sink);
    assert_eq!(sink.reports.len(), 8);
    for w in sink.reports.windows(2) {
        assert!(w[0] <= w[1]);
    }
    assert!(sink.reports.iter().all(|p| *p < 1000));
    match &canvas {
        OmniCanvas::VectorCanvas { inner } => assert_eq!(inner.elements.len(), 8),
        OmniCanvas::RasterCanvas { .. } => panic!("the procedure accumulates a vector scene"),
    }

    let runner2 = PreslavRunner {
        sketcher: PreslavSketcher::new(&settings(), SketchRng::Seeded { state: 5 }),
        reference: reference(),
        iterations: 8,
    };
    let mut sink2 = RecordingSink { reports: Vec::new() };
    let canvas2 = runner2.run_and_dispose(&mut sink2);
    match (canvas, canvas2) {
        (OmniCanvas::VectorCanvas { inner: a }, OmniCanvas::VectorCanvas { inner: b }) => {
            assert_eq!(a.elements, b.elements);
        }
        _ => panic!("both runs accumulate vector scenes"),
    }
}

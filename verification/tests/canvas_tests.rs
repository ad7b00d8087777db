use generative_art::canvas::{
    CanvasElement, FxPoint, OmniCanvas, Paint, RasterCanvas, RasterFormat, Rasterization,
    SaveError, SaveJob, Shape, VectorCanvas, VectorizerStyle,
};
use generative_art::color::{Color, CHANNEL_LEVEL, CHANNEL_ONE};

fn opaque_red() -> Color {
    Color::new(CHANNEL_ONE, 0, 0, CHANNEL_ONE)
}

#[test]
fn pixel_buffer_round_trip_is_exact() {
    let data: Vec<u8> = vec![
        0, 255, 128, 7, //
        255, 0, 0, 255, //
        1, 2, 3, 4, //
        254, 253, 252, 251,
    ];
    let canvas = RasterCanvas::from_rgba(2, 2, &data);
    assert_eq!(canvas.as_rgba(), data);
}

#[test]
fn pixel_buffer_round_trip_boundary_values() {
    let data: Vec<u8> = vec![0, 0, 0, 0, 255, 255, 255, 255];
    let canvas = RasterCanvas::from_rgba(2, 1, &data);
    assert_eq!(canvas.as_rgba(), data);
}

#[test]
fn encoding_truncates_intermediate_intensities() {
    let mut canvas = RasterCanvas::new(1, 1);
    // One fixed-point step short of a full level still truncates down.
    canvas.set_pixel(0, 0, Color::new(CHANNEL_LEVEL * 9 - 1, 0, 0, CHANNEL_ONE));
    let bytes = canvas.as_rgba();
    assert_eq!(bytes, vec![8, 0, 0, 255]);
}

#[test]
fn new_canvas_starts_transparent_and_set_get_work() {
    let mut canvas = RasterCanvas::new(2, 2);
    for y in 0..2 {
        for x in 0..2 {
            assert_eq!(canvas.get_pixel(x, y).a, 0);
        }
    }
    canvas.set_pixel(0, 0, opaque_red());
    assert_eq!(canvas.get_pixel(0, 0), opaque_red());
    assert_eq!(canvas.get_pixel(1, 0).a, 0);
    assert_eq!(canvas.get_pixel(0, 1).a, 0);
    assert_eq!(canvas.get_pixel(1, 1).a, 0);
}

#[test]
fn out_of_bounds_reads_yield_opaque_black() {
    let mut canvas = RasterCanvas::new(3, 2);
    canvas.set_pixel(2, 1, opaque_red());
    let black = Color::new(0, 0, 0, CHANNEL_ONE);
    assert_eq!(canvas.get_pixel(3, 0), black);
    assert_eq!(canvas.get_pixel(0, 2), black);
    assert_eq!(canvas.get_pixel(100, 100), black);
}

#[test]
fn raw_access_reads_and_writes_pixels() {
    let mut canvas = RasterCanvas::new(2, 1);
    canvas.set_pixel(1, 0, opaque_red());
    assert_eq!(canvas.get_raw().len(), 2);
    assert_eq!(canvas.get_raw()[1], opaque_red());
    canvas.get_raw_mut()[0] = opaque_red();
    assert_eq!(canvas.get_pixel(0, 0), opaque_red());
    assert_eq!(canvas.width(), 2);
    assert_eq!(canvas.height(), 1);
}

#[test]
fn pixels_vectorization_emits_one_square_per_pixel_row_major() {
    let data: Vec<u8> = vec![
        10, 20, 30, 255, //
        40, 50, 60, 255, //
        70, 80, 90, 255, //
        11, 12, 13, 255, //
        14, 15, 16, 255, //
        17, 18, 19, 255,
    ];
    let raster = RasterCanvas::from_rgba(3, 2, &data);
    let omni = OmniCanvas::RasterCanvas { inner: raster };
    let vector = omni.as_vector_canvas(VectorizerStyle::Pixels);
    assert_eq!(vector.len(), 6);
    // Element 4 (row-major) is pixel (1, 1): a unit square at (1, 1).
    let e = vector.elements[4];
    assert_eq!(
        e.shape,
        Shape::Rect {
            min: FxPoint { x: 1000, y: 1000 },
            max: FxPoint { x: 2000, y: 2000 },
        }
    );
    assert_eq!(
        e.fill,
        Some(Paint {
            color: Color::from_rgba8(14, 15, 16, 255),
            opacity: CHANNEL_ONE as u64,
        })
    );
    assert_eq!(e.stroke, None);
}

#[test]
fn vector_canvas_keeps_paint_order() {
    let mut vector = VectorCanvas::default();
    vector.draw_rect(
        FxPoint { x: 0, y: 0 },
        FxPoint { x: 1000, y: 1000 },
        None,
        Some(Paint { color: Color::black(), opacity: CHANNEL_ONE as u64 }),
    );
    let second = CanvasElement {
        shape: Shape::RegularPolygon {
            center: FxPoint { x: 500, y: 500 },
            radius: 250,
            edge_count: 5,
            rotation: 0,
        },
        fill: None,
        stroke: Some(Paint { color: Color::white(), opacity: 2 * CHANNEL_ONE as u64 }),
    };
    vector.append(second);
    assert_eq!(vector.len(), 2);
    assert!(matches!(vector.elements[0].shape, Shape::Rect { .. }));
    assert_eq!(vector.elements[1], second);
}

#[test]
fn into_raster_keeps_a_raster_canvas_unchanged() {
    let mut raster = RasterCanvas::new(4, 3);
    raster.set_pixel(1, 2, opaque_red());
    let omni = OmniCanvas::RasterCanvas { inner: raster };
    match omni.into_raster_canvas(99, 77, true, None, false) {
        Rasterization::Ready { canvas } => {
            assert_eq!(canvas.width(), 4);
            assert_eq!(canvas.height(), 3);
            assert_eq!(canvas.get_pixel(1, 2), opaque_red());
        }
        Rasterization::NeedsRender { .. } => panic!("a raster canvas needs no render"),
    }
}

#[test]
fn into_raster_hands_a_vector_scene_to_the_renderer() {
    let vector = VectorCanvas::new();
    let omni = OmniCanvas::VectorCanvas { inner: vector };
    match omni.into_raster_canvas(640, 480, true, Some(Color::white()), true) {
        Rasterization::Ready { .. } => panic!("a vector scene is not yet rasterized"),
        Rasterization::NeedsRender { scene, request } => {
            assert_eq!(scene.len(), 0);
            assert_eq!(request.width, 640);
            assert_eq!(request.height, 480);
            assert!(request.antialias);
            assert_eq!(request.background, Some(Color::white()));
            assert!(request.preserve_height);
        }
    }
}

#[test]
fn save_with_unknown_extension_fails_and_produces_no_job() {
    let omni = OmniCanvas::RasterCanvas { inner: RasterCanvas::new(2, 2) };
    let r = omni.plan_save(b"art.xyz", 100, 100, None, false);
    assert_eq!(r.unwrap_err(), SaveError::UnsupportedOutputType);
    assert!(omni.plan_save(b"no_extension", 100, 100, None, false).is_err());
    assert!(omni.plan_save(b".hidden", 100, 100, None, false).is_err());
    assert!(omni.plan_save(b"dir.d/file", 100, 100, None, false).is_err());
    assert!(omni.plan_save(b"upper.PNG", 100, 100, None, false).is_err());
    assert_eq!(
        SaveError::UnsupportedOutputType.message(),
        "That is not a valid output type."
    );
}

#[test]
fn save_svg_vectorizes_one_square_per_pixel() {
    let omni = OmniCanvas::RasterCanvas { inner: RasterCanvas::new(5, 4) };
    match omni.plan_save(b"out/art.svg", 500, 400, None, true).unwrap() {
        SaveJob::WriteSvg { scene, options } => {
            assert_eq!(scene.len(), 20);
            assert_eq!(options.width, 500);
            assert_eq!(options.height, 400);
            assert!(!options.antialias);
            assert!(options.preserve_height);
            assert_eq!(options.stroke_width, 12);
        }
        SaveJob::EncodeRaster { .. } => panic!("svg saves are vector text"),
    }
}

#[test]
fn save_raster_extensions_select_their_encodings() {
    let omni = OmniCanvas::RasterCanvas { inner: RasterCanvas::new(2, 2) };
    for (path, format) in [
        (b"a.bmp".as_slice(), RasterFormat::Bmp),
        (b"a.png".as_slice(), RasterFormat::Png),
        (b"a.jpg".as_slice(), RasterFormat::Jpg),
        (b"a.tiff".as_slice(), RasterFormat::Tiff),
    ] {
        match omni.plan_save(path, 64, 64, None, false).unwrap() {
            SaveJob::EncodeRaster { format: f, rasterization } => {
                assert_eq!(f, format);
                assert!(matches!(rasterization, Rasterization::Ready { .. }));
            }
            SaveJob::WriteSvg { .. } => panic!("raster extensions encode pixels"),
        }
    }
}

#[test]
fn save_raster_of_vector_scene_requests_a_render() {
    let omni = OmniCanvas::VectorCanvas { inner: VectorCanvas::new() };
    match omni.plan_save(b"a.png", 320, 200, None, false).unwrap() {
        SaveJob::EncodeRaster { rasterization: Rasterization::NeedsRender { request, .. }, .. } => {
            assert_eq!(request.width, 320);
            assert_eq!(request.height, 200);
            assert!(request.antialias);
        }
        _ => panic!("a vector scene saved as png must be rendered"),
    }
}

use myrica::scalar::Real32;
use myrica::scene::clip::{clip_edge, inside, ClipEdge, ClipRect, ClipStep};
use myrica::scene::geometry::{expand, in_range, triangles};
use myrica::scene::glyphs::{GlyphCache, GlyphCacheKey, MAX_GLYPH_CACHE_ENTRIES};
use myrica::scene::gradient::surrounding_stops;
use myrica::scene::renderer::{ImageTexture, SgfxSceneRenderer, Vertex, MAX_CANVAS_DRAWS};
use myrica::scene::texture::{image_bytes_fit, texture_pixels, PixelAlpha, PixelFormat};

fn number(value: f32) -> Real32 {
    Real32::from_bits(value.to_bits())
}

fn rect(x0: f32, y0: f32, x1: f32, y1: f32) -> ClipRect {
    ClipRect { x0: number(x0), y0: number(y0), x1: number(x1), y1: number(y1) }
}

fn points(places: &[[f32; 2]]) -> Vec<[Real32; 2]> {
    places.iter().map(|place| [number(place[0]), number(place[1])]).collect()
}

fn corner(x: f32, y: f32) -> Vertex {
    Vertex {
        position: [number(x), number(y)],
        color: [number(1.0); 4],
        uv: [number(0.0); 2],
    }
}

#[test]
fn rectangles_are_intersected() {
    assert_eq!(
        rect(0.0, 0.0, 10.0, 10.0).intersect(rect(-5.0, 2.0, 7.0, 20.0)),
        rect(0.0, 2.0, 7.0, 10.0)
    );
    let odd = rect(f32::NAN, 0.0, 1.0, f32::NAN);
    assert_eq!(
        odd.intersect(rect(-1.0, -1.0, 9.0, 9.0)),
        rect(-1.0, 0.0, 1.0, 9.0)
    );
}

#[test]
fn void_rectangles_have_no_edges() {
    assert!(rect(1.0, 0.0, 1.0, 5.0).edges().is_none());
    assert!(rect(0.0, 6.0, 1.0, 5.0).edges().is_none());
    assert!(rect(f32::NAN, 0.0, 1.0, 5.0).edges().is_some());
    assert_eq!(
        rect(0.0, 1.0, 2.0, 3.0).edges(),
        Some([
            ClipEdge::Left(number(0.0)),
            ClipEdge::Right(number(2.0)),
            ClipEdge::Top(number(1.0)),
            ClipEdge::Bottom(number(3.0)),
        ])
    );
}

#[test]
fn polygons_are_clipped_at_an_edge() {
    let polygon = points(&[[-1.0, 0.0], [1.0, 0.0], [1.0, 1.0]]);
    assert_eq!(
        clip_edge(&polygon, ClipEdge::Left(number(0.0))),
        vec![
            ClipStep::Cross(2, 0),
            ClipStep::Cross(0, 1),
            ClipStep::Keep(1),
            ClipStep::Keep(2),
        ]
    );
    assert_eq!(
        clip_edge(&polygon, ClipEdge::Bottom(number(9.0))),
        vec![ClipStep::Keep(0), ClipStep::Keep(1), ClipStep::Keep(2)]
    );
    assert_eq!(clip_edge(&polygon, ClipEdge::Right(number(-9.0))), vec![]);
    assert_eq!(clip_edge(&vec![], ClipEdge::Top(number(0.0))), vec![]);
}

#[test]
fn edges_belong_to_the_inside() {
    let point = [number(1.0), number(2.0)];
    assert!(inside(point, ClipEdge::Left(number(1.0))));
    assert!(inside(point, ClipEdge::Right(number(1.0))));
    assert!(inside(point, ClipEdge::Top(number(2.0))));
    assert!(!inside(point, ClipEdge::Bottom(number(1.9))));
    assert!(!inside(point, ClipEdge::Left(number(f32::NAN))));
}

#[test]
fn stops_surround_a_place() {
    let offsets: Vec<Real32> = [0.0, 0.5, 0.5, 1.0].iter().map(|value| number(*value)).collect();
    assert_eq!(surrounding_stops(&offsets, number(0.2)), Some((0, 1)));
    assert_eq!(surrounding_stops(&offsets, number(0.5)), Some((0, 1)));
    assert_eq!(surrounding_stops(&offsets, number(0.7)), Some((2, 3)));
    assert_eq!(surrounding_stops(&offsets, number(1.5)), Some((3, 3)));
    assert_eq!(surrounding_stops(&offsets, number(f32::NAN)), Some((3, 3)));
    assert_eq!(surrounding_stops(&vec![], number(0.0)), None);
}

#[test]
fn points_are_expanded_into_triangles() {
    let corners = expand(&vec!['a', 'b', 'c', 'd'], &vec![0, 1, 2, 2, 3, 0, 1]);
    assert_eq!(corners, ['a', 'b', 'c', 'c', 'd', 'a', 'b']);
    assert_eq!(triangles(&corners), vec![('a', 'b', 'c'), ('c', 'd', 'a')]);
    assert!(in_range(&vec![0, 3], 4));
    assert!(!in_range(&vec![0, 4], 4));
}

#[test]
fn pixels_are_brought_into_order() {
    let data = [10, 20, 30, 128, 1, 2, 3, 0];
    let pixels = |format, alpha| texture_pixels(2, 1, format, alpha, &data);
    assert_eq!(
        pixels(PixelFormat::Rgba8, PixelAlpha::Straight),
        Some(data.to_vec())
    );
    assert_eq!(
        pixels(PixelFormat::Bgra8, PixelAlpha::Straight),
        Some(vec![30, 20, 10, 128, 3, 2, 1, 0])
    );
    assert_eq!(
        pixels(PixelFormat::Bgra8, PixelAlpha::Premultiplied),
        Some(vec![60, 40, 20, 128, 0, 0, 0, 0])
    );
    assert_eq!(
        texture_pixels(
            1,
            1,
            PixelFormat::Rgba8,
            PixelAlpha::Premultiplied,
            &[200, 7, 255, 100]
        ),
        Some(vec![255, 18, 255, 100])
    );
    assert_eq!(
        texture_pixels(
            1,
            1,
            PixelFormat::Rgba8,
            PixelAlpha::Premultiplied,
            &[200, 7, 255, 255]
        ),
        Some(vec![200, 7, 255, 255])
    );
}

#[test]
fn unusable_images_have_no_texture() {
    let pixels = |width, height, format, data: &[u8]| {
        texture_pixels(width, height, format, PixelAlpha::Straight, data)
    };
    assert!(image_bytes_fit(1, 1));
    assert!(!image_bytes_fit(u32::MAX, u32::MAX));
    assert_eq!(pixels(0, 1, PixelFormat::Rgba8, &[]), None);
    assert_eq!(pixels(1, 0, PixelFormat::Rgba8, &[]), None);
    assert_eq!(pixels(1, 1, PixelFormat::Rgba8, &[1, 2, 3]), None);
    assert_eq!(pixels(1, 1, PixelFormat::Unsupported, &[1, 2, 3, 4]), None);
}

#[test]
fn textures_are_made_once() {
    let mut renderer: SgfxSceneRenderer<&str> =
        SgfxSceneRenderer::new(rect(0.0, 0.0, 1.0, 1.0));
    let image = |renderer: &SgfxSceneRenderer<&str>| {
        renderer.texture(9, 1, 1, PixelFormat::Rgba8, PixelAlpha::Straight, &[1, 2, 3, 4])
    };
    assert_eq!(image(&renderer), ImageTexture::Fresh(vec![1, 2, 3, 4]));
    renderer.keep_texture(9, "texture");
    assert_eq!(image(&renderer), ImageTexture::Known);
    assert_eq!(renderer.find_texture(9), Some(&"texture"));
    assert_eq!(renderer.find_texture(8), None);
    assert_eq!(
        renderer.texture(8, 1, 1, PixelFormat::Rgba8, PixelAlpha::Straight, &[]),
        ImageTexture::Unusable
    );
}

#[test]
fn polygons_are_batched_by_texture() {
    let mut renderer: SgfxSceneRenderer<char> =
        SgfxSceneRenderer::new(rect(0.0, 0.0, 1.0, 1.0));
    renderer.begin_frame(0, 20, rect(0.0, 0.0, 1.0, 20.0));
    let square = vec![corner(0.0, 0.0), corner(1.0, 0.0), corner(1.0, 1.0), corner(0.0, 1.0)];
    let line = vec![corner(0.0, 0.0), corner(1.0, 0.0)];
    renderer.append_polygon(&square, None, None);
    renderer.append_polygon(&line, Some(7), Some('x'));
    renderer.append_polygon(&square, None, None);
    renderer.append_polygon(&square, Some(1), Some('a'));
    renderer.append_polygon(&square, Some(1), Some('b'));
    renderer.append_polygon(&square, None, None);
    let frame = renderer.finish_frame();
    assert_eq!((frame.revision, frame.width, frame.height), (1, 1, 20));
    let drawn: Vec<_> = frame
        .draws
        .iter()
        .map(|draw| (draw.mesh, draw.vertices.len(), draw.texture))
        .collect();
    assert_eq!(drawn, vec![(0, 12, None), (1, 12, Some('a')), (2, 6, None)]);
    assert_eq!(
        frame.draws[2].vertices,
        vec![square[0], square[1], square[2], square[0], square[2], square[3]]
    );
    assert_eq!(renderer.finish_frame().draws.len(), 0);
}

#[test]
fn corners_that_are_not_finite_are_left_out() {
    let mut renderer: SgfxSceneRenderer<()> = SgfxSceneRenderer::new(rect(0.0, 0.0, 1.0, 1.0));
    let odd = vec![corner(0.0, 0.0), corner(f32::NAN, 0.0), corner(1.0, 1.0), corner(0.0, 1.0)];
    renderer.append_polygon(&odd, None, None);
    assert_eq!(renderer.batches[0].vertices, vec![odd[0], odd[2], odd[3]]);
    renderer.begin_frame(1, 1, rect(0.0, 0.0, 1.0, 1.0));
    let hidden = vec![corner(f32::INFINITY, 0.0), corner(1.0, 0.0), corner(1.0, 1.0)];
    renderer.append_polygon(&hidden, None, None);
    assert_eq!(renderer.batches.len(), 1);
    assert_eq!(renderer.finish_frame().draws.len(), 0);
}

#[test]
fn frames_hold_a_bounded_number_of_draws() {
    let mut renderer: SgfxSceneRenderer<u64> = SgfxSceneRenderer::new(rect(0.0, 0.0, 1.0, 1.0));
    let triangle = vec![corner(0.0, 0.0), corner(1.0, 0.0), corner(1.0, 1.0)];
    for key in 0..300 {
        renderer.append_polygon(&triangle, Some(key), Some(key));
    }
    let frame = renderer.finish_frame();
    assert_eq!(frame.draws.len(), MAX_CANVAS_DRAWS);
    assert_eq!(frame.draws[239].texture, Some(239));
    let empty = renderer.empty_frame(3, 0, rect(0.0, 0.0, 3.0, 1.0));
    assert_eq!((empty.revision, empty.width, empty.height), (1, 3, 1));
    assert_eq!(empty.draws.len(), 0);
}

#[test]
fn layers_nest_and_end() {
    let mut renderer: SgfxSceneRenderer<()> =
        SgfxSceneRenderer::new(rect(0.0, 0.0, 10.0, 10.0));
    renderer.push_clip(rect(2.0, 2.0, 20.0, 5.0), number(0.5));
    assert_eq!(renderer.layer.clip, rect(2.0, 2.0, 10.0, 5.0));
    assert_eq!(renderer.layer.alpha, number(0.5));
    renderer.pop_layer();
    assert_eq!(renderer.layer.clip, rect(0.0, 0.0, 10.0, 10.0));
    assert_eq!(renderer.layer.alpha, number(1.0));
    renderer.pop_layer();
    assert_eq!(renderer.layer.clip, rect(0.0, 0.0, 10.0, 10.0));
}

fn glyph(font_id: u64, glyph_id: u32, coords: &[i16]) -> GlyphCacheKey {
    GlyphCacheKey {
        font_id,
        font_index: 0,
        glyph_id,
        font_size: 16.0f32.to_bits(),
        fill: 0,
        coords: coords.to_vec(),
    }
}

#[test]
fn glyphs_are_found_by_everything_that_shapes_them() {
    let mut cache = GlyphCache::new();
    cache.insert(glyph(1, 5, &[]), "plain");
    cache.insert(glyph(1, 5, &[3]), "bold");
    cache.insert(glyph(2, 5, &[]), "other");
    assert_eq!(cache.get(&glyph(1, 5, &[])), Some(&"plain"));
    assert_eq!(cache.get(&glyph(1, 5, &[3])), Some(&"bold"));
    assert_eq!(cache.get(&glyph(2, 5, &[])), Some(&"other"));
    assert_eq!(cache.get(&glyph(1, 6, &[])), None);
    assert_eq!(cache.get(&glyph(1, 5, &[4])), None);
    cache.insert(glyph(1, 5, &[]), "again");
    assert_eq!(cache.get(&glyph(1, 5, &[])), Some(&"again"));
    assert_eq!(cache.len(), 3);
}

#[test]
fn a_full_glyph_cache_starts_over() {
    let mut cache = GlyphCache::new();
    for id in 0..MAX_GLYPH_CACHE_ENTRIES as u32 {
        cache.insert(glyph(1, id, &[]), id);
    }
    assert_eq!(cache.len(), MAX_GLYPH_CACHE_ENTRIES);
    cache.insert(glyph(1, 9999, &[]), 9999);
    assert_eq!(cache.len(), 1);
    assert_eq!(cache.get(&glyph(1, 9999, &[])), Some(&9999));
    assert_eq!(cache.get(&glyph(1, 0, &[])), None);
}

use ascii_tracer::fixed::FX_ONE;
use ascii_tracer::render::{camera, camera_ray, render_frame, render_pixel, PixelBrightness};
use ascii_tracer::intersect::sphere_line_int;
use ascii_tracer::scene::initial_light;
use ascii_tracer::vec3::V3;

const S: i128 = FX_ONE;

#[test]
fn center_pixel_hits_sphere_and_is_lit() {
    // Light at (70, 50, 100), camera at (0, 50, 0) looking at the viewing
    // plane 150 below: the grid's center pixel must hit the sphere.
    let light = V3::new(70 * S, 50 * S, 100 * S);
    let cam = camera();
    let ray = camera_ray(65, 64);
    let hit = sphere_line_int(cam, ray).closest(cam);
    assert!(hit.is_some(), "center ray must hit the sphere");
    match render_pixel(65, 64, light) {
        PixelBrightness::Lit(_) => {}
        PixelBrightness::Background => panic!("center pixel must not be background"),
    }
}

#[test]
fn frame_is_deterministic_byte_for_byte() {
    let light = initial_light();
    let f1 = render_frame(light);
    let f2 = render_frame(light);
    assert_eq!(f1, f2);
}

#[test]
fn frame_starts_with_clear_sequence() {
    let f = render_frame(initial_light());
    assert!(f.starts_with("\x1b[2J"));
}

#[test]
fn frame_has_65_rows_of_130_columns() {
    let f = render_frame(initial_light());
    let body = &f["\x1b[2J".len()..];
    let rows: Vec<&str> = body.split('\n').collect();
    assert_eq!(rows.len(), 65);
    for row in rows {
        assert_eq!(row.chars().count(), 130);
    }
}

#[test]
fn frame_uses_only_palette_characters() {
    let f = render_frame(initial_light());
    let body = &f["\x1b[2J".len()..];
    let pal = ascii_tracer::render::palette();
    for c in body.chars() {
        assert!(c == '\n' || pal.contains(c), "unexpected character {c:?}");
    }
}

#[test]
fn frame_shows_surface_shadow_and_background() {
    // A sanity scene check: with the starting light, the frame contains
    // background (space), some lit surface, and the shadow character.
    let f = render_frame(initial_light());
    let body = &f["\x1b[2J".len()..];
    assert!(body.contains(' '), "expected background pixels");
    assert!(body.chars().any(|c| c != ' ' && c != '\n'), "expected lit pixels");
}

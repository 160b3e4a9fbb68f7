use raytracer::geometry::{plane_reports_hit, sphere_reports_hit};
use raytracer::ordering::{less_or_equal, less_than, pattern_is_nan, POSITIVE_INFINITY, POSITIVE_ZERO};
use raytracer::raster::Raster;
use raytracer::search::{closest_intersection, in_shadow, test_ray};
use raytracer::surface::{even_square, Surface, Tone};
use raytracer::tracer::{reflection_step, trace_step, TraceStep, MAX_DEPTH};

fn bits(x: f64) -> u64 {
    x.to_bits()
}

fn dot(a: [f64; 3], b: [f64; 3]) -> f64 {
    a[0] * b[0] + a[1] * b[1] + a[2] * b[2]
}

#[test]
fn order_of_ordinary_values() {
    assert!(less_than(bits(1.0), bits(2.0)));
    assert!(!less_than(bits(2.0), bits(1.0)));
    assert!(less_than(bits(-3.5), bits(-1.25)));
    assert!(less_than(bits(-1.0), bits(0.5)));
    assert!(less_than(bits(1e300), bits(f64::INFINITY)));
    assert!(less_than(bits(f64::NEG_INFINITY), bits(-1e300)));
    assert!(less_or_equal(bits(2.0), bits(2.0)));
    assert!(!less_or_equal(bits(2.5), bits(2.0)));
}

#[test]
fn zeros_are_equal() {
    assert!(!less_than(bits(-0.0), bits(0.0)));
    assert!(!less_than(bits(0.0), bits(-0.0)));
    assert!(less_or_equal(bits(-0.0), bits(0.0)));
    assert!(less_or_equal(bits(0.0), bits(-0.0)));
}

#[test]
fn nan_is_unordered() {
    let nan = bits(f64::NAN);
    assert!(pattern_is_nan(nan));
    assert!(!pattern_is_nan(bits(f64::INFINITY)));
    assert!(!less_than(nan, bits(1.0)));
    assert!(!less_than(bits(1.0), nan));
    assert!(!less_or_equal(nan, nan));
}

#[test]
fn special_constants() {
    assert_eq!(POSITIVE_ZERO, bits(0.0));
    assert_eq!(POSITIVE_INFINITY, bits(f64::INFINITY));
}

#[test]
fn closest_picks_nearest() {
    let dists = vec![Some(bits(3.0)), None, Some(bits(1.5)), Some(bits(2.0))];
    assert_eq!(closest_intersection(&dists), Some(2));
    assert_eq!(test_ray(&dists), Some(bits(1.5)));
}

#[test]
fn closest_first_of_equal() {
    let dists = vec![Some(bits(4.0)), Some(bits(2.0)), Some(bits(2.0))];
    assert_eq!(closest_intersection(&dists), Some(1));
}

#[test]
fn closest_ignores_non_positive_and_nan() {
    let dists = vec![Some(bits(-1.0)), Some(bits(0.0)), Some(bits(f64::NAN)), Some(bits(7.0))];
    assert_eq!(closest_intersection(&dists), Some(3));
    let none = vec![Some(bits(-2.0)), Some(bits(f64::INFINITY)), None];
    assert_eq!(closest_intersection(&none), None);
    assert_eq!(test_ray(&none), None);
}

#[test]
fn closest_of_empty_scene() {
    let dists: Vec<Option<u64>> = Vec::new();
    assert_eq!(closest_intersection(&dists), None);
}

#[test]
fn shadow_when_hit_before_light() {
    let dists = vec![Some(bits(2.0)), Some(bits(6.0))];
    assert!(in_shadow(&dists, bits(3.0)));
    assert!(in_shadow(&dists, bits(2.0)));
    assert!(!in_shadow(&dists, bits(1.5)));
    assert!(!in_shadow(&vec![None, None], bits(1.5)));
}

#[test]
fn sphere_behind_origin_is_missed() {
    assert!(!sphere_reports_hit(bits(-0.5), bits(3.0)));
}

#[test]
fn sphere_negative_discriminant_is_missed() {
    assert!(!sphere_reports_hit(bits(2.0), bits(-0.25)));
    assert!(sphere_reports_hit(bits(2.0), bits(0.25)));
    assert!(sphere_reports_hit(bits(0.0), bits(0.0)));
}

#[test]
fn plane_facing_away_is_missed() {
    assert!(!plane_reports_hit(bits(0.3)));
    assert!(plane_reports_hit(bits(-0.3)));
    assert!(plane_reports_hit(bits(0.0)));
}

#[test]
fn sphere_straight_ahead_at_four() {
    let start = [0.0, 0.0, 0.0];
    let dir = [0.0, 0.0, -1.0];
    let center = [0.0, 0.0, -5.0];
    let radius = 1.0;
    let eo = [center[0] - start[0], center[1] - start[1], center[2] - start[2]];
    let v = dot(eo, dir);
    let disc = radius * radius - dot(eo, eo) + v * v;
    assert!(sphere_reports_hit(bits(v), bits(disc)));
    let dist = v - disc.sqrt();
    let dists = vec![Some(bits(dist))];
    match trace_step(&dists, 0) {
        TraceStep::Shade { thing, reflect_depth } => {
            assert_eq!(thing, 0);
            assert_eq!(reflect_depth, Some(1));
        }
        TraceStep::Background => panic!("the sphere is straight ahead"),
    }
    assert_eq!(test_ray(&dists).map(f64::from_bits), Some(4.0));
}

#[test]
fn plane_below_at_five() {
    let start = [0.0, 5.0, 0.0];
    let dir = [0.0, -1.0, 0.0];
    let normal = [0.0, 1.0, 0.0];
    let offset = 0.0;
    let denom = dot(normal, dir);
    assert!(plane_reports_hit(bits(denom)));
    let dist = (dot(normal, start) + offset) / -denom;
    let dists = vec![None, Some(bits(dist))];
    assert_eq!(closest_intersection(&dists), Some(1));
    assert_eq!(test_ray(&dists).map(f64::from_bits), Some(5.0));
}

#[test]
fn miss_traces_to_background() {
    let dists = vec![None, Some(bits(-3.0)), None];
    assert!(matches!(trace_step(&dists, 0), TraceStep::Background));
    assert!(matches!(trace_step(&Vec::new(), 2), TraceStep::Background));
}

#[test]
fn depth_budget() {
    assert_eq!(MAX_DEPTH, 5);
    assert_eq!(reflection_step(0), Some(1));
    assert_eq!(reflection_step(4), Some(5));
    assert_eq!(reflection_step(5), None);
    assert_eq!(reflection_step(9), None);
    let dists = vec![Some(bits(1.0))];
    assert!(matches!(
        trace_step(&dists, 5),
        TraceStep::Shade { thing: 0, reflect_depth: None }
    ));
}

#[test]
fn primary_ray_bounces_five_times() {
    let mut depth = 0;
    let mut bounces = 0;
    while let Some(next) = reflection_step(depth) {
        assert_eq!(next, depth + 1);
        depth = next;
        bounces += 1;
    }
    assert_eq!(bounces, MAX_DEPTH);
}

#[test]
fn checker_parity() {
    let cb = Surface::Checkerboard;
    let fl = |x: f64| x.floor() as i64;
    assert_eq!(cb.diffuse(fl(0.4), fl(0.4)), Tone::White);
    assert_eq!(cb.diffuse(fl(1.2), fl(0.4)), Tone::Black);
    assert_eq!(cb.reflect_tenths(fl(0.4), fl(0.4)), 1);
    assert_eq!(cb.reflect_tenths(fl(1.2), fl(0.4)), 7);
}

#[test]
fn checker_negative_squares() {
    assert!(!even_square(-1, 0));
    assert!(even_square(-1, -1));
    assert!(even_square(-3, 1));
    assert!(!even_square(i64::MIN, i64::MAX));
    assert!(even_square(i64::MAX, i64::MAX));
}

#[test]
fn material_constants() {
    let shiny = Surface::Shiny;
    assert_eq!(shiny.diffuse(3, -8), Tone::White);
    assert_eq!(shiny.specular(), Tone::Grey);
    assert_eq!(shiny.reflect_tenths(0, 1), 7);
    assert_eq!(shiny.roughness(), 250);
    let cb = Surface::Checkerboard;
    assert_eq!(cb.specular(), Tone::White);
    assert_eq!(cb.roughness(), 150);
}

#[test]
fn raster_layout() {
    let mut r = Raster::new(3, 2);
    assert_eq!(r.width(), 3);
    assert_eq!(r.height(), 2);
    assert_eq!(r.pixel(2, 1), [0, 0, 0]);
    r.set_pixel(1, 0, [10, 20, 30]);
    r.set_pixel(2, 1, [40, 50, 60]);
    assert_eq!(r.pixel(1, 0), [10, 20, 30]);
    assert_eq!(r.pixel(0, 0), [0, 0, 0]);
    let bytes = r.into_bytes();
    assert_eq!(bytes.len(), 18);
    assert_eq!(&bytes[3..6], &[10, 20, 30]);
    assert_eq!(&bytes[15..18], &[40, 50, 60]);
}

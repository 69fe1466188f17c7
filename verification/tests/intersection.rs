use raygrid::hit::nearest;
use raygrid::object::{Object, Sighting};
use raygrid::polygon::{Crossing, Polygon, Probe};
use raygrid::ray::Ray3;
use raygrid::scalar::Scalar;
use raygrid::vector::{Point3, Vec3};
use termion::color::Rgb;

type Triple = (Scalar, Scalar, Scalar);

fn s(x: f64) -> Scalar {
    Scalar::from_bits(x.to_bits())
}

fn f(x: Scalar) -> f64 {
    f64::from_bits(x.to_bits())
}

fn p(x: f64, y: f64, z: f64) -> Point3 {
    Point3::new(s(x), s(y), s(z))
}

fn v(x: f64, y: f64, z: f64) -> Vec3 {
    Vec3::new(s(x), s(y), s(z))
}

fn arr(a: (Scalar, Scalar, Scalar)) -> [f64; 3] {
    [f(a.0), f(a.1), f(a.2)]
}

fn ray(origin: (f64, f64, f64), dir: (f64, f64, f64)) -> Ray3 {
    let d = v(dir.0, dir.1, dir.2);
    let inv = d.unpack_map(|c| s(1.0 / f(c)));
    Ray3::new(p(origin.0, origin.1, origin.2), d, inv)
}

fn slab_parameters(r: &Ray3, bounds: &[Point3; 2]) -> (Triple, Triple) {
    let (near, far) = r.slab_planes(bounds);
    let (near, far) = (arr(near), arr(far));
    let tmin = r.map(|i, o, _v, iv, _s| s((near[i as usize] - f(o)) * f(iv)));
    let tmax = r.map(|i, o, _v, iv, _s| s((far[i as usize] - f(o)) * f(iv)));
    (tmin, tmax)
}

fn hits_box(r: &Ray3, bounds: &[Point3; 2]) -> bool {
    let (tmin, tmax) = slab_parameters(r, bounds);
    Ray3::collides_box(tmin, tmax)
}

fn cross(a: [f64; 3], b: [f64; 3]) -> [f64; 3] {
    [a[1] * b[2] - a[2] * b[1], a[2] * b[0] - a[0] * b[2], a[0] * b[1] - a[1] * b[0]]
}

fn dot(a: [f64; 3], b: [f64; 3]) -> f64 {
    a[0] * b[0] + a[1] * b[1] + a[2] * b[2]
}

fn minus(a: [f64; 3], b: [f64; 3]) -> [f64; 3] {
    [a[0] - b[0], a[1] - b[1], a[2] - b[2]]
}

fn probe(poly: &Polygon, r: &Ray3) -> Probe {
    let Polygon::Triangle(p0, p1, p2) = poly;
    let (p0, p1, p2) = (arr(p0.unpack()), arr(p1.unpack()), arr(p2.unpack()));
    let origin = arr(r.origin().unpack());
    let dir = arr(r.vec().unpack());
    let edge1 = minus(p1, p0);
    let edge2 = minus(p2, p0);
    let h = cross(edge2, dir);
    let a = dot(edge1, h);
    let inv = 1.0 / a;
    let from_corner = minus(origin, p0);
    let u = inv * dot(from_corner, h);
    let q = cross(edge1, from_corner);
    let w = inv * dot(dir, q);
    let t = inv * dot(edge2, q);
    let at = [origin[0] + dir[0] * t, origin[1] + dir[1] * t, origin[2] + dir[2] * t];
    let gap = minus(origin, at);
    let dist = dot(gap, gap).sqrt();
    Probe {
        crossing: Crossing { det: s(a), u: s(u), v: s(w), uv: s(u + w), t: s(t) },
        point: p(at[0], at[1], at[2]),
        dist: s(dist),
    }
}

fn triangle_test(poly: &Polygon, r: &Ray3) -> Option<(Point3, Scalar)> {
    poly.intersect(&probe(poly, r))
}

fn sighting(o: &Object, r: &Ray3) -> Sighting {
    let (tmin, tmax) = slab_parameters(r, &o.bounds);
    let probes: Vec<Probe> = if Ray3::collides_box(tmin, tmax) {
        o.polygons.iter().map(|q| probe(q, r)).collect()
    } else {
        Vec::new()
    };
    Sighting { tmin, tmax, probes }
}

fn object_test(o: &Object, r: &Ray3) -> Option<(Point3, Scalar)> {
    o.intersect(&sighting(o, r))
}

fn given(d: f64) -> Probe {
    Probe { crossing: crossing(4.0, 0.25, 0.25, d), point: p(0.5, 0.5, d), dist: s(d) }
}

fn unit_box() -> [Point3; 2] {
    [p(0.0, 0.0, 0.0), p(1.0, 1.0, 1.0)]
}

fn flat_triangle() -> Polygon {
    Polygon::Triangle(p(0.0, 0.0, 0.0), p(2.0, 0.0, 0.0), p(0.0, 2.0, 0.0))
}

fn crossing(det: f64, u: f64, w: f64, t: f64) -> Crossing {
    Crossing { det: s(det), u: s(u), v: s(w), uv: s(u + w), t: s(t) }
}

#[test]
fn ray_keeps_what_it_was_made_of() {
    let r = ray((1.0, 2.0, 3.0), (2.0, -4.0, 0.0));
    assert_eq!(arr(r.origin().unpack()), [1.0, 2.0, 3.0]);
    assert_eq!(arr(r.vec().unpack()), [2.0, -4.0, 0.0]);
    assert_eq!(arr(r.inv_vec()), [0.5, -0.25, f64::INFINITY]);
    assert_eq!(r.inv_vec_sign(), (0, 1, 0));
}

#[test]
fn sign_bit_is_set_only_below_zero() {
    let r = Ray3::new(
        p(0.0, 0.0, 0.0),
        v(0.0, 0.0, 0.0),
        (s(f64::NEG_INFINITY), s(-0.0), s(f64::NAN)),
    );
    assert_eq!(r.inv_vec_sign(), (1, 0, 0));
    let r = Ray3::new(p(0.0, 0.0, 0.0), v(0.0, 0.0, 0.0), (s(-5.0e-324), s(0.0), s(3.0)));
    assert_eq!(r.inv_vec_sign(), (1, 0, 0));
}

#[test]
fn map_hands_each_axis_its_own_values() {
    let r = ray((1.0, 2.0, 3.0), (2.0, -4.0, 0.0));
    let seen = r.map(|i, o, d, iv, sign| (i, f(o), f(d), f(iv), sign));
    assert_eq!(seen.0, (0, 1.0, 2.0, 0.5, 0));
    assert_eq!(seen.1, (1, 2.0, -4.0, -0.25, 1));
    assert_eq!(seen.2, (2, 3.0, 0.0, f64::INFINITY, 0));
}

#[test]
fn slab_planes_swap_where_the_ray_runs_backwards() {
    let bounds = [p(0.0, 10.0, 20.0), p(1.0, 11.0, 21.0)];
    let r = ray((0.0, 0.0, 0.0), (1.0, -1.0, 0.0));
    let (near, far) = r.slab_planes(&bounds);
    assert_eq!(arr(near), [0.0, 11.0, 20.0]);
    assert_eq!(arr(far), [1.0, 10.0, 21.0]);
}

#[test]
fn ray_toward_the_box_hits_it() {
    let r = ray((-1.0, 0.5, 0.5), (1.0, 0.0, 0.0));
    let (tmin, tmax) = slab_parameters(&r, &unit_box());
    assert_eq!(arr(tmin), [1.0, f64::NEG_INFINITY, f64::NEG_INFINITY]);
    assert_eq!(arr(tmax), [2.0, f64::INFINITY, f64::INFINITY]);
    assert!(Ray3::collides_box(tmin, tmax));
}

#[test]
fn ray_beside_the_box_misses_it() {
    assert!(!hits_box(&ray((-1.0, 1.5, 0.5), (1.0, 0.0, 0.0)), &unit_box()));
    assert!(!hits_box(&ray((-1.0, 0.5, -0.5), (1.0, 0.0, 0.0)), &unit_box()));
    assert!(!hits_box(&ray((-1.0, 0.5, 0.5), (1.0, 2.0, 0.0)), &unit_box()));
    assert!(hits_box(&ray((-1.0, 0.5, 0.5), (1.0, 0.25, 0.0)), &unit_box()));
}

#[test]
fn box_test_is_a_test_of_the_whole_line() {
    let r = ray((-1.0, 0.5, 0.5), (-1.0, 0.0, 0.0));
    let (tmin, tmax) = slab_parameters(&r, &unit_box());
    assert_eq!(arr(tmin), [-2.0, f64::NEG_INFINITY, f64::NEG_INFINITY]);
    assert_eq!(arr(tmax), [-1.0, f64::INFINITY, f64::INFINITY]);
    assert!(Ray3::collides_box(tmin, tmax));
    let o = Object::new(
        Rgb(1, 1, 1),
        vec![Polygon::Triangle(p(0.0, 0.0, 0.0), p(0.0, 1.0, 0.0), p(0.0, 0.0, 1.0))],
    );
    assert!(object_test(&o, &ray((-1.0, 0.25, 0.25), (1.0, 0.0, 0.0))).is_some());
    assert!(object_test(&o, &ray((-1.0, 0.25, 0.25), (-1.0, 0.0, 0.0))).is_none());
}

#[test]
fn collides_box_on_given_parameters() {
    let t = |a: f64, b: f64, c: f64| (s(a), s(b), s(c));
    assert!(Ray3::collides_box(t(1.0, 2.0, 3.0), t(4.0, 5.0, 6.0)));
    assert!(Ray3::collides_box(t(1.0, 2.0, 3.0), t(3.0, 3.0, 3.0)));
    assert!(!Ray3::collides_box(t(5.0, 2.0, 3.0), t(6.0, 4.0, 6.0)));
    assert!(!Ray3::collides_box(t(1.0, 5.0, 3.0), t(4.0, 6.0, 6.0)));
    assert!(!Ray3::collides_box(t(1.0, 2.0, 5.0), t(4.0, 6.0, 6.0)));
    assert!(!Ray3::collides_box(t(1.0, 2.0, 5.5), t(6.0, 5.0, 6.0)));
    assert!(!Ray3::collides_box(t(1.0, 5.5, 3.0), t(6.0, 6.0, 5.0)));
}

#[test]
fn collides_box_with_parameters_that_are_no_number() {
    let t = |a: f64, b: f64, c: f64| (s(a), s(b), s(c));
    let nan = f64::NAN;
    assert!(Ray3::collides_box(t(1.0, nan, 3.0), t(4.0, nan, 6.0)));
    assert!(!Ray3::collides_box(t(5.0, nan, 3.0), t(4.0, nan, 6.0)));
    assert!(!Ray3::collides_box(t(nan, nan, nan), t(nan, nan, nan)));
}

#[test]
fn ray_through_the_triangle_hits_at_distance_ten() {
    let hit = triangle_test(&flat_triangle(), &ray((0.5, 0.5, -10.0), (0.0, 0.0, 1.0)));
    let (at, dist) = hit.unwrap();
    assert!((f(dist) - 10.0).abs() < 1.0e-9);
    assert_eq!(arr(at.unpack()), [0.5, 0.5, 0.0]);
}

#[test]
fn ray_past_the_triangle_misses() {
    assert!(triangle_test(&flat_triangle(), &ray((5.0, 5.0, -10.0), (0.0, 0.0, 1.0))).is_none());
}

#[test]
fn ray_in_the_plane_of_the_triangle_misses() {
    assert!(triangle_test(&flat_triangle(), &ray((-1.0, 0.5, 0.0), (1.0, 0.0, 0.0))).is_none());
    assert!(triangle_test(&flat_triangle(), &ray((-1.0, 0.5, 0.0), (1.0, 1.0, 0.0))).is_none());
}

#[test]
fn ray_away_from_the_triangle_misses() {
    assert!(triangle_test(&flat_triangle(), &ray((0.5, 0.5, -10.0), (0.0, 0.0, -1.0))).is_none());
}

#[test]
fn distance_is_the_length_of_the_way_whatever_the_length_of_the_direction() {
    let hit = triangle_test(&flat_triangle(), &ray((0.5, 0.5, -10.0), (0.0, 0.0, 4.0)));
    let (_, dist) = hit.unwrap();
    assert!((f(dist) - 10.0).abs() < 1.0e-9);
}

#[test]
fn crossing_rules() {
    assert!(crossing(4.0, 0.25, 0.25, 10.0).hits());
    assert!(crossing(-4.0, 0.25, 0.25, 10.0).hits());
    assert!(crossing(4.0, 0.0, 0.0, 10.0).hits());
    assert!(crossing(4.0, 1.0, 0.0, 10.0).hits());
    assert!(crossing(4.0, 0.5, 0.5, 10.0).hits());
    assert!(crossing(1.0e-7, 0.25, 0.25, 10.0).hits());
    assert!(crossing(-1.0e-7, 0.25, 0.25, 10.0).hits());
    assert!(!crossing(0.0, 0.25, 0.25, 10.0).hits());
    assert!(!crossing(0.99e-7, 0.25, 0.25, 10.0).hits());
    assert!(!crossing(-0.99e-7, 0.25, 0.25, 10.0).hits());
    assert!(!crossing(4.0, -0.001, 0.25, 10.0).hits());
    assert!(!crossing(4.0, 1.001, 0.0, 10.0).hits());
    assert!(!crossing(4.0, 0.25, -0.001, 10.0).hits());
    assert!(!crossing(4.0, 0.75, 0.5, 10.0).hits());
    assert!(!crossing(4.0, 0.25, 0.25, 1.0e-7).hits());
    assert!(!crossing(4.0, 0.25, 0.25, 0.0).hits());
    assert!(!crossing(4.0, 0.25, 0.25, -10.0).hits());
    assert!(crossing(4.0, 0.25, 0.25, 1.1e-7).hits());
    assert!(!crossing(4.0, 0.25, 0.25, f64::NAN).hits());
}

#[test]
fn intersect_hands_back_point_and_distance_of_a_hit() {
    let poly = flat_triangle();
    let hit = Probe { crossing: crossing(4.0, 0.25, 0.25, 10.0), point: p(0.5, 0.5, 0.0), dist: s(10.0) };
    let (at, dist) = poly.intersect(&hit).unwrap();
    assert_eq!(arr(at.unpack()), [0.5, 0.5, 0.0]);
    assert_eq!(f(dist), 10.0);
    let miss = Probe { crossing: crossing(4.0, 2.5, 0.25, 10.0), point: p(0.5, 0.5, 0.0), dist: s(10.0) };
    assert!(poly.intersect(&miss).is_none());
}

#[test]
fn nearest_is_the_first_of_least_distance() {
    let h = |d: f64| Some((p(d, 0.0, 0.0), s(d)));
    assert_eq!(nearest(&vec![]), None);
    assert_eq!(nearest(&vec![None, None]), None);
    assert_eq!(nearest(&vec![h(3.0)]), Some(0));
    assert_eq!(nearest(&vec![None, h(3.0), None]), Some(1));
    assert_eq!(nearest(&vec![h(3.0), h(2.0), h(5.0)]), Some(1));
    assert_eq!(nearest(&vec![h(3.0), None, h(1.0), h(2.0)]), Some(2));
    assert_eq!(nearest(&vec![h(2.0), h(2.0), h(2.0)]), Some(0));
    assert_eq!(nearest(&vec![h(4.0), h(2.0), None, h(2.0)]), Some(1));
    assert_eq!(nearest(&vec![h(0.0), h(-0.0)]), Some(0));
    assert_eq!(nearest(&vec![h(f64::INFINITY), h(1.0e300)]), Some(1));
}

#[test]
fn nearest_agrees_with_the_fold_of_the_standard_library() {
    let lists: Vec<Vec<Option<f64>>> = vec![
        vec![Some(3.0), Some(f64::NAN), Some(1.0)],
        vec![Some(f64::NAN), Some(1.0), Some(0.5)],
        vec![Some(2.0), None, Some(2.0), Some(1.5), Some(f64::NAN), Some(1.5)],
        vec![None, Some(f64::NAN)],
        vec![Some(7.0), Some(6.0), Some(5.0), Some(6.0)],
    ];
    for list in lists.iter() {
        let hits: Vec<Option<(Point3, Scalar)>> =
            list.iter().map(|d| d.map(|d| (p(0.0, 0.0, 0.0), s(d)))).collect();
        let want = list
            .iter()
            .enumerate()
            .filter_map(|(i, d)| d.map(|d| (i, d)))
            .min_by(|a, b| a.1.partial_cmp(&b.1).unwrap_or(std::cmp::Ordering::Equal))
            .map(|(i, _)| i);
        assert_eq!(nearest(&hits), want);
    }
}

#[test]
fn object_keeps_the_nearest_of_its_polygons() {
    let o = Object::new(
        Rgb(55, 155, 255),
        vec![
            Polygon::Triangle(p(0.0, 0.0, 5.0), p(2.0, 0.0, 5.0), p(0.0, 2.0, 5.0)),
            Polygon::Triangle(p(0.0, 0.0, 1.0), p(2.0, 0.0, 1.0), p(0.0, 2.0, 1.0)),
            Polygon::Triangle(p(0.0, 0.0, 3.0), p(2.0, 0.0, 3.0), p(0.0, 2.0, 3.0)),
        ],
    );
    let (at, dist) = object_test(&o, &ray((0.5, 0.5, -10.0), (0.0, 0.0, 1.0))).unwrap();
    assert!((f(dist) - 11.0).abs() < 1.0e-9);
    assert_eq!(arr(at.unpack()), [0.5, 0.5, 1.0]);
    assert!(object_test(&o, &ray((5.0, 5.0, -10.0), (0.0, 0.0, 1.0))).is_none());
}

#[test]
fn object_behind_a_missed_box_is_not_hit() {
    let o = Object::new(Rgb(1, 1, 1), vec![flat_triangle()]);
    let t = |a: f64, b: f64, c: f64| (s(a), s(b), s(c));
    let missed = Sighting { tmin: t(5.0, 0.0, 0.0), tmax: t(6.0, 1.0, 1.0), probes: vec![given(10.0)] };
    assert!(o.intersect(&missed).is_none());
    let missed = Sighting { tmin: t(5.0, 0.0, 0.0), tmax: t(6.0, 1.0, 1.0), probes: Vec::new() };
    assert!(o.intersect(&missed).is_none());
    let met = Sighting { tmin: t(0.0, 0.0, 0.0), tmax: t(1.0, 1.0, 1.0), probes: vec![given(10.0)] };
    assert_eq!(f(o.intersect(&met).unwrap().1), 10.0);
    let met = Sighting { tmin: t(0.0, 0.0, 0.0), tmax: t(1.0, 1.0, 1.0), probes: vec![given(-10.0)] };
    assert!(o.intersect(&met).is_none());
}

#[test]
fn object_keeps_the_first_of_equally_near_polygons() {
    let o = Object::new(
        Rgb(1, 1, 1),
        vec![flat_triangle(), flat_triangle(), flat_triangle(), flat_triangle()],
    );
    let t = |a: f64, b: f64, c: f64| (s(a), s(b), s(c));
    let mut second = given(7.0);
    second.point = p(2.0, 2.0, 2.0);
    let mut third = given(7.0);
    third.point = p(3.0, 3.0, 3.0);
    let met = Sighting {
        tmin: t(0.0, 0.0, 0.0),
        tmax: t(1.0, 1.0, 1.0),
        probes: vec![given(9.0), second, third, given(-1.0)],
    };
    let (at, dist) = o.intersect(&met).unwrap();
    assert_eq!(f(dist), 7.0);
    assert_eq!(arr(at.unpack()), [2.0, 2.0, 2.0]);
}

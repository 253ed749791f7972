use raycast::camera::{
    initialize_camera_corners, new_camera, transform_camera, turn_90_degrees, Camera, CameraCorners,
};
use raycast::frame::draw;
use raycast::geometry::{identity, vector_of, IndexError, TransformMatrix, Vector3};
use raycast::intersect::{
    get_intersection, intersection_along, point_inside_triangle, try_get_intersection,
};
use raycast::objects::{new_test_obj, rotate, Object};
use raycast::render::{raycasting, shade, try_probe, try_raycasting};
use raycast::scalar::{is_negative, is_nought, is_positive, Scalar};
use raycast::vectors::{
    cross_product, dot_product, length_of_vector, opposite_of, try_length_of_vector,
    try_vector_to_unit_vector, vector_ab, vector_to_unit_vector, NotANumber,
};

#[derive(Copy, Clone, Debug, PartialEq)]
struct R(f64);

impl Scalar for R {
    fn from_int(n: i32) -> Self {
        R(f64::from(n))
    }
    fn from_index(n: usize) -> Self {
        R(n as f64)
    }
    fn plus(self, rhs: Self) -> Self {
        R(self.0 + rhs.0)
    }
    fn minus(self, rhs: Self) -> Self {
        R(self.0 - rhs.0)
    }
    fn times(self, rhs: Self) -> Self {
        R(self.0 * rhs.0)
    }
    fn over(self, rhs: Self) -> Self {
        R(self.0 / rhs.0)
    }
    fn negated(self) -> Self {
        R(-self.0)
    }
    fn root(self) -> Self {
        R(self.0.sqrt())
    }
    fn is_nan(self) -> bool {
        self.0.is_nan()
    }
    fn less(self, rhs: Self) -> bool {
        self.0 < rhs.0
    }
    fn same(self, rhs: Self) -> bool {
        self.0 == rhs.0
    }
}

fn v(x: f64, y: f64, z: f64) -> Vector3<R> {
    Vector3 { x: R(x), y: R(y), z: R(z) }
}

fn quarter_turn() -> TransformMatrix<R> {
    TransformMatrix { row_1: v(0., 0., 1.), row_2: v(0., 1., 0.), row_3: v(-1., 0., 0.) }
}

fn one_triangle() -> Object<R> {
    Object {
        origin: v(0., 0., 100.),
        vertices: vec![v(10., -10., 0.), v(-10., -10., 0.), v(0., 10., 0.)],
        transform_vertices: vec![v(10., -10., 0.), v(-10., -10., 0.), v(0., 10., 0.)],
        polygons: vec![[0, 1, 2]],
        transform_matrix: identity(),
        tranlation_vector: v(0., 0., 0.),
    }
}

#[test]
fn index_reads_each_component() {
    let a = v(1.5, -2., 4.25);
    assert_eq!(*a.index(0), R(1.5));
    assert_eq!(*a.index(1), R(-2.));
    assert_eq!(*a.index(2), R(4.25));
}

#[test]
fn index_mut_writes_one_component() {
    let mut a = v(1., 2., 3.);
    *a.index_mut(1) = R(9.);
    assert_eq!(a, v(1., 9., 3.));
    *a.index_mut(0) = R(-1.);
    *a.index_mut(2) = R(7.);
    assert_eq!(a, v(-1., 9., 7.));
}

#[test]
fn get_refuses_a_position_past_the_end() {
    let a = v(1., 2., 3.);
    assert_eq!(a.get(2), Ok(&R(3.)));
    assert_eq!(a.get(3), Err(IndexError::IndexOutOfBounds));
    let m = quarter_turn();
    assert_eq!(m.get(0), Ok(&v(0., 0., 1.)));
    assert_eq!(m.get(7), Err(IndexError::IndexOutOfBounds));
}

#[test]
fn matrix_rows_and_columns() {
    let m = TransformMatrix { row_1: v(1., 2., 3.), row_2: v(4., 5., 6.), row_3: v(7., 8., 9.) };
    assert_eq!(*m.index(1), v(4., 5., 6.));
    assert_eq!(m.column_at(0), v(1., 4., 7.));
    assert_eq!(m.column_at(2), v(3., 6., 9.));
}

#[test]
fn whole_numbers_become_scalars() {
    assert_eq!(vector_of::<R>(20, -20, 50), v(20., -20., 50.));
    assert_eq!(
        identity::<R>(),
        TransformMatrix { row_1: v(1., 0., 0.), row_2: v(0., 1., 0.), row_3: v(0., 0., 1.) }
    );
}

#[test]
fn signs_are_told_apart() {
    assert!(is_negative(R(-0.5)) && !is_negative(R(0.)) && !is_negative(R(2.)));
    assert!(is_positive(R(0.5)) && !is_positive(R(0.)) && !is_positive(R(-2.)));
    assert!(is_nought(R(0.)) && is_nought(R(-0.)) && !is_nought(R(1e-300)));
    assert_eq!(opposite_of(R(3.)), R(-3.));
}

#[test]
fn cross_product_is_perpendicular_to_both() {
    let u = v(3., -7., 2.);
    let w = v(-5., 4., 11.);
    let c = cross_product(u, w);
    assert_eq!(c, v(-85., -43., -23.));
    assert_eq!(dot_product(c, u), R(0.));
    assert_eq!(dot_product(c, w), R(0.));
}

#[test]
fn cross_product_of_parallel_vectors_is_zero() {
    assert_eq!(cross_product(v(1., 2., 3.), v(2., 4., 6.)), v(0., 0., 0.));
    assert_eq!(cross_product(v(1., 2., 3.), v(0., 0., 0.)), v(0., 0., 0.));
}

#[test]
fn unit_vector_has_length_one() {
    let u = vector_to_unit_vector(v(3., -4., 12.));
    assert_eq!(length_of_vector(v(3., -4., 12.)), R(13.));
    assert!((length_of_vector(u).0 - 1.).abs() < 1e-12);
    assert!((u.x.0 - 3. / 13.).abs() < 1e-15);
}

#[test]
fn zero_vector_has_no_unit_vector() {
    assert_eq!(try_vector_to_unit_vector(v(0., 0., 0.)), Err(NotANumber));
    assert_eq!(try_vector_to_unit_vector(v(0., 0., -23.23)), Ok(v(0., 0., -1.)));
}

#[test]
fn length_of_no_number_is_refused() {
    assert_eq!(try_length_of_vector(v(f64::NAN, 0., 0.)), Err(NotANumber));
    assert_eq!(try_length_of_vector(v(0., 0., f64::NAN)), Err(NotANumber));
    assert_eq!(try_length_of_vector(v(4., 3., 0.)), Ok(R(5.)));
    assert_eq!(try_vector_to_unit_vector(v(1., f64::NAN, 0.)), Err(NotANumber));
}

#[test]
fn identity_is_a_unit_of_the_matrix_product() {
    let m = TransformMatrix { row_1: v(6., 2., 4.), row_2: v(-1., 4., 3.), row_3: v(-2., 9., 3.) };
    assert_eq!(identity() * m, m);
    assert_eq!(m * identity(), m);
    assert_eq!(identity() * v(4., -2., 1.), v(4., -2., 1.));
}

#[test]
fn matrix_product_applies_the_right_operand_first() {
    let a = quarter_turn();
    let b = TransformMatrix { row_1: v(1., 0., 0.), row_2: v(0., 0., -1.), row_3: v(0., 1., 0.) };
    let p = v(1., 2., 3.);
    assert_eq!((a * b) * p, a * (b * p));
    assert_ne!(a * b, b * a);
}

#[test]
fn point_on_an_edge_is_outside() {
    let n = v(0., 0., -800.);
    let p1 = v(10., -10., 100.);
    let p2 = v(-10., -10., 100.);
    let p3 = v(0., 10., 100.);
    assert_eq!(point_inside_triangle(n, p1, p2, p3, v(0., -10., 100.)), false);
    assert_eq!(point_inside_triangle(n, p1, p2, p3, p1), false);
}

#[test]
fn intersection_gives_the_point_on_the_plane() {
    let p1 = v(10., -10., 100.);
    let p2 = v(-10., -10., 100.);
    let p3 = v(0., 10., 100.);
    assert_eq!(get_intersection(p1, p2, p3, v(0., 0., 1.), v(0., 0., 0.)), Some(v(0., 0., 100.)));
    assert_eq!(get_intersection(p1, p2, p3, v(0., 0., 7.), v(1., 2., 0.)), Some(v(1., 2., 100.)));
}

#[test]
fn triangle_behind_the_ray_is_missed() {
    let p1 = v(10., -10., 100.);
    let p2 = v(-10., -10., 100.);
    let p3 = v(0., 10., 100.);
    assert_eq!(get_intersection(p1, p2, p3, v(0., 0., -1.), v(0., 0., 0.)), None);
}

#[test]
fn ray_parallel_to_the_plane_is_missed() {
    let p1 = v(10., -10., 100.);
    let p2 = v(-10., -10., 100.);
    let p3 = v(0., 10., 100.);
    assert_eq!(get_intersection(p1, p2, p3, v(1., 0., 0.), v(0., 0., 0.)), None);
    assert_eq!(intersection_along(p1, p2, p3, v(0., 1., 0.), v(0., 0., 100.)), None);
}

#[test]
fn flat_triangle_is_missed() {
    let p = v(1., 1., 50.);
    assert_eq!(get_intersection(p, p, p, v(0., 0., 1.), v(1., 1., 0.)), None);
    assert_eq!(
        get_intersection(v(0., 0., 5.), v(1., 1., 5.), v(2., 2., 5.), v(0., 0., 1.), v(1., 1., 0.)),
        None
    );
}

#[test]
fn ray_of_no_length_is_refused() {
    let p1 = v(10., -10., 100.);
    let p2 = v(-10., -10., 100.);
    let p3 = v(0., 10., 100.);
    assert_eq!(try_get_intersection(p1, p2, p3, v(0., 0., 0.), v(0., 0., 0.)), Err(NotANumber));
    assert_eq!(
        try_get_intersection(p1, p2, p3, v(0., 0., 2.), v(0., 0., 0.)),
        Ok(Some(v(0., 0., 100.)))
    );
}

#[test]
fn winding_decides_the_sense_of_the_test() {
    let n = v(0., 0., 0.);
    let p1 = v(10., -10., 100.);
    let p2 = v(-10., -10., 100.);
    let p3 = v(0., 10., 100.);
    let h = v(0., 0., 100.);
    assert_eq!(point_inside_triangle(n, p1, p2, p3, h), point_inside_triangle(n, p3, p2, p1, h));
}

#[test]
fn main_camera_stands_where_it_should() {
    let c = new_camera::<R>();
    assert_eq!(c.position, v(0., 0., -50.));
    assert_eq!(c.origin, v(0., 0., 0.));
    assert_eq!(c.corners.top_left, v(20., 20., -20.));
    assert_eq!(c.corners.top_right, v(-20., 20., -20.));
    assert_eq!(c.corners.bottom_left, v(20., -20., -20.));
    assert_eq!(c.corners.bottom_right, v(-20., -20., -20.));
}

#[test]
fn corners_lie_about_the_center() {
    let c = initialize_camera_corners(v(1., 2., 3.), R(10.));
    assert_eq!(c, [v(21., 22., 13.), v(-19., 22., 13.), v(21., -18., 13.), v(-19., -18., 13.)]);
}

#[test]
fn quarter_turn_swaps_the_first_and_third_axes() {
    assert_eq!(turn_90_degrees(v(1., 2., 3.)), v(3., 2., -1.));
    let mut p = v(5., -6., 7.);
    for _ in 0..4 {
        p = turn_90_degrees(p);
    }
    assert_eq!(p, v(5., -6., 7.));
}

#[test]
fn turned_camera_keeps_what_it_looks_at() {
    let c = new_camera::<R>();
    let t = transform_camera(&c);
    assert_eq!(t.origin, c.origin);
    assert_eq!(t.position, v(-50., 0., 0.));
    assert_eq!(t.corners.top_left, v(-20., 20., -20.));
    assert_eq!(t.corners.bottom_right, v(-20., -20., 20.));
}

#[test]
fn test_object_is_well_formed() {
    let obj = new_test_obj::<R>();
    assert!(obj.is_well_formed());
    assert_eq!(obj.vertices, vec![v(20., -20., 50.), v(-20., -20., 50.), v(0., 20., 0.), v(0., 0., -50.)]);
    assert_eq!(obj.transform_vertices, obj.vertices);
    assert_eq!(obj.polygons, vec![[0, 1, 2], [0, 1, 3], [2, 3, 0], [1, 2, 3]]);
    assert_eq!(obj.origin, v(0., 0., 100.));
    assert_eq!(obj.transform_matrix, identity());
    assert_eq!(obj.tranlation_vector, v(0., 0., 0.));
}

#[test]
fn triangle_that_names_no_vertex_is_ill_formed() {
    let mut obj = one_triangle();
    assert!(obj.is_well_formed());
    obj.polygons.push([0, 1, 3]);
    assert!(!obj.is_well_formed());
    let mut short = one_triangle();
    short.transform_vertices.pop();
    assert!(!short.is_well_formed());
}

#[test]
fn rotation_by_the_identity_leaves_the_vertices() {
    let obj = new_test_obj::<R>();
    let turned = rotate(obj.clone(), identity());
    assert_eq!(turned.transform_vertices, obj.vertices);
    assert_eq!(turned.transform_matrix, identity());
    assert_eq!(turned.vertices, obj.vertices);
    assert_eq!(turned.polygons, obj.polygons);
}

#[test]
fn rotation_composes_the_increment_on_the_left() {
    let first = TransformMatrix { row_1: v(1., 0., 0.), row_2: v(0., 0., -1.), row_3: v(0., 1., 0.) };
    let obj = rotate(one_triangle(), first);
    let obj = rotate(obj, quarter_turn());
    assert_eq!(obj.transform_matrix, quarter_turn() * first);
    assert_eq!(obj.transform_vertices[0], (quarter_turn() * first) * v(10., -10., 0.));
    assert_eq!(obj.transform_vertices[0], v(-10., 0., -10.));
}

#[test]
fn four_quarter_turns_return_to_the_start() {
    let start = new_test_obj::<R>();
    let mut obj = start.clone();
    for turn in 1..=4 {
        obj = rotate(obj, quarter_turn());
        assert_eq!(obj.vertices, start.vertices);
        if turn == 1 {
            assert_eq!(obj.transform_vertices[0], v(50., -20., -20.));
        }
        if turn == 2 {
            assert_eq!(obj.transform_vertices[0], v(-20., -20., -50.));
        }
    }
    assert_eq!(obj.transform_matrix, identity());
    assert_eq!(obj.transform_vertices, start.vertices);
}

#[test]
fn many_small_turns_do_not_drift() {
    let start = new_test_obj::<R>();
    let mut obj = start.clone();
    for _ in 0..400 {
        obj = rotate(obj, quarter_turn());
    }
    assert_eq!(obj.transform_vertices, start.vertices);
}

#[test]
fn shade_is_lit_by_any_hit() {
    assert_eq!(shade(&vec![]), [0, 0, 0]);
    assert_eq!(shade(&vec![false, false]), [0, 0, 0]);
    assert_eq!(shade(&vec![false, true, false]), [255, 255, 255]);
    assert_eq!(shade(&vec![true, false, false]), shade(&vec![false, false, true]));
}

#[test]
fn probe_tests_every_triangle() {
    let obj = new_test_obj::<R>();
    let hits = try_probe(&obj, v(0., 0., -50.), v(0., 0., 30.)).unwrap();
    assert_eq!(hits.len(), 4);
    assert_eq!(shade(&hits), [255, 255, 255]);
    let misses = try_probe(&obj, v(0., 0., -50.), v(20., 20., 30.)).unwrap();
    assert_eq!(misses, vec![false, false, false, false]);
    assert_eq!(try_probe(&obj, v(0., 0., -50.), v(0., 0., 0.)), Err(NotANumber));
}

#[test]
fn grid_has_the_shape_asked_for() {
    let c = new_camera::<R>();
    let k = c.corners;
    let grid = raycasting(
        k.top_left, k.top_right, k.bottom_left, k.bottom_right, c, new_test_obj(), 7, 3,
    );
    assert_eq!(grid.len(), 3);
    assert!(grid.iter().all(|row| row.len() == 7));
    let none = raycasting(
        k.top_left, k.top_right, k.bottom_left, k.bottom_right, c, new_test_obj(), 5, 0,
    );
    assert!(none.is_empty());
}

#[test]
fn triangle_shows_in_the_middle_of_the_grid() {
    let c = new_camera::<R>();
    let k = c.corners;
    let grid =
        raycasting(k.top_left, k.top_right, k.bottom_left, k.bottom_right, c, one_triangle(), 4, 4);
    let lit = [255, 255, 255];
    let dark = [0, 0, 0];
    assert_eq!(grid[0], vec![dark, dark, dark, dark]);
    assert_eq!(grid[1], vec![dark, dark, dark, dark]);
    assert_eq!(grid[2], vec![dark, dark, lit, dark]);
    assert_eq!(grid[3], vec![dark, dark, dark, dark]);
}

#[test]
fn collapsed_viewport_gives_one_shade() {
    let point = v(0., 0., -20.);
    let c = Camera {
        position: v(0., 0., -50.),
        origin: v(0., 0., 0.),
        corners: CameraCorners {
            top_left: point,
            top_right: point,
            bottom_left: point,
            bottom_right: point,
        },
    };
    let grid = raycasting(point, point, point, point, c, new_test_obj(), 6, 5);
    assert_eq!(grid.len(), 5);
    assert!(grid.iter().all(|row| row.len() == 6));
    assert!(grid.iter().all(|row| row.iter().all(|cell| *cell == [255, 255, 255])));
    let aside = v(500., 0., -20.);
    let dark = raycasting(aside, aside, aside, aside, c, new_test_obj(), 6, 5);
    assert!(dark.iter().all(|row| row.iter().all(|cell| *cell == [0, 0, 0])));
}

#[test]
fn viewport_collapsed_onto_the_eye_is_refused() {
    let eye = v(0., 0., -50.);
    let c = Camera {
        position: eye,
        origin: v(0., 0., 0.),
        corners: CameraCorners { top_left: eye, top_right: eye, bottom_left: eye, bottom_right: eye },
    };
    assert_eq!(try_raycasting(eye, eye, eye, eye, c, new_test_obj(), 3, 3), Err(NotANumber));
    let mut bare = new_test_obj::<R>();
    bare.polygons.clear();
    let grid = try_raycasting(eye, eye, eye, eye, c, bare, 3, 2).unwrap();
    assert_eq!(grid, vec![vec![[0, 0, 0]; 3]; 2]);
}

#[test]
fn order_of_triangles_does_not_change_the_frame() {
    let c = new_camera::<R>();
    let k = c.corners;
    let obj = new_test_obj::<R>();
    let mut back = obj.clone();
    back.polygons.reverse();
    let one = raycasting(k.top_left, k.top_right, k.bottom_left, k.bottom_right, c, obj, 20, 20);
    let two = raycasting(k.top_left, k.top_right, k.bottom_left, k.bottom_right, c, back, 20, 20);
    assert_eq!(one, two);
}

#[test]
fn frame_is_two_glyphs_a_cell_and_a_line_a_row() {
    let grid = vec![
        vec![[0, 0, 0], [255, 255, 255], [0, 0, 0]],
        vec![[255, 255, 255], [0, 0, 1], [0, 0, 0]],
    ];
    assert_eq!(draw(&grid), "..XX..\nXXXX..\n");
    assert_eq!(draw(&vec![]), "");
    assert_eq!(draw(&vec![vec![], vec![]]), "\n\n");
}

#[test]
fn rotated_object_is_drawn() {
    let c = new_camera::<R>();
    let k = c.corners;
    let obj = rotate(new_test_obj::<R>(), quarter_turn());
    let grid = raycasting(k.top_left, k.top_right, k.bottom_left, k.bottom_right, c, obj, 10, 10);
    let text = draw(&grid);
    assert_eq!(text.lines().count(), 10);
    assert!(text.lines().all(|line| line.len() == 20));
    assert!(text.contains("XX") && text.contains(".."));
    assert_eq!(vector_ab(v(1., 1., 1.), v(1., 1., 1.)), v(0., 0., 0.));
}

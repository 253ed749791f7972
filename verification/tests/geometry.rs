use raycast::camera::new_camera;
use raycast::frame::draw;
use raycast::geometry::{TransformMatrix, Vector3};
use raycast::intersect::{get_intersection, point_inside_triangle};
use raycast::objects::{new_test_obj, rotate, Object};
use raycast::render::raycasting;
use raycast::scalar::Scalar;
use raycast::vectors::{
    cross_product, dot_product, length_of_vector, vector_ab, vector_to_unit_vector,
};

#[derive(Copy, Clone, Debug, PartialEq)]
struct R(f64);

impl Scalar for R {
    fn from_int(n: i32) -> Self {
        R(f64::from(n))
    }
    fn from_index(n: usize) -> Self {
        R(n as f64)
    }
    fn plus(self, rhs: Self) -> Self {
        R(self.0 + rhs.0)
    }
    fn minus(self, rhs: Self) -> Self {
        R(self.0 - rhs.0)
    }
    fn times(self, rhs: Self) -> Self {
        R(self.0 * rhs.0)
    }
    fn over(self, rhs: Self) -> Self {
        R(self.0 / rhs.0)
    }
    fn negated(self) -> Self {
        R(-self.0)
    }
    fn root(self) -> Self {
        R(self.0.sqrt())
    }
    fn is_nan(self) -> bool {
        self.0.is_nan()
    }
    fn less(self, rhs: Self) -> bool {
        self.0 < rhs.0
    }
    fn same(self, rhs: Self) -> bool {
        self.0 == rhs.0
    }
}

fn v(x: f64, y: f64, z: f64) -> Vector3<R> {
    Vector3 { x: R(x), y: R(y), z: R(z) }
}

#[test]
fn test_point_inside_triangle_1() {
    let plane_normal = v(0., 0., -800.);
    let p1 = v(10., -10., 100.);
    let p2 = v(-10., -10., 100.);
    let p3 = v(0., 10., 100.);
    let p = v(0., 0., 100.);
    assert_eq!(point_inside_triangle(plane_normal, p1, p2, p3, p), true);
}

#[test]
fn test_point_inside_triangle_2() {
    let plane_normal = v(0., 0., -800.);
    let p1 = v(10., -10., 100.);
    let p2 = v(-10., -10., 100.);
    let p3 = v(0., 10., 100.);
    let p = v(9., -9., 100.);
    assert_eq!(point_inside_triangle(plane_normal, p1, p2, p3, p), true);
}

#[test]
fn test_point_inside_triangle_3() {
    let plane_normal = v(0., 0., -800.);
    let p1 = v(10., -10., 100.);
    let p2 = v(-10., -10., 100.);
    let p3: Vector3<R> = v(0., 10., 100.);
    let p = v(1000., 0., 99.);
    assert_eq!(point_inside_triangle(plane_normal, p1, p2, p3, p), false);
}

#[test]
fn test_get_intersection_1() {
    let p1 = v(10., -10., 100.);
    let p2 = v(-10., -10., 100.);
    let p3 = v(0., 10., 100.);
    let vec_p: Vector3<R> = v(0., 0., 1.);
    let orig_p_and_camera_origin: Vector3<R> = v(0., 0., 0.);
    let res: Vector3<R> = match get_intersection(p1, p2, p3, vec_p, orig_p_and_camera_origin) {
        Some(some) => some,
        None => v(0., 0., 0.),
    };
    assert_ne!(res, v(0., 0., 0.))
}

#[test]
fn test_get_intersection_2() {
    let p1 = v(1000., -1200., 3000.);
    let p2 = v(-1000., -1200., 3000.);
    let p3 = v(0., 400., 3000.);

    let res: Vector3<R> = match get_intersection(p1, p2, p3, v(0., -0.1, 100.), v(0., 1., 0.)) {
        Some(some) => some,
        None => v(0., 0., 0.),
    };
    assert_ne!(res, v(0., 0., 0.))
}

#[test]
fn test_vector_to_unit_vector_1() {
    assert_eq!(vector_to_unit_vector(v(16., 0., 0.)), v(1., 0., 0.));
    assert_eq!(vector_to_unit_vector(v(0., 340.3, 0.)), v(0., 1., 0.));
    assert_eq!(vector_to_unit_vector(v(0., 0., -23.23)), v(0., 0., -1.));
}

#[test]
fn test_length_of_vector_1() {
    assert_eq!(length_of_vector(v(1., 0., 0.)), R(1.));
    assert_eq!(length_of_vector(v(0., 1., 0.)), R(1.));
    assert_eq!(length_of_vector(v(0., 0., 1.)), R(1.));
    assert_eq!(length_of_vector(v(-1., 0., 0.)), R(1.));
    assert_eq!(length_of_vector(v(0., 0., 0.)), R(0.));
    assert_eq!(length_of_vector(v(4., 3., 0.)), R(5.));
    assert_eq!(length_of_vector(v(4., 0., -3.)), R(5.));
}

#[test]
fn test_cross_product_1() {
    assert_eq!(cross_product(v(1., 2., 3.), v(4., 5., 6.)), v(-3., 6., -3.));
}

#[test]
fn test_dot_product_1() {
    assert_eq!(dot_product(v(4., 0., 0.), v(4., 0., 0.)), R(16.));
    assert_eq!(dot_product(v(4., 0., 0.), v(-4., 0., 0.)), R(-16.));
    assert_eq!(dot_product(v(4., 0., 0.), v(0., 0., 1.)), R(0.));
}

#[test]
fn test_vector_ab_1() {
    assert_eq!(vector_ab(v(4., 0., -3.), v(4., 0., -3.)), v(0., 0., 0.));
    assert_eq!(vector_ab(v(-4., 4., 25.), v(4., -2., -3.)), v(8., -6., -28.));
    assert_eq!(vector_ab(v(42., 34., -33.), v(4., 0., -3.)), v(-38., -34., 30.));
    assert_eq!(vector_ab(v(4., 22., -32.), v(4., 12., -3.)), v(0., -10., 29.));
}

#[test]
fn test_matrix_matrix_mult() {
    let m1 = TransformMatrix { row_1: v(-1., -1., 2.), row_2: v(1., -1., 2.), row_3: v(3., -3., 2.) };
    let m2 = TransformMatrix { row_1: v(2., 3., 1.), row_2: v(-1., -2., 1.), row_3: v(3., -3., 2.) };
    let m_res =
        TransformMatrix { row_1: v(5., -7., 2.), row_2: v(9., -1., 4.), row_3: v(15., 9., 4.) };
    assert_eq!(m1 * m2 == m_res, true);
}

#[test]
fn test_add_for_vector3_1() {
    assert_eq!(v(0., 0., 0.) + v(0., 0., 0.) == v(0., 0., 0.), true);
}

#[test]
fn test_add_for_vector3_2() {
    assert_eq!(v(4., -4., 3.) + v(7., 2., 3.) == v(11., -2., 6.), true);
}

#[test]
fn test_mul_for_f64_vector3() {
    assert_eq!(v(7., 2., 3.) * R(2.) == v(14., 4., 6.), true);
}

#[test]
fn test_mul_for_vector3_transformmatrix() {
    assert_eq!(
        TransformMatrix { row_1: v(6., 2., 4.), row_2: v(-1., 4., 3.), row_3: v(-2., 9., 3.) }
            * v(4., -2., 1.)
            == v(24., -9., -23.),
        true
    );
}

#[test]
fn test_draw_1() {
    let mut obj: Object<R> = new_test_obj();
    let main_camera = new_camera::<R>();
    let one_degree_transform = TransformMatrix {
        row_1: v(0.95, 0., 0.0975),
        row_2: v(0., 1., 0.),
        row_3: v(-0.0975, 0., 0.95),
    };
    obj = rotate(obj.clone(), one_degree_transform.clone());
    let vec_2d: Vec<Vec<[u8; 3]>> = raycasting(
        main_camera.corners.top_left,
        main_camera.corners.top_right,
        main_camera.corners.bottom_left,
        main_camera.corners.bottom_right,
        main_camera,
        obj.clone(),
        100,
        100,
    );
    println!("{}", draw(&vec_2d));
}

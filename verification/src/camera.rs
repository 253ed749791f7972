//! The camera: an eye, and a flat rectangular viewport in front of it.
//!
//! The viewport is fixed when the camera is made. It lies at a given
//! distance from the eye along the third axis, and reaches 20 to either side
//! of that axis in width and in height. The camera does not aim anew: the
//! direction of every ray follows from the eye and the four corners.
use crate::geometry::{added, scaled, transformed, vector_of, whole_vector, TransformMatrix, Vector3};
use crate::scalar::{difference, sum, whole, Scalar};
use vstd::prelude::*;

verus! {

/// The four corners of the viewport.
#[derive(Copy, Clone)]
pub struct CameraCorners<S> {
    pub top_left: Vector3<S>,
    pub top_right: Vector3<S>,
    pub bottom_left: Vector3<S>,
    pub bottom_right: Vector3<S>,
}

/// An eye, the point it nominally looks at, and its viewport.
#[derive(Copy, Clone)]
pub struct Camera<S> {
    pub position: Vector3<S>,
    pub origin: Vector3<S>,
    pub corners: CameraCorners<S>,
}

/// `center` may be the middle of the viewport of an eye at `position`: the
/// point at `distance` from the eye along the third axis.
pub open spec fn viewport_center<S: Scalar>(
    position: Vector3<S>,
    distance: S,
    center: Vector3<S>,
) -> bool {
    exists|orientation: Vector3<S>, step: Vector3<S>|
        {
            &&& #[trigger] whole_vector(0, 0, 1, orientation)
            &&& #[trigger] scaled(orientation, distance, step)
            &&& added(position, step, center)
        }
}

/// `corner` may be the corner of the viewport about `center` that lies to
/// the left or to the right and at the top or at the bottom. The left is at
/// `center.x + width`, the right at `center.x - width`; the top is at
/// `center.y + height`, the bottom at `center.y - height`; the depth is that
/// of the center.
pub open spec fn viewport_corner<S: Scalar>(
    center: Vector3<S>,
    width: S,
    height: S,
    left: bool,
    top: bool,
    corner: Vector3<S>,
) -> bool {
    &&& if left {
        sum(center.x, width, corner.x)
    } else {
        difference(center.x, width, corner.x)
    }
    &&& if top {
        sum(center.y, height, corner.y)
    } else {
        difference(center.y, height, corner.y)
    }
    &&& corner.z == center.z
}

/// `corners` may be the viewport of an eye at `position`, at `distance` from
/// it: the corners about the center at the offsets 20 in width and 20 in
/// height, in the order top left, top right, bottom left, bottom right.
pub open spec fn viewport<S: Scalar>(
    position: Vector3<S>,
    distance: S,
    corners: [Vector3<S>; 4],
) -> bool {
    exists|center: Vector3<S>, width: S, height: S|
        {
            &&& #[trigger] viewport_center(position, distance, center)
            &&& #[trigger] whole(20, height)
            &&& #[trigger] whole(20, width)
            &&& viewport_corner(center, width, height, true, true, corners[0])
            &&& viewport_corner(center, width, height, false, true, corners[1])
            &&& viewport_corner(center, width, height, true, false, corners[2])
            &&& viewport_corner(center, width, height, false, false, corners[3])
        }
}

/// The four corners of the viewport of an eye at `position`, at `distance`
/// from it: top left, top right, bottom left, bottom right.
pub fn initialize_camera_corners<S: Scalar>(position: Vector3<S>, distance: S) -> (corners: [Vector3<
    S,
>; 4])
    ensures
        viewport(position, distance, corners),
{
    let orientation: Vector3<S> = vector_of(0, 0, 1);
    let vec = orientation * distance;
    let center = position + vec;
    assert(whole_vector(0, 0, 1, orientation) && scaled(orientation, distance, vec) && added(
        position,
        vec,
        center,
    ));

    let offset_height = S::from_int(20);
    let offset_width = S::from_int(20);

    let top_left = Vector3 {
        x: center.x.plus(offset_width),
        y: center.y.plus(offset_height),
        z: center.z,
    };
    let top_right = Vector3 {
        x: center.x.minus(offset_width),
        y: center.y.plus(offset_height),
        z: center.z,
    };
    let bottom_left = Vector3 {
        x: center.x.plus(offset_width),
        y: center.y.minus(offset_height),
        z: center.z,
    };
    let bottom_right = Vector3 {
        x: center.x.minus(offset_width),
        y: center.y.minus(offset_height),
        z: center.z,
    };
    let corners = [top_left, top_right, bottom_left, bottom_right];
    assert(viewport_center(position, distance, center) && whole(20, offset_height) && whole(
        20,
        offset_width,
    ) && viewport_corner(center, offset_width, offset_height, true, true, corners[0])
        && viewport_corner(center, offset_width, offset_height, false, true, corners[1])
        && viewport_corner(center, offset_width, offset_height, true, false, corners[2])
        && viewport_corner(center, offset_width, offset_height, false, false, corners[3]));
    corners
}

/// `camera` may be the main camera: the eye at `(0, 0, -50)`, looking at
/// `(0, 0, 0)`, with its viewport at the distance 30.
pub open spec fn is_main_camera<S: Scalar>(camera: Camera<S>) -> bool {
    &&& whole_vector(0, 0, -50, camera.position)
    &&& whole_vector(0, 0, 0, camera.origin)
    &&& exists|distance: S, corners: [Vector3<S>; 4]|
        {
            &&& #[trigger] whole(30, distance)
            &&& #[trigger] viewport(camera.position, distance, corners)
            &&& camera.corners.top_left == corners[0]
            &&& camera.corners.top_right == corners[1]
            &&& camera.corners.bottom_left == corners[2]
            &&& camera.corners.bottom_right == corners[3]
        }
}

/// Makes the main camera.
pub fn new_camera<S: Scalar>() -> (camera: Camera<S>)
    ensures
        is_main_camera(camera),
{
    let position: Vector3<S> = vector_of(0, 0, -50);
    let distance = S::from_int(30);
    let corners = initialize_camera_corners(position, distance);
    let main_camera = Camera {
        corners: CameraCorners {
            top_left: corners[0],
            top_right: corners[1],
            bottom_left: corners[2],
            bottom_right: corners[3],
        },
        position,
        origin: vector_of(0, 0, 0),
    };
    assert(whole(30, distance) && viewport(main_camera.position, distance, corners));
    main_camera
}

/// `m` may stand for the quarter turn about the second axis, whose rows are
/// `(0, 0, 1)`, `(0, 1, 0)` and `(-1, 0, 0)`.
pub open spec fn is_quarter_turn<S: Scalar>(m: TransformMatrix<S>) -> bool {
    &&& whole_vector(0, 0, 1, m.row_1)
    &&& whole_vector(0, 1, 0, m.row_2)
    &&& whole_vector(-1, 0, 0, m.row_3)
}

/// `r` may be `vec` after a quarter turn about the second axis.
pub open spec fn quarter_turned<S: Scalar>(vec: Vector3<S>, r: Vector3<S>) -> bool {
    exists|m: TransformMatrix<S>| #[trigger] is_quarter_turn(m) && transformed(m, vec, r)
}

/// Turns `vec` by a quarter about the second axis.
pub fn turn_90_degrees<S: Scalar>(vec: Vector3<S>) -> (r: Vector3<S>)
    ensures
        quarter_turned(vec, r),
{
    let transform_matrix = TransformMatrix {
        row_1: vector_of(0, 0, 1),
        row_2: vector_of(0, 1, 0),
        row_3: vector_of(-1, 0, 0),
    };
    let r = transform_matrix * vec;
    assert(is_quarter_turn(transform_matrix) && transformed(transform_matrix, vec, r));
    r
}

/// `after` may be `before` after a quarter turn: the eye and the four
/// corners are turned alike, and the point looked at stays.
pub open spec fn camera_turned<S: Scalar>(before: Camera<S>, after: Camera<S>) -> bool {
    &&& after.origin == before.origin
    &&& quarter_turned(before.position, after.position)
    &&& quarter_turned(before.corners.top_left, after.corners.top_left)
    &&& quarter_turned(before.corners.top_right, after.corners.top_right)
    &&& quarter_turned(before.corners.bottom_left, after.corners.bottom_left)
    &&& quarter_turned(before.corners.bottom_right, after.corners.bottom_right)
}

/// Moves the camera by a quarter turn to another fixed viewpoint.
pub fn transform_camera<S: Scalar>(camera: &Camera<S>) -> (res: Camera<S>)
    ensures
        camera_turned(*camera, res),
{
    let origin = camera.origin;
    let position = turn_90_degrees(camera.position);
    let corners = CameraCorners {
        top_left: turn_90_degrees(camera.corners.top_left),
        top_right: turn_90_degrees(camera.corners.top_right),
        bottom_left: turn_90_degrees(camera.corners.bottom_left),
        bottom_right: turn_90_degrees(camera.corners.bottom_right),
    };
    Camera { corners, position, origin }
}

} // verus!

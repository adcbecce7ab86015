//! The canvas of a camera: a rectangle one unit in front of the eye, seen
//! under a given field of view and cut into square pixels.
//!
//! The tangent of half the field of view and the numbers of pixels come in as
//! scalars; where the camera stands in the world is not a matter of this
//! module.

use crate::scalar::{lawful, runs, Scalar};
use crate::vector::Vec3;
use std::ops::Neg;
use vstd::prelude::*;
use vstd::std_specs::cmp::PartialOrdIs;
use vstd::std_specs::ops::{AddSpec, DivSpec, MulSpec, NegSpec, SubSpec};

verus! {

/// Half the width of the canvas: all of `half_view` on a canvas at least as
/// wide as high, else `half_view` times the aspect ratio.
pub open spec fn spec_half_width<T: Scalar>(half_view: T, aspect_ratio: T, one: T) -> T {
    if aspect_ratio.is_ge(&one) {
        half_view
    } else {
        half_view.mul_spec(aspect_ratio)
    }
}

/// Half the height of the canvas: all of `half_view` on a canvas higher than
/// wide, else `half_view` divided by the aspect ratio.
pub open spec fn spec_half_height<T: Scalar>(half_view: T, aspect_ratio: T, one: T) -> T {
    if aspect_ratio.is_ge(&one) {
        half_view.div_spec(aspect_ratio)
    } else {
        half_view
    }
}

/// The scalar type accepts every operation of [`compute_pixel_size`].
pub open spec fn compute_pixel_size_defined<T: Scalar>(
    half_view: T,
    canvas_width: T,
    canvas_height: T,
    one: T,
) -> bool {
    let aspect_ratio = canvas_width.div_spec(canvas_height);
    let half_width = spec_half_width(half_view, aspect_ratio, one);
    &&& canvas_width.div_req(canvas_height)
    &&& if aspect_ratio.is_ge(&one) {
        half_view.div_req(aspect_ratio)
    } else {
        half_view.mul_req(aspect_ratio)
    }
    &&& half_width.add_req(half_width)
    &&& half_width.add_spec(half_width).div_req(canvas_width)
}

/// Half the width, half the height and the pixel size `2 half_width /
/// canvas_width` of a canvas with aspect ratio `canvas_width / canvas_height`.
pub open spec fn spec_compute_pixel_size<T: Scalar>(
    half_view: T,
    canvas_width: T,
    canvas_height: T,
    one: T,
) -> (T, T, T) {
    let aspect_ratio = canvas_width.div_spec(canvas_height);
    let half_width = spec_half_width(half_view, aspect_ratio, one);
    (
        half_width,
        spec_half_height(half_view, aspect_ratio, one),
        half_width.add_spec(half_width).div_spec(canvas_width),
    )
}

/// The half extents of the canvas and the size of a pixel, in world units.
/// `half_view` is the tangent of half the field of view; it spans the longer
/// side of the canvas.
pub fn compute_pixel_size<T: Scalar>(half_view: T, canvas_width: T, canvas_height: T, one: T) -> (r:
    (T, T, T))
    requires
        runs::<T>(compute_pixel_size_defined(half_view, canvas_width, canvas_height, one)),
    ensures
        lawful::<T>() ==> r == spec_compute_pixel_size(
            half_view,
            canvas_width,
            canvas_height,
            one,
        ),
{
    let aspect_ratio = canvas_width / canvas_height;
    let (half_width, half_height) = if aspect_ratio >= one {
        (half_view, half_view / aspect_ratio)
    } else {
        (half_view * aspect_ratio, half_view)
    };
    (half_width, half_height, (half_width + half_width) / canvas_width)
}

/// `half_extent - (pixel + half) * pixel_size`.
pub open spec fn spec_canvas_coordinate<T: Scalar>(
    half_extent: T,
    pixel: T,
    half: T,
    pixel_size: T,
) -> T {
    half_extent.sub_spec(pixel.add_spec(half).mul_spec(pixel_size))
}

/// The scalar type accepts every operation of [`spec_canvas_coordinate`].
pub open spec fn canvas_coordinate_defined<T: Scalar>(
    half_extent: T,
    pixel: T,
    half: T,
    pixel_size: T,
) -> bool {
    &&& pixel.add_req(half)
    &&& pixel.add_spec(half).mul_req(pixel_size)
    &&& half_extent.sub_req(pixel.add_spec(half).mul_spec(pixel_size))
}

/// The scalar type accepts every operation of [`pixel_on_canvas`].
pub open spec fn pixel_on_canvas_defined<T: Scalar>(
    pixel_x: T,
    pixel_y: T,
    half: T,
    canvas: (T, T, T),
    one: T,
) -> bool {
    &&& canvas_coordinate_defined(canvas.0, pixel_x, half, canvas.2)
    &&& canvas_coordinate_defined(canvas.1, pixel_y, half, canvas.2)
    &&& one.neg_req()
}

/// The middle of a pixel on the canvas, which stands at `z = -1`.
pub open spec fn spec_pixel_on_canvas<T: Scalar>(
    pixel_x: T,
    pixel_y: T,
    half: T,
    canvas: (T, T, T),
    one: T,
) -> Vec3<T> {
    Vec3 {
        x: spec_canvas_coordinate(canvas.0, pixel_x, half, canvas.2),
        y: spec_canvas_coordinate(canvas.1, pixel_y, half, canvas.2),
        z: one.neg_spec(),
    }
}

/// The point of the canvas that a primary ray goes through, in the camera's
/// own space: the middle of pixel `(pixel_x, pixel_y)`, half a pixel into it
/// from its corner. `canvas` is what [`compute_pixel_size`] returned. The eye
/// is at the origin and looks along `-z`; pixel `(0, 0)` is the canvas's
/// corner at the largest `x` and `y`.
pub fn pixel_on_canvas<T: Scalar>(pixel_x: T, pixel_y: T, half: T, canvas: (T, T, T), one: T) -> (p:
    Vec3<T>)
    requires
        runs::<T>(pixel_on_canvas_defined(pixel_x, pixel_y, half, canvas, one)),
    ensures
        lawful::<T>() ==> p == spec_pixel_on_canvas(pixel_x, pixel_y, half, canvas, one),
{
    let (half_width, half_height, pixel_size) = canvas;
    let x_offset = (pixel_x + half) * pixel_size;
    let y_offset = (pixel_y + half) * pixel_size;
    Vec3 { x: half_width - x_offset, y: half_height - y_offset, z: one.neg() }
}

} // verus!

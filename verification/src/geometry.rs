//! Expanding an axis-aligned rectangle into the two triangles that the
//! draw call consumes: six 2D points, twelve scalars, in a fixed order.

use vstd::prelude::*;

use crate::fixed::Fixed;

verus! {

/// The twelve scalars (six x/y pairs) of the two triangles covering the
/// rectangle with corner `(x, y)` and extent `(width, height)`: the
/// triangle `(x1,y1) (x2,y1) (x1,y2)` followed by `(x1,y2) (x2,y1)
/// (x2,y2)`, where `x2 = x + width` and `y2 = y + height`.
pub open spec fn rectangle_points(x: u32, y: u32, width: u32, height: u32) -> Seq<Fixed> {
    let x1 = Fixed::spec_from_px(x as int);
    let x2 = Fixed::spec_from_px(x as int + width as int);
    let y1 = Fixed::spec_from_px(y as int);
    let y2 = Fixed::spec_from_px(y as int + height as int);
    seq![x1, y1, x2, y1, x1, y2, x1, y2, x2, y1, x2, y2]
}

/// Builds the vertex data for a rectangle: exactly `rectangle_points`.
pub fn rectangle_vertices(x: u32, y: u32, width: u32, height: u32) -> (v: Vec<Fixed>)
    ensures
        v@ == rectangle_points(x, y, width, height),
{
    let x1 = Fixed::from_px(x);
    let x2 = Fixed::from_px_sum(x, width);
    let y1 = Fixed::from_px(y);
    let y2 = Fixed::from_px_sum(y, height);
    let mut v: Vec<Fixed> = Vec::new();
    v.push(x1);
    v.push(y1);
    v.push(x2);
    v.push(y1);
    v.push(x1);
    v.push(y2);
    v.push(x1);
    v.push(y2);
    v.push(x2);
    v.push(y1);
    v.push(x2);
    v.push(y2);
    proof {
        assert(v@ =~= rectangle_points(x, y, width, height));
    }
    v
}

} // verus!

//! The random-rectangle demo loop: each step overwrites the vertex
//! buffer with one uniformly random rectangle, sets a random color, and
//! draws its six vertices.
//!
//! The random source is the one outside call; everything after the
//! drawn numbers is verified for every value they may take.

use vstd::prelude::*;

use rand::Rng;

use crate::context::{DrawCall, GlContext};
use crate::fixed::{Color, Fixed};
use crate::geometry::rectangle_points;

verus! {

/// The exclusive bound on a random rectangle's corner coordinates and
/// extents, in pixels.
pub const RECT_BOUND: u32 = 300;

/// The number of thousandth steps in the unit interval: the exclusive
/// bound on a random color component.
pub const COLOR_STEPS: u32 = 1000;

/// Relies on rand 0.8's `Rng::gen_range` over `0..bound` on the
/// thread-local generator: returns a uniform value of the half-open
/// range, and panics only on an empty one, which `bound >= 1` rules
/// out. Nothing relates two calls: each may return any value below the
/// bound.
#[verifier::external_body]
fn random_below(bound: u32) -> (r: u32)
    requires
        bound >= 1,
    ensures
        r < bound,
{
    rand::thread_rng().gen_range(0..bound)
}

/// One iteration of the demo loop: a rectangle with corner and extent
/// each drawn below `RECT_BOUND` overwrites the vertex buffer, the
/// color uniform gets three components below one with alpha exactly
/// one, and one draw call covers the rectangle's six vertices.
pub fn draw_random_rectangle(context: &mut GlContext)
    requires
        old(context).wf(),
        old(context).current_program matches Some(p) && old(context).programs@[p as int].live,
    ensures
        final(context).wf(),
        final(context).draws@ == old(context).draws@.push(DrawCall { first: 0, count: 6 }),
        exists|x: u32, y: u32, width: u32, height: u32|
            {
                &&& x < RECT_BOUND
                &&& y < RECT_BOUND
                &&& width < RECT_BOUND
                &&& height < RECT_BOUND
                &&& final(context).buffer@ == #[trigger] rectangle_points(x, y, width, height)
            },
        final(context).color_uniform matches Some(color) && {
            &&& 0 <= color.red.milli < 1000
            &&& 0 <= color.green.milli < 1000
            &&& 0 <= color.blue.milli < 1000
            &&& color.alpha.milli == 1000
        },
        final(context).shaders@ == old(context).shaders@,
        final(context).programs@ == old(context).programs@,
        final(context).canvas_width == old(context).canvas_width,
        final(context).canvas_height == old(context).canvas_height,
        final(context).current_program == old(context).current_program,
        final(context).resolution_uniform == old(context).resolution_uniform,
        final(context).errors@ == old(context).errors@,
{
    let x = random_below(RECT_BOUND);
    let y = random_below(RECT_BOUND);
    let width = random_below(RECT_BOUND);
    let height = random_below(RECT_BOUND);
    context.set_rectangle(x, y, width, height);
    let color = Color {
        red: Fixed::from_milli(random_below(COLOR_STEPS) as i64),
        green: Fixed::from_milli(random_below(COLOR_STEPS) as i64),
        blue: Fixed::from_milli(random_below(COLOR_STEPS) as i64),
        alpha: Fixed::from_milli(1000),
    };
    context.set_color_uniform(color);
    context.draw_arrays(0, 6);
}

/// The demo's rendering phase: `n` random rectangles, each drawn with
/// six vertices. Exactly `n` draw calls are appended, every one of six
/// vertices, and the earlier draw history is untouched.
pub fn draw_random_rectangles(context: &mut GlContext, n: u32)
    requires
        old(context).wf(),
        old(context).current_program matches Some(p) && old(context).programs@[p as int].live,
    ensures
        final(context).wf(),
        final(context).draws@.len() == old(context).draws@.len() + n,
        forall|j: int|
            0 <= j < old(context).draws@.len()
                ==> final(context).draws@[j] == old(context).draws@[j],
        forall|j: int|
            old(context).draws@.len() <= j < final(context).draws@.len()
                ==> final(context).draws@[j] == (DrawCall { first: 0, count: 6 }),
        final(context).shaders@ == old(context).shaders@,
        final(context).programs@ == old(context).programs@,
        final(context).canvas_width == old(context).canvas_width,
        final(context).canvas_height == old(context).canvas_height,
        final(context).current_program == old(context).current_program,
        final(context).resolution_uniform == old(context).resolution_uniform,
        final(context).errors@ == old(context).errors@,
{
    let mut i: u32 = 0;
    while i < n
        invariant
            i <= n,
            context.wf(),
            context.current_program matches Some(p) && context.programs@[p as int].live,
            context.draws@.len() == old(context).draws@.len() + i,
            forall|j: int|
                0 <= j < old(context).draws@.len()
                    ==> context.draws@[j] == old(context).draws@[j],
            forall|j: int|
                old(context).draws@.len() <= j < context.draws@.len() ==> context.draws@[j] == (
                DrawCall { first: 0, count: 6 }),
            context.shaders@ == old(context).shaders@,
            context.programs@ == old(context).programs@,
            context.canvas_width == old(context).canvas_width,
            context.canvas_height == old(context).canvas_height,
            context.current_program == old(context).current_program,
            context.resolution_uniform == old(context).resolution_uniform,
            context.errors@ == old(context).errors@,
        decreases n - i,
    {
        draw_random_rectangle(context);
        i = i + 1;
    }
}

} // verus!

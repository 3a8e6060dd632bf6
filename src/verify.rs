use vstd::prelude::*;

use crate::color::{check_color, mismatch_message, Color};
use crate::error::TestError;
use crate::mapped::{MappedTexture, MappedView};

verus! {

/// The outcome of checking pixel `(x, y)` of `view` against `expected`, with
/// the texture carried on a mismatch.
pub open spec fn point_check<T>(
    view: MappedView,
    x: nat,
    y: nat,
    expected: Color,
    texture: T,
    r: Result<(), TestError<T>>,
) -> bool {
    let actual = view.pixel(x, y)->0;
    &&& actual == expected ==> r is Ok
    &&& actual != expected ==> (r matches Err(TestError::Texture(e)) && e.message@
        == mismatch_message(actual, expected) && e.texture == texture)
}

/// The pixel of `x`, `y` of the center of a `width` by `height` surface.
pub open spec fn center(width: nat, height: nat) -> (nat, nat) {
    (width / 2, height / 2)
}

/// Checks the pixel at `(x, y)` of a mapped copy of a surface against `color`.
/// On a mismatch the error carries `texture`, the texture that was mapped.
pub fn test_surface_at_point<T>(
    mapped: &MappedTexture,
    color: &Color,
    x: u32,
    y: u32,
    texture: T,
) -> (r: Result<(), TestError<T>>)
    requires
        mapped@.in_bounds(x as nat, y as nat),
    ensures
        point_check(mapped@, x as nat, y as nat, *color, texture, r),
{
    match mapped.read_pixel(x, y) {
        Some(actual) => check_color(actual, *color).ok(texture),
        None => {
            proof {
                assert(false);
            }
            Ok(())
        },
    }
}

/// Checks the pixel at the center of a mapped copy of a surface against `color`.
pub fn test_center_of_surface<T>(mapped: &MappedTexture, color: &Color, texture: T) -> (r: Result<
    (),
    TestError<T>,
>)
    requires
        mapped@.width > 0,
        mapped@.height > 0,
    ensures
        point_check(
            mapped@,
            center(mapped@.width, mapped@.height).0,
            center(mapped@.width, mapped@.height).1,
            *color,
            texture,
            r,
        ),
{
    let x = mapped.width() / 2;
    let y = mapped.height() / 2;
    test_surface_at_point(mapped, color, x, y, texture)
}

/// A capture painted entirely in one color reads back that exact color: on a
/// uniformly colored mapping, the check of any pixel inside it succeeds.
pub proof fn lemma_uniform_capture_passes<T>(
    view: MappedView,
    color: Color,
    x: nat,
    y: nat,
    texture: T,
    r: Result<(), TestError<T>>,
)
    requires
        view.is_uniform(color),
        view.in_bounds(x, y),
        point_check(view, x, y, color, texture, r),
    ensures
        view.pixel(x, y) == Some(color),
        r is Ok,
{
    assert(view.in_bounds(x, y));
}

} // verus!

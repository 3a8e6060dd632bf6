use vstd::prelude::*;

use crate::color::Color;

verus! {

pub fn transparent_black() -> (c: Color)
    ensures
        c == (Color { b: 0, g: 0, r: 0, a: 0 }),
{
    Color { b: 0, g: 0, r: 0, a: 0 }
}

pub fn red() -> (c: Color)
    ensures
        c == (Color { b: 0, g: 0, r: 255, a: 255 }),
{
    Color { b: 0, g: 0, r: 255, a: 255 }
}

pub fn green() -> (c: Color)
    ensures
        c == (Color { b: 0, g: 255, r: 0, a: 255 }),
{
    Color { b: 0, g: 255, r: 0, a: 255 }
}

pub fn blue() -> (c: Color)
    ensures
        c == (Color { b: 255, g: 0, r: 0, a: 255 }),
{
    Color { b: 255, g: 0, r: 0, a: 255 }
}

} // verus!

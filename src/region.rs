use vstd::prelude::*;

verus! {

/// A rectangle by corners, as window geometry reports it.
#[derive(Clone, Copy, Debug, PartialEq, Eq, Structural)]
pub struct Bounds {
    pub left: i32,
    pub top: i32,
    pub right: i32,
    pub bottom: i32,
}

/// A point in screen coordinates.
#[derive(Clone, Copy, Debug, PartialEq, Eq, Structural)]
pub struct Point {
    pub x: i32,
    pub y: i32,
}

/// A crop rectangle in the capture item's own coordinates: offset and extent.
#[derive(Clone, Copy, Debug, PartialEq, Eq, Structural)]
pub struct CropRect {
    pub x: i32,
    pub y: i32,
    pub width: i32,
    pub height: i32,
}

/// The source region of a sub-resource copy: one slice deep.
#[derive(Clone, Copy, Debug, PartialEq, Eq, Structural)]
pub struct CopyBox {
    pub left: u32,
    pub top: u32,
    pub front: u32,
    pub right: u32,
    pub bottom: u32,
    pub back: u32,
}

/// Why a crop rectangle cannot be copied out of a source.
#[derive(Clone, Copy, Debug, PartialEq, Eq, Structural)]
pub enum RegionError {
    /// The rectangle has no area.
    Empty,
    /// The rectangle reaches outside the source.
    OutOfBounds,
}

pub open spec fn fits_i32(v: int) -> bool {
    i32::MIN <= v <= i32::MAX
}

/// The rectangle has a positive width and height.
pub open spec fn has_area(rect: CropRect) -> bool {
    rect.width > 0 && rect.height > 0
}

/// The rectangle lies within a `width` by `height` source, edges included.
pub open spec fn within(rect: CropRect, width: nat, height: nat) -> bool {
    &&& rect.x >= 0
    &&& rect.y >= 0
    &&& rect.x + rect.width <= width
    &&& rect.y + rect.height <= height
}

/// The copy box that covers `rect`.
pub open spec fn box_of(rect: CropRect) -> CopyBox {
    CopyBox {
        left: rect.x as u32,
        top: rect.y as u32,
        front: 0,
        right: (rect.x + rect.width) as u32,
        bottom: (rect.y + rect.height) as u32,
        back: 1,
    }
}

/// The copy box for cropping `rect` out of a `source_width` by `source_height`
/// source. A rectangle without area, or one that leaves the source, is refused
/// rather than clamped.
pub fn crop_box(rect: CropRect, source_width: u32, source_height: u32) -> (r: Result<
    CopyBox,
    RegionError,
>)
    ensures
        !has_area(rect) ==> r == Err::<CopyBox, RegionError>(RegionError::Empty),
        has_area(rect) && !within(rect, source_width as nat, source_height as nat) ==> r == Err::<
            CopyBox,
            RegionError,
        >(RegionError::OutOfBounds),
        has_area(rect) && within(rect, source_width as nat, source_height as nat) ==> r == Ok::<
            CopyBox,
            RegionError,
        >(box_of(rect)),
{
    if rect.width <= 0 || rect.height <= 0 {
        return Err(RegionError::Empty);
    }
    if rect.x < 0 || rect.y < 0 {
        return Err(RegionError::OutOfBounds);
    }
    let right = rect.x as i64 + rect.width as i64;
    let bottom = rect.y as i64 + rect.height as i64;
    if right > source_width as i64 || bottom > source_height as i64 {
        return Err(RegionError::OutOfBounds);
    }
    Ok(
        CopyBox {
            left: rect.x as u32,
            top: rect.y as u32,
            front: 0,
            right: right as u32,
            bottom: bottom as u32,
            back: 1,
        },
    )
}

/// The client area of a window as a crop of its captured frame: the client
/// origin relative to the frame's top-left corner, and the client extent.
pub open spec fn client_area_spec(client: Bounds, client_origin: Point, frame: Bounds) -> CropRect {
    CropRect {
        x: (client_origin.x - frame.left) as i32,
        y: (client_origin.y - frame.top) as i32,
        width: (client.right - client.left) as i32,
        height: (client.bottom - client.top) as i32,
    }
}

pub open spec fn client_area_representable(client: Bounds, client_origin: Point, frame: Bounds) -> bool {
    &&& fits_i32(client_origin.x - frame.left)
    &&& fits_i32(client_origin.y - frame.top)
    &&& fits_i32(client.right - client.left)
    &&& fits_i32(client.bottom - client.top)
}

/// The crop rectangle that selects a window's client area out of a capture of
/// the whole window. `client` is the client rectangle in client coordinates,
/// `client_origin` its top-left corner on screen, `frame` the window's
/// extended frame bounds on screen. None when a coordinate leaves the `i32` range.
pub fn client_area_rect(client: Bounds, client_origin: Point, frame: Bounds) -> (r: Option<CropRect>)
    ensures
        r is Some <==> client_area_representable(client, client_origin, frame),
        r matches Some(c) ==> c == client_area_spec(client, client_origin, frame),
{
    let x = client_origin.x as i64 - frame.left as i64;
    let y = client_origin.y as i64 - frame.top as i64;
    let width = client.right as i64 - client.left as i64;
    let height = client.bottom as i64 - client.top as i64;
    if x < i32::MIN as i64 || x > i32::MAX as i64 || y < i32::MIN as i64 || y > i32::MAX as i64
        || width < i32::MIN as i64 || width > i32::MAX as i64 || height < i32::MIN as i64 || height
        > i32::MAX as i64 {
        return None;
    }
    Some(CropRect { x: x as i32, y: y as i32, width: width as i32, height: height as i32 })
}

} // verus!

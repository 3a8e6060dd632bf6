use vstd::prelude::*;

verus! {

/// The result code a driver gives when it does not support the device requested.
pub const UNSUPPORTED_CODE: i32 = -2005270524;

/// Which driver backs a rendering device.
#[derive(Clone, Copy, Debug, PartialEq, Eq, Structural)]
pub enum DriverKind {
    Hardware,
    /// The software rasteriser.
    Warp,
}

/// The driver tried first.
pub fn first_driver() -> (r: DriverKind)
    ensures
        r == DriverKind::Hardware,
{
    DriverKind::Hardware
}

/// After device creation with `tried` failed with `code`, the driver to try
/// next: the software rasteriser when hardware is unsupported, else none.
pub fn fallback_driver(tried: DriverKind, code: i32) -> (r: Option<DriverKind>)
    ensures
        r == (if tried == DriverKind::Hardware && code == UNSUPPORTED_CODE {
            Some(DriverKind::Warp)
        } else {
            None
        }),
{
    match tried {
        DriverKind::Hardware => if code == UNSUPPORTED_CODE {
            Some(DriverKind::Warp)
        } else {
            None
        },
        DriverKind::Warp => None,
    }
}

} // verus!

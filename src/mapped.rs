use vstd::prelude::*;

use crate::color::Color;

verus! {

/// Format code of the single supported pixel layout (32-bit B8G8R8A8, normalized).
pub const BGRA8_FORMAT: u32 = 87;

/// Why a mapped buffer cannot be read as a texture.
#[derive(Clone, Copy, Debug, PartialEq, Eq, Structural)]
pub enum MapError {
    /// The texture's pixel format is not the supported one.
    UnsupportedFormat(u32),
    /// The row pitch is shorter than one row of pixels.
    PitchTooSmall,
    /// The buffer holds fewer than `row_pitch * height` bytes.
    BufferTooSmall,
}

/// What a mapped texture is: its size in pixels, its stride, and its bytes.
pub struct MappedView {
    pub width: nat,
    pub height: nat,
    pub row_pitch: nat,
    pub data: Seq<u8>,
}

/// Byte offset of pixel `(x, y)` under the given row pitch.
pub open spec fn pixel_offset(row_pitch: nat, x: nat, y: nat) -> nat {
    row_pitch * y + 4 * x
}

/// The four bytes at `offset`, read in (B, G, R, A) order.
pub open spec fn color_at(data: Seq<u8>, offset: nat) -> Color {
    Color {
        b: data[offset as int],
        g: data[(offset + 1) as int],
        r: data[(offset + 2) as int],
        a: data[(offset + 3) as int],
    }
}

impl MappedView {
    /// The stride covers a row of pixels and the buffer covers every row.
    pub open spec fn wf(self) -> bool {
        &&& 4 * self.width <= self.row_pitch
        &&& self.row_pitch * self.height <= self.data.len()
    }

    pub open spec fn in_bounds(self, x: nat, y: nat) -> bool {
        x < self.width && y < self.height
    }

    /// The pixel at `(x, y)`, or none outside the texture.
    pub open spec fn pixel(self, x: nat, y: nat) -> Option<Color> {
        if self.in_bounds(x, y) {
            Some(color_at(self.data, pixel_offset(self.row_pitch, x, y)))
        } else {
            None
        }
    }

    /// Every pixel of the texture has color `c`.
    pub open spec fn is_uniform(self, c: Color) -> bool {
        forall|x: nat, y: nat| #[trigger] self.in_bounds(x, y) ==> self.pixel(x, y) == Some(c)
    }
}

/// The `4 * width` pixel bytes of row `y`, without the row's padding.
pub open spec fn row_bytes(v: MappedView, y: nat) -> Seq<u8> {
    v.data.subrange((v.row_pitch * y) as int, (v.row_pitch * y + 4 * v.width) as int)
}

/// The first `n` rows, tightly packed one after the other.
pub open spec fn packed_rows(v: MappedView, n: nat) -> Seq<u8>
    decreases n,
{
    if n == 0 {
        Seq::empty()
    } else {
        packed_rows(v, (n - 1) as nat) + row_bytes(v, (n - 1) as nat)
    }
}

/// Bytes of every row `y` of a texture lie within the buffer.
proof fn lemma_row_fits(v: MappedView, y: nat)
    requires
        v.wf(),
        y < v.height,
    ensures
        v.row_pitch * y + v.row_pitch <= v.data.len(),
{
    assert(v.row_pitch * y + v.row_pitch <= v.row_pitch * v.height) by (nonlinear_arith)
        requires
            y < v.height,
    ;
}

/// Read access to the bytes of a texture mapped into host memory.
pub struct MappedTexture {
    width: u32,
    height: u32,
    row_pitch: u32,
    data: Vec<u8>,
}

impl View for MappedTexture {
    type V = MappedView;

    closed spec fn view(&self) -> MappedView {
        MappedView {
            width: self.width as nat,
            height: self.height as nat,
            row_pitch: self.row_pitch as nat,
            data: self.data@,
        }
    }
}

impl MappedTexture {
    #[verifier::type_invariant]
    spec fn inv(self) -> bool {
        self@.wf()
    }

    /// Takes the bytes of a mapping: `row_pitch` bytes per row, `height` rows,
    /// in the supported pixel format.
    pub fn new(width: u32, height: u32, format: u32, row_pitch: u32, data: Vec<u8>) -> (r: Result<
        MappedTexture,
        MapError,
    >)
        ensures
            format != BGRA8_FORMAT ==> r == Err::<MappedTexture, MapError>(
                MapError::UnsupportedFormat(format),
            ),
            format == BGRA8_FORMAT && 4 * width > row_pitch ==> r == Err::<MappedTexture, MapError>(
                MapError::PitchTooSmall,
            ),
            format == BGRA8_FORMAT && 4 * width <= row_pitch && row_pitch * height > data@.len()
                ==> r == Err::<MappedTexture, MapError>(MapError::BufferTooSmall),
            r is Ok <==> (format == BGRA8_FORMAT && 4 * width <= row_pitch && row_pitch * height
                <= data@.len()),
            r matches Ok(m) ==> m@ == (MappedView {
                width: width as nat,
                height: height as nat,
                row_pitch: row_pitch as nat,
                data: data@,
            }),
    {
        if format != BGRA8_FORMAT {
            return Err(MapError::UnsupportedFormat(format));
        }
        proof {
            let (p, h) = (row_pitch as int, height as int);
            assert(p * h <= 0xffff_ffff * 0xffff_ffff) by (nonlinear_arith)
                requires
                    0 <= p <= 0xffff_ffff,
                    0 <= h <= 0xffff_ffff,
            ;
        }
        if (width as u64) * 4 > row_pitch as u64 {
            return Err(MapError::PitchTooSmall);
        }
        if (row_pitch as u64) * (height as u64) > data.len() as u64 {
            return Err(MapError::BufferTooSmall);
        }
        Ok(MappedTexture { width, height, row_pitch, data })
    }

    pub fn width(&self) -> (r: u32)
        ensures
            r == self@.width,
    {
        self.width
    }

    pub fn height(&self) -> (r: u32)
        ensures
            r == self@.height,
    {
        self.height
    }

    pub fn row_pitch(&self) -> (r: u32)
        ensures
            r == self@.row_pitch,
    {
        self.row_pitch
    }

    /// The pixel at `(x, y)`: the four bytes at `row_pitch * y + 4 * x` in
    /// (B, G, R, A) order, or none when `x >= width` or `y >= height`.
    pub fn read_pixel(&self, x: u32, y: u32) -> (r: Option<Color>)
        ensures
            r == self@.pixel(x as nat, y as nat),
    {
        proof {
            use_type_invariant(self);
        }
        if x < self.width && y < self.height {
            proof {
                lemma_row_fits(self@, y as nat);
                assert(self.row_pitch * y + 4 * x + 4 <= self.data@.len());
            }
            let len = self.data.len();
            let pitch = self.row_pitch as usize;
            let row = y as usize;
            let column = x as usize;
            assert(pitch * row == self.row_pitch * y);
            let offset = pitch * row + column * 4;
            assert(offset + 3 < len);
            Some(
                Color {
                    b: self.data[offset],
                    g: self.data[offset + 1],
                    r: self.data[offset + 2],
                    a: self.data[offset + 3],
                },
            )
        } else {
            None
        }
    }

    /// The pixel bytes of every row, without row padding: `4 * width * height`
    /// bytes in row order, as an image encoder takes them.
    pub fn packed_bytes(&self) -> (r: Vec<u8>)
        ensures
            r@ == packed_rows(self@, self@.height),
    {
        proof {
            use_type_invariant(self);
        }
        let row_len = (self.width as usize) * 4;
        let pitch = self.row_pitch as usize;
        let mut out: Vec<u8> = Vec::new();
        let mut y: u32 = 0;
        while y < self.height
            invariant
                self@.wf(),
                y <= self.height,
                row_len == 4 * self.width,
                pitch == self.row_pitch,
                out@ == packed_rows(self@, y as nat),
            decreases self.height - y,
        {
            proof {
                lemma_row_fits(self@, y as nat);
            }
            let len = self.data.len();
            let start = pitch * (y as usize);
            let mut i: usize = 0;
            while i < row_len
                invariant
                    self@.wf(),
                    y < self.height,
                    row_len == 4 * self.width,
                    start == self.row_pitch * y,
                    start + row_len <= len,
                    len == self.data@.len(),
                    i <= row_len,
                    out@ == packed_rows(self@, y as nat) + self.data@.subrange(
                        start as int,
                        (start + i) as int,
                    ),
                decreases row_len - i,
            {
                out.push(self.data[start + i]);
                i = i + 1;
                assert(out@ =~= packed_rows(self@, y as nat) + self.data@.subrange(
                    start as int,
                    (start + i) as int,
                ));
            }
            y = y + 1;
            assert(out@ =~= packed_rows(self@, y as nat));
        }
        out
    }
}

} // verus!

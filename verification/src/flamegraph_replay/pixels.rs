//! Pixels of a replayed draw call: the placeholder image, and the unpacking
//! of rows that were read back with padding.

use vstd::prelude::*;

verus! {

/// The rendered contents of an offscreen target, as tightly packed 8-bit
/// RGBA.
#[derive(Debug, Clone)]
pub struct ReplayRenderOutput {
    /// Rendered target width, in pixels.
    pub width: u32,
    /// Rendered target height, in pixels.
    pub height: u32,
    /// Pixel data, row-major from the top-left.
    pub rgba8: Vec<u8>,
    /// Whether this is a generated placeholder, because the draw call's
    /// texture content is unavailable.
    pub texture_unavailable: bool,
}

/// Where the pixel `(x, y)` begins in tightly packed RGBA rows of `width`
/// pixels.
pub open spec fn pixel_offset(width: int, x: int, y: int) -> int {
    (y * width + x) * 4
}

/// The four bytes of the pixel `(x, y)` in tightly packed RGBA rows of `width`
/// pixels.
pub open spec fn pixel_bytes(rgba8: Seq<u8>, width: int, x: int, y: int) -> Seq<u8> {
    rgba8.subrange(pixel_offset(width, x, y), pixel_offset(width, x, y) + 4)
}

impl ReplayRenderOutput {
    /// The RGBA8 pixel at `(x, y)`, if in bounds and present in the data.
    pub fn pixel(&self, x: u32, y: u32) -> (pixel: Option<[u8; 4]>)
        ensures
            ({
                let offset = pixel_offset(self.width as int, x as int, y as int);
                match pixel {
                    Some(rgba) => {
                        &&& x < self.width
                        &&& y < self.height
                        &&& offset + 4 <= self.rgba8@.len()
                        &&& rgba@ == pixel_bytes(
                            self.rgba8@,
                            self.width as int,
                            x as int,
                            y as int,
                        )
                    },
                    None => x >= self.width || y >= self.height || offset + 4
                        > self.rgba8@.len(),
                }
            }),
    {
        if x >= self.width || y >= self.height {
            return None;
        }
        assert(y * self.width <= u32::MAX * u32::MAX) by (nonlinear_arith)
            requires
                0 <= y <= u32::MAX,
                0 <= self.width <= u32::MAX,
        ;
        let position: u128 = (y as u128 * self.width as u128 + x as u128) * 4;
        assert(position == pixel_offset(self.width as int, x as int, y as int));
        let length: usize = self.rgba8.len();
        if position + 4 > length as u128 {
            return None;
        }
        let offset: usize = position as usize;
        let rgba: [u8; 4] = [
            self.rgba8[offset],
            self.rgba8[offset + 1],
            self.rgba8[offset + 2],
            self.rgba8[offset + 3],
        ];
        assert(rgba@ == self.rgba8@.subrange(offset as int, offset + 4));
        Some(rgba)
    }
}

/// The lighter checkerboard color.
pub open spec fn light() -> Seq<u8> {
    seq![200u8, 200, 200, 255]
}

/// The darker checkerboard color.
pub open spec fn dark() -> Seq<u8> {
    seq![120u8, 120, 120, 255]
}

/// The side of a checkerboard square: at least one pixel.
pub open spec fn square_side(cell: int) -> int {
    if cell < 1 {
        1
    } else {
        cell
    }
}

/// The checkerboard's color at `(x, y)`.
pub open spec fn checker_color(x: int, y: int, cell: int) -> Seq<u8> {
    if (x / square_side(cell) + y / square_side(cell)) % 2 == 0 {
        light()
    } else {
        dark()
    }
}

/// The first `count` pixels of a checkerboard with rows of `width` pixels.
spec fn checkerboard_bytes(width: int, cell: int, count: int) -> Seq<u8>
    decreases count,
{
    if count <= 0 {
        Seq::empty()
    } else {
        checkerboard_bytes(width, cell, count - 1) + checker_color(
            (count - 1) % width,
            (count - 1) / width,
            cell,
        )
    }
}

/// Whether `pixels` is a `width` by `height` checkerboard.
pub open spec fn is_checkerboard(pixels: Seq<u8>, width: int, height: int, cell: int) -> bool {
    &&& pixels.len() == width * height * 4
    &&& forall|x: int, y: int|
        0 <= x < width && 0 <= y < height ==> #[trigger] pixel_bytes(pixels, width, x, y)
            == checker_color(x, y, cell)
}

/// Generate a placeholder checkerboard image. `cell` is the side of a square
/// in pixels; zero counts as one.
pub fn placeholder_checkerboard_rgba(width: u32, height: u32, cell: u32) -> (pixels: Vec<u8>)
    requires
        width * height * 4 <= u32::MAX,
    ensures
        is_checkerboard(pixels@, width as int, height as int, cell as int),
{
    let side: u32 = if cell < 1 {
        1
    } else {
        cell
    };
    let mut pixels: Vec<u8> = Vec::new();
    let mut y: u32 = 0;
    while y < height
        invariant
            y <= height,
            side == square_side(cell as int),
            width * height * 4 <= u32::MAX,
            pixels@ == checkerboard_bytes(width as int, cell as int, y * width),
        decreases height - y,
    {
        let mut x: u32 = 0;
        while x < width
            invariant
                x <= width,
                y < height,
                side == square_side(cell as int),
                width * height * 4 <= u32::MAX,
                pixels@ == checkerboard_bytes(width as int, cell as int, y * width + x),
            decreases width - x,
        {
            proof {
                lemma_pixel_number(width as int, x as int, y as int);
                lemma_squares_fit(width as int, height as int, x as int, y as int, side as int);
            }
            let checker = (x / side + y / side) % 2 == 0;
            let light_rgba: [u8; 4] = [200, 200, 200, 255];
            let dark_rgba: [u8; 4] = [120, 120, 120, 255];
            if checker {
                pixels.extend_from_slice(light_rgba.as_slice());
                assert(light_rgba@ == light());
            } else {
                pixels.extend_from_slice(dark_rgba.as_slice());
                assert(dark_rgba@ == dark());
            }
            x = x + 1;
        }
        assert(y * width + width == (y + 1) * width) by (nonlinear_arith);
        y = y + 1;
    }
    assert(height * width == width * height) by (nonlinear_arith);
    proof {
        lemma_checkerboard(width as int, height as int, cell as int);
    }
    pixels
}

/// Pixel after pixel, the bytes are a checkerboard.
proof fn lemma_checkerboard(width: int, height: int, cell: int)
    requires
        0 <= width,
        0 <= height,
    ensures
        is_checkerboard(checkerboard_bytes(width, cell, width * height), width, height, cell),
{
    let count = width * height;
    let pixels = checkerboard_bytes(width, cell, count);
    assert(count >= 0) by (nonlinear_arith)
        requires
            0 <= width,
            0 <= height,
            count == width * height,
    ;
    lemma_checkerboard_len(width, cell, count);
    assert forall|x: int, y: int| 0 <= x < width && 0 <= y < height implies #[trigger] pixel_bytes(
        pixels,
        width,
        x,
        y,
    ) == checker_color(x, y, cell) by {
        lemma_pixel_number(width, x, y);
        assert(y * width + x < count) by (nonlinear_arith)
            requires
                0 <= x < width,
                0 <= y < height,
                count == width * height,
        ;
        lemma_checkerboard_pixel(width, cell, count, y * width + x);
    }
}

proof fn lemma_checkerboard_len(width: int, cell: int, count: int)
    requires
        0 <= count,
    ensures
        checkerboard_bytes(width, cell, count).len() == count * 4,
    decreases count,
{
    if count > 0 {
        lemma_checkerboard_len(width, cell, count - 1);
    }
}

proof fn lemma_checkerboard_pixel(width: int, cell: int, count: int, number: int)
    requires
        0 <= number < count,
    ensures
        checkerboard_bytes(width, cell, count).subrange(number * 4, number * 4 + 4)
            == checker_color(number % width, number / width, cell),
    decreases count,
{
    lemma_checkerboard_len(width, cell, count);
    lemma_checkerboard_len(width, cell, count - 1);
    let shorter = checkerboard_bytes(width, cell, count - 1);
    let longer = checkerboard_bytes(width, cell, count);
    if number < count - 1 {
        lemma_checkerboard_pixel(width, cell, count - 1, number);
        assert(longer.subrange(number * 4, number * 4 + 4) == shorter.subrange(
            number * 4,
            number * 4 + 4,
        ));
    } else {
        assert(longer.subrange(number * 4, number * 4 + 4) == checker_color(
            number % width,
            number / width,
            cell,
        ));
    }
}

proof fn lemma_pixel_number(width: int, x: int, y: int)
    requires
        0 <= x < width,
        0 <= y,
    ensures
        (y * width + x) % width == x,
        (y * width + x) / width == y,
        y * width + x >= 0,
{
    vstd::arithmetic::div_mod::lemma_fundamental_div_mod_converse(y * width + x, width, y, x);
    assert(y * width >= 0) by (nonlinear_arith)
        requires
            0 <= y,
            0 < width,
    ;
}

proof fn lemma_squares_fit(width: int, height: int, x: int, y: int, side: int)
    requires
        0 <= x < width,
        0 <= y < height,
        1 <= side,
        width * height * 4 <= u32::MAX,
    ensures
        x / side + y / side <= u32::MAX,
{
    assert(width <= width * height) by (nonlinear_arith)
        requires
            1 <= height,
            0 <= width,
    ;
    assert(height <= width * height) by (nonlinear_arith)
        requires
            1 <= width,
            0 <= height,
    ;
    vstd::arithmetic::div_mod::lemma_div_is_ordered_by_denominator(x, 1, side);
    vstd::arithmetic::div_mod::lemma_div_is_ordered_by_denominator(y, 1, side);
}

/// Squares of the checkerboard alternate: moving one square right or down
/// changes the color, and within a square the color stays.
pub proof fn law_checkerboard_alternates(x: int, y: int, cell: int)
    requires
        0 <= x,
        0 <= y,
    ensures
        checker_color(x + square_side(cell), y, cell) != checker_color(x, y, cell),
        checker_color(x, y + square_side(cell), cell) != checker_color(x, y, cell),
        forall|u: int, v: int|
            u / square_side(cell) == x / square_side(cell) && v / square_side(cell) == y
                / square_side(cell) ==> #[trigger] checker_color(u, v, cell) == checker_color(
                x,
                y,
                cell,
            ),
{
    let side = square_side(cell);
    vstd::arithmetic::div_mod::lemma_div_plus_one(x, side);
    vstd::arithmetic::div_mod::lemma_div_plus_one(y, side);
    assert(light()[0] != dark()[0]);
}

/// How the rows of a rendered target lie in the buffer it is copied to.
#[derive(Debug, Clone, Copy)]
pub struct ReadbackLayout {
    /// Bytes of one row of pixels.
    pub unpadded_bytes_per_row: u32,
    /// Distance between the beginnings of two rows.
    pub padded_bytes_per_row: u32,
    /// Number of rows.
    pub rows: u32,
    /// Size of the buffer.
    pub staging_size: u64,
}

/// `length`, rounded up to a multiple of `align`.
pub open spec fn rounded_up(length: int, align: int) -> int {
    (length + align - 1) / align * align
}

impl ReadbackLayout {
    /// Rows are at least as far apart as they are long, and the buffer holds
    /// all of them.
    pub open spec fn wf(&self) -> bool {
        &&& self.unpadded_bytes_per_row <= self.padded_bytes_per_row
        &&& self.staging_size == self.padded_bytes_per_row * self.rows
    }

    /// Lay out a `width` by `height` RGBA target whose rows begin at
    /// multiples of `align` bytes.
    pub fn new(width: u32, height: u32, align: u32) -> (layout: Self)
        requires
            align > 0,
            width * 4 <= u32::MAX,
            rounded_up(width * 4, align as int) <= u32::MAX,
        ensures
            layout.wf(),
            layout.unpadded_bytes_per_row == width * 4,
            layout.padded_bytes_per_row == rounded_up(width * 4, align as int),
            layout.padded_bytes_per_row % align == 0,
            layout.padded_bytes_per_row < width * 4 + align,
            layout.rows == height,
    {
        let unpadded: u32 = width * 4;
        let groups: u64 = (unpadded as u64 + align as u64 - 1) / align as u64;
        proof {
            lemma_rounded_up(unpadded as int, align as int);
        }
        let padded: u32 = (groups * align as u64) as u32;
        assert(padded * height <= u64::MAX) by (nonlinear_arith)
            requires
                0 <= padded <= u32::MAX,
                0 <= height <= u32::MAX,
        ;
        ReadbackLayout {
            unpadded_bytes_per_row: unpadded,
            padded_bytes_per_row: padded,
            rows: height,
            staging_size: padded as u64 * height as u64,
        }
    }

    /// Copy the rows out of the mapped buffer `view`, leaving the padding
    /// behind.
    pub fn unpack(&self, view: &[u8]) -> (packed: Vec<u8>)
        requires
            self.wf(),
            view@.len() >= self.staging_size,
        ensures
            rows_unpacked(*self, view@, packed@),
    {
        let row_length: usize = self.unpadded_bytes_per_row as usize;
        let stride: usize = self.padded_bytes_per_row as usize;
        let available: usize = view.len();
        let mut packed: Vec<u8> = Vec::new();
        let mut row: u32 = 0;
        let mut start: usize = 0;
        while row < self.rows
            invariant
                self.wf(),
                available == view@.len(),
                available >= self.staging_size,
                row_length == self.unpadded_bytes_per_row,
                stride == self.padded_bytes_per_row,
                row <= self.rows,
                start == row * stride,
                packed@ == unpacked_rows(*self, view@, row as nat),
            decreases self.rows - row,
        {
            assert(row * stride + stride <= self.rows * stride) by (nonlinear_arith)
                requires
                    row < self.rows,
                    0 <= stride,
            ;
            assert(self.padded_bytes_per_row * self.rows == self.rows * stride) by (nonlinear_arith)
                requires
                    stride == self.padded_bytes_per_row,
            ;
            assert((row + 1) * stride == row * stride + stride) by (nonlinear_arith);
            let mut i: usize = 0;
            let ghost earlier = packed@;
            while i < row_length
                invariant
                    i <= row_length <= stride,
                    available == view@.len(),
                    start + stride <= available,
                    packed@ == earlier + view@.subrange(start as int, start + i),
                decreases row_length - i,
            {
                packed.push(view[start + i]);
                assert(view@.subrange(start as int, start + i + 1) == view@.subrange(
                    start as int,
                    start + i,
                ).push(view@[start + i]));
                i = i + 1;
            }
            row = row + 1;
            start = start + stride;
        }
        proof {
            lemma_unpacked_rows(*self, view@, self.rows as nat);
        }
        packed
    }
}

/// Whether `packed` holds the rows of `view` without the padding: byte `b` of
/// row `row` stands `row` row lengths in.
pub open spec fn rows_unpacked(layout: ReadbackLayout, view: Seq<u8>, packed: Seq<u8>) -> bool {
    &&& packed.len() == layout.unpadded_bytes_per_row * layout.rows
    &&& forall|row: int|
        0 <= row < layout.rows ==> #[trigger] packed.subrange(
            row * layout.unpadded_bytes_per_row,
            row * layout.unpadded_bytes_per_row + layout.unpadded_bytes_per_row,
        ) == row_in(layout, view, row)
}

/// Row `row` in the mapped buffer, without its padding.
pub open spec fn row_in(layout: ReadbackLayout, view: Seq<u8>, row: int) -> Seq<u8> {
    view.subrange(
        row * layout.padded_bytes_per_row,
        row * layout.padded_bytes_per_row + layout.unpadded_bytes_per_row,
    )
}

/// The first `count` rows, one after the other.
spec fn unpacked_rows(layout: ReadbackLayout, view: Seq<u8>, count: nat) -> Seq<u8>
    decreases count,
{
    if count == 0 {
        Seq::empty()
    } else {
        unpacked_rows(layout, view, (count - 1) as nat) + row_in(layout, view, count - 1)
    }
}

proof fn lemma_unpacked_rows(layout: ReadbackLayout, view: Seq<u8>, count: nat)
    requires
        layout.wf(),
        view.len() >= layout.staging_size,
        count <= layout.rows,
    ensures
        unpacked_rows(layout, view, count).len() == layout.unpadded_bytes_per_row * count,
        forall|row: int|
            0 <= row < count ==> #[trigger] unpacked_rows(layout, view, count).subrange(
                row * layout.unpadded_bytes_per_row,
                row * layout.unpadded_bytes_per_row + layout.unpadded_bytes_per_row,
            ) == row_in(layout, view, row),
    decreases count,
{
    let length = layout.unpadded_bytes_per_row as int;
    let stride = layout.padded_bytes_per_row as int;
    if count == 0 {
        assert(length * count == 0) by (nonlinear_arith)
            requires
                count == 0,
        ;
    } else {
        let last = count - 1;
        lemma_unpacked_rows(layout, view, last as nat);
        let shorter = unpacked_rows(layout, view, last as nat);
        let longer = unpacked_rows(layout, view, count);
        assert(last * stride + stride <= stride * layout.rows) by (nonlinear_arith)
            requires
                0 <= last < layout.rows,
                0 <= stride,
        ;
        assert(last * stride >= 0) by (nonlinear_arith)
            requires
                0 <= last,
                0 <= stride,
        ;
        assert(row_in(layout, view, last).len() == length);
        assert(length * last + length == length * count) by (nonlinear_arith)
            requires
                last == count - 1,
        ;
        assert(last * length == length * last) by (nonlinear_arith);
        assert forall|row: int| 0 <= row < count implies #[trigger] longer.subrange(
            row * length,
            row * length + length,
        ) == row_in(layout, view, row) by {
            assert(row * length >= 0) by (nonlinear_arith)
                requires
                    0 <= row,
                    0 <= length,
            ;
            if row < last {
                assert(row * length + length <= length * last) by (nonlinear_arith)
                    requires
                        0 <= row < last,
                        0 <= length,
                ;
                assert(longer.subrange(row * length, row * length + length) == shorter.subrange(
                    row * length,
                    row * length + length,
                ));
            } else {
                assert(longer.subrange(row * length, row * length + length) == row_in(
                    layout,
                    view,
                    last,
                ));
            }
        }
    }
}

proof fn lemma_rounded_up(length: int, align: int)
    requires
        0 <= length,
        0 < align,
    ensures
        length <= rounded_up(length, align) < length + align,
        rounded_up(length, align) % align == 0,
{
    let groups = (length + align - 1) / align;
    vstd::arithmetic::div_mod::lemma_fundamental_div_mod(length + align - 1, align);
    vstd::arithmetic::div_mod::lemma_mod_multiples_basic(groups, align);
    vstd::arithmetic::div_mod::lemma_mod_bound(length + align - 1, align);
    assert(align * groups == groups * align) by (nonlinear_arith);
}

} // verus!

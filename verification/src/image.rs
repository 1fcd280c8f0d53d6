//! Decoded pictures: rows packed into red, green and blue bytes, and the
//! picture as an array of height, width and channels.
use crate::error::{MediaError, ShapeFault};
use vstd::prelude::*;

verus! {

/// Bytes of a pixel: one each for red, green and blue.
pub const RGB_CHANNELS: usize = 3;

/// Where row `y` starts in a picture whose rows lie `stride` bytes apart.
pub open spec fn row_start(y: int, stride: int) -> int {
    y * stride
}

/// All rows of a picture lie inside `raw_len` bytes, and the packed picture
/// is no longer than a vector can be.
pub open spec fn spec_rows_fit(raw_len: int, stride: int, width: u32, height: u32) -> bool {
    &&& width * RGB_CHANNELS <= isize::MAX
    &&& height * (width * RGB_CHANNELS) <= isize::MAX
    &&& forall|y: int|
        0 <= y < height ==> #[trigger] row_start(y, stride) + width * RGB_CHANNELS <= raw_len
}

/// The pixels of a picture without what fills up its rows.
pub open spec fn packed_rows(raw: Seq<u8>, stride: int, width: u32, height: u32) -> Seq<u8> {
    let row = width * RGB_CHANNELS;
    Seq::new((height * row) as nat, |i: int| raw[row_start(i / row, stride) + i % row])
}

/// Whether all rows of a picture lie inside `raw_len` bytes, and the packed
/// picture is no longer than a vector can be.
pub fn rows_fit(raw_len: usize, stride: usize, width: u32, height: u32) -> (fit: bool)
    ensures
        fit == spec_rows_fit(raw_len as int, stride as int, width, height),
{
    assert(RGB_CHANNELS as u128 == 3);
    let row: u128 = width as u128 * RGB_CHANNELS as u128;
    let limit: u128 = isize::MAX as u128;
    proof {
        lemma_product_bound(height as int, row as int);
    }
    if row > limit || height as u128 * row > limit {
        return false;
    }
    if height == 0 {
        return true;
    }
    let last: u128 = height as u128 - 1;
    proof {
        lemma_product_bound(last as int, stride as int);
    }
    let fit = last * stride as u128 + row <= raw_len as u128;
    proof {
        assert(row_start(last as int, stride as int) == last * stride);
        assert forall|y: int| 0 <= y < height && fit implies #[trigger] row_start(
            y,
            stride as int,
        ) + width * RGB_CHANNELS <= raw_len by {
            vstd::arithmetic::mul::lemma_mul_inequality(y, last as int, stride as int);
        }
    }
    fit
}

proof fn lemma_product_bound(a: int, b: int)
    by (nonlinear_arith)
    requires
        0 <= a <= 0xffff_ffff,
        0 <= b <= 0xffff_ffff_ffff_ffff,
    ensures
        0 <= a * b <= 0xffff_ffff_0000_0000_0000_0000,
{
}

/// Copies the rows of a picture one behind the other and leaves out what lies
/// between them.
pub fn pack_rows(raw: &[u8], stride: usize, width: u32, height: u32) -> (data: Vec<u8>)
    requires
        spec_rows_fit(raw@.len() as int, stride as int, width, height),
    ensures
        data@ == packed_rows(raw@, stride as int, width, height),
{
    let row: usize = width as usize * RGB_CHANNELS;
    let rows: usize = height as usize;
    let raw_len: usize = raw.len();
    let mut data: Vec<u8> = Vec::with_capacity(rows * row);
    let mut y: usize = 0;
    while y < rows
        invariant
            rows == height,
            raw_len == raw@.len(),
            row == width * RGB_CHANNELS,
            y <= rows,
            spec_rows_fit(raw@.len() as int, stride as int, width, height),
            data@.len() == y * row,
            forall|i: int|
                0 <= i < y * row ==> #[trigger] data@[i] == raw@[row_start(
                    i / (row as int),
                    stride as int,
                ) + i % (row as int)],
        decreases rows - y,
    {
        assert(row_start(y as int, stride as int) + row <= raw_len);
        assert(0 <= y * stride) by (nonlinear_arith);
        let start: usize = y * stride;
        let ghost before = data@;
        data.extend_from_slice(&raw[start..start + row]);
        proof {
            assert((y + 1) * row == y * row + row) by (nonlinear_arith);
            assert forall|i: int| 0 <= i < (y + 1) * row implies #[trigger] data@[i]
                == raw@[row_start(i / (row as int), stride as int) + i % (row as int)] by {
                if i < y * row {
                    assert(data@[i] == before[i]);
                } else {
                    vstd::arithmetic::div_mod::lemma_fundamental_div_mod_converse(
                        i,
                        row as int,
                        y as int,
                        i - y * row,
                    );
                }
            }
        }
        y = y + 1;
    }
    assert(data@ =~= packed_rows(raw@, stride as int, width, height));
    data
}

/// A picture: an array of height, width and channels, held in the order of
/// its rows.
#[verifier::external_body]
pub struct RgbImage {
    array: numpy::ndarray::Array3<u8>,
}

/// The bytes of a picture, row after row, pixel after pixel.
pub uninterp spec fn image_pixels(image: RgbImage) -> Seq<u8>;

/// Height, width and channels of a picture.
pub uninterp spec fn image_shape(image: RgbImage) -> (usize, usize, usize);

/// The length of an axis, but one for an empty axis.
pub open spec fn nonempty_axis(len: int) -> int {
    if len == 0 {
        1
    } else {
        len
    }
}

/// Why `len` bytes are no array with these three axes, if they are none.
pub open spec fn array_fault(axes: (int, int, int), len: int) -> Option<ShapeFault> {
    if nonempty_axis(axes.0) * nonempty_axis(axes.1) * nonempty_axis(axes.2) > isize::MAX {
        Some(ShapeFault::Overflow)
    } else if axes.0 * axes.1 * axes.2 > len {
        Some(ShapeFault::OutOfBounds)
    } else if axes.0 * axes.1 * axes.2 != len {
        Some(ShapeFault::IncompatibleShape)
    } else {
        None
    }
}

/// Why `len` bytes are no picture of `height` times `width` pixels, if they
/// are none.
pub open spec fn shape_fault(height: int, width: int, len: int) -> Option<ShapeFault> {
    array_fault((height, width, RGB_CHANNELS as int), len)
}

/// `image` shows `pixels` in `height` rows of `width` pixels.
pub open spec fn shows(image: RgbImage, pixels: Seq<u8>, height: int, width: int) -> bool {
    &&& image_pixels(image) == pixels
    &&& image_shape(image).0 == height
    &&& image_shape(image).1 == width
    &&& image_shape(image).2 == RGB_CHANNELS
}

/// `ndarray::Array3::from_shape_vec` with a shape of three axes in row order:
/// it refuses a shape whose non-empty axes multiply to more than `isize::MAX`,
/// then one that needs more bytes than there are, then one that needs fewer;
/// otherwise the vector becomes the array's data as it is.
#[verifier::external_body]
fn array_from_shape_vec(axes: (usize, usize, usize), data: Vec<u8>) -> (r: Result<
    RgbImage,
    ShapeFault,
>)
    ensures
        match array_fault((axes.0 as int, axes.1 as int, axes.2 as int), data@.len() as int) {
            Some(fault) => r == Err::<RgbImage, ShapeFault>(fault),
            None => r matches Ok(image) && image_pixels(image) == data@ && image_shape(image)
                == axes,
        },
{
    match numpy::ndarray::Array3::from_shape_vec(axes, data) {
        Ok(array) => Ok(RgbImage { array }),
        Err(e) => match e.kind() {
            numpy::ndarray::ErrorKind::Overflow => Err(ShapeFault::Overflow),
            numpy::ndarray::ErrorKind::OutOfBounds => Err(ShapeFault::OutOfBounds),
            _ => Err(ShapeFault::IncompatibleShape),
        },
    }
}

/// `ndarray::ArrayBase::dim`: the lengths of the three axes.
#[verifier::external_body]
fn array_dim(image: &RgbImage) -> (shape: (usize, usize, usize))
    ensures
        shape == image_shape(*image),
{
    image.array.dim()
}

/// `ndarray::Array::into_raw_vec_and_offset`: the vector that holds the
/// elements, which for a picture in row order is the one it was made from.
#[verifier::external_body]
fn array_into_raw_vec(image: RgbImage) -> (data: Vec<u8>)
    ensures
        data@ == image_pixels(image),
{
    image.array.into_raw_vec_and_offset().0
}

impl RgbImage {
    /// The picture of `height` rows of `width` pixels with the bytes of `rgb`;
    /// refused if there are not exactly three bytes for each pixel.
    pub fn from_pixels(rgb: Vec<u8>, width: u32, height: u32) -> (r: Result<RgbImage, MediaError>)
        ensures
            match shape_fault(height as int, width as int, rgb@.len() as int) {
                Some(fault) => r == Err::<RgbImage, MediaError>(MediaError::Array(fault)),
                None => r matches Ok(image) && shows(image, rgb@, height as int, width as int),
            },
    {
        match array_from_shape_vec((height as usize, width as usize, RGB_CHANNELS), rgb) {
            Ok(image) => Ok(image),
            Err(fault) => Err(MediaError::Array(fault)),
        }
    }

    /// Height, width and channels.
    pub fn shape(&self) -> (shape: (usize, usize, usize))
        ensures
            shape == image_shape(*self),
    {
        array_dim(self)
    }

    /// The bytes, row after row.
    pub fn into_pixels(self) -> (pixels: Vec<u8>)
        ensures
            pixels@ == image_pixels(self),
    {
        array_into_raw_vec(self)
    }
}

/// The picture that lies in `raw` with rows `stride` bytes apart. It is
/// refused only where it has no columns and more rows than an array can have.
pub fn rgb_from_decoded(raw: &[u8], stride: usize, width: u32, height: u32) -> (r: Result<
    RgbImage,
    MediaError,
>)
    requires
        spec_rows_fit(raw@.len() as int, stride as int, width, height),
    ensures
        if width == 0 && height * RGB_CHANNELS > isize::MAX {
            r == Err::<RgbImage, MediaError>(MediaError::Array(ShapeFault::Overflow))
        } else {
            r matches Ok(image) && shows(
                image,
                packed_rows(raw@, stride as int, width, height),
                height as int,
                width as int,
            )
        },
{
    let data = pack_rows(raw, stride, width, height);
    proof {
        assert(height * (width * RGB_CHANNELS) == height * width * RGB_CHANNELS)
            by (nonlinear_arith);
    }
    RgbImage::from_pixels(data, width, height)
}

/// Packed bytes and picture agree: the bytes of the picture are the packed
/// rows, in the same order, and a picture whose rows can be packed has an array
/// too, but for one without columns that has more rows than an array can have.
pub proof fn law_packed_bytes_are_the_picture(
    raw: Seq<u8>,
    stride: int,
    width: u32,
    height: u32,
    image: RgbImage,
)
    requires
        spec_rows_fit(raw.len() as int, stride, width, height),
    ensures
        ({
            let data = packed_rows(raw, stride, width, height);
            &&& shape_fault(height as int, width as int, data.len() as int) == if width == 0
                && height * RGB_CHANNELS > isize::MAX {
                Some(ShapeFault::Overflow)
            } else {
                None
            }
            &&& shows(image, data, height as int, width as int) ==> image_pixels(image) == data
                && image_pixels(image).len() == height * width * RGB_CHANNELS
        }),
{
    assert(height * (width * RGB_CHANNELS) == height * width * RGB_CHANNELS) by (nonlinear_arith);
    assert(height * (width * RGB_CHANNELS) >= 0) by (nonlinear_arith)
        requires
            height >= 0,
            width >= 0,
    ;
}

/// Rows that lie directly behind each other are packed already: the picture
/// is the first bytes of what was decoded.
pub proof fn law_tight_rows_stay(raw: Seq<u8>, width: u32, height: u32)
    requires
        spec_rows_fit(raw.len() as int, width * RGB_CHANNELS, width, height),
    ensures
        packed_rows(raw, width * RGB_CHANNELS, width, height) == raw.take(
            height * (width * RGB_CHANNELS),
        ),
{
    let row = width * RGB_CHANNELS;
    assert forall|i: int| 0 <= i < height * row implies #[trigger] packed_rows(
        raw,
        row,
        width,
        height,
    )[i] == raw[i] by {
        assert(row != 0) by (nonlinear_arith)
            requires
                0 <= i < height * row,
        ;
        vstd::arithmetic::div_mod::lemma_fundamental_div_mod(i, row);
        assert(row_start(i / row, row) == row * (i / row)) by (nonlinear_arith);
    }
    if height > 0 {
        assert(row_start(height - 1, row) + row == height * row) by (nonlinear_arith);
    }
    assert(0 <= height * row && (height == 0 ==> height * row == 0)) by (nonlinear_arith)
        requires
            row >= 0,
            height >= 0,
    ;
    assert(height * row <= raw.len());
    assert(packed_rows(raw, row, width, height) =~= raw.take(height * row));
}

/// Every byte of a row keeps its place in that row.
pub proof fn law_pixels_keep_their_place(
    raw: Seq<u8>,
    stride: int,
    width: u32,
    height: u32,
    y: int,
    x: int,
)
    requires
        spec_rows_fit(raw.len() as int, stride, width, height),
        0 <= y < height,
        0 <= x < width * RGB_CHANNELS,
    ensures
        packed_rows(raw, stride, width, height).len() == height * (width * RGB_CHANNELS),
        packed_rows(raw, stride, width, height)[y * (width * RGB_CHANNELS) + x] == raw[y * stride
            + x],
{
    let row = width * RGB_CHANNELS;
    let i = y * row + x;
    assert(0 <= i < height * row) by (nonlinear_arith)
        requires
            0 <= y < height,
            0 <= x < row,
            i == y * row + x,
    ;
    vstd::arithmetic::div_mod::lemma_fundamental_div_mod_converse(i, row, y, x);
}

/// A picture can be packed exactly if its last row ends inside the bytes and a
/// vector can hold three bytes for each of its pixels.
pub proof fn law_picture_fits_if_its_last_row_does(
    raw_len: usize,
    stride: usize,
    width: u32,
    height: u32,
)
    ensures
        spec_rows_fit(raw_len as int, stride as int, width, height) <==> {
            &&& 3 * width <= isize::MAX
            &&& height * (3 * width) <= isize::MAX
            &&& height > 0 ==> (height - 1) * stride + 3 * width <= raw_len
        },
{
    assert(width * RGB_CHANNELS == 3 * width);
    if height > 0 {
        assert(row_start(height - 1, stride as int) == (height - 1) * stride);
        if (height - 1) * stride + 3 * width <= raw_len {
            assert forall|y: int| 0 <= y < height implies #[trigger] row_start(y, stride as int)
                + width * RGB_CHANNELS <= raw_len by {
                vstd::arithmetic::mul::lemma_mul_inequality(y, height - 1, stride as int);
            }
        }
    }
}

/// Every pixel keeps its place and its colours: the byte for colour `c` of the
/// pixel in row `y` and column `x` is the one that lies there in what was
/// decoded, and there are three for each pixel and no other.
pub proof fn law_every_pixel_keeps_its_colours(
    raw: Seq<u8>,
    stride: int,
    width: u32,
    height: u32,
    y: int,
    x: int,
    c: int,
)
    requires
        spec_rows_fit(raw.len() as int, stride, width, height),
        0 <= y < height,
        0 <= x < width,
        0 <= c < 3,
    ensures
        packed_rows(raw, stride, width, height).len() == 3 * (height * width),
        packed_rows(raw, stride, width, height)[3 * (y * width + x) + c] == raw[y * stride + 3 * x
            + c],
{
    law_pixels_keep_their_place(raw, stride, width, height, y, 3 * x + c);
    assert(y * (width * RGB_CHANNELS) == 3 * (y * width)) by (nonlinear_arith)
        requires
            RGB_CHANNELS == 3,
    ;
    assert(height * (width * RGB_CHANNELS) == 3 * (height * width)) by (nonlinear_arith)
        requires
            RGB_CHANNELS == 3,
    ;
}

/// Bytes make a picture exactly if there are three for each pixel, and the
/// axes that are not empty do not multiply to more than an array can have. Too
/// many for an array comes first, then too few bytes, then too many.
pub proof fn law_picture_needs_three_bytes_for_each_pixel(height: u32, width: u32, len: nat)
    ensures
        ({
            let rows = if height == 0 {
                1
            } else {
                height as int
            };
            let columns = if width == 0 {
                1
            } else {
                width as int
            };
            let fault = shape_fault(height as int, width as int, len as int);
            let wanted = 3 * (height * width);
            if 3 * (rows * columns) > isize::MAX {
                fault == Some(ShapeFault::Overflow)
            } else if len < wanted {
                fault == Some(ShapeFault::OutOfBounds)
            } else if len > wanted {
                fault == Some(ShapeFault::IncompatibleShape)
            } else {
                fault is None
            }
        }),
{
}

/// A picture that shows pixels has exactly those bytes, and its axes are its
/// rows, its columns and the three colours.
pub proof fn law_picture_shows_its_bytes(
    image: RgbImage,
    pixels: Seq<u8>,
    height: u32,
    width: u32,
)
    ensures
        shows(image, pixels, height as int, width as int) <==> {
            &&& image_pixels(image) == pixels
            &&& image_shape(image).0 == height
            &&& image_shape(image).1 == width
            &&& image_shape(image).2 == 3
        },
{
}

/// Packed bytes hold every pixel of the picture in its place, and so does the
/// array that is made of the same rows.
pub proof fn law_calls_keep_every_pixel(
    raw: &[u8],
    stride: usize,
    width: u32,
    height: u32,
    data: Vec<u8>,
    r: Result<RgbImage, MediaError>,
    y: int,
    x: int,
    c: int,
)
    requires
        call_ensures(pack_rows, (raw, stride, width, height), data),
        call_ensures(rgb_from_decoded, (raw, stride, width, height), r),
        spec_rows_fit(raw@.len() as int, stride as int, width, height),
        0 <= y < height,
        0 <= x < width,
        0 <= c < 3,
    ensures
        data@.len() == 3 * (height * width),
        data@[3 * (y * width + x) + c] == raw@[y * stride + 3 * x + c],
        r matches Ok(image) && image_pixels(image) == data@ && image_shape(image) == (
            height as usize,
            width as usize,
            3usize,
        ),
{
    law_every_pixel_keeps_its_colours(raw@, stride as int, width, height, y, x, c);
}

/// Whether the rows fit is told rightly, and a picture made of bytes has them
/// all, in the shape that was named.
pub proof fn law_calls_tell_what_fits(
    raw_len: usize,
    stride: usize,
    width: u32,
    height: u32,
    fit: bool,
    rgb: Vec<u8>,
    r: Result<RgbImage, MediaError>,
)
    requires
        call_ensures(rows_fit, (raw_len, stride, width, height), fit),
        call_ensures(RgbImage::from_pixels, (rgb, width, height), r),
    ensures
        fit <==> {
            &&& 3 * width <= isize::MAX
            &&& height * (3 * width) <= isize::MAX
            &&& height > 0 ==> (height - 1) * stride + 3 * width <= raw_len
        },
        r matches Ok(image) ==> image_pixels(image) == rgb@ && image_shape(image) == (
            height as usize,
            width as usize,
            3usize,
        ) && rgb@.len() == 3 * (height * width),
        r matches Err(error) ==> error is Array && (rgb@.len() != 3 * (height * width) || width == 0
            || height == 0 || rgb@.len() > isize::MAX),
{
    law_picture_fits_if_its_last_row_does(raw_len, stride, width, height);
    law_picture_needs_three_bytes_for_each_pixel(height, width, rgb@.len());
}

} // verus!

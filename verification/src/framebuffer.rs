//! The picture: a grid of 8-bit RGB pixels, and its bytes as a binary
//! portable pixmap.
use crate::vector::Vec3;
use vstd::prelude::*;

verus! {

/// A grid of pixels, `width` by `height`, stored row by row.
pub struct FrameBuffer {
    data: Vec<Vec3<u8>>,
    width: usize,
    height: usize,
}

/// What a picture is: its size, and its pixels row by row from the top
/// left.
pub struct Picture {
    pub width: nat,
    pub height: nat,
    pub pixels: Seq<Vec3<u8>>,
}

impl View for FrameBuffer {
    type V = Picture;

    closed spec fn view(&self) -> Picture {
        Picture { width: self.width as nat, height: self.height as nat, pixels: self.data@ }
    }
}

/// The black pixel.
pub open spec fn black() -> Vec3<u8> {
    Vec3 { x: 0u8, y: 0u8, z: 0u8 }
}

/// The digits of `n` in base ten, as ASCII, without leading zeros.
pub open spec fn decimal(n: nat) -> Seq<u8>
    decreases n,
{
    if n < 10 {
        seq![(48 + n) as u8]
    } else {
        decimal(n / 10).push((48 + n % 10) as u8)
    }
}

/// The header of a binary pixmap of depth 255: `P6`, a line feed, the
/// width, a space, the height, a line feed, `255`, a line feed.
pub open spec fn ppm_header(width: nat, height: nat) -> Seq<u8> {
    seq![0x50u8, 0x36u8, 0x0au8] + decimal(width) + seq![0x20u8] + decimal(height) + seq![
        0x0au8,
        0x32u8,
        0x35u8,
        0x35u8,
        0x0au8,
    ]
}

/// The channels of the pixels in a row: red, green, blue of the first, then
/// of the second, and so on.
pub open spec fn channels(pixels: Seq<Vec3<u8>>) -> Seq<u8>
    decreases pixels.len(),
{
    if pixels.len() == 0 {
        seq![]
    } else {
        channels(pixels.drop_last()) + seq![pixels.last().x, pixels.last().y, pixels.last().z]
    }
}

/// The bytes of a picture: the header, then three bytes for each pixel.
pub open spec fn ppm_image(width: nat, height: nat, pixels: Seq<Vec3<u8>>) -> Seq<u8> {
    ppm_header(width, height) + channels(pixels)
}

/// The number that a row of ASCII digits writes in base ten.
pub open spec fn decimal_value(digits: Seq<u8>) -> nat
    decreases digits.len(),
{
    if digits.len() == 0 {
        0
    } else {
        (10 * decimal_value(digits.drop_last()) + (digits.last() - 48)) as nat
    }
}

/// A decimal is made of digits alone, starts with a zero only if the number
/// is zero, and writes the number.
pub proof fn lemma_decimal_writes_the_number(n: nat)
    ensures
        decimal(n).len() >= 1,
        forall|k: int| 0 <= k < decimal(n).len() ==> 48 <= #[trigger] decimal(n)[k] <= 57,
        n > 0 ==> decimal(n)[0] != 48,
        decimal_value(decimal(n)) == n,
    decreases n,
{
    if n >= 10 {
        lemma_decimal_writes_the_number(n / 10);
        assert(decimal(n).drop_last() == decimal(n / 10));
        assert(decimal(n).last() == (48 + n % 10) as u8);
    } else {
        assert(decimal(n).drop_last() == Seq::<u8>::empty());
        assert(decimal(n).last() == (48 + n) as u8);
        assert(decimal_value(Seq::<u8>::empty()) == 0);
    }
}

/// Three bytes stand for each pixel, in the pixels' order.
pub proof fn lemma_channels_of_pixels(pixels: Seq<Vec3<u8>>)
    ensures
        channels(pixels).len() == 3 * pixels.len(),
        forall|k: int|
            0 <= k < pixels.len() ==> {
                &&& channels(pixels)[3 * k] == (#[trigger] pixels[k]).x
                &&& channels(pixels)[3 * k + 1] == pixels[k].y
                &&& channels(pixels)[3 * k + 2] == pixels[k].z
            },
    decreases pixels.len(),
{
    if pixels.len() > 0 {
        lemma_channels_of_pixels(pixels.drop_last());
        assert forall|k: int| 0 <= k < pixels.len() implies {
            &&& channels(pixels)[3 * k] == (#[trigger] pixels[k]).x
            &&& channels(pixels)[3 * k + 1] == pixels[k].y
            &&& channels(pixels)[3 * k + 2] == pixels[k].z
        } by {
            if k < pixels.len() - 1 {
                assert(pixels.drop_last()[k] == pixels[k]);
            }
        }
    }
}

/// A picture's bytes start with its header, and the header is followed by
/// exactly three bytes for each pixel.
pub proof fn lemma_ppm_image_layout(width: nat, height: nat, pixels: Seq<Vec3<u8>>)
    ensures
        ppm_image(width, height, pixels).len() == ppm_header(width, height).len() + 3
            * pixels.len(),
        ppm_image(width, height, pixels).take(ppm_header(width, height).len() as int)
            == ppm_header(width, height),
        ppm_image(width, height, pixels).skip(ppm_header(width, height).len() as int)
            == channels(pixels),
{
    lemma_channels_of_pixels(pixels);
    let header = ppm_header(width, height);
    let image = ppm_image(width, height, pixels);
    assert(image.take(header.len() as int) =~= header);
    assert(image.skip(header.len() as int) =~= channels(pixels));
}

/// Appends the decimal digits of `n`.
fn push_decimal(out: &mut Vec<u8>, n: usize)
    ensures
        final(out)@ == old(out)@ + decimal(n as nat),
    decreases n,
{
    if n < 10 {
        out.push(48u8 + (n as u8));
        assert(final(out)@ =~= old(out)@ + decimal(n as nat));
    } else {
        push_decimal(out, n / 10);
        out.push(48u8 + ((n % 10) as u8));
        assert(final(out)@ =~= old(out)@ + decimal(n as nat));
    }
}

impl FrameBuffer {
    /// The picture holds one pixel for each place of its grid. Every picture
    /// that [`FrameBuffer::new`] makes is so, and stays so.
    pub open spec fn wf(&self) -> bool {
        self@.pixels.len() == self@.width * self@.height
    }

    /// A black picture of the given size.
    pub fn new(width: usize, height: usize) -> (r: Self)
        requires
            width * height <= usize::MAX,
        ensures
            r.wf(),
            r@ == (Picture {
                width: width as nat,
                height: height as nat,
                pixels: Seq::new((width * height) as nat, |k: int| black()),
            }),
    {
        let n: usize = width * height;
        let mut data: Vec<Vec3<u8>> = Vec::with_capacity(n);
        let mut k: usize = 0;
        while k < n
            invariant
                k <= n,
                data@ == Seq::new(k as nat, |k: int| black()),
            decreases n - k,
        {
            data.push(Vec3 { x: 0u8, y: 0u8, z: 0u8 });
            k += 1;
            assert(data@ =~= Seq::new(k as nat, |k: int| black()));
        }
        Self { data, width, height }
    }

    /// The number of pixels in a row.
    pub fn width(&self) -> (r: usize)
        ensures
            r == self@.width,
    {
        self.width
    }

    /// The number of rows.
    pub fn height(&self) -> (r: usize)
        ensures
            r == self@.height,
    {
        self.height
    }

    /// The number of pixels.
    pub fn len(&self) -> (r: usize)
        ensures
            r == self@.pixels.len(),
    {
        self.data.len()
    }

    /// The pixel at a place in row-major order.
    pub fn get(&self, index: usize) -> (r: Vec3<u8>)
        requires
            index < self@.pixels.len(),
        ensures
            r == self@.pixels[index as int],
    {
        self.data[index]
    }

    /// Writes one pixel, at a place in row-major order. The size stays.
    pub fn set(&mut self, index: usize, pixel: Vec3<u8>)
        requires
            index < old(self)@.pixels.len(),
        ensures
            final(self)@ == (Picture {
                pixels: old(self)@.pixels.update(index as int, pixel),
                ..old(self)@
            }),
    {
        self.data.set(index, pixel);
    }

    /// The picture as a binary portable pixmap.
    pub fn to_ppm(&self) -> (bytes: Vec<u8>)
        ensures
            bytes@ == ppm_image(self@.width, self@.height, self@.pixels),
    {
        let mut bytes: Vec<u8> = Vec::new();
        bytes.push(0x50u8);
        bytes.push(0x36u8);
        bytes.push(0x0au8);
        push_decimal(&mut bytes, self.width);
        bytes.push(0x20u8);
        push_decimal(&mut bytes, self.height);
        bytes.push(0x0au8);
        bytes.push(0x32u8);
        bytes.push(0x35u8);
        bytes.push(0x35u8);
        bytes.push(0x0au8);
        assert(bytes@ =~= ppm_header(self.width as nat, self.height as nat));
        let mut k: usize = 0;
        while k < self.data.len()
            invariant
                k <= self.data@.len(),
                bytes@ == ppm_header(self.width as nat, self.height as nat) + channels(
                    self.data@.take(k as int),
                ),
            decreases self.data@.len() - k,
        {
            let pixel = self.data[k];
            bytes.push(pixel.x);
            bytes.push(pixel.y);
            bytes.push(pixel.z);
            proof {
                assert(self.data@.take(k + 1).drop_last() == self.data@.take(k as int));
                assert(bytes@ =~= ppm_header(self.width as nat, self.height as nat) + channels(
                    self.data@.take(k + 1),
                ));
            }
            k += 1;
        }
        proof {
            assert(self.data@.take(k as int) == self.data@);
        }
        bytes
    }
}

} // verus!

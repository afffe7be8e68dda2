//! Byte layout of the finished image: the binary PPM header, the file
//! name the render is saved under, and the flat red-green-blue pixel
//! stream behind the header.

use vstd::prelude::*;

verus! {

/// The ASCII decimal digits of `n`, most significant first.
pub open spec fn spec_decimal(n: nat) -> Seq<u8>
    decreases n,
{
    if n < 10 {
        seq![(48 + n) as u8]
    } else {
        spec_decimal(n / 10).push((48 + n % 10) as u8)
    }
}

/// Writes `n` out in decimal.
pub fn decimal_digits(n: usize) -> (r: Vec<u8>)
    ensures
        r@ == spec_decimal(n as nat),
    decreases n,
{
    if n < 10 {
        let mut r: Vec<u8> = Vec::new();
        r.push(48 + n as u8);
        assert(r@ =~= spec_decimal(n as nat));
        r
    } else {
        let mut r = decimal_digits(n / 10);
        r.push(48 + (n % 10) as u8);
        assert(r@ =~= spec_decimal(n as nat));
        r
    }
}

/// The header of a binary PPM image: `P6`, the width and the height in
/// decimal separated by a space, and the greatest channel value, 255.
pub open spec fn spec_ppm_header(width: nat, height: nat) -> Seq<u8> {
    seq![80u8, 54u8, 10u8] + spec_decimal(width) + seq![32u8] + spec_decimal(height)
        + seq![10u8, 50u8, 53u8, 53u8, 10u8]
}

/// The header that precedes the pixel bytes of a `width` by `height`
/// binary PPM image.
pub fn ppm_header(width: usize, height: usize) -> (r: Vec<u8>)
    ensures
        r@ == spec_ppm_header(width as nat, height as nat),
{
    let mut r: Vec<u8> = Vec::new();
    r.push(80);
    r.push(54);
    r.push(10);
    let mut w = decimal_digits(width);
    r.append(&mut w);
    r.push(32);
    let mut h = decimal_digits(height);
    r.append(&mut h);
    r.push(10);
    r.push(50);
    r.push(53);
    r.push(53);
    r.push(10);
    assert(r@ =~= spec_ppm_header(width as nat, height as nat));
    r
}

/// The file name a render of height `height` is saved under:
/// `scene_` then the height in decimal, then `p.ppm`.
pub open spec fn spec_ppm_filename(height: nat) -> Seq<u8> {
    seq![115u8, 99u8, 101u8, 110u8, 101u8, 95u8] + spec_decimal(height)
        + seq![112u8, 46u8, 112u8, 112u8, 109u8]
}

/// The name of the file a render of height `height` is written to.
pub fn ppm_filename(height: usize) -> (r: Vec<u8>)
    ensures
        r@ == spec_ppm_filename(height as nat),
{
    let mut r: Vec<u8> = Vec::new();
    r.push(115);
    r.push(99);
    r.push(101);
    r.push(110);
    r.push(101);
    r.push(95);
    let mut h = decimal_digits(height);
    r.append(&mut h);
    r.push(112);
    r.push(46);
    r.push(112);
    r.push(112);
    r.push(109);
    assert(r@ =~= spec_ppm_filename(height as nat));
    r
}

/// The pixels flattened to bytes: red, green and blue of each pixel in
/// turn, in the order the pixels are given.
pub open spec fn spec_pixel_bytes(pixels: Seq<(u8, u8, u8)>) -> Seq<u8>
    decreases pixels.len(),
{
    if pixels.len() == 0 {
        Seq::empty()
    } else {
        spec_pixel_bytes(pixels.drop_last())
            + seq![pixels.last().0, pixels.last().1, pixels.last().2]
    }
}

/// Each pixel contributes exactly its three channel bytes, in place.
pub proof fn lemma_pixel_bytes_layout(pixels: Seq<(u8, u8, u8)>)
    ensures
        spec_pixel_bytes(pixels).len() == 3 * pixels.len(),
        forall|k: int|
            0 <= k < pixels.len() ==> {
                &&& spec_pixel_bytes(pixels)[3 * k] == pixels[k].0
                &&& spec_pixel_bytes(pixels)[3 * k + 1] == pixels[k].1
                &&& spec_pixel_bytes(pixels)[3 * k + 2] == pixels[k].2
            },
    decreases pixels.len(),
{
    if pixels.len() > 0 {
        lemma_pixel_bytes_layout(pixels.drop_last());
        let n: int = pixels.len() - 1;
        let front = spec_pixel_bytes(pixels.drop_last());
        assert forall|k: int| 0 <= k < pixels.len() implies {
            &&& spec_pixel_bytes(pixels)[3 * k] == pixels[k].0
            &&& spec_pixel_bytes(pixels)[3 * k + 1] == pixels[k].1
            &&& spec_pixel_bytes(pixels)[3 * k + 2] == pixels[k].2
        } by {
            if k < n {
                assert(pixels.drop_last()[k] == pixels[k]);
                assert(spec_pixel_bytes(pixels)[3 * k] == front[3 * k]);
                assert(spec_pixel_bytes(pixels)[3 * k + 1] == front[3 * k + 1]);
                assert(spec_pixel_bytes(pixels)[3 * k + 2] == front[3 * k + 2]);
            } else {
                assert(spec_pixel_bytes(pixels)[3 * k] == pixels.last().0);
                assert(spec_pixel_bytes(pixels)[3 * k + 1] == pixels.last().1);
                assert(spec_pixel_bytes(pixels)[3 * k + 2] == pixels.last().2);
            }
        }
    }
}

/// Flattens the pixels of an image to the byte stream that follows the
/// PPM header, three bytes per pixel in the order given: for an image
/// rendered row by row from its highest scanline down, that is the
/// row-major, top-to-bottom pixel map of the file.
pub fn pixel_bytes(pixels: &Vec<(u8, u8, u8)>) -> (r: Vec<u8>)
    ensures
        r@ == spec_pixel_bytes(pixels@),
        r@.len() == 3 * pixels@.len(),
{
    let mut r: Vec<u8> = Vec::new();
    let mut i: usize = 0;
    while i < pixels.len()
        invariant
            i <= pixels@.len(),
            r@ == spec_pixel_bytes(pixels@.take(i as int)),
        decreases pixels@.len() - i,
    {
        let p = pixels[i];
        r.push(p.0);
        r.push(p.1);
        r.push(p.2);
        proof {
            let taken = pixels@.take(i + 1);
            assert(taken.drop_last() =~= pixels@.take(i as int));
            assert(taken.last() == pixels@[i as int]);
        }
        i = i + 1;
        assert(r@ =~= spec_pixel_bytes(pixels@.take(i as int)));
    }
    proof {
        assert(pixels@.take(pixels@.len() as int) =~= pixels@);
        lemma_pixel_bytes_layout(pixels@);
    }
    r
}

} // verus!

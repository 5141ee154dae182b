use vstd::prelude::*;

use crate::Error;
use crate::pixel::{Pixel8, Pixel16, PixelF32};
use crate::pixel::{adjust_pixel, canon_to_pixel8, canon_to_pixel16, pixel8_to_canon,
    pixel16_to_canon};
use crate::pixel::{lemma_adjust_identity, lemma_pixel8_roundtrip, lemma_pixel16_roundtrip,
    pixel16_valid};

verus! {

/// The contents of a frame buffer: a row-major grid of pixels of one uniform
/// encoding. Input and output buffers may differ in encoding only at this
/// boundary type, never within one buffer.
#[derive(Debug)]
pub enum FrameData {
    Data8(Vec<Pixel8>),
    Data16(Vec<Pixel16>),
    DataF32(Vec<PixelF32>),
}

/// A frame buffer handed over by the host. The core never resizes it; it only
/// reads input cells and writes output cells.
#[derive(Debug)]
pub struct Frame {
    pub width: usize,
    pub height: usize,
    pub data: FrameData,
}

impl Frame {
    /// A frame is well formed when it holds exactly one pixel per grid cell.
    pub open spec fn wf(self) -> bool {
        match self.data {
            FrameData::Data8(v) => v.len() == self.width * self.height,
            FrameData::Data16(v) => v.len() == self.width * self.height,
            FrameData::DataF32(v) => v.len() == self.width * self.height,
        }
    }

    /// Decide well-formedness, for callers that receive a frame from outside.
    pub fn wf_check(&self) -> (b: bool)
        ensures
            b == self.wf(),
    {
        let n: usize = match &self.data {
            FrameData::Data8(v) => v.len(),
            FrameData::Data16(v) => v.len(),
            FrameData::DataF32(v) => v.len(),
        };
        proof {
            assert(self.width as int * self.height as int <= 0xFFFF_FFFF_FFFF_FFFFint
                * 0xFFFF_FFFF_FFFF_FFFFint) by (nonlinear_arith)
                requires
                    0 <= self.width as int <= 0xFFFF_FFFF_FFFF_FFFFint,
                    0 <= self.height as int <= 0xFFFF_FFFF_FFFF_FFFFint,
            ;
        }
        n as u128 == self.width as u128 * self.height as u128
    }
}

/// The full per-pixel transform on the 8-bit path: to canonical space,
/// adjust, back to the same encoding.
pub open spec fn transform8(p: Pixel8, amount: int) -> Pixel8 {
    canon_to_pixel8(adjust_pixel(pixel8_to_canon(p), amount))
}

/// The full per-pixel transform on the 16-bit path: to canonical space,
/// adjust, back to the same encoding.
pub open spec fn transform16(p: Pixel16, amount: int) -> Pixel16 {
    canon_to_pixel16(adjust_pixel(pixel16_to_canon(p), amount))
}

/// The full per-pixel transform on the float path: the pixel is already in
/// canonical space, so it is adjusted directly, with no conversion.
pub open spec fn transform_f32(p: PixelF32, amount: int) -> PixelF32 {
    adjust_pixel(p, amount)
}

/// Law: the full 8-bit render path preserves alpha, for every pixel and
/// every amount — the conversions round-trip the alpha channel and the
/// adjustment passes it through.
pub proof fn lemma_transform8_alpha_invariant(p: Pixel8, amount: int)
    ensures
        transform8(p, amount).alpha == p.alpha,
{
    lemma_pixel8_roundtrip(p);
}

/// Law: the full 16-bit render path preserves alpha of every valid pixel,
/// for every amount.
pub proof fn lemma_transform16_alpha_invariant(p: Pixel16, amount: int)
    requires
        pixel16_valid(p),
    ensures
        transform16(p, amount).alpha == p.alpha,
{
    lemma_pixel16_roundtrip(p);
}

/// Law: rendering an 8-bit pixel with amount zero returns it unchanged.
pub proof fn lemma_transform8_identity_at_zero(p: Pixel8)
    ensures
        transform8(p, 0) == p,
{
    lemma_adjust_identity(pixel8_to_canon(p));
    lemma_pixel8_roundtrip(p);
}

/// Law: rendering a valid 16-bit pixel with amount zero returns it
/// unchanged.
pub proof fn lemma_transform16_identity_at_zero(p: Pixel16)
    requires
        pixel16_valid(p),
    ensures
        transform16(p, 0) == p,
{
    lemma_adjust_identity(pixel16_to_canon(p));
    lemma_pixel16_roundtrip(p);
}

/// Whether an input/output encoding pair may be iterated. The 8-bit and
/// 16-bit paths demand matching encodings; the float pair is accepted only
/// where the render path supports float buffers.
pub open spec fn encodings_compatible(input: FrameData, output: FrameData, float_path: bool) -> bool {
    match (input, output) {
        (FrameData::Data8(_), FrameData::Data8(_)) => true,
        (FrameData::Data16(_), FrameData::Data16(_)) => true,
        (FrameData::DataF32(_), FrameData::DataF32(_)) => float_path,
        _ => false,
    }
}

/// The iteration result: every cell of the first `extent` rows of the output
/// holds the transform of the same cell of the input, and every later cell is
/// left in its prior state.
pub open spec fn frame_transformed(input: Frame, before: Frame, after: Frame, extent: int, amount: int) -> bool {
    after.width == before.width && after.height == before.height && match (
        input.data,
        before.data,
        after.data,
    ) {
        (FrameData::Data8(iv), FrameData::Data8(v0), FrameData::Data8(v1)) => v1.len() == v0.len()
            && (forall|k: int|
            0 <= k < v1.len() ==> v1[k] == (if k < extent * input.width {
                transform8(iv[k], amount)
            } else {
                v0[k]
            })),
        (FrameData::Data16(iv), FrameData::Data16(v0), FrameData::Data16(v1)) => v1.len()
            == v0.len() && (forall|k: int|
            0 <= k < v1.len() ==> v1[k] == (if k < extent * input.width {
                transform16(iv[k], amount)
            } else {
                v0[k]
            })),
        (FrameData::DataF32(iv), FrameData::DataF32(v0), FrameData::DataF32(v1)) => v1.len()
            == v0.len() && (forall|k: int|
            0 <= k < v1.len() ==> v1[k] == (if k < extent * input.width {
                transform_f32(iv[k], amount)
            } else {
                v0[k]
            })),
        _ => false,
    }
}

fn iterate8(inp: &Vec<Pixel8>, out: &mut Vec<Pixel8>, count: usize, amount: i64)
    requires
        count <= inp.len(),
        count <= old(out).len(),
    ensures
        final(out).len() == old(out).len(),
        forall|k: int|
            0 <= k < old(out).len() ==> final(out)[k] == (if k < count {
                transform8(inp[k], amount as int)
            } else {
                old(out)[k]
            }),
{
    let mut k: usize = 0;
    while k < count
        invariant
            k <= count,
            count <= inp.len(),
            count <= old(out).len(),
            out.len() == old(out).len(),
            forall|j: int| 0 <= j < k ==> out[j] == transform8(inp[j], amount as int),
            forall|j: int| k <= j < out.len() ==> out[j] == old(out)[j],
        decreases count - k,
    {
        let q = inp[k].to_pixel32().add(amount).to_pixel8();
        out[k] = q;
        k += 1;
    }
}

fn iterate16(inp: &Vec<Pixel16>, out: &mut Vec<Pixel16>, count: usize, amount: i64)
    requires
        count <= inp.len(),
        count <= old(out).len(),
    ensures
        final(out).len() == old(out).len(),
        forall|k: int|
            0 <= k < old(out).len() ==> final(out)[k] == (if k < count {
                transform16(inp[k], amount as int)
            } else {
                old(out)[k]
            }),
{
    let mut k: usize = 0;
    while k < count
        invariant
            k <= count,
            count <= inp.len(),
            count <= old(out).len(),
            out.len() == old(out).len(),
            forall|j: int| 0 <= j < k ==> out[j] == transform16(inp[j], amount as int),
            forall|j: int| k <= j < out.len() ==> out[j] == old(out)[j],
        decreases count - k,
    {
        let q = inp[k].to_pixel32().add(amount).to_pixel16();
        out[k] = q;
        k += 1;
    }
}

fn iterate_f32(inp: &Vec<PixelF32>, out: &mut Vec<PixelF32>, count: usize, amount: i64)
    requires
        count <= inp.len(),
        count <= old(out).len(),
    ensures
        final(out).len() == old(out).len(),
        forall|k: int|
            0 <= k < old(out).len() ==> final(out)[k] == (if k < count {
                transform_f32(inp[k], amount as int)
            } else {
                old(out)[k]
            }),
{
    let mut k: usize = 0;
    while k < count
        invariant
            k <= count,
            count <= inp.len(),
            count <= old(out).len(),
            out.len() == old(out).len(),
            forall|j: int| 0 <= j < k ==> out[j] == transform_f32(inp[j], amount as int),
            forall|j: int| k <= j < out.len() ==> out[j] == old(out)[j],
        decreases count - k,
    {
        let q = inp[k].add(amount);
        out[k] = q;
        k += 1;
    }
}

/// Iterate every pixel of the first `extent` rows: read the source pixel,
/// dispatch on the concrete encoding pair, and write the transformed pixel to
/// the same cell of the output. A mismatched encoding pair — or a float pair
/// on a render path without float support — is a contract violation: the call
/// fails with `BadCallbackParameter` and the output is left untouched.
pub fn iterate(input: &Frame, output: &mut Frame, extent: usize, amount: i64, float_path: bool) -> (r: Result<(), Error>)
    requires
        input.wf(),
        old(output).wf(),
        input.width == old(output).width,
        input.height == old(output).height,
        extent <= old(output).height,
    ensures
        final(output).wf(),
        final(output).width == old(output).width,
        final(output).height == old(output).height,
        encodings_compatible(input.data, old(output).data, float_path) ==> r == Ok::<(), Error>(())
            && frame_transformed(*input, *old(output), *final(output), extent as int, amount as int),
        !encodings_compatible(input.data, old(output).data, float_path) ==> r == Err::<(), Error>(
            Error::BadCallbackParameter,
        ) && *final(output) == *old(output),
{
    proof {
        assert(extent * input.width <= input.height * input.width) by (nonlinear_arith)
            requires
                extent <= input.height,
                input.width >= 0,
        ;
        assert(input.height * input.width == input.width * input.height) by (nonlinear_arith);
    }
    let count: usize = extent * input.width;
    match (&input.data, &mut output.data) {
        (FrameData::Data8(iv), FrameData::Data8(ov)) => {
            iterate8(iv, ov, count, amount);
            Ok(())
        },
        (FrameData::Data16(iv), FrameData::Data16(ov)) => {
            iterate16(iv, ov, count, amount);
            Ok(())
        },
        (FrameData::DataF32(iv), FrameData::DataF32(ov)) => {
            if float_path {
                iterate_f32(iv, ov, count, amount);
                Ok(())
            } else {
                Err(Error::BadCallbackParameter)
            }
        },
        _ => Err(Error::BadCallbackParameter),
    }
}

} // verus!

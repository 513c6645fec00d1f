//! Filling a raster, one row segment per generator.

use vstd::prelude::*;
use rayon::iter::{IndexedParallelIterator, ParallelIterator};
use rayon::slice::ParallelSliceMut;
use crate::error::FieldError;
use crate::generator::{mix_n, XorShift32};
use crate::laws::lemma_fill_order_is_irrelevant;
use crate::pixel::{encode_pixel, sample_of, GenerationMode, PixelSample};
use crate::schedule::{row_generators_of, schedule_rows};

verus! {

/// The pixels of one row: slot `j` holds draw number `j + 1` of the row's
/// generator, encoded under `mode`.
pub open spec fn row_pixels(rng: XorShift32, width: nat, mode: GenerationMode) -> Seq<PixelSample> {
    Seq::new(width, |j: int| sample_of(mix_n(rng.x, (j + 1) as nat), mode))
}

/// Segment number `row` of a row-major buffer.
pub open spec fn segment(buf: Seq<PixelSample>, width: nat, row: int) -> Seq<PixelSample> {
    buf.subrange(row * width, row * width + width)
}

/// The row-major raster whose row `i` is drawn from `rngs[i]`.
pub open spec fn field_of(rngs: Seq<XorShift32>, width: nat, mode: GenerationMode) -> Seq<
    PixelSample,
> {
    Seq::new(
        rngs.len() * width,
        |k: int| row_pixels(rngs[k / (width as int)], width, mode)[k % (width as int)],
    )
}

/// The raster that a seed, a pair of dimensions and a mode stand for.
pub open spec fn raster_of(seed: u32, width: nat, height: nat, mode: GenerationMode) -> Seq<
    PixelSample,
> {
    field_of(row_generators_of(seed, height), width, mode)
}

/// `buf` after `fill_segment` has run on its segment number `row`.
pub open spec fn with_row_filled(
    buf: Seq<PixelSample>,
    row: int,
    rng: XorShift32,
    width: nat,
    mode: GenerationMode,
) -> Seq<PixelSample> {
    Seq::new(
        buf.len(),
        |k: int|
            if row * width <= k < row * width + width {
                row_pixels(rng, width, mode)[k - row * width]
            } else {
                buf[k]
            },
    )
}

/// `buf` after the rows named by `order` were filled one after the other,
/// row `r` always from `rngs[r]`.
pub open spec fn filled_in_order(
    buf: Seq<PixelSample>,
    order: Seq<usize>,
    rngs: Seq<XorShift32>,
    width: nat,
    mode: GenerationMode,
) -> Seq<PixelSample>
    decreases order.len(),
{
    if order.len() == 0 {
        buf
    } else {
        with_row_filled(
            filled_in_order(buf, order.drop_last(), rngs, width, mode),
            order.last() as int,
            rngs[order.last() as int],
            width,
            mode,
        )
    }
}

/// An order in which the rows `0..height` are filled: every entry is a
/// row, and no row comes twice.
pub open spec fn is_fill_order(order: Seq<usize>, height: nat) -> bool {
    &&& order.len() == height
    &&& forall|k: int| 0 <= k < order.len() ==> #[trigger] order[k] < height
    &&& forall|a: int, b: int| 0 <= a < b < order.len() ==> order[a] != order[b]
}

/// Fills one row segment from left to right, one draw per slot.
pub fn fill_segment(row: &mut [PixelSample], rng: XorShift32, mode: GenerationMode)
    ensures
        final(row)@ == row_pixels(rng, old(row)@.len(), mode),
{
    let mut current = rng;
    let width = row.len();
    let mut j: usize = 0;
    while j < width
        invariant
            j <= width,
            row@.len() == width,
            current.x == mix_n(rng.x, j as nat),
            forall|k: int|
                0 <= k < j ==> row@[k] == sample_of(mix_n(rng.x, (k + 1) as nat), mode),
        decreases width - j,
    {
        let num = current.next();
        row[j] = encode_pixel(num, mode);
        j += 1;
    }
}

/// Fills segment number `row` of a row-major buffer and leaves the rest
/// of the buffer as it is.
pub fn fill_row(
    buf: &mut Vec<PixelSample>,
    width: usize,
    row: usize,
    rng: XorShift32,
    mode: GenerationMode,
)
    requires
        row * width + width <= old(buf)@.len(),
    ensures
        final(buf)@ == with_row_filled(old(buf)@, row as int, rng, width as nat, mode),
{
    let len = buf.len();
    assert(row * width <= len);
    let start: usize = row * width;
    let slice = buf.as_mut_slice();
    let (_, rest) = slice.split_at_mut(start);
    let (segment, _) = rest.split_at_mut(width);
    fill_segment(segment, rng, mode);
    assert(buf@ =~= with_row_filled(old(buf)@, row as int, rng, width as nat, mode));
}

/// Fills the rows that `order` names, one after the other on the calling
/// thread, row `r` from `rngs[r]`.
///
/// Where `order` names every row once, the buffer ends up as the field of
/// the generators, whatever the order is and whatever the buffer held.
pub fn fill_rows_in_order(
    buf: &mut Vec<PixelSample>,
    width: usize,
    rngs: &Vec<XorShift32>,
    mode: GenerationMode,
    order: &Vec<usize>,
)
    requires
        old(buf)@.len() == rngs@.len() * width,
        forall|k: int| 0 <= k < order@.len() ==> #[trigger] order@[k] < rngs@.len(),
    ensures
        final(buf)@ == filled_in_order(old(buf)@, order@, rngs@, width as nat, mode),
        is_fill_order(order@, rngs@.len()) ==> final(buf)@ == field_of(
            rngs@,
            width as nat,
            mode,
        ),
{
    let ghost before = buf@;
    let mut k: usize = 0;
    while k < order.len()
        invariant
            k <= order@.len(),
            before.len() == rngs@.len() * width,
            forall|t: int| 0 <= t < order@.len() ==> #[trigger] order@[t] < rngs@.len(),
            buf@.len() == before.len(),
            buf@ == filled_in_order(before, order@.take(k as int), rngs@, width as nat, mode),
        decreases order@.len() - k,
    {
        let row = order[k];
        assert(row * width + width <= rngs@.len() * width) by (nonlinear_arith)
            requires
                row < rngs@.len(),
        ;
        fill_row(buf, width, row, rngs[row], mode);
        assert(order@.take(k + 1).drop_last() =~= order@.take(k as int));
        k += 1;
    }
    proof {
        assert(order@.take(order@.len() as int) =~= order@);
        if is_fill_order(order@, rngs@.len()) {
            lemma_fill_order_is_irrelevant(before, order@, rngs@, width as nat, mode);
        }
    }
}

/// Runs `fill_segment` over all segments on rayon's thread pool, through
/// `par_chunks_exact_mut`, `zip` and `for_each`.
///
/// Claimed of rayon: the buffer is cut into consecutive segments of
/// `width` slots, segment `i` is paired with `rngs[i]`, and the closure
/// runs once on every pair. What a segment then holds is what
/// `fill_segment` ensures. Rayon rejects a chunk size of zero, so `width`
/// must be positive.
#[verifier::external_body]
fn fill_segments(
    rows: &mut Vec<PixelSample>,
    width: usize,
    rngs: Vec<XorShift32>,
    mode: GenerationMode,
)
    requires
        width > 0,
        old(rows)@.len() == rngs@.len() * width,
    ensures
        final(rows)@.len() == old(rows)@.len(),
        forall|i: int|
            0 <= i < rngs@.len() ==> #[trigger] segment(final(rows)@, width as nat, i)
                == row_pixels(rngs@[i], width as nat, mode),
{
    rows.par_chunks_exact_mut(width).zip(rngs).for_each(|(row, rng)| fill_segment(row, rng, mode));
}

/// Slot `k` of a row-major buffer lies in row `k / width`, column
/// `k % width`.
proof fn lemma_slot_position(k: int, width: int, height: int)
    requires
        width > 0,
        0 <= k < height * width,
    ensures
        0 <= k / width < height,
        0 <= k % width < width,
        k == (k / width) * width + k % width,
{
    vstd::arithmetic::div_mod::lemma_fundamental_div_mod(k, width);
    vstd::arithmetic::div_mod::lemma_mod_bound(k, width);
    let q = k / width;
    assert(width * q == q * width) by (nonlinear_arith);
    assert(q < height) by (nonlinear_arith)
        requires
            q * width <= k,
            k < height * width,
            width > 0,
    ;
    assert(q >= 0) by (nonlinear_arith)
        requires
            q * width + k % width == k,
            k >= 0,
            k % width < width,
            width > 0,
    ;
}

/// A buffer whose every segment is the row of its generator is the field
/// of those generators.
proof fn lemma_segments_make_field(
    buf: Seq<PixelSample>,
    rngs: Seq<XorShift32>,
    width: nat,
    mode: GenerationMode,
)
    requires
        width > 0,
        buf.len() == rngs.len() * width,
        forall|i: int|
            0 <= i < rngs.len() ==> #[trigger] segment(buf, width, i) == row_pixels(
                rngs[i],
                width,
                mode,
            ),
    ensures
        buf == field_of(rngs, width, mode),
{
    let field = field_of(rngs, width, mode);
    assert forall|k: int| 0 <= k < buf.len() implies buf[k] == field[k] by {
        lemma_slot_position(k, width as int, rngs.len() as int);
        let i = k / (width as int);
        let j = k % (width as int);
        assert(i * width + width <= rngs.len() * width) by (nonlinear_arith)
            requires
                0 <= i < rngs.len(),
                width > 0,
        ;
        assert(segment(buf, width, i)[j] == buf[i * width + j]);
    }
    assert(buf =~= field);
}

/// Fills a fresh buffer of `width * height` slots, row `i` from
/// `rngs[i]`.
pub fn fill_field(width: u32, height: u32, mode: GenerationMode, rngs: Vec<XorShift32>) -> (rows:
    Vec<PixelSample>)
    requires
        rngs@.len() == height,
        width * height <= u32::MAX,
    ensures
        rows@ == field_of(rngs@, width as nat, mode),
        rows@.len() == width * height,
{
    let ghost generators = rngs@;
    assert(height as nat * width as nat == width as nat * height as nat) by (nonlinear_arith);
    let area: u32 = width * height;
    let mut rows: Vec<PixelSample> = vec![PixelSample::black(); area as usize];
    if width == 0 {
        // Rows without columns leave nothing to fill, and nothing to cut
        // into segments.
        assert(rows@ =~= field_of(generators, 0, mode));
    } else {
        fill_segments(&mut rows, width as usize, rngs, mode);
        proof {
            lemma_segments_make_field(rows@, generators, width as nat, mode);
        }
    }
    rows
}

/// The pixel count of a `width` by `height` raster, if a buffer can hold
/// that many.
pub fn checked_area(width: u32, height: u32) -> (area: Result<u32, FieldError>)
    ensures
        width * height <= u32::MAX ==> area == Ok::<u32, FieldError>((width * height) as u32),
        width * height > u32::MAX ==> area == Err::<u32, FieldError>(
            FieldError::DimensionOverflow,
        ),
{
    match width.checked_mul(height) {
        Some(area) => Ok(area),
        None => Err(FieldError::DimensionOverflow),
    }
}

/// Generates the raster of `seed` under `genmode`.
pub fn generate_random_pixels(seed: u32, width: u32, height: u32, genmode: GenerationMode) -> (rows:
    Vec<PixelSample>)
    requires
        width * height <= u32::MAX,
    ensures
        rows@ == raster_of(seed, width as nat, height as nat, genmode),
        rows@.len() == width * height,
{
    let rngs = schedule_rows(seed, height);
    fill_field(width, height, genmode, rngs)
}

/// Generates the raster of `seed` under `mode`, or refuses dimensions
/// whose pixel count overflows, before any generator is derived.
pub fn generate_field(seed: u32, width: u32, height: u32, mode: GenerationMode) -> (out: Result<
    Vec<PixelSample>,
    FieldError,
>)
    ensures
        width * height <= u32::MAX ==> out is Ok && out->Ok_0@ == raster_of(
            seed,
            width as nat,
            height as nat,
            mode,
        ),
        width * height > u32::MAX ==> out is Err && out->Err_0 == FieldError::DimensionOverflow,
{
    match checked_area(width, height) {
        Ok(_) => Ok(generate_random_pixels(seed, width, height, mode)),
        Err(e) => Err(e),
    }
}

} // verus!

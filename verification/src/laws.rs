//! What holds of every raster, whatever the seed, the size and the order
//! in which its rows were filled.

use vstd::prelude::*;
use crate::field::{field_of, filled_in_order, is_fill_order, raster_of};
use crate::generator::{mix_n, XorShift32};
use crate::pixel::{sample_of, GenerationMode, PixelSample};
use crate::raster::channel_bytes;
use crate::schedule::row_generators_of;

verus! {

/// Every slot of a field holds the encoding of its own draw: the slot in
/// row `row`, column `col` holds draw number `col + 1` of that row's
/// generator, and the field has one slot per pixel.
pub proof fn lemma_every_slot_is_drawn(
    rngs: Seq<XorShift32>,
    width: nat,
    mode: GenerationMode,
    row: int,
    col: int,
)
    requires
        0 <= row < rngs.len(),
        0 <= col < width,
    ensures
        field_of(rngs, width, mode).len() == rngs.len() * width,
        0 <= row * width + col < rngs.len() * width,
        field_of(rngs, width, mode)[row * width + col] == sample_of(
            mix_n(rngs[row].x, (col + 1) as nat),
            mode,
        ),
{
    let w = width as int;
    let k = row * w + col;
    assert(0 <= row * w && row * w + w <= rngs.len() * w) by (nonlinear_arith)
        requires
            0 <= row < rngs.len(),
            w > 0,
    ;
    vstd::arithmetic::div_mod::lemma_fundamental_div_mod_converse(k, w, row, col);
}

/// In a gray field every sample has equal channels.
pub proof fn lemma_gray_field_has_equal_channels(rngs: Seq<XorShift32>, width: nat, k: int)
    requires
        0 <= k < field_of(rngs, width, GenerationMode::Grayscale).len(),
    ensures
        field_of(rngs, width, GenerationMode::Grayscale)[k].r == field_of(
            rngs,
            width,
            GenerationMode::Grayscale,
        )[k].g,
        field_of(rngs, width, GenerationMode::Grayscale)[k].g == field_of(
            rngs,
            width,
            GenerationMode::Grayscale,
        )[k].b,
{
    let w = width as int;
    assert(width > 0) by {
        if width == 0 {
            assert(rngs.len() * width == 0) by (nonlinear_arith)
                requires
                    width == 0,
            ;
        }
    }
    vstd::arithmetic::div_mod::lemma_mod_bound(k, w);
}

/// Whether `row` is among the entries of `order`.
spec fn filled_by(order: Seq<usize>, row: int) -> bool {
    exists|t: int| 0 <= t < order.len() && order[t] == row
}

/// After the rows of `order` were filled, a slot holds the field's value
/// if its row was among them, and is untouched otherwise.
proof fn lemma_filled_slot(
    buf: Seq<PixelSample>,
    order: Seq<usize>,
    rngs: Seq<XorShift32>,
    width: nat,
    mode: GenerationMode,
    k: int,
)
    requires
        width > 0,
        buf.len() == rngs.len() * width,
        forall|t: int| 0 <= t < order.len() ==> #[trigger] order[t] < rngs.len(),
        0 <= k < buf.len(),
    ensures
        filled_in_order(buf, order, rngs, width, mode).len() == buf.len(),
        filled_in_order(buf, order, rngs, width, mode)[k] == if filled_by(
            order,
            k / (width as int),
        ) {
            field_of(rngs, width, mode)[k]
        } else {
            buf[k]
        },
    decreases order.len(),
{
    let w = width as int;
    let r = k / w;
    if order.len() > 0 {
        let rest = order.drop_last();
        let last = order.last() as int;
        lemma_filled_slot(buf, rest, rngs, width, mode, k);
        vstd::arithmetic::div_mod::lemma_fundamental_div_mod(k, w);
        vstd::arithmetic::div_mod::lemma_mod_bound(k, w);
        assert(w * r == r * w) by (nonlinear_arith);
        if last * w <= k < last * w + w {
            vstd::arithmetic::div_mod::lemma_fundamental_div_mod_converse(k, w, last, k - last * w);
            assert(order[order.len() - 1] == r);
            assert(filled_by(order, r));
        } else {
            assert(last != r);
            if filled_by(rest, r) {
                let t = choose|t: int| 0 <= t < rest.len() && rest[t] == r;
                assert(order[t] == r);
            }
            if filled_by(order, r) {
                let t = choose|t: int| 0 <= t < order.len() && order[t] == r;
                assert(rest[t] == r);
            }
        }
    }
}

/// A fill order names every row.
proof fn lemma_fill_order_names_every_row(order: Seq<usize>, height: nat, row: int)
    requires
        is_fill_order(order, height),
        0 <= row < height,
    ensures
        filled_by(order, row),
{
    let named = order.map_values(|r: usize| r as int);
    let rows = vstd::set_lib::set_int_range(0, height as int);
    vstd::set_lib::lemma_int_range(0, height as int);
    assert(named.no_duplicates());
    named.unique_seq_to_set();
    vstd::seq_lib::seq_to_set_is_finite(named);
    assert(named.to_set().subset_of(rows)) by {
        assert forall|v: int| named.to_set().contains(v) implies rows.contains(v) by {
            let t = choose|t: int| 0 <= t < named.len() && named[t] == v;
            assert(order[t] < height);
        }
    }
    vstd::set_lib::lemma_subset_equality(named.to_set(), rows);
    assert(rows.contains(row));
    assert(named.to_set().contains(row));
    let t = choose|t: int| 0 <= t < named.len() && named[t] == row;
    assert(order[t] == row);
}

/// The order in which the rows are filled does not show in the result:
/// whatever the buffer held before, filling every row once, in any order,
/// leaves the field of the generators.
pub proof fn lemma_fill_order_is_irrelevant(
    buf: Seq<PixelSample>,
    order: Seq<usize>,
    rngs: Seq<XorShift32>,
    width: nat,
    mode: GenerationMode,
)
    requires
        buf.len() == rngs.len() * width,
        is_fill_order(order, rngs.len()),
    ensures
        filled_in_order(buf, order, rngs, width, mode) == field_of(rngs, width, mode),
{
    let out = filled_in_order(buf, order, rngs, width, mode);
    let field = field_of(rngs, width, mode);
    if width == 0 {
        assert(rngs.len() * width == 0) by (nonlinear_arith)
            requires
                width == 0,
        ;
        lemma_filled_len(buf, order, rngs, width, mode);
        assert(out =~= field);
    } else {
        lemma_filled_len(buf, order, rngs, width, mode);
        assert forall|k: int| 0 <= k < buf.len() implies out[k] == field[k] by {
            lemma_filled_slot(buf, order, rngs, width, mode, k);
            let w = width as int;
            vstd::arithmetic::div_mod::lemma_fundamental_div_mod(k, w);
            vstd::arithmetic::div_mod::lemma_mod_bound(k, w);
            let r = k / w;
            assert(0 <= r < rngs.len()) by (nonlinear_arith)
                requires
                    w * r + k % w == k,
                    0 <= k % w < w,
                    0 <= k < rngs.len() * w,
                    w > 0,
            ;
            lemma_fill_order_names_every_row(order, rngs.len(), r);
        }
        assert(out =~= field);
    }
}

/// Filling rows never changes the length of the buffer.
proof fn lemma_filled_len(
    buf: Seq<PixelSample>,
    order: Seq<usize>,
    rngs: Seq<XorShift32>,
    width: nat,
    mode: GenerationMode,
)
    ensures
        filled_in_order(buf, order, rngs, width, mode).len() == buf.len(),
    decreases order.len(),
{
    if order.len() > 0 {
        lemma_filled_len(buf, order.drop_last(), rngs, width, mode);
    }
}

/// Generation is a function of its inputs: two runs of scheduling and
/// filling on the same seed, dimensions and mode end with the same raster,
/// and so with the same channel bytes.
pub proof fn lemma_runs_agree(
    seed: u32,
    width: nat,
    height: nat,
    mode: GenerationMode,
    first_rngs: Seq<XorShift32>,
    first: Seq<PixelSample>,
    second_rngs: Seq<XorShift32>,
    second: Seq<PixelSample>,
)
    requires
        first_rngs == row_generators_of(seed, height),
        second_rngs == row_generators_of(seed, height),
        first == field_of(first_rngs, width, mode),
        second == field_of(second_rngs, width, mode),
    ensures
        first == second,
        first == raster_of(seed, width, height, mode),
        first.len() == width * height,
        channel_bytes(first) == channel_bytes(second),
{
    assert(row_generators_of(seed, height).len() == height);
    assert(height * width == width * height) by (nonlinear_arith);
}

} // verus!

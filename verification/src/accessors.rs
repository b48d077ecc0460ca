//! The component-reordering accessors of the vector types.
//!
//! An accessor of a type with `C` components picks, for each of the `M`
//! components of its result, one component of the source. Such a selection is a
//! string of `M` digits in radix `C`. The generator walks all `C^M` selections in
//! the order of the numbers they spell, the last digit varying fastest, and
//! writes the source text of one accessor for each.

use crate::lanes::indices_within;
use vstd::prelude::*;
use vstd::string::StringSliceAdditionalSpecFns;

verus! {

/// The number that the digits of `selection` spell in the given radix, the first
/// digit being the most significant.
pub open spec fn selection_rank(selection: Seq<usize>, radix: nat) -> nat
    decreases selection.len(),
{
    if selection.len() == 0 {
        0
    } else {
        selection_rank(selection.drop_last(), radix) * radix + selection.last() as nat
    }
}

/// How many selections of `len` digits the radix has: `radix^len`.
pub open spec fn selection_count(radix: nat, len: nat) -> nat
    decreases len,
{
    if len == 0 {
        1
    } else {
        radix * selection_count(radix, (len - 1) as nat)
    }
}

/// The selection of `len` digits that spells `rank` in the given radix.
pub open spec fn nth_selection(rank: nat, radix: nat, len: nat) -> Seq<usize>
    decreases len,
{
    if len == 0 {
        Seq::empty()
    } else {
        nth_selection(rank / radix, radix, (len - 1) as nat).push((rank % radix) as usize)
    }
}

/// A selection whose digits are all below the radix spells a number below `radix^len`.
pub proof fn lemma_rank_bound(selection: Seq<usize>, radix: nat)
    requires
        indices_within(selection, radix),
    ensures
        selection_rank(selection, radix) < selection_count(radix, selection.len()),
    decreases selection.len(),
{
    if selection.len() > 0 {
        let front = selection.drop_last();
        lemma_rank_bound(front, radix);
        let r = selection_rank(front, radix);
        let p = selection_count(radix, front.len());
        let d = selection.last() as nat;
        assert(d < radix);
        assert(selection_count(radix, selection.len()) == radix * p);
        assert(r * radix + d < radix * p) by (nonlinear_arith)
            requires
                r < p,
                d < radix,
        ;
    }
}

/// Where every digit from position `from` on is zero, the digits before it spell
/// the number divided by `radix^(len - from)`.
proof fn lemma_rank_zero_suffix(selection: Seq<usize>, radix: nat, from: int)
    requires
        0 <= from <= selection.len(),
        forall|j: int| from <= j < selection.len() ==> selection[j] == 0,
    ensures
        selection_rank(selection, radix) == selection_rank(selection.take(from), radix)
            * selection_count(radix, (selection.len() - from) as nat),
    decreases selection.len() - from,
{
    if from == selection.len() {
        assert(selection.take(from) =~= selection);
        let r = selection_rank(selection, radix);
        let c = selection_count(radix, (selection.len() - from) as nat);
        assert(c == 1);
        assert(r == r * c) by (nonlinear_arith)
            requires
                c == 1,
        ;
    } else {
        let front = selection.drop_last();
        lemma_rank_zero_suffix(front, radix, from);
        assert(front.take(from) =~= selection.take(from));
        let r = selection_rank(selection.take(from), radix);
        let p = selection_count(radix, (front.len() - from) as nat);
        assert(selection_count(radix, (selection.len() - from) as nat) == radix * p);
        assert(selection.last() == 0);
        assert(selection_rank(selection, radix) == (r * p) * radix);
        assert((r * p) * radix == r * (radix * p)) by (nonlinear_arith);
    }
}

/// Steps a selection to the one that spells the next number, carrying to the left;
/// the last selection steps back to the first.
pub fn next_perm<const OUTPUT_COUNT: usize>(perm: &mut [usize; OUTPUT_COUNT], max: usize)
    requires
        indices_within(old(perm)@, max as nat),
    ensures
        indices_within(final(perm)@, max as nat),
        selection_rank(final(perm)@, max as nat) == (selection_rank(old(perm)@, max as nat) + 1)
            % selection_count(max as nat, OUTPUT_COUNT as nat),
{
    let ghost before = perm@;
    let ghost radix = max as nat;
    let mut i: usize = OUTPUT_COUNT;
    proof {
        assert(before.take(OUTPUT_COUNT as int) =~= before);
        let c = selection_count(radix, (OUTPUT_COUNT - OUTPUT_COUNT) as nat);
        let r = selection_rank(before, radix);
        assert(c == 1);
        assert(r + 1 == (r + 1) * c) by (nonlinear_arith)
            requires
                c == 1,
        ;
    }
    while i > 0
        invariant
            i <= OUTPUT_COUNT,
            before == old(perm)@,
            radix == max,
            indices_within(before, radix),
            forall|j: int| 0 <= j < i ==> perm@[j] == before[j],
            forall|j: int| i <= j < OUTPUT_COUNT ==> perm@[j] == 0,
            selection_rank(before, radix) + 1 == (selection_rank(before.take(i as int), radix) + 1)
                * selection_count(radix, (OUTPUT_COUNT - i) as nat),
        decreases i,
    {
        i -= 1;
        let digit = perm[i];
        proof {
            let front = before.take(i as int);
            let upto = before.take(i + 1);
            assert(upto.drop_last() =~= front);
            assert(upto.last() == digit);
            assert(selection_rank(upto, radix) == selection_rank(front, radix) * radix + digit);
            assert(selection_count(radix, (OUTPUT_COUNT - i) as nat) == radix * selection_count(
                radix,
                (OUTPUT_COUNT - i - 1) as nat,
            ));
        }
        if digit + 1 >= max {
            perm[i] = 0;
            proof {
                let r = selection_rank(before.take(i as int), radix);
                let p = selection_count(radix, (OUTPUT_COUNT - i - 1) as nat);
                assert((r * radix + digit + 1) * p == (r + 1) * (radix * p)) by (nonlinear_arith)
                    requires
                        digit + 1 == radix,
                ;
            }
        } else {
            perm[i] = digit + 1;
            proof {
                let after = perm@;
                assert forall|j: int| 0 <= j < after.len() implies after[j] < radix by {
                    if j < i {
                        assert(after[j] == before[j]);
                    }
                }
                assert(indices_within(after, radix));
                lemma_rank_zero_suffix(after, radix, i + 1);
                let upto = after.take(i + 1);
                assert(upto.drop_last() =~= before.take(i as int));
                assert(upto.last() == digit + 1);
                assert(selection_rank(after, radix) == selection_rank(before, radix) + 1);
                lemma_rank_bound(after, radix);
                let total = selection_count(radix, OUTPUT_COUNT as nat);
                vstd::arithmetic::div_mod::lemma_small_mod(selection_rank(after, radix), total);
            }
            return ;
        }
    }
    proof {
        assert(before.take(0) =~= Seq::<usize>::empty());
        let total = selection_count(radix, OUTPUT_COUNT as nat);
        let r0 = selection_rank(before.take(0), radix);
        assert(r0 == 0);
        assert((r0 + 1) * total == total) by (nonlinear_arith)
            requires
                r0 == 0,
        ;
        assert(selection_rank(before, radix) + 1 == total);
        lemma_rank_zero_suffix(perm@, radix, 0);
        assert(perm@.take(0) =~= Seq::<usize>::empty());
        assert(selection_rank(perm@, radix) == 0) by (nonlinear_arith)
            requires
                selection_rank(perm@, radix) == 0 * total,
        ;
        vstd::arithmetic::div_mod::lemma_mod_self_0(total as int);
    }
}

/// The selection that spells a number below `radix^len` has `len` digits below
/// the radix and spells that number: different numbers give different selections.
pub proof fn lemma_rank_of_nth_selection(rank: nat, radix: nat, len: nat)
    requires
        rank < selection_count(radix, len),
        radix <= usize::MAX,
    ensures
        nth_selection(rank, radix, len).len() == len,
        indices_within(nth_selection(rank, radix, len), radix),
        selection_rank(nth_selection(rank, radix, len), radix) == rank,
    decreases len,
{
    if len > 0 {
        let rest = selection_count(radix, (len - 1) as nat);
        let q = rank / radix;
        let d = rank % radix;
        assert(radix > 0 && q < rest && 0 <= d < radix && rank == radix * q + d)
            by (nonlinear_arith)
            requires
                rank < radix * rest,
                q == rank / radix,
                d == rank % radix,
        ;
        lemma_rank_of_nth_selection(rank / radix, radix, (len - 1) as nat);
        let front = nth_selection(rank / radix, radix, (len - 1) as nat);
        let whole = nth_selection(rank, radix, len);
        assert(whole.drop_last() =~= front);
        assert(whole.last() == rank % radix);
        assert(q * radix + d == rank) by (nonlinear_arith)
            requires
                rank == radix * q + d,
        ;
    }
}

/// Every selection whose digits are below the radix is the selection that spells
/// its own rank: the enumeration by rank leaves no selection out.
pub proof fn lemma_nth_selection_of_rank(selection: Seq<usize>, radix: nat)
    requires
        indices_within(selection, radix),
    ensures
        selection_rank(selection, radix) < selection_count(radix, selection.len()),
        nth_selection(selection_rank(selection, radix), radix, selection.len()) == selection,
    decreases selection.len(),
{
    lemma_rank_bound(selection, radix);
    if selection.len() > 0 {
        let front = selection.drop_last();
        let d = selection.last() as nat;
        let r = selection_rank(front, radix);
        lemma_nth_selection_of_rank(front, radix);
        assert(d < radix);
        vstd::arithmetic::div_mod::lemma_fundamental_div_mod_converse(
            (r * radix + d) as int,
            radix as int,
            r as int,
            d as int,
        );
        assert(nth_selection(r * radix + d, radix, selection.len()) =~= selection);
    } else {
        assert(nth_selection(0, radix, 0) =~= selection);
    }
}

/// The decimal digits of `n`, as ASCII.
pub open spec fn decimal(n: nat) -> Seq<u8>
    decreases n,
{
    if n < 10 {
        seq![(48 + n) as u8]
    } else {
        decimal(n / 10).push((48 + n % 10) as u8)
    }
}

/// Appending in two steps appends the joined text.
proof fn lemma_append(head: Seq<u8>, first: Seq<u8>, second: Seq<u8>)
    ensures
        head + first + second == head + (first + second),
{
    assert(head + first + second =~= head + (first + second));
}

/// Appends `text` to `stream`.
fn write_text(stream: &mut Vec<u8>, text: &str)
    ensures
        final(stream)@ == old(stream)@ + text.spec_bytes(),
{
    stream.extend_from_slice(text.as_bytes());
}

/// Appends `n` in decimal to `stream`.
pub fn write_decimal(stream: &mut Vec<u8>, n: usize)
    ensures
        final(stream)@ == old(stream)@ + decimal(n as nat),
    decreases n,
{
    if n >= 10 {
        write_decimal(stream, n / 10);
    }
    let digit = (n % 10) as u8;
    stream.push(48 + digit);
    proof {
        assert(stream@ =~= old(stream)@ + decimal(n as nat));
    }
}

/// The first of 1, 2, 4, ... from `width` on that is at least `count`.
pub open spec fn doubled_until(width: nat, count: nat) -> nat
    decreases
        (if width < count {
            count - width
        } else {
            0
        }),
{
    if width == 0 || width >= count {
        width
    } else {
        doubled_until(2 * width, count)
    }
}

/// The width of the register that holds `count` lanes: the smallest power of two
/// that is at least `count`.
pub open spec fn padded_width(count: nat) -> nat {
    doubled_until(1, count)
}

/// Computes [`padded_width`].
pub fn lane_width(count: usize) -> (r: usize)
    requires
        count <= usize::MAX / 2,
    ensures
        r == padded_width(count as nat),
        r >= count,
{
    let mut width: usize = 1;
    while width < count
        invariant
            1 <= width,
            count <= usize::MAX / 2,
            doubled_until(width as nat, count as nat) == padded_width(count as nat),
        decreases
            (if width < count {
                count - width
            } else {
                0
            }),
    {
        width = width * 2;
    }
    width
}

/// The letter that names the component at `index`: x, y, z, w.
pub open spec fn field_letter(index: usize) -> u8 {
    if index == 0 {
        120
    } else if index == 1 {
        121
    } else if index == 2 {
        122
    } else {
        119
    }
}

/// The name of the accessor for a selection: the letters of the selected
/// components, in order.
pub open spec fn accessor_name(perm: Seq<usize>) -> Seq<u8> {
    Seq::new(perm.len(), |i: int| field_letter(perm[i]))
}

/// Two selections of components of a vector with the same accessor name are the
/// same selection: no two accessors share a name.
pub proof fn lemma_accessor_names_distinct(a: Seq<usize>, b: Seq<usize>)
    requires
        indices_within(a, 4),
        indices_within(b, 4),
        accessor_name(a) == accessor_name(b),
    ensures
        a == b,
{
    assert(a.len() == accessor_name(a).len());
    assert(b.len() == accessor_name(b).len());
    assert forall|i: int| 0 <= i < a.len() implies a[i] == b[i] by {
        assert(accessor_name(a)[i] == field_letter(a[i]));
        assert(accessor_name(b)[i] == field_letter(b[i]));
    }
    assert(a =~= b);
}

/// Appends the name of the accessor for `perm` to `stream`.
pub fn write_accessor_name<const OUTPUT_COUNT: usize>(
    stream: &mut Vec<u8>,
    perm: &[usize; OUTPUT_COUNT],
)
    requires
        indices_within(perm@, 4),
    ensures
        final(stream)@ == old(stream)@ + accessor_name(perm@),
{
    let mut i: usize = 0;
    while i < OUTPUT_COUNT
        invariant
            i <= OUTPUT_COUNT,
            indices_within(perm@, 4),
            stream@ == old(stream)@ + accessor_name(perm@).take(i as int),
        decreases OUTPUT_COUNT - i,
    {
        let f = perm[i];
        let letter: u8 = if f == 0 {
            120
        } else if f == 1 {
            121
        } else if f == 2 {
            122
        } else {
            119
        };
        stream.push(letter);
        proof {
            assert(accessor_name(perm@).take(i + 1) =~= accessor_name(perm@).take(i as int).push(
                letter,
            ));
            assert(stream@ =~= old(stream)@ + accessor_name(perm@).take(i + 1));
        }
        i += 1;
    }
    proof {
        assert(accessor_name(perm@).take(OUTPUT_COUNT as int) =~= accessor_name(perm@));
    }
}

/// The selected indices in decimal, separated by a comma and a space.
pub open spec fn index_list(perm: Seq<usize>) -> Seq<u8>
    decreases perm.len(),
{
    if perm.len() == 0 {
        Seq::empty()
    } else if perm.len() == 1 {
        decimal(perm[0] as nat)
    } else {
        index_list(perm.drop_last()) + ", ".spec_bytes() + decimal(perm.last() as nat)
    }
}

/// `count` times the text that names lane 0 as one more entry of a list.
pub open spec fn zero_fill(count: nat) -> Seq<u8>
    decreases count,
{
    if count == 0 {
        Seq::empty()
    } else {
        zero_fill((count - 1) as nat) + ", 0".spec_bytes()
    }
}

/// The lane list of the gather for a selection: the selected indices, then index 0
/// for each lane by which the result's register is wider than the selection.
pub open spec fn field_list_text(perm: Seq<usize>) -> Seq<u8> {
    index_list(perm) + zero_fill((padded_width(perm.len()) - perm.len()) as nat)
}

/// Appends the lane list for `perm` to `stream`.
pub fn write_field_list<const OUTPUT_COUNT: usize>(
    stream: &mut Vec<u8>,
    perm: &[usize; OUTPUT_COUNT],
)
    requires
        OUTPUT_COUNT <= usize::MAX / 2,
    ensures
        final(stream)@ == old(stream)@ + field_list_text(perm@),
{
    let mut i: usize = 0;
    while i < OUTPUT_COUNT
        invariant
            i <= OUTPUT_COUNT,
            stream@ == old(stream)@ + index_list(perm@.take(i as int)),
        decreases OUTPUT_COUNT - i,
    {
        if i > 0 {
            write_text(stream, ", ");
        }
        write_decimal(stream, perm[i]);
        proof {
            let upto = perm@.take(i + 1);
            assert(upto.drop_last() =~= perm@.take(i as int));
            assert(upto.last() == perm@[i as int]);
            if i == 0 {
                assert(perm@.take(0).len() == 0);
                assert(index_list(perm@.take(0)) =~= Seq::<u8>::empty());
                assert(upto[0] == perm@[0]);
            }
            assert(stream@ =~= old(stream)@ + index_list(upto));
        }
        i += 1;
    }
    let width = lane_width(OUTPUT_COUNT);
    let mut k: usize = OUTPUT_COUNT;
    proof {
        assert(perm@.take(OUTPUT_COUNT as int) =~= perm@);
        assert(stream@ =~= old(stream)@ + index_list(perm@) + zero_fill(0));
    }
    while k < width
        invariant
            OUTPUT_COUNT <= k <= width,
            stream@ == old(stream)@ + index_list(perm@) + zero_fill((k - OUTPUT_COUNT) as nat),
        decreases width - k,
    {
        write_text(stream, ", 0");
        k += 1;
        proof {
            assert(stream@ =~= old(stream)@ + index_list(perm@) + zero_fill(
                (k - OUTPUT_COUNT) as nat,
            ));
        }
    }
    proof {
        assert(stream@ =~= old(stream)@ + field_list_text(perm@));
    }
}

/// The name of the vector type with `output_count` components of the given kind.
pub open spec fn result_type_text(output_count: nat, element_type: Seq<u8>) -> Seq<u8> {
    "Vector".spec_bytes() + decimal(output_count) + element_type
}

/// The source text of the accessor for a selection.
pub open spec fn accessor_text(perm: Seq<usize>, element_type: Seq<u8>) -> Seq<u8> {
    "    #[allow(missing_docs)]\n".spec_bytes() + "    #[inline]\n".spec_bytes()
        + "    pub fn ".spec_bytes() + accessor_name(perm) + "(&self) -> ".spec_bytes()
        + result_type_text(perm.len(), element_type) + " {\n".spec_bytes() + "        ".spec_bytes()
        + result_type_text(perm.len(), element_type)
        + "::from_simd_truncate(simd_swizzle!(self.0, [".spec_bytes() + field_list_text(perm)
        + "]))\n".spec_bytes() + "    }\n".spec_bytes()
}

/// Appends the name of the result type to `stream`.
fn write_result_type(stream: &mut Vec<u8>, output_count: usize, element_type: &str)
    ensures
        final(stream)@ == old(stream)@ + result_type_text(
            output_count as nat,
            element_type.spec_bytes(),
        ),
{
    write_text(stream, "Vector");
    write_decimal(stream, output_count);
    write_text(stream, element_type);
    proof {
        assert(stream@ =~= old(stream)@ + result_type_text(
            output_count as nat,
            element_type.spec_bytes(),
        ));
    }
}

/// Appends the source text of the accessor for `perm` to `stream`.
pub fn write_accessor<const OUTPUT_COUNT: usize>(
    stream: &mut Vec<u8>,
    perm: &[usize; OUTPUT_COUNT],
    element_type: &str,
)
    requires
        OUTPUT_COUNT <= usize::MAX / 2,
        indices_within(perm@, 4),
    ensures
        final(stream)@ == old(stream)@ + accessor_text(perm@, element_type.spec_bytes()),
{
    let ghost before = stream@;
    let ghost result_type = result_type_text(OUTPUT_COUNT as nat, element_type.spec_bytes());
    write_text(stream, "    #[allow(missing_docs)]\n");
    let ghost text = "    #[allow(missing_docs)]\n".spec_bytes();
    write_text(stream, "    #[inline]\n");
    proof {
        lemma_append(before, text, "    #[inline]\n".spec_bytes());
        text = text + "    #[inline]\n".spec_bytes();
    }
    write_text(stream, "    pub fn ");
    proof {
        lemma_append(before, text, "    pub fn ".spec_bytes());
        text = text + "    pub fn ".spec_bytes();
    }
    write_accessor_name(stream, perm);
    proof {
        lemma_append(before, text, accessor_name(perm@));
        text = text + accessor_name(perm@);
    }
    write_text(stream, "(&self) -> ");
    proof {
        lemma_append(before, text, "(&self) -> ".spec_bytes());
        text = text + "(&self) -> ".spec_bytes();
    }
    write_result_type(stream, OUTPUT_COUNT, element_type);
    proof {
        lemma_append(before, text, result_type);
        text = text + result_type;
    }
    write_text(stream, " {\n");
    proof {
        lemma_append(before, text, " {\n".spec_bytes());
        text = text + " {\n".spec_bytes();
    }
    write_text(stream, "        ");
    proof {
        lemma_append(before, text, "        ".spec_bytes());
        text = text + "        ".spec_bytes();
    }
    write_result_type(stream, OUTPUT_COUNT, element_type);
    proof {
        lemma_append(before, text, result_type);
        text = text + result_type;
    }
    write_text(stream, "::from_simd_truncate(simd_swizzle!(self.0, [");
    proof {
        lemma_append(before, text, "::from_simd_truncate(simd_swizzle!(self.0, [".spec_bytes());
        text = text + "::from_simd_truncate(simd_swizzle!(self.0, [".spec_bytes();
    }
    write_field_list(stream, perm);
    proof {
        lemma_append(before, text, field_list_text(perm@));
        text = text + field_list_text(perm@);
    }
    write_text(stream, "]))\n");
    proof {
        lemma_append(before, text, "]))\n".spec_bytes());
        text = text + "]))\n".spec_bytes();
    }
    write_text(stream, "    }\n");
    proof {
        lemma_append(before, text, "    }\n".spec_bytes());
    }
}

/// The source text of the first `count` accessors with `len` components for a type
/// with `radix` components, in the order of their ranks, with an empty line between
/// each two.
pub open spec fn swizzles_text(radix: nat, len: nat, element_type: Seq<u8>, count: nat) -> Seq<u8>
    decreases count,
{
    if count == 0 {
        Seq::empty()
    } else {
        swizzles_text(radix, len, element_type, (count - 1) as nat) + (if count > 1 {
            "\n".spec_bytes()
        } else {
            Seq::empty()
        }) + accessor_text(nth_selection((count - 1) as nat, radix, len), element_type)
    }
}

/// A longer selection has at least as many values as a shorter one.
proof fn lemma_count_monotonic(radix: nat, shorter: nat, longer: nat)
    requires
        radix >= 1,
        shorter <= longer,
    ensures
        1 <= selection_count(radix, shorter) <= selection_count(radix, longer),
    decreases longer,
{
    if longer == 0 {
    } else if shorter == longer {
        lemma_count_monotonic(radix, (shorter - 1) as nat, (longer - 1) as nat);
        let c = selection_count(radix, (longer - 1) as nat);
        assert(1 <= radix * c) by (nonlinear_arith)
            requires
                radix >= 1,
                c >= 1,
        ;
    } else {
        lemma_count_monotonic(radix, shorter, (longer - 1) as nat);
        let c = selection_count(radix, (longer - 1) as nat);
        assert(c <= radix * c) by (nonlinear_arith)
            requires
                radix >= 1,
                c >= 1,
        ;
    }
}

/// With at most four components and at most four output positions there are at
/// most 256 selections.
proof fn lemma_count_small(radix: nat, len: nat)
    requires
        radix <= 4,
        len <= 4,
    ensures
        selection_count(radix, len) <= 256,
{
    reveal_with_fuel(selection_count, 5);
    let a = radix;
    if len == 4 {
        assert(a * (a * (a * (a * 1))) <= 256) by (nonlinear_arith)
            requires
                a <= 4,
        ;
    } else if len == 3 {
        assert(a * (a * (a * 1)) <= 256) by (nonlinear_arith)
            requires
                a <= 4,
        ;
    } else if len == 2 {
        assert(a * (a * 1) <= 256) by (nonlinear_arith)
            requires
                a <= 4,
        ;
    }
}

/// The number of selections of `len` digits in the given radix: `radix^len`.
pub fn perm_count(radix: usize, len: usize) -> (r: usize)
    requires
        selection_count(radix as nat, len as nat) <= usize::MAX,
    ensures
        r == selection_count(radix as nat, len as nat),
{
    let mut r: usize = 1;
    let mut k: usize = 0;
    while k < len
        invariant
            k <= len,
            r == selection_count(radix as nat, k as nat),
            selection_count(radix as nat, len as nat) <= usize::MAX,
        decreases len - k,
    {
        proof {
            if radix >= 1 {
                lemma_count_monotonic(radix as nat, (k + 1) as nat, len as nat);
            }
            assert(selection_count(radix as nat, (k + 1) as nat) == radix * selection_count(
                radix as nat,
                k as nat,
            ));
            assert(radix == 0 ==> radix * r == 0) by (nonlinear_arith);
        }
        r = radix * r;
        k += 1;
    }
    r
}

/// Appends the source text of every accessor with `OUTPUT_COUNT` components for a
/// type with `COMPONENT_COUNT` components whose elements are of the kind that
/// `element_type` names.
pub fn write_swizzles<const COMPONENT_COUNT: usize, const OUTPUT_COUNT: usize>(
    stream: &mut Vec<u8>,
    element_type: &str,
)
    requires
        2 <= COMPONENT_COUNT <= 4,
        2 <= OUTPUT_COUNT <= 4,
    ensures
        final(stream)@ == old(stream)@ + swizzles_text(
            COMPONENT_COUNT as nat,
            OUTPUT_COUNT as nat,
            element_type.spec_bytes(),
            selection_count(COMPONENT_COUNT as nat, OUTPUT_COUNT as nat),
        ),
{
    let ghost radix = COMPONENT_COUNT as nat;
    let ghost len = OUTPUT_COUNT as nat;
    let ghost kind = element_type.spec_bytes();
    let ghost total = selection_count(radix, len);
    let mut perm = [0usize;OUTPUT_COUNT];
    proof {
        lemma_count_small(radix, len);
        lemma_count_monotonic(radix, 0, len);
        lemma_rank_zero_suffix(perm@, radix, 0);
        assert(perm@.take(0) =~= Seq::<usize>::empty());
        let c = selection_count(radix, len);
        assert(selection_rank(perm@, radix) == 0) by (nonlinear_arith)
            requires
                selection_rank(perm@, radix) == 0 * c,
        ;
        lemma_nth_selection_of_rank(perm@, radix);
    }
    let count = perm_count(COMPONENT_COUNT, OUTPUT_COUNT);
    let mut i: usize = 0;
    while i < count
        invariant
            i <= count,
            count == total,
            radix == COMPONENT_COUNT,
            len == OUTPUT_COUNT,
            2 <= COMPONENT_COUNT <= 4,
            2 <= OUTPUT_COUNT <= 4,
            kind == element_type.spec_bytes(),
            total == selection_count(radix, len),
            indices_within(perm@, radix),
            i < count ==> perm@ == nth_selection(i as nat, radix, len),
            stream@ == old(stream)@ + swizzles_text(radix, len, kind, i as nat),
        decreases count - i,
    {
        if i > 0 {
            write_text(stream, "\n");
        }
        write_accessor(stream, &perm, element_type);
        proof {
            assert(stream@ =~= old(stream)@ + swizzles_text(radix, len, kind, (i + 1) as nat));
            lemma_rank_of_nth_selection(i as nat, radix, len);
        }
        next_perm(&mut perm, COMPONENT_COUNT);
        proof {
            if i + 1 < count {
                vstd::arithmetic::div_mod::lemma_small_mod((i + 1) as nat, total);
                lemma_nth_selection_of_rank(perm@, radix);
            }
        }
        i += 1;
    }
}

/// The source text of the block that holds every accessor of one type: those with
/// two, with three and with four components.
pub open spec fn impl_block_text(radix: nat, owner: Seq<u8>, element_type: Seq<u8>) -> Seq<u8> {
    "impl ".spec_bytes() + owner + " {\n".spec_bytes() + swizzles_text(
        radix,
        2,
        element_type,
        selection_count(radix, 2),
    ) + "\n".spec_bytes() + swizzles_text(radix, 3, element_type, selection_count(radix, 3))
        + "\n".spec_bytes() + swizzles_text(radix, 4, element_type, selection_count(radix, 4))
        + "}\n".spec_bytes()
}

/// Appends the block that holds every accessor of the type named by `owner`, which has
/// `COMPONENT_COUNT` components.
pub fn write_impl_block<const COMPONENT_COUNT: usize>(
    stream: &mut Vec<u8>,
    owner: &str,
    element_type: &str,
)
    requires
        2 <= COMPONENT_COUNT <= 4,
    ensures
        final(stream)@ == old(stream)@ + impl_block_text(
            COMPONENT_COUNT as nat,
            owner.spec_bytes(),
            element_type.spec_bytes(),
        ),
{
    let ghost before = stream@;
    let ghost kind = element_type.spec_bytes();
    let ghost radix = COMPONENT_COUNT as nat;
    let ghost two = swizzles_text(radix, 2, kind, selection_count(radix, 2));
    let ghost three = swizzles_text(radix, 3, kind, selection_count(radix, 3));
    let ghost four = swizzles_text(radix, 4, kind, selection_count(radix, 4));
    write_text(stream, "impl ");
    let ghost text = "impl ".spec_bytes();
    write_text(stream, owner);
    proof {
        lemma_append(before, text, owner.spec_bytes());
        text = text + owner.spec_bytes();
    }
    write_text(stream, " {\n");
    proof {
        lemma_append(before, text, " {\n".spec_bytes());
        text = text + " {\n".spec_bytes();
    }
    write_swizzles::<COMPONENT_COUNT, 2>(stream, element_type);
    proof {
        lemma_append(before, text, two);
        text = text + two;
    }
    write_text(stream, "\n");
    proof {
        lemma_append(before, text, "\n".spec_bytes());
        text = text + "\n".spec_bytes();
    }
    write_swizzles::<COMPONENT_COUNT, 3>(stream, element_type);
    proof {
        lemma_append(before, text, three);
        text = text + three;
    }
    write_text(stream, "\n");
    proof {
        lemma_append(before, text, "\n".spec_bytes());
        text = text + "\n".spec_bytes();
    }
    write_swizzles::<COMPONENT_COUNT, 4>(stream, element_type);
    proof {
        lemma_append(before, text, four);
        text = text + four;
    }
    write_text(stream, "}\n");
    proof {
        lemma_append(before, text, "}\n".spec_bytes());
    }
}

/// The whole generated source: one block for each vector type and one for the
/// quaternion, which has four components.
pub open spec fn swizzle_source_text() -> Seq<u8> {
    impl_block_text(2, "Vector2f".spec_bytes(), "f".spec_bytes()) + impl_block_text(
        3,
        "Vector3f".spec_bytes(),
        "f".spec_bytes(),
    ) + impl_block_text(4, "Vector4f".spec_bytes(), "f".spec_bytes()) + impl_block_text(
        2,
        "Vector2i".spec_bytes(),
        "i".spec_bytes(),
    ) + impl_block_text(3, "Vector3i".spec_bytes(), "i".spec_bytes()) + impl_block_text(
        4,
        "Vector4i".spec_bytes(),
        "i".spec_bytes(),
    ) + impl_block_text(4, "Quaternion".spec_bytes(), "f".spec_bytes())
}

/// Appends the whole generated source to `stream`.
pub fn write_swizzle_source(stream: &mut Vec<u8>)
    ensures
        final(stream)@ == old(stream)@ + swizzle_source_text(),
{
    let ghost before = stream@;
    write_impl_block::<2>(stream, "Vector2f", "f");
    let ghost text = impl_block_text(2, "Vector2f".spec_bytes(), "f".spec_bytes());
    write_impl_block::<3>(stream, "Vector3f", "f");
    proof {
        let block = impl_block_text(3, "Vector3f".spec_bytes(), "f".spec_bytes());
        lemma_append(before, text, block);
        text = text + block;
    }
    write_impl_block::<4>(stream, "Vector4f", "f");
    proof {
        let block = impl_block_text(4, "Vector4f".spec_bytes(), "f".spec_bytes());
        lemma_append(before, text, block);
        text = text + block;
    }
    write_impl_block::<2>(stream, "Vector2i", "i");
    proof {
        let block = impl_block_text(2, "Vector2i".spec_bytes(), "i".spec_bytes());
        lemma_append(before, text, block);
        text = text + block;
    }
    write_impl_block::<3>(stream, "Vector3i", "i");
    proof {
        let block = impl_block_text(3, "Vector3i".spec_bytes(), "i".spec_bytes());
        lemma_append(before, text, block);
        text = text + block;
    }
    write_impl_block::<4>(stream, "Vector4i", "i");
    proof {
        let block = impl_block_text(4, "Vector4i".spec_bytes(), "i".spec_bytes());
        lemma_append(before, text, block);
        text = text + block;
    }
    write_impl_block::<4>(stream, "Quaternion", "f");
    proof {
        let block = impl_block_text(4, "Quaternion".spec_bytes(), "f".spec_bytes());
        lemma_append(before, text, block);
    }
}

} // verus!

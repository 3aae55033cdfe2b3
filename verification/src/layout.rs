//! A text as a row of glyphs with blank columns between them.

use vstd::prelude::*;
use vstd::std_specs::iter::IteratorSpec;
use vstd::utf8::{encode_scalar, encode_utf8, is_ascii_chars, is_ascii_chars_encode_utf8};
use crate::font::SPACING;
use crate::resolver::{col_def, glyph};

verus! {

/// The number of entries that a text of `chars` characters takes when `final_sp`
/// blank columns follow it: one glyph per character, one blank column between
/// neighbours, then the padding. An empty text takes none, whatever the padding.
pub open spec fn entry_count(chars: nat, final_sp: nat) -> nat {
    if chars == 0 {
        0
    } else {
        (2 * chars - 1 + final_sp) as nat
    }
}

/// The entries laid out for `text` with `final_sp` blank columns after it: the
/// glyphs stand at the even places, in the order of the characters, and
/// [`SPACING`] everywhere else.
pub open spec fn layout(text: Seq<char>, final_sp: nat) -> Seq<Seq<u8>> {
    Seq::new(
        entry_count(text.len(), final_sp),
        |i: int|
            if i % 2 == 0 && i / 2 < text.len() {
                glyph(text[i / 2])
            } else {
                SPACING@
            },
    )
}

/// The columns that each of `entries` refers to.
pub open spec fn columns_of(entries: Seq<&[u8]>) -> Seq<Seq<u8>> {
    entries.map_values(|entry: &[u8]| entry@)
}

/// The number of bytes in the UTF-8 form of `text`.
pub open spec fn byte_len(text: Seq<char>) -> nat {
    encode_utf8(text).len()
}

/// The buffer size computed for a text of `bytes` bytes and `extra` further entries.
pub open spec fn capacity(bytes: nat, extra: nat) -> int {
    2 * bytes - 1 + extra
}

/// A text has at least as many bytes as characters.
pub proof fn lemma_byte_len_covers_chars(text: Seq<char>)
    ensures
        text.len() <= byte_len(text),
    decreases text.len(),
{
    if text.len() > 0 {
        lemma_byte_len_covers_chars(text.drop_first());
        assert(encode_scalar(text[0] as u32).len() >= 1);
    }
}

/// An empty text is laid out as nothing, whatever padding is asked for.
pub proof fn lemma_empty_text_lays_out_nothing(final_sp: nat)
    ensures
        layout(Seq::<char>::empty(), final_sp) == Seq::<Seq<u8>>::empty(),
{
    assert(layout(Seq::<char>::empty(), final_sp) =~= Seq::<Seq<u8>>::empty());
}

/// In the layout of a text the glyph of its `k`-th character stands at place `2 * k`,
/// and every other place holds [`SPACING`]: the odd places between the glyphs, and
/// all places from `2 * text.len() - 1` on.
pub proof fn lemma_layout_places(text: Seq<char>, final_sp: nat)
    ensures
        layout(text, final_sp).len() == entry_count(text.len(), final_sp),
        forall|k: int| 0 <= k < text.len() ==> #[trigger] layout(text, final_sp)[2 * k] == glyph(text[k]),
        forall|k: int|
            0 <= k < text.len() - 1 ==> #[trigger] layout(text, final_sp)[2 * k + 1] == SPACING@,
        forall|i: int|
            0 <= i && 2 * text.len() - 1 <= i < layout(text, final_sp).len() ==> #[trigger] layout(
                text,
                final_sp,
            )[i] == SPACING@,
{
}

/// A buffer of the size that [`buff_size`] computes holds the whole layout of the
/// text: the size is never less than the number of entries that [`col_defs`] writes.
pub proof fn lemma_capacity_suffices(text: Seq<char>, extra: nat)
    requires
        text.len() > 0,
    ensures
        entry_count(text.len(), extra) <= capacity(byte_len(text), extra),
{
    lemma_byte_len_covers_chars(text);
}

/// For a text of ASCII characters the size that [`buff_size`] computes is exactly the
/// number of entries that [`col_defs`] writes.
pub proof fn lemma_capacity_exact_for_ascii(text: Seq<char>, extra: nat)
    requires
        text.len() > 0,
        is_ascii_chars(text),
    ensures
        byte_len(text) == text.len(),
        entry_count(text.len(), extra) == capacity(byte_len(text), extra),
{
    is_ascii_chars_encode_utf8(text);
}

/// Writes the layout of `text` to the front of `out`: the glyph of each character
/// (see [`col_def`]), [`SPACING`] between two characters, and `final_sp` times
/// [`SPACING`] after the last. For an empty `text` nothing is written.
pub fn col_defs(text: &str, final_sp: usize, out: &mut [&[u8]])
    requires
        entry_count(text@.len(), final_sp as nat) <= old(out)@.len(),
    ensures
        final(out)@.len() == old(out)@.len(),
        columns_of(final(out)@.take(entry_count(text@.len(), final_sp as nat) as int)) == layout(
            text@,
            final_sp as nat,
        ),
        final(out)@.skip(entry_count(text@.len(), final_sp as nat) as int) == old(out)@.skip(
            entry_count(text@.len(), final_sp as nat) as int,
        ),
        text@.len() == 0 ==> final(out)@ == old(out)@,
{
    if text.is_empty() {
        return ;
    }
    let ghost before = out@;
    let ghost want = layout(text@, final_sp as nat);
    let ghost mut done: int = 0;
    let mut ix: usize = 0;
    let mut chars = text.chars();
    let mut c = chars.next();

    loop
        invariant_except_break
            0 <= done < text@.len(),
            c == Some(text@[done]),
            chars.remaining() == text@.skip(done + 1),
            ix == 2 * done,
        invariant
            text@.len() > 0,
            want == layout(text@, final_sp as nat),
            want.len() == 2 * text@.len() - 1 + final_sp,
            want.len() <= out@.len(),
            out@.len() == before.len(),
            forall|i: int| 0 <= i < ix ==> (#[trigger] out@[i])@ == want[i],
            forall|i: int| ix <= i < out@.len() ==> #[trigger] out@[i] == before[i],
        ensures
            ix == 2 * text@.len() - 1,
        decreases text@.len() - done,
    {
        out[ix] = col_def(c.unwrap());
        ix += 1;

        c = chars.next();
        if c.is_none() {
            break ;
        }
        proof {
            assert(text@.skip(done + 1).drop_first() =~= text@.skip(done + 2));
            done = done + 1;
        }
        out[ix] = &SPACING;
        ix += 1;
    }

    for k in 0..final_sp
        invariant
            text@.len() > 0,
            ix == 2 * text@.len() - 1 + k,
            want == layout(text@, final_sp as nat),
            want.len() == 2 * text@.len() - 1 + final_sp,
            want.len() <= out@.len(),
            out@.len() == before.len(),
            forall|i: int| 0 <= i < ix ==> (#[trigger] out@[i])@ == want[i],
            forall|i: int| ix <= i < out@.len() ==> #[trigger] out@[i] == before[i],
    {
        out[ix] = &SPACING;
        ix += 1;
    }
    proof {
        assert(columns_of(out@.take(ix as int)) =~= want);
        assert(out@.skip(ix as int) =~= before.skip(ix as int));
    }
}

/// Computes the buffer size for `text`, with room for `extra` further entries.
/// The size goes by the length of `text` in bytes, not in characters.
pub fn buff_size(text: &str, extra: usize) -> (size: usize)
    requires
        text@.len() > 0,
        capacity(byte_len(text@), extra as nat) <= usize::MAX,
    ensures
        size == capacity(byte_len(text@), extra as nat),
{
    proof {
        lemma_byte_len_covers_chars(text@);
    }
    let len: usize = text.len();
    // Summed in this order, no intermediate value exceeds the result.
    len - 1 + len + extra
}

} // verus!

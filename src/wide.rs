use vstd::prelude::*;
use vstd::slice::slice_to_vec;
use vstd::string::StrSliceExecFns;

verus! {

#[verifier::external_type_specification]
#[verifier::external_body]
#[verifier::reject_recursive_types(T)]
pub struct ExHeaplessVec<T, const N: usize>(heapless::Vec<T, N>);

/// The most UTF-16 code units, terminator included, that a wide string
/// handed to firmware may hold.
pub const WIDE_CAPACITY: usize = 256;

/// The code units that a fixed-capacity buffer holds, in order.
pub uninterp spec fn wide_units(v: heapless::Vec<u16, 256>) -> Seq<u16>;

/// Relies on `heapless::Vec::new`: a new vector holds nothing.
#[verifier::external_body]
fn wide_new() -> (r: heapless::Vec<u16, 256>)
    ensures
        wide_units(r) == Seq::<u16>::empty(),
{
    heapless::Vec::new()
}

/// Relies on `heapless::Vec::push`: while fewer than `N` items are held the
/// item is appended and `Ok` returned; otherwise the vector is left as it
/// was and the item handed back.
#[verifier::external_body]
fn wide_push(v: &mut heapless::Vec<u16, 256>, unit: u16) -> (r: bool)
    ensures
        r == (wide_units(*old(v)).len() < WIDE_CAPACITY),
        r ==> wide_units(*final(v)) == wide_units(*old(v)).push(unit),
        !r ==> wide_units(*final(v)) == wide_units(*old(v)),
{
    match v.push(unit) {
        Ok(()) => true,
        Err(_) => false,
    }
}

/// Relies on `heapless::Vec::as_slice`: the held items, in order.
#[verifier::external_body]
fn wide_slice(v: &heapless::Vec<u16, 256>) -> (r: &[u16])
    ensures
        r@ == wide_units(*v),
{
    v.as_slice()
}

/// The UTF-16 code units of one character: itself below `0x10000`, a
/// surrogate pair above.
pub open spec fn utf16_of_char(c: char) -> Seq<u16> {
    let v = c as int;
    if v < 0x10000 {
        seq![v as u16]
    } else {
        let w = v - 0x10000;
        seq![(0xD800 + w / 0x400) as u16, (0xDC00 + w % 0x400) as u16]
    }
}

/// The UTF-16 code units of a character sequence.
pub open spec fn utf16_of(s: Seq<char>) -> Seq<u16>
    decreases s.len(),
{
    if s.len() == 0 {
        Seq::empty()
    } else {
        utf16_of(s.drop_last()) + utf16_of_char(s.last())
    }
}

proof fn lemma_utf16_concat(a: Seq<char>, b: Seq<char>)
    ensures
        utf16_of(a + b) == utf16_of(a) + utf16_of(b),
    decreases b.len(),
{
    if b.len() == 0 {
        assert(a + b =~= a);
        assert(utf16_of(a) + utf16_of(b) =~= utf16_of(a));
    } else {
        lemma_utf16_concat(a, b.drop_last());
        assert((a + b).drop_last() =~= a + b.drop_last());
        assert(utf16_of(a) + utf16_of(b) =~= utf16_of(a) + utf16_of(b.drop_last())
            + utf16_of_char(b.last()));
    }
}

proof fn lemma_utf16_prefix_len(s: Seq<char>, i: int)
    requires
        0 <= i <= s.len(),
    ensures
        utf16_of(s.subrange(0, i)).len() <= utf16_of(s).len(),
{
    lemma_utf16_concat(s.subrange(0, i), s.subrange(i, s.len() as int));
    assert(s.subrange(0, i) + s.subrange(i, s.len() as int) =~= s);
}

/// The code units of one character.
fn char_units(c: char) -> (r: (u16, Option<u16>))
    ensures
        r.1 is None ==> utf16_of_char(c) == seq![r.0],
        r.1 matches Some(low) ==> utf16_of_char(c) == seq![r.0, low],
{
    let v = c as u32;
    if v < 0x10000 {
        (v as u16, None)
    } else {
        let w = v - 0x10000;
        ((0xD800 + w / 0x400) as u16, Some((0xDC00 + w % 0x400) as u16))
    }
}

/// Encodes `text` as null-terminated UTF-16; `None` when the units and the
/// terminator do not fit the buffer's capacity.
pub fn encode_wide(text: &str) -> (r: Option<heapless::Vec<u16, 256>>)
    ensures
        r is Some <==> utf16_of(text@).len() + 1 <= WIDE_CAPACITY,
        r matches Some(v) ==> wide_units(v) == utf16_of(text@).push(0),
{
    let n = text.unicode_len();
    let mut out = wide_new();
    let mut i: usize = 0;
    while i < n
        invariant
            n == text@.len(),
            i <= n,
            wide_units(out) == utf16_of(text@.subrange(0, i as int)),
        decreases n - i,
    {
        let c = text.get_char(i);
        let (high, low) = char_units(c);
        proof {
            assert(text@.subrange(0, i + 1).drop_last() =~= text@.subrange(0, i as int));
            lemma_utf16_prefix_len(text@, i + 1);
        }
        if !wide_push(&mut out, high) {
            return None;
        }
        match low {
            Some(unit) => {
                if !wide_push(&mut out, unit) {
                    return None;
                }
            },
            None => {},
        }
        proof {
            assert(wide_units(out) =~= utf16_of(text@.subrange(0, i + 1)));
        }
        i = i + 1;
    }
    proof {
        assert(text@.subrange(0, n as int) =~= text@);
    }
    if !wide_push(&mut out, 0) {
        return None;
    }
    Some(out)
}

/// The code units of a wide string, terminator included.
pub fn wide_to_vec(v: &heapless::Vec<u16, 256>) -> (r: Vec<u16>)
    ensures
        r@ == wide_units(*v),
{
    slice_to_vec(wide_slice(v))
}

} // verus!

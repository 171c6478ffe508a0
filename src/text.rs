//! Character-level helpers on strings shared by the editing components.
use vstd::prelude::*;
use vstd::std_specs::iter::IteratorSpec;
use vstd::utf8::{encode_scalar, encode_utf8};

verus! {

broadcast use vstd::string::group_string_axioms;

/// Relies on String::push: appends one character to the end of the string.
#[verifier::external_body]
pub(crate) fn push_char(s: &mut String, c: char)
    ensures
        final(s)@ == old(s)@.push(c),
{
    s.push(c)
}

/// Relies on String::insert: inserts `c` at byte offset `idx`, which must lie
/// on a character boundary (here: the end of the encoding of a prefix).
#[verifier::external_body]
pub(crate) fn insert_at_byte(s: &mut String, idx: usize, c: char)
    requires
        exists|k: int|
            0 <= k <= old(s)@.len() && idx == #[trigger] encode_utf8(old(s)@.take(k)).len(),
    ensures
        forall|k: int|
            0 <= k <= old(s)@.len() && idx == #[trigger] encode_utf8(old(s)@.take(k)).len()
                ==> final(s)@ == old(s)@.insert(k, c),
{
    s.insert(idx, c)
}

/// The characters of `s`, in order.
pub(crate) fn chars_of(s: &str) -> (v: Vec<char>)
    ensures
        v@ == s@,
{
    let mut it = s.chars();
    let mut v: Vec<char> = Vec::new();
    loop
        invariant
            v@ + it.remaining() == s@,
            it.decrease() is Some,
        ensures
            v@ == s@,
        decreases it.decrease()->0,
    {
        match it.next() {
            Some(c) => {
                v.push(c);
            },
            None => {
                assert(v@ == s@);
                break ;
            },
        }
    }
    v
}

/// The string made of `cs[..head]` followed by `cs[tail..]`.
pub(crate) fn join_parts(cs: &Vec<char>, head: usize, tail: usize) -> (r: String)
    requires
        head <= tail <= cs.len(),
    ensures
        r@ == cs@.take(head as int) + cs@.skip(tail as int),
{
    let mut r = String::new();
    let mut i: usize = 0;
    while i < head
        invariant
            i <= head <= cs.len(),
            r@ == cs@.take(i as int),
        decreases head - i,
    {
        push_char(&mut r, cs[i]);
        assert(cs@.take(i as int).push(cs@[i as int]) =~= cs@.take(i as int + 1));
        i += 1;
    }
    let mut j: usize = tail;
    while j < cs.len()
        invariant
            head <= tail <= j <= cs.len(),
            r@ == cs@.take(head as int) + cs@.subrange(tail as int, j as int),
        decreases cs.len() - j,
    {
        push_char(&mut r, cs[j]);
        assert((cs@.take(head as int) + cs@.subrange(tail as int, j as int)).push(cs@[j as int])
            =~= cs@.take(head as int) + cs@.subrange(tail as int, j as int + 1));
        j += 1;
    }
    assert(cs@.subrange(tail as int, cs.len() as int) =~= cs@.skip(tail as int));
    r
}

/// The number of bytes that the UTF-8 encoding of `c` takes.
pub(crate) fn utf8_width(c: char) -> (n: usize)
    ensures
        n == encode_scalar(c as u32).len(),
        1 <= n <= 4,
{
    let u = c as u32;
    if u <= 0x7F {
        1
    } else if u <= 0x7FF {
        2
    } else if u <= 0xFFFF {
        proof {
            vstd::utf8::char_is_scalar(c);
        }
        3
    } else {
        4
    }
}

/// The number of bytes that the first `k` characters of `s` take in UTF-8.
pub(crate) fn byte_offset_of(s: &str, k: usize) -> (r: usize)
    requires
        k <= s@.len(),
    ensures
        r == encode_utf8(s@.take(k as int)).len(),
{
    let cs = chars_of(s);
    let total = s.as_bytes().len();
    let mut i: usize = 0;
    let mut bytes: usize = 0;
    while i < k
        invariant
            cs@ == s@,
            i <= k <= s@.len(),
            bytes == encode_utf8(cs@.take(i as int)).len(),
            total == encode_utf8(cs@).len(),
        decreases k - i,
    {
        proof {
            lemma_encode_take_step(cs@, i as int);
            lemma_encode_prefix_len(cs@, i as int + 1);
        }
        bytes = bytes + utf8_width(cs[i]);
        i = i + 1;
    }
    bytes
}

/// Encoding a concatenation concatenates the encodings.
pub proof fn lemma_encode_concat(a: Seq<char>, b: Seq<char>)
    ensures
        encode_utf8(a + b) == encode_utf8(a) + encode_utf8(b),
    decreases a.len(),
{
    if a.len() == 0 {
        assert(a + b =~= b);
        assert(encode_utf8(a) + encode_utf8(b) =~= encode_utf8(b));
    } else {
        lemma_encode_concat(a.drop_first(), b);
        assert((a + b).drop_first() =~= a.drop_first() + b);
        assert(encode_utf8(a + b) =~= encode_utf8(a) + encode_utf8(b));
    }
}

/// The encoding of a prefix is no longer than the encoding of the whole.
pub proof fn lemma_encode_prefix_len(s: Seq<char>, k: int)
    requires
        0 <= k <= s.len(),
    ensures
        encode_utf8(s.take(k)).len() <= encode_utf8(s).len(),
{
    lemma_encode_concat(s.take(k), s.skip(k));
    assert(s.take(k) + s.skip(k) =~= s);
}

/// The encoding of the first `k + 1` characters adds the encoding of the
/// character at `k` to that of the first `k`.
pub proof fn lemma_encode_take_step(s: Seq<char>, k: int)
    requires
        0 <= k < s.len(),
    ensures
        encode_utf8(s.take(k + 1)).len() == encode_utf8(s.take(k)).len() + encode_scalar(
            s[k] as u32,
        ).len(),
{
    lemma_encode_concat(s.take(k), seq![s[k]]);
    assert(s.take(k) + seq![s[k]] =~= s.take(k + 1));
    vstd::utf8::char_is_scalar(s[k]);
    assert(seq![s[k]].drop_first() =~= Seq::<char>::empty());
    assert(encode_utf8(Seq::<char>::empty()) =~= Seq::<u8>::empty());
    assert(encode_utf8(seq![s[k]]) =~= encode_scalar(s[k] as u32));
}

} // verus!

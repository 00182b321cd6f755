//! Byte-length arithmetic of UTF-8 encoded text, used to convert between
//! character positions and byte offsets.
use vstd::prelude::*;
use vstd::utf8::{char_is_scalar, encode_scalar, encode_utf8};

verus! {

/// Number of bytes that `c` occupies when encoded as UTF-8.
pub open spec fn char_utf8_len(c: char) -> nat {
    let v = c as u32;
    if v < 0x80 {
        1
    } else if v < 0x800 {
        2
    } else if v < 0x10000 {
        3
    } else {
        4
    }
}

/// Number of bytes that the characters `s` occupy when encoded as UTF-8.
pub open spec fn utf8_len(s: Seq<char>) -> nat
    decreases s.len(),
{
    if s.len() == 0 {
        0
    } else {
        utf8_len(s.drop_last()) + char_utf8_len(s.last())
    }
}

/// Byte offset at which the character with index `k` of `s` starts.
pub open spec fn byte_offset(s: Seq<char>, k: int) -> nat {
    utf8_len(s.take(k))
}

/// `b` is the byte offset of a character boundary of `s` (its end included).
pub open spec fn is_boundary(s: Seq<char>, b: int) -> bool {
    exists|k: int| 0 <= k <= s.len() && #[trigger] byte_offset(s, k) == b
}

/// The largest text, in bytes, that a `String` can hold.
pub open spec fn max_text_bytes() -> nat {
    isize::MAX as nat
}

/// `String::push` appends one character; it panics when the text would grow past
/// `isize::MAX` bytes, which `requires` leaves out.
pub assume_specification[ String::push ](string: &mut String, ch: char)
    requires
        utf8_len(old(string)@) + char_utf8_len(ch) <= max_text_bytes(),
    ensures
        final(string)@ == old(string)@.push(ch),
;

/// Returns the number of bytes `c` occupies in UTF-8.
pub fn utf8_width(c: char) -> (w: usize)
    ensures
        w == char_utf8_len(c),
        1 <= w <= 4,
{
    let v = c as u32;
    if v < 0x80 {
        1
    } else if v < 0x800 {
        2
    } else if v < 0x10000 {
        3
    } else {
        4
    }
}

/// The UTF-8 length of a concatenation is the sum of the lengths.
pub proof fn lemma_utf8_len_concat(a: Seq<char>, b: Seq<char>)
    ensures
        utf8_len(a + b) == utf8_len(a) + utf8_len(b),
    decreases b.len(),
{
    if b.len() == 0 {
        assert(a + b =~= a);
    } else {
        lemma_utf8_len_concat(a, b.drop_last());
        assert((a + b).drop_last() =~= a + b.drop_last());
        assert((a + b).last() == b.last());
    }
}

/// Splitting a text at a character index splits its byte length.
pub proof fn lemma_utf8_len_split(s: Seq<char>, k: int)
    requires
        0 <= k <= s.len(),
    ensures
        utf8_len(s) == byte_offset(s, k) + utf8_len(s.skip(k)),
{
    lemma_utf8_len_concat(s.take(k), s.skip(k));
    assert(s.take(k) + s.skip(k) =~= s);
}

/// A text is at least as long in bytes as in characters.
pub proof fn lemma_utf8_len_ge_len(s: Seq<char>)
    ensures
        utf8_len(s) >= s.len(),
    decreases s.len(),
{
    if s.len() > 0 {
        lemma_utf8_len_ge_len(s.drop_last());
    }
}

/// Advancing one character advances the byte offset by that character's width.
pub proof fn lemma_offset_step(s: Seq<char>, k: int)
    requires
        0 <= k < s.len(),
    ensures
        byte_offset(s, k + 1) == byte_offset(s, k) + char_utf8_len(s[k]),
{
    assert(s.take(k + 1).drop_last() =~= s.take(k));
}

/// The byte offset of the end of the text is its byte length.
pub proof fn lemma_offset_end(s: Seq<char>)
    ensures
        byte_offset(s, s.len() as int) == utf8_len(s),
{
    assert(s.take(s.len() as int) =~= s);
}

/// Byte offsets grow strictly with character indices.
pub proof fn lemma_offset_mono(s: Seq<char>, i: int, j: int)
    requires
        0 <= i <= j <= s.len(),
    ensures
        byte_offset(s, i) + (j - i) <= byte_offset(s, j),
        byte_offset(s, j) <= utf8_len(s),
    decreases j - i,
{
    lemma_utf8_len_split(s, j);
    if i < j {
        lemma_offset_mono(s, i, j - 1);
        lemma_offset_step(s, j - 1);
    }
}

/// Distinct character indices have distinct byte offsets.
pub proof fn lemma_offset_injective(s: Seq<char>, i: int, j: int)
    requires
        0 <= i <= s.len(),
        0 <= j <= s.len(),
        byte_offset(s, i) == byte_offset(s, j),
    ensures
        i == j,
{
    if i < j {
        lemma_offset_mono(s, i, j);
    } else if j < i {
        lemma_offset_mono(s, j, i);
    }
}

/// Byte offsets in a text that starts with `p` agree with those in `p`.
pub proof fn lemma_offset_prefix(p: Seq<char>, rest: Seq<char>, k: int)
    requires
        0 <= k <= p.len(),
    ensures
        byte_offset(p + rest, k) == byte_offset(p, k),
{
    assert((p + rest).take(k) =~= p.take(k));
}

/// A single character's byte length is its width.
pub proof fn lemma_utf8_len_single(c: char)
    ensures
        utf8_len(seq![c]) == char_utf8_len(c),
{
    let one = seq![c];
    assert(one.drop_last() =~= Seq::<char>::empty());
    assert(utf8_len(Seq::<char>::empty()) == 0);
    assert(one.last() == c);
}

/// The UTF-8 byte length that `str::len` reports is the one computed here.
pub proof fn lemma_utf8_len_encode(s: Seq<char>)
    ensures
        encode_utf8(s).len() == utf8_len(s),
    decreases s.len(),
{
    if s.len() > 0 {
        lemma_utf8_len_encode(s.drop_first());
        char_is_scalar(s[0]);
        let v = s[0] as u32;
        assert(encode_scalar(v).len() == char_utf8_len(s[0])) by {
            if v <= 0x7f {
            } else if v <= 0x7ff {
            } else if v <= 0xffff {
            } else {
            }
        }
        lemma_utf8_len_concat(seq![s[0]], s.drop_first());
        assert(seq![s[0]] + s.drop_first() =~= s);
        lemma_utf8_len_single(s[0]);
        assert(encode_utf8(s) == encode_scalar(v) + encode_utf8(s.drop_first()));
    }
}

/// Returns the byte length of `s`.
pub fn str_byte_len(s: &str) -> (n: usize)
    requires
        utf8_len(s@) <= max_text_bytes(),
    ensures
        n == utf8_len(s@),
{
    proof {
        lemma_utf8_len_encode(s@);
    }
    s.len()
}

/// Finds the character index whose byte offset in `v` is `b`.
pub fn index_of_byte(v: &Vec<char>, b: usize) -> (k: usize)
    requires
        is_boundary(v@, b as int),
    ensures
        k <= v@.len(),
        byte_offset(v@, k as int) == b,
{
    let ghost m = choose|m: int| 0 <= m <= v@.len() && #[trigger] byte_offset(v@, m) == b;
    let mut k: usize = 0;
    let mut acc: usize = 0;
    assert(v@.take(0) =~= Seq::<char>::empty());
    while acc < b
        invariant
            0 <= m <= v@.len(),
            byte_offset(v@, m) == b,
            k <= m,
            acc == byte_offset(v@, k as int),
            acc <= b,
        decreases b - acc,
    {
        proof {
            if k == m {
                assert(false);
            }
            lemma_offset_step(v@, k as int);
            lemma_offset_mono(v@, k as int + 1, m);
            lemma_offset_mono(v@, 0, k as int);
        }
        let w = utf8_width(v[k]);
        acc = acc + w;
        k = k + 1;
    }
    proof {
        if k < m {
            lemma_offset_mono(v@, k as int + 1, m);
            lemma_offset_step(v@, k as int);
        }
    }
    k
}

/// Whether `a` and `b` hold the same characters.
pub fn same_text(a: &str, b: &str) -> (r: bool)
    ensures
        r == (a@ == b@),
{
    let mut v: Vec<char> = Vec::new();
    for c in it: a.chars()
        invariant
            it.seq() == a@,
            v@ == a@.take(it.index() as int),
    {
        assert(a@.take(it.index() + 1) =~= a@.take(it.index() as int).push(c));
        v.push(c);
    }
    assert(a@.take(a@.len() as int) =~= a@);
    let mut i: usize = 0;
    for c in it: b.chars()
        invariant
            it.seq() == b@,
            i == it.index(),
            i <= v@.len(),
            v@ == a@,
            forall|j: int| 0 <= j < i ==> v@[j] == b@[j],
    {
        if i >= v.len() {
            assert(a@.len() != b@.len());
            return false;
        }
        if v[i] != c {
            assert(a@[i as int] != b@[i as int]);
            return false;
        }
        i += 1;
    }
    if i == v.len() {
        assert(a@ =~= b@);
        true
    } else {
        false
    }
}

} // verus!

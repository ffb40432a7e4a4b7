//! Code-point-aware prefix arithmetic over UTF-8 strings.
use vstd::prelude::*;
use vstd::std_specs::iter::IteratorSpec;
use vstd::utf8::{encode_scalar, encode_utf8, is_char_boundary, valid_utf8};

verus! {

/// Number of bytes in the UTF-8 encoding of `s`.
pub open spec fn utf8_len(s: Seq<char>) -> nat {
    encode_utf8(s).len()
}

/// Number of leading code points on which `a` and `b` agree.
pub open spec fn common_prefix_count(a: Seq<char>, b: Seq<char>) -> nat
    decreases a.len(),
{
    if a.len() == 0 || b.len() == 0 || a[0] != b[0] {
        0
    } else {
        1 + common_prefix_count(a.drop_first(), b.drop_first())
    }
}

/// Byte length of the longest common code-point prefix of `a` and `b`.
pub open spec fn common_prefix_bytes(a: Seq<char>, b: Seq<char>) -> nat {
    utf8_len(a.take(common_prefix_count(a, b) as int))
}

/// Encoding distributes over concatenation.
pub proof fn lemma_encode_concat(x: Seq<char>, y: Seq<char>)
    ensures
        encode_utf8(x + y) == encode_utf8(x) + encode_utf8(y),
    decreases x.len(),
{
    if x.len() == 0 {
        assert(x + y =~= y);
        assert(encode_utf8(x) + encode_utf8(y) =~= encode_utf8(y));
    } else {
        assert((x + y).drop_first() =~= x.drop_first() + y);
        lemma_encode_concat(x.drop_first(), y);
        assert(encode_utf8(x + y) =~= encode_utf8(x) + encode_utf8(y));
    }
}

/// Encoding a prefix yields a prefix of the encoding.
pub proof fn lemma_encode_take(s: Seq<char>, k: int)
    requires
        0 <= k <= s.len(),
    ensures
        encode_utf8(s.take(k)) == encode_utf8(s).take(utf8_len(s.take(k)) as int),
        utf8_len(s.take(k)) <= utf8_len(s),
{
    assert(s =~= s.take(k) + s.skip(k));
    lemma_encode_concat(s.take(k), s.skip(k));
    assert(encode_utf8(s.take(k)) =~= encode_utf8(s).take(utf8_len(s.take(k)) as int));
}

/// The encoding of one more code point adds that code point's width.
pub proof fn lemma_utf8_len_step(s: Seq<char>, i: int)
    requires
        0 <= i < s.len(),
    ensures
        utf8_len(s.take(i + 1)) == utf8_len(s.take(i)) + encode_scalar(s[i] as u32).len(),
{
    assert(s.take(i + 1) =~= s.take(i) + seq![s[i]]);
    lemma_encode_concat(s.take(i), seq![s[i]]);
    lemma_encode_single(s[i]);
}

/// A single code point encodes as its scalar encoding.
pub proof fn lemma_encode_single(c: char)
    ensures
        encode_utf8(seq![c]) == encode_scalar(c as u32),
{
    assert(seq![c].drop_first() =~= Seq::<char>::empty());
    assert(seq![c][0] == c);
    assert(encode_utf8(Seq::<char>::empty()) =~= Seq::<u8>::empty());
    assert(encode_utf8(seq![c]) =~= encode_scalar(c as u32) + Seq::<u8>::empty());
    assert(encode_utf8(seq![c]) =~= encode_scalar(c as u32));
}

/// The byte length of any code-point prefix is a character boundary.
pub proof fn lemma_prefix_is_boundary(s: Seq<char>, k: int)
    requires
        0 <= k <= s.len(),
    ensures
        is_char_boundary(encode_utf8(s), utf8_len(s.take(k)) as int),
    decreases k,
{
    vstd::utf8::encode_utf8_valid_utf8(s);
    if k == 0 {
        assert(s.take(0) =~= Seq::<char>::empty());
    } else {
        vstd::utf8::encode_utf8_first_scalar(s);
        let bytes = encode_utf8(s);
        let rest = s.drop_first();
        assert(vstd::utf8::pop_first_scalar(bytes) =~= encode_utf8(rest));
        lemma_prefix_is_boundary(rest, k - 1);
        assert(s.take(k) =~= seq![s[0]] + rest.take(k - 1));
        lemma_encode_concat(seq![s[0]], rest.take(k - 1));
        lemma_encode_single(s[0]);
        lemma_encode_take(s, k);
        vstd::utf8::char_is_scalar(s[0]);
        assert(utf8_len(s.take(k)) == vstd::utf8::length_of_first_scalar(bytes) + utf8_len(
            rest.take(k - 1),
        ));
        assert(utf8_len(s.take(k)) > 0);
    }
}

/// A count of leading agreeing code points that stops at a mismatch or at the
/// end of either sequence is the common prefix count.
pub proof fn lemma_common_prefix_count(a: Seq<char>, b: Seq<char>, k: int)
    requires
        0 <= k <= a.len(),
        k <= b.len(),
        a.take(k) == b.take(k),
        k == a.len() || k == b.len() || a[k] != b[k],
    ensures
        common_prefix_count(a, b) == k,
    decreases k,
{
    if k > 0 {
        assert(a[0] == a.take(k)[0]);
        assert(b[0] == b.take(k)[0]);
        assert(a.drop_first().take(k - 1) =~= a.take(k).drop_first());
        assert(b.drop_first().take(k - 1) =~= b.take(k).drop_first());
        lemma_common_prefix_count(a.drop_first(), b.drop_first(), k - 1);
    }
}

/// The common prefix count is bounded by both lengths and marks equal prefixes.
pub proof fn lemma_common_prefix_agrees(a: Seq<char>, b: Seq<char>)
    ensures
        common_prefix_count(a, b) <= a.len(),
        common_prefix_count(a, b) <= b.len(),
        a.take(common_prefix_count(a, b) as int) == b.take(common_prefix_count(a, b) as int),
    decreases a.len(),
{
    let k = common_prefix_count(a, b) as int;
    if a.len() == 0 || b.len() == 0 || a[0] != b[0] {
        assert(a.take(0) =~= b.take(0));
    } else {
        lemma_common_prefix_agrees(a.drop_first(), b.drop_first());
        assert(a.take(k) =~= seq![a[0]] + a.drop_first().take(k - 1));
        assert(b.take(k) =~= seq![b[0]] + b.drop_first().take(k - 1));
    }
}

/// The stable-prefix length of two strings falls on a character boundary of
/// both, and the bytes of both strings agree up to it.
pub proof fn law_stable_prefix_is_split_point(a: Seq<char>, b: Seq<char>)
    ensures
        is_char_boundary(encode_utf8(a), common_prefix_bytes(a, b) as int),
        is_char_boundary(encode_utf8(b), common_prefix_bytes(a, b) as int),
        common_prefix_bytes(a, b) == utf8_len(b.take(common_prefix_count(a, b) as int)),
        common_prefix_bytes(a, b) <= utf8_len(a),
        common_prefix_bytes(a, b) <= utf8_len(b),
        encode_utf8(a).take(common_prefix_bytes(a, b) as int) == encode_utf8(b).take(
            common_prefix_bytes(a, b) as int,
        ),
        valid_utf8(encode_utf8(a).take(common_prefix_bytes(a, b) as int)),
{
    let k = common_prefix_count(a, b) as int;
    lemma_common_prefix_agrees(a, b);
    lemma_prefix_is_boundary(a, k);
    lemma_prefix_is_boundary(b, k);
    lemma_encode_take(a, k);
    lemma_encode_take(b, k);
    vstd::utf8::encode_utf8_valid_utf8(a.take(k));
}

/// Number of bytes that `c` takes in UTF-8.
pub fn char_width(c: char) -> (r: usize)
    ensures
        r == encode_scalar(c as u32).len(),
        1 <= r <= 4,
{
    let v = c as u32;
    proof {
        vstd::utf8::char_is_scalar(c);
    }
    if v <= 0x7f {
        1
    } else if v <= 0x7ff {
        2
    } else if v <= 0xffff {
        3
    } else {
        4
    }
}

/// Byte length of the longest common code-point prefix of `a` and `b`.
pub fn stable_prefix_len(a: &str, b: &str) -> (r: usize)
    ensures
        r == common_prefix_bytes(a@, b@),
{
    let a_bytes = a.as_bytes().len();
    let mut ia = a.chars();
    let mut ib = b.chars();
    let ghost mut i: int = 0;
    let mut len: usize = 0;
    proof {
        lemma_encode_take(a@, 0);
    }
    loop
        invariant_except_break
            ia.remaining() == a@.skip(i),
            ib.remaining() == b@.skip(i),
        invariant
            a_bytes == utf8_len(a@),
            0 <= i <= a@.len(),
            i <= b@.len(),
            a@.take(i) == b@.take(i),
            len == utf8_len(a@.take(i)),
        ensures
            common_prefix_count(a@, b@) == i,
            len == utf8_len(a@.take(i)),
        decreases a@.len() - i,
    {
        let ca = ia.next();
        let cb = ib.next();
        match (ca, cb) {
            (Some(x), Some(y)) => {
                assert(x == a@[i]);
                assert(y == b@[i]);
                if x != y {
                    proof {
                        lemma_common_prefix_count(a@, b@, i);
                    }
                    break;
                }
                proof {
                    lemma_utf8_len_step(a@, i);
                    lemma_encode_take(a@, i + 1);
                    assert(a@.take(i + 1) =~= b@.take(i + 1));
                    i = i + 1;
                }
                len = len + char_width(x);
            },
            _ => {
                proof {
                    lemma_common_prefix_count(a@, b@, i);
                }
                break;
            },
        }
    }
    len
}

/// Splitting a valid encoding at a boundary `to` keeps exactly the
/// boundaries at or below `to`.
pub proof fn lemma_boundary_of_head(bytes: Seq<u8>, to: int, at: int)
    requires
        valid_utf8(bytes),
        is_char_boundary(bytes, to),
        0 <= at <= to,
    ensures
        valid_utf8(bytes.take(to)),
        is_char_boundary(bytes.take(to), at) <==> is_char_boundary(bytes, at),
{
    vstd::utf8::valid_utf8_split(bytes, to);
    let head = bytes.take(to);
    assert(head =~= bytes.subrange(0, to));
    if at == to {
        vstd::utf8::is_char_boundary_start_end_of_seq(head);
    } else {
        vstd::utf8::is_char_boundary_iff_not_is_continuation_byte(head, at);
        vstd::utf8::is_char_boundary_iff_not_is_continuation_byte(bytes, at);
    }
}

/// The bytes of `s` from `from` up to `to`, when both offsets fall on
/// character boundaries and `from <= to`; `None` otherwise.
pub fn byte_slice(s: &str, from: usize, to: usize) -> (r: Option<String>)
    ensures
        r is Some <==> from <= to && is_char_boundary(encode_utf8(s@), from as int)
            && is_char_boundary(encode_utf8(s@), to as int),
        r is Some ==> encode_utf8(r->0@) == encode_utf8(s@).subrange(from as int, to as int),
{
    proof {
        vstd::utf8::encode_utf8_valid_utf8(s@);
    }
    if from > to || !s.is_char_boundary(to) {
        return None;
    }
    let (head, _) = s.split_at(to);
    proof {
        lemma_boundary_of_head(encode_utf8(s@), to as int, from as int);
        assert(encode_utf8(head@) =~= encode_utf8(s@).take(to as int));
    }
    if !head.is_char_boundary(from) {
        return None;
    }
    let (_, mid) = head.split_at(from);
    let out = mid.to_owned();
    proof {
        assert(encode_utf8(out@) =~= encode_utf8(s@).subrange(from as int, to as int));
    }
    Some(out)
}

} // verus!

//! Text primitives used by the login flow and the authorization gate:
//! equality of string slices and substring search.
//!
//! The functions on string slices compare the UTF-8 bytes of their
//! arguments, while their contracts are stated over the characters. The
//! lemmas of this module connect the two levels.

use vstd::prelude::*;
use vstd::string::*;
use vstd::utf8::*;

verus! {

/// `needle` occupies the positions `at .. at + needle.len()` of `hay`.
pub open spec fn occurs_at<T>(needle: Seq<T>, hay: Seq<T>, at: int) -> bool {
    &&& 0 <= at
    &&& at + needle.len() <= hay.len()
    &&& hay.subrange(at, at + needle.len()) == needle
}

/// `needle` is a contiguous part of `hay`.
pub open spec fn occurs_in<T>(needle: Seq<T>, hay: Seq<T>) -> bool {
    exists|at: int| occurs_at(needle, hay, at)
}

/// Encoding distributes over concatenation.
pub proof fn lemma_encode_concat(a: Seq<char>, b: Seq<char>)
    ensures
        encode_utf8(a + b) == encode_utf8(a) + encode_utf8(b),
    decreases a.len(),
{
    if a.len() == 0 {
        assert(a + b =~= b);
        assert(encode_utf8(a) + encode_utf8(b) =~= encode_utf8(b));
    } else {
        lemma_encode_concat(a.drop_first(), b);
        assert((a + b).drop_first() =~= a.drop_first() + b);
        assert(encode_utf8(a + b) =~= encode_utf8(a) + encode_utf8(b));
    }
}

/// Two character sequences with the same encoding are the same sequence.
pub proof fn lemma_encode_injective(a: Seq<char>, b: Seq<char>)
    requires
        encode_utf8(a) == encode_utf8(b),
    ensures
        a == b,
{
    encode_utf8_decode_utf8(a);
    encode_utf8_decode_utf8(b);
}

/// The first scalar of `encode_scalar(c) + rest` is `c`, whatever follows it.
proof fn lemma_first_scalar_of_encoded(c: char, rest: Seq<u8>)
    ensures
        valid_first_scalar(encode_scalar(c as u32) + rest),
        decode_first_scalar(encode_scalar(c as u32) + rest) == c as u32,
        length_of_first_scalar(encode_scalar(c as u32) + rest) == encode_scalar(c as u32).len(),
{
    let single = seq![c];
    let head = encode_scalar(c as u32);
    encode_utf8_first_scalar(single);
    assert(encode_utf8(single.drop_first()) =~= Seq::<u8>::empty());
    assert(encode_utf8(single) =~= head);
    let whole = head + rest;
    assert(forall|i: int| 0 <= i < head.len() ==> whole[i] == head[i]);
    assert(1 <= head.len() <= 4);
}

/// Decoding reads an encoded prefix back, and what follows it is itself
/// well-formed.
proof fn lemma_decode_encoded_prefix(prefix: Seq<char>, rest: Seq<u8>)
    requires
        valid_utf8(encode_utf8(prefix) + rest),
    ensures
        valid_utf8(rest),
        decode_utf8(encode_utf8(prefix) + rest) == prefix + decode_utf8(rest),
    decreases prefix.len(),
{
    let whole = encode_utf8(prefix) + rest;
    if prefix.len() == 0 {
        assert(whole =~= rest);
        assert(prefix + decode_utf8(rest) =~= decode_utf8(rest));
    } else {
        let c = prefix[0];
        let tail = prefix.drop_first();
        let head = encode_scalar(c as u32);
        let after = encode_utf8(tail) + rest;
        assert(whole =~= head + after);
        lemma_first_scalar_of_encoded(c, after);
        assert(pop_first_scalar(whole) =~= after);
        lemma_decode_encoded_prefix(tail, rest);
        char_u32_cast(c, c as u32);
        assert(decode_utf8(whole) =~= seq![c] + decode_utf8(after));
        assert(seq![c] + (tail + decode_utf8(rest)) =~= prefix + decode_utf8(rest));
    }
}

/// The first byte of a non-empty well-formed encoding starts a character.
proof fn lemma_first_byte_is_leading(bytes: Seq<u8>)
    requires
        valid_utf8(bytes),
        bytes.len() > 0,
    ensures
        !is_continuation_byte(bytes[0]),
{
}

/// A character sequence occurs in another exactly when its encoding occurs in
/// the other's encoding.
pub proof fn lemma_occurs_in_encoding(needle: Seq<char>, hay: Seq<char>)
    ensures
        occurs_in(needle, hay) <==> occurs_in(encode_utf8(needle), encode_utf8(hay)),
{
    let n = encode_utf8(needle);
    let h = encode_utf8(hay);
    encode_utf8_valid_utf8(needle);
    encode_utf8_valid_utf8(hay);
    if occurs_in(needle, hay) {
        let at = choose|at: int| occurs_at(needle, hay, at);
        let before = hay.subrange(0, at);
        let after = hay.subrange(at + needle.len(), hay.len() as int);
        assert(hay =~= before + needle + after);
        lemma_encode_concat(before + needle, after);
        lemma_encode_concat(before, needle);
        let b = encode_utf8(before);
        assert(h =~= b + n + encode_utf8(after));
        assert(h.subrange(b.len() as int, (b.len() + n.len()) as int) =~= n);
        assert(occurs_at(n, h, b.len() as int));
    }
    if occurs_in(n, h) {
        let at = choose|at: int| occurs_at(n, h, at);
        if needle.len() == 0 {
            assert(hay.subrange(0, 0) =~= needle);
            assert(occurs_at(needle, hay, 0));
        } else {
            encode_utf8_first_scalar(needle);
            assert(n.len() > 0);
            lemma_first_byte_is_leading(n);
            assert(h[at] == h.subrange(at, at + n.len())[0]);
            is_char_boundary_iff_not_is_continuation_byte(h, at);
            valid_utf8_split(h, at);
            decode_utf8_split(h, at);
            let front = h.subrange(0, at);
            let back = h.subrange(at, h.len() as int);
            let rest = back.subrange(n.len() as int, back.len() as int);
            assert(back =~= n + rest);
            lemma_decode_encoded_prefix(needle, rest);
            encode_utf8_decode_utf8(hay);
            let lead = decode_utf8(front);
            assert(hay =~= lead + (needle + decode_utf8(rest)));
            assert(hay.subrange(lead.len() as int, (lead.len() + needle.len()) as int) =~= needle);
            assert(occurs_at(needle, hay, lead.len() as int));
        }
    }
}

/// Whether two byte strings are equal.
pub fn bytes_equal(a: &[u8], b: &[u8]) -> (same: bool)
    ensures
        same == (a@ == b@),
{
    if a.len() != b.len() {
        return false;
    }
    let mut i: usize = 0;
    while i < a.len()
        invariant
            a.len() == b.len(),
            i <= a.len(),
            forall|k: int| 0 <= k < i ==> a@[k] == b@[k],
        decreases a.len() - i,
    {
        if a[i] != b[i] {
            return false;
        }
        i += 1;
    }
    assert(a@ =~= b@);
    true
}

/// Whether `needle` lies in `hay` at byte offset `at`.
pub fn bytes_match_at(hay: &[u8], needle: &[u8], at: usize) -> (found: bool)
    ensures
        found == occurs_at(needle@, hay@, at as int),
{
    if at > hay.len() || needle.len() > hay.len() - at {
        return false;
    }
    let mut i: usize = 0;
    while i < needle.len()
        invariant
            at + needle.len() <= hay.len(),
            i <= needle.len(),
            forall|k: int| 0 <= k < i ==> hay@[at + k] == needle@[k],
        decreases needle.len() - i,
    {
        if hay[at + i] != needle[i] {
            assert(hay@.subrange(at as int, at + needle.len())[i as int] != needle@[i as int]);
            return false;
        }
        i += 1;
    }
    assert(hay@.subrange(at as int, at + needle.len()) =~= needle@);
    true
}

/// Whether `needle` is a contiguous part of `hay`.
pub fn bytes_contain(hay: &[u8], needle: &[u8]) -> (found: bool)
    ensures
        found == occurs_in(needle@, hay@),
{
    if needle.len() > hay.len() {
        return false;
    }
    let last: usize = hay.len() - needle.len();
    let mut at: usize = 0;
    loop
        invariant
            needle.len() <= hay.len(),
            last == hay.len() - needle.len(),
            at <= last,
            forall|k: int| 0 <= k < at ==> !occurs_at(needle@, hay@, k),
        decreases last - at,
    {
        if bytes_match_at(hay, needle, at) {
            return true;
        }
        if at == last {
            return false;
        }
        at += 1;
    }
}

/// Whether two string slices hold the same characters.
pub fn str_equal(a: &str, b: &str) -> (same: bool)
    ensures
        same == (a@ == b@),
{
    let same = bytes_equal(a.as_bytes(), b.as_bytes());
    proof {
        if same {
            lemma_encode_injective(a@, b@);
        }
    }
    same
}

/// Whether `needle` occurs in `hay` as a substring.
pub fn str_contains(hay: &str, needle: &str) -> (found: bool)
    ensures
        found == occurs_in(needle@, hay@),
{
    proof {
        lemma_occurs_in_encoding(needle@, hay@);
    }
    bytes_contain(hay.as_bytes(), needle.as_bytes())
}

} // verus!

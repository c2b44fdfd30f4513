//! Searching and comparing source text.
//!
//! The functions go through the bytes of a text.  What they find is stated of
//! its characters: in UTF-8 one text stands in another byte by byte exactly
//! where it stands in it character by character.
use vstd::prelude::*;
use vstd::string::*;
use vstd::utf8::{
    decode_utf8, decode_utf8_split, encode_utf8, encode_utf8_decode_utf8,
    encode_utf8_first_scalar, encode_utf8_valid_utf8, is_char_boundary,
    is_char_boundary_iff_not_is_continuation_byte, length_of_first_scalar, pop_first_scalar,
    valid_utf8, valid_utf8_split,
};

verus! {

/// The text `needle` stands in the text `hay`, with `at` characters in front
/// of it.
pub open spec fn text_occurs_at(hay: Seq<char>, needle: Seq<char>, at: int) -> bool {
    &&& 0 <= at
    &&& at + needle.len() <= hay.len()
    &&& hay.subrange(at, at + needle.len()) == needle
}

/// The text `needle` stands somewhere in the text `hay`, with regard to case.
pub open spec fn text_occurs_in(hay: Seq<char>, needle: Seq<char>) -> bool {
    exists|at: int| text_occurs_at(hay, needle, at)
}

/// `needle` stands in `hay` at offset `at`.
pub open spec fn occurs_at(hay: Seq<u8>, needle: Seq<u8>, at: int) -> bool {
    &&& 0 <= at
    &&& at + needle.len() <= hay.len()
    &&& hay.subrange(at, at + needle.len()) == needle
}

/// `needle` stands somewhere in `hay`.
pub open spec fn occurs_in(hay: Seq<u8>, needle: Seq<u8>) -> bool {
    exists|at: int| occurs_at(hay, needle, at)
}

/// Whether the first `upto` bytes of `needle` stand in `hay` at offset `at`.
spec fn prefix_matches(hay: Seq<u8>, needle: Seq<u8>, at: int, upto: int) -> bool {
    forall|k: int| 0 <= k < upto ==> hay[at + k] == needle[k]
}

proof fn lemma_full_prefix_occurs(hay: Seq<u8>, needle: Seq<u8>, at: int)
    requires
        0 <= at,
        at + needle.len() <= hay.len(),
        prefix_matches(hay, needle, at, needle.len() as int),
    ensures
        occurs_at(hay, needle, at),
{
    assert(hay.subrange(at, at + needle.len()) =~= needle);
}

proof fn lemma_mismatch_excludes(hay: Seq<u8>, needle: Seq<u8>, at: int, k: int)
    requires
        0 <= at,
        0 <= k < needle.len(),
        at + needle.len() <= hay.len(),
        hay[at + k] != needle[k],
    ensures
        !occurs_at(hay, needle, at),
{
    if occurs_at(hay, needle, at) {
        assert(hay.subrange(at, at + needle.len())[k] == needle[k]);
    }
}

/// The bytes of one text after another are the bytes of the first, then the
/// bytes of the second.
proof fn lemma_encode_concat(a: Seq<char>, b: Seq<char>)
    ensures
        encode_utf8(a + b) == encode_utf8(a) + encode_utf8(b),
    decreases a.len(),
{
    if a.len() == 0 {
        assert(a + b =~= b);
        assert(encode_utf8(a) + encode_utf8(b) =~= encode_utf8(b));
    } else {
        lemma_encode_concat(a.drop_first(), b);
        assert((a + b).drop_first() =~= a.drop_first() + b);
        assert(encode_utf8(a + b) =~= encode_utf8(a) + encode_utf8(b));
    }
}

/// Where the first `upto` bytes of a text are a text themselves, a character
/// ends with them.
proof fn lemma_valid_prefix_is_boundary(whole: Seq<u8>, upto: int)
    requires
        valid_utf8(whole),
        0 <= upto <= whole.len(),
        valid_utf8(whole.subrange(0, upto)),
    ensures
        is_char_boundary(whole, upto),
    decreases whole.len(),
{
    if upto > 0 {
        let prefix = whole.subrange(0, upto);
        let first = length_of_first_scalar(whole);
        assert(prefix[0] == whole[0]);
        assert(length_of_first_scalar(prefix) == first);
        assert(pop_first_scalar(prefix) =~= pop_first_scalar(whole).subrange(0, upto - first));
        lemma_valid_prefix_is_boundary(pop_first_scalar(whole), upto - first);
    }
}

/// One text stands in another byte by byte exactly where it stands in it
/// character by character.
pub proof fn lemma_bytes_and_characters_agree(hay: Seq<char>, needle: Seq<char>)
    ensures
        occurs_in(encode_utf8(hay), encode_utf8(needle)) <==> text_occurs_in(hay, needle),
{
    let bytes = encode_utf8(hay);
    let wanted = encode_utf8(needle);
    encode_utf8_valid_utf8(hay);
    encode_utf8_valid_utf8(needle);
    encode_utf8_decode_utf8(hay);
    encode_utf8_decode_utf8(needle);
    if text_occurs_in(hay, needle) {
        let at = choose|at: int| text_occurs_at(hay, needle, at);
        let front = hay.subrange(0, at);
        let back = hay.subrange(at + needle.len(), hay.len() as int);
        assert(hay =~= front + needle + back);
        lemma_encode_concat(front, needle);
        lemma_encode_concat(front + needle, back);
        let offset = encode_utf8(front).len() as int;
        assert(bytes.subrange(offset, offset + wanted.len()) =~= wanted);
        assert(occurs_at(bytes, wanted, offset));
    }
    if occurs_in(bytes, wanted) {
        let offset = choose|offset: int| occurs_at(bytes, wanted, offset);
        if needle.len() == 0 {
            assert(hay.subrange(0, 0) =~= needle);
            assert(text_occurs_at(hay, needle, 0));
        } else {
            encode_utf8_first_scalar(needle);
            assert(is_char_boundary(wanted, 0));
            is_char_boundary_iff_not_is_continuation_byte(wanted, 0);
            assert(bytes.subrange(offset, offset + wanted.len())[0] == wanted[0]);
            is_char_boundary_iff_not_is_continuation_byte(bytes, offset);
            valid_utf8_split(bytes, offset);
            let head = bytes.subrange(0, offset);
            let rest = bytes.subrange(offset, bytes.len() as int);
            assert(rest.subrange(0, wanted.len() as int) =~= wanted);
            lemma_valid_prefix_is_boundary(rest, wanted.len() as int);
            decode_utf8_split(bytes, offset);
            decode_utf8_split(rest, wanted.len() as int);
            let front = decode_utf8(head);
            let back = decode_utf8(rest.subrange(wanted.len() as int, rest.len() as int));
            assert(hay =~= front + needle + back);
            assert(hay.subrange(front.len() as int, (front.len() + needle.len()) as int) =~= needle);
            assert(text_occurs_at(hay, needle, front.len() as int));
        }
    }
}

/// Whether `needle` matches `hay` at byte offset `at`.
fn matches_at(hay: &[u8], needle: &[u8], at: usize) -> (found: bool)
    requires
        at + needle@.len() <= hay@.len(),
    ensures
        found == occurs_at(hay@, needle@, at as int),
{
    let len: usize = hay.len();
    let mut k: usize = 0;
    while k < needle.len()
        invariant
            k <= needle@.len(),
            len == hay@.len(),
            at + needle@.len() <= hay@.len(),
            prefix_matches(hay@, needle@, at as int, k as int),
        decreases needle@.len() - k,
    {
        if hay[at + k] != needle[k] {
            proof {
                lemma_mismatch_excludes(hay@, needle@, at as int, k as int);
            }
            return false;
        }
        k += 1;
    }
    proof {
        lemma_full_prefix_occurs(hay@, needle@, at as int);
    }
    true
}

/// Whether the text `hay` contains the text `needle`, with regard to case.
pub fn contains(hay: &str, needle: &str) -> (found: bool)
    ensures
        found == text_occurs_in(hay@, needle@),
{
    proof {
        lemma_bytes_and_characters_agree(hay@, needle@);
    }
    let h = hay.as_bytes();
    let n = needle.as_bytes();
    if n.len() > h.len() {
        return false;
    }
    let last: usize = h.len() - n.len();
    let mut at: usize = 0;
    loop
        invariant
            occurs_in(h@, n@) <==> text_occurs_in(hay@, needle@),
            n@.len() <= h@.len(),
            last == h@.len() - n@.len(),
            at <= last,
            forall|j: int| 0 <= j < at ==> !occurs_at(h@, n@, j),
        decreases last - at,
    {
        if matches_at(h, n, at) {
            return true;
        }
        if at == last {
            return false;
        }
        at += 1;
    }
}

/// Whether two texts are the same sequence of characters.
pub fn same_text(a: &str, b: &str) -> (same: bool)
    ensures
        same == (a@ == b@),
{
    let x = a.as_bytes();
    let y = b.as_bytes();
    proof {
        vstd::utf8::encode_utf8_decode_utf8(a@);
        vstd::utf8::encode_utf8_decode_utf8(b@);
    }
    if x.len() != y.len() {
        return false;
    }
    let mut k: usize = 0;
    while k < x.len()
        invariant
            x@ == a.spec_bytes(),
            y@ == b.spec_bytes(),
            x@.len() == y@.len(),
            k <= x@.len(),
            forall|j: int| 0 <= j < k ==> x@[j] == y@[j],
        decreases x@.len() - k,
    {
        if x[k] != y[k] {
            return false;
        }
        k += 1;
    }
    assert(x@ =~= y@);
    true
}

} // verus!

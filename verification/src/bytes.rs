//! Little-endian field decoding from a byte window, and decoding of
//! null-terminated and fixed-width text fields.

use vstd::prelude::*;
use vstd::utf8::decode_utf8;
use vstd::utf8::valid_utf8;

verus! {

/// The little-endian 16-bit value stored at offset `i` of `s`.
pub open spec fn spec_le16(s: Seq<u8>, i: int) -> u16 {
    (s[i] as int + s[i + 1] as int * 0x100) as u16
}

/// The little-endian 32-bit value stored at offset `i` of `s`.
pub open spec fn spec_le32(s: Seq<u8>, i: int) -> u32 {
    (s[i] as int + s[i + 1] as int * 0x100 + s[i + 2] as int * 0x10000 + s[i + 3] as int
        * 0x1000000) as u32
}

/// Reads the little-endian 16-bit field at `off`.
pub fn read_le16(v: &Vec<u8>, off: usize) -> (r: u16)
    requires
        off + 2 <= v@.len(),
    ensures
        r == spec_le16(v@, off as int),
{
    proof {
        vstd::std_specs::vec::axiom_spec_len(v);
    }
    (v[off] as u16) + (v[off + 1] as u16) * 0x100
}

/// Reads the little-endian 32-bit field at `off`.
pub fn read_le32(v: &Vec<u8>, off: usize) -> (r: u32)
    requires
        off + 4 <= v@.len(),
    ensures
        r == spec_le32(v@, off as int),
{
    proof {
        vstd::std_specs::vec::axiom_spec_len(v);
    }
    (v[off] as u32) + (v[off + 1] as u32) * 0x100 + (v[off + 2] as u32) * 0x10000 + (v[off
        + 3] as u32) * 0x1000000
}

/// A byte is ASCII when its high bit is clear.
pub open spec fn is_ascii_byte(b: u8) -> bool {
    b < 0x80
}

/// The character an ASCII byte stands for.
pub open spec fn ascii_char(b: u8) -> char {
    b as char
}

/// A byte that stands for printable text in a fixed-width name field.
pub open spec fn is_text_byte(b: u8) -> bool {
    0x20 <= b <= 0x7e
}

/// The index of the first byte at or after `i` that is not printable text,
/// or `s.len()` when every byte from `i` on is.
pub open spec fn spec_text_end(s: Seq<u8>, i: int) -> int
    decreases s.len() - i,
{
    if i < 0 || i >= s.len() {
        s.len() as int
    } else if !is_text_byte(s[i]) {
        i
    } else {
        spec_text_end(s, i + 1)
    }
}

/// The decoded form of a fixed-width name field: the leading run of printable
/// bytes, truncated at the first null or other non-text byte.
pub open spec fn spec_name_chars(s: Seq<u8>) -> Seq<char> {
    s.take(spec_text_end(s, 0)).map(|_i: int, b: u8| ascii_char(b))
}

/// The first non-text index determines `spec_text_end` uniquely.
pub proof fn lemma_text_end_unique(s: Seq<u8>, i: int, n: int)
    requires
        0 <= i <= n <= s.len(),
        forall|m: int| i <= m < n ==> is_text_byte(s[m]),
        n < s.len() ==> !is_text_byte(s[n]),
    ensures
        spec_text_end(s, i) == n,
    decreases n - i,
{
    if i < n {
        assert(is_text_byte(s[i]));
        lemma_text_end_unique(s, i + 1, n);
    }
}

/// The index of the first null byte at or after `i`, or `s.len()` when there
/// is none.
pub open spec fn spec_null_pos(s: Seq<u8>, i: int) -> int
    decreases s.len() - i,
{
    if i < 0 || i >= s.len() {
        s.len() as int
    } else if s[i] == 0 {
        i
    } else {
        spec_null_pos(s, i + 1)
    }
}

/// The first null index determines `spec_null_pos` uniquely.
pub proof fn lemma_null_pos_unique(s: Seq<u8>, i: int, n: int)
    requires
        0 <= i <= n <= s.len(),
        forall|m: int| i <= m < n ==> s[m] != 0,
        n < s.len() ==> s[n] == 0,
    ensures
        spec_null_pos(s, i) == n,
    decreases n - i,
{
    if i < n {
        assert(s[i] != 0);
        lemma_null_pos_unique(s, i + 1, n);
    }
}

/// Law: a decoded name equals the fixed-width field truncated at its first
/// null byte, whenever every byte before that null is printable text.
pub proof fn lemma_name_truncates_at_null(s: Seq<u8>, n: int)
    requires
        0 <= n < s.len(),
        s[n] == 0,
        forall|m: int| 0 <= m < n ==> is_text_byte(s[m]),
    ensures
        spec_name_chars(s) == s.take(n).map(|_i: int, b: u8| ascii_char(b)),
{
    lemma_text_end_unique(s, 0, n);
}

/// Law: a name field whose bytes are all non-printable decodes to the empty
/// name, never to an error.
pub proof fn lemma_nonprintable_name_empty(s: Seq<u8>)
    requires
        forall|m: int| 0 <= m < s.len() ==> !is_text_byte(s[m]),
    ensures
        spec_name_chars(s) == Seq::<char>::empty(),
{
    lemma_text_end_unique(s, 0, 0);
    assert(spec_name_chars(s) =~= Seq::<char>::empty());
}

/// A null-terminated byte string at `i` decodes when a terminator exists
/// within the window and the bytes before it are valid UTF-8.
pub open spec fn spec_cstr_ok(s: Seq<u8>, i: int) -> bool {
    &&& spec_null_pos(s, i) < s.len()
    &&& valid_utf8(s.subrange(i, spec_null_pos(s, i)))
}

/// The characters of the null-terminated byte string at `i`.
pub open spec fn spec_cstr_chars(s: Seq<u8>, i: int) -> Seq<char> {
    decode_utf8(s.subrange(i, spec_null_pos(s, i)))
}

/// Relies on `String::from_utf8`: it succeeds exactly on the byte vectors
/// that are valid UTF-8, and decodes them to the scalar sequence that the
/// UTF-8 model in vstd gives.
#[verifier::external_body]
pub(crate) fn utf8_to_string(bytes: Vec<u8>) -> (r: Option<String>)
    ensures
        match r {
            Some(s) => valid_utf8(bytes@) && s@ == decode_utf8(bytes@),
            None => !valid_utf8(bytes@),
        },
{
    match String::from_utf8(bytes) {
        Ok(s) => Some(s),
        Err(_) => None,
    }
}

/// An all-ASCII byte sequence is valid UTF-8 and decodes to one character
/// per byte, each character's code point being the byte's value.
pub proof fn lemma_ascii_utf8(s: Seq<u8>)
    requires
        forall|i: int| 0 <= i < s.len() ==> is_ascii_byte(s[i]),
    ensures
        valid_utf8(s),
        decode_utf8(s) == s.map(|_i: int, b: u8| ascii_char(b)),
    decreases s.len(),
{
    if s.len() == 0 {
        assert(decode_utf8(s) =~= s.map(|_i: int, b: u8| ascii_char(b)));
    } else {
        let b = s[0];
        assert(is_ascii_byte(b));
        assert(b & 0x7f == b) by (bit_vector)
            requires
                b < 0x80,
        ;
        assert(vstd::utf8::is_leading_byte_width_1(b));
        assert(vstd::utf8::valid_first_scalar(s));
        assert(vstd::utf8::length_of_first_scalar(s) == 1);
        assert(vstd::utf8::pop_first_scalar(s) =~= s.skip(1));
        lemma_ascii_utf8(s.skip(1));
        assert(vstd::utf8::decode_first_scalar(s) == b as u32);
        assert(((b as u32) as char) == ascii_char(b));
        assert(decode_utf8(s) =~= s.map(|_i: int, b: u8| ascii_char(b)));
    }
}

/// Decodes the `width`-byte fixed name field at `off` of `v`: the leading run
/// of printable bytes, truncated at the first null or other non-text byte.
pub fn decode_name_field(v: &Vec<u8>, off: usize, width: usize) -> (r: String)
    requires
        off + width <= v@.len(),
    ensures
        r@ == spec_name_chars(v@.subrange(off as int, off + width)),
{
    proof {
        vstd::std_specs::vec::axiom_spec_len(v);
    }
    let ghost w = v@.subrange(off as int, off + width);
    let mut buf: Vec<u8> = Vec::new();
    let mut i: usize = 0;
    while i < width
        invariant
            off + width <= v@.len() <= usize::MAX,
            0 <= i <= width,
            w == v@.subrange(off as int, off + width),
            buf@ == w.take(i as int),
            forall|m: int| 0 <= m < i ==> is_text_byte(w[m]),
        decreases width - i,
    {
        let b = v[off + i];
        assert(b == w[i as int]);
        if !(0x20 <= b && b <= 0x7e) {
            proof {
                lemma_text_end_unique(w, 0, i as int);
                lemma_ascii_utf8(buf@);
            }
            let r = match utf8_to_string(buf) {
                Some(s) => s,
                None => String::new(),
            };
            proof {
                assert(r@ =~= spec_name_chars(w));
            }
            return r;
        }
        buf.push(b);
        assert(buf@ =~= w.take(i + 1));
        i += 1;
    }
    proof {
        lemma_text_end_unique(w, 0, width as int);
        lemma_ascii_utf8(buf@);
    }
    let r = match utf8_to_string(buf) {
        Some(s) => s,
        None => String::new(),
    };
    proof {
        assert(r@ =~= spec_name_chars(w));
    }
    r
}

/// Decodes the null-terminated byte string at `off` of `v`, absent when no
/// terminator lies within the window or the bytes before it are not valid
/// UTF-8.
pub fn decode_cstr(v: &Vec<u8>, off: usize) -> (r: Option<String>)
    requires
        off <= v@.len(),
    ensures
        match r {
            Some(s) => spec_cstr_ok(v@, off as int) && s@ == spec_cstr_chars(v@, off as int),
            None => !spec_cstr_ok(v@, off as int),
        },
{
    let n: usize = v.len();
    let mut buf: Vec<u8> = Vec::new();
    let mut i: usize = off;
    while i < n
        invariant
            off <= i <= n == v@.len(),
            buf@ == v@.subrange(off as int, i as int),
            forall|m: int| off <= m < i ==> v@[m] != 0,
        decreases n - i,
    {
        let b = v[i];
        if b == 0 {
            proof {
                lemma_null_pos_unique(v@, off as int, i as int);
            }
            return utf8_to_string(buf);
        }
        buf.push(b);
        assert(buf@ =~= v@.subrange(off as int, i + 1));
        i += 1;
    }
    proof {
        lemma_null_pos_unique(v@, off as int, n as int);
    }
    None
}

} // verus!

//! The header parser: layered, bounds-checked decoding of the executable
//! header chain found at the base of a loaded module's memory.
//!
//! Validation is strict: no field of the extended header is read until the
//! primary header's magic has been checked, and no debug record field is read
//! until every enclosing structure has been validated and found in bounds.
//! Any failed check yields an absent result, never a partial structure.

use vstd::prelude::*;

use crate::bytes::is_ascii_byte;
use crate::bytes::spec_cstr_chars;
use crate::bytes::spec_cstr_ok;
use crate::bytes::spec_le16;
use crate::bytes::spec_le32;
use crate::bytes::spec_name_chars;
use crate::bytes::ascii_char;
use crate::bytes::read_le16;
use crate::bytes::read_le32;

verus! {

/// Magic value of the primary header.
pub const DOS_MAGIC: u16 = 0x5a4d;

/// Byte length of the primary header.
pub const DOS_HEADER_LEN: usize = 64;

/// Offset of the primary header's 4-byte signed offset to the extended header.
pub const E_LFANEW_OFFSET: usize = 60;

/// Magic value of the extended header.
pub const NT_MAGIC: u32 = 0x4550;

/// Byte length of the extended header's fixed-size record: a 4-byte magic,
/// a 20-byte file header and a 240-byte optional header.
pub const NT_HEADERS_LEN: usize = 264;

/// Largest non-negative value of the signed extended-header offset.
pub const MAX_NT_OFFSET: u32 = 0x7fff_ffff;

/// Byte length of one section header.
pub const SECTION_HEADER_LEN: usize = 40;

/// Byte length of a section header's fixed-width name field.
pub const SECTION_NAME_LEN: usize = 8;

/// Byte length of the consumed part of a debug directory entry.
pub const DEBUG_DIRECTORY_ENTRY_LEN: usize = 28;

/// Type tag designating a CodeView debug directory entry.
pub const DEBUG_TYPE_CODEVIEW: u32 = 2;

/// Magic constant opening a CodeView debug record.
pub const CV_SIGNATURE: u32 = 0x5344_5352;

/// Byte length of the debug record's fixed fields: magic, identifier and age.
pub const CV_RECORD_FIXED_LEN: usize = 24;

/// The primary header validates: the window covers it and its magic matches.
pub open spec fn spec_dos_ok(img: Seq<u8>) -> bool {
    img.len() >= DOS_HEADER_LEN && spec_le16(img, 0) == DOS_MAGIC
}

/// The offset to the extended header stored in the primary header, read as an
/// unsigned field; values over `MAX_NT_OFFSET` stand for negative offsets.
pub open spec fn spec_nt_off(img: Seq<u8>) -> int {
    spec_le32(img, E_LFANEW_OFFSET as int) as int
}

/// The extended header validates: the primary header validates, the stated
/// offset is non-negative, the window covers the whole fixed-size record, and
/// its magic matches.
pub open spec fn spec_nt_ok(img: Seq<u8>) -> bool {
    &&& spec_dos_ok(img)
    &&& spec_nt_off(img) <= MAX_NT_OFFSET
    &&& spec_nt_off(img) + NT_HEADERS_LEN <= img.len()
    &&& spec_le32(img, spec_nt_off(img)) == NT_MAGIC
}

/// Number of section headers stated by the extended header.
pub open spec fn spec_section_count(img: Seq<u8>) -> u16 {
    spec_le16(img, spec_nt_off(img) + 6)
}

/// Build timestamp stated by the extended header.
pub open spec fn spec_timestamp(img: Seq<u8>) -> u32 {
    spec_le32(img, spec_nt_off(img) + 8)
}

/// Image size stated by the extended header.
pub open spec fn spec_image_size(img: Seq<u8>) -> u32 {
    spec_le32(img, spec_nt_off(img) + 80)
}

/// Virtual address of the debug directory, from the data-directory table.
pub open spec fn spec_debug_dir_va(img: Seq<u8>) -> u32 {
    spec_le32(img, spec_nt_off(img) + 184)
}

/// The image signature: build timestamp and image size, present exactly when
/// the extended header validates.
pub open spec fn spec_image_id(img: Seq<u8>) -> Option<(u32, u32)> {
    if spec_nt_ok(img) {
        Some((spec_timestamp(img), spec_image_size(img)))
    } else {
        None
    }
}

/// The virtual-memory bias: the debug directory's stated virtual address when
/// the extended header validates, zero otherwise.
pub open spec fn spec_bias(img: Seq<u8>) -> int {
    if spec_nt_ok(img) {
        spec_debug_dir_va(img) as int
    } else {
        0
    }
}

/// Offset of the debug directory entry inside the window.
pub open spec fn spec_debug_entry_off(img: Seq<u8>) -> int {
    spec_bias(img)
}

/// Offset of the debug record, as stated by the debug directory entry.
pub open spec fn spec_cv_raw_off(img: Seq<u8>) -> int {
    spec_le32(img, spec_debug_entry_off(img) + 20) as int
}

/// The debug record validates: the extended header validates, the debug
/// directory entry lies in the window and carries the CodeView type tag, and
/// the record it points at lies in the window and opens with the CodeView
/// magic.
pub open spec fn spec_cv_ok(img: Seq<u8>) -> bool {
    &&& spec_nt_ok(img)
    &&& spec_debug_entry_off(img) + DEBUG_DIRECTORY_ENTRY_LEN <= img.len()
    &&& spec_le32(img, spec_debug_entry_off(img) + 12) == DEBUG_TYPE_CODEVIEW
    &&& spec_cv_raw_off(img) + CV_RECORD_FIXED_LEN <= img.len()
    &&& spec_le32(img, spec_cv_raw_off(img)) == CV_SIGNATURE
}

/// The debug record's 16-byte unique identifier, as stored.
pub open spec fn spec_debug_guid(img: Seq<u8>) -> Seq<u8> {
    img.subrange(spec_cv_raw_off(img) + 4, spec_cv_raw_off(img) + 20)
}

/// The debug record's age counter.
pub open spec fn spec_debug_age(img: Seq<u8>) -> u32 {
    spec_le32(img, spec_cv_raw_off(img) + 20)
}

/// The debug signature: identifier and age, present exactly when the debug
/// record validates.
pub open spec fn spec_debug_id(img: Seq<u8>) -> Option<(Seq<u8>, u32)> {
    if spec_cv_ok(img) {
        Some((spec_debug_guid(img), spec_debug_age(img)))
    } else {
        None
    }
}

/// Offset of the null-terminated debug file name after the fixed fields.
pub open spec fn spec_debug_name_off(img: Seq<u8>) -> int {
    spec_cv_raw_off(img) + CV_RECORD_FIXED_LEN
}

/// The debug file name, present when the debug record validates and the name
/// bytes decode.
pub open spec fn spec_debug_name(img: Seq<u8>) -> Option<Seq<char>> {
    if spec_cv_ok(img) && spec_cstr_ok(img, spec_debug_name_off(img)) {
        Some(spec_cstr_chars(img, spec_debug_name_off(img)))
    } else {
        None
    }
}

/// Offset of the section header array: immediately after the extended
/// header's fixed-size record.
pub open spec fn spec_section_table_off(img: Seq<u8>) -> int {
    spec_nt_off(img) + NT_HEADERS_LEN
}

/// Number of section headers that can be read: the stated count, clamped to
/// the headers that lie wholly inside the window; zero when the extended
/// header does not validate.
pub open spec fn spec_section_limit(img: Seq<u8>) -> int {
    if spec_nt_ok(img) {
        let avail = (img.len() - spec_section_table_off(img)) / SECTION_HEADER_LEN as int;
        if spec_section_count(img) <= avail {
            spec_section_count(img) as int
        } else {
            avail
        }
    } else {
        0
    }
}

/// Offset of section header `i`.
pub open spec fn spec_section_off(img: Seq<u8>, i: int) -> int {
    spec_section_table_off(img) + SECTION_HEADER_LEN * i
}

/// The raw fixed-width name field of section `i`.
pub open spec fn spec_section_name_bytes(img: Seq<u8>, i: int) -> Seq<u8> {
    img.subrange(spec_section_off(img, i), spec_section_off(img, i) + SECTION_NAME_LEN)
}

/// The decoded name of section `i`.
pub open spec fn spec_section_name(img: Seq<u8>, i: int) -> Seq<char> {
    spec_name_chars(spec_section_name_bytes(img, i))
}

/// Stated virtual address of section `i`.
pub open spec fn spec_section_va(img: Seq<u8>, i: int) -> u32 {
    spec_le32(img, spec_section_off(img, i) + 12)
}

/// Stated raw size of section `i`.
pub open spec fn spec_section_size(img: Seq<u8>, i: int) -> u32 {
    spec_le32(img, spec_section_off(img, i) + 16)
}

/// The bytes of the conventional code-section name.
pub open spec fn spec_code_name_bytes() -> Seq<u8> {
    seq![0x2eu8, 0x74u8, 0x65u8, 0x78u8, 0x74u8]
}

/// The characters of the conventional code-section name.
pub open spec fn spec_code_name_chars() -> Seq<char> {
    spec_code_name_bytes().map(|_i: int, b: u8| ascii_char(b))
}

/// Section `i` is a code section: its decoded name is the conventional
/// code-section name.
pub open spec fn spec_section_is_code(img: Seq<u8>, i: int) -> bool {
    spec_section_name(img, i) == spec_code_name_chars()
}

/// The section headers counted by `spec_section_limit` lie wholly inside the
/// window, and the limit never exceeds the largest storable section count.
pub proof fn lemma_section_limit_bounds(img: Seq<u8>)
    ensures
        0 <= spec_section_limit(img) <= 0xffff,
        spec_nt_ok(img) ==> spec_section_table_off(img) + SECTION_HEADER_LEN
            * spec_section_limit(img) <= img.len(),
{
    if spec_nt_ok(img) {
        let t = spec_section_table_off(img);
        let x = img.len() - t;
        let d = SECTION_HEADER_LEN as int;
        let avail = x / d;
        vstd::arithmetic::div_mod::lemma_fundamental_div_mod(x, d);
        vstd::arithmetic::div_mod::lemma_mod_bound(x, d);
        vstd::arithmetic::div_mod::lemma_div_is_ordered(0, x, d);
        let limit = spec_section_limit(img);
        vstd::arithmetic::mul::lemma_mul_inequality(limit, avail, d);
    }
}

/// Law (restricted): a module whose validated section table names the
/// conventional code section has, among the segments a full walk yields, one
/// whose code flag is set. The unrestricted form — that every module a live
/// process maps has such a section — is a fact about live processes that no
/// property of the bytes alone can supply, so it is left to its premise here.
pub proof fn lemma_code_segment_present(img: Seq<u8>, i: int)
    requires
        0 <= i < spec_section_limit(img),
        spec_section_is_code(img, i),
    ensures
        exists|j: int| 0 <= j < spec_section_limit(img) && spec_section_is_code(img, j),
{
}

/// Law: both identity fingerprints, the debug name and the bias are functions
/// of the module's bytes alone, so repeated retrieval over an unchanged
/// module returns equal values every time within one process run.
pub proof fn lemma_identity_stable(a: Seq<u8>, b: Seq<u8>)
    requires
        a == b,
    ensures
        spec_image_id(a) == spec_image_id(b),
        spec_debug_id(a) == spec_debug_id(b),
        spec_debug_name(a) == spec_debug_name(b),
        spec_bias(a) == spec_bias(b),
{
}

/// Law: when the extended header does not validate, every dependent accessor
/// is absent: no image signature, no debug signature, no debug name, a zero
/// bias, and an empty segment sequence.
pub proof fn lemma_invalid_extended_header(img: Seq<u8>)
    requires
        !spec_nt_ok(img),
    ensures
        spec_image_id(img) is None,
        spec_debug_id(img) is None,
        spec_debug_name(img) is None,
        spec_bias(img) == 0,
        spec_section_limit(img) == 0,
{
}

/// Law: when the primary header's magic does not match, every dependent
/// accessor is absent, never a crash or a garbage value.
pub proof fn lemma_invalid_primary_header(img: Seq<u8>)
    requires
        !spec_dos_ok(img),
    ensures
        spec_image_id(img) is None,
        spec_debug_id(img) is None,
        spec_debug_name(img) is None,
        spec_bias(img) == 0,
        spec_section_limit(img) == 0,
{
    lemma_invalid_extended_header(img);
}

/// The conventional code-section name decodes to the string `.text`.
pub proof fn lemma_code_name()
    ensures
        spec_code_name_chars() == ".text"@,
{
    reveal_strlit(".text");
    assert(spec_code_name_chars() =~= ".text"@);
}

/// The validated primary header.
pub struct DosHeader {
    /// The matched magic value.
    pub e_magic: u16,
    /// Stated offset to the extended header, as stored.
    pub e_lfanew: u32,
}

/// The consumed fields of a validated extended header.
pub struct NtHeaders {
    /// Offset of the extended header inside the window.
    pub nt_offset: usize,
    /// Number of section headers stated by the file header.
    pub section_count: u16,
    /// Build timestamp.
    pub timestamp: u32,
    /// Stated size of the mapped image.
    pub size_of_image: u32,
    /// Virtual address of the debug directory.
    pub debug_directory_va: u32,
}

/// The fixed fields of a validated CodeView debug record.
pub struct CodeViewRecord {
    /// The 16-byte unique identifier, as stored.
    pub guid: Vec<u8>,
    /// The age counter.
    pub age: u32,
    /// Offset of the null-terminated file name that follows the fixed fields.
    pub name_offset: usize,
}

/// Reads and validates the primary header at the base of the window.
pub fn parse_dos_header(img: &Vec<u8>) -> (r: Option<DosHeader>)
    ensures
        match r {
            Some(h) => spec_dos_ok(img@) && h.e_magic == DOS_MAGIC && h.e_lfanew == spec_le32(
                img@,
                E_LFANEW_OFFSET as int,
            ),
            None => !spec_dos_ok(img@),
        },
{
    if img.len() < DOS_HEADER_LEN {
        return None;
    }
    let magic = read_le16(img, 0);
    if magic != DOS_MAGIC {
        return None;
    }
    Some(DosHeader { e_magic: magic, e_lfanew: read_le32(img, E_LFANEW_OFFSET) })
}

/// Reads and validates the extended header, then its consumed fields.
pub fn parse_nt_headers(img: &Vec<u8>) -> (r: Option<NtHeaders>)
    ensures
        match r {
            Some(h) => {
                &&& spec_nt_ok(img@)
                &&& h.nt_offset == spec_nt_off(img@)
                &&& h.section_count == spec_section_count(img@)
                &&& h.timestamp == spec_timestamp(img@)
                &&& h.size_of_image == spec_image_size(img@)
                &&& h.debug_directory_va == spec_debug_dir_va(img@)
            },
            None => !spec_nt_ok(img@),
        },
{
    let dos = match parse_dos_header(img) {
        Some(d) => d,
        None => {
            return None;
        },
    };
    if dos.e_lfanew > MAX_NT_OFFSET {
        return None;
    }
    let nt = dos.e_lfanew as usize;
    let n: usize = img.len();
    if n < NT_HEADERS_LEN || nt > n - NT_HEADERS_LEN {
        return None;
    }
    if read_le32(img, nt) != NT_MAGIC {
        return None;
    }
    Some(
        NtHeaders {
            nt_offset: nt,
            section_count: read_le16(img, nt + 6),
            timestamp: read_le32(img, nt + 8),
            size_of_image: read_le32(img, nt + 80),
            debug_directory_va: read_le32(img, nt + 184),
        },
    )
}

/// Reads and validates the debug directory entry and the CodeView debug
/// record it points at.
pub fn parse_codeview_record(img: &Vec<u8>) -> (r: Option<CodeViewRecord>)
    ensures
        match r {
            Some(c) => {
                &&& spec_cv_ok(img@)
                &&& c.guid@ == spec_debug_guid(img@)
                &&& c.age == spec_debug_age(img@)
                &&& c.name_offset == spec_debug_name_off(img@)
            },
            None => !spec_cv_ok(img@),
        },
{
    let nt = match parse_nt_headers(img) {
        Some(h) => h,
        None => {
            return None;
        },
    };
    let n: usize = img.len();
    let dd = nt.debug_directory_va as usize;
    if n < DEBUG_DIRECTORY_ENTRY_LEN || dd > n - DEBUG_DIRECTORY_ENTRY_LEN {
        return None;
    }
    if read_le32(img, dd + 12) != DEBUG_TYPE_CODEVIEW {
        return None;
    }
    let raw = read_le32(img, dd + 20) as usize;
    if n < CV_RECORD_FIXED_LEN || raw > n - CV_RECORD_FIXED_LEN {
        return None;
    }
    if read_le32(img, raw) != CV_SIGNATURE {
        return None;
    }
    let mut guid: Vec<u8> = Vec::new();
    let mut i: usize = 0;
    while i < 16
        invariant
            0 <= i <= 16,
            raw + CV_RECORD_FIXED_LEN <= n == img@.len(),
            guid@ == img@.subrange(raw + 4, raw + 4 + i),
        decreases 16 - i,
    {
        guid.push(img[raw + 4 + i]);
        assert(guid@ =~= img@.subrange(raw + 4, raw + 4 + i + 1));
        i += 1;
    }
    proof {
        assert(guid@ =~= spec_debug_guid(img@));
    }
    Some(CodeViewRecord { guid, age: read_le32(img, raw + 20), name_offset: raw + CV_RECORD_FIXED_LEN })
}

} // verus!

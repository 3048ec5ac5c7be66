//! The Windows backend: module handles over a mapped byte window, segment
//! iteration over the section header array, identity extraction, and the
//! module enumerator over a snapshot of the OS's live-module list.
//!
//! The OS queries themselves (module list, paths, memory state, pinning) are
//! performed by the embedding program, which hands their plain results in as
//! a snapshot of candidates; everything from there on is verified.

use vstd::prelude::*;
use vstd::string::StringExecFns;

use crate::Bias;
use crate::SharedLibraryId;
use crate::Svma;
use crate::bytes::decode_cstr;
use crate::bytes::decode_name_field;
use crate::bytes::spec_name_chars;
use crate::pe::CodeViewRecord;
use crate::pe::DosHeader;
use crate::pe::NtHeaders;
use crate::pe::NT_HEADERS_LEN;
use crate::pe::SECTION_HEADER_LEN;
use crate::pe::SECTION_NAME_LEN;
use crate::pe::lemma_code_name;
use crate::pe::lemma_section_limit_bounds;
use crate::pe::parse_codeview_record;
use crate::pe::parse_dos_header;
use crate::pe::parse_nt_headers;
use crate::pe::spec_bias;
use crate::pe::spec_code_name_chars;
use crate::pe::spec_debug_name;
use crate::pe::spec_debug_id;
use crate::pe::spec_image_id;
use crate::pe::spec_nt_ok;
use crate::pe::spec_section_limit;
use crate::pe::spec_section_off;
use crate::pe::spec_section_table_off;
use crate::bytes::spec_le32;

verus! {

/// A read-only projection over one section header of a module's window.
pub struct Segment<'a> {
    /// The module's mapped bytes.
    pub image: &'a Vec<u8>,
    /// Offset of this segment's section header inside the window.
    pub offset: usize,
}

impl<'a> Segment<'a> {
    /// The section header lies wholly inside the window.
    pub open spec fn wf(&self) -> bool {
        self.offset + SECTION_HEADER_LEN <= self.image@.len()
    }

    /// The raw bytes of this segment's fixed-width name field.
    pub open spec fn spec_name_bytes(&self) -> Seq<u8> {
        self.image@.subrange(self.offset as int, self.offset + SECTION_NAME_LEN)
    }

    /// The segment's name: the fixed-width field, truncated at its first
    /// null or other non-text byte.
    pub fn name(&self) -> (r: String)
        requires
            self.wf(),
        ensures
            r@ == spec_name_chars(self.spec_name_bytes()),
    {
        decode_name_field(self.image, self.offset, SECTION_NAME_LEN)
    }

    /// Whether this segment holds code: its decoded name equals the
    /// conventional code-section name.
    pub fn is_code(&self) -> (r: bool)
        requires
            self.wf(),
        ensures
            r == (spec_name_chars(self.spec_name_bytes()) == spec_code_name_chars()),
    {
        let name = self.name();
        let code = String::from_str(".text");
        proof {
            lemma_code_name();
        }
        name == code
    }

    /// The virtual address stated in the section header.
    pub fn stated_virtual_memory_address(&self) -> (r: Svma)
        requires
            self.wf(),
        ensures
            r.0 == spec_le32(self.image@, self.offset + 12) as usize,
    {
        proof {
            vstd::std_specs::vec::axiom_spec_len(self.image);
        }
        let va = crate::bytes::read_le32(self.image, self.offset + 12);
        Svma(va as usize)
    }

    /// The raw size stated in the section header.
    pub fn len(&self) -> (r: usize)
        requires
            self.wf(),
        ensures
            r == spec_le32(self.image@, self.offset + 16) as usize,
    {
        proof {
            vstd::std_specs::vec::axiom_spec_len(self.image);
        }
        let sz = crate::bytes::read_le32(self.image, self.offset + 16);
        sz as usize
    }
}

/// A lazy, finite walk over a module's section header array, one segment at a
/// time from a fresh cursor.
pub struct SegmentIter<'a> {
    /// The module's mapped bytes.
    pub image: &'a Vec<u8>,
    /// Offset of the section header array.
    pub table_offset: usize,
    /// Number of section headers that will be yielded.
    pub limit: usize,
    /// Index of the next section header to yield.
    pub index: usize,
}

impl<'a> SegmentIter<'a> {
    /// The cursor stays within the validated part of the section table.
    pub open spec fn wf(&self) -> bool {
        &&& self.limit == spec_section_limit(self.image@)
        &&& self.index <= self.limit
        &&& self.limit > 0 ==> self.table_offset == spec_section_table_off(self.image@)
    }

    /// Yields the next segment, or nothing once the validated section headers
    /// are exhausted.
    pub fn next(&mut self) -> (r: Option<Segment<'a>>)
        requires
            old(self).wf(),
        ensures
            final(self).wf(),
            final(self).image == old(self).image,
            final(self).table_offset == old(self).table_offset,
            final(self).limit == old(self).limit,
            old(self).index < old(self).limit ==> {
                &&& final(self).index == old(self).index + 1
                &&& r matches Some(s) && s.image == old(self).image && s.wf() && s.offset
                    == spec_section_off(old(self).image@, old(self).index as int)
            },
            old(self).index >= old(self).limit ==> r is None && final(self).index == old(
                self,
            ).index,
    {
        if self.index >= self.limit {
            return None;
        }
        proof {
            lemma_section_limit_bounds(self.image@);
            vstd::arithmetic::mul::lemma_mul_inequality(
                self.index as int,
                self.limit as int,
                SECTION_HEADER_LEN as int,
            );
            vstd::arithmetic::mul::lemma_mul_inequality(
                self.index + 1,
                self.limit as int,
                SECTION_HEADER_LEN as int,
            );
        }
        let off = self.table_offset + SECTION_HEADER_LEN * self.index;
        self.index = self.index + 1;
        Some(Segment { image: self.image, offset: off })
    }
}

/// A handle to one loaded module: its load address, its mapped bytes, and its
/// file path. Every accessor reinterprets the bytes afresh; nothing is cached
/// across calls.
pub struct SharedLibrary {
    /// The module's load address (opaque, process-local).
    pub module_base: usize,
    /// The module's mapped memory window.
    pub image: Vec<u8>,
    /// The module's file path.
    pub module_name: String,
}

impl SharedLibrary {
    /// Builds a handle from the OS-reported location and path of a module.
    pub fn new(module_base: usize, image: Vec<u8>, module_name: String) -> (r: SharedLibrary)
        ensures
            r.module_base == module_base,
            r.image@ == image@,
            r.module_name@ == module_name@,
    {
        SharedLibrary { module_base, image, module_name }
    }

    /// The module's load address.
    pub fn module_base(&self) -> (r: usize)
        ensures
            r == self.module_base,
    {
        self.module_base
    }

    /// The validated primary header, absent when its magic does not match.
    pub fn dos_header(&self) -> (r: Option<DosHeader>)
        ensures
            r is Some <==> crate::pe::spec_dos_ok(self.image@),
            r matches Some(h) ==> h.e_magic == crate::pe::DOS_MAGIC && h.e_lfanew == spec_le32(
                self.image@,
                60,
            ),
    {
        parse_dos_header(&self.image)
    }

    /// The validated extended header, absent when any layer fails.
    pub fn nt_headers(&self) -> (r: Option<NtHeaders>)
        ensures
            r is Some <==> spec_nt_ok(self.image@),
            r matches Some(h) ==> {
                &&& h.nt_offset == crate::pe::spec_nt_off(self.image@)
                &&& h.section_count == crate::pe::spec_section_count(self.image@)
                &&& h.timestamp == crate::pe::spec_timestamp(self.image@)
                &&& h.size_of_image == crate::pe::spec_image_size(self.image@)
                &&& h.debug_directory_va == crate::pe::spec_debug_dir_va(self.image@)
            },
    {
        parse_nt_headers(&self.image)
    }

    /// The validated CodeView debug record, absent when any layer fails.
    pub fn codeview_record70(&self) -> (r: Option<CodeViewRecord>)
        ensures
            r is Some <==> crate::pe::spec_cv_ok(self.image@),
            r matches Some(c) ==> {
                &&& c.guid@ == crate::pe::spec_debug_guid(self.image@)
                &&& c.age == crate::pe::spec_debug_age(self.image@)
                &&& c.name_offset == crate::pe::spec_debug_name_off(self.image@)
            },
    {
        parse_codeview_record(&self.image)
    }

    /// The module's file path, as the OS reported it.
    pub fn name(&self) -> (r: &String)
        ensures
            r@ == self.module_name@,
    {
        &self.module_name
    }

    /// The debug-information file name from the debug record, absent exactly
    /// when the record or its name bytes do not validate.
    pub fn debug_name(&self) -> (r: Option<String>)
        ensures
            match r {
                Some(s) => spec_debug_name(self.image@) == Some(s@),
                None => spec_debug_name(self.image@) is None,
            },
    {
        let cv = match self.codeview_record70() {
            Some(c) => c,
            None => {
                return None;
            },
        };
        decode_cstr(&self.image, cv.name_offset)
    }

    /// The image signature, present exactly when the extended header
    /// validates.
    pub fn id(&self) -> (r: Option<SharedLibraryId>)
        ensures
            match r {
                Some(id) => id matches SharedLibraryId::PeSignature(t, sz) && spec_image_id(
                    self.image@,
                ) == Some((t, sz)),
                None => spec_image_id(self.image@) is None,
            },
    {
        match self.nt_headers() {
            Some(h) => Some(SharedLibraryId::PeSignature(h.timestamp, h.size_of_image)),
            None => None,
        }
    }

    /// The debug signature, present exactly when the debug record validates.
    pub fn debug_id(&self) -> (r: Option<SharedLibraryId>)
        ensures
            match r {
                Some(id) => id matches SharedLibraryId::PdbSignature(g, a) && g@.len() == 16
                    && spec_debug_id(self.image@) == Some((g@, a)),
                None => spec_debug_id(self.image@) is None,
            },
    {
        match self.codeview_record70() {
            Some(c) => Some(SharedLibraryId::PdbSignature(c.guid, c.age)),
            None => None,
        }
    }

    /// A fresh cursor over the module's section headers; empty when the
    /// extended header does not validate.
    pub fn segments(&self) -> (r: SegmentIter<'_>)
        ensures
            r.wf(),
            r.image@ == self.image@,
            r.index == 0,
            r.limit == spec_section_limit(self.image@),
    {
        match self.nt_headers() {
            None => SegmentIter { image: &self.image, table_offset: 0, limit: 0, index: 0 },
            Some(h) => {
                let table = h.nt_offset + NT_HEADERS_LEN;
                let avail = (self.image.len() - table) / SECTION_HEADER_LEN;
                let count = h.section_count as usize;
                let limit = if count <= avail {
                    count
                } else {
                    avail
                };
                SegmentIter { image: &self.image, table_offset: table, limit, index: 0 }
            },
        }
    }

    /// The virtual-memory bias for the debug-lookup path: the debug
    /// directory's stated virtual address, or zero when the extended header
    /// does not validate.
    pub fn virtual_memory_bias(&self) -> (r: Bias)
        ensures
            r.0 == spec_bias(self.image@),
    {
        match self.nt_headers() {
            Some(h) => Bias(h.debug_directory_va as i64),
            None => Bias(0),
        }
    }
}

/// The OS-reported location of one module.
pub struct ModuleRecord {
    /// The load address (opaque, process-local).
    pub base: usize,
    /// The module's mapped memory window.
    pub image: Vec<u8>,
}

/// One candidate from the OS's live-module list, as the per-module queries
/// reported it. An absent field marks a query that failed.
pub struct ModuleCandidate {
    /// The module's file path; absent when the path query failed.
    pub path: Option<String>,
    /// Base address and mapped memory; absent when the metadata query failed.
    pub record: Option<ModuleRecord>,
    /// Whether the memory region at the base address is actually committed.
    pub committed: bool,
}

/// A candidate is inspected only when its path and metadata queries succeeded
/// and its memory is committed; any other candidate is skipped, never aborting
/// the whole enumeration.
pub open spec fn spec_eligible(c: ModuleCandidate) -> bool {
    c.path is Some && c.record is Some && c.committed
}

/// Index of the first eligible candidate of `s`, or `s.len()` when none is.
pub open spec fn spec_first_eligible(s: Seq<ModuleCandidate>) -> int
    decreases s.len(),
{
    if s.len() == 0 {
        0
    } else if spec_eligible(s[0]) {
        0
    } else {
        1 + spec_first_eligible(s.skip(1))
    }
}

/// Number of eligible candidates of `s`: the number of callback invocations
/// an unbroken enumeration over `s` makes.
pub open spec fn spec_eligible_count(s: Seq<ModuleCandidate>) -> int
    decreases s.len(),
{
    if s.len() == 0 {
        0
    } else {
        (if spec_eligible(s[0]) {
            1int
        } else {
            0int
        }) + spec_eligible_count(s.skip(1))
    }
}

/// The eligible candidates of `s` in order: the modules an unbroken
/// enumeration over `s` hands to its caller.
pub open spec fn spec_yielded(s: Seq<ModuleCandidate>) -> Seq<ModuleCandidate>
    decreases s.len(),
{
    if s.len() == 0 {
        Seq::empty()
    } else if spec_eligible(s[0]) {
        seq![s[0]] + spec_yielded(s.skip(1))
    } else {
        spec_yielded(s.skip(1))
    }
}

/// A prefix of ineligible candidates followed by an eligible one (or by the
/// end) determines `spec_first_eligible` exactly.
pub proof fn lemma_first_eligible_unique(s: Seq<ModuleCandidate>, n: int)
    requires
        0 <= n <= s.len(),
        forall|m: int| 0 <= m < n ==> !spec_eligible(s[m]),
        n < s.len() ==> spec_eligible(s[n]),
    ensures
        spec_first_eligible(s) == n,
    decreases n,
{
    if n > 0 {
        assert(!spec_eligible(s[0]));
        lemma_first_eligible_unique(s.skip(1), n - 1);
    }
}

/// Law: enumeration is a function of the snapshot alone, so two passes over
/// an unchanged module set behave alike. An unbroken pass hands over exactly
/// the eligible candidates, in snapshot order — `spec_eligible_count(s)` of
/// them — and each yield consumes the queue up to and including exactly one
/// eligible candidate, so a pass broken on its k-th yield has handed over
/// exactly the first k of them.
pub proof fn lemma_enumeration_order(s: Seq<ModuleCandidate>)
    ensures
        spec_eligible_count(s) >= 0,
        spec_yielded(s).len() == spec_eligible_count(s),
        0 <= spec_first_eligible(s) <= s.len(),
        forall|m: int| 0 <= m < spec_first_eligible(s) ==> !spec_eligible(s[m]),
        spec_first_eligible(s) == s.len() ==> spec_eligible_count(s) == 0,
        spec_first_eligible(s) < s.len() ==> {
            &&& spec_eligible(s[spec_first_eligible(s)])
            &&& spec_yielded(s) == seq![s[spec_first_eligible(s)]] + spec_yielded(
                s.skip(spec_first_eligible(s) + 1),
            )
            &&& spec_eligible_count(s) == 1 + spec_eligible_count(
                s.skip(spec_first_eligible(s) + 1),
            )
        },
    decreases s.len(),
{
    if s.len() == 0 {
    } else if spec_eligible(s[0]) {
        lemma_enumeration_order(s.skip(1));
    } else {
        lemma_enumeration_order(s.skip(1));
        let t = s.skip(1);
        let j = spec_first_eligible(t);
        assert(spec_first_eligible(s) == 1 + j);
        assert(forall|m: int| 0 <= m < 1 + j ==> !spec_eligible(#[trigger] s[m])) by {
            assert(forall|m: int| 1 <= m < 1 + j ==> s[m] == t[m - 1]);
        }
        if j < t.len() {
            assert(t.skip(j + 1) =~= s.skip(1 + j + 1));
        }
    }
}

/// Walks a snapshot of the OS's live-module list, handing out a module handle
/// for each eligible candidate in order. A caller breaks the enumeration by
/// calling `stop`, after which no further module is yielded.
pub struct ModuleEnumerator {
    /// Candidates not yet visited, front first.
    pub pending: Vec<ModuleCandidate>,
    /// Set once the caller has signalled a break.
    pub stopped: bool,
}

impl ModuleEnumerator {
    /// Starts an enumeration over a snapshot of the live-module list. An
    /// absent snapshot — the OS refused to report the list — enumerates
    /// nothing, indistinguishable from a process with no eligible modules.
    pub fn new(snapshot: Option<Vec<ModuleCandidate>>) -> (r: ModuleEnumerator)
        ensures
            !r.stopped,
            match snapshot {
                Some(v) => r.pending@ == v@,
                None => r.pending@.len() == 0,
            },
    {
        match snapshot {
            Some(v) => ModuleEnumerator { pending: v, stopped: false },
            None => ModuleEnumerator { pending: Vec::new(), stopped: false },
        }
    }

    /// Yields a handle to the next eligible module, consuming the queue up to
    /// and including that candidate; yields nothing once the queue holds no
    /// eligible candidate or the enumeration was stopped.
    pub fn next_module(&mut self) -> (r: Option<SharedLibrary>)
        ensures
            final(self).stopped == old(self).stopped,
            old(self).stopped ==> r is None && final(self).pending@ == old(self).pending@,
            !old(self).stopped ==> ({
                let q = old(self).pending@;
                let j = spec_first_eligible(q);
                &&& (j < q.len() ==> {
                    &&& final(self).pending@ == q.skip(j + 1)
                    &&& r matches Some(lib) && lib.module_base == q[j].record->0.base
                        && lib.image@ == q[j].record->0.image@
                        && lib.module_name@ == q[j].path->0@
                })
                &&& (j == q.len() ==> r is None && final(self).pending@.len() == 0)
            }),
    {
        if self.stopped {
            return None;
        }
        let ghost q = self.pending@;
        let ghost mut k: int = 0;
        loop
            invariant
                !old(self).stopped,
                !self.stopped,
                q == old(self).pending@,
                0 <= k <= q.len(),
                self.pending@ == q.skip(k),
                forall|m: int| 0 <= m < k ==> !spec_eligible(q[m]),
            decreases q.len() - k,
        {
            if self.pending.len() == 0 {
                proof {
                    lemma_first_eligible_unique(q, q.len() as int);
                }
                return None;
            }
            let c = self.pending.remove(0);
            proof {
                assert(c == q[k]);
                assert(self.pending@ =~= q.skip(k + 1));
            }
            let committed = c.committed;
            match (c.path, c.record) {
                (Some(path), Some(rec)) => {
                    if committed {
                        proof {
                            lemma_first_eligible_unique(q, k);
                        }
                        return Some(SharedLibrary::new(rec.base, rec.image, path));
                    }
                },
                _ => {},
            }
            proof {
                k = k + 1;
            }
        }
    }

    /// Signals a break: no module after the current one is yielded.
    pub fn stop(&mut self)
        ensures
            final(self).stopped,
            final(self).pending@ == old(self).pending@,
    {
        self.stopped = true;
    }
}

/// A module handle carries exactly the fields of the candidate it was built
/// from.
pub open spec fn spec_matches(lib: SharedLibrary, c: ModuleCandidate) -> bool {
    &&& c.path is Some && c.record is Some
    &&& lib.module_base == c.record->0.base
    &&& lib.image@ == c.record->0.image@
    &&& lib.module_name@ == c.path->0@
}

/// Runs one unbroken enumeration to completion: the result holds one handle
/// per eligible candidate of the snapshot, in snapshot order, so an unbroken
/// pass makes exactly `spec_eligible_count` callback invocations whatever the
/// snapshot's size.
pub fn collect_modules(snapshot: Option<Vec<ModuleCandidate>>) -> (libs: Vec<SharedLibrary>)
    ensures
        match snapshot {
            Some(v) => {
                &&& libs@.len() == spec_eligible_count(v@)
                &&& forall|i: int|
                    0 <= i < libs@.len() ==> spec_matches(libs@[i], spec_yielded(v@)[i])
            },
            None => libs@.len() == 0,
        },
{
    let mut e = ModuleEnumerator::new(snapshot);
    let ghost q0 = e.pending@;
    let mut libs: Vec<SharedLibrary> = Vec::new();
    let ghost mut done: Seq<ModuleCandidate> = Seq::empty();
    loop
        invariant
            !e.stopped,
            match snapshot {
                Some(v) => q0 == v@,
                None => q0.len() == 0,
            },
            libs@.len() == done.len(),
            forall|i: int| 0 <= i < done.len() ==> spec_matches(libs@[i], done[i]),
            spec_yielded(q0) == done + spec_yielded(e.pending@),
        decreases spec_eligible_count(e.pending@),
    {
        proof {
            lemma_enumeration_order(e.pending@);
        }
        let ghost before = e.pending@;
        match e.next_module() {
            None => {
                proof {
                    assert(spec_yielded(before).len() == 0);
                    assert(spec_yielded(before) =~= Seq::<ModuleCandidate>::empty());
                    assert(spec_yielded(q0) =~= done);
                    lemma_enumeration_order(q0);
                }
                return libs;
            },
            Some(lib) => {
                proof {
                    let j = spec_first_eligible(before);
                    assert(spec_matches(lib, before[j]));
                    done = done + seq![before[j]];
                    assert(spec_yielded(q0) =~= done + spec_yielded(e.pending@));
                }
                libs.push(lib);
            },
        }
    }
}

} // verus!

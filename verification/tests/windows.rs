use findshlibs::windows::{ModuleCandidate, ModuleEnumerator, ModuleRecord, SharedLibrary};
use findshlibs::{Bias, SharedLibraryId, Svma};

fn put_u16(v: &mut Vec<u8>, off: usize, x: u16) {
    v[off] = x as u8;
    v[off + 1] = (x >> 8) as u8;
}

fn put_u32(v: &mut Vec<u8>, off: usize, x: u32) {
    v[off] = x as u8;
    v[off + 1] = (x >> 8) as u8;
    v[off + 2] = (x >> 16) as u8;
    v[off + 3] = (x >> 24) as u8;
}

const NT: usize = 64;
const SECTION_TABLE: usize = NT + 264;
const DEBUG_DIR: usize = 2048;
const DEBUG_RECORD: usize = 2200;

fn base_image(section_count: u16, timestamp: u32, image_size: u32) -> Vec<u8> {
    let mut v = vec![0u8; 4096];
    put_u16(&mut v, 0, 0x5a4d);
    put_u32(&mut v, 60, NT as u32);
    put_u32(&mut v, NT, 0x4550);
    put_u16(&mut v, NT + 6, section_count);
    put_u32(&mut v, NT + 8, timestamp);
    put_u32(&mut v, NT + 80, image_size);
    v
}

fn add_section(v: &mut Vec<u8>, idx: usize, name: &[u8], va: u32, size: u32) {
    let off = SECTION_TABLE + 40 * idx;
    for (i, b) in name.iter().enumerate() {
        v[off + i] = *b;
    }
    put_u32(v, off + 12, va);
    put_u32(v, off + 16, size);
}

fn add_debug(v: &mut Vec<u8>, guid: [u8; 16], age: u32, name: &[u8]) {
    put_u32(v, NT + 184, DEBUG_DIR as u32);
    put_u32(v, DEBUG_DIR + 12, 2);
    put_u32(v, DEBUG_DIR + 20, DEBUG_RECORD as u32);
    put_u32(v, DEBUG_RECORD, 0x53445352);
    for i in 0..16 {
        v[DEBUG_RECORD + 4 + i] = guid[i];
    }
    put_u32(v, DEBUG_RECORD + 20, age);
    for (i, b) in name.iter().enumerate() {
        v[DEBUG_RECORD + 24 + i] = *b;
    }
}

const GUID: [u8; 16] = [0, 1, 2, 3, 4, 5, 6, 7, 8, 9, 10, 11, 12, 13, 14, 15];

fn full_image() -> Vec<u8> {
    let mut v = base_image(2, 0x11223344, 0x00556677);
    add_section(&mut v, 0, b".text", 0x1000, 0x200);
    add_section(&mut v, 1, b".data", 0x2000, 0x100);
    add_debug(&mut v, GUID, 7, b"module.pdb");
    v
}

fn candidate(name: &str) -> ModuleCandidate {
    ModuleCandidate {
        path: Some(String::from(name)),
        record: Some(ModuleRecord { base: 0x40_0000, image: full_image() }),
        committed: true,
    }
}

fn snapshot(n: usize) -> Vec<ModuleCandidate> {
    let mut v = Vec::new();
    for i in 0..n {
        v.push(candidate(&format!("module{}.dll", i)));
    }
    v
}

fn count_all(mut e: ModuleEnumerator) -> usize {
    let mut count = 0;
    while let Some(_lib) = e.next_module() {
        count += 1;
    }
    count
}

#[test]
fn can_break() {
    let mut first_count = 0;
    let mut e = ModuleEnumerator::new(Some(snapshot(5)));
    while let Some(_lib) = e.next_module() {
        first_count += 1;
    }
    assert!(first_count > 2);

    let mut second_count = 0;
    let mut e = ModuleEnumerator::new(Some(snapshot(5)));
    while let Some(_lib) = e.next_module() {
        second_count += 1;
        if second_count == first_count - 1 {
            e.stop();
        }
    }
    assert_eq!(second_count, first_count - 1);
}

#[test]
fn get_name() {
    let mut e = ModuleEnumerator::new(Some(snapshot(3)));
    while let Some(shlib) = e.next_module() {
        let _ = shlib.name();
        assert!(shlib.debug_name().is_some());
    }
}

#[test]
fn have_code() {
    let mut e = ModuleEnumerator::new(Some(snapshot(3)));
    while let Some(shlib) = e.next_module() {
        println!("shlib = {:?}", shlib.name());

        let mut found_code = false;
        let mut segs = shlib.segments();
        while let Some(seg) = segs.next() {
            println!("    segment = {:?}", seg.name());
            if seg.is_code() {
                found_code = true;
            }
        }
        assert!(found_code);
    }
}

#[test]
fn get_id() {
    let mut e = ModuleEnumerator::new(Some(snapshot(3)));
    while let Some(shlib) = e.next_module() {
        assert!(shlib.id().is_some());
        assert!(shlib.debug_id().is_some());
    }
}

#[test]
fn five_modules_scenario() {
    // A full pass over five resident modules makes five callback invocations.
    assert_eq!(count_all(ModuleEnumerator::new(Some(snapshot(5)))), 5);

    // A pass that breaks on the fourth invocation makes exactly four.
    let mut e = ModuleEnumerator::new(Some(snapshot(5)));
    let mut count = 0;
    while let Some(_lib) = e.next_module() {
        count += 1;
        if count == 4 {
            e.stop();
        }
    }
    assert_eq!(count, 4);

    // Corrupting one module's extended-header magic empties its segments and
    // identities while the other modules are unaffected.
    let mut snap = snapshot(5);
    if let Some(rec) = snap[2].record.as_mut() {
        put_u32(&mut rec.image, NT, 0xdeadbeef);
    }
    let mut e = ModuleEnumerator::new(Some(snap));
    let mut seen = 0;
    while let Some(shlib) = e.next_module() {
        if seen == 2 {
            assert!(shlib.id().is_none());
            assert!(shlib.debug_id().is_none());
            assert!(shlib.debug_name().is_none());
            assert_eq!(shlib.virtual_memory_bias(), Bias(0));
            let mut segs = shlib.segments();
            assert!(segs.next().is_none());
        } else {
            assert!(shlib.id().is_some());
            assert!(shlib.debug_id().is_some());
            let mut segs = shlib.segments();
            assert!(segs.next().is_some());
        }
        seen += 1;
    }
    assert_eq!(seen, 5);
}

#[test]
fn skips_failed_and_uncommitted_candidates() {
    let mut snap = Vec::new();
    snap.push(ModuleCandidate {
        path: None,
        record: Some(ModuleRecord { base: 1, image: full_image() }),
        committed: true,
    });
    snap.push(candidate("a.dll"));
    snap.push(ModuleCandidate { path: Some(String::from("b.dll")), record: None, committed: true });
    snap.push(ModuleCandidate {
        path: Some(String::from("c.dll")),
        record: Some(ModuleRecord { base: 3, image: full_image() }),
        committed: false,
    });
    snap.push(candidate("d.dll"));
    let mut e = ModuleEnumerator::new(Some(snap));
    let mut names = Vec::new();
    while let Some(shlib) = e.next_module() {
        names.push(shlib.name().clone());
    }
    assert_eq!(names, vec![String::from("a.dll"), String::from("d.dll")]);
}

#[test]
fn failed_module_list_enumerates_nothing() {
    // The OS refusing to report the module list terminates silently.
    assert_eq!(count_all(ModuleEnumerator::new(None)), 0);
    assert_eq!(count_all(ModuleEnumerator::new(Some(Vec::new()))), 0);
}

#[test]
fn id_values_are_exact() {
    let lib = SharedLibrary::new(0x40_0000, full_image(), String::from("m.dll"));
    assert_eq!(lib.id(), Some(SharedLibraryId::PeSignature(0x11223344, 0x00556677)));
    assert_eq!(lib.debug_id(), Some(SharedLibraryId::PdbSignature(GUID.to_vec(), 7)));
    assert_eq!(lib.debug_name(), Some(String::from("module.pdb")));
    assert_eq!(lib.virtual_memory_bias(), Bias(DEBUG_DIR as i64));
    assert_eq!(lib.module_base(), 0x40_0000);
    assert_eq!(lib.name().as_str(), "m.dll");
}

#[test]
fn repeated_identity_calls_agree() {
    let lib = SharedLibrary::new(0, full_image(), String::from("m.dll"));
    assert_eq!(lib.id(), lib.id());
    assert_eq!(lib.debug_id(), lib.debug_id());
    assert_eq!(lib.debug_name(), lib.debug_name());
}

#[test]
fn segment_fields_are_exact() {
    let lib = SharedLibrary::new(0, full_image(), String::from("m.dll"));
    let mut segs = lib.segments();
    let text = segs.next().unwrap();
    assert_eq!(text.name(), ".text");
    assert!(text.is_code());
    assert_eq!(text.stated_virtual_memory_address(), Svma(0x1000));
    assert_eq!(text.len(), 0x200);
    let data = segs.next().unwrap();
    assert_eq!(data.name(), ".data");
    assert!(!data.is_code());
    assert_eq!(data.stated_virtual_memory_address(), Svma(0x2000));
    assert_eq!(data.len(), 0x100);
    assert!(segs.next().is_none());
}

#[test]
fn section_names_truncate_at_first_null() {
    let mut v = base_image(3, 1, 2);
    add_section(&mut v, 0, b"abc\0de", 0, 0);
    add_section(&mut v, 1, b"12345678", 0, 0);
    add_section(&mut v, 2, &[1, 2, 3, 4, 5, 6, 7, 8], 0, 0);
    let lib = SharedLibrary::new(0, v, String::from("m.dll"));
    let mut segs = lib.segments();
    // Truncated at the first null byte.
    assert_eq!(segs.next().unwrap().name(), "abc");
    // A full-width name has no terminator at all.
    assert_eq!(segs.next().unwrap().name(), "12345678");
    // All non-printable bytes decode to an empty name, not an error.
    assert_eq!(segs.next().unwrap().name(), "");
}

#[test]
fn bad_primary_header_magic_yields_absence() {
    let mut v = full_image();
    put_u16(&mut v, 0, 0x4d5a);
    let lib = SharedLibrary::new(0, v, String::from("m.dll"));
    assert!(lib.dos_header().is_none());
    assert!(lib.nt_headers().is_none());
    assert!(lib.id().is_none());
    assert!(lib.debug_id().is_none());
    assert!(lib.debug_name().is_none());
    assert_eq!(lib.virtual_memory_bias(), Bias(0));
    let mut segs = lib.segments();
    assert!(segs.next().is_none());
}

#[test]
fn short_window_yields_absence() {
    let lib = SharedLibrary::new(0, vec![0x4d, 0x5a], String::from("m.dll"));
    assert!(lib.dos_header().is_none());
    assert!(lib.id().is_none());
}

#[test]
fn negative_extended_header_offset_is_rejected() {
    let mut v = full_image();
    put_u32(&mut v, 60, 0x8000_0040);
    let lib = SharedLibrary::new(0, v, String::from("m.dll"));
    assert!(lib.dos_header().is_some());
    assert!(lib.nt_headers().is_none());
    assert!(lib.id().is_none());
}

#[test]
fn extended_header_offset_out_of_bounds_is_rejected() {
    let mut v = full_image();
    put_u32(&mut v, 60, 4096 - 100);
    let lib = SharedLibrary::new(0, v, String::from("m.dll"));
    assert!(lib.nt_headers().is_none());
}

#[test]
fn section_table_is_clamped_to_the_window() {
    let mut v = base_image(10, 1, 2);
    add_section(&mut v, 0, b".text", 0, 0);
    add_section(&mut v, 1, b".data", 0, 0);
    v.truncate(SECTION_TABLE + 2 * 40);
    let lib = SharedLibrary::new(0, v, String::from("m.dll"));
    let mut segs = lib.segments();
    let mut n = 0;
    while let Some(_seg) = segs.next() {
        n += 1;
    }
    assert_eq!(n, 2);
}

#[test]
fn wrong_debug_type_tag_yields_no_debug_identity() {
    let mut v = full_image();
    put_u32(&mut v, DEBUG_DIR + 12, 1);
    let lib = SharedLibrary::new(0, v, String::from("m.dll"));
    assert!(lib.id().is_some());
    assert!(lib.debug_id().is_none());
    assert!(lib.debug_name().is_none());
}

#[test]
fn wrong_debug_record_magic_yields_no_debug_identity() {
    let mut v = full_image();
    put_u32(&mut v, DEBUG_RECORD, 0x5344_5353);
    let lib = SharedLibrary::new(0, v, String::from("m.dll"));
    assert!(lib.id().is_some());
    assert!(lib.debug_id().is_none());
}

#[test]
fn debug_record_out_of_bounds_yields_no_debug_identity() {
    let mut v = full_image();
    put_u32(&mut v, DEBUG_DIR + 20, 4096 - 8);
    let lib = SharedLibrary::new(0, v, String::from("m.dll"));
    assert!(lib.id().is_some());
    assert!(lib.debug_id().is_none());
}

#[test]
fn unterminated_debug_name_is_absent() {
    let mut v = full_image();
    for i in DEBUG_RECORD + 24..4096 {
        v[i] = b'a';
    }
    let lib = SharedLibrary::new(0, v, String::from("m.dll"));
    assert!(lib.debug_id().is_some());
    assert!(lib.debug_name().is_none());
}

#[test]
fn invalid_utf8_debug_name_is_absent() {
    let mut v = full_image();
    v[DEBUG_RECORD + 24] = 0xff;
    let lib = SharedLibrary::new(0, v, String::from("m.dll"));
    assert!(lib.debug_id().is_some());
    assert!(lib.debug_name().is_none());
}

#[test]
fn non_ascii_utf8_debug_name_is_kept() {
    let mut v = full_image();
    let name = "lib\u{e9}.pdb".as_bytes();
    for (i, b) in name.iter().enumerate() {
        v[DEBUG_RECORD + 24 + i] = *b;
    }
    v[DEBUG_RECORD + 24 + name.len()] = 0;
    let lib = SharedLibrary::new(0, v, String::from("m.dll"));
    assert_eq!(lib.debug_name(), Some(String::from("lib\u{e9}.pdb")));
}

#[test]
fn collect_modules_yields_all_eligible_in_order() {
    let libs = findshlibs::windows::collect_modules(Some(snapshot(5)));
    assert_eq!(libs.len(), 5);
    assert_eq!(libs[0].name().as_str(), "module0.dll");
    assert_eq!(libs[4].name().as_str(), "module4.dll");
    assert!(findshlibs::windows::collect_modules(None).is_empty());
}

#[test]
fn little_endian_fields_decode_exactly() {
    let v = vec![0x78, 0x56, 0x34, 0x12];
    assert_eq!(findshlibs::bytes::read_le16(&v, 0), 0x5678);
    assert_eq!(findshlibs::bytes::read_le16(&v, 2), 0x1234);
    assert_eq!(findshlibs::bytes::read_le32(&v, 0), 0x12345678);
}

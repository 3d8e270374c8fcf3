use agon_periph::mos;
use agon_periph::mos::{GuestMemory, MosMap, VecMemory};

#[test]
fn canonical_map_round_trips_through_resolve() {
    let m = mos::mos_103_map();
    let table = mos::to_symbol_table(&m);
    let resolved = MosMap::from_symbol_map(&table).unwrap();
    assert_eq!(resolved, m);
}

#[test]
fn resolve_copies_the_supplied_addresses() {
    let m = mos::mos_103_map();
    let mut table = mos::to_symbol_table(&m);
    for (i, entry) in table.iter_mut().enumerate() {
        entry.1 = 0x1000 + i as u32;
    }
    let resolved = MosMap::from_symbol_map(&table).unwrap();
    assert_eq!(resolved.f_chdir, 0x1000);
    assert_eq!(resolved._f_chdrive, 0x1001);
    assert_eq!(resolved.f_write, 0x1018);
}

#[test]
fn resolve_fails_when_one_name_is_missing() {
    let m = mos::mos_103_map();
    for skipped in 0..25 {
        let mut table = mos::to_symbol_table(&m);
        table.remove(skipped);
        let r = MosMap::from_symbol_map(&table);
        assert_eq!(r.unwrap_err(), mos::MISSING_MOS_SYMBOL);
    }
}

#[test]
fn resolve_fails_on_an_empty_table() {
    let r = MosMap::from_symbol_map(&Vec::new());
    assert_eq!(r.unwrap_err(), mos::MISSING_MOS_SYMBOL);
}

#[test]
fn resolve_ignores_entry_order_and_extras() {
    let m = mos::mos_103_map();
    let mut table = mos::to_symbol_table(&m);
    table.reverse();
    table.push(("_not_a_symbol".to_owned(), 0xDEAD));
    let resolved = MosMap::from_symbol_map(&table).unwrap();
    assert_eq!(resolved, m);
}

#[test]
fn canonical_map_has_the_shipped_addresses() {
    let m = mos::mos_103_map();
    assert_eq!(m.f_mount, 0x72F7);
    assert_eq!(m.f_open, 0x738C);
    assert_eq!(m.f_read, 0x785E);
    assert_eq!(m.f_write, 0x7C10);
    assert_eq!(m.f_close, 0x822B);
}

#[test]
fn path_string_stops_at_carriage_return() {
    let mem = VecMemory {
        bytes: vec![72, 73, 13, 74],
    };
    assert_eq!(mos::get_mos_path_string(&mem, 0), vec![72, 73]);
}

#[test]
fn path_string_is_empty_on_immediate_nul() {
    let mem = VecMemory { bytes: vec![0] };
    assert_eq!(mos::get_mos_path_string(&mem, 0), Vec::<u8>::new());
}

#[test]
fn path_string_accepts_all_three_terminators() {
    let mem = VecMemory {
        bytes: vec![65, 66, 10, 67, 68, 0, 69, 13],
    };
    assert_eq!(mos::get_mos_path_string(&mem, 0), vec![65, 66]);
    assert_eq!(mos::get_mos_path_string(&mem, 3), vec![67, 68]);
    assert_eq!(mos::get_mos_path_string(&mem, 6), vec![69]);
}

#[test]
fn path_string_reads_past_end_as_nul() {
    // addresses past the backing bytes read as 0, which terminates the scan
    let mem = VecMemory {
        bytes: vec![72, 105],
    };
    assert_eq!(mos::get_mos_path_string(&mem, 0), vec![72, 105]);
}

#[test]
fn vec_memory_peek_matches_contents() {
    let mem = VecMemory {
        bytes: vec![1, 2, 3],
    };
    assert_eq!(mem.peek(0), 1);
    assert_eq!(mem.peek(2), 3);
    assert_eq!(mem.peek(3), 0);
    assert_eq!(mem.peek(0xFFFF_FFFF), 0);
}

#[test]
fn layout_and_flag_constants_match_the_abi() {
    assert_eq!(mos::SIZEOF_MOS_FIL_STRUCT, 36);
    assert_eq!(mos::FIL_MEMBER_OBJSIZE, 11);
    assert_eq!(mos::FIL_MEMBER_FPTR, 17);
    assert_eq!(mos::SIZEOF_MOS_FILINFO_STRUCT, 278);
    assert_eq!(mos::FILINFO_MEMBER_FSIZE_U32, 0);
    assert_eq!(mos::FILINFO_MEMBER_FATTRIB_U8, 8);
    assert_eq!(mos::FILINFO_MEMBER_FNAME_256BYTES, 22);
    assert_eq!(mos::FA_WRITE, 2);
    assert_eq!(mos::FA_CREATE_NEW, 4);
    assert_eq!(mos::FA_CREATE_ALWAYS, 8);
}

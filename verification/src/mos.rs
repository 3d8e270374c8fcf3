//! Bridge to the resident OS (MOS) of the emulated machine: the addresses of
//! its filesystem routines resolved from a symbol table, the byte layout of
//! its in-memory records, and a reader for its terminated path strings.

use vstd::prelude::*;

verus! {

// FatFS struct FIL
pub const SIZEOF_MOS_FIL_STRUCT: u32 = 36;

pub const FIL_MEMBER_OBJSIZE: u32 = 11;

pub const FIL_MEMBER_FPTR: u32 = 17;

// FatFS struct FILINFO
pub const SIZEOF_MOS_FILINFO_STRUCT: u32 = 278;

pub const FILINFO_MEMBER_FSIZE_U32: u32 = 0;

pub const FILINFO_MEMBER_FATTRIB_U8: u32 = 8;

pub const FILINFO_MEMBER_FNAME_256BYTES: u32 = 22;

// f_open mode (3rd arg)
pub const FA_WRITE: u32 = 2;

pub const FA_CREATE_NEW: u32 = 4;

pub const FA_CREATE_ALWAYS: u32 = 8;

/// Guest addresses of the MOS filesystem routines, one field per required
/// symbol. Underscore-prefixed fields are resolved but not otherwise used by
/// the emulator.
#[derive(Clone, Copy, PartialEq, Eq, Structural, Debug)]
pub struct MosMap {
    pub f_chdir: u32,
    pub _f_chdrive: u32,
    pub f_close: u32,
    pub f_closedir: u32,
    pub _f_getcwd: u32,
    pub _f_getfree: u32,
    pub f_getlabel: u32,
    pub f_gets: u32,
    pub f_lseek: u32,
    pub f_mkdir: u32,
    pub f_mount: u32,
    pub f_open: u32,
    pub f_opendir: u32,
    pub _f_printf: u32,
    pub f_putc: u32,
    pub _f_puts: u32,
    pub f_read: u32,
    pub f_readdir: u32,
    pub f_rename: u32,
    pub _f_setlabel: u32,
    pub f_stat: u32,
    pub _f_sync: u32,
    pub _f_truncate: u32,
    pub f_unlink: u32,
    pub f_write: u32,
}

/// The single error of symbol resolution: a required name was absent.
pub const MISSING_MOS_SYMBOL: &'static str = "Missing MOS FS symbol in symbol map";

/// A symbol table as abstract data: each entry a name and a guest address.
pub open spec fn entries_view(t: Seq<(String, u32)>) -> Seq<(Seq<char>, u32)> {
    t.map_values(|p: (String, u32)| (p.0@, p.1))
}

/// The address of the first entry carrying `name`, if any.
pub open spec fn lookup_name(entries: Seq<(Seq<char>, u32)>, name: Seq<char>) -> Option<u32>
    decreases entries.len(),
{
    if entries.len() == 0 {
        None
    } else if entries[0].0 == name {
        Some(entries[0].1)
    } else {
        lookup_name(entries.drop_first(), name)
    }
}

/// What resolution yields over a table: the map with every required symbol's
/// address when all are present, nothing as soon as one is absent.
pub open spec fn resolve_symbols(entries: Seq<(Seq<char>, u32)>) -> Option<MosMap> {
    let f_chdir = lookup_name(entries, "_f_chdir"@);
    let _f_chdrive = lookup_name(entries, "_f_chdrive"@);
    let f_close = lookup_name(entries, "_f_close"@);
    let f_closedir = lookup_name(entries, "_f_closedir"@);
    let _f_getcwd = lookup_name(entries, "_f_getcwd"@);
    let _f_getfree = lookup_name(entries, "_f_getfree"@);
    let f_getlabel = lookup_name(entries, "_f_getlabel"@);
    let f_gets = lookup_name(entries, "_f_gets"@);
    let f_lseek = lookup_name(entries, "_f_lseek"@);
    let f_mkdir = lookup_name(entries, "_f_mkdir"@);
    let f_mount = lookup_name(entries, "_f_mount"@);
    let f_open = lookup_name(entries, "_f_open"@);
    let f_opendir = lookup_name(entries, "_f_opendir"@);
    let _f_printf = lookup_name(entries, "_f_printf"@);
    let f_putc = lookup_name(entries, "_f_putc"@);
    let _f_puts = lookup_name(entries, "_f_puts"@);
    let f_read = lookup_name(entries, "_f_read"@);
    let f_readdir = lookup_name(entries, "_f_readdir"@);
    let f_rename = lookup_name(entries, "_f_rename"@);
    let _f_setlabel = lookup_name(entries, "_f_setlabel"@);
    let f_stat = lookup_name(entries, "_f_stat"@);
    let _f_sync = lookup_name(entries, "_f_sync"@);
    let _f_truncate = lookup_name(entries, "_f_truncate"@);
    let f_unlink = lookup_name(entries, "_f_unlink"@);
    let f_write = lookup_name(entries, "_f_write"@);
    if f_chdir is Some && _f_chdrive is Some && f_close is Some && f_closedir is Some && _f_getcwd
        is Some && _f_getfree is Some && f_getlabel is Some && f_gets is Some && f_lseek is Some
        && f_mkdir is Some && f_mount is Some && f_open is Some && f_opendir is Some && _f_printf
        is Some && f_putc is Some && _f_puts is Some && f_read is Some && f_readdir is Some
        && f_rename is Some && _f_setlabel is Some && f_stat is Some && _f_sync is Some
        && _f_truncate is Some && f_unlink is Some && f_write is Some {
        Some(
            MosMap {
                f_chdir: f_chdir->Some_0,
                _f_chdrive: _f_chdrive->Some_0,
                f_close: f_close->Some_0,
                f_closedir: f_closedir->Some_0,
                _f_getcwd: _f_getcwd->Some_0,
                _f_getfree: _f_getfree->Some_0,
                f_getlabel: f_getlabel->Some_0,
                f_gets: f_gets->Some_0,
                f_lseek: f_lseek->Some_0,
                f_mkdir: f_mkdir->Some_0,
                f_mount: f_mount->Some_0,
                f_open: f_open->Some_0,
                f_opendir: f_opendir->Some_0,
                _f_printf: _f_printf->Some_0,
                f_putc: f_putc->Some_0,
                _f_puts: _f_puts->Some_0,
                f_read: f_read->Some_0,
                f_readdir: f_readdir->Some_0,
                f_rename: f_rename->Some_0,
                _f_setlabel: _f_setlabel->Some_0,
                f_stat: f_stat->Some_0,
                _f_sync: _f_sync->Some_0,
                _f_truncate: _f_truncate->Some_0,
                f_unlink: f_unlink->Some_0,
                f_write: f_write->Some_0,
            },
        )
    } else {
        None
    }
}

/// Finds the address of one required symbol, or reports the single
/// resolution error if the table lacks it.
fn require_symbol(table: &Vec<(String, u32)>, name: &str) -> (r: Result<u32, &'static str>)
    ensures
        (match r {
            Ok(address) => lookup_name(entries_view(table@), name@) == Some(address),
            Err(e) => lookup_name(entries_view(table@), name@) is None && e == MISSING_MOS_SYMBOL,
        }),
{
    let key: String = name.to_owned();
    let ghost entries = entries_view(table@);
    proof {
        assert(entries.skip(0) =~= entries);
    }
    let mut i: usize = 0;
    while i < table.len()
        invariant
            i <= table@.len(),
            entries == entries_view(table@),
            key@ == name@,
            lookup_name(entries, name@) == lookup_name(entries.skip(i as int), name@),
        decreases table@.len() - i,
    {
        proof {
            assert(entries.skip(i as int)[0] == entries[i as int]);
        }
        if table[i].0 == key {
            return Ok(table[i].1);
        }
        proof {
            assert(entries.skip(i as int).drop_first() =~= entries.skip(i as int + 1));
        }
        i = i + 1;
    }
    proof {
        assert(entries.skip(i as int) =~= Seq::<(Seq<char>, u32)>::empty());
    }
    Err(MISSING_MOS_SYMBOL)
}

impl MosMap {
    /// Resolves every required MOS filesystem symbol out of a caller-supplied
    /// name-to-address table. Fails atomically — no map at all — as soon as
    /// one required name is absent, telling the kind of failure but not the
    /// name, and otherwise copies exactly the table's addresses.
    pub fn from_symbol_map(map: &Vec<(String, u32)>) -> (r: Result<MosMap, &'static str>)
        ensures
            (match r {
                Ok(m) => resolve_symbols(entries_view(map@)) == Some(m),
                Err(e) => resolve_symbols(entries_view(map@)) is None && e == MISSING_MOS_SYMBOL,
            }),
    {
        let f_chdir = require_symbol(map, "_f_chdir")?;
        let _f_chdrive = require_symbol(map, "_f_chdrive")?;
        let f_close = require_symbol(map, "_f_close")?;
        let f_closedir = require_symbol(map, "_f_closedir")?;
        let _f_getcwd = require_symbol(map, "_f_getcwd")?;
        let _f_getfree = require_symbol(map, "_f_getfree")?;
        let f_getlabel = require_symbol(map, "_f_getlabel")?;
        let f_gets = require_symbol(map, "_f_gets")?;
        let f_lseek = require_symbol(map, "_f_lseek")?;
        let f_mkdir = require_symbol(map, "_f_mkdir")?;
        let f_mount = require_symbol(map, "_f_mount")?;
        let f_open = require_symbol(map, "_f_open")?;
        let f_opendir = require_symbol(map, "_f_opendir")?;
        let _f_printf = require_symbol(map, "_f_printf")?;
        let f_putc = require_symbol(map, "_f_putc")?;
        let _f_puts = require_symbol(map, "_f_puts")?;
        let f_read = require_symbol(map, "_f_read")?;
        let f_readdir = require_symbol(map, "_f_readdir")?;
        let f_rename = require_symbol(map, "_f_rename")?;
        let _f_setlabel = require_symbol(map, "_f_setlabel")?;
        let f_stat = require_symbol(map, "_f_stat")?;
        let _f_sync = require_symbol(map, "_f_sync")?;
        let _f_truncate = require_symbol(map, "_f_truncate")?;
        let f_unlink = require_symbol(map, "_f_unlink")?;
        let f_write = require_symbol(map, "_f_write")?;

        Ok(
            MosMap {
                f_chdir,
                _f_chdrive,
                f_close,
                f_closedir,
                _f_getcwd,
                _f_getfree,
                f_getlabel,
                f_gets,
                f_lseek,
                f_mkdir,
                f_mount,
                f_open,
                f_opendir,
                _f_printf,
                f_putc,
                _f_puts,
                f_read,
                f_readdir,
                f_rename,
                _f_setlabel,
                f_stat,
                _f_sync,
                _f_truncate,
                f_unlink,
                f_write,
            },
        )
    }
}

/// The symbol map of the shipped firmware build 1.03, as abstract data.
pub open spec fn canonical_mos_103() -> MosMap {
    MosMap {
        f_chdir: 0x82B2,
        _f_chdrive: 0x827A,
        f_close: 0x822B,
        f_closedir: 0x8B5B,
        _f_getcwd: 0x8371,
        _f_getfree: 0x8CE8,
        f_getlabel: 0x9816,
        f_gets: 0x9C91,
        f_lseek: 0x8610,
        f_mkdir: 0x92F6,
        f_mount: 0x72F7,
        f_open: 0x738C,
        f_opendir: 0x8A52,
        _f_printf: 0x9F11,
        f_putc: 0x9E8E,
        _f_puts: 0x9EC4,
        f_read: 0x785E,
        f_readdir: 0x8B92,
        f_rename: 0x9561,
        _f_setlabel: 0x99DB,
        f_stat: 0x8C55,
        _f_sync: 0x8115,
        _f_truncate: 0x8F78,
        f_unlink: 0x911A,
        f_write: 0x7C10,
    }
}

/// The compiled-in symbol map for the shipped firmware build 1.03,
/// usable without resolving anything.
pub fn mos_103_map() -> (m: MosMap)
    ensures
        m == canonical_mos_103(),
{
    MosMap {
        f_chdir: 0x82B2,
        _f_chdrive: 0x827A,
        f_close: 0x822B,
        f_closedir: 0x8B5B,
        _f_getcwd: 0x8371,
        _f_getfree: 0x8CE8,
        f_getlabel: 0x9816,
        f_gets: 0x9C91,
        f_lseek: 0x8610,
        f_mkdir: 0x92F6,
        f_mount: 0x72F7,
        f_open: 0x738C,
        f_opendir: 0x8A52,
        _f_printf: 0x9F11,
        f_putc: 0x9E8E,
        _f_puts: 0x9EC4,
        f_read: 0x785E,
        f_readdir: 0x8B92,
        f_rename: 0x9561,
        _f_setlabel: 0x99DB,
        f_stat: 0x8C55,
        _f_sync: 0x8115,
        _f_truncate: 0x8F78,
        f_unlink: 0x911A,
        f_write: 0x7C10,
    }
}

/// The table that lists every required symbol once, in canonical order,
/// carrying the addresses of `m`.
pub open spec fn symbol_entries(m: MosMap) -> Seq<(Seq<char>, u32)> {
    seq![
        ("_f_chdir"@, m.f_chdir),
        ("_f_chdrive"@, m._f_chdrive),
        ("_f_close"@, m.f_close),
        ("_f_closedir"@, m.f_closedir),
        ("_f_getcwd"@, m._f_getcwd),
        ("_f_getfree"@, m._f_getfree),
        ("_f_getlabel"@, m.f_getlabel),
        ("_f_gets"@, m.f_gets),
        ("_f_lseek"@, m.f_lseek),
        ("_f_mkdir"@, m.f_mkdir),
        ("_f_mount"@, m.f_mount),
        ("_f_open"@, m.f_open),
        ("_f_opendir"@, m.f_opendir),
        ("_f_printf"@, m._f_printf),
        ("_f_putc"@, m.f_putc),
        ("_f_puts"@, m._f_puts),
        ("_f_read"@, m.f_read),
        ("_f_readdir"@, m.f_readdir),
        ("_f_rename"@, m.f_rename),
        ("_f_setlabel"@, m._f_setlabel),
        ("_f_stat"@, m.f_stat),
        ("_f_sync"@, m._f_sync),
        ("_f_truncate"@, m._f_truncate),
        ("_f_unlink"@, m.f_unlink),
        ("_f_write"@, m.f_write),
    ]
}

/// Builds the concrete table that lists every required symbol with the
/// addresses of `m`: the inverse direction of `from_symbol_map`.
pub fn to_symbol_table(m: &MosMap) -> (t: Vec<(String, u32)>)
    ensures
        entries_view(t@) == symbol_entries(*m),
{
    let mut t: Vec<(String, u32)> = Vec::new();
    t.push(("_f_chdir".to_owned(), m.f_chdir));
    t.push(("_f_chdrive".to_owned(), m._f_chdrive));
    t.push(("_f_close".to_owned(), m.f_close));
    t.push(("_f_closedir".to_owned(), m.f_closedir));
    t.push(("_f_getcwd".to_owned(), m._f_getcwd));
    t.push(("_f_getfree".to_owned(), m._f_getfree));
    t.push(("_f_getlabel".to_owned(), m.f_getlabel));
    t.push(("_f_gets".to_owned(), m.f_gets));
    t.push(("_f_lseek".to_owned(), m.f_lseek));
    t.push(("_f_mkdir".to_owned(), m.f_mkdir));
    t.push(("_f_mount".to_owned(), m.f_mount));
    t.push(("_f_open".to_owned(), m.f_open));
    t.push(("_f_opendir".to_owned(), m.f_opendir));
    t.push(("_f_printf".to_owned(), m._f_printf));
    t.push(("_f_putc".to_owned(), m.f_putc));
    t.push(("_f_puts".to_owned(), m._f_puts));
    t.push(("_f_read".to_owned(), m.f_read));
    t.push(("_f_readdir".to_owned(), m.f_readdir));
    t.push(("_f_rename".to_owned(), m.f_rename));
    t.push(("_f_setlabel".to_owned(), m._f_setlabel));
    t.push(("_f_stat".to_owned(), m.f_stat));
    t.push(("_f_sync".to_owned(), m._f_sync));
    t.push(("_f_truncate".to_owned(), m._f_truncate));
    t.push(("_f_unlink".to_owned(), m.f_unlink));
    t.push(("_f_write".to_owned(), m.f_write));
    proof {
        assert(entries_view(t@) =~= symbol_entries(*m));
    }
    t
}

/// A mismatching head entry leaves the lookup to the remaining entries.
proof fn lemma_lookup_miss(entries: Seq<(Seq<char>, u32)>, name: Seq<char>)
    requires
        entries.len() > 0,
        entries[0].0 != name,
    ensures
        lookup_name(entries, name) == lookup_name(entries.drop_first(), name),
{
}

/// A matching head entry settles the lookup.
proof fn lemma_lookup_hit(entries: Seq<(Seq<char>, u32)>, name: Seq<char>)
    requires
        entries.len() > 0,
        entries[0].0 == name,
    ensures
        lookup_name(entries, name) == Some(entries[0].1),
{
}

proof fn lemma_lookup_f_chdir(m: MosMap)
    ensures
        lookup_name(symbol_entries(m), "_f_chdir"@) == Some(m.f_chdir),
{
    reveal_strlit("_f_chdir");
    let e0 = symbol_entries(m);
    assert(e0[0].0 == "_f_chdir"@);
    lemma_lookup_hit(e0, "_f_chdir"@);
    assert(e0[0].1 == m.f_chdir);
}

proof fn lemma_lookup_f_chdrive(m: MosMap)
    ensures
        lookup_name(symbol_entries(m), "_f_chdrive"@) == Some(m._f_chdrive),
{
    reveal_strlit("_f_chdir");
    reveal_strlit("_f_chdrive");
    let e0 = symbol_entries(m);
    assert(e0[0].0 == "_f_chdir"@);
    assert("_f_chdir"@.len() == 8 && "_f_chdrive"@.len() == 10);
    assert("_f_chdir"@ != "_f_chdrive"@);
    lemma_lookup_miss(e0, "_f_chdrive"@);
    let e1 = e0.drop_first();
    assert(e1 =~= e0.skip(1));
    assert(e1[0].0 == "_f_chdrive"@);
    lemma_lookup_hit(e1, "_f_chdrive"@);
    assert(e1[0].1 == m._f_chdrive);
}

proof fn lemma_lookup_f_close(m: MosMap)
    ensures
        lookup_name(symbol_entries(m), "_f_close"@) == Some(m.f_close),
{
    reveal_strlit("_f_chdir");
    reveal_strlit("_f_chdrive");
    reveal_strlit("_f_close");
    let e0 = symbol_entries(m);
    assert(e0[0].0 == "_f_chdir"@);
    assert("_f_chdir"@[4] == 'h' && "_f_close"@[4] == 'l');
    assert("_f_chdir"@.len() == 8 && "_f_close"@.len() == 8);
    assert("_f_chdir"@ != "_f_close"@);
    lemma_lookup_miss(e0, "_f_close"@);
    let e1 = e0.drop_first();
    assert(e1 =~= e0.skip(1));
    assert(e1[0].0 == "_f_chdrive"@);
    assert("_f_chdrive"@.len() == 10 && "_f_close"@.len() == 8);
    assert("_f_chdrive"@ != "_f_close"@);
    lemma_lookup_miss(e1, "_f_close"@);
    let e2 = e1.drop_first();
    assert(e2 =~= e0.skip(2));
    assert(e2[0].0 == "_f_close"@);
    lemma_lookup_hit(e2, "_f_close"@);
    assert(e2[0].1 == m.f_close);
}

proof fn lemma_lookup_f_closedir(m: MosMap)
    ensures
        lookup_name(symbol_entries(m), "_f_closedir"@) == Some(m.f_closedir),
{
    reveal_strlit("_f_chdir");
    reveal_strlit("_f_chdrive");
    reveal_strlit("_f_close");
    reveal_strlit("_f_closedir");
    let e0 = symbol_entries(m);
    assert(e0[0].0 == "_f_chdir"@);
    assert("_f_chdir"@.len() == 8 && "_f_closedir"@.len() == 11);
    assert("_f_chdir"@ != "_f_closedir"@);
    lemma_lookup_miss(e0, "_f_closedir"@);
    let e1 = e0.drop_first();
    assert(e1 =~= e0.skip(1));
    assert(e1[0].0 == "_f_chdrive"@);
    assert("_f_chdrive"@.len() == 10 && "_f_closedir"@.len() == 11);
    assert("_f_chdrive"@ != "_f_closedir"@);
    lemma_lookup_miss(e1, "_f_closedir"@);
    let e2 = e1.drop_first();
    assert(e2 =~= e0.skip(2));
    assert(e2[0].0 == "_f_close"@);
    assert("_f_close"@.len() == 8 && "_f_closedir"@.len() == 11);
    assert("_f_close"@ != "_f_closedir"@);
    lemma_lookup_miss(e2, "_f_closedir"@);
    let e3 = e2.drop_first();
    assert(e3 =~= e0.skip(3));
    assert(e3[0].0 == "_f_closedir"@);
    lemma_lookup_hit(e3, "_f_closedir"@);
    assert(e3[0].1 == m.f_closedir);
}

proof fn lemma_lookup_f_getcwd(m: MosMap)
    ensures
        lookup_name(symbol_entries(m), "_f_getcwd"@) == Some(m._f_getcwd),
{
    reveal_strlit("_f_chdir");
    reveal_strlit("_f_chdrive");
    reveal_strlit("_f_close");
    reveal_strlit("_f_closedir");
    reveal_strlit("_f_getcwd");
    let e0 = symbol_entries(m);
    assert(e0[0].0 == "_f_chdir"@);
    assert("_f_chdir"@.len() == 8 && "_f_getcwd"@.len() == 9);
    assert("_f_chdir"@ != "_f_getcwd"@);
    lemma_lookup_miss(e0, "_f_getcwd"@);
    let e1 = e0.drop_first();
    assert(e1 =~= e0.skip(1));
    assert(e1[0].0 == "_f_chdrive"@);
    assert("_f_chdrive"@.len() == 10 && "_f_getcwd"@.len() == 9);
    assert("_f_chdrive"@ != "_f_getcwd"@);
    lemma_lookup_miss(e1, "_f_getcwd"@);
    let e2 = e1.drop_first();
    assert(e2 =~= e0.skip(2));
    assert(e2[0].0 == "_f_close"@);
    assert("_f_close"@.len() == 8 && "_f_getcwd"@.len() == 9);
    assert("_f_close"@ != "_f_getcwd"@);
    lemma_lookup_miss(e2, "_f_getcwd"@);
    let e3 = e2.drop_first();
    assert(e3 =~= e0.skip(3));
    assert(e3[0].0 == "_f_closedir"@);
    assert("_f_closedir"@.len() == 11 && "_f_getcwd"@.len() == 9);
    assert("_f_closedir"@ != "_f_getcwd"@);
    lemma_lookup_miss(e3, "_f_getcwd"@);
    let e4 = e3.drop_first();
    assert(e4 =~= e0.skip(4));
    assert(e4[0].0 == "_f_getcwd"@);
    lemma_lookup_hit(e4, "_f_getcwd"@);
    assert(e4[0].1 == m._f_getcwd);
}

proof fn lemma_lookup_f_getfree(m: MosMap)
    ensures
        lookup_name(symbol_entries(m), "_f_getfree"@) == Some(m._f_getfree),
{
    reveal_strlit("_f_chdir");
    reveal_strlit("_f_chdrive");
    reveal_strlit("_f_close");
    reveal_strlit("_f_closedir");
    reveal_strlit("_f_getcwd");
    reveal_strlit("_f_getfree");
    let e0 = symbol_entries(m);
    assert(e0[0].0 == "_f_chdir"@);
    assert("_f_chdir"@.len() == 8 && "_f_getfree"@.len() == 10);
    assert("_f_chdir"@ != "_f_getfree"@);
    lemma_lookup_miss(e0, "_f_getfree"@);
    let e1 = e0.drop_first();
    assert(e1 =~= e0.skip(1));
    assert(e1[0].0 == "_f_chdrive"@);
    assert("_f_chdrive"@[3] == 'c' && "_f_getfree"@[3] == 'g');
    assert("_f_chdrive"@.len() == 10 && "_f_getfree"@.len() == 10);
    assert("_f_chdrive"@ != "_f_getfree"@);
    lemma_lookup_miss(e1, "_f_getfree"@);
    let e2 = e1.drop_first();
    assert(e2 =~= e0.skip(2));
    assert(e2[0].0 == "_f_close"@);
    assert("_f_close"@.len() == 8 && "_f_getfree"@.len() == 10);
    assert("_f_close"@ != "_f_getfree"@);
    lemma_lookup_miss(e2, "_f_getfree"@);
    let e3 = e2.drop_first();
    assert(e3 =~= e0.skip(3));
    assert(e3[0].0 == "_f_closedir"@);
    assert("_f_closedir"@.len() == 11 && "_f_getfree"@.len() == 10);
    assert("_f_closedir"@ != "_f_getfree"@);
    lemma_lookup_miss(e3, "_f_getfree"@);
    let e4 = e3.drop_first();
    assert(e4 =~= e0.skip(4));
    assert(e4[0].0 == "_f_getcwd"@);
    assert("_f_getcwd"@.len() == 9 && "_f_getfree"@.len() == 10);
    assert("_f_getcwd"@ != "_f_getfree"@);
    lemma_lookup_miss(e4, "_f_getfree"@);
    let e5 = e4.drop_first();
    assert(e5 =~= e0.skip(5));
    assert(e5[0].0 == "_f_getfree"@);
    lemma_lookup_hit(e5, "_f_getfree"@);
    assert(e5[0].1 == m._f_getfree);
}

proof fn lemma_lookup_f_getlabel(m: MosMap)
    ensures
        lookup_name(symbol_entries(m), "_f_getlabel"@) == Some(m.f_getlabel),
{
    reveal_strlit("_f_chdir");
    reveal_strlit("_f_chdrive");
    reveal_strlit("_f_close");
    reveal_strlit("_f_closedir");
    reveal_strlit("_f_getcwd");
    reveal_strlit("_f_getfree");
    reveal_strlit("_f_getlabel");
    let e0 = symbol_entries(m);
    assert(e0[0].0 == "_f_chdir"@);
    assert("_f_chdir"@.len() == 8 && "_f_getlabel"@.len() == 11);
    assert("_f_chdir"@ != "_f_getlabel"@);
    lemma_lookup_miss(e0, "_f_getlabel"@);
    let e1 = e0.drop_first();
    assert(e1 =~= e0.skip(1));
    assert(e1[0].0 == "_f_chdrive"@);
    assert("_f_chdrive"@.len() == 10 && "_f_getlabel"@.len() == 11);
    assert("_f_chdrive"@ != "_f_getlabel"@);
    lemma_lookup_miss(e1, "_f_getlabel"@);
    let e2 = e1.drop_first();
    assert(e2 =~= e0.skip(2));
    assert(e2[0].0 == "_f_close"@);
    assert("_f_close"@.len() == 8 && "_f_getlabel"@.len() == 11);
    assert("_f_close"@ != "_f_getlabel"@);
    lemma_lookup_miss(e2, "_f_getlabel"@);
    let e3 = e2.drop_first();
    assert(e3 =~= e0.skip(3));
    assert(e3[0].0 == "_f_closedir"@);
    assert("_f_closedir"@[3] == 'c' && "_f_getlabel"@[3] == 'g');
    assert("_f_closedir"@.len() == 11 && "_f_getlabel"@.len() == 11);
    assert("_f_closedir"@ != "_f_getlabel"@);
    lemma_lookup_miss(e3, "_f_getlabel"@);
    let e4 = e3.drop_first();
    assert(e4 =~= e0.skip(4));
    assert(e4[0].0 == "_f_getcwd"@);
    assert("_f_getcwd"@.len() == 9 && "_f_getlabel"@.len() == 11);
    assert("_f_getcwd"@ != "_f_getlabel"@);
    lemma_lookup_miss(e4, "_f_getlabel"@);
    let e5 = e4.drop_first();
    assert(e5 =~= e0.skip(5));
    assert(e5[0].0 == "_f_getfree"@);
    assert("_f_getfree"@.len() == 10 && "_f_getlabel"@.len() == 11);
    assert("_f_getfree"@ != "_f_getlabel"@);
    lemma_lookup_miss(e5, "_f_getlabel"@);
    let e6 = e5.drop_first();
    assert(e6 =~= e0.skip(6));
    assert(e6[0].0 == "_f_getlabel"@);
    lemma_lookup_hit(e6, "_f_getlabel"@);
    assert(e6[0].1 == m.f_getlabel);
}

proof fn lemma_lookup_f_gets(m: MosMap)
    ensures
        lookup_name(symbol_entries(m), "_f_gets"@) == Some(m.f_gets),
{
    reveal_strlit("_f_chdir");
    reveal_strlit("_f_chdrive");
    reveal_strlit("_f_close");
    reveal_strlit("_f_closedir");
    reveal_strlit("_f_getcwd");
    reveal_strlit("_f_getfree");
    reveal_strlit("_f_getlabel");
    reveal_strlit("_f_gets");
    let e0 = symbol_entries(m);
    assert(e0[0].0 == "_f_chdir"@);
    assert("_f_chdir"@.len() == 8 && "_f_gets"@.len() == 7);
    assert("_f_chdir"@ != "_f_gets"@);
    lemma_lookup_miss(e0, "_f_gets"@);
    let e1 = e0.drop_first();
    assert(e1 =~= e0.skip(1));
    assert(e1[0].0 == "_f_chdrive"@);
    assert("_f_chdrive"@.len() == 10 && "_f_gets"@.len() == 7);
    assert("_f_chdrive"@ != "_f_gets"@);
    lemma_lookup_miss(e1, "_f_gets"@);
    let e2 = e1.drop_first();
    assert(e2 =~= e0.skip(2));
    assert(e2[0].0 == "_f_close"@);
    assert("_f_close"@.len() == 8 && "_f_gets"@.len() == 7);
    assert("_f_close"@ != "_f_gets"@);
    lemma_lookup_miss(e2, "_f_gets"@);
    let e3 = e2.drop_first();
    assert(e3 =~= e0.skip(3));
    assert(e3[0].0 == "_f_closedir"@);
    assert("_f_closedir"@.len() == 11 && "_f_gets"@.len() == 7);
    assert("_f_closedir"@ != "_f_gets"@);
    lemma_lookup_miss(e3, "_f_gets"@);
    let e4 = e3.drop_first();
    assert(e4 =~= e0.skip(4));
    assert(e4[0].0 == "_f_getcwd"@);
    assert("_f_getcwd"@.len() == 9 && "_f_gets"@.len() == 7);
    assert("_f_getcwd"@ != "_f_gets"@);
    lemma_lookup_miss(e4, "_f_gets"@);
    let e5 = e4.drop_first();
    assert(e5 =~= e0.skip(5));
    assert(e5[0].0 == "_f_getfree"@);
    assert("_f_getfree"@.len() == 10 && "_f_gets"@.len() == 7);
    assert("_f_getfree"@ != "_f_gets"@);
    lemma_lookup_miss(e5, "_f_gets"@);
    let e6 = e5.drop_first();
    assert(e6 =~= e0.skip(6));
    assert(e6[0].0 == "_f_getlabel"@);
    assert("_f_getlabel"@.len() == 11 && "_f_gets"@.len() == 7);
    assert("_f_getlabel"@ != "_f_gets"@);
    lemma_lookup_miss(e6, "_f_gets"@);
    let e7 = e6.drop_first();
    assert(e7 =~= e0.skip(7));
    assert(e7[0].0 == "_f_gets"@);
    lemma_lookup_hit(e7, "_f_gets"@);
    assert(e7[0].1 == m.f_gets);
}

proof fn lemma_lookup_f_lseek(m: MosMap)
    ensures
        lookup_name(symbol_entries(m), "_f_lseek"@) == Some(m.f_lseek),
{
    reveal_strlit("_f_chdir");
    reveal_strlit("_f_chdrive");
    reveal_strlit("_f_close");
    reveal_strlit("_f_closedir");
    reveal_strlit("_f_getcwd");
    reveal_strlit("_f_getfree");
    reveal_strlit("_f_getlabel");
    reveal_strlit("_f_gets");
    reveal_strlit("_f_lseek");
    let e0 = symbol_entries(m);
    assert(e0[0].0 == "_f_chdir"@);
    assert("_f_chdir"@[3] == 'c' && "_f_lseek"@[3] == 'l');
    assert("_f_chdir"@.len() == 8 && "_f_lseek"@.len() == 8);
    assert("_f_chdir"@ != "_f_lseek"@);
    lemma_lookup_miss(e0, "_f_lseek"@);
    let e1 = e0.drop_first();
    assert(e1 =~= e0.skip(1));
    assert(e1[0].0 == "_f_chdrive"@);
    assert("_f_chdrive"@.len() == 10 && "_f_lseek"@.len() == 8);
    assert("_f_chdrive"@ != "_f_lseek"@);
    lemma_lookup_miss(e1, "_f_lseek"@);
    let e2 = e1.drop_first();
    assert(e2 =~= e0.skip(2));
    assert(e2[0].0 == "_f_close"@);
    assert("_f_close"@[3] == 'c' && "_f_lseek"@[3] == 'l');
    assert("_f_close"@.len() == 8 && "_f_lseek"@.len() == 8);
    assert("_f_close"@ != "_f_lseek"@);
    lemma_lookup_miss(e2, "_f_lseek"@);
    let e3 = e2.drop_first();
    assert(e3 =~= e0.skip(3));
    assert(e3[0].0 == "_f_closedir"@);
    assert("_f_closedir"@.len() == 11 && "_f_lseek"@.len() == 8);
    assert("_f_closedir"@ != "_f_lseek"@);
    lemma_lookup_miss(e3, "_f_lseek"@);
    let e4 = e3.drop_first();
    assert(e4 =~= e0.skip(4));
    assert(e4[0].0 == "_f_getcwd"@);
    assert("_f_getcwd"@.len() == 9 && "_f_lseek"@.len() == 8);
    assert("_f_getcwd"@ != "_f_lseek"@);
    lemma_lookup_miss(e4, "_f_lseek"@);
    let e5 = e4.drop_first();
    assert(e5 =~= e0.skip(5));
    assert(e5[0].0 == "_f_getfree"@);
    assert("_f_getfree"@.len() == 10 && "_f_lseek"@.len() == 8);
    assert("_f_getfree"@ != "_f_lseek"@);
    lemma_lookup_miss(e5, "_f_lseek"@);
    let e6 = e5.drop_first();
    assert(e6 =~= e0.skip(6));
    assert(e6[0].0 == "_f_getlabel"@);
    assert("_f_getlabel"@.len() == 11 && "_f_lseek"@.len() == 8);
    assert("_f_getlabel"@ != "_f_lseek"@);
    lemma_lookup_miss(e6, "_f_lseek"@);
    let e7 = e6.drop_first();
    assert(e7 =~= e0.skip(7));
    assert(e7[0].0 == "_f_gets"@);
    assert("_f_gets"@.len() == 7 && "_f_lseek"@.len() == 8);
    assert("_f_gets"@ != "_f_lseek"@);
    lemma_lookup_miss(e7, "_f_lseek"@);
    let e8 = e7.drop_first();
    assert(e8 =~= e0.skip(8));
    assert(e8[0].0 == "_f_lseek"@);
    lemma_lookup_hit(e8, "_f_lseek"@);
    assert(e8[0].1 == m.f_lseek);
}

proof fn lemma_lookup_f_mkdir(m: MosMap)
    ensures
        lookup_name(symbol_entries(m), "_f_mkdir"@) == Some(m.f_mkdir),
{
    reveal_strlit("_f_chdir");
    reveal_strlit("_f_chdrive");
    reveal_strlit("_f_close");
    reveal_strlit("_f_closedir");
    reveal_strlit("_f_getcwd");
    reveal_strlit("_f_getfree");
    reveal_strlit("_f_getlabel");
    reveal_strlit("_f_gets");
    reveal_strlit("_f_lseek");
    reveal_strlit("_f_mkdir");
    let e0 = symbol_entries(m);
    assert(e0[0].0 == "_f_chdir"@);
    assert("_f_chdir"@[3] == 'c' && "_f_mkdir"@[3] == 'm');
    assert("_f_chdir"@.len() == 8 && "_f_mkdir"@.len() == 8);
    assert("_f_chdir"@ != "_f_mkdir"@);
    lemma_lookup_miss(e0, "_f_mkdir"@);
    let e1 = e0.drop_first();
    assert(e1 =~= e0.skip(1));
    assert(e1[0].0 == "_f_chdrive"@);
    assert("_f_chdrive"@.len() == 10 && "_f_mkdir"@.len() == 8);
    assert("_f_chdrive"@ != "_f_mkdir"@);
    lemma_lookup_miss(e1, "_f_mkdir"@);
    let e2 = e1.drop_first();
    assert(e2 =~= e0.skip(2));
    assert(e2[0].0 == "_f_close"@);
    assert("_f_close"@[3] == 'c' && "_f_mkdir"@[3] == 'm');
    assert("_f_close"@.len() == 8 && "_f_mkdir"@.len() == 8);
    assert("_f_close"@ != "_f_mkdir"@);
    lemma_lookup_miss(e2, "_f_mkdir"@);
    let e3 = e2.drop_first();
    assert(e3 =~= e0.skip(3));
    assert(e3[0].0 == "_f_closedir"@);
    assert("_f_closedir"@.len() == 11 && "_f_mkdir"@.len() == 8);
    assert("_f_closedir"@ != "_f_mkdir"@);
    lemma_lookup_miss(e3, "_f_mkdir"@);
    let e4 = e3.drop_first();
    assert(e4 =~= e0.skip(4));
    assert(e4[0].0 == "_f_getcwd"@);
    assert("_f_getcwd"@.len() == 9 && "_f_mkdir"@.len() == 8);
    assert("_f_getcwd"@ != "_f_mkdir"@);
    lemma_lookup_miss(e4, "_f_mkdir"@);
    let e5 = e4.drop_first();
    assert(e5 =~= e0.skip(5));
    assert(e5[0].0 == "_f_getfree"@);
    assert("_f_getfree"@.len() == 10 && "_f_mkdir"@.len() == 8);
    assert("_f_getfree"@ != "_f_mkdir"@);
    lemma_lookup_miss(e5, "_f_mkdir"@);
    let e6 = e5.drop_first();
    assert(e6 =~= e0.skip(6));
    assert(e6[0].0 == "_f_getlabel"@);
    assert("_f_getlabel"@.len() == 11 && "_f_mkdir"@.len() == 8);
    assert("_f_getlabel"@ != "_f_mkdir"@);
    lemma_lookup_miss(e6, "_f_mkdir"@);
    let e7 = e6.drop_first();
    assert(e7 =~= e0.skip(7));
    assert(e7[0].0 == "_f_gets"@);
    assert("_f_gets"@.len() == 7 && "_f_mkdir"@.len() == 8);
    assert("_f_gets"@ != "_f_mkdir"@);
    lemma_lookup_miss(e7, "_f_mkdir"@);
    let e8 = e7.drop_first();
    assert(e8 =~= e0.skip(8));
    assert(e8[0].0 == "_f_lseek"@);
    assert("_f_lseek"@[3] == 'l' && "_f_mkdir"@[3] == 'm');
    assert("_f_lseek"@.len() == 8 && "_f_mkdir"@.len() == 8);
    assert("_f_lseek"@ != "_f_mkdir"@);
    lemma_lookup_miss(e8, "_f_mkdir"@);
    let e9 = e8.drop_first();
    assert(e9 =~= e0.skip(9));
    assert(e9[0].0 == "_f_mkdir"@);
    lemma_lookup_hit(e9, "_f_mkdir"@);
    assert(e9[0].1 == m.f_mkdir);
}

proof fn lemma_lookup_f_mount(m: MosMap)
    ensures
        lookup_name(symbol_entries(m), "_f_mount"@) == Some(m.f_mount),
{
    reveal_strlit("_f_chdir");
    reveal_strlit("_f_chdrive");
    reveal_strlit("_f_close");
    reveal_strlit("_f_closedir");
    reveal_strlit("_f_getcwd");
    reveal_strlit("_f_getfree");
    reveal_strlit("_f_getlabel");
    reveal_strlit("_f_gets");
    reveal_strlit("_f_lseek");
    reveal_strlit("_f_mkdir");
    reveal_strlit("_f_mount");
    let e0 = symbol_entries(m);
    assert(e0[0].0 == "_f_chdir"@);
    assert("_f_chdir"@[3] == 'c' && "_f_mount"@[3] == 'm');
    assert("_f_chdir"@.len() == 8 && "_f_mount"@.len() == 8);
    assert("_f_chdir"@ != "_f_mount"@);
    lemma_lookup_miss(e0, "_f_mount"@);
    let e1 = e0.drop_first();
    assert(e1 =~= e0.skip(1));
    assert(e1[0].0 == "_f_chdrive"@);
    assert("_f_chdrive"@.len() == 10 && "_f_mount"@.len() == 8);
    assert("_f_chdrive"@ != "_f_mount"@);
    lemma_lookup_miss(e1, "_f_mount"@);
    let e2 = e1.drop_first();
    assert(e2 =~= e0.skip(2));
    assert(e2[0].0 == "_f_close"@);
    assert("_f_close"@[3] == 'c' && "_f_mount"@[3] == 'm');
    assert("_f_close"@.len() == 8 && "_f_mount"@.len() == 8);
    assert("_f_close"@ != "_f_mount"@);
    lemma_lookup_miss(e2, "_f_mount"@);
    let e3 = e2.drop_first();
    assert(e3 =~= e0.skip(3));
    assert(e3[0].0 == "_f_closedir"@);
    assert("_f_closedir"@.len() == 11 && "_f_mount"@.len() == 8);
    assert("_f_closedir"@ != "_f_mount"@);
    lemma_lookup_miss(e3, "_f_mount"@);
    let e4 = e3.drop_first();
    assert(e4 =~= e0.skip(4));
    assert(e4[0].0 == "_f_getcwd"@);
    assert("_f_getcwd"@.len() == 9 && "_f_mount"@.len() == 8);
    assert("_f_getcwd"@ != "_f_mount"@);
    lemma_lookup_miss(e4, "_f_mount"@);
    let e5 = e4.drop_first();
    assert(e5 =~= e0.skip(5));
    assert(e5[0].0 == "_f_getfree"@);
    assert("_f_getfree"@.len() == 10 && "_f_mount"@.len() == 8);
    assert("_f_getfree"@ != "_f_mount"@);
    lemma_lookup_miss(e5, "_f_mount"@);
    let e6 = e5.drop_first();
    assert(e6 =~= e0.skip(6));
    assert(e6[0].0 == "_f_getlabel"@);
    assert("_f_getlabel"@.len() == 11 && "_f_mount"@.len() == 8);
    assert("_f_getlabel"@ != "_f_mount"@);
    lemma_lookup_miss(e6, "_f_mount"@);
    let e7 = e6.drop_first();
    assert(e7 =~= e0.skip(7));
    assert(e7[0].0 == "_f_gets"@);
    assert("_f_gets"@.len() == 7 && "_f_mount"@.len() == 8);
    assert("_f_gets"@ != "_f_mount"@);
    lemma_lookup_miss(e7, "_f_mount"@);
    let e8 = e7.drop_first();
    assert(e8 =~= e0.skip(8));
    assert(e8[0].0 == "_f_lseek"@);
    assert("_f_lseek"@[3] == 'l' && "_f_mount"@[3] == 'm');
    assert("_f_lseek"@.len() == 8 && "_f_mount"@.len() == 8);
    assert("_f_lseek"@ != "_f_mount"@);
    lemma_lookup_miss(e8, "_f_mount"@);
    let e9 = e8.drop_first();
    assert(e9 =~= e0.skip(9));
    assert(e9[0].0 == "_f_mkdir"@);
    assert("_f_mkdir"@[4] == 'k' && "_f_mount"@[4] == 'o');
    assert("_f_mkdir"@.len() == 8 && "_f_mount"@.len() == 8);
    assert("_f_mkdir"@ != "_f_mount"@);
    lemma_lookup_miss(e9, "_f_mount"@);
    let e10 = e9.drop_first();
    assert(e10 =~= e0.skip(10));
    assert(e10[0].0 == "_f_mount"@);
    lemma_lookup_hit(e10, "_f_mount"@);
    assert(e10[0].1 == m.f_mount);
}

proof fn lemma_lookup_f_open(m: MosMap)
    ensures
        lookup_name(symbol_entries(m), "_f_open"@) == Some(m.f_open),
{
    reveal_strlit("_f_chdir");
    reveal_strlit("_f_chdrive");
    reveal_strlit("_f_close");
    reveal_strlit("_f_closedir");
    reveal_strlit("_f_getcwd");
    reveal_strlit("_f_getfree");
    reveal_strlit("_f_getlabel");
    reveal_strlit("_f_gets");
    reveal_strlit("_f_lseek");
    reveal_strlit("_f_mkdir");
    reveal_strlit("_f_mount");
    reveal_strlit("_f_open");
    let e0 = symbol_entries(m);
    assert(e0[0].0 == "_f_chdir"@);
    assert("_f_chdir"@.len() == 8 && "_f_open"@.len() == 7);
    assert("_f_chdir"@ != "_f_open"@);
    lemma_lookup_miss(e0, "_f_open"@);
    let e1 = e0.drop_first();
    assert(e1 =~= e0.skip(1));
    assert(e1[0].0 == "_f_chdrive"@);
    assert("_f_chdrive"@.len() == 10 && "_f_open"@.len() == 7);
    assert("_f_chdrive"@ != "_f_open"@);
    lemma_lookup_miss(e1, "_f_open"@);
    let e2 = e1.drop_first();
    assert(e2 =~= e0.skip(2));
    assert(e2[0].0 == "_f_close"@);
    assert("_f_close"@.len() == 8 && "_f_open"@.len() == 7);
    assert("_f_close"@ != "_f_open"@);
    lemma_lookup_miss(e2, "_f_open"@);
    let e3 = e2.drop_first();
    assert(e3 =~= e0.skip(3));
    assert(e3[0].0 == "_f_closedir"@);
    assert("_f_closedir"@.len() == 11 && "_f_open"@.len() == 7);
    assert("_f_closedir"@ != "_f_open"@);
    lemma_lookup_miss(e3, "_f_open"@);
    let e4 = e3.drop_first();
    assert(e4 =~= e0.skip(4));
    assert(e4[0].0 == "_f_getcwd"@);
    assert("_f_getcwd"@.len() == 9 && "_f_open"@.len() == 7);
    assert("_f_getcwd"@ != "_f_open"@);
    lemma_lookup_miss(e4, "_f_open"@);
    let e5 = e4.drop_first();
    assert(e5 =~= e0.skip(5));
    assert(e5[0].0 == "_f_getfree"@);
    assert("_f_getfree"@.len() == 10 && "_f_open"@.len() == 7);
    assert("_f_getfree"@ != "_f_open"@);
    lemma_lookup_miss(e5, "_f_open"@);
    let e6 = e5.drop_first();
    assert(e6 =~= e0.skip(6));
    assert(e6[0].0 == "_f_getlabel"@);
    assert("_f_getlabel"@.len() == 11 && "_f_open"@.len() == 7);
    assert("_f_getlabel"@ != "_f_open"@);
    lemma_lookup_miss(e6, "_f_open"@);
    let e7 = e6.drop_first();
    assert(e7 =~= e0.skip(7));
    assert(e7[0].0 == "_f_gets"@);
    assert("_f_gets"@[3] == 'g' && "_f_open"@[3] == 'o');
    assert("_f_gets"@.len() == 7 && "_f_open"@.len() == 7);
    assert("_f_gets"@ != "_f_open"@);
    lemma_lookup_miss(e7, "_f_open"@);
    let e8 = e7.drop_first();
    assert(e8 =~= e0.skip(8));
    assert(e8[0].0 == "_f_lseek"@);
    assert("_f_lseek"@.len() == 8 && "_f_open"@.len() == 7);
    assert("_f_lseek"@ != "_f_open"@);
    lemma_lookup_miss(e8, "_f_open"@);
    let e9 = e8.drop_first();
    assert(e9 =~= e0.skip(9));
    assert(e9[0].0 == "_f_mkdir"@);
    assert("_f_mkdir"@.len() == 8 && "_f_open"@.len() == 7);
    assert("_f_mkdir"@ != "_f_open"@);
    lemma_lookup_miss(e9, "_f_open"@);
    let e10 = e9.drop_first();
    assert(e10 =~= e0.skip(10));
    assert(e10[0].0 == "_f_mount"@);
    assert("_f_mount"@.len() == 8 && "_f_open"@.len() == 7);
    assert("_f_mount"@ != "_f_open"@);
    lemma_lookup_miss(e10, "_f_open"@);
    let e11 = e10.drop_first();
    assert(e11 =~= e0.skip(11));
    assert(e11[0].0 == "_f_open"@);
    lemma_lookup_hit(e11, "_f_open"@);
    assert(e11[0].1 == m.f_open);
}

proof fn lemma_lookup_f_opendir(m: MosMap)
    ensures
        lookup_name(symbol_entries(m), "_f_opendir"@) == Some(m.f_opendir),
{
    reveal_strlit("_f_chdir");
    reveal_strlit("_f_chdrive");
    reveal_strlit("_f_close");
    reveal_strlit("_f_closedir");
    reveal_strlit("_f_getcwd");
    reveal_strlit("_f_getfree");
    reveal_strlit("_f_getlabel");
    reveal_strlit("_f_gets");
    reveal_strlit("_f_lseek");
    reveal_strlit("_f_mkdir");
    reveal_strlit("_f_mount");
    reveal_strlit("_f_open");
    reveal_strlit("_f_opendir");
    let e0 = symbol_entries(m);
    assert(e0[0].0 == "_f_chdir"@);
    assert("_f_chdir"@.len() == 8 && "_f_opendir"@.len() == 10);
    assert("_f_chdir"@ != "_f_opendir"@);
    lemma_lookup_miss(e0, "_f_opendir"@);
    let e1 = e0.drop_first();
    assert(e1 =~= e0.skip(1));
    assert(e1[0].0 == "_f_chdrive"@);
    assert("_f_chdrive"@[3] == 'c' && "_f_opendir"@[3] == 'o');
    assert("_f_chdrive"@.len() == 10 && "_f_opendir"@.len() == 10);
    assert("_f_chdrive"@ != "_f_opendir"@);
    lemma_lookup_miss(e1, "_f_opendir"@);
    let e2 = e1.drop_first();
    assert(e2 =~= e0.skip(2));
    assert(e2[0].0 == "_f_close"@);
    assert("_f_close"@.len() == 8 && "_f_opendir"@.len() == 10);
    assert("_f_close"@ != "_f_opendir"@);
    lemma_lookup_miss(e2, "_f_opendir"@);
    let e3 = e2.drop_first();
    assert(e3 =~= e0.skip(3));
    assert(e3[0].0 == "_f_closedir"@);
    assert("_f_closedir"@.len() == 11 && "_f_opendir"@.len() == 10);
    assert("_f_closedir"@ != "_f_opendir"@);
    lemma_lookup_miss(e3, "_f_opendir"@);
    let e4 = e3.drop_first();
    assert(e4 =~= e0.skip(4));
    assert(e4[0].0 == "_f_getcwd"@);
    assert("_f_getcwd"@.len() == 9 && "_f_opendir"@.len() == 10);
    assert("_f_getcwd"@ != "_f_opendir"@);
    lemma_lookup_miss(e4, "_f_opendir"@);
    let e5 = e4.drop_first();
    assert(e5 =~= e0.skip(5));
    assert(e5[0].0 == "_f_getfree"@);
    assert("_f_getfree"@[3] == 'g' && "_f_opendir"@[3] == 'o');
    assert("_f_getfree"@.len() == 10 && "_f_opendir"@.len() == 10);
    assert("_f_getfree"@ != "_f_opendir"@);
    lemma_lookup_miss(e5, "_f_opendir"@);
    let e6 = e5.drop_first();
    assert(e6 =~= e0.skip(6));
    assert(e6[0].0 == "_f_getlabel"@);
    assert("_f_getlabel"@.len() == 11 && "_f_opendir"@.len() == 10);
    assert("_f_getlabel"@ != "_f_opendir"@);
    lemma_lookup_miss(e6, "_f_opendir"@);
    let e7 = e6.drop_first();
    assert(e7 =~= e0.skip(7));
    assert(e7[0].0 == "_f_gets"@);
    assert("_f_gets"@.len() == 7 && "_f_opendir"@.len() == 10);
    assert("_f_gets"@ != "_f_opendir"@);
    lemma_lookup_miss(e7, "_f_opendir"@);
    let e8 = e7.drop_first();
    assert(e8 =~= e0.skip(8));
    assert(e8[0].0 == "_f_lseek"@);
    assert("_f_lseek"@.len() == 8 && "_f_opendir"@.len() == 10);
    assert("_f_lseek"@ != "_f_opendir"@);
    lemma_lookup_miss(e8, "_f_opendir"@);
    let e9 = e8.drop_first();
    assert(e9 =~= e0.skip(9));
    assert(e9[0].0 == "_f_mkdir"@);
    assert("_f_mkdir"@.len() == 8 && "_f_opendir"@.len() == 10);
    assert("_f_mkdir"@ != "_f_opendir"@);
    lemma_lookup_miss(e9, "_f_opendir"@);
    let e10 = e9.drop_first();
    assert(e10 =~= e0.skip(10));
    assert(e10[0].0 == "_f_mount"@);
    assert("_f_mount"@.len() == 8 && "_f_opendir"@.len() == 10);
    assert("_f_mount"@ != "_f_opendir"@);
    lemma_lookup_miss(e10, "_f_opendir"@);
    let e11 = e10.drop_first();
    assert(e11 =~= e0.skip(11));
    assert(e11[0].0 == "_f_open"@);
    assert("_f_open"@.len() == 7 && "_f_opendir"@.len() == 10);
    assert("_f_open"@ != "_f_opendir"@);
    lemma_lookup_miss(e11, "_f_opendir"@);
    let e12 = e11.drop_first();
    assert(e12 =~= e0.skip(12));
    assert(e12[0].0 == "_f_opendir"@);
    lemma_lookup_hit(e12, "_f_opendir"@);
    assert(e12[0].1 == m.f_opendir);
}

proof fn lemma_lookup_f_printf(m: MosMap)
    ensures
        lookup_name(symbol_entries(m), "_f_printf"@) == Some(m._f_printf),
{
    reveal_strlit("_f_chdir");
    reveal_strlit("_f_chdrive");
    reveal_strlit("_f_close");
    reveal_strlit("_f_closedir");
    reveal_strlit("_f_getcwd");
    reveal_strlit("_f_getfree");
    reveal_strlit("_f_getlabel");
    reveal_strlit("_f_gets");
    reveal_strlit("_f_lseek");
    reveal_strlit("_f_mkdir");
    reveal_strlit("_f_mount");
    reveal_strlit("_f_open");
    reveal_strlit("_f_opendir");
    reveal_strlit("_f_printf");
    let e0 = symbol_entries(m);
    assert(e0[0].0 == "_f_chdir"@);
    assert("_f_chdir"@.len() == 8 && "_f_printf"@.len() == 9);
    assert("_f_chdir"@ != "_f_printf"@);
    lemma_lookup_miss(e0, "_f_printf"@);
    let e1 = e0.drop_first();
    assert(e1 =~= e0.skip(1));
    assert(e1[0].0 == "_f_chdrive"@);
    assert("_f_chdrive"@.len() == 10 && "_f_printf"@.len() == 9);
    assert("_f_chdrive"@ != "_f_printf"@);
    lemma_lookup_miss(e1, "_f_printf"@);
    let e2 = e1.drop_first();
    assert(e2 =~= e0.skip(2));
    assert(e2[0].0 == "_f_close"@);
    assert("_f_close"@.len() == 8 && "_f_printf"@.len() == 9);
    assert("_f_close"@ != "_f_printf"@);
    lemma_lookup_miss(e2, "_f_printf"@);
    let e3 = e2.drop_first();
    assert(e3 =~= e0.skip(3));
    assert(e3[0].0 == "_f_closedir"@);
    assert("_f_closedir"@.len() == 11 && "_f_printf"@.len() == 9);
    assert("_f_closedir"@ != "_f_printf"@);
    lemma_lookup_miss(e3, "_f_printf"@);
    let e4 = e3.drop_first();
    assert(e4 =~= e0.skip(4));
    assert(e4[0].0 == "_f_getcwd"@);
    assert("_f_getcwd"@[3] == 'g' && "_f_printf"@[3] == 'p');
    assert("_f_getcwd"@.len() == 9 && "_f_printf"@.len() == 9);
    assert("_f_getcwd"@ != "_f_printf"@);
    lemma_lookup_miss(e4, "_f_printf"@);
    let e5 = e4.drop_first();
    assert(e5 =~= e0.skip(5));
    assert(e5[0].0 == "_f_getfree"@);
    assert("_f_getfree"@.len() == 10 && "_f_printf"@.len() == 9);
    assert("_f_getfree"@ != "_f_printf"@);
    lemma_lookup_miss(e5, "_f_printf"@);
    let e6 = e5.drop_first();
    assert(e6 =~= e0.skip(6));
    assert(e6[0].0 == "_f_getlabel"@);
    assert("_f_getlabel"@.len() == 11 && "_f_printf"@.len() == 9);
    assert("_f_getlabel"@ != "_f_printf"@);
    lemma_lookup_miss(e6, "_f_printf"@);
    let e7 = e6.drop_first();
    assert(e7 =~= e0.skip(7));
    assert(e7[0].0 == "_f_gets"@);
    assert("_f_gets"@.len() == 7 && "_f_printf"@.len() == 9);
    assert("_f_gets"@ != "_f_printf"@);
    lemma_lookup_miss(e7, "_f_printf"@);
    let e8 = e7.drop_first();
    assert(e8 =~= e0.skip(8));
    assert(e8[0].0 == "_f_lseek"@);
    assert("_f_lseek"@.len() == 8 && "_f_printf"@.len() == 9);
    assert("_f_lseek"@ != "_f_printf"@);
    lemma_lookup_miss(e8, "_f_printf"@);
    let e9 = e8.drop_first();
    assert(e9 =~= e0.skip(9));
    assert(e9[0].0 == "_f_mkdir"@);
    assert("_f_mkdir"@.len() == 8 && "_f_printf"@.len() == 9);
    assert("_f_mkdir"@ != "_f_printf"@);
    lemma_lookup_miss(e9, "_f_printf"@);
    let e10 = e9.drop_first();
    assert(e10 =~= e0.skip(10));
    assert(e10[0].0 == "_f_mount"@);
    assert("_f_mount"@.len() == 8 && "_f_printf"@.len() == 9);
    assert("_f_mount"@ != "_f_printf"@);
    lemma_lookup_miss(e10, "_f_printf"@);
    let e11 = e10.drop_first();
    assert(e11 =~= e0.skip(11));
    assert(e11[0].0 == "_f_open"@);
    assert("_f_open"@.len() == 7 && "_f_printf"@.len() == 9);
    assert("_f_open"@ != "_f_printf"@);
    lemma_lookup_miss(e11, "_f_printf"@);
    let e12 = e11.drop_first();
    assert(e12 =~= e0.skip(12));
    assert(e12[0].0 == "_f_opendir"@);
    assert("_f_opendir"@.len() == 10 && "_f_printf"@.len() == 9);
    assert("_f_opendir"@ != "_f_printf"@);
    lemma_lookup_miss(e12, "_f_printf"@);
    let e13 = e12.drop_first();
    assert(e13 =~= e0.skip(13));
    assert(e13[0].0 == "_f_printf"@);
    lemma_lookup_hit(e13, "_f_printf"@);
    assert(e13[0].1 == m._f_printf);
}

proof fn lemma_lookup_f_putc(m: MosMap)
    ensures
        lookup_name(symbol_entries(m), "_f_putc"@) == Some(m.f_putc),
{
    reveal_strlit("_f_chdir");
    reveal_strlit("_f_chdrive");
    reveal_strlit("_f_close");
    reveal_strlit("_f_closedir");
    reveal_strlit("_f_getcwd");
    reveal_strlit("_f_getfree");
    reveal_strlit("_f_getlabel");
    reveal_strlit("_f_gets");
    reveal_strlit("_f_lseek");
    reveal_strlit("_f_mkdir");
    reveal_strlit("_f_mount");
    reveal_strlit("_f_open");
    reveal_strlit("_f_opendir");
    reveal_strlit("_f_printf");
    reveal_strlit("_f_putc");
    let e0 = symbol_entries(m);
    assert(e0[0].0 == "_f_chdir"@);
    assert("_f_chdir"@.len() == 8 && "_f_putc"@.len() == 7);
    assert("_f_chdir"@ != "_f_putc"@);
    lemma_lookup_miss(e0, "_f_putc"@);
    let e1 = e0.drop_first();
    assert(e1 =~= e0.skip(1));
    assert(e1[0].0 == "_f_chdrive"@);
    assert("_f_chdrive"@.len() == 10 && "_f_putc"@.len() == 7);
    assert("_f_chdrive"@ != "_f_putc"@);
    lemma_lookup_miss(e1, "_f_putc"@);
    let e2 = e1.drop_first();
    assert(e2 =~= e0.skip(2));
    assert(e2[0].0 == "_f_close"@);
    assert("_f_close"@.len() == 8 && "_f_putc"@.len() == 7);
    assert("_f_close"@ != "_f_putc"@);
    lemma_lookup_miss(e2, "_f_putc"@);
    let e3 = e2.drop_first();
    assert(e3 =~= e0.skip(3));
    assert(e3[0].0 == "_f_closedir"@);
    assert("_f_closedir"@.len() == 11 && "_f_putc"@.len() == 7);
    assert("_f_closedir"@ != "_f_putc"@);
    lemma_lookup_miss(e3, "_f_putc"@);
    let e4 = e3.drop_first();
    assert(e4 =~= e0.skip(4));
    assert(e4[0].0 == "_f_getcwd"@);
    assert("_f_getcwd"@.len() == 9 && "_f_putc"@.len() == 7);
    assert("_f_getcwd"@ != "_f_putc"@);
    lemma_lookup_miss(e4, "_f_putc"@);
    let e5 = e4.drop_first();
    assert(e5 =~= e0.skip(5));
    assert(e5[0].0 == "_f_getfree"@);
    assert("_f_getfree"@.len() == 10 && "_f_putc"@.len() == 7);
    assert("_f_getfree"@ != "_f_putc"@);
    lemma_lookup_miss(e5, "_f_putc"@);
    let e6 = e5.drop_first();
    assert(e6 =~= e0.skip(6));
    assert(e6[0].0 == "_f_getlabel"@);
    assert("_f_getlabel"@.len() == 11 && "_f_putc"@.len() == 7);
    assert("_f_getlabel"@ != "_f_putc"@);
    lemma_lookup_miss(e6, "_f_putc"@);
    let e7 = e6.drop_first();
    assert(e7 =~= e0.skip(7));
    assert(e7[0].0 == "_f_gets"@);
    assert("_f_gets"@[3] == 'g' && "_f_putc"@[3] == 'p');
    assert("_f_gets"@.len() == 7 && "_f_putc"@.len() == 7);
    assert("_f_gets"@ != "_f_putc"@);
    lemma_lookup_miss(e7, "_f_putc"@);
    let e8 = e7.drop_first();
    assert(e8 =~= e0.skip(8));
    assert(e8[0].0 == "_f_lseek"@);
    assert("_f_lseek"@.len() == 8 && "_f_putc"@.len() == 7);
    assert("_f_lseek"@ != "_f_putc"@);
    lemma_lookup_miss(e8, "_f_putc"@);
    let e9 = e8.drop_first();
    assert(e9 =~= e0.skip(9));
    assert(e9[0].0 == "_f_mkdir"@);
    assert("_f_mkdir"@.len() == 8 && "_f_putc"@.len() == 7);
    assert("_f_mkdir"@ != "_f_putc"@);
    lemma_lookup_miss(e9, "_f_putc"@);
    let e10 = e9.drop_first();
    assert(e10 =~= e0.skip(10));
    assert(e10[0].0 == "_f_mount"@);
    assert("_f_mount"@.len() == 8 && "_f_putc"@.len() == 7);
    assert("_f_mount"@ != "_f_putc"@);
    lemma_lookup_miss(e10, "_f_putc"@);
    let e11 = e10.drop_first();
    assert(e11 =~= e0.skip(11));
    assert(e11[0].0 == "_f_open"@);
    assert("_f_open"@[3] == 'o' && "_f_putc"@[3] == 'p');
    assert("_f_open"@.len() == 7 && "_f_putc"@.len() == 7);
    assert("_f_open"@ != "_f_putc"@);
    lemma_lookup_miss(e11, "_f_putc"@);
    let e12 = e11.drop_first();
    assert(e12 =~= e0.skip(12));
    assert(e12[0].0 == "_f_opendir"@);
    assert("_f_opendir"@.len() == 10 && "_f_putc"@.len() == 7);
    assert("_f_opendir"@ != "_f_putc"@);
    lemma_lookup_miss(e12, "_f_putc"@);
    let e13 = e12.drop_first();
    assert(e13 =~= e0.skip(13));
    assert(e13[0].0 == "_f_printf"@);
    assert("_f_printf"@.len() == 9 && "_f_putc"@.len() == 7);
    assert("_f_printf"@ != "_f_putc"@);
    lemma_lookup_miss(e13, "_f_putc"@);
    let e14 = e13.drop_first();
    assert(e14 =~= e0.skip(14));
    assert(e14[0].0 == "_f_putc"@);
    lemma_lookup_hit(e14, "_f_putc"@);
    assert(e14[0].1 == m.f_putc);
}

proof fn lemma_lookup_f_puts(m: MosMap)
    ensures
        lookup_name(symbol_entries(m), "_f_puts"@) == Some(m._f_puts),
{
    reveal_strlit("_f_chdir");
    reveal_strlit("_f_chdrive");
    reveal_strlit("_f_close");
    reveal_strlit("_f_closedir");
    reveal_strlit("_f_getcwd");
    reveal_strlit("_f_getfree");
    reveal_strlit("_f_getlabel");
    reveal_strlit("_f_gets");
    reveal_strlit("_f_lseek");
    reveal_strlit("_f_mkdir");
    reveal_strlit("_f_mount");
    reveal_strlit("_f_open");
    reveal_strlit("_f_opendir");
    reveal_strlit("_f_printf");
    reveal_strlit("_f_putc");
    reveal_strlit("_f_puts");
    let e0 = symbol_entries(m);
    assert(e0[0].0 == "_f_chdir"@);
    assert("_f_chdir"@.len() == 8 && "_f_puts"@.len() == 7);
    assert("_f_chdir"@ != "_f_puts"@);
    lemma_lookup_miss(e0, "_f_puts"@);
    let e1 = e0.drop_first();
    assert(e1 =~= e0.skip(1));
    assert(e1[0].0 == "_f_chdrive"@);
    assert("_f_chdrive"@.len() == 10 && "_f_puts"@.len() == 7);
    assert("_f_chdrive"@ != "_f_puts"@);
    lemma_lookup_miss(e1, "_f_puts"@);
    let e2 = e1.drop_first();
    assert(e2 =~= e0.skip(2));
    assert(e2[0].0 == "_f_close"@);
    assert("_f_close"@.len() == 8 && "_f_puts"@.len() == 7);
    assert("_f_close"@ != "_f_puts"@);
    lemma_lookup_miss(e2, "_f_puts"@);
    let e3 = e2.drop_first();
    assert(e3 =~= e0.skip(3));
    assert(e3[0].0 == "_f_closedir"@);
    assert("_f_closedir"@.len() == 11 && "_f_puts"@.len() == 7);
    assert("_f_closedir"@ != "_f_puts"@);
    lemma_lookup_miss(e3, "_f_puts"@);
    let e4 = e3.drop_first();
    assert(e4 =~= e0.skip(4));
    assert(e4[0].0 == "_f_getcwd"@);
    assert("_f_getcwd"@.len() == 9 && "_f_puts"@.len() == 7);
    assert("_f_getcwd"@ != "_f_puts"@);
    lemma_lookup_miss(e4, "_f_puts"@);
    let e5 = e4.drop_first();
    assert(e5 =~= e0.skip(5));
    assert(e5[0].0 == "_f_getfree"@);
    assert("_f_getfree"@.len() == 10 && "_f_puts"@.len() == 7);
    assert("_f_getfree"@ != "_f_puts"@);
    lemma_lookup_miss(e5, "_f_puts"@);
    let e6 = e5.drop_first();
    assert(e6 =~= e0.skip(6));
    assert(e6[0].0 == "_f_getlabel"@);
    assert("_f_getlabel"@.len() == 11 && "_f_puts"@.len() == 7);
    assert("_f_getlabel"@ != "_f_puts"@);
    lemma_lookup_miss(e6, "_f_puts"@);
    let e7 = e6.drop_first();
    assert(e7 =~= e0.skip(7));
    assert(e7[0].0 == "_f_gets"@);
    assert("_f_gets"@[3] == 'g' && "_f_puts"@[3] == 'p');
    assert("_f_gets"@.len() == 7 && "_f_puts"@.len() == 7);
    assert("_f_gets"@ != "_f_puts"@);
    lemma_lookup_miss(e7, "_f_puts"@);
    let e8 = e7.drop_first();
    assert(e8 =~= e0.skip(8));
    assert(e8[0].0 == "_f_lseek"@);
    assert("_f_lseek"@.len() == 8 && "_f_puts"@.len() == 7);
    assert("_f_lseek"@ != "_f_puts"@);
    lemma_lookup_miss(e8, "_f_puts"@);
    let e9 = e8.drop_first();
    assert(e9 =~= e0.skip(9));
    assert(e9[0].0 == "_f_mkdir"@);
    assert("_f_mkdir"@.len() == 8 && "_f_puts"@.len() == 7);
    assert("_f_mkdir"@ != "_f_puts"@);
    lemma_lookup_miss(e9, "_f_puts"@);
    let e10 = e9.drop_first();
    assert(e10 =~= e0.skip(10));
    assert(e10[0].0 == "_f_mount"@);
    assert("_f_mount"@.len() == 8 && "_f_puts"@.len() == 7);
    assert("_f_mount"@ != "_f_puts"@);
    lemma_lookup_miss(e10, "_f_puts"@);
    let e11 = e10.drop_first();
    assert(e11 =~= e0.skip(11));
    assert(e11[0].0 == "_f_open"@);
    assert("_f_open"@[3] == 'o' && "_f_puts"@[3] == 'p');
    assert("_f_open"@.len() == 7 && "_f_puts"@.len() == 7);
    assert("_f_open"@ != "_f_puts"@);
    lemma_lookup_miss(e11, "_f_puts"@);
    let e12 = e11.drop_first();
    assert(e12 =~= e0.skip(12));
    assert(e12[0].0 == "_f_opendir"@);
    assert("_f_opendir"@.len() == 10 && "_f_puts"@.len() == 7);
    assert("_f_opendir"@ != "_f_puts"@);
    lemma_lookup_miss(e12, "_f_puts"@);
    let e13 = e12.drop_first();
    assert(e13 =~= e0.skip(13));
    assert(e13[0].0 == "_f_printf"@);
    assert("_f_printf"@.len() == 9 && "_f_puts"@.len() == 7);
    assert("_f_printf"@ != "_f_puts"@);
    lemma_lookup_miss(e13, "_f_puts"@);
    let e14 = e13.drop_first();
    assert(e14 =~= e0.skip(14));
    assert(e14[0].0 == "_f_putc"@);
    assert("_f_putc"@[6] == 'c' && "_f_puts"@[6] == 's');
    assert("_f_putc"@.len() == 7 && "_f_puts"@.len() == 7);
    assert("_f_putc"@ != "_f_puts"@);
    lemma_lookup_miss(e14, "_f_puts"@);
    let e15 = e14.drop_first();
    assert(e15 =~= e0.skip(15));
    assert(e15[0].0 == "_f_puts"@);
    lemma_lookup_hit(e15, "_f_puts"@);
    assert(e15[0].1 == m._f_puts);
}

proof fn lemma_lookup_f_read(m: MosMap)
    ensures
        lookup_name(symbol_entries(m), "_f_read"@) == Some(m.f_read),
{
    reveal_strlit("_f_chdir");
    reveal_strlit("_f_chdrive");
    reveal_strlit("_f_close");
    reveal_strlit("_f_closedir");
    reveal_strlit("_f_getcwd");
    reveal_strlit("_f_getfree");
    reveal_strlit("_f_getlabel");
    reveal_strlit("_f_gets");
    reveal_strlit("_f_lseek");
    reveal_strlit("_f_mkdir");
    reveal_strlit("_f_mount");
    reveal_strlit("_f_open");
    reveal_strlit("_f_opendir");
    reveal_strlit("_f_printf");
    reveal_strlit("_f_putc");
    reveal_strlit("_f_puts");
    reveal_strlit("_f_read");
    let e0 = symbol_entries(m);
    assert(e0[0].0 == "_f_chdir"@);
    assert("_f_chdir"@.len() == 8 && "_f_read"@.len() == 7);
    assert("_f_chdir"@ != "_f_read"@);
    lemma_lookup_miss(e0, "_f_read"@);
    let e1 = e0.drop_first();
    assert(e1 =~= e0.skip(1));
    assert(e1[0].0 == "_f_chdrive"@);
    assert("_f_chdrive"@.len() == 10 && "_f_read"@.len() == 7);
    assert("_f_chdrive"@ != "_f_read"@);
    lemma_lookup_miss(e1, "_f_read"@);
    let e2 = e1.drop_first();
    assert(e2 =~= e0.skip(2));
    assert(e2[0].0 == "_f_close"@);
    assert("_f_close"@.len() == 8 && "_f_read"@.len() == 7);
    assert("_f_close"@ != "_f_read"@);
    lemma_lookup_miss(e2, "_f_read"@);
    let e3 = e2.drop_first();
    assert(e3 =~= e0.skip(3));
    assert(e3[0].0 == "_f_closedir"@);
    assert("_f_closedir"@.len() == 11 && "_f_read"@.len() == 7);
    assert("_f_closedir"@ != "_f_read"@);
    lemma_lookup_miss(e3, "_f_read"@);
    let e4 = e3.drop_first();
    assert(e4 =~= e0.skip(4));
    assert(e4[0].0 == "_f_getcwd"@);
    assert("_f_getcwd"@.len() == 9 && "_f_read"@.len() == 7);
    assert("_f_getcwd"@ != "_f_read"@);
    lemma_lookup_miss(e4, "_f_read"@);
    let e5 = e4.drop_first();
    assert(e5 =~= e0.skip(5));
    assert(e5[0].0 == "_f_getfree"@);
    assert("_f_getfree"@.len() == 10 && "_f_read"@.len() == 7);
    assert("_f_getfree"@ != "_f_read"@);
    lemma_lookup_miss(e5, "_f_read"@);
    let e6 = e5.drop_first();
    assert(e6 =~= e0.skip(6));
    assert(e6[0].0 == "_f_getlabel"@);
    assert("_f_getlabel"@.len() == 11 && "_f_read"@.len() == 7);
    assert("_f_getlabel"@ != "_f_read"@);
    lemma_lookup_miss(e6, "_f_read"@);
    let e7 = e6.drop_first();
    assert(e7 =~= e0.skip(7));
    assert(e7[0].0 == "_f_gets"@);
    assert("_f_gets"@[3] == 'g' && "_f_read"@[3] == 'r');
    assert("_f_gets"@.len() == 7 && "_f_read"@.len() == 7);
    assert("_f_gets"@ != "_f_read"@);
    lemma_lookup_miss(e7, "_f_read"@);
    let e8 = e7.drop_first();
    assert(e8 =~= e0.skip(8));
    assert(e8[0].0 == "_f_lseek"@);
    assert("_f_lseek"@.len() == 8 && "_f_read"@.len() == 7);
    assert("_f_lseek"@ != "_f_read"@);
    lemma_lookup_miss(e8, "_f_read"@);
    let e9 = e8.drop_first();
    assert(e9 =~= e0.skip(9));
    assert(e9[0].0 == "_f_mkdir"@);
    assert("_f_mkdir"@.len() == 8 && "_f_read"@.len() == 7);
    assert("_f_mkdir"@ != "_f_read"@);
    lemma_lookup_miss(e9, "_f_read"@);
    let e10 = e9.drop_first();
    assert(e10 =~= e0.skip(10));
    assert(e10[0].0 == "_f_mount"@);
    assert("_f_mount"@.len() == 8 && "_f_read"@.len() == 7);
    assert("_f_mount"@ != "_f_read"@);
    lemma_lookup_miss(e10, "_f_read"@);
    let e11 = e10.drop_first();
    assert(e11 =~= e0.skip(11));
    assert(e11[0].0 == "_f_open"@);
    assert("_f_open"@[3] == 'o' && "_f_read"@[3] == 'r');
    assert("_f_open"@.len() == 7 && "_f_read"@.len() == 7);
    assert("_f_open"@ != "_f_read"@);
    lemma_lookup_miss(e11, "_f_read"@);
    let e12 = e11.drop_first();
    assert(e12 =~= e0.skip(12));
    assert(e12[0].0 == "_f_opendir"@);
    assert("_f_opendir"@.len() == 10 && "_f_read"@.len() == 7);
    assert("_f_opendir"@ != "_f_read"@);
    lemma_lookup_miss(e12, "_f_read"@);
    let e13 = e12.drop_first();
    assert(e13 =~= e0.skip(13));
    assert(e13[0].0 == "_f_printf"@);
    assert("_f_printf"@.len() == 9 && "_f_read"@.len() == 7);
    assert("_f_printf"@ != "_f_read"@);
    lemma_lookup_miss(e13, "_f_read"@);
    let e14 = e13.drop_first();
    assert(e14 =~= e0.skip(14));
    assert(e14[0].0 == "_f_putc"@);
    assert("_f_putc"@[3] == 'p' && "_f_read"@[3] == 'r');
    assert("_f_putc"@.len() == 7 && "_f_read"@.len() == 7);
    assert("_f_putc"@ != "_f_read"@);
    lemma_lookup_miss(e14, "_f_read"@);
    let e15 = e14.drop_first();
    assert(e15 =~= e0.skip(15));
    assert(e15[0].0 == "_f_puts"@);
    assert("_f_puts"@[3] == 'p' && "_f_read"@[3] == 'r');
    assert("_f_puts"@.len() == 7 && "_f_read"@.len() == 7);
    assert("_f_puts"@ != "_f_read"@);
    lemma_lookup_miss(e15, "_f_read"@);
    let e16 = e15.drop_first();
    assert(e16 =~= e0.skip(16));
    assert(e16[0].0 == "_f_read"@);
    lemma_lookup_hit(e16, "_f_read"@);
    assert(e16[0].1 == m.f_read);
}

proof fn lemma_lookup_f_readdir(m: MosMap)
    ensures
        lookup_name(symbol_entries(m), "_f_readdir"@) == Some(m.f_readdir),
{
    reveal_strlit("_f_chdir");
    reveal_strlit("_f_chdrive");
    reveal_strlit("_f_close");
    reveal_strlit("_f_closedir");
    reveal_strlit("_f_getcwd");
    reveal_strlit("_f_getfree");
    reveal_strlit("_f_getlabel");
    reveal_strlit("_f_gets");
    reveal_strlit("_f_lseek");
    reveal_strlit("_f_mkdir");
    reveal_strlit("_f_mount");
    reveal_strlit("_f_open");
    reveal_strlit("_f_opendir");
    reveal_strlit("_f_printf");
    reveal_strlit("_f_putc");
    reveal_strlit("_f_puts");
    reveal_strlit("_f_read");
    reveal_strlit("_f_readdir");
    let e0 = symbol_entries(m);
    assert(e0[0].0 == "_f_chdir"@);
    assert("_f_chdir"@.len() == 8 && "_f_readdir"@.len() == 10);
    assert("_f_chdir"@ != "_f_readdir"@);
    lemma_lookup_miss(e0, "_f_readdir"@);
    let e1 = e0.drop_first();
    assert(e1 =~= e0.skip(1));
    assert(e1[0].0 == "_f_chdrive"@);
    assert("_f_chdrive"@[3] == 'c' && "_f_readdir"@[3] == 'r');
    assert("_f_chdrive"@.len() == 10 && "_f_readdir"@.len() == 10);
    assert("_f_chdrive"@ != "_f_readdir"@);
    lemma_lookup_miss(e1, "_f_readdir"@);
    let e2 = e1.drop_first();
    assert(e2 =~= e0.skip(2));
    assert(e2[0].0 == "_f_close"@);
    assert("_f_close"@.len() == 8 && "_f_readdir"@.len() == 10);
    assert("_f_close"@ != "_f_readdir"@);
    lemma_lookup_miss(e2, "_f_readdir"@);
    let e3 = e2.drop_first();
    assert(e3 =~= e0.skip(3));
    assert(e3[0].0 == "_f_closedir"@);
    assert("_f_closedir"@.len() == 11 && "_f_readdir"@.len() == 10);
    assert("_f_closedir"@ != "_f_readdir"@);
    lemma_lookup_miss(e3, "_f_readdir"@);
    let e4 = e3.drop_first();
    assert(e4 =~= e0.skip(4));
    assert(e4[0].0 == "_f_getcwd"@);
    assert("_f_getcwd"@.len() == 9 && "_f_readdir"@.len() == 10);
    assert("_f_getcwd"@ != "_f_readdir"@);
    lemma_lookup_miss(e4, "_f_readdir"@);
    let e5 = e4.drop_first();
    assert(e5 =~= e0.skip(5));
    assert(e5[0].0 == "_f_getfree"@);
    assert("_f_getfree"@[3] == 'g' && "_f_readdir"@[3] == 'r');
    assert("_f_getfree"@.len() == 10 && "_f_readdir"@.len() == 10);
    assert("_f_getfree"@ != "_f_readdir"@);
    lemma_lookup_miss(e5, "_f_readdir"@);
    let e6 = e5.drop_first();
    assert(e6 =~= e0.skip(6));
    assert(e6[0].0 == "_f_getlabel"@);
    assert("_f_getlabel"@.len() == 11 && "_f_readdir"@.len() == 10);
    assert("_f_getlabel"@ != "_f_readdir"@);
    lemma_lookup_miss(e6, "_f_readdir"@);
    let e7 = e6.drop_first();
    assert(e7 =~= e0.skip(7));
    assert(e7[0].0 == "_f_gets"@);
    assert("_f_gets"@.len() == 7 && "_f_readdir"@.len() == 10);
    assert("_f_gets"@ != "_f_readdir"@);
    lemma_lookup_miss(e7, "_f_readdir"@);
    let e8 = e7.drop_first();
    assert(e8 =~= e0.skip(8));
    assert(e8[0].0 == "_f_lseek"@);
    assert("_f_lseek"@.len() == 8 && "_f_readdir"@.len() == 10);
    assert("_f_lseek"@ != "_f_readdir"@);
    lemma_lookup_miss(e8, "_f_readdir"@);
    let e9 = e8.drop_first();
    assert(e9 =~= e0.skip(9));
    assert(e9[0].0 == "_f_mkdir"@);
    assert("_f_mkdir"@.len() == 8 && "_f_readdir"@.len() == 10);
    assert("_f_mkdir"@ != "_f_readdir"@);
    lemma_lookup_miss(e9, "_f_readdir"@);
    let e10 = e9.drop_first();
    assert(e10 =~= e0.skip(10));
    assert(e10[0].0 == "_f_mount"@);
    assert("_f_mount"@.len() == 8 && "_f_readdir"@.len() == 10);
    assert("_f_mount"@ != "_f_readdir"@);
    lemma_lookup_miss(e10, "_f_readdir"@);
    let e11 = e10.drop_first();
    assert(e11 =~= e0.skip(11));
    assert(e11[0].0 == "_f_open"@);
    assert("_f_open"@.len() == 7 && "_f_readdir"@.len() == 10);
    assert("_f_open"@ != "_f_readdir"@);
    lemma_lookup_miss(e11, "_f_readdir"@);
    let e12 = e11.drop_first();
    assert(e12 =~= e0.skip(12));
    assert(e12[0].0 == "_f_opendir"@);
    assert("_f_opendir"@[3] == 'o' && "_f_readdir"@[3] == 'r');
    assert("_f_opendir"@.len() == 10 && "_f_readdir"@.len() == 10);
    assert("_f_opendir"@ != "_f_readdir"@);
    lemma_lookup_miss(e12, "_f_readdir"@);
    let e13 = e12.drop_first();
    assert(e13 =~= e0.skip(13));
    assert(e13[0].0 == "_f_printf"@);
    assert("_f_printf"@.len() == 9 && "_f_readdir"@.len() == 10);
    assert("_f_printf"@ != "_f_readdir"@);
    lemma_lookup_miss(e13, "_f_readdir"@);
    let e14 = e13.drop_first();
    assert(e14 =~= e0.skip(14));
    assert(e14[0].0 == "_f_putc"@);
    assert("_f_putc"@.len() == 7 && "_f_readdir"@.len() == 10);
    assert("_f_putc"@ != "_f_readdir"@);
    lemma_lookup_miss(e14, "_f_readdir"@);
    let e15 = e14.drop_first();
    assert(e15 =~= e0.skip(15));
    assert(e15[0].0 == "_f_puts"@);
    assert("_f_puts"@.len() == 7 && "_f_readdir"@.len() == 10);
    assert("_f_puts"@ != "_f_readdir"@);
    lemma_lookup_miss(e15, "_f_readdir"@);
    let e16 = e15.drop_first();
    assert(e16 =~= e0.skip(16));
    assert(e16[0].0 == "_f_read"@);
    assert("_f_read"@.len() == 7 && "_f_readdir"@.len() == 10);
    assert("_f_read"@ != "_f_readdir"@);
    lemma_lookup_miss(e16, "_f_readdir"@);
    let e17 = e16.drop_first();
    assert(e17 =~= e0.skip(17));
    assert(e17[0].0 == "_f_readdir"@);
    lemma_lookup_hit(e17, "_f_readdir"@);
    assert(e17[0].1 == m.f_readdir);
}

proof fn lemma_lookup_f_rename(m: MosMap)
    ensures
        lookup_name(symbol_entries(m), "_f_rename"@) == Some(m.f_rename),
{
    reveal_strlit("_f_chdir");
    reveal_strlit("_f_chdrive");
    reveal_strlit("_f_close");
    reveal_strlit("_f_closedir");
    reveal_strlit("_f_getcwd");
    reveal_strlit("_f_getfree");
    reveal_strlit("_f_getlabel");
    reveal_strlit("_f_gets");
    reveal_strlit("_f_lseek");
    reveal_strlit("_f_mkdir");
    reveal_strlit("_f_mount");
    reveal_strlit("_f_open");
    reveal_strlit("_f_opendir");
    reveal_strlit("_f_printf");
    reveal_strlit("_f_putc");
    reveal_strlit("_f_puts");
    reveal_strlit("_f_read");
    reveal_strlit("_f_readdir");
    reveal_strlit("_f_rename");
    let e0 = symbol_entries(m);
    assert(e0[0].0 == "_f_chdir"@);
    assert("_f_chdir"@.len() == 8 && "_f_rename"@.len() == 9);
    assert("_f_chdir"@ != "_f_rename"@);
    lemma_lookup_miss(e0, "_f_rename"@);
    let e1 = e0.drop_first();
    assert(e1 =~= e0.skip(1));
    assert(e1[0].0 == "_f_chdrive"@);
    assert("_f_chdrive"@.len() == 10 && "_f_rename"@.len() == 9);
    assert("_f_chdrive"@ != "_f_rename"@);
    lemma_lookup_miss(e1, "_f_rename"@);
    let e2 = e1.drop_first();
    assert(e2 =~= e0.skip(2));
    assert(e2[0].0 == "_f_close"@);
    assert("_f_close"@.len() == 8 && "_f_rename"@.len() == 9);
    assert("_f_close"@ != "_f_rename"@);
    lemma_lookup_miss(e2, "_f_rename"@);
    let e3 = e2.drop_first();
    assert(e3 =~= e0.skip(3));
    assert(e3[0].0 == "_f_closedir"@);
    assert("_f_closedir"@.len() == 11 && "_f_rename"@.len() == 9);
    assert("_f_closedir"@ != "_f_rename"@);
    lemma_lookup_miss(e3, "_f_rename"@);
    let e4 = e3.drop_first();
    assert(e4 =~= e0.skip(4));
    assert(e4[0].0 == "_f_getcwd"@);
    assert("_f_getcwd"@[3] == 'g' && "_f_rename"@[3] == 'r');
    assert("_f_getcwd"@.len() == 9 && "_f_rename"@.len() == 9);
    assert("_f_getcwd"@ != "_f_rename"@);
    lemma_lookup_miss(e4, "_f_rename"@);
    let e5 = e4.drop_first();
    assert(e5 =~= e0.skip(5));
    assert(e5[0].0 == "_f_getfree"@);
    assert("_f_getfree"@.len() == 10 && "_f_rename"@.len() == 9);
    assert("_f_getfree"@ != "_f_rename"@);
    lemma_lookup_miss(e5, "_f_rename"@);
    let e6 = e5.drop_first();
    assert(e6 =~= e0.skip(6));
    assert(e6[0].0 == "_f_getlabel"@);
    assert("_f_getlabel"@.len() == 11 && "_f_rename"@.len() == 9);
    assert("_f_getlabel"@ != "_f_rename"@);
    lemma_lookup_miss(e6, "_f_rename"@);
    let e7 = e6.drop_first();
    assert(e7 =~= e0.skip(7));
    assert(e7[0].0 == "_f_gets"@);
    assert("_f_gets"@.len() == 7 && "_f_rename"@.len() == 9);
    assert("_f_gets"@ != "_f_rename"@);
    lemma_lookup_miss(e7, "_f_rename"@);
    let e8 = e7.drop_first();
    assert(e8 =~= e0.skip(8));
    assert(e8[0].0 == "_f_lseek"@);
    assert("_f_lseek"@.len() == 8 && "_f_rename"@.len() == 9);
    assert("_f_lseek"@ != "_f_rename"@);
    lemma_lookup_miss(e8, "_f_rename"@);
    let e9 = e8.drop_first();
    assert(e9 =~= e0.skip(9));
    assert(e9[0].0 == "_f_mkdir"@);
    assert("_f_mkdir"@.len() == 8 && "_f_rename"@.len() == 9);
    assert("_f_mkdir"@ != "_f_rename"@);
    lemma_lookup_miss(e9, "_f_rename"@);
    let e10 = e9.drop_first();
    assert(e10 =~= e0.skip(10));
    assert(e10[0].0 == "_f_mount"@);
    assert("_f_mount"@.len() == 8 && "_f_rename"@.len() == 9);
    assert("_f_mount"@ != "_f_rename"@);
    lemma_lookup_miss(e10, "_f_rename"@);
    let e11 = e10.drop_first();
    assert(e11 =~= e0.skip(11));
    assert(e11[0].0 == "_f_open"@);
    assert("_f_open"@.len() == 7 && "_f_rename"@.len() == 9);
    assert("_f_open"@ != "_f_rename"@);
    lemma_lookup_miss(e11, "_f_rename"@);
    let e12 = e11.drop_first();
    assert(e12 =~= e0.skip(12));
    assert(e12[0].0 == "_f_opendir"@);
    assert("_f_opendir"@.len() == 10 && "_f_rename"@.len() == 9);
    assert("_f_opendir"@ != "_f_rename"@);
    lemma_lookup_miss(e12, "_f_rename"@);
    let e13 = e12.drop_first();
    assert(e13 =~= e0.skip(13));
    assert(e13[0].0 == "_f_printf"@);
    assert("_f_printf"@[3] == 'p' && "_f_rename"@[3] == 'r');
    assert("_f_printf"@.len() == 9 && "_f_rename"@.len() == 9);
    assert("_f_printf"@ != "_f_rename"@);
    lemma_lookup_miss(e13, "_f_rename"@);
    let e14 = e13.drop_first();
    assert(e14 =~= e0.skip(14));
    assert(e14[0].0 == "_f_putc"@);
    assert("_f_putc"@.len() == 7 && "_f_rename"@.len() == 9);
    assert("_f_putc"@ != "_f_rename"@);
    lemma_lookup_miss(e14, "_f_rename"@);
    let e15 = e14.drop_first();
    assert(e15 =~= e0.skip(15));
    assert(e15[0].0 == "_f_puts"@);
    assert("_f_puts"@.len() == 7 && "_f_rename"@.len() == 9);
    assert("_f_puts"@ != "_f_rename"@);
    lemma_lookup_miss(e15, "_f_rename"@);
    let e16 = e15.drop_first();
    assert(e16 =~= e0.skip(16));
    assert(e16[0].0 == "_f_read"@);
    assert("_f_read"@.len() == 7 && "_f_rename"@.len() == 9);
    assert("_f_read"@ != "_f_rename"@);
    lemma_lookup_miss(e16, "_f_rename"@);
    let e17 = e16.drop_first();
    assert(e17 =~= e0.skip(17));
    assert(e17[0].0 == "_f_readdir"@);
    assert("_f_readdir"@.len() == 10 && "_f_rename"@.len() == 9);
    assert("_f_readdir"@ != "_f_rename"@);
    lemma_lookup_miss(e17, "_f_rename"@);
    let e18 = e17.drop_first();
    assert(e18 =~= e0.skip(18));
    assert(e18[0].0 == "_f_rename"@);
    lemma_lookup_hit(e18, "_f_rename"@);
    assert(e18[0].1 == m.f_rename);
}

proof fn lemma_lookup_f_setlabel(m: MosMap)
    ensures
        lookup_name(symbol_entries(m), "_f_setlabel"@) == Some(m._f_setlabel),
{
    reveal_strlit("_f_chdir");
    reveal_strlit("_f_chdrive");
    reveal_strlit("_f_close");
    reveal_strlit("_f_closedir");
    reveal_strlit("_f_getcwd");
    reveal_strlit("_f_getfree");
    reveal_strlit("_f_getlabel");
    reveal_strlit("_f_gets");
    reveal_strlit("_f_lseek");
    reveal_strlit("_f_mkdir");
    reveal_strlit("_f_mount");
    reveal_strlit("_f_open");
    reveal_strlit("_f_opendir");
    reveal_strlit("_f_printf");
    reveal_strlit("_f_putc");
    reveal_strlit("_f_puts");
    reveal_strlit("_f_read");
    reveal_strlit("_f_readdir");
    reveal_strlit("_f_rename");
    reveal_strlit("_f_setlabel");
    let e0 = symbol_entries(m);
    assert(e0[0].0 == "_f_chdir"@);
    assert("_f_chdir"@.len() == 8 && "_f_setlabel"@.len() == 11);
    assert("_f_chdir"@ != "_f_setlabel"@);
    lemma_lookup_miss(e0, "_f_setlabel"@);
    let e1 = e0.drop_first();
    assert(e1 =~= e0.skip(1));
    assert(e1[0].0 == "_f_chdrive"@);
    assert("_f_chdrive"@.len() == 10 && "_f_setlabel"@.len() == 11);
    assert("_f_chdrive"@ != "_f_setlabel"@);
    lemma_lookup_miss(e1, "_f_setlabel"@);
    let e2 = e1.drop_first();
    assert(e2 =~= e0.skip(2));
    assert(e2[0].0 == "_f_close"@);
    assert("_f_close"@.len() == 8 && "_f_setlabel"@.len() == 11);
    assert("_f_close"@ != "_f_setlabel"@);
    lemma_lookup_miss(e2, "_f_setlabel"@);
    let e3 = e2.drop_first();
    assert(e3 =~= e0.skip(3));
    assert(e3[0].0 == "_f_closedir"@);
    assert("_f_closedir"@[3] == 'c' && "_f_setlabel"@[3] == 's');
    assert("_f_closedir"@.len() == 11 && "_f_setlabel"@.len() == 11);
    assert("_f_closedir"@ != "_f_setlabel"@);
    lemma_lookup_miss(e3, "_f_setlabel"@);
    let e4 = e3.drop_first();
    assert(e4 =~= e0.skip(4));
    assert(e4[0].0 == "_f_getcwd"@);
    assert("_f_getcwd"@.len() == 9 && "_f_setlabel"@.len() == 11);
    assert("_f_getcwd"@ != "_f_setlabel"@);
    lemma_lookup_miss(e4, "_f_setlabel"@);
    let e5 = e4.drop_first();
    assert(e5 =~= e0.skip(5));
    assert(e5[0].0 == "_f_getfree"@);
    assert("_f_getfree"@.len() == 10 && "_f_setlabel"@.len() == 11);
    assert("_f_getfree"@ != "_f_setlabel"@);
    lemma_lookup_miss(e5, "_f_setlabel"@);
    let e6 = e5.drop_first();
    assert(e6 =~= e0.skip(6));
    assert(e6[0].0 == "_f_getlabel"@);
    assert("_f_getlabel"@[3] == 'g' && "_f_setlabel"@[3] == 's');
    assert("_f_getlabel"@.len() == 11 && "_f_setlabel"@.len() == 11);
    assert("_f_getlabel"@ != "_f_setlabel"@);
    lemma_lookup_miss(e6, "_f_setlabel"@);
    let e7 = e6.drop_first();
    assert(e7 =~= e0.skip(7));
    assert(e7[0].0 == "_f_gets"@);
    assert("_f_gets"@.len() == 7 && "_f_setlabel"@.len() == 11);
    assert("_f_gets"@ != "_f_setlabel"@);
    lemma_lookup_miss(e7, "_f_setlabel"@);
    let e8 = e7.drop_first();
    assert(e8 =~= e0.skip(8));
    assert(e8[0].0 == "_f_lseek"@);
    assert("_f_lseek"@.len() == 8 && "_f_setlabel"@.len() == 11);
    assert("_f_lseek"@ != "_f_setlabel"@);
    lemma_lookup_miss(e8, "_f_setlabel"@);
    let e9 = e8.drop_first();
    assert(e9 =~= e0.skip(9));
    assert(e9[0].0 == "_f_mkdir"@);
    assert("_f_mkdir"@.len() == 8 && "_f_setlabel"@.len() == 11);
    assert("_f_mkdir"@ != "_f_setlabel"@);
    lemma_lookup_miss(e9, "_f_setlabel"@);
    let e10 = e9.drop_first();
    assert(e10 =~= e0.skip(10));
    assert(e10[0].0 == "_f_mount"@);
    assert("_f_mount"@.len() == 8 && "_f_setlabel"@.len() == 11);
    assert("_f_mount"@ != "_f_setlabel"@);
    lemma_lookup_miss(e10, "_f_setlabel"@);
    let e11 = e10.drop_first();
    assert(e11 =~= e0.skip(11));
    assert(e11[0].0 == "_f_open"@);
    assert("_f_open"@.len() == 7 && "_f_setlabel"@.len() == 11);
    assert("_f_open"@ != "_f_setlabel"@);
    lemma_lookup_miss(e11, "_f_setlabel"@);
    let e12 = e11.drop_first();
    assert(e12 =~= e0.skip(12));
    assert(e12[0].0 == "_f_opendir"@);
    assert("_f_opendir"@.len() == 10 && "_f_setlabel"@.len() == 11);
    assert("_f_opendir"@ != "_f_setlabel"@);
    lemma_lookup_miss(e12, "_f_setlabel"@);
    let e13 = e12.drop_first();
    assert(e13 =~= e0.skip(13));
    assert(e13[0].0 == "_f_printf"@);
    assert("_f_printf"@.len() == 9 && "_f_setlabel"@.len() == 11);
    assert("_f_printf"@ != "_f_setlabel"@);
    lemma_lookup_miss(e13, "_f_setlabel"@);
    let e14 = e13.drop_first();
    assert(e14 =~= e0.skip(14));
    assert(e14[0].0 == "_f_putc"@);
    assert("_f_putc"@.len() == 7 && "_f_setlabel"@.len() == 11);
    assert("_f_putc"@ != "_f_setlabel"@);
    lemma_lookup_miss(e14, "_f_setlabel"@);
    let e15 = e14.drop_first();
    assert(e15 =~= e0.skip(15));
    assert(e15[0].0 == "_f_puts"@);
    assert("_f_puts"@.len() == 7 && "_f_setlabel"@.len() == 11);
    assert("_f_puts"@ != "_f_setlabel"@);
    lemma_lookup_miss(e15, "_f_setlabel"@);
    let e16 = e15.drop_first();
    assert(e16 =~= e0.skip(16));
    assert(e16[0].0 == "_f_read"@);
    assert("_f_read"@.len() == 7 && "_f_setlabel"@.len() == 11);
    assert("_f_read"@ != "_f_setlabel"@);
    lemma_lookup_miss(e16, "_f_setlabel"@);
    let e17 = e16.drop_first();
    assert(e17 =~= e0.skip(17));
    assert(e17[0].0 == "_f_readdir"@);
    assert("_f_readdir"@.len() == 10 && "_f_setlabel"@.len() == 11);
    assert("_f_readdir"@ != "_f_setlabel"@);
    lemma_lookup_miss(e17, "_f_setlabel"@);
    let e18 = e17.drop_first();
    assert(e18 =~= e0.skip(18));
    assert(e18[0].0 == "_f_rename"@);
    assert("_f_rename"@.len() == 9 && "_f_setlabel"@.len() == 11);
    assert("_f_rename"@ != "_f_setlabel"@);
    lemma_lookup_miss(e18, "_f_setlabel"@);
    let e19 = e18.drop_first();
    assert(e19 =~= e0.skip(19));
    assert(e19[0].0 == "_f_setlabel"@);
    lemma_lookup_hit(e19, "_f_setlabel"@);
    assert(e19[0].1 == m._f_setlabel);
}

proof fn lemma_lookup_f_stat(m: MosMap)
    ensures
        lookup_name(symbol_entries(m), "_f_stat"@) == Some(m.f_stat),
{
    reveal_strlit("_f_chdir");
    reveal_strlit("_f_chdrive");
    reveal_strlit("_f_close");
    reveal_strlit("_f_closedir");
    reveal_strlit("_f_getcwd");
    reveal_strlit("_f_getfree");
    reveal_strlit("_f_getlabel");
    reveal_strlit("_f_gets");
    reveal_strlit("_f_lseek");
    reveal_strlit("_f_mkdir");
    reveal_strlit("_f_mount");
    reveal_strlit("_f_open");
    reveal_strlit("_f_opendir");
    reveal_strlit("_f_printf");
    reveal_strlit("_f_putc");
    reveal_strlit("_f_puts");
    reveal_strlit("_f_read");
    reveal_strlit("_f_readdir");
    reveal_strlit("_f_rename");
    reveal_strlit("_f_setlabel");
    reveal_strlit("_f_stat");
    let e0 = symbol_entries(m);
    assert(e0[0].0 == "_f_chdir"@);
    assert("_f_chdir"@.len() == 8 && "_f_stat"@.len() == 7);
    assert("_f_chdir"@ != "_f_stat"@);
    lemma_lookup_miss(e0, "_f_stat"@);
    let e1 = e0.drop_first();
    assert(e1 =~= e0.skip(1));
    assert(e1[0].0 == "_f_chdrive"@);
    assert("_f_chdrive"@.len() == 10 && "_f_stat"@.len() == 7);
    assert("_f_chdrive"@ != "_f_stat"@);
    lemma_lookup_miss(e1, "_f_stat"@);
    let e2 = e1.drop_first();
    assert(e2 =~= e0.skip(2));
    assert(e2[0].0 == "_f_close"@);
    assert("_f_close"@.len() == 8 && "_f_stat"@.len() == 7);
    assert("_f_close"@ != "_f_stat"@);
    lemma_lookup_miss(e2, "_f_stat"@);
    let e3 = e2.drop_first();
    assert(e3 =~= e0.skip(3));
    assert(e3[0].0 == "_f_closedir"@);
    assert("_f_closedir"@.len() == 11 && "_f_stat"@.len() == 7);
    assert("_f_closedir"@ != "_f_stat"@);
    lemma_lookup_miss(e3, "_f_stat"@);
    let e4 = e3.drop_first();
    assert(e4 =~= e0.skip(4));
    assert(e4[0].0 == "_f_getcwd"@);
    assert("_f_getcwd"@.len() == 9 && "_f_stat"@.len() == 7);
    assert("_f_getcwd"@ != "_f_stat"@);
    lemma_lookup_miss(e4, "_f_stat"@);
    let e5 = e4.drop_first();
    assert(e5 =~= e0.skip(5));
    assert(e5[0].0 == "_f_getfree"@);
    assert("_f_getfree"@.len() == 10 && "_f_stat"@.len() == 7);
    assert("_f_getfree"@ != "_f_stat"@);
    lemma_lookup_miss(e5, "_f_stat"@);
    let e6 = e5.drop_first();
    assert(e6 =~= e0.skip(6));
    assert(e6[0].0 == "_f_getlabel"@);
    assert("_f_getlabel"@.len() == 11 && "_f_stat"@.len() == 7);
    assert("_f_getlabel"@ != "_f_stat"@);
    lemma_lookup_miss(e6, "_f_stat"@);
    let e7 = e6.drop_first();
    assert(e7 =~= e0.skip(7));
    assert(e7[0].0 == "_f_gets"@);
    assert("_f_gets"@[3] == 'g' && "_f_stat"@[3] == 's');
    assert("_f_gets"@.len() == 7 && "_f_stat"@.len() == 7);
    assert("_f_gets"@ != "_f_stat"@);
    lemma_lookup_miss(e7, "_f_stat"@);
    let e8 = e7.drop_first();
    assert(e8 =~= e0.skip(8));
    assert(e8[0].0 == "_f_lseek"@);
    assert("_f_lseek"@.len() == 8 && "_f_stat"@.len() == 7);
    assert("_f_lseek"@ != "_f_stat"@);
    lemma_lookup_miss(e8, "_f_stat"@);
    let e9 = e8.drop_first();
    assert(e9 =~= e0.skip(9));
    assert(e9[0].0 == "_f_mkdir"@);
    assert("_f_mkdir"@.len() == 8 && "_f_stat"@.len() == 7);
    assert("_f_mkdir"@ != "_f_stat"@);
    lemma_lookup_miss(e9, "_f_stat"@);
    let e10 = e9.drop_first();
    assert(e10 =~= e0.skip(10));
    assert(e10[0].0 == "_f_mount"@);
    assert("_f_mount"@.len() == 8 && "_f_stat"@.len() == 7);
    assert("_f_mount"@ != "_f_stat"@);
    lemma_lookup_miss(e10, "_f_stat"@);
    let e11 = e10.drop_first();
    assert(e11 =~= e0.skip(11));
    assert(e11[0].0 == "_f_open"@);
    assert("_f_open"@[3] == 'o' && "_f_stat"@[3] == 's');
    assert("_f_open"@.len() == 7 && "_f_stat"@.len() == 7);
    assert("_f_open"@ != "_f_stat"@);
    lemma_lookup_miss(e11, "_f_stat"@);
    let e12 = e11.drop_first();
    assert(e12 =~= e0.skip(12));
    assert(e12[0].0 == "_f_opendir"@);
    assert("_f_opendir"@.len() == 10 && "_f_stat"@.len() == 7);
    assert("_f_opendir"@ != "_f_stat"@);
    lemma_lookup_miss(e12, "_f_stat"@);
    let e13 = e12.drop_first();
    assert(e13 =~= e0.skip(13));
    assert(e13[0].0 == "_f_printf"@);
    assert("_f_printf"@.len() == 9 && "_f_stat"@.len() == 7);
    assert("_f_printf"@ != "_f_stat"@);
    lemma_lookup_miss(e13, "_f_stat"@);
    let e14 = e13.drop_first();
    assert(e14 =~= e0.skip(14));
    assert(e14[0].0 == "_f_putc"@);
    assert("_f_putc"@[3] == 'p' && "_f_stat"@[3] == 's');
    assert("_f_putc"@.len() == 7 && "_f_stat"@.len() == 7);
    assert("_f_putc"@ != "_f_stat"@);
    lemma_lookup_miss(e14, "_f_stat"@);
    let e15 = e14.drop_first();
    assert(e15 =~= e0.skip(15));
    assert(e15[0].0 == "_f_puts"@);
    assert("_f_puts"@[3] == 'p' && "_f_stat"@[3] == 's');
    assert("_f_puts"@.len() == 7 && "_f_stat"@.len() == 7);
    assert("_f_puts"@ != "_f_stat"@);
    lemma_lookup_miss(e15, "_f_stat"@);
    let e16 = e15.drop_first();
    assert(e16 =~= e0.skip(16));
    assert(e16[0].0 == "_f_read"@);
    assert("_f_read"@[3] == 'r' && "_f_stat"@[3] == 's');
    assert("_f_read"@.len() == 7 && "_f_stat"@.len() == 7);
    assert("_f_read"@ != "_f_stat"@);
    lemma_lookup_miss(e16, "_f_stat"@);
    let e17 = e16.drop_first();
    assert(e17 =~= e0.skip(17));
    assert(e17[0].0 == "_f_readdir"@);
    assert("_f_readdir"@.len() == 10 && "_f_stat"@.len() == 7);
    assert("_f_readdir"@ != "_f_stat"@);
    lemma_lookup_miss(e17, "_f_stat"@);
    let e18 = e17.drop_first();
    assert(e18 =~= e0.skip(18));
    assert(e18[0].0 == "_f_rename"@);
    assert("_f_rename"@.len() == 9 && "_f_stat"@.len() == 7);
    assert("_f_rename"@ != "_f_stat"@);
    lemma_lookup_miss(e18, "_f_stat"@);
    let e19 = e18.drop_first();
    assert(e19 =~= e0.skip(19));
    assert(e19[0].0 == "_f_setlabel"@);
    assert("_f_setlabel"@.len() == 11 && "_f_stat"@.len() == 7);
    assert("_f_setlabel"@ != "_f_stat"@);
    lemma_lookup_miss(e19, "_f_stat"@);
    let e20 = e19.drop_first();
    assert(e20 =~= e0.skip(20));
    assert(e20[0].0 == "_f_stat"@);
    lemma_lookup_hit(e20, "_f_stat"@);
    assert(e20[0].1 == m.f_stat);
}

proof fn lemma_lookup_f_sync(m: MosMap)
    ensures
        lookup_name(symbol_entries(m), "_f_sync"@) == Some(m._f_sync),
{
    reveal_strlit("_f_chdir");
    reveal_strlit("_f_chdrive");
    reveal_strlit("_f_close");
    reveal_strlit("_f_closedir");
    reveal_strlit("_f_getcwd");
    reveal_strlit("_f_getfree");
    reveal_strlit("_f_getlabel");
    reveal_strlit("_f_gets");
    reveal_strlit("_f_lseek");
    reveal_strlit("_f_mkdir");
    reveal_strlit("_f_mount");
    reveal_strlit("_f_open");
    reveal_strlit("_f_opendir");
    reveal_strlit("_f_printf");
    reveal_strlit("_f_putc");
    reveal_strlit("_f_puts");
    reveal_strlit("_f_read");
    reveal_strlit("_f_readdir");
    reveal_strlit("_f_rename");
    reveal_strlit("_f_setlabel");
    reveal_strlit("_f_stat");
    reveal_strlit("_f_sync");
    let e0 = symbol_entries(m);
    assert(e0[0].0 == "_f_chdir"@);
    assert("_f_chdir"@.len() == 8 && "_f_sync"@.len() == 7);
    assert("_f_chdir"@ != "_f_sync"@);
    lemma_lookup_miss(e0, "_f_sync"@);
    let e1 = e0.drop_first();
    assert(e1 =~= e0.skip(1));
    assert(e1[0].0 == "_f_chdrive"@);
    assert("_f_chdrive"@.len() == 10 && "_f_sync"@.len() == 7);
    assert("_f_chdrive"@ != "_f_sync"@);
    lemma_lookup_miss(e1, "_f_sync"@);
    let e2 = e1.drop_first();
    assert(e2 =~= e0.skip(2));
    assert(e2[0].0 == "_f_close"@);
    assert("_f_close"@.len() == 8 && "_f_sync"@.len() == 7);
    assert("_f_close"@ != "_f_sync"@);
    lemma_lookup_miss(e2, "_f_sync"@);
    let e3 = e2.drop_first();
    assert(e3 =~= e0.skip(3));
    assert(e3[0].0 == "_f_closedir"@);
    assert("_f_closedir"@.len() == 11 && "_f_sync"@.len() == 7);
    assert("_f_closedir"@ != "_f_sync"@);
    lemma_lookup_miss(e3, "_f_sync"@);
    let e4 = e3.drop_first();
    assert(e4 =~= e0.skip(4));
    assert(e4[0].0 == "_f_getcwd"@);
    assert("_f_getcwd"@.len() == 9 && "_f_sync"@.len() == 7);
    assert("_f_getcwd"@ != "_f_sync"@);
    lemma_lookup_miss(e4, "_f_sync"@);
    let e5 = e4.drop_first();
    assert(e5 =~= e0.skip(5));
    assert(e5[0].0 == "_f_getfree"@);
    assert("_f_getfree"@.len() == 10 && "_f_sync"@.len() == 7);
    assert("_f_getfree"@ != "_f_sync"@);
    lemma_lookup_miss(e5, "_f_sync"@);
    let e6 = e5.drop_first();
    assert(e6 =~= e0.skip(6));
    assert(e6[0].0 == "_f_getlabel"@);
    assert("_f_getlabel"@.len() == 11 && "_f_sync"@.len() == 7);
    assert("_f_getlabel"@ != "_f_sync"@);
    lemma_lookup_miss(e6, "_f_sync"@);
    let e7 = e6.drop_first();
    assert(e7 =~= e0.skip(7));
    assert(e7[0].0 == "_f_gets"@);
    assert("_f_gets"@[3] == 'g' && "_f_sync"@[3] == 's');
    assert("_f_gets"@.len() == 7 && "_f_sync"@.len() == 7);
    assert("_f_gets"@ != "_f_sync"@);
    lemma_lookup_miss(e7, "_f_sync"@);
    let e8 = e7.drop_first();
    assert(e8 =~= e0.skip(8));
    assert(e8[0].0 == "_f_lseek"@);
    assert("_f_lseek"@.len() == 8 && "_f_sync"@.len() == 7);
    assert("_f_lseek"@ != "_f_sync"@);
    lemma_lookup_miss(e8, "_f_sync"@);
    let e9 = e8.drop_first();
    assert(e9 =~= e0.skip(9));
    assert(e9[0].0 == "_f_mkdir"@);
    assert("_f_mkdir"@.len() == 8 && "_f_sync"@.len() == 7);
    assert("_f_mkdir"@ != "_f_sync"@);
    lemma_lookup_miss(e9, "_f_sync"@);
    let e10 = e9.drop_first();
    assert(e10 =~= e0.skip(10));
    assert(e10[0].0 == "_f_mount"@);
    assert("_f_mount"@.len() == 8 && "_f_sync"@.len() == 7);
    assert("_f_mount"@ != "_f_sync"@);
    lemma_lookup_miss(e10, "_f_sync"@);
    let e11 = e10.drop_first();
    assert(e11 =~= e0.skip(11));
    assert(e11[0].0 == "_f_open"@);
    assert("_f_open"@[3] == 'o' && "_f_sync"@[3] == 's');
    assert("_f_open"@.len() == 7 && "_f_sync"@.len() == 7);
    assert("_f_open"@ != "_f_sync"@);
    lemma_lookup_miss(e11, "_f_sync"@);
    let e12 = e11.drop_first();
    assert(e12 =~= e0.skip(12));
    assert(e12[0].0 == "_f_opendir"@);
    assert("_f_opendir"@.len() == 10 && "_f_sync"@.len() == 7);
    assert("_f_opendir"@ != "_f_sync"@);
    lemma_lookup_miss(e12, "_f_sync"@);
    let e13 = e12.drop_first();
    assert(e13 =~= e0.skip(13));
    assert(e13[0].0 == "_f_printf"@);
    assert("_f_printf"@.len() == 9 && "_f_sync"@.len() == 7);
    assert("_f_printf"@ != "_f_sync"@);
    lemma_lookup_miss(e13, "_f_sync"@);
    let e14 = e13.drop_first();
    assert(e14 =~= e0.skip(14));
    assert(e14[0].0 == "_f_putc"@);
    assert("_f_putc"@[3] == 'p' && "_f_sync"@[3] == 's');
    assert("_f_putc"@.len() == 7 && "_f_sync"@.len() == 7);
    assert("_f_putc"@ != "_f_sync"@);
    lemma_lookup_miss(e14, "_f_sync"@);
    let e15 = e14.drop_first();
    assert(e15 =~= e0.skip(15));
    assert(e15[0].0 == "_f_puts"@);
    assert("_f_puts"@[3] == 'p' && "_f_sync"@[3] == 's');
    assert("_f_puts"@.len() == 7 && "_f_sync"@.len() == 7);
    assert("_f_puts"@ != "_f_sync"@);
    lemma_lookup_miss(e15, "_f_sync"@);
    let e16 = e15.drop_first();
    assert(e16 =~= e0.skip(16));
    assert(e16[0].0 == "_f_read"@);
    assert("_f_read"@[3] == 'r' && "_f_sync"@[3] == 's');
    assert("_f_read"@.len() == 7 && "_f_sync"@.len() == 7);
    assert("_f_read"@ != "_f_sync"@);
    lemma_lookup_miss(e16, "_f_sync"@);
    let e17 = e16.drop_first();
    assert(e17 =~= e0.skip(17));
    assert(e17[0].0 == "_f_readdir"@);
    assert("_f_readdir"@.len() == 10 && "_f_sync"@.len() == 7);
    assert("_f_readdir"@ != "_f_sync"@);
    lemma_lookup_miss(e17, "_f_sync"@);
    let e18 = e17.drop_first();
    assert(e18 =~= e0.skip(18));
    assert(e18[0].0 == "_f_rename"@);
    assert("_f_rename"@.len() == 9 && "_f_sync"@.len() == 7);
    assert("_f_rename"@ != "_f_sync"@);
    lemma_lookup_miss(e18, "_f_sync"@);
    let e19 = e18.drop_first();
    assert(e19 =~= e0.skip(19));
    assert(e19[0].0 == "_f_setlabel"@);
    assert("_f_setlabel"@.len() == 11 && "_f_sync"@.len() == 7);
    assert("_f_setlabel"@ != "_f_sync"@);
    lemma_lookup_miss(e19, "_f_sync"@);
    let e20 = e19.drop_first();
    assert(e20 =~= e0.skip(20));
    assert(e20[0].0 == "_f_stat"@);
    assert("_f_stat"@[4] == 't' && "_f_sync"@[4] == 'y');
    assert("_f_stat"@.len() == 7 && "_f_sync"@.len() == 7);
    assert("_f_stat"@ != "_f_sync"@);
    lemma_lookup_miss(e20, "_f_sync"@);
    let e21 = e20.drop_first();
    assert(e21 =~= e0.skip(21));
    assert(e21[0].0 == "_f_sync"@);
    lemma_lookup_hit(e21, "_f_sync"@);
    assert(e21[0].1 == m._f_sync);
}

proof fn lemma_lookup_f_truncate(m: MosMap)
    ensures
        lookup_name(symbol_entries(m), "_f_truncate"@) == Some(m._f_truncate),
{
    reveal_strlit("_f_chdir");
    reveal_strlit("_f_chdrive");
    reveal_strlit("_f_close");
    reveal_strlit("_f_closedir");
    reveal_strlit("_f_getcwd");
    reveal_strlit("_f_getfree");
    reveal_strlit("_f_getlabel");
    reveal_strlit("_f_gets");
    reveal_strlit("_f_lseek");
    reveal_strlit("_f_mkdir");
    reveal_strlit("_f_mount");
    reveal_strlit("_f_open");
    reveal_strlit("_f_opendir");
    reveal_strlit("_f_printf");
    reveal_strlit("_f_putc");
    reveal_strlit("_f_puts");
    reveal_strlit("_f_read");
    reveal_strlit("_f_readdir");
    reveal_strlit("_f_rename");
    reveal_strlit("_f_setlabel");
    reveal_strlit("_f_stat");
    reveal_strlit("_f_sync");
    reveal_strlit("_f_truncate");
    let e0 = symbol_entries(m);
    assert(e0[0].0 == "_f_chdir"@);
    assert("_f_chdir"@.len() == 8 && "_f_truncate"@.len() == 11);
    assert("_f_chdir"@ != "_f_truncate"@);
    lemma_lookup_miss(e0, "_f_truncate"@);
    let e1 = e0.drop_first();
    assert(e1 =~= e0.skip(1));
    assert(e1[0].0 == "_f_chdrive"@);
    assert("_f_chdrive"@.len() == 10 && "_f_truncate"@.len() == 11);
    assert("_f_chdrive"@ != "_f_truncate"@);
    lemma_lookup_miss(e1, "_f_truncate"@);
    let e2 = e1.drop_first();
    assert(e2 =~= e0.skip(2));
    assert(e2[0].0 == "_f_close"@);
    assert("_f_close"@.len() == 8 && "_f_truncate"@.len() == 11);
    assert("_f_close"@ != "_f_truncate"@);
    lemma_lookup_miss(e2, "_f_truncate"@);
    let e3 = e2.drop_first();
    assert(e3 =~= e0.skip(3));
    assert(e3[0].0 == "_f_closedir"@);
    assert("_f_closedir"@[3] == 'c' && "_f_truncate"@[3] == 't');
    assert("_f_closedir"@.len() == 11 && "_f_truncate"@.len() == 11);
    assert("_f_closedir"@ != "_f_truncate"@);
    lemma_lookup_miss(e3, "_f_truncate"@);
    let e4 = e3.drop_first();
    assert(e4 =~= e0.skip(4));
    assert(e4[0].0 == "_f_getcwd"@);
    assert("_f_getcwd"@.len() == 9 && "_f_truncate"@.len() == 11);
    assert("_f_getcwd"@ != "_f_truncate"@);
    lemma_lookup_miss(e4, "_f_truncate"@);
    let e5 = e4.drop_first();
    assert(e5 =~= e0.skip(5));
    assert(e5[0].0 == "_f_getfree"@);
    assert("_f_getfree"@.len() == 10 && "_f_truncate"@.len() == 11);
    assert("_f_getfree"@ != "_f_truncate"@);
    lemma_lookup_miss(e5, "_f_truncate"@);
    let e6 = e5.drop_first();
    assert(e6 =~= e0.skip(6));
    assert(e6[0].0 == "_f_getlabel"@);
    assert("_f_getlabel"@[3] == 'g' && "_f_truncate"@[3] == 't');
    assert("_f_getlabel"@.len() == 11 && "_f_truncate"@.len() == 11);
    assert("_f_getlabel"@ != "_f_truncate"@);
    lemma_lookup_miss(e6, "_f_truncate"@);
    let e7 = e6.drop_first();
    assert(e7 =~= e0.skip(7));
    assert(e7[0].0 == "_f_gets"@);
    assert("_f_gets"@.len() == 7 && "_f_truncate"@.len() == 11);
    assert("_f_gets"@ != "_f_truncate"@);
    lemma_lookup_miss(e7, "_f_truncate"@);
    let e8 = e7.drop_first();
    assert(e8 =~= e0.skip(8));
    assert(e8[0].0 == "_f_lseek"@);
    assert("_f_lseek"@.len() == 8 && "_f_truncate"@.len() == 11);
    assert("_f_lseek"@ != "_f_truncate"@);
    lemma_lookup_miss(e8, "_f_truncate"@);
    let e9 = e8.drop_first();
    assert(e9 =~= e0.skip(9));
    assert(e9[0].0 == "_f_mkdir"@);
    assert("_f_mkdir"@.len() == 8 && "_f_truncate"@.len() == 11);
    assert("_f_mkdir"@ != "_f_truncate"@);
    lemma_lookup_miss(e9, "_f_truncate"@);
    let e10 = e9.drop_first();
    assert(e10 =~= e0.skip(10));
    assert(e10[0].0 == "_f_mount"@);
    assert("_f_mount"@.len() == 8 && "_f_truncate"@.len() == 11);
    assert("_f_mount"@ != "_f_truncate"@);
    lemma_lookup_miss(e10, "_f_truncate"@);
    let e11 = e10.drop_first();
    assert(e11 =~= e0.skip(11));
    assert(e11[0].0 == "_f_open"@);
    assert("_f_open"@.len() == 7 && "_f_truncate"@.len() == 11);
    assert("_f_open"@ != "_f_truncate"@);
    lemma_lookup_miss(e11, "_f_truncate"@);
    let e12 = e11.drop_first();
    assert(e12 =~= e0.skip(12));
    assert(e12[0].0 == "_f_opendir"@);
    assert("_f_opendir"@.len() == 10 && "_f_truncate"@.len() == 11);
    assert("_f_opendir"@ != "_f_truncate"@);
    lemma_lookup_miss(e12, "_f_truncate"@);
    let e13 = e12.drop_first();
    assert(e13 =~= e0.skip(13));
    assert(e13[0].0 == "_f_printf"@);
    assert("_f_printf"@.len() == 9 && "_f_truncate"@.len() == 11);
    assert("_f_printf"@ != "_f_truncate"@);
    lemma_lookup_miss(e13, "_f_truncate"@);
    let e14 = e13.drop_first();
    assert(e14 =~= e0.skip(14));
    assert(e14[0].0 == "_f_putc"@);
    assert("_f_putc"@.len() == 7 && "_f_truncate"@.len() == 11);
    assert("_f_putc"@ != "_f_truncate"@);
    lemma_lookup_miss(e14, "_f_truncate"@);
    let e15 = e14.drop_first();
    assert(e15 =~= e0.skip(15));
    assert(e15[0].0 == "_f_puts"@);
    assert("_f_puts"@.len() == 7 && "_f_truncate"@.len() == 11);
    assert("_f_puts"@ != "_f_truncate"@);
    lemma_lookup_miss(e15, "_f_truncate"@);
    let e16 = e15.drop_first();
    assert(e16 =~= e0.skip(16));
    assert(e16[0].0 == "_f_read"@);
    assert("_f_read"@.len() == 7 && "_f_truncate"@.len() == 11);
    assert("_f_read"@ != "_f_truncate"@);
    lemma_lookup_miss(e16, "_f_truncate"@);
    let e17 = e16.drop_first();
    assert(e17 =~= e0.skip(17));
    assert(e17[0].0 == "_f_readdir"@);
    assert("_f_readdir"@.len() == 10 && "_f_truncate"@.len() == 11);
    assert("_f_readdir"@ != "_f_truncate"@);
    lemma_lookup_miss(e17, "_f_truncate"@);
    let e18 = e17.drop_first();
    assert(e18 =~= e0.skip(18));
    assert(e18[0].0 == "_f_rename"@);
    assert("_f_rename"@.len() == 9 && "_f_truncate"@.len() == 11);
    assert("_f_rename"@ != "_f_truncate"@);
    lemma_lookup_miss(e18, "_f_truncate"@);
    let e19 = e18.drop_first();
    assert(e19 =~= e0.skip(19));
    assert(e19[0].0 == "_f_setlabel"@);
    assert("_f_setlabel"@[3] == 's' && "_f_truncate"@[3] == 't');
    assert("_f_setlabel"@.len() == 11 && "_f_truncate"@.len() == 11);
    assert("_f_setlabel"@ != "_f_truncate"@);
    lemma_lookup_miss(e19, "_f_truncate"@);
    let e20 = e19.drop_first();
    assert(e20 =~= e0.skip(20));
    assert(e20[0].0 == "_f_stat"@);
    assert("_f_stat"@.len() == 7 && "_f_truncate"@.len() == 11);
    assert("_f_stat"@ != "_f_truncate"@);
    lemma_lookup_miss(e20, "_f_truncate"@);
    let e21 = e20.drop_first();
    assert(e21 =~= e0.skip(21));
    assert(e21[0].0 == "_f_sync"@);
    assert("_f_sync"@.len() == 7 && "_f_truncate"@.len() == 11);
    assert("_f_sync"@ != "_f_truncate"@);
    lemma_lookup_miss(e21, "_f_truncate"@);
    let e22 = e21.drop_first();
    assert(e22 =~= e0.skip(22));
    assert(e22[0].0 == "_f_truncate"@);
    lemma_lookup_hit(e22, "_f_truncate"@);
    assert(e22[0].1 == m._f_truncate);
}

proof fn lemma_lookup_f_unlink(m: MosMap)
    ensures
        lookup_name(symbol_entries(m), "_f_unlink"@) == Some(m.f_unlink),
{
    reveal_strlit("_f_chdir");
    reveal_strlit("_f_chdrive");
    reveal_strlit("_f_close");
    reveal_strlit("_f_closedir");
    reveal_strlit("_f_getcwd");
    reveal_strlit("_f_getfree");
    reveal_strlit("_f_getlabel");
    reveal_strlit("_f_gets");
    reveal_strlit("_f_lseek");
    reveal_strlit("_f_mkdir");
    reveal_strlit("_f_mount");
    reveal_strlit("_f_open");
    reveal_strlit("_f_opendir");
    reveal_strlit("_f_printf");
    reveal_strlit("_f_putc");
    reveal_strlit("_f_puts");
    reveal_strlit("_f_read");
    reveal_strlit("_f_readdir");
    reveal_strlit("_f_rename");
    reveal_strlit("_f_setlabel");
    reveal_strlit("_f_stat");
    reveal_strlit("_f_sync");
    reveal_strlit("_f_truncate");
    reveal_strlit("_f_unlink");
    let e0 = symbol_entries(m);
    assert(e0[0].0 == "_f_chdir"@);
    assert("_f_chdir"@.len() == 8 && "_f_unlink"@.len() == 9);
    assert("_f_chdir"@ != "_f_unlink"@);
    lemma_lookup_miss(e0, "_f_unlink"@);
    let e1 = e0.drop_first();
    assert(e1 =~= e0.skip(1));
    assert(e1[0].0 == "_f_chdrive"@);
    assert("_f_chdrive"@.len() == 10 && "_f_unlink"@.len() == 9);
    assert("_f_chdrive"@ != "_f_unlink"@);
    lemma_lookup_miss(e1, "_f_unlink"@);
    let e2 = e1.drop_first();
    assert(e2 =~= e0.skip(2));
    assert(e2[0].0 == "_f_close"@);
    assert("_f_close"@.len() == 8 && "_f_unlink"@.len() == 9);
    assert("_f_close"@ != "_f_unlink"@);
    lemma_lookup_miss(e2, "_f_unlink"@);
    let e3 = e2.drop_first();
    assert(e3 =~= e0.skip(3));
    assert(e3[0].0 == "_f_closedir"@);
    assert("_f_closedir"@.len() == 11 && "_f_unlink"@.len() == 9);
    assert("_f_closedir"@ != "_f_unlink"@);
    lemma_lookup_miss(e3, "_f_unlink"@);
    let e4 = e3.drop_first();
    assert(e4 =~= e0.skip(4));
    assert(e4[0].0 == "_f_getcwd"@);
    assert("_f_getcwd"@[3] == 'g' && "_f_unlink"@[3] == 'u');
    assert("_f_getcwd"@.len() == 9 && "_f_unlink"@.len() == 9);
    assert("_f_getcwd"@ != "_f_unlink"@);
    lemma_lookup_miss(e4, "_f_unlink"@);
    let e5 = e4.drop_first();
    assert(e5 =~= e0.skip(5));
    assert(e5[0].0 == "_f_getfree"@);
    assert("_f_getfree"@.len() == 10 && "_f_unlink"@.len() == 9);
    assert("_f_getfree"@ != "_f_unlink"@);
    lemma_lookup_miss(e5, "_f_unlink"@);
    let e6 = e5.drop_first();
    assert(e6 =~= e0.skip(6));
    assert(e6[0].0 == "_f_getlabel"@);
    assert("_f_getlabel"@.len() == 11 && "_f_unlink"@.len() == 9);
    assert("_f_getlabel"@ != "_f_unlink"@);
    lemma_lookup_miss(e6, "_f_unlink"@);
    let e7 = e6.drop_first();
    assert(e7 =~= e0.skip(7));
    assert(e7[0].0 == "_f_gets"@);
    assert("_f_gets"@.len() == 7 && "_f_unlink"@.len() == 9);
    assert("_f_gets"@ != "_f_unlink"@);
    lemma_lookup_miss(e7, "_f_unlink"@);
    let e8 = e7.drop_first();
    assert(e8 =~= e0.skip(8));
    assert(e8[0].0 == "_f_lseek"@);
    assert("_f_lseek"@.len() == 8 && "_f_unlink"@.len() == 9);
    assert("_f_lseek"@ != "_f_unlink"@);
    lemma_lookup_miss(e8, "_f_unlink"@);
    let e9 = e8.drop_first();
    assert(e9 =~= e0.skip(9));
    assert(e9[0].0 == "_f_mkdir"@);
    assert("_f_mkdir"@.len() == 8 && "_f_unlink"@.len() == 9);
    assert("_f_mkdir"@ != "_f_unlink"@);
    lemma_lookup_miss(e9, "_f_unlink"@);
    let e10 = e9.drop_first();
    assert(e10 =~= e0.skip(10));
    assert(e10[0].0 == "_f_mount"@);
    assert("_f_mount"@.len() == 8 && "_f_unlink"@.len() == 9);
    assert("_f_mount"@ != "_f_unlink"@);
    lemma_lookup_miss(e10, "_f_unlink"@);
    let e11 = e10.drop_first();
    assert(e11 =~= e0.skip(11));
    assert(e11[0].0 == "_f_open"@);
    assert("_f_open"@.len() == 7 && "_f_unlink"@.len() == 9);
    assert("_f_open"@ != "_f_unlink"@);
    lemma_lookup_miss(e11, "_f_unlink"@);
    let e12 = e11.drop_first();
    assert(e12 =~= e0.skip(12));
    assert(e12[0].0 == "_f_opendir"@);
    assert("_f_opendir"@.len() == 10 && "_f_unlink"@.len() == 9);
    assert("_f_opendir"@ != "_f_unlink"@);
    lemma_lookup_miss(e12, "_f_unlink"@);
    let e13 = e12.drop_first();
    assert(e13 =~= e0.skip(13));
    assert(e13[0].0 == "_f_printf"@);
    assert("_f_printf"@[3] == 'p' && "_f_unlink"@[3] == 'u');
    assert("_f_printf"@.len() == 9 && "_f_unlink"@.len() == 9);
    assert("_f_printf"@ != "_f_unlink"@);
    lemma_lookup_miss(e13, "_f_unlink"@);
    let e14 = e13.drop_first();
    assert(e14 =~= e0.skip(14));
    assert(e14[0].0 == "_f_putc"@);
    assert("_f_putc"@.len() == 7 && "_f_unlink"@.len() == 9);
    assert("_f_putc"@ != "_f_unlink"@);
    lemma_lookup_miss(e14, "_f_unlink"@);
    let e15 = e14.drop_first();
    assert(e15 =~= e0.skip(15));
    assert(e15[0].0 == "_f_puts"@);
    assert("_f_puts"@.len() == 7 && "_f_unlink"@.len() == 9);
    assert("_f_puts"@ != "_f_unlink"@);
    lemma_lookup_miss(e15, "_f_unlink"@);
    let e16 = e15.drop_first();
    assert(e16 =~= e0.skip(16));
    assert(e16[0].0 == "_f_read"@);
    assert("_f_read"@.len() == 7 && "_f_unlink"@.len() == 9);
    assert("_f_read"@ != "_f_unlink"@);
    lemma_lookup_miss(e16, "_f_unlink"@);
    let e17 = e16.drop_first();
    assert(e17 =~= e0.skip(17));
    assert(e17[0].0 == "_f_readdir"@);
    assert("_f_readdir"@.len() == 10 && "_f_unlink"@.len() == 9);
    assert("_f_readdir"@ != "_f_unlink"@);
    lemma_lookup_miss(e17, "_f_unlink"@);
    let e18 = e17.drop_first();
    assert(e18 =~= e0.skip(18));
    assert(e18[0].0 == "_f_rename"@);
    assert("_f_rename"@[3] == 'r' && "_f_unlink"@[3] == 'u');
    assert("_f_rename"@.len() == 9 && "_f_unlink"@.len() == 9);
    assert("_f_rename"@ != "_f_unlink"@);
    lemma_lookup_miss(e18, "_f_unlink"@);
    let e19 = e18.drop_first();
    assert(e19 =~= e0.skip(19));
    assert(e19[0].0 == "_f_setlabel"@);
    assert("_f_setlabel"@.len() == 11 && "_f_unlink"@.len() == 9);
    assert("_f_setlabel"@ != "_f_unlink"@);
    lemma_lookup_miss(e19, "_f_unlink"@);
    let e20 = e19.drop_first();
    assert(e20 =~= e0.skip(20));
    assert(e20[0].0 == "_f_stat"@);
    assert("_f_stat"@.len() == 7 && "_f_unlink"@.len() == 9);
    assert("_f_stat"@ != "_f_unlink"@);
    lemma_lookup_miss(e20, "_f_unlink"@);
    let e21 = e20.drop_first();
    assert(e21 =~= e0.skip(21));
    assert(e21[0].0 == "_f_sync"@);
    assert("_f_sync"@.len() == 7 && "_f_unlink"@.len() == 9);
    assert("_f_sync"@ != "_f_unlink"@);
    lemma_lookup_miss(e21, "_f_unlink"@);
    let e22 = e21.drop_first();
    assert(e22 =~= e0.skip(22));
    assert(e22[0].0 == "_f_truncate"@);
    assert("_f_truncate"@.len() == 11 && "_f_unlink"@.len() == 9);
    assert("_f_truncate"@ != "_f_unlink"@);
    lemma_lookup_miss(e22, "_f_unlink"@);
    let e23 = e22.drop_first();
    assert(e23 =~= e0.skip(23));
    assert(e23[0].0 == "_f_unlink"@);
    lemma_lookup_hit(e23, "_f_unlink"@);
    assert(e23[0].1 == m.f_unlink);
}

proof fn lemma_lookup_f_write(m: MosMap)
    ensures
        lookup_name(symbol_entries(m), "_f_write"@) == Some(m.f_write),
{
    reveal_strlit("_f_chdir");
    reveal_strlit("_f_chdrive");
    reveal_strlit("_f_close");
    reveal_strlit("_f_closedir");
    reveal_strlit("_f_getcwd");
    reveal_strlit("_f_getfree");
    reveal_strlit("_f_getlabel");
    reveal_strlit("_f_gets");
    reveal_strlit("_f_lseek");
    reveal_strlit("_f_mkdir");
    reveal_strlit("_f_mount");
    reveal_strlit("_f_open");
    reveal_strlit("_f_opendir");
    reveal_strlit("_f_printf");
    reveal_strlit("_f_putc");
    reveal_strlit("_f_puts");
    reveal_strlit("_f_read");
    reveal_strlit("_f_readdir");
    reveal_strlit("_f_rename");
    reveal_strlit("_f_setlabel");
    reveal_strlit("_f_stat");
    reveal_strlit("_f_sync");
    reveal_strlit("_f_truncate");
    reveal_strlit("_f_unlink");
    reveal_strlit("_f_write");
    let e0 = symbol_entries(m);
    assert(e0[0].0 == "_f_chdir"@);
    assert("_f_chdir"@[3] == 'c' && "_f_write"@[3] == 'w');
    assert("_f_chdir"@.len() == 8 && "_f_write"@.len() == 8);
    assert("_f_chdir"@ != "_f_write"@);
    lemma_lookup_miss(e0, "_f_write"@);
    let e1 = e0.drop_first();
    assert(e1 =~= e0.skip(1));
    assert(e1[0].0 == "_f_chdrive"@);
    assert("_f_chdrive"@.len() == 10 && "_f_write"@.len() == 8);
    assert("_f_chdrive"@ != "_f_write"@);
    lemma_lookup_miss(e1, "_f_write"@);
    let e2 = e1.drop_first();
    assert(e2 =~= e0.skip(2));
    assert(e2[0].0 == "_f_close"@);
    assert("_f_close"@[3] == 'c' && "_f_write"@[3] == 'w');
    assert("_f_close"@.len() == 8 && "_f_write"@.len() == 8);
    assert("_f_close"@ != "_f_write"@);
    lemma_lookup_miss(e2, "_f_write"@);
    let e3 = e2.drop_first();
    assert(e3 =~= e0.skip(3));
    assert(e3[0].0 == "_f_closedir"@);
    assert("_f_closedir"@.len() == 11 && "_f_write"@.len() == 8);
    assert("_f_closedir"@ != "_f_write"@);
    lemma_lookup_miss(e3, "_f_write"@);
    let e4 = e3.drop_first();
    assert(e4 =~= e0.skip(4));
    assert(e4[0].0 == "_f_getcwd"@);
    assert("_f_getcwd"@.len() == 9 && "_f_write"@.len() == 8);
    assert("_f_getcwd"@ != "_f_write"@);
    lemma_lookup_miss(e4, "_f_write"@);
    let e5 = e4.drop_first();
    assert(e5 =~= e0.skip(5));
    assert(e5[0].0 == "_f_getfree"@);
    assert("_f_getfree"@.len() == 10 && "_f_write"@.len() == 8);
    assert("_f_getfree"@ != "_f_write"@);
    lemma_lookup_miss(e5, "_f_write"@);
    let e6 = e5.drop_first();
    assert(e6 =~= e0.skip(6));
    assert(e6[0].0 == "_f_getlabel"@);
    assert("_f_getlabel"@.len() == 11 && "_f_write"@.len() == 8);
    assert("_f_getlabel"@ != "_f_write"@);
    lemma_lookup_miss(e6, "_f_write"@);
    let e7 = e6.drop_first();
    assert(e7 =~= e0.skip(7));
    assert(e7[0].0 == "_f_gets"@);
    assert("_f_gets"@.len() == 7 && "_f_write"@.len() == 8);
    assert("_f_gets"@ != "_f_write"@);
    lemma_lookup_miss(e7, "_f_write"@);
    let e8 = e7.drop_first();
    assert(e8 =~= e0.skip(8));
    assert(e8[0].0 == "_f_lseek"@);
    assert("_f_lseek"@[3] == 'l' && "_f_write"@[3] == 'w');
    assert("_f_lseek"@.len() == 8 && "_f_write"@.len() == 8);
    assert("_f_lseek"@ != "_f_write"@);
    lemma_lookup_miss(e8, "_f_write"@);
    let e9 = e8.drop_first();
    assert(e9 =~= e0.skip(9));
    assert(e9[0].0 == "_f_mkdir"@);
    assert("_f_mkdir"@[3] == 'm' && "_f_write"@[3] == 'w');
    assert("_f_mkdir"@.len() == 8 && "_f_write"@.len() == 8);
    assert("_f_mkdir"@ != "_f_write"@);
    lemma_lookup_miss(e9, "_f_write"@);
    let e10 = e9.drop_first();
    assert(e10 =~= e0.skip(10));
    assert(e10[0].0 == "_f_mount"@);
    assert("_f_mount"@[3] == 'm' && "_f_write"@[3] == 'w');
    assert("_f_mount"@.len() == 8 && "_f_write"@.len() == 8);
    assert("_f_mount"@ != "_f_write"@);
    lemma_lookup_miss(e10, "_f_write"@);
    let e11 = e10.drop_first();
    assert(e11 =~= e0.skip(11));
    assert(e11[0].0 == "_f_open"@);
    assert("_f_open"@.len() == 7 && "_f_write"@.len() == 8);
    assert("_f_open"@ != "_f_write"@);
    lemma_lookup_miss(e11, "_f_write"@);
    let e12 = e11.drop_first();
    assert(e12 =~= e0.skip(12));
    assert(e12[0].0 == "_f_opendir"@);
    assert("_f_opendir"@.len() == 10 && "_f_write"@.len() == 8);
    assert("_f_opendir"@ != "_f_write"@);
    lemma_lookup_miss(e12, "_f_write"@);
    let e13 = e12.drop_first();
    assert(e13 =~= e0.skip(13));
    assert(e13[0].0 == "_f_printf"@);
    assert("_f_printf"@.len() == 9 && "_f_write"@.len() == 8);
    assert("_f_printf"@ != "_f_write"@);
    lemma_lookup_miss(e13, "_f_write"@);
    let e14 = e13.drop_first();
    assert(e14 =~= e0.skip(14));
    assert(e14[0].0 == "_f_putc"@);
    assert("_f_putc"@.len() == 7 && "_f_write"@.len() == 8);
    assert("_f_putc"@ != "_f_write"@);
    lemma_lookup_miss(e14, "_f_write"@);
    let e15 = e14.drop_first();
    assert(e15 =~= e0.skip(15));
    assert(e15[0].0 == "_f_puts"@);
    assert("_f_puts"@.len() == 7 && "_f_write"@.len() == 8);
    assert("_f_puts"@ != "_f_write"@);
    lemma_lookup_miss(e15, "_f_write"@);
    let e16 = e15.drop_first();
    assert(e16 =~= e0.skip(16));
    assert(e16[0].0 == "_f_read"@);
    assert("_f_read"@.len() == 7 && "_f_write"@.len() == 8);
    assert("_f_read"@ != "_f_write"@);
    lemma_lookup_miss(e16, "_f_write"@);
    let e17 = e16.drop_first();
    assert(e17 =~= e0.skip(17));
    assert(e17[0].0 == "_f_readdir"@);
    assert("_f_readdir"@.len() == 10 && "_f_write"@.len() == 8);
    assert("_f_readdir"@ != "_f_write"@);
    lemma_lookup_miss(e17, "_f_write"@);
    let e18 = e17.drop_first();
    assert(e18 =~= e0.skip(18));
    assert(e18[0].0 == "_f_rename"@);
    assert("_f_rename"@.len() == 9 && "_f_write"@.len() == 8);
    assert("_f_rename"@ != "_f_write"@);
    lemma_lookup_miss(e18, "_f_write"@);
    let e19 = e18.drop_first();
    assert(e19 =~= e0.skip(19));
    assert(e19[0].0 == "_f_setlabel"@);
    assert("_f_setlabel"@.len() == 11 && "_f_write"@.len() == 8);
    assert("_f_setlabel"@ != "_f_write"@);
    lemma_lookup_miss(e19, "_f_write"@);
    let e20 = e19.drop_first();
    assert(e20 =~= e0.skip(20));
    assert(e20[0].0 == "_f_stat"@);
    assert("_f_stat"@.len() == 7 && "_f_write"@.len() == 8);
    assert("_f_stat"@ != "_f_write"@);
    lemma_lookup_miss(e20, "_f_write"@);
    let e21 = e20.drop_first();
    assert(e21 =~= e0.skip(21));
    assert(e21[0].0 == "_f_sync"@);
    assert("_f_sync"@.len() == 7 && "_f_write"@.len() == 8);
    assert("_f_sync"@ != "_f_write"@);
    lemma_lookup_miss(e21, "_f_write"@);
    let e22 = e21.drop_first();
    assert(e22 =~= e0.skip(22));
    assert(e22[0].0 == "_f_truncate"@);
    assert("_f_truncate"@.len() == 11 && "_f_write"@.len() == 8);
    assert("_f_truncate"@ != "_f_write"@);
    lemma_lookup_miss(e22, "_f_write"@);
    let e23 = e22.drop_first();
    assert(e23 =~= e0.skip(23));
    assert(e23[0].0 == "_f_unlink"@);
    assert("_f_unlink"@.len() == 9 && "_f_write"@.len() == 8);
    assert("_f_unlink"@ != "_f_write"@);
    lemma_lookup_miss(e23, "_f_write"@);
    let e24 = e23.drop_first();
    assert(e24 =~= e0.skip(24));
    assert(e24[0].0 == "_f_write"@);
    lemma_lookup_hit(e24, "_f_write"@);
    assert(e24[0].1 == m.f_write);
}

/// Any symbol map round-trips: resolving the table built from `m` yields
/// `m` itself, with an identical address for every name.
pub proof fn lemma_resolve_round_trip(m: MosMap)
    ensures
        resolve_symbols(symbol_entries(m)) == Some(m),
{
    lemma_lookup_f_chdir(m);
    lemma_lookup_f_chdrive(m);
    lemma_lookup_f_close(m);
    lemma_lookup_f_closedir(m);
    lemma_lookup_f_getcwd(m);
    lemma_lookup_f_getfree(m);
    lemma_lookup_f_getlabel(m);
    lemma_lookup_f_gets(m);
    lemma_lookup_f_lseek(m);
    lemma_lookup_f_mkdir(m);
    lemma_lookup_f_mount(m);
    lemma_lookup_f_open(m);
    lemma_lookup_f_opendir(m);
    lemma_lookup_f_printf(m);
    lemma_lookup_f_putc(m);
    lemma_lookup_f_puts(m);
    lemma_lookup_f_read(m);
    lemma_lookup_f_readdir(m);
    lemma_lookup_f_rename(m);
    lemma_lookup_f_setlabel(m);
    lemma_lookup_f_stat(m);
    lemma_lookup_f_sync(m);
    lemma_lookup_f_truncate(m);
    lemma_lookup_f_unlink(m);
    lemma_lookup_f_write(m);
}

/// The canonical firmware map, resolved against its own table, comes back
/// unchanged.
pub proof fn lemma_canonical_round_trip()
    ensures
        resolve_symbols(symbol_entries(canonical_mos_103())) == Some(canonical_mos_103()),
{
    lemma_resolve_round_trip(canonical_mos_103());
}


/// Whether a byte ends a MOS path string: NUL, line feed or carriage return
/// are all accepted as terminators.
pub open spec fn is_path_terminator(b: u8) -> bool {
    b == 0 || b == 10 || b == 13
}

/// Read-side capability over the guest's byte-addressable memory, as the
/// emulator's memory subsystem supplies it. `byte_at` is the abstract
/// content; an implementation promises that `peek` agrees with it.
pub trait GuestMemory {
    /// The byte the guest address space holds at `address`.
    spec fn byte_at(&self, address: u32) -> u8;

    /// Reads one byte of guest memory.
    fn peek(&self, address: u32) -> (b: u8)
        ensures
            b == self.byte_at(address),
    ;
}

/// Guest memory held directly as bytes from address 0, every address past
/// the end reading as 0.
pub struct VecMemory {
    pub bytes: Vec<u8>,
}

impl GuestMemory for VecMemory {
    open spec fn byte_at(&self, address: u32) -> u8 {
        if address < self.bytes@.len() {
            self.bytes@[address as int]
        } else {
            0
        }
    }

    fn peek(&self, address: u32) -> (b: u8) {
        if (address as usize) < self.bytes.len() {
            self.bytes[address as usize]
        } else {
            0
        }
    }
}

/// Like a plain NUL-terminated string read, except carriage return and line
/// feed are accepted as terminators as well as NUL. The scan has no length
/// cap of its own, so the guest address space is required to hold a
/// terminator at or after `address`; the terminator is excluded from the
/// result and nothing past it is read.
pub fn get_mos_path_string<M: GuestMemory>(machine: &M, address: u32) -> (s: Vec<u8>)
    requires
        exists|e: u32| address <= e && is_path_terminator(#[trigger] machine.byte_at(e)),
    ensures
        address + s@.len() <= u32::MAX,
        forall|i: int|
            0 <= i < s@.len() ==> s@[i] == machine.byte_at((address + i) as u32)
                && !is_path_terminator(s@[i]),
        is_path_terminator(machine.byte_at((address + s@.len()) as u32)),
{
    let ghost end = choose|e: u32| address <= e && is_path_terminator(#[trigger] machine.byte_at(e));
    let mut s: Vec<u8> = Vec::new();
    let mut ptr: u32 = address;

    loop
        invariant_except_break
            address <= ptr <= end,
            is_path_terminator(machine.byte_at(end)),
            s@.len() == ptr - address,
            forall|i: int|
                0 <= i < s@.len() ==> s@[i] == machine.byte_at((address + i) as u32)
                    && !is_path_terminator(s@[i]),
        ensures
            address <= ptr,
            ptr <= u32::MAX,
            s@.len() == ptr - address,
            forall|i: int|
                0 <= i < s@.len() ==> s@[i] == machine.byte_at((address + i) as u32)
                    && !is_path_terminator(s@[i]),
            is_path_terminator(machine.byte_at(ptr)),
        decreases end - ptr,
    {
        let b = machine.peek(ptr);
        if b == 0 || b == 10 || b == 13 {
            break;
        }
        s.push(b);
        ptr = ptr + 1;
    }
    s
}

} // verus!

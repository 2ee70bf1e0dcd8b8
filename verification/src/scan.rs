//! The record demuxer: fixed-length physical lines are classified by their
//! two-byte tag and parsed by fixed byte offsets into the reference tables
//! and the street buffer. Lines sit at a fixed stride in the file,
//! regardless of where a terminator byte fell inside a line.

use vstd::prelude::*;
use vstd::arithmetic::div_mod::lemma_fundamental_div_mod;
use crate::decode::{decode, decode_spec};
use crate::records::{
    LocalityRecord, LocalityRecordV, MunicipalityRecord, MunicipalityRecordV, StreetRecord,
    StreetRecordV, SubdivisionRecord, SubdivisionRecordV,
};
use crate::table::Table;
use crate::text::{copy_range, push_all};

verus! {

/// Length in bytes of one physical line of the extract.
pub const LINE_LEN: usize = 326;

/// The three reference tables that the scan populates and the join phase
/// reads.
pub struct Tables {
    pub municipalities: Table<MunicipalityRecord>,
    pub localities: Table<LocalityRecord>,
    pub subdivisions: Table<SubdivisionRecord>,
}

pub struct TablesV {
    pub municipalities: Map<Seq<char>, MunicipalityRecordV>,
    pub localities: Map<Seq<char>, LocalityRecordV>,
    pub subdivisions: Map<Seq<char>, SubdivisionRecordV>,
}

impl View for Tables {
    type V = TablesV;

    open spec fn view(&self) -> TablesV {
        TablesV {
            municipalities: self.municipalities@,
            localities: self.localities@,
            subdivisions: self.subdivisions@,
        }
    }
}

pub open spec fn empty_tables() -> TablesV {
    TablesV {
        municipalities: Map::empty(),
        localities: Map::empty(),
        subdivisions: Map::empty(),
    }
}

/// The decoded text of the field at bytes `lo .. end` of a line.
pub open spec fn field_chars(l: Seq<u8>, lo: int, end: int) -> Seq<char> {
    decode_spec(l.subrange(lo, end))
}

pub open spec fn municipality_of(l: Seq<u8>) -> MunicipalityRecordV {
    MunicipalityRecordV {
        code: field_chars(l, 17, 25),
        kind: field_chars(l, 25, 26),
        name: field_chars(l, 26, 66),
    }
}

pub open spec fn locality_of(l: Seq<u8>) -> LocalityRecordV {
    LocalityRecordV {
        code: field_chars(l, 17, 25),
        status: field_chars(l, 25, 26),
        name: field_chars(l, 26, 66),
        addition: field_chars(l, 106, 136),
    }
}

pub open spec fn subdivision_of(l: Seq<u8>) -> SubdivisionRecordV {
    SubdivisionRecordV {
        code: field_chars(l, 17, 25),
        subcode: field_chars(l, 25, 28),
        postal: field_chars(l, 28, 33),
        status: field_chars(l, 33, 34),
        name: field_chars(l, 35, 75),
    }
}

pub open spec fn street_of(l: Seq<u8>) -> StreetRecordV {
    StreetRecordV {
        code: field_chars(l, 17, 25),
        name: field_chars(l, 101, 147),
        postal: field_chars(l, 171, 176),
        subcode: field_chars(l, 179, 182),
        admin_chain: field_chars(l, 190, 198),
    }
}

/// How one line changes the reference tables. A `KG` line is inserted
/// unconditionally; an `OR` or `OB` line only when its status byte is
/// valid (`G`); any other tag leaves the tables untouched.
pub open spec fn step_tables(t: TablesV, l: Seq<u8>) -> TablesV {
    if l[0] == 75 && l[1] == 71 {  // b"KG"
        let r = municipality_of(l);
        TablesV {
            municipalities: t.municipalities.insert(r.code + r.kind, r),
            localities: t.localities,
            subdivisions: t.subdivisions,
        }
    } else if l[0] == 79 && l[1] == 82 {  // b"OR"
        if l[25] == 71 {  // b'G'
            let r = locality_of(l);
            TablesV {
                municipalities: t.municipalities,
                localities: t.localities.insert(r.code + r.status, r),
                subdivisions: t.subdivisions,
            }
        } else {
            t
        }
    } else if l[0] == 79 && l[1] == 66 {  // b"OB"
        if l[33] == 71 {
            let r = subdivision_of(l);
            TablesV {
                municipalities: t.municipalities,
                localities: t.localities,
                subdivisions: t.subdivisions.insert(r.code + r.subcode + r.postal + r.status, r),
            }
        } else {
            t
        }
    } else {
        t
    }
}

/// How one line changes the street buffer: a valid `SB` line is appended,
/// anything else leaves it untouched.
pub open spec fn step_streets(s: Seq<StreetRecordV>, l: Seq<u8>) -> Seq<StreetRecordV> {
    if l[0] == 83 && l[1] == 66 && l[52] == 71 {  // b"SB", status b'G'
        s.push(street_of(l))
    } else {
        s
    }
}

pub open spec fn street_views(s: Seq<StreetRecord>) -> Seq<StreetRecordV> {
    s.map_values(|f: StreetRecord| f@)
}

fn extract_field(line: &Vec<u8>, lo: usize, end: usize) -> (r: Vec<char>)
    requires
        lo <= end <= line@.len(),
    ensures
        r@ == field_chars(line@, lo as int, end as int),
{
    let bytes = copy_range(line, lo, end);
    decode(&bytes)
}

/// Demultiplexes one physical line into the tables or the street buffer.
pub fn process_line(tables: &mut Tables, streets: &mut Vec<StreetRecord>, line: &Vec<u8>)
    requires
        line@.len() == LINE_LEN,
    ensures
        final(tables)@ == step_tables(old(tables)@, line@),
        street_views(final(streets)@) == step_streets(street_views(old(streets)@), line@),
{
    let t0 = line[0];
    let t1 = line[1];
    if t0 == 75 && t1 == 71 {  // b"KG"
        let rec = MunicipalityRecord {
            code: extract_field(line, 17, 25),
            kind: extract_field(line, 25, 26),
            name: extract_field(line, 26, 66),
        };
        let mut key: Vec<char> = Vec::new();
        push_all(&mut key, &rec.code);
        push_all(&mut key, &rec.kind);
        proof {
            assert(key@ =~= rec@.code + rec@.kind);
        }
        tables.municipalities.insert(key, rec);
    } else if t0 == 79 && t1 == 82 {  // b"OR"
        if line[25] == 71 {  // b'G'
            let rec = LocalityRecord {
                code: extract_field(line, 17, 25),
                status: extract_field(line, 25, 26),
                name: extract_field(line, 26, 66),
                addition: extract_field(line, 106, 136),
            };
            let mut key: Vec<char> = Vec::new();
            push_all(&mut key, &rec.code);
            push_all(&mut key, &rec.status);
            proof {
                assert(key@ =~= rec@.code + rec@.status);
            }
            tables.localities.insert(key, rec);
        }
    } else if t0 == 79 && t1 == 66 {  // b"OB"
        if line[33] == 71 {
            let rec = SubdivisionRecord {
                code: extract_field(line, 17, 25),
                subcode: extract_field(line, 25, 28),
                postal: extract_field(line, 28, 33),
                status: extract_field(line, 33, 34),
                name: extract_field(line, 35, 75),
            };
            let mut key: Vec<char> = Vec::new();
            push_all(&mut key, &rec.code);
            push_all(&mut key, &rec.subcode);
            push_all(&mut key, &rec.postal);
            push_all(&mut key, &rec.status);
            proof {
                assert(key@ =~= rec@.code + rec@.subcode + rec@.postal + rec@.status);
            }
            tables.subdivisions.insert(key, rec);
        }
    } else if t0 == 83 && t1 == 66 {  // b"SB"
        if line[52] == 71 {
            let rec = StreetRecord {
                code: extract_field(line, 17, 25),
                name: extract_field(line, 101, 147),
                postal: extract_field(line, 171, 176),
                subcode: extract_field(line, 179, 182),
                admin_chain: extract_field(line, 190, 198),
            };
            let ghost before = streets@;
            streets.push(rec);
            proof {
                assert(street_views(streets@) =~= street_views(before).push(street_of(line@)));
            }
        }
    }
}

/// A locality line whose status byte is not the valid marker leaves every
/// reference table unchanged: the record is discarded, not an error.
pub proof fn lemma_invalid_locality_ignored(t: TablesV, l: Seq<u8>)
    requires
        l[0] == 79,  // b'O'
        l[1] == 82,  // b'R'
        l[25] != 71,  // status byte differs from b'G'
    ensures
        step_tables(t, l) == t,
{
}

/// Last write wins: of two municipality lines with the same code and kind,
/// processing both leaves exactly the second line's record in the table,
/// and the other tables keep whatever they had.
pub proof fn lemma_municipality_last_write_wins(t: TablesV, l1: Seq<u8>, l2: Seq<u8>)
    requires
        l1[0] == 75,  // b'K'
        l1[1] == 71,  // b'G'
        l2[0] == 75,
        l2[1] == 71,
        municipality_of(l1).code == municipality_of(l2).code,
        municipality_of(l1).kind == municipality_of(l2).kind,
    ensures
        step_tables(step_tables(t, l1), l2) == step_tables(t, l2),
        step_tables(step_tables(t, l1), l2).municipalities[municipality_of(l2).code
            + municipality_of(l2).kind] == municipality_of(l2),
{
    let k = municipality_of(l2).code + municipality_of(l2).kind;
    assert(t.municipalities.insert(k, municipality_of(l1)).insert(k, municipality_of(l2))
        =~= t.municipalities.insert(k, municipality_of(l2)));
}

/// The line at index `i` of the byte stream: lines sit at a fixed stride.
pub open spec fn line_at(data: Seq<u8>, i: int) -> Seq<u8> {
    data.subrange(326 * i, 326 * i + 326)
}

/// How many complete lines the byte stream holds; trailing bytes short of
/// a full line are ignored.
pub open spec fn line_count(data: Seq<u8>) -> int {
    data.len() as int / 326
}

/// The reference tables after scanning the first `n` lines.
pub open spec fn scan_tables(data: Seq<u8>, n: int) -> TablesV
    decreases n,
{
    if n <= 0 {
        empty_tables()
    } else {
        step_tables(scan_tables(data, n - 1), line_at(data, n - 1))
    }
}

/// The street buffer after scanning the first `n` lines.
pub open spec fn scan_streets(data: Seq<u8>, n: int) -> Seq<StreetRecordV>
    decreases n,
{
    if n <= 0 {
        Seq::empty()
    } else {
        step_streets(scan_streets(data, n - 1), line_at(data, n - 1))
    }
}

/// Scans the whole byte stream once, building the three reference tables
/// and the street buffer. This completes before any join work starts.
pub fn scan(data: &Vec<u8>) -> (r: (Tables, Vec<StreetRecord>))
    ensures
        r.0@ == scan_tables(data@, line_count(data@)),
        street_views(r.1@) == scan_streets(data@, line_count(data@)),
{
    let len = data.len();
    let n = len / LINE_LEN;
    proof {
        lemma_fundamental_div_mod(len as int, 326);
        assert(326 * n <= len);
    }
    let mut tables = Tables {
        municipalities: Table::new(),
        localities: Table::new(),
        subdivisions: Table::new(),
    };
    let mut streets: Vec<StreetRecord> = Vec::new();
    proof {
        assert(street_views(streets@) =~= Seq::<StreetRecordV>::empty());
    }
    let mut i: usize = 0;
    while i < n
        invariant
            i <= n,
            n == line_count(data@),
            len == data@.len(),
            326 * n <= len,
            tables@ == scan_tables(data@, i as int),
            street_views(streets@) == scan_streets(data@, i as int),
        decreases n - i,
    {
        proof {
            assert(326 * (i as int + 1) <= 326 * (n as int)) by (nonlinear_arith)
                requires
                    i as int + 1 <= n as int,
            ;
            assert(i as int * 326 + 326 <= len);
        }
        let lo = i * LINE_LEN;
        let line = copy_range(data, lo, lo + LINE_LEN);
        process_line(&mut tables, &mut streets, &line);
        i += 1;
    }
    (tables, streets)
}

} // verus!

use address_index::join::{chunk_streets, derive_admin_key, join_chunk};
use address_index::pipeline::index_extract;
use address_index::records::StreetRecord;
use address_index::scan::{scan, Tables};
use address_index::table::Table;

fn chars(s: &str) -> Vec<char> {
    s.chars().collect()
}

fn line(tag: &str) -> Vec<u8> {
    let mut l = vec![b' '; 326];
    l[..tag.len()].copy_from_slice(tag.as_bytes());
    l
}

fn set(l: &mut [u8], at: usize, s: &str) {
    l[at..at + s.len()].copy_from_slice(s.as_bytes());
}

fn kg_line(code: &str, kind: &str, name: &str) -> Vec<u8> {
    let mut l = line("KG");
    set(&mut l, 17, code);
    set(&mut l, 25, kind);
    set(&mut l, 26, name);
    l
}

fn or_line(code: &str, status: &str, name: &str, addition: &str) -> Vec<u8> {
    let mut l = line("OR");
    set(&mut l, 17, code);
    set(&mut l, 25, status);
    set(&mut l, 26, name);
    set(&mut l, 106, addition);
    l
}

fn ob_line(code: &str, subcode: &str, postal: &str, status: &str, name: &str) -> Vec<u8> {
    let mut l = line("OB");
    set(&mut l, 17, code);
    set(&mut l, 25, subcode);
    set(&mut l, 28, postal);
    set(&mut l, 33, status);
    set(&mut l, 35, name);
    l
}

fn sb_line(code: &str, status: &str, name: &str, postal: &str, subcode: &str, chain: &str) -> Vec<u8> {
    let mut l = line("SB");
    set(&mut l, 17, code);
    set(&mut l, 52, status);
    set(&mut l, 101, name);
    set(&mut l, 171, postal);
    set(&mut l, 179, subcode);
    set(&mut l, 190, chain);
    l
}

fn file_of(lines: Vec<Vec<u8>>) -> Vec<u8> {
    lines.into_iter().flatten().collect()
}

fn street(name: &str, chain: &str) -> StreetRecord {
    StreetRecord {
        code: chars("11111111"),
        name: chars(name),
        postal: chars("01067"),
        subcode: chars(""),
        admin_chain: chars(chain),
    }
}

fn empty_tables() -> Tables {
    Tables { municipalities: Table::new(), localities: Table::new(), subdivisions: Table::new() }
}

#[test]
fn derived_admin_keys_pad_exactly() {
    let chain = chars("12345678");
    assert_eq!(derive_admin_key(&chain, 8, 'G'), chars("12345678G"));
    assert_eq!(derive_admin_key(&chain, 5, 'K'), chars("12345000K"));
    assert_eq!(derive_admin_key(&chain, 3, 'R'), chars("12300000R"));
    assert_eq!(derive_admin_key(&chain, 2, 'L'), chars("12000000L"));
}

#[test]
fn kg_last_write_wins() {
    let data = file_of(vec![
        kg_line("00000001", "G", "Altstadt"),
        kg_line("00000001", "G", "Neustadt"),
    ]);
    let (tables, _) = scan(&data);
    let rec = tables.municipalities.get(&chars("00000001G")).expect("key present");
    assert_eq!(rec.name, chars("Neustadt"));
}

#[test]
fn kg_records_with_different_kind_coexist() {
    let data = file_of(vec![
        kg_line("12345678", "G", "Gemeinde"),
        kg_line("12345000", "K", "Kreis"),
    ]);
    let (tables, _) = scan(&data);
    assert_eq!(tables.municipalities.get(&chars("12345678G")).unwrap().name, chars("Gemeinde"));
    assert_eq!(tables.municipalities.get(&chars("12345000K")).unwrap().name, chars("Kreis"));
    assert!(tables.municipalities.get(&chars("12345678K")).is_none());
}

#[test]
fn or_with_invalid_status_leaves_locality_table_unchanged() {
    let data = file_of(vec![or_line("11111111", "X", "Geisterstadt", "")]);
    let (tables, _) = scan(&data);
    assert!(tables.localities.get(&chars("11111111X")).is_none());
    assert!(tables.localities.get(&chars("11111111G")).is_none());
}

#[test]
fn unknown_tag_and_trailing_bytes_are_skipped() {
    let mut data = file_of(vec![line("ZZ"), kg_line("00000002", "G", "Dorf")]);
    data.extend_from_slice(b"short trailing garbage");
    let (tables, streets) = scan(&data);
    assert!(streets.is_empty());
    assert_eq!(tables.municipalities.get(&chars("00000002G")).unwrap().name, chars("Dorf"));
}

#[test]
fn invalid_street_status_is_discarded() {
    let data = file_of(vec![sb_line("11111111", "U", "Totweg", "01067", "", "00000001")]);
    let (_, streets) = scan(&data);
    assert!(streets.is_empty());
}

#[test]
fn end_to_end_single_street() {
    let data = file_of(vec![
        kg_line("00000001", "G", "Musterstadt"),
        sb_line("11111111", "G", "Hauptstra\u{00DF}e", "01067", "", "00000001"),
    ]);
    let (tables, streets) = scan(&data);
    assert_eq!(streets.len(), 1);
    let docs = join_chunk(&tables, &streets);
    assert_eq!(docs.len(), 1);
    let d = &docs[0];
    assert_eq!(d.street, chars("Hauptstra\u{00DF}e"));
    assert_eq!(d.postal_code, chars("01067"));
    assert_eq!(d.community, Some(chars("Musterstadt")));
    assert_eq!(d.region, None);
    assert_eq!(d.city, None);
    assert_eq!(d.city_addition, None);
    assert_eq!(d.country, None);
    assert_eq!(d.district, None);
    assert_eq!(d.state, None);
}

#[test]
fn end_to_end_full_hierarchy() {
    let data = file_of(vec![
        kg_line("00000001", "G", "Musterstadt"),
        kg_line("00000000", "K", "Musterkreis"),
        kg_line("00000000", "R", "Musterbezirk"),
        kg_line("00000000", "L", "Musterland"),
        or_line("11111111", "G", "Teststadt", "b. Dresden"),
        ob_line("11111111", "   ", "01067", "G", "Altstadt"),
        sb_line("11111111", "G", "Marktgasse", "01067", "", "00000001"),
    ]);
    let (tables, streets) = scan(&data);
    let docs = join_chunk(&tables, &streets);
    assert_eq!(docs.len(), 1);
    let d = &docs[0];
    assert_eq!(d.city, Some(chars("Teststadt")));
    assert_eq!(d.city_addition, Some(chars("b. Dresden")));
    assert_eq!(d.region, Some(chars("Altstadt")));
    assert_eq!(d.community, Some(chars("Musterstadt")));
    assert_eq!(d.country, Some(chars("Musterkreis")));
    assert_eq!(d.district, Some(chars("Musterbezirk")));
    assert_eq!(d.state, Some(chars("Musterland")));
}

#[test]
fn subdivision_code_suppresses_locality_lookups() {
    let data = file_of(vec![
        or_line("11111111", "G", "Teststadt", ""),
        ob_line("11111111", "001", "01067", "G", "Altstadt"),
        sb_line("11111111", "G", "Bergweg", "01067", "001", "00000001"),
    ]);
    let (tables, streets) = scan(&data);
    let docs = join_chunk(&tables, &streets);
    assert_eq!(docs.len(), 1);
    assert_eq!(docs[0].city, None);
    assert_eq!(docs[0].city_addition, None);
    assert_eq!(docs[0].region, None);
}

#[test]
fn chunking_produces_ceil_and_loses_nothing() {
    let streets: Vec<StreetRecord> =
        (0..7).map(|i| street(&format!("Weg {}", i), "00000001")).collect();
    let whole = streets.iter().map(|s| s.name.clone()).collect::<Vec<_>>();
    let chunks = chunk_streets(streets, 3);
    // ceil(7 / 3) = 3 chunks, drained from the tail.
    assert_eq!(chunks.len(), 3);
    assert_eq!(chunks[0].len(), 3);
    assert_eq!(chunks[1].len(), 3);
    assert_eq!(chunks[2].len(), 1);
    let mut rebuilt = Vec::new();
    for c in chunks.iter().rev() {
        for s in c {
            rebuilt.push(s.name.clone());
        }
    }
    assert_eq!(rebuilt, whole);
}

#[test]
fn chunked_join_equals_whole_join() {
    let tables = empty_tables();
    let streets: Vec<StreetRecord> =
        (0..7).map(|i| street(&format!("Gasse {}", i), "00000001")).collect();
    let whole_docs = join_chunk(&tables, &streets);
    let chunks = chunk_streets(streets, 3);
    let mut rebuilt = Vec::new();
    for c in chunks.iter().rev() {
        rebuilt.extend(join_chunk(&tables, c));
    }
    assert_eq!(rebuilt, whole_docs);
}

#[test]
fn chunking_exact_multiple_and_empty() {
    let streets: Vec<StreetRecord> =
        (0..6).map(|i| street(&format!("Pfad {}", i), "00000001")).collect();
    let chunks = chunk_streets(streets, 3);
    assert_eq!(chunks.len(), 2);
    assert!(chunks.iter().all(|c| c.len() == 3));
    let none = chunk_streets(Vec::new(), 3);
    assert!(none.is_empty());
}

#[test]
fn index_extract_runs_both_stages() {
    let data = file_of(vec![
        kg_line("00000001", "G", "Musterstadt"),
        sb_line("11111111", "G", "Nordallee", "01067", "", "00000001"),
        sb_line("11111111", "G", "Ostallee", "01067", "", "00000001"),
        sb_line("11111111", "G", "Westallee", "01067", "", "00000001"),
    ]);
    let chunks = index_extract(&data, 2).expect("well-formed extract");
    // ceil(3 / 2) = 2 chunks, drained from the tail.
    assert_eq!(chunks.len(), 2);
    assert_eq!(chunks[0].len(), 2);
    assert_eq!(chunks[1].len(), 1);
    assert_eq!(chunks[1][0].street, chars("Nordallee"));
    assert_eq!(chunks[0][0].street, chars("Ostallee"));
    assert_eq!(chunks[0][1].street, chars("Westallee"));
    assert!(chunks.iter().flatten().all(|d| d.community == Some(chars("Musterstadt"))));
}

#[test]
fn index_extract_rejects_malformed_admin_chain() {
    let data = file_of(vec![sb_line("11111111", "G", "Kurzweg", "01067", "", "123")]);
    assert!(index_extract(&data, 5000).is_none());
}

#[test]
fn join_rerun_yields_identical_documents() {
    let data = file_of(vec![
        kg_line("00000001", "G", "Musterstadt"),
        or_line("11111111", "G", "Teststadt", ""),
        sb_line("11111111", "G", "Ringstrasse", "01067", "", "00000001"),
        sb_line("11111111", "G", "Ringstrasse", "01067", "", "00000001"),
    ]);
    let (tables, streets) = scan(&data);
    // Duplicate street rows are kept, one document each.
    assert_eq!(streets.len(), 2);
    let first = join_chunk(&tables, &streets);
    let second = join_chunk(&tables, &streets);
    assert_eq!(first, second);
}

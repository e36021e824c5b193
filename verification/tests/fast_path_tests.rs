use page_counter::fast_path::{
    follow_chain, locate_object, read_catalog, read_count, read_number, read_pages,
    read_reference, read_trailer, read_xref, ChainFailure, ChainState, ScanError,
};
use page_counter::ultra_fast_pdf::{is_whitespace, matches_pattern, parse_float, parse_from_end_of_file};

/// A document made of a catalog, a root of the page tree, a trailer and what
/// stands behind `startxref`. The offset written is that of the trailer
/// unless `offset` gives another text.
fn document(catalog: &str, pages: &str, trailer: &str, offset: Option<&str>) -> Vec<u8> {
    let mut doc = String::from("%PDF-1.4\n% a comment that makes the file long enough to be read\n");
    doc.push_str(catalog);
    doc.push('\n');
    doc.push_str(pages);
    doc.push('\n');
    let at = doc.len();
    doc.push_str(trailer);
    doc.push_str("\nstartxref\n");
    match offset {
        Some(text) => doc.push_str(text),
        None => doc.push_str(&at.to_string()),
    }
    doc.push_str("\n%%EOF\n");
    doc.into_bytes()
}

const CATALOG: &str = "1 0 obj\n<< /Type /Catalog /Pages 2 0 R >>\nendobj";
const PAGES: &str = "2 0 obj\n<< /Type /Pages /Kids [ ] /Count 17 >>\nendobj";
const TRAILER: &str = "trailer\n<< /Size 3 /Root 1 0 R >>";

fn failure(state: ChainState, error: ScanError) -> Result<usize, ChainFailure> {
    Err(ChainFailure { state, error })
}

#[test]
fn chain_reaches_the_count() {
    let doc = document(CATALOG, PAGES, TRAILER, None);
    assert_eq!(follow_chain(&doc), Ok(17));
    assert_eq!(parse_from_end_of_file(&doc), Some(17));
    assert!(read_xref(&doc).is_ok());
    assert!(read_trailer(&doc).unwrap().starts_with(b"trailer"));
    assert!(read_catalog(&doc).unwrap().starts_with(b"1 0 obj"));
    assert!(read_pages(&doc).unwrap().starts_with(b"2 0 obj"));
}

#[test]
fn chain_is_followed_in_a_short_file() {
    assert_eq!(follow_chain(b""), failure(ChainState::LocateStartXref, ScanError::NotFound));
    assert_eq!(
        follow_chain(&[b' '; 99]),
        failure(ChainState::LocateStartXref, ScanError::NotFound)
    );
    let tiny = b"1 0 obj/Pages 2 0 R 2 0 obj/Count 3 trailer/Root 1 0 R startxref 0";
    assert!(tiny.len() < 100);
    assert_eq!(follow_chain(tiny), Ok(3));
    assert_eq!(follow_chain(b"startxref"), failure(ChainState::ReadXrefOffset, ScanError::Malformed));
}

#[test]
fn chain_ends_where_startxref_is_missing_or_too_far_from_the_end() {
    let doc = document(CATALOG, PAGES, TRAILER, None);
    let cut = doc.len() - 20;
    assert_eq!(
        follow_chain(&doc[..cut - 10]),
        failure(ChainState::LocateStartXref, ScanError::NotFound)
    );
    let mut far = doc.clone();
    far.extend(vec![b' '; 1024]);
    assert_eq!(follow_chain(&far), failure(ChainState::LocateStartXref, ScanError::NotFound));
    let mut near = doc.clone();
    near.extend(vec![b' '; 1000]);
    assert_eq!(follow_chain(&near), Ok(17));
}

#[test]
fn chain_reads_the_last_startxref() {
    let mut doc = document(CATALOG, PAGES, TRAILER, None);
    doc.extend(b"startxref\nnothing\n%%EOF\n");
    assert_eq!(follow_chain(&doc), failure(ChainState::ReadXrefOffset, ScanError::Malformed));
}

#[test]
fn chain_ends_at_a_bad_offset() {
    let bad = |offset: &str| follow_chain(&document(CATALOG, PAGES, TRAILER, Some(offset)));
    assert_eq!(bad("x"), failure(ChainState::ReadXrefOffset, ScanError::Malformed));
    assert_eq!(bad("100000001"), failure(ChainState::ReadXrefOffset, ScanError::Overflow));
    assert_eq!(bad("100000000"), failure(ChainState::ReadXrefOffset, ScanError::Malformed));
    assert_eq!(bad("0"), Ok(17));
}

#[test]
fn chain_ends_where_the_trailer_is_missing_or_too_far() {
    let doc = document(CATALOG, PAGES, "no dictionary here", None);
    assert_eq!(follow_chain(&doc), failure(ChainState::LocateTrailer, ScanError::NotFound));
    let padded = format!("{}{}", " ".repeat(5000), TRAILER);
    assert_eq!(
        follow_chain(&document(CATALOG, PAGES, &padded, None)),
        failure(ChainState::LocateTrailer, ScanError::NotFound)
    );
    let reached = format!("{}{}", " ".repeat(4999), TRAILER);
    assert_eq!(follow_chain(&document(CATALOG, PAGES, &reached, None)), Ok(17));
}

#[test]
fn chain_ends_at_a_bad_root() {
    let with = |trailer: &str| follow_chain(&document(CATALOG, PAGES, trailer, None));
    assert_eq!(
        with("trailer\n<< /Size 3 >>"),
        failure(ChainState::ExtractRootRef, ScanError::NotFound)
    );
    assert_eq!(
        with("trailer\n<< /Root null >>"),
        failure(ChainState::ExtractRootRef, ScanError::Malformed)
    );
    assert_eq!(
        with("trailer\n<< /Root 999999999 0 R >>"),
        failure(ChainState::ExtractRootRef, ScanError::Overflow)
    );
    assert_eq!(
        with("trailer\n<< /Root 7 0 R >>"),
        failure(ChainState::LocateRootObject, ScanError::NotFound)
    );
}

#[test]
fn chain_ends_at_a_bad_page_tree() {
    let with =
        |catalog: &str, pages: &str| follow_chain(&document(catalog, pages, TRAILER, None));
    assert_eq!(
        with("1 0 obj\n<< /Type /Catalog >>\nendobj", "padding\n"),
        failure(ChainState::ExtractPagesRef, ScanError::NotFound)
    );
    assert_eq!(
        with("1 0 obj\n<< /Pages [ ] >>\nendobj", PAGES),
        failure(ChainState::ExtractPagesRef, ScanError::Malformed)
    );
    assert_eq!(
        with("1 0 obj\n<< /Pages 5 0 R >>\nendobj", PAGES),
        failure(ChainState::LocatePagesObject, ScanError::NotFound)
    );
    assert_eq!(
        with(CATALOG, "2 0 obj\n<< /Type /Pages /Kids [ ] >>\nendobj"),
        failure(ChainState::ExtractCount, ScanError::NotFound)
    );
    assert_eq!(
        with(CATALOG, "2 0 obj\n<< /Type /Pages /Count many >>\nendobj"),
        failure(ChainState::ExtractCount, ScanError::Malformed)
    );
    assert_eq!(
        with(CATALOG, "2 0 obj\n<< /Type /Pages /Count 1000001 >>\nendobj"),
        failure(ChainState::ExtractCount, ScanError::Overflow)
    );
    assert_eq!(with(CATALOG, "2 0 obj\n<< /Type /Pages /Count 1000000 >>\nendobj"), Ok(1_000_000));
    assert_eq!(with(CATALOG, "2 0 obj\n<< /Type /Pages /Count 0 >>\nendobj"), Ok(0));
}

#[test]
fn count_beyond_the_body_window_is_not_reached() {
    let kids = "3 0 R ".repeat(400);
    let pages = format!("2 0 obj\n<< /Type /Pages /Kids [ {}] /Count 400 >>\nendobj", kids);
    assert_eq!(
        follow_chain(&document(CATALOG, &pages, TRAILER, None)),
        failure(ChainState::ExtractCount, ScanError::NotFound)
    );
}

#[test]
fn steps_read_numbers_and_references() {
    assert_eq!(read_number(b" \n42", 100), Ok(42));
    assert_eq!(read_number(b"42", 41), Err(ScanError::Overflow));
    assert_eq!(read_number(b"", 41), Err(ScanError::Malformed));
    assert_eq!(read_number(b"-1", 41), Err(ScanError::Malformed));
    assert_eq!(read_reference(b"/Root 3 0 R and ten more", b"/Root"), Ok(3));
    assert_eq!(read_reference(b"/Root 3 0 R", b"/Root"), Ok(3));
    assert_eq!(read_reference(b"/Root", b"/Root"), Err(ScanError::Malformed));
    assert_eq!(read_reference(b"/Roo", b"/Root"), Err(ScanError::NotFound));
    assert_eq!(read_reference(b"", b"/Root"), Err(ScanError::NotFound));
    assert_eq!(read_count(b"/Count 5 and more"), Ok(5));
    assert_eq!(read_count(b"/Count"), Err(ScanError::Malformed));
    assert_eq!(read_count(b"/Count 7"), Ok(7));
    assert_eq!(read_count(b"/Coun"), Err(ScanError::NotFound));
    assert_eq!(locate_object(b"10 0 obj << >>", 0).map(|s| s.to_vec()), Some(b"0 0 obj << >>".to_vec()));
    assert_eq!(locate_object(b"10 0 obj", 10).map(|s| s.to_vec()), Some(b"10 0 obj".to_vec()));
    assert_eq!(locate_object(b"10 0 ob", 10), None);
    let long = format!("4 0 obj{}", "x".repeat(3000));
    assert_eq!(locate_object(long.as_bytes(), 4).map(|s| s.len()), Some(2000));
}

#[test]
fn scanner_is_reached_through_the_byte_level_module() {
    assert!(matches_pattern(b"/Count", 0, b"/Count"));
    assert!(is_whitespace(b'\0'));
    assert_eq!(parse_float(b"1.5", 0, 3), Some((1_500, 3)));
}

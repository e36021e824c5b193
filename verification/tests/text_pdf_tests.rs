use page_counter::dimension_sampler::{
    all_close, collect_leaves, is_leaf_at, page_region_at, size_in_mm, size_in_region,
};
use page_counter::fast_pdf::{
    count_in_snippet, extract_first_page_dimensions, extract_page_count_fast,
    extract_pages_obj_id, extract_root_obj_id, find_object_content, find_pages_count_pattern,
    parse_pdf_structure, reference_in_text,
};
use page_counter::page_box::{find_box, read_box_at, read_text_box, PagePoints};
use page_counter::scanner::{
    byte_in_class, count_occurrences, find_between, push_decimal, rfind_between, scan_number,
    skip_class, ByteClass, Number,
};
use page_counter::schema::PageSizeMm;
use page_counter::simple_pdf::{count_pdf_pages_simple, extract_mediabox_simple, extract_number};
use page_counter::strategy::Strategy;
use page_counter::text::{count_chars, ends_with, push_decimal_text, same_text, starts_with};
use page_counter::ultra_fast_pdf::{
    leading_number_within, plausible_count, resolve_fast, run_strategy, search_heuristic,
    suggestion_at,
};

fn text_pdf() -> String {
    let mut pdf = String::from("%PDF-1.4\n");
    pdf.push_str("1 0 obj\n<< /Type /Catalog /Pages 2 0 R >>\nendobj\n");
    pdf.push_str("2 0 obj\n<< /Kids [3 0 R] /Count 1 /Type /Pages >>\nendobj\n");
    pdf.push_str("3 0 obj\n<< /Type /Page /MediaBox [ 0 0 595.28 841.89 ] >>\nendobj\n");
    let xref = pdf.len();
    pdf.push_str("xref\n0 4\ntrailer\n<< /Root 1 0 R /Size 4 >>\nstartxref\n");
    pdf.push_str(&format!("{}\n%%EOF", xref));
    pdf
}

#[test]
fn simple_counter_takes_the_greatest_count() {
    assert_eq!(count_pdf_pages_simple(b"/Count 3 /Count 12 /Count 7"), Some(12));
    assert_eq!(count_pdf_pages_simple(b"/Count 0"), None);
    assert_eq!(count_pdf_pages_simple(b"/Count 1000000 /Count 999999"), Some(1_000_000));
    assert_eq!(count_pdf_pages_simple(b"/Count 1000001 /Count 999999"), Some(999_999));
    assert_eq!(count_pdf_pages_simple(b"/Count"), None);
    assert_eq!(count_pdf_pages_simple(b"/Count [4]"), None);
    assert_eq!(count_pdf_pages_simple(b"no count at all"), None);
    assert_eq!(count_pdf_pages_simple(b""), None);
    let far = format!("/Count{}7", " ".repeat(49));
    assert_eq!(count_pdf_pages_simple(far.as_bytes()), Some(7));
    let too_far = format!("/Count{}7", " ".repeat(50));
    assert_eq!(count_pdf_pages_simple(too_far.as_bytes()), None);
}

#[test]
fn simple_counter_wants_utf8() {
    assert_eq!(count_pdf_pages_simple(b"/Count 3 \xff"), None);
    assert_eq!(count_pdf_pages_simple("/Count 3 é".as_bytes()), Some(3));
    assert_eq!(extract_mediabox_simple(b"/MediaBox [0 0 10 20] \xff"), None);
    assert_eq!(
        extract_mediabox_simple(b"/MediaBox [0 0 10 20]"),
        Some(PagePoints { width: 10_000, height: 20_000 })
    );
}

#[test]
fn extract_number_wants_a_number_that_fits() {
    assert_eq!(extract_number("\t\r\n 7x"), Some(7));
    assert_eq!(extract_number("x7"), None);
    assert_eq!(extract_number(""), None);
    assert_eq!(extract_number("18446744073709551615"), Some(usize::MAX));
    assert_eq!(extract_number("18446744073709551616"), None);
}

#[test]
fn fast_counter_reads_the_count_near_the_type() {
    assert_eq!(find_pages_count_pattern(b"<< /Type /Pages /Kids [] /Count 9 >>"), Some(9));
    assert_eq!(find_pages_count_pattern(b"<< /Type /Catalog >> << /Type/Pages/Count 4 >>"), Some(4));
    assert_eq!(find_pages_count_pattern(b"<< /Type /Pages /Count 0 >> << /Type /Pages /Count 2 >>"), Some(2));
    assert_eq!(find_pages_count_pattern(b"<< /Count 9 /Type /Pages >>"), None);
    assert_eq!(find_pages_count_pattern(b"<< /Type /Page /Count 9 >>"), None);
    assert_eq!(find_pages_count_pattern(b""), None);
    let far = format!("/Type{}/Pages /Count 3", " ".repeat(39));
    assert_eq!(find_pages_count_pattern(far.as_bytes()), Some(3));
    let too_far = format!("/Type{}/Pages /Count 3", " ".repeat(40));
    assert_eq!(find_pages_count_pattern(too_far.as_bytes()), None);
    assert_eq!(count_in_snippet(b"/Count x /Count 3"), None);
    assert_eq!(count_in_snippet(b"/Count 1000001"), None);
    assert_eq!(count_in_snippet(b"/Count 1000000"), Some(1_000_000));
}

#[test]
fn fast_counter_follows_the_structure() {
    let pdf = text_pdf();
    assert_eq!(find_pages_count_pattern(pdf.as_bytes()), Some(1));
    assert_eq!(parse_pdf_structure(pdf.as_bytes()), Some(1));
    assert_eq!(extract_page_count_fast(pdf.as_bytes()), Some(1));
    assert_eq!(extract_root_obj_id("trailer << /Size 4 /Root 1 0 R >>"), Some(1));
    assert_eq!(extract_root_obj_id("trailer << /Size 4 >>"), None);
    assert_eq!(extract_root_obj_id("/Root"), None);
    assert_eq!(extract_pages_obj_id("<< /Type /Catalog /Pages 22 0 R >>"), Some(22));
    assert_eq!(extract_pages_obj_id("<< /Pages R >>"), None);
    assert_eq!(reference_in_text(b"/Info 100000001 0 R", b"/Info"), None);
    let object = find_object_content(pdf.as_bytes(), 2).unwrap();
    assert_eq!(object, b"2 0 obj\n<< /Kids [3 0 R] /Count 1 /Type /Pages >>\n");
    assert_eq!(find_object_content(pdf.as_bytes(), 9), None);
    assert_eq!(find_object_content(b"5 0 obj << >>", 5), None);
    assert_eq!(parse_pdf_structure(b"startxref\n5\n"), None);
    assert_eq!(parse_pdf_structure(b"nothing"), None);
}

#[test]
fn first_media_box_is_read_as_text() {
    let pdf = text_pdf();
    assert_eq!(
        extract_first_page_dimensions(pdf.as_bytes()),
        Some(PagePoints { width: 595_280, height: 841_890 })
    );
    assert_eq!(
        extract_first_page_dimensions(b"/MediaBox\n[ 10 20 x 110 nan 220.5 7 ]"),
        Some(PagePoints { width: 100_000, height: 200_500 })
    );
    assert_eq!(extract_first_page_dimensions(b"/MediaBox [0 0 612]"), None);
    assert_eq!(extract_first_page_dimensions(b"/MediaBox [] [0 0 612 792]"), None);
    assert_eq!(extract_first_page_dimensions(b"] /MediaBox [0 0 612 792]"), Some(PagePoints { width: 612_000, height: 792_000 }));
    assert_eq!(extract_first_page_dimensions(b"/MediaBox ] [0 0 612 792]"), None);
    assert_eq!(extract_first_page_dimensions(b"/MediaBox [0 0 0 792]"), None);
    assert_eq!(extract_first_page_dimensions(b"/MediaBox [0 0 10000 792]"), None);
    assert_eq!(extract_first_page_dimensions(b"/MediaBox [0 0 9999.999 792]"), Some(PagePoints { width: 9_999_999, height: 792_000 }));
    assert_eq!(extract_first_page_dimensions(b"/CropBox [0 0 612 792]"), None);
    assert_eq!(read_text_box(b"/CropBox [0 0 612 792]", b"/CropBox"), Some(PagePoints { width: 612_000, height: 792_000 }));
    assert_eq!(
        read_text_box(b"k [-1 2a 2 3.5 4 9]", b"k"),
        Some(PagePoints { width: 4_500, height: 2_000 })
    );
}

#[test]
fn boxes_are_read_behind_their_key() {
    let doc = b"/MediaBox[0 0 612 792] /MediaBox [612 792 0 0]";
    let size = Some(PagePoints { width: 612_000, height: 792_000 });
    assert_eq!(read_box_at(doc, 0, b"/MediaBox"), size);
    assert_eq!(read_box_at(doc, 23, b"/MediaBox"), size);
    assert_eq!(read_box_at(doc, 1, b"/MediaBox"), None);
    assert_eq!(read_box_at(doc, 100, b"/MediaBox"), None);
    assert_eq!(find_box(doc, b"/MediaBox", 1, doc.len()), size);
    assert_eq!(find_box(doc, b"/MediaBox", 24, doc.len()), None);
    assert_eq!(find_box(doc, b"/MediaBox", 0, usize::MAX), size);
    let far = format!("/MediaBox{}[0 0 1 1]", " ".repeat(99));
    assert_eq!(read_box_at(far.as_bytes(), 0, b"/MediaBox"), None);
    let near = format!("/MediaBox{}[0 0 1 1]", " ".repeat(91));
    assert_eq!(
        read_box_at(near.as_bytes(), 0, b"/MediaBox"),
        Some(PagePoints { width: 1_000, height: 1_000 })
    );
    assert_eq!(read_box_at(b"/MediaBox [0 0 612 792", 0, b"/MediaBox"), size);
    assert_eq!(read_box_at(b"/MediaBox [0 0 612 ]", 0, b"/MediaBox"), None);
}

#[test]
fn pages_are_found_by_their_type() {
    let doc = b"1 0 obj << /Type /Page >> endobj 2 0 obj << /MediaBox [0 0 5 6] /Type/Page >> endobj";
    assert!(is_leaf_at(doc, 11));
    assert!(!is_leaf_at(doc, 12));
    assert!(!is_leaf_at(b"/Type /Pages", 0));
    assert!(is_leaf_at(b"/Type /Page", 0));
    assert!(is_leaf_at(b"/Type/PageX", 0));
    assert_eq!(collect_leaves(doc, 5), vec![11, 64]);
    assert_eq!(collect_leaves(doc, 1), vec![11]);
    assert_eq!(collect_leaves(doc, 0), Vec::<usize>::new());
    assert_eq!(page_region_at(doc, 11), b"obj << /Type /Page >> ");
    assert_eq!(page_region_at(doc, 64), b"obj << /MediaBox [0 0 5 6] /Type/Page >> ");
    assert_eq!(page_region_at(b"/Type /Page /MediaBox", 0), b"/Type /Page /MediaBox");
    assert_eq!(size_in_region(page_region_at(doc, 64)), PagePoints { width: 5_000, height: 6_000 });
    assert_eq!(size_in_region(b""), PagePoints { width: 595_000, height: 842_000 });
}

#[test]
fn sizes_are_compared_and_converted() {
    let a = PagePoints { width: 612_000, height: 792_000 };
    assert!(all_close(&vec![]));
    assert!(all_close(&vec![a]));
    assert!(all_close(&vec![a, PagePoints { width: 612_100, height: 791_900 }]));
    assert!(!all_close(&vec![a, PagePoints { width: 612_101, height: 792_000 }]));
    assert!(!all_close(&vec![a, PagePoints { width: 612_000, height: 791_899 }]));
    // each is close to the first, and the two others are not close to each other
    assert!(!all_close(&vec![
        a,
        PagePoints { width: 612_100, height: 792_000 },
        PagePoints { width: 611_900, height: 792_000 },
    ]));
    assert_eq!(size_in_mm(a), PageSizeMm { width_um: 215_900, height_um: 279_400 });
}

#[test]
fn scanner_pieces_do_their_part() {
    assert_eq!(find_between(b"abcabc", b"bc", 0, 1), None);
    assert_eq!(find_between(b"abcabc", b"bc", 0, 2), Some(1));
    assert_eq!(find_between(b"abcabc", b"bc", 2, usize::MAX), Some(4));
    assert_eq!(rfind_between(b"abcabc", b"bc", 0, 6), Some(4));
    assert_eq!(rfind_between(b"abcabc", b"bc", 0, 4), Some(1));
    assert_eq!(rfind_between(b"abcabc", b"bc", 2, 4), None);
    assert_eq!(rfind_between(b"abcabc", b"bc", 0, usize::MAX), Some(4));
    assert_eq!(rfind_between(b"ab", b"abc", 0, 9), None);
    assert_eq!(skip_class(b"  ([<x", 0, 6, ByteClass::Filler), 5);
    assert_eq!(skip_class(b" :x", 0, 3, ByteClass::Filler), 1);
    assert_eq!(skip_class(b" :x", 0, 3, ByteClass::FillerOrColon), 2);
    assert_eq!(skip_class(b"12.5x", 0, 5, ByteClass::Decimal), 4);
    assert_eq!(skip_class(b"ab cd", 0, 5, ByteClass::Solid), 2);
    assert_eq!(skip_class(b"1234", 0, 2, ByteClass::Digit), 2);
    assert_eq!(skip_class(b"1234", 9, 2, ByteClass::Digit), 9);
    assert!(byte_in_class(ByteClass::Space, 0));
    assert!(!byte_in_class(ByteClass::Space, 11));
    assert_eq!(scan_number(b"123", 0, 3, 122), Number::TooLarge);
    assert_eq!(scan_number(b"123", 0, 3, 123), Number::Value { value: 123, end: 3 });
    assert_eq!(scan_number(b"123", 0, 2, 123), Number::Value { value: 12, end: 2 });
    assert_eq!(scan_number(b"x", 0, 1, 5), Number::Missing);
    assert_eq!(count_occurrences(b"abababa", b"aba"), 3);
    assert_eq!(count_occurrences(b"abc", b"abcd"), 0);
    let mut digits = b"id ".to_vec();
    push_decimal(&mut digits, 1203);
    assert_eq!(digits, b"id 1203");
    let mut zero = Vec::new();
    push_decimal(&mut zero, 0);
    assert_eq!(zero, b"0");
}

#[test]
fn text_pieces_do_their_part() {
    let mut text = String::from("n=");
    push_decimal_text(&mut text, 42);
    assert_eq!(text, "n=42");
    let mut zero = String::new();
    push_decimal_text(&mut zero, 0);
    assert_eq!(zero, "0");
    let mut max = String::new();
    push_decimal_text(&mut max, usize::MAX);
    assert_eq!(max, usize::MAX.to_string());
    assert_eq!(count_chars("née"), 3);
    assert_eq!(count_chars(""), 0);
    assert!(same_text("Letter", "Letter"));
    assert!(!same_text("Letter", "letter"));
    assert!(!same_text("Letter", "Letters"));
    assert!(ends_with(b"a.pdf", b".pdf"));
    assert!(!ends_with(b"pdf", b".pdf"));
    assert!(starts_with(b"ppt/slides", b"ppt/"));
    assert!(!starts_with(b"pp", b"ppt/"));
}

#[test]
fn strategies_run_one_by_one() {
    let pad = " ".repeat(60);
    let doc = format!("<< /Type /Pages /Count 12 >>{}", pad);
    let bytes = doc.as_bytes();
    assert_eq!(run_strategy(bytes, Strategy::SpecFollowing), None);
    assert_eq!(run_strategy(bytes, Strategy::TypePagesProximity), Some(12));
    assert_eq!(run_strategy(bytes, Strategy::GlobalMaxCount), Some(12));
    assert_eq!(run_strategy(bytes, Strategy::ExpandedWindow), Some(12));
    assert_eq!(run_strategy(bytes, Strategy::CountWithoutSlash), Some(12));
    assert_eq!(run_strategy(bytes, Strategy::FullParse), None);
    assert_eq!(search_heuristic(bytes, Strategy::SpecFollowing), None);
    assert_eq!(resolve_fast(bytes), Some((Strategy::TypePagesProximity, 12)));
    assert_eq!(resolve_fast(b""), None);
    assert_eq!(suggestion_at(bytes, Strategy::TypePagesProximity, 9), 12);
    assert_eq!(suggestion_at(bytes, Strategy::TypePagesProximity, 16), 0);
    assert_eq!(suggestion_at(bytes, Strategy::GlobalMaxCount, 16), 12);
    assert_eq!(suggestion_at(bytes, Strategy::CountWithoutSlash, 17), 12);
    assert_eq!(suggestion_at(bytes, Strategy::SpecFollowing, 16), 0);
    assert_eq!(suggestion_at(bytes, Strategy::GlobalMaxCount, bytes.len()), 0);
    assert_eq!(suggestion_at(bytes, Strategy::CountWithoutSlash, usize::MAX), 0);
    assert_eq!(plausible_count(Some(0)), 0);
    assert_eq!(plausible_count(Some(1_000_000)), 1_000_000);
    assert_eq!(plausible_count(Some(1_000_001)), 0);
    assert_eq!(plausible_count(Some(999_999)), 999_999);
    assert_eq!(plausible_count(None), 0);
    assert_eq!(leading_number_within(b" 12", 11), None);
    assert_eq!(leading_number_within(b" 12", 12), Some(12));
    assert!(Strategy::GlobalMaxCount.heuristic());
    assert!(!Strategy::SpecFollowing.heuristic());
    assert!(!Strategy::FullParse.heuristic());
}

#[test]
fn fast_counter_takes_the_declared_count_before_any_pattern() {
    let pdf = b"%PDF-1.4 3 0 obj<</Type/Pages/Count 9>>endobj 1 0 obj<</Type/Catalog/Pages 2 0 R>>endobj 2 0 obj<</Type/Pages/Kids[4 0 R]/Count 1>>endobj xref trailer<</Size 4/Root 1 0 R>> startxref\n138\n%%EOF";
    assert_eq!(find_pages_count_pattern(pdf), Some(9));
    assert_eq!(parse_pdf_structure(pdf), Some(1));
    assert_eq!(extract_page_count_fast(pdf), Some(1));
    let broken = b"%PDF-1.4 3 0 obj<</Type/Pages/Count 9>>endobj startxref\nnone\n%%EOF";
    assert_eq!(parse_pdf_structure(broken), None);
    assert_eq!(extract_page_count_fast(broken), Some(9));
}

#[test]
fn page_region_is_total() {
    let doc = b"1 0 obj << /Type /Page >> endobj";
    assert_eq!(page_region_at(doc, doc.len()), b"obj");
    assert_eq!(page_region_at(doc, doc.len() + 1), b"obj");
    assert_eq!(page_region_at(doc, usize::MAX), b"obj");
    assert_eq!(page_region_at(b"", 5), b"");
    assert_eq!(page_region_at(b"plain", 9), b"");
}

use page_counter::dimension_sampler::{count_page_leaves, sample_dimensions};
use page_counter::extraction::{assemble, conclude, extract, resolve};
use page_counter::file_utils::mm_from_pt;
use page_counter::page_box::{parse_float, PagePoints};
use page_counter::scanner::{find, parse_unsigned, skip_whitespace};
use page_counter::schema::PageSizeMm;
use page_counter::strategy::Strategy;
use page_counter::ultra_fast_pdf::{
    count_pages_ultra_fast, extract_first_number, extract_mediabox_ultra_fast,
    find_count_after_position, find_count_in_range, find_count_value, find_object_by_id,
    find_object_reference, parse_from_end_of_file, search_all_count_values,
    search_count_without_slash, search_pages_with_large_window, search_type_pages_pattern,
};

/// A complete document whose page tree is flat: one page for each size given,
/// in points.
fn flat_pdf(sizes: &[(u32, u32)]) -> Vec<u8> {
    let n = sizes.len();
    let mut body = String::from("%PDF-1.4\n");
    body.push_str("1 0 obj\n<< /Type /Catalog /Pages 2 0 R >>\nendobj\n");
    body.push_str(&format!("2 0 obj\n<< /Type /Pages /Count {} /Kids [", n));
    for k in 0..n {
        body.push_str(&format!("{} 0 R ", k + 3));
    }
    body.push_str("] >>\nendobj\n");
    for (k, (w, h)) in sizes.iter().enumerate() {
        body.push_str(&format!(
            "{} 0 obj\n<< /Type /Page /Parent 2 0 R /MediaBox [0 0 {} {}] >>\nendobj\n",
            k + 3,
            w,
            h
        ));
    }
    let xref = body.len();
    body.push_str(&format!("xref\n0 {}\n", n + 3));
    body.push_str(&format!("trailer\n<< /Size {} /Root 1 0 R >>\nstartxref\n{}\n%%EOF\n", n + 3, xref));
    body.into_bytes()
}

/// The same document, cut off just before `startxref`.
fn truncated(pdf: &[u8]) -> Vec<u8> {
    let at = find(pdf, b"startxref", 0).unwrap();
    pdf[..at].to_vec()
}

fn letter() -> PageSizeMm {
    PageSizeMm { width_um: 215_900, height_um: 279_400 }
}

#[test]
fn single_page_document_has_one_page_and_one_size() {
    let pdf = flat_pdf(&[(612, 792)]);
    let result = extract(&pdf);
    assert_eq!(result.page_count, Some(1));
    assert_eq!(result.page_dimensions.len(), 1);
    assert_eq!(result.page_dimensions[0], letter());
    assert_eq!(result.strategy_used, Strategy::SpecFollowing);
    assert_eq!(
        result.notes,
        vec![
            "page count read from the root of the page tree".to_string(),
            "uniform page size — sampled the first pages".to_string(),
        ]
    );
}

#[test]
fn every_strategy_agrees_on_a_flat_document() {
    let pdf = flat_pdf(&[(612, 792), (612, 792), (612, 792)]);
    assert_eq!(parse_from_end_of_file(&pdf), Some(3));
    assert_eq!(search_type_pages_pattern(&pdf), Some(3));
    assert_eq!(search_all_count_values(&pdf), Some(3));
    assert_eq!(count_page_leaves(&pdf), 3);
    assert_eq!(count_pages_ultra_fast(&pdf), Some(3));
}

#[test]
fn truncation_before_startxref_escalates() {
    let pdf = truncated(&flat_pdf(&[(612, 792), (612, 792)]));
    assert_eq!(parse_from_end_of_file(&pdf), None);
    let result = extract(&pdf);
    assert_ne!(result.strategy_used, Strategy::SpecFollowing);
    assert_eq!(result.strategy_used, Strategy::TypePagesProximity);
    assert_eq!(result.page_count, Some(2));
    assert_eq!(result.page_dimensions.len(), 2);
    assert_eq!(
        result.notes[1],
        "page count found by pattern search — not verified against the page tree"
    );
}

#[test]
fn global_max_count_takes_the_greatest_count() {
    let mut doc = String::new();
    doc.push_str("2 0 obj\n<< /Type /Pages /Kids [3 0 R 4 0 R] /Count 5 >>\nendobj\n");
    doc.push_str("3 0 obj\n<< /Type /Pages /Parent 2 0 R /Kids [5 0 R] /Count 3 >>\nendobj\n");
    doc.push_str("4 0 obj\n<< /Type /Pages /Parent 2 0 R /Kids [6 0 R] /Count 2 >>\nendobj\n");
    doc.push_str("% padding so that every key lies inside the scanned range\n");
    assert_eq!(search_all_count_values(doc.as_bytes()), Some(5));
}

#[test]
fn parse_unsigned_rejects_a_number_above_the_bound() {
    let text = b"/Count 99999999999999";
    assert_eq!(parse_unsigned(text, 7, 1_000_000), None);
    assert_eq!(parse_unsigned(text, 0, 1_000_000), None);
    assert_eq!(parse_unsigned(text, 7, usize::MAX), Some((99_999_999_999_999, 21)));
    assert_eq!(parse_unsigned(b"99999999999999999999999999999999999999", 0, usize::MAX), None);
}

#[test]
fn parse_unsigned_reads_up_to_the_first_byte_that_is_no_digit() {
    assert_eq!(parse_unsigned(b"150 0 R", 0, 1_000_000), Some((150, 3)));
    assert_eq!(parse_unsigned(b"x150", 1, 1_000_000), Some((150, 4)));
    assert_eq!(parse_unsigned(b"1000000", 0, 1_000_000), Some((1_000_000, 7)));
    assert_eq!(parse_unsigned(b"1000001", 0, 1_000_000), None);
    assert_eq!(parse_unsigned(b"", 0, 10), None);
    assert_eq!(parse_unsigned(b"12", 5, 10), None);
    assert_eq!(parse_unsigned(b"007", 0, 10), Some((7, 3)));
}

#[test]
fn skip_whitespace_passes_over_white_space_only() {
    assert_eq!(skip_whitespace(b" \t\r\n\0x", 0), 5);
    assert_eq!(skip_whitespace(b"abc", 1), 1);
    assert_eq!(skip_whitespace(b"   ", 0), 3);
    assert_eq!(skip_whitespace(b"   ", 7), 7);
    assert_eq!(skip_whitespace(b"\x0b1", 0), 0);
}

#[test]
fn find_returns_the_first_occurrence() {
    assert_eq!(find(b"abcabc", b"bc", 0), Some(1));
    assert_eq!(find(b"abcabc", b"bc", 2), Some(4));
    assert_eq!(find(b"abcabc", b"bc", 5), None);
    assert_eq!(find(b"abc", b"abcd", 0), None);
    assert_eq!(find(b"abc", b"", 3), Some(3));
    assert_eq!(find(b"abc", b"", 4), None);
}

#[test]
fn extraction_is_repeatable() {
    let pdf = flat_pdf(&[(612, 792), (300, 500), (612, 792)]);
    let first = extract(&pdf);
    let second = extract(&pdf);
    assert_eq!(first.page_count, second.page_count);
    assert_eq!(first.page_dimensions, second.page_dimensions);
    assert_eq!(first.strategy_used, second.strategy_used);
    assert_eq!(first.notes, second.notes);
}

#[test]
fn large_uniform_document_is_sampled() {
    let sizes = vec![(612u32, 792u32); 150];
    let pdf = flat_pdf(&sizes);
    let result = extract(&pdf);
    assert_eq!(result.page_count, Some(150));
    assert_eq!(result.page_dimensions.len(), 150);
    assert!(result.page_dimensions.iter().all(|size| *size == letter()));
    assert!(result.notes.contains(&"sampled first page only — large PDF".to_string()));
}

#[test]
fn mixed_sizes_are_read_page_by_page() {
    let pdf = flat_pdf(&[(612, 792), (300, 500)]);
    let result = extract(&pdf);
    assert_eq!(result.page_count, Some(2));
    assert_eq!(
        result.page_dimensions,
        vec![letter(), PageSizeMm { width_um: 105_833, height_um: 176_388 }]
    );
    assert!(result
        .notes
        .contains(&"mixed page sizes detected — sizes extracted per page".to_string()));
}

#[test]
fn samples_must_agree_with_each_other() {
    let mut pdf = String::from("<< /Type /Page /MediaBox [0 0 612 792] >> endobj ");
    pdf.push_str("<< /Type /Page /MediaBox [0 0 612.1 792] >> endobj ");
    pdf.push_str("<< /Type /Page /MediaBox [0 0 611.9 792] >> endobj ");
    let (_, note) = sample_dimensions(pdf.as_bytes(), 3);
    assert_eq!(note, Some("mixed page sizes detected — sizes extracted per page".to_string()));
    let (_, note) = sample_dimensions(pdf.as_bytes(), 2);
    assert_eq!(note, Some("uniform page size — sampled the first pages".to_string()));
}

#[test]
fn sizes_within_a_tenth_of_a_point_are_uniform() {
    let mut pdf = String::from("<< /Type /Page /MediaBox [0 0 612 792] >> endobj ");
    pdf.push_str("<< /Type /Page /MediaBox [0 0 612.1 791.9] >> endobj ");
    let (sizes, note) = sample_dimensions(pdf.as_bytes(), 2);
    assert_eq!(sizes, vec![letter(), letter()]);
    assert_eq!(note, Some("uniform page size — sampled the first pages".to_string()));

    let mut other = String::from("<< /Type /Page /MediaBox [0 0 612 792] >> endobj ");
    other.push_str("<< /Type /Page /MediaBox [0 0 612.101 792] >> endobj ");
    let (_, note) = sample_dimensions(other.as_bytes(), 2);
    assert_eq!(note, Some("mixed page sizes detected — sizes extracted per page".to_string()));
}

#[test]
fn page_without_media_box_takes_crop_box_then_default() {
    let mut pdf = String::from("4 0 obj << /Type /Page /CropBox [10 10 110 210] >> endobj ");
    pdf.push_str("5 0 obj << /Type /Page >> endobj ");
    pdf.push_str("6 0 obj << /CropBox [0 0 1 1] /MediaBox [0 0 200 400] /Type/Page >> endobj ");
    let (sizes, _) = sample_dimensions(pdf.as_bytes(), 4);
    assert_eq!(
        sizes,
        vec![
            PageSizeMm { width_um: 35_277, height_um: 70_555 },
            PageSizeMm { width_um: 209_902, height_um: 297_038 },
            PageSizeMm { width_um: 70_555, height_um: 141_111 },
            PageSizeMm { width_um: 209_902, height_um: 297_038 },
        ]
    );
}

#[test]
fn no_pages_means_no_sizes() {
    let (sizes, note) = sample_dimensions(b"anything", 0);
    assert!(sizes.is_empty());
    assert_eq!(note, None);
    let result = extract(b"");
    assert_eq!(result.page_count, None);
    assert!(result.page_dimensions.is_empty());
    assert_eq!(result.strategy_used, Strategy::FullParse);
    assert_eq!(result.notes, vec!["no page count found".to_string()]);
}

#[test]
fn full_parse_counts_the_pages_that_the_file_shows() {
    let doc = b"<< /Type /Page >> << /Type/Page >> << /Type /Pages >> << /Type /PageLabels >>";
    assert_eq!(count_page_leaves(doc), 3);
    let result = extract(doc);
    assert_eq!(result.strategy_used, Strategy::FullParse);
    assert_eq!(result.page_count, Some(3));
    assert_eq!(result.page_dimensions.len(), 3);
    assert_eq!(
        result.notes[0],
        "page count taken from the pages of the whole document"
    );
}

#[test]
fn assemble_takes_the_count_of_an_outside_parser() {
    let result = assemble(b"no page objects here", Some((Strategy::FullParse, 2)));
    assert_eq!(result.page_count, Some(2));
    assert_eq!(
        result.page_dimensions,
        vec![PageSizeMm { width_um: 209_902, height_um: 297_038 }; 2]
    );
    assert_eq!(result.strategy_used, Strategy::FullParse);
}

#[test]
fn points_convert_to_millimetres() {
    assert_eq!(mm_from_pt(72_000), 25_400);
    assert_eq!(mm_from_pt(612_000), 215_900);
    assert_eq!(mm_from_pt(595_000), 209_902);
    assert_eq!(mm_from_pt(0), 0);
    assert_eq!(mm_from_pt(u64::MAX), 6_507_601_381_558_647_375);
}

#[test]
fn parse_float_reads_thousandths() {
    assert_eq!(parse_float(b"612", 0, 3), Some((612_000, 3)));
    assert_eq!(parse_float(b"612.5]", 0, 6), Some((612_500, 5)));
    assert_eq!(parse_float(b"-0.25 ", 0, 6), Some((-250, 5)));
    assert_eq!(parse_float(b".5", 0, 2), Some((500, 2)));
    assert_eq!(parse_float(b"5.", 0, 2), Some((5_000, 2)));
    assert_eq!(parse_float(b"1.23456", 0, 7), Some((1_234, 7)));
    assert_eq!(parse_float(b"1.2.3", 0, 5), None);
    assert_eq!(parse_float(b"-", 0, 1), None);
    assert_eq!(parse_float(b".", 0, 1), None);
    assert_eq!(parse_float(b"abc", 0, 3), None);
    assert_eq!(parse_float(b"612", 0, 2), Some((61_000, 2)));
    assert_eq!(parse_float(b"612", 5, 9), None);
    assert_eq!(parse_float(b"100000001", 0, 9), None);
}

#[test]
fn media_box_gives_width_and_height() {
    assert_eq!(
        extract_mediabox_ultra_fast(b"<< /Type /Page /MediaBox [0 0 612 792] >>"),
        Some(PagePoints { width: 612_000, height: 792_000 })
    );
    assert_eq!(
        extract_mediabox_ultra_fast(b"/MediaBox [0 0 0 0] /MediaBox [ 10 20 110.5 220 ]"),
        Some(PagePoints { width: 100_500, height: 200_000 })
    );
    assert_eq!(
        extract_mediabox_ultra_fast(b"/MediaBox [0 0 612 792]"),
        Some(PagePoints { width: 612_000, height: 792_000 })
    );
    assert_eq!(extract_mediabox_ultra_fast(b"/MediaBox [0 0 612]"), None);
    assert_eq!(extract_mediabox_ultra_fast(b"/CropBox [0 0 612 792]"), None);
    assert_eq!(extract_mediabox_ultra_fast(b""), None);
}

#[test]
fn chain_links_are_read_one_by_one() {
    assert_eq!(extract_first_number(b"  \n 1234 rest"), Some(1234));
    assert_eq!(extract_first_number(b"x1234"), None);
    assert_eq!(extract_first_number(b"100000000"), Some(100_000_000));
    assert_eq!(extract_first_number(b"100000001"), None);
    assert_eq!(find_object_reference(b"<< /Size 5 /Root 12 0 R >>    ", b"/Root"), Some(12));
    assert_eq!(find_object_reference(b"/Root 12 0 R", b"/Root"), Some(12));
    assert_eq!(find_object_reference(b"/Root", b"/Root"), None);
    let doc = b"1 0 obj\n<< /Type /Catalog >>\nendobj\n12 0 obj\n<< /Count 7 >>\nendobj\n";
    assert_eq!(find_object_by_id(doc, 12).map(|s| s.len()), Some(doc.len() - 36));
    assert_eq!(find_object_by_id(doc, 3), None);
    assert_eq!(find_count_value(b"<< /Type /Pages /Count 7 /Kids [] >>"), Some(7));
    assert_eq!(find_count_value(b"<< /Count 1000001 >>   "), None);
    assert_eq!(find_count_value(b"/Count 7"), Some(7));
    assert_eq!(find_count_value(b"/Count"), None);
}

#[test]
fn counts_are_found_in_their_windows() {
    let doc = b"/Pages /Count [ 12 ] /Count 9 and some padding text";
    assert_eq!(find_count_after_position(doc, 0, doc.len()), Some(12));
    assert_eq!(find_count_after_position(doc, 8, doc.len()), Some(9));
    assert_eq!(find_count_after_position(doc, 0, 18), Some(12));
    assert_eq!(find_count_after_position(doc, 0, 17), Some(1));
    assert_eq!(find_count_after_position(doc, 0, 16), None);
    assert_eq!(find_count_after_position(doc, 0, 7), None);
    assert_eq!(find_count_in_range(doc, 0, 8), Some(12));
    assert_eq!(find_count_in_range(doc, 0, 7), None);
    assert_eq!(find_count_in_range(doc, 8, 21), None);
    assert_eq!(find_count_in_range(doc, 8, 22), Some(9));
    assert_eq!(find_count_after_position(b"/Count 5000000 and more", 0, 23), None);
    assert_eq!(find_count_after_position(b"/Count 7", 0, 8), Some(7));
    assert_eq!(find_count_after_position(b"/Count 0 /Count 5", 0, 17), Some(5));
    assert_eq!(find_count_after_position(b"/Count 2000000 /Count 5", 0, 23), Some(5));
    assert_eq!(find_count_after_position(b"/Count x /Count 5", 0, 17), Some(5));
    assert_eq!(find_count_in_range(b"/Count 0 /Count 5", 0, 17), Some(5));
    assert_eq!(search_type_pages_pattern(b"/Pages /Count 0 /Count 5"), Some(5));
    assert_eq!(find_count_after_position(doc, 0, usize::MAX), Some(12));
}

#[test]
fn pattern_searches_ignore_zero_and_what_exceeds_the_bound() {
    assert_eq!(search_type_pages_pattern(b"/Type /Pages /Count 0"), None);
    assert_eq!(search_all_count_values(b"/Type /Pages /Count 0"), None);
    assert_eq!(search_all_count_values(b"/Type /Pages /Count 1000001"), None);
    assert_eq!(search_all_count_values(b"/Type /Pages /Count 1000000"), Some(1_000_000));
    assert_eq!(search_type_pages_pattern(b"/Type /Pages /Count 1000000"), Some(1_000_000));
    assert_eq!(search_pages_with_large_window(b"/Count 1000000 /Pages"), Some(1_000_000));
    assert_eq!(search_count_without_slash(b" Count 1000000"), Some(1_000_000));
    assert_eq!(search_all_count_values(b"/Count 999999 /Count 1000001"), Some(999_999));
}

#[test]
fn pattern_searches_read_the_whole_buffer() {
    assert_eq!(search_all_count_values(b"/Count 7"), Some(7));
    assert_eq!(search_all_count_values(b"/Count [7]"), Some(7));
    assert_eq!(search_all_count_values(b"/Count"), None);
    assert_eq!(search_all_count_values(b""), None);
    assert_eq!(search_type_pages_pattern(b"/Pages /Count 7"), Some(7));
    assert_eq!(search_pages_with_large_window(b"/Count 7 /Pages"), Some(7));
    assert_eq!(search_count_without_slash(b" Count 7"), Some(7));
    assert_eq!(search_count_without_slash(b"Count 7"), None);
    assert_eq!(count_pages_ultra_fast(b"/Count 7"), Some(7));
    let mut scattered = Vec::new();
    scattered.extend(b"/Count 3 ");
    scattered.extend(vec![b'x'; 5000]);
    scattered.extend(b" /Count 41 ");
    scattered.extend(vec![b'x'; 5000]);
    scattered.extend(b"/Count 12");
    assert_eq!(search_all_count_values(&scattered), Some(41));
}

#[test]
fn windows_reach_both_ways_and_bare_count_needs_no_slash() {
    let backward = b"<< /Count 8 /Kids [ ] /Type /Pages >>";
    assert_eq!(search_type_pages_pattern(backward), Some(8));
    assert_eq!(search_pages_with_large_window(backward), Some(8));
    let gap = |n: usize| {
        let mut doc = b"/Count 8 ".to_vec();
        doc.extend(vec![b'x'; n]);
        doc.extend(b"/Pages");
        doc
    };
    assert_eq!(search_type_pages_pattern(&gap(1991)), Some(8));
    assert_eq!(search_type_pages_pattern(&gap(1992)), None);
    assert_eq!(search_pages_with_large_window(&gap(1992)), Some(8));
    assert_eq!(search_pages_with_large_window(&gap(4991)), Some(8));
    assert_eq!(search_pages_with_large_window(&gap(4992)), None);
    let ahead = |n: usize| {
        let mut doc = b"/Pages".to_vec();
        doc.extend(vec![b'x'; n]);
        doc.extend(b"/Count 8");
        doc
    };
    assert_eq!(search_type_pages_pattern(&ahead(1986)), Some(8));
    assert_eq!(search_type_pages_pattern(&ahead(1987)), None);
    assert_eq!(search_pages_with_large_window(&ahead(4986)), Some(8));
    assert_eq!(search_pages_with_large_window(&ahead(4987)), None);
    let bare = b"<< Count: 6 >> xCount 9";
    assert_eq!(search_all_count_values(bare), None);
    assert_eq!(search_count_without_slash(bare), Some(6));
    assert_eq!(count_pages_ultra_fast(bare), Some(6));
}

#[test]
fn the_full_parse_is_the_last_resort() {
    let found = Some((Strategy::GlobalMaxCount, 4));
    assert_eq!(conclude(found, Some(9)), found);
    assert_eq!(conclude(found, None), found);
    assert_eq!(conclude(None, Some(9)), Some((Strategy::FullParse, 9)));
    assert_eq!(conclude(None, Some(0)), None);
    assert_eq!(conclude(None, None), None);
    assert_eq!(resolve(b"<< /Type /Page >>"), Some((Strategy::FullParse, 1)));
    assert_eq!(resolve(b"nothing"), None);
}

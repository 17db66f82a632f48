use tee_pee_scraper::extract::{extract_id, extract_tab_view_id};
use tee_pee_scraper::text::u32_to_dec;

#[test]
fn id_from_unit_link() {
    assert_eq!(extract_id("/units/123/detail"), Some(123));
    assert_eq!(extract_id("https://host/persons/7/detail#x"), Some(7));
}

#[test]
fn id_takes_the_first_fragment() {
    assert_eq!(extract_id("/units/11/detail/units/22/detail"), Some(11));
}

#[test]
fn id_requires_the_detail_tail() {
    assert_eq!(extract_id("/units/123/overview"), None);
    assert_eq!(extract_id("/units/123"), None);
    assert_eq!(extract_id("no link at all"), None);
}

#[test]
fn id_requires_digits() {
    assert_eq!(extract_id("/units/abc/detail"), None);
    assert_eq!(extract_id("//123/detail"), None);
}

#[test]
fn id_skips_a_fragment_that_does_not_parse() {
    // The first slash run has no digit segment; the later fragment matches.
    assert_eq!(extract_id("/a/b/c/units/9/detail"), Some(9));
}

#[test]
fn id_too_large_for_u32_is_no_id() {
    assert_eq!(extract_id("/units/4294967295/detail"), Some(4294967295));
    assert_eq!(extract_id("/units/4294967296/detail"), None);
}

#[test]
fn tab_view_id_from_dropdown_name() {
    assert_eq!(
        extract_tab_view_id("orgUnitDetailsTabViewId:subUnitsTable_rppDD"),
        Some("subUnitsTable".to_string())
    );
}

#[test]
fn tab_view_id_capture_is_greedy() {
    assert_eq!(
        extract_tab_view_id("orgUnitDetailsTabViewId:a_rppDD_rppDD"),
        Some("a_rppDD".to_string())
    );
}

#[test]
fn tab_view_id_capture_may_be_empty() {
    assert_eq!(
        extract_tab_view_id("xxorgUnitDetailsTabViewId:_rppDD tail"),
        Some(String::new())
    );
}

#[test]
fn tab_view_id_absent() {
    assert_eq!(extract_tab_view_id("orgUnitDetailsTabViewId:noSuffixHere"), None);
    assert_eq!(extract_tab_view_id("somethingElse_rppDD"), None);
}

#[test]
fn decimal_rendering_is_exact() {
    assert_eq!(u32_to_dec(0), "0".to_string());
    assert_eq!(u32_to_dec(42), "42".to_string());
    assert_eq!(u32_to_dec(4294967295), "4294967295".to_string());
}

use tee_pee_scraper::listing::{ListingFlow, ListingKind};
use tee_pee_scraper::unit_scraper::{finish_child_units, my_units_from_page, units_from_items};
use tee_pee_scraper::person_scraper::{finish_persons, persons_from_items};
use tee_pee_scraper::{HttpEvent, HttpRequest, Object, ScrapeError, Unit};

const LISTING_PAGE: &str = "<select class=\"ui-paginator-rpp-options ui-widget ui-state-default ui-corner-left\" \
     name=\"orgUnitDetailsTabViewId:subUnits_rppDD\"><option>25</option></select>";

const TOKEN_PAGE: &str =
    "<input type=\"hidden\" name=\"javax.faces.ViewState\" value=\"vs-9\"/>";

fn unit_row(id: u32, name: &str) -> String {
    format!(
        "<table class=\"Wid100\"><tr><td>\
         <a class=\"ui-link ui-widget\" href=\"/units/{}/detail\">\
         <span class=\"ListItemName\">{}</span></a></td></tr></table>",
        id, name
    )
}

fn walk_to_fragment(unit_id: u32, kind: ListingKind) -> (ListingFlow, Vec<(String, String)>) {
    let (flow, request) = ListingFlow::begin(unit_id, kind);
    match request {
        HttpRequest::Get { url } => match kind {
            ListingKind::ChildUnits => {
                assert_eq!(url, format!("https://skauting.tee-pee.com/units/{}/detail#units", unit_id));
            },
            ListingKind::Persons => {
                assert_eq!(url, format!("https://skauting.tee-pee.com/units/{}/detail#persons", unit_id));
            },
        },
        HttpRequest::PostForm { .. } => panic!("a listing walk starts with a GET"),
    }
    let (flow, request) = flow.on_listing_page(HttpEvent::Body(LISTING_PAGE.to_string())).unwrap();
    assert!(matches!(request, HttpRequest::Get { .. }));
    let (flow, request) = flow.on_view_state_page(HttpEvent::Body(TOKEN_PAGE.to_string())).unwrap();
    match request {
        HttpRequest::PostForm { fields, .. } => (flow, fields),
        HttpRequest::Get { .. } => panic!("the show-all form must be posted"),
    }
}

#[test]
fn show_all_form_carries_the_pagination_overrides() {
    let (_, fields) = walk_to_fragment(5, ListingKind::ChildUnits);
    let widget = "orgUnitDetailsTabViewId:subUnits";
    let expected: Vec<(String, String)> = vec![
        ("javax.faces.partial.ajax".into(), "true".into()),
        ("javax.faces.source".into(), widget.into()),
        ("javax.faces.partial.execute".into(), widget.into()),
        ("javax.faces.partial.render".into(), widget.into()),
        (format!("{}_pagination", widget), "true".into()),
        (format!("{}_first", widget), "0".into()),
        (format!("{}_rows", widget), "1000".into()),
        (format!("{}_rppDD", widget), "1000".into()),
        ("javax.faces.ViewState".into(), "vs-9".into()),
    ];
    assert_eq!(fields, expected);
}

#[test]
fn listing_page_without_paginator_is_tab_view_not_found() {
    let (flow, _) = ListingFlow::begin(5, ListingKind::ChildUnits);
    let err = flow.on_listing_page(HttpEvent::Body("<html></html>".to_string())).unwrap_err();
    assert!(matches!(err, ScrapeError::TabViewNotFound));
}

#[test]
fn three_rows_become_three_children_in_document_order() {
    let fragment = format!("{}{}{}", unit_row(11, "Alfa"), unit_row(22, "Beta"), unit_row(33, "Gama"));
    let (flow, _) = walk_to_fragment(5, ListingKind::ChildUnits);
    let mut parent = Unit::new("Zbor", 5, None, None, None, None);
    finish_child_units(&mut parent, flow, HttpEvent::Body(fragment)).unwrap();
    let children = parent.child_units();
    assert_eq!(children.len(), 3);
    assert_eq!((children[0].id(), children[0].name()), (11, "Alfa"));
    assert_eq!((children[1].id(), children[1].name()), (22, "Beta"));
    assert_eq!((children[2].id(), children[2].name()), (33, "Gama"));
}

#[test]
fn a_row_without_name_aborts_with_missing_name_and_no_children() {
    let bad_row = "<table class=\"Wid100\"><tr><td>\
         <a class=\"ui-link ui-widget\" href=\"/units/22/detail\">no name span</a>\
         </td></tr></table>";
    let fragment = format!("{}{}{}", unit_row(11, "Alfa"), bad_row, unit_row(33, "Gama"));
    let (flow, _) = walk_to_fragment(5, ListingKind::ChildUnits);
    let mut parent = Unit::new("Zbor", 5, None, None, None, None);
    parent.add_child_unit(Unit::new("Stary", 77, None, None, None, None));
    let err = finish_child_units(&mut parent, flow, HttpEvent::Body(fragment)).unwrap_err();
    assert!(matches!(err, ScrapeError::MissingName));
    // Atomic per call: the earlier good rows were not appended either.
    assert_eq!(parent.child_units().len(), 1);
    assert_eq!(parent.child_units()[0].id(), 77);
}

#[test]
fn a_row_without_link_aborts_with_missing_id() {
    let bad_row = "<table class=\"Wid100\"><tr><td>\
         <span class=\"ListItemName\">Bez odkazu</span></td></tr></table>";
    let (flow, _) = walk_to_fragment(5, ListingKind::ChildUnits);
    let mut parent = Unit::new("Zbor", 5, None, None, None, None);
    let err = finish_child_units(&mut parent, flow, HttpEvent::Body(bad_row.to_string())).unwrap_err();
    assert!(matches!(err, ScrapeError::MissingId));
    assert!(parent.child_units().is_empty());
}

#[test]
fn persons_walk_fills_the_person_list() {
    let fragment = "<div class=\"ui-panel-content ui-widget-content\">\
         <a class=\"ui-link ui-widget\" href=\"/persons/8/detail\">\
         <span class=\"ListItemName\">Ema</span></a></div>";
    let (flow, _) = walk_to_fragment(5, ListingKind::Persons);
    let mut unit = Unit::new("Zbor", 5, None, None, None, None);
    finish_persons(&mut unit, flow, HttpEvent::Body(fragment.to_string())).unwrap();
    assert_eq!(unit.persons().len(), 1);
    assert_eq!(unit.persons()[0].name(), "Ema");
    assert_eq!(unit.persons()[0].id(), 8);
}

#[test]
fn my_units_parse_off_the_profile_menu() {
    let page = "<li id=\"j_idt51:layoutMenu_5\"><ul>\
        <li><a href=\"/units/10/detail\">Alfa</a></li>\
        <li><a href=\"/units/20/detail\">Beta</a></li>\
        </ul></li>";
    let units = my_units_from_page(HttpEvent::Body(page.to_string())).unwrap();
    assert_eq!(units.len(), 2);
    assert_eq!((units[0].id(), units[0].name()), (10, "Alfa"));
    assert_eq!((units[1].id(), units[1].name()), (20, "Beta"));
}

#[test]
fn my_units_transport_failure_is_a_network_error() {
    let err = my_units_from_page(HttpEvent::TransportFailed).unwrap_err();
    assert!(matches!(err, ScrapeError::NetworkError));
}

#[test]
fn items_become_objects_in_order() {
    let items = vec![(1u32, "Alfa".to_string()), (2, "Beta".to_string())];
    let units = units_from_items(&items);
    assert_eq!(units.len(), 2);
    assert_eq!((units[0].id(), units[0].name()), (1, "Alfa"));
    assert_eq!((units[1].id(), units[1].name()), (2, "Beta"));
    let persons = persons_from_items(&items);
    assert_eq!(persons.len(), 2);
    assert_eq!((persons[1].id(), persons[1].name()), (2, "Beta"));
}

#[test]
fn an_empty_listing_yields_no_children_and_succeeds() {
    let (flow, _) = walk_to_fragment(5, ListingKind::ChildUnits);
    let mut parent = Unit::new("Zbor", 5, None, None, None, None);
    finish_child_units(&mut parent, flow, HttpEvent::Body("<div>no rows</div>".to_string()))
        .unwrap();
    assert!(parent.child_units().is_empty());
}

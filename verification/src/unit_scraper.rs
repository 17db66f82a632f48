use crate::errors::ScrapeError;
use crate::html::{html_select_rows, rows_of, selector_valid};
use crate::listing::{
    href_id_val, item_matches_row, listing_rows, listing_selectors_valid, parse_rows, row_error,
    row_ok, rows_all_ok, ListingFlow, ListingKind,
};
use crate::object::Object;
use crate::session::{HttpEvent, HttpRequest};
use crate::unit::Unit;
use vstd::prelude::*;

verus! {

/// The modes a unit scraper operates in.
pub enum ScraperMode {
    /// Scrape the signed-in user's own top-level units.
    MyUnits,
    /// Scrape the child units of the given unit.
    ChildUnits(Unit),
}

impl crate::scraper::ScraperMode<Unit> for ScraperMode {

}

/// The unit a listing item builds: identifier and name, nothing else.
pub open spec fn unit_from_item(u: Unit, item: (u32, String)) -> bool {
    u.spec_id() == item.0 && u.spec_name() == item.1@ && u.spec_children().len() == 0
        && u.spec_persons().len() == 0 && u.spec_parent() is None
        && u.spec_supplementary_name() is None && u.spec_type() is None && u.spec_number() is None
}

/// The unit a listing row yields: the identifier of its link and its name.
pub open spec fn unit_matches_row(u: Unit, row: (Option<Seq<char>>, Option<Seq<char>>)) -> bool {
    u.spec_id() as nat == href_id_val(row.0->0) && u.spec_name() == row.1->0
        && u.spec_children().len() == 0 && u.spec_persons().len() == 0 && u.spec_parent() is None
        && u.spec_supplementary_name() is None && u.spec_type() is None && u.spec_number() is None
}

fn unit_from(item: &(u32, String)) -> (u: Unit)
    ensures
        unit_from_item(u, *item),
{
    Unit::new(item.1.as_str(), item.0, None, None, None, None)
}

/// Builds one unit per parsed listing item, in order.
pub fn units_from_items(items: &Vec<(u32, String)>) -> (r: Vec<Unit>)
    ensures
        r@.len() == items@.len(),
        forall|t: int| 0 <= t < items@.len() ==> unit_from_item(#[trigger] r@[t], items@[t]),
{
    let n = items.len();
    let mut units: Vec<Unit> = Vec::new();
    let mut t: usize = 0;
    while t < n
        invariant
            n == items@.len(),
            t <= n,
            units@.len() == t,
            forall|q: int| 0 <= q < t ==> unit_from_item(#[trigger] units@[q], items@[q]),
        decreases n - t,
    {
        let u = unit_from(&items[t]);
        units.push(u);
        t += 1;
    }
    units
}

/// Appends one page of children to the parent, in listing order; everything
/// else about the parent stays as it was.
pub fn append_child_units(parent: &mut Unit, items: &Vec<(u32, String)>)
    ensures
        final(parent).spec_children().len() == old(parent).spec_children().len() + items@.len(),
        forall|q: int|
            0 <= q < old(parent).spec_children().len() ==> final(parent).spec_children()[q] == old(
                parent,
            ).spec_children()[q],
        forall|q: int|
            0 <= q < items@.len() ==> unit_from_item(
                #[trigger] final(parent).spec_children()[old(parent).spec_children().len() + q],
                items@[q],
            ),
        final(parent).only_children_changed(old(parent)),
{
    let n = items.len();
    let mut t: usize = 0;
    while t < n
        invariant
            n == items@.len(),
            t <= n,
            parent.spec_children().len() == old(parent).spec_children().len() + t,
            forall|q: int|
                0 <= q < old(parent).spec_children().len() ==> parent.spec_children()[q] == old(
                    parent,
                ).spec_children()[q],
            forall|q: int|
                0 <= q < t ==> unit_from_item(
                    #[trigger] parent.spec_children()[old(parent).spec_children().len() + q],
                    items@[q],
                ),
            parent.only_children_changed(old(parent)),
        decreases n - t,
    {
        let u = unit_from(&items[t]);
        parent.add_child_unit(u);
        t += 1;
    }
}

/// Finishes a child-unit walk: parses the partial-render fragment and
/// appends all of one page's children to the parent — or, on any failure,
/// appends nothing at all and leaves the parent exactly as it was.
pub fn finish_child_units(parent: &mut Unit, flow: ListingFlow, event: HttpEvent) -> (r: Result<
    (),
    ScrapeError,
>)
    requires
        flow.awaiting_fragment(),
        flow.wf(),
        flow.spec_kind() == ListingKind::ChildUnits,
    ensures
        match r {
            Ok(()) => match event {
                HttpEvent::Body(body) => {
                    let rows = listing_rows(body@, ListingKind::ChildUnits);
                    let pre = old(parent).spec_children();
                    let post = final(parent).spec_children();
                    &&& listing_selectors_valid(ListingKind::ChildUnits)
                    &&& rows_all_ok(rows)
                    &&& post.len() == pre.len() + rows.len()
                    &&& (forall|q: int| 0 <= q < pre.len() ==> post[q] == pre[q])
                    &&& (forall|q: int|
                        0 <= q < rows.len() ==> unit_matches_row(#[trigger] post[pre.len() + q], rows[q]))
                    &&& final(parent).only_children_changed(old(parent))
                },
                HttpEvent::TransportFailed => false,
            },
            Err(e) => *final(parent) == *old(parent) && (match event {
                HttpEvent::TransportFailed => e is NetworkError,
                HttpEvent::Body(body) => {
                    if !listing_selectors_valid(ListingKind::ChildUnits) {
                        e is InvalidSelector
                    } else {
                        let rows = listing_rows(body@, ListingKind::ChildUnits);
                        exists|t: int|
                            0 <= t < rows.len() && !row_ok(#[trigger] rows[t]) && e == row_error(
                                rows[t],
                            )
                    }
                },
            }),
        },
{
    let ghost ev = event;
    let items = match flow.on_fragment(event) {
        Ok(items) => items,
        Err(e) => {
            return Err(e);
        },
    };
    append_child_units(parent, &items);
    proof {
        let rows = listing_rows(ev->Body_0@, ListingKind::ChildUnits);
        assert forall|q: int|
            0 <= q < rows.len() implies unit_matches_row(
            #[trigger] parent.spec_children()[old(parent).spec_children().len() + q],
            rows[q],
        ) by {
            assert(unit_from_item(
                parent.spec_children()[old(parent).spec_children().len() + q],
                items@[q],
            ));
            assert(item_matches_row(items@[q], rows[q]));
        }
    }
    Ok(())
}

// ---------------------------------------------------------------------------
// The signed-in user's own units
// ---------------------------------------------------------------------------
// The profile page renders the user's unit menu complete, so this listing
// needs no pagination defeat: one fetch, one parse.

/// The profile page that lists the signed-in user's own units.
pub open spec fn my_units_url_spec() -> Seq<char> {
    "https://skauting.tee-pee.com/user/profile#data"@
}

/// The selector of one menu entry per unit.
pub open spec fn menu_outer_selector_spec() -> Seq<char> {
    "li#j_idt51\\:layoutMenu_5 ul li"@
}

/// The selector of a menu entry's link, which carries both name and id.
pub open spec fn menu_link_selector_spec() -> Seq<char> {
    "a"@
}

/// Both menu selectors compile.
pub open spec fn menu_selectors_valid() -> bool {
    selector_valid(menu_outer_selector_spec()) && selector_valid(menu_link_selector_spec())
}

/// The rows of the user's own unit menu.
pub open spec fn my_units_rows(body: Seq<char>) -> Seq<(Option<Seq<char>>, Option<Seq<char>>)> {
    rows_of(body, menu_outer_selector_spec(), menu_link_selector_spec(), menu_link_selector_spec())
}

/// Asks for the profile page that lists the signed-in user's own units.
pub fn my_units_begin() -> (r: HttpRequest)
    ensures
        r matches HttpRequest::Get { url } && url@ == my_units_url_spec(),
{
    HttpRequest::Get { url: "https://skauting.tee-pee.com/user/profile#data".to_owned() }
}

/// Parses the signed-in user's own unit listing off the profile page: one
/// unit per menu row, in document order, or the first bad row's error with
/// no units at all.
pub fn my_units_from_page(event: HttpEvent) -> (r: Result<Vec<Unit>, ScrapeError>)
    ensures
        match event {
            HttpEvent::TransportFailed => r is Err && r->Err_0 is NetworkError,
            HttpEvent::Body(body) => {
                if !menu_selectors_valid() {
                    r is Err && r->Err_0 is InvalidSelector
                } else {
                    let rows = my_units_rows(body@);
                    match r {
                        Ok(units) => rows_all_ok(rows) && units@.len() == rows.len() && (forall|
                            t: int,
                        | 0 <= t < rows.len() ==> unit_matches_row(#[trigger] units@[t], rows[t])),
                        Err(e) => exists|t: int|
                            0 <= t < rows.len() && !row_ok(#[trigger] rows[t]) && e == row_error(
                                rows[t],
                            ) && (forall|q: int| 0 <= q < t ==> row_ok(#[trigger] rows[q])),
                    }
                }
            },
        },
{
    match event {
        HttpEvent::TransportFailed => Err(ScrapeError::NetworkError),
        HttpEvent::Body(body) => {
            let raw = match html_select_rows(
                body.as_str(),
                "li#j_idt51\\:layoutMenu_5 ul li",
                "a",
                "a",
            ) {
                Ok(raw) => raw,
                Err(e) => return Err(e),
            };
            let items = match parse_rows(&raw) {
                Ok(items) => items,
                Err(e) => {
                    proof {
                        let rows = my_units_rows(body@);
                        let t = choose|t: int|
                            0 <= t < raw@.len() && !row_ok(#[trigger] raw@[t]@) && e == row_error(
                                raw@[t]@,
                            ) && (forall|q: int| 0 <= q < t ==> row_ok(#[trigger] raw@[q]@));
                        assert(rows[t] == raw@[t]@);
                        assert forall|q: int| 0 <= q < t implies row_ok(#[trigger] rows[q]) by {
                            assert(rows[q] == raw@[q]@);
                        }
                        assert(0 <= t < rows.len() && !row_ok(rows[t]) && e == row_error(rows[t]));
                    }
                    return Err(e);
                },
            };
            let units = units_from_items(&items);
            proof {
                let rows = my_units_rows(body@);
                let mapped = raw@.map_values(|row: crate::html::RowRaw| row@);
                assert forall|t: int| 0 <= t < rows.len() implies row_ok(#[trigger] rows[t])
                    && unit_matches_row(units@[t], rows[t]) by {
                    assert(rows[t] == raw@[t]@);
                    assert(mapped[t] == raw@[t]@);
                    assert(row_ok(mapped[t]));
                    assert(item_matches_row(items@[t], raw@[t]@));
                    assert(unit_from_item(units@[t], items@[t]));
                }
            }
            Ok(units)
        },
    }
}

} // verus!

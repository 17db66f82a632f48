use crate::errors::ScrapeError;
use crate::listing::{
    href_id_val, item_matches_row, listing_rows, listing_selectors_valid, row_error, row_ok,
    rows_all_ok, ListingFlow, ListingKind,
};
use crate::object::Object;
use crate::person::Person;
use crate::session::HttpEvent;
use crate::unit::Unit;
use vstd::prelude::*;

verus! {

/// The modes a person scraper operates in.
pub enum ScraperMode {
    /// Scrape the persons of the given unit.
    FromUnit(Unit),
}

impl crate::scraper::ScraperMode<Person> for ScraperMode {

}

/// The person a listing item builds: identifier and name, nothing else.
pub open spec fn person_from_item(p: Person, item: (u32, String)) -> bool {
    p.spec_id() == item.0 && p.spec_name() == item.1@ && p.spec_gender() is None
        && p.spec_birth_date() is None && p.spec_nickname() is None && p.spec_volunteer() is None
        && p.spec_ztp() is None
}

/// The person a listing row yields: the identifier of its link and its name.
pub open spec fn person_matches_row(p: Person, row: (Option<Seq<char>>, Option<Seq<char>>)) -> bool {
    p.spec_id() as nat == href_id_val(row.0->0) && p.spec_name() == row.1->0 && p.spec_gender() is None
        && p.spec_birth_date() is None && p.spec_nickname() is None && p.spec_volunteer() is None
        && p.spec_ztp() is None
}

fn person_from(item: &(u32, String)) -> (p: Person)
    ensures
        person_from_item(p, *item),
{
    Person::new(item.1.as_str(), item.0, None, None, None, None, None)
}

/// Builds one person per parsed listing item, in order.
pub fn persons_from_items(items: &Vec<(u32, String)>) -> (r: Vec<Person>)
    ensures
        r@.len() == items@.len(),
        forall|t: int| 0 <= t < items@.len() ==> person_from_item(#[trigger] r@[t], items@[t]),
{
    let n = items.len();
    let mut persons: Vec<Person> = Vec::new();
    let mut t: usize = 0;
    while t < n
        invariant
            n == items@.len(),
            t <= n,
            persons@.len() == t,
            forall|q: int| 0 <= q < t ==> person_from_item(#[trigger] persons@[q], items@[q]),
        decreases n - t,
    {
        let p = person_from(&items[t]);
        persons.push(p);
        t += 1;
    }
    persons
}

/// Appends one page of persons to the unit, in listing order; everything
/// else about the unit stays as it was.
pub fn append_persons(unit: &mut Unit, items: &Vec<(u32, String)>)
    ensures
        final(unit).spec_persons().len() == old(unit).spec_persons().len() + items@.len(),
        forall|q: int|
            0 <= q < old(unit).spec_persons().len() ==> final(unit).spec_persons()[q] == old(
                unit,
            ).spec_persons()[q],
        forall|q: int|
            0 <= q < items@.len() ==> person_from_item(
                #[trigger] final(unit).spec_persons()[old(unit).spec_persons().len() + q],
                items@[q],
            ),
        final(unit).only_persons_changed(old(unit)),
{
    let n = items.len();
    let mut t: usize = 0;
    while t < n
        invariant
            n == items@.len(),
            t <= n,
            unit.spec_persons().len() == old(unit).spec_persons().len() + t,
            forall|q: int|
                0 <= q < old(unit).spec_persons().len() ==> unit.spec_persons()[q] == old(
                    unit,
                ).spec_persons()[q],
            forall|q: int|
                0 <= q < t ==> person_from_item(
                    #[trigger] unit.spec_persons()[old(unit).spec_persons().len() + q],
                    items@[q],
                ),
            unit.only_persons_changed(old(unit)),
        decreases n - t,
    {
        let p = person_from(&items[t]);
        unit.add_person(p);
        t += 1;
    }
}

/// Finishes a person walk: parses the partial-render fragment and appends
/// all of one page's persons to the unit — or, on any failure, appends
/// nothing at all and leaves the unit exactly as it was.
pub fn finish_persons(unit: &mut Unit, flow: ListingFlow, event: HttpEvent) -> (r: Result<
    (),
    ScrapeError,
>)
    requires
        flow.awaiting_fragment(),
        flow.wf(),
        flow.spec_kind() == ListingKind::Persons,
    ensures
        match r {
            Ok(()) => match event {
                HttpEvent::Body(body) => {
                    let rows = listing_rows(body@, ListingKind::Persons);
                    let pre = old(unit).spec_persons();
                    let post = final(unit).spec_persons();
                    &&& listing_selectors_valid(ListingKind::Persons)
                    &&& rows_all_ok(rows)
                    &&& post.len() == pre.len() + rows.len()
                    &&& (forall|q: int| 0 <= q < pre.len() ==> post[q] == pre[q])
                    &&& (forall|q: int|
                        0 <= q < rows.len() ==> person_matches_row(
                            #[trigger] post[pre.len() + q],
                            rows[q],
                        ))
                    &&& final(unit).only_persons_changed(old(unit))
                },
                HttpEvent::TransportFailed => false,
            },
            Err(e) => *final(unit) == *old(unit) && (match event {
                HttpEvent::TransportFailed => e is NetworkError,
                HttpEvent::Body(body) => {
                    if !listing_selectors_valid(ListingKind::Persons) {
                        e is InvalidSelector
                    } else {
                        let rows = listing_rows(body@, ListingKind::Persons);
                        exists|t: int|
                            0 <= t < rows.len() && !row_ok(#[trigger] rows[t]) && e == row_error(
                                rows[t],
                            )
                    }
                },
            }),
        },
{
    let ghost ev = event;
    let items = match flow.on_fragment(event) {
        Ok(items) => items,
        Err(e) => {
            return Err(e);
        },
    };
    append_persons(unit, &items);
    proof {
        let rows = listing_rows(ev->Body_0@, ListingKind::Persons);
        assert forall|q: int|
            0 <= q < rows.len() implies person_matches_row(
            #[trigger] unit.spec_persons()[old(unit).spec_persons().len() + q],
            rows[q],
        ) by {
            assert(person_from_item(
                unit.spec_persons()[old(unit).spec_persons().len() + q],
                items@[q],
            ));
            assert(item_matches_row(items@[q], rows[q]));
        }
    }
    Ok(())
}

} // verus!

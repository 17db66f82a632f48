use crate::errors::ScrapeError;
use crate::extract::{
    extract_id, extract_tab_view_id, first_id_match, first_tab_match, id_digits_at, id_match_at,
    tab_capture, tab_match_at,
};
use crate::html::{first_attr_of, html_first_attr, selector_valid, RowRaw};
use crate::session::{extract_view_state, view_state_selector_spec, HttpEvent, HttpRequest};
use crate::text::{dec_val, spec_dec, u32_to_dec};
use vstd::prelude::*;

verus! {

// ---------------------------------------------------------------------------
// Reading one listing row
// ---------------------------------------------------------------------------

/// The row link holds an identifier fragment whose value fits in 32 bits.
pub open spec fn href_has_id(h: Seq<char>) -> bool {
    exists|i: int| #[trigger] first_id_match(h, i) && dec_val(id_digits_at(h, i)) <= u32::MAX
}

/// The identifier carried by the first fragment match of the row link.
pub open spec fn href_id_val(h: Seq<char>) -> nat {
    let i = choose|i: int| first_id_match(h, i);
    dec_val(id_digits_at(h, i))
}

proof fn lemma_first_id_unique(s: Seq<char>, i1: int, i2: int)
    requires
        first_id_match(s, i1),
        first_id_match(s, i2),
    ensures
        i1 == i2,
{
    if i1 < i2 {
        assert(!id_match_at(s, i1));
    }
    if i2 < i1 {
        assert(!id_match_at(s, i2));
    }
}

/// A row parses when its link holds an identifier and it has a name.
pub open spec fn row_ok(row: (Option<Seq<char>>, Option<Seq<char>>)) -> bool {
    row.0 is Some && href_has_id(row.0->0) && row.1 is Some
}

/// The error a bad row aborts with; its identifier is examined first.
pub open spec fn row_error(row: (Option<Seq<char>>, Option<Seq<char>>)) -> ScrapeError {
    if row.0 is None || !href_has_id(row.0->0) {
        ScrapeError::MissingId
    } else {
        ScrapeError::MissingName
    }
}

/// The parsed item carries the row's identifier value and name.
pub open spec fn item_matches_row(
    item: (u32, String),
    row: (Option<Seq<char>>, Option<Seq<char>>),
) -> bool {
    item.0 as nat == href_id_val(row.0->0) && item.1@ == row.1->0
}

/// Every row of the listing parses.
pub open spec fn rows_all_ok(rows: Seq<(Option<Seq<char>>, Option<Seq<char>>)>) -> bool {
    forall|t: int| 0 <= t < rows.len() ==> row_ok(#[trigger] rows[t])
}

/// Extracts the identifier from one row link.
pub fn row_id(href: &Option<String>) -> (r: Result<u32, ScrapeError>)
    ensures
        match r {
            Ok(v) => href.deep_view() is Some && href_has_id(href.deep_view()->0) && v as nat
                == href_id_val(href.deep_view()->0),
            Err(e) => e is MissingId && (href.deep_view() is None || !href_has_id(
                href.deep_view()->0,
            )),
        },
{
    match href {
        None => Err(ScrapeError::MissingId),
        Some(h) => {
            match extract_id(h.as_str()) {
                Some(v) => {
                    proof {
                        let i = choose|i: int|
                            #[trigger] first_id_match(h@, i) && v as nat == dec_val(
                                id_digits_at(h@, i),
                            );
                        assert(href_has_id(h@));
                        let i2 = choose|i2: int| first_id_match(h@, i2);
                        lemma_first_id_unique(h@, i, i2);
                    }
                    Ok(v)
                },
                None => {
                    proof {
                        assert(!href_has_id(h@)) by {
                            if href_has_id(h@) {
                                let i = choose|i: int|
                                    #[trigger] first_id_match(h@, i) && dec_val(
                                        id_digits_at(h@, i),
                                    ) <= u32::MAX;
                                assert(id_match_at(h@, i));
                            }
                        }
                    }
                    Err(ScrapeError::MissingId)
                },
            }
        },
    }
}

/// Parses a whole listing: one `(id, name)` item per row, in document order.
/// A single bad row aborts the whole listing with its own error; no partial
/// item list is ever produced.
pub fn parse_rows(rows: &Vec<RowRaw>) -> (r: Result<Vec<(u32, String)>, ScrapeError>)
    ensures
        match r {
            Ok(items) => rows_all_ok(rows@.map_values(|row: RowRaw| row@)) && items@.len()
                == rows@.len() && (forall|t: int|
                0 <= t < rows@.len() ==> item_matches_row(#[trigger] items@[t], rows@[t]@)),
            Err(e) => exists|t: int|
                0 <= t < rows@.len() && !row_ok(#[trigger] rows@[t]@) && e == row_error(rows@[t]@)
                    && (forall|q: int| 0 <= q < t ==> row_ok(#[trigger] rows@[q]@)),
        },
{
    let n = rows.len();
    let mut items: Vec<(u32, String)> = Vec::new();
    let mut t: usize = 0;
    while t < n
        invariant
            n == rows@.len(),
            t <= n,
            items@.len() == t,
            forall|q: int| 0 <= q < t ==> row_ok(#[trigger] rows@[q]@),
            forall|q: int| 0 <= q < t ==> item_matches_row(#[trigger] items@[q], rows@[q]@),
        decreases n - t,
    {
        let row = &rows[t];
        let id = match row_id(&row.href) {
            Ok(v) => v,
            Err(e) => {
                proof {
                    assert(!row_ok(rows@[t as int]@));
                    assert(e == row_error(rows@[t as int]@));
                }
                return Err(e);
            },
        };
        let name = match &row.name {
            Some(name) => name.clone(),
            None => {
                proof {
                    assert(!row_ok(rows@[t as int]@));
                    assert(row_error(rows@[t as int]@) is MissingName);
                }
                return Err(ScrapeError::MissingName);
            },
        };
        items.push((id, name));
        t += 1;
    }
    proof {
        assert(rows_all_ok(rows@.map_values(|row: RowRaw| row@)));
    }
    Ok(items)
}

// ---------------------------------------------------------------------------
// The listing endpoints and their selectors
// ---------------------------------------------------------------------------

/// Which collection of a unit a listing walk targets.
#[derive(Debug, Clone, Copy)]
pub enum ListingKind {
    /// The unit's child units.
    ChildUnits,
    /// The unit's persons.
    Persons,
}

/// The URL fragment that selects the listing tab.
pub open spec fn fragment_of(kind: ListingKind) -> Seq<char> {
    match kind {
        ListingKind::ChildUnits => "#units"@,
        ListingKind::Persons => "#persons"@,
    }
}

/// The detail page of one unit, opened on the given tab.
pub open spec fn unit_detail_url_spec(id: nat, fragment: Seq<char>) -> Seq<char> {
    "https://skauting.tee-pee.com/units/"@ + spec_dec(id) + "/detail"@ + fragment
}

/// The outer selector that matches one listing row per element.
pub open spec fn outer_selector_of(kind: ListingKind) -> Seq<char> {
    match kind {
        ListingKind::ChildUnits => "table.Wid100"@,
        ListingKind::Persons => "div.ui-panel-content.ui-widget-content"@,
    }
}

/// The selector of a row's display name.
pub open spec fn name_selector_spec() -> Seq<char> {
    "span.ListItemName"@
}

/// The selector of a row's identifier link.
pub open spec fn id_selector_spec() -> Seq<char> {
    "a.ui-link.ui-widget"@
}

/// The selector of the pagination widget's rows-per-page dropdown.
pub open spec fn paginator_selector_spec() -> Seq<char> {
    "select.ui-paginator-rpp-options.ui-widget.ui-state-default.ui-corner-left"@
}

/// All three row selectors of the listing compile.
pub open spec fn listing_selectors_valid(kind: ListingKind) -> bool {
    selector_valid(outer_selector_of(kind)) && selector_valid(name_selector_spec())
        && selector_valid(id_selector_spec())
}

/// The rows the listing fragment renders for this kind of walk.
pub open spec fn listing_rows(body: Seq<char>, kind: ListingKind) -> Seq<
    (Option<Seq<char>>, Option<Seq<char>>),
> {
    crate::html::rows_of(body, outer_selector_of(kind), name_selector_spec(), id_selector_spec())
}

fn listing_url(unit_id: u32, kind: ListingKind) -> (r: String)
    ensures
        r@ == unit_detail_url_spec(unit_id as nat, fragment_of(kind)),
{
    let mut url = "https://skauting.tee-pee.com/units/".to_owned();
    let digits = u32_to_dec(unit_id);
    url.append(digits.as_str());
    url.append("/detail");
    match kind {
        ListingKind::ChildUnits => url.append("#units"),
        ListingKind::Persons => url.append("#persons"),
    }
    proof {
        assert(url@ =~= unit_detail_url_spec(unit_id as nat, fragment_of(kind)));
    }
    url
}

fn outer_selector(kind: ListingKind) -> (r: &'static str)
    ensures
        r@ == outer_selector_of(kind),
{
    match kind {
        ListingKind::ChildUnits => "table.Wid100",
        ListingKind::Persons => "div.ui-panel-content.ui-widget-content",
    }
}

// ---------------------------------------------------------------------------
// The pagination widget
// ---------------------------------------------------------------------------

/// The dropdown's name attribute holds the widget pattern somewhere.
pub open spec fn has_tab(attr: Seq<char>) -> bool {
    exists|i: int| tab_match_at(attr, i)
}

/// The widget identifier captured at the first pattern match.
pub open spec fn tab_value(attr: Seq<char>) -> Seq<char> {
    tab_capture(attr, choose|i: int| first_tab_match(attr, i))
}

/// The fully qualified widget identifier the AJAX fields name.
pub open spec fn widget_id_of(tab: Seq<char>) -> Seq<char> {
    "orgUnitDetailsTabViewId:"@ + tab
}

proof fn lemma_first_tab_unique(s: Seq<char>, i1: int, i2: int)
    requires
        first_tab_match(s, i1),
        first_tab_match(s, i2),
    ensures
        i1 == i2,
{
    if i1 < i2 {
        assert(!tab_match_at(s, i1));
    }
    if i2 < i1 {
        assert(!tab_match_at(s, i2));
    }
}

/// Recovers the fully qualified pagination widget identifier from a listing
/// page: the dropdown's `name` attribute must hold the widget pattern.
pub fn get_tab_view_id(page: &str) -> (r: Result<String, ScrapeError>)
    ensures
        match r {
            Ok(widget) => selector_valid(paginator_selector_spec()) && (match first_attr_of(
                page@,
                paginator_selector_spec(),
                "name"@,
            ) {
                Some(attr) => has_tab(attr) && widget@ == widget_id_of(tab_value(attr)),
                None => false,
            }),
            Err(e) => match e {
                ScrapeError::TabViewNotFound => selector_valid(paginator_selector_spec()) && (
                match first_attr_of(page@, paginator_selector_spec(), "name"@) {
                    Some(attr) => !has_tab(attr),
                    None => true,
                }),
                ScrapeError::InvalidSelector => !selector_valid(paginator_selector_spec()),
                _ => false,
            },
        },
{
    let attr = match html_first_attr(
        page,
        "select.ui-paginator-rpp-options.ui-widget.ui-state-default.ui-corner-left",
        "name",
    ) {
        Ok(Some(attr)) => attr,
        Ok(None) => return Err(ScrapeError::TabViewNotFound),
        Err(e) => return Err(e),
    };
    match extract_tab_view_id(attr.as_str()) {
        Some(tab) => {
            proof {
                let i = choose|i: int|
                    #[trigger] first_tab_match(attr@, i) && tab@ == tab_capture(attr@, i);
                assert(tab_match_at(attr@, i));
                let i2 = choose|i2: int| first_tab_match(attr@, i2);
                lemma_first_tab_unique(attr@, i, i2);
            }
            let mut widget = "orgUnitDetailsTabViewId:".to_owned();
            widget.append(tab.as_str());
            Ok(widget)
        },
        None => {
            proof {
                assert(!has_tab(attr@)) by {
                    if has_tab(attr@) {
                        let i = choose|i: int| tab_match_at(attr@, i);
                    }
                }
            }
            Err(ScrapeError::TabViewNotFound)
        },
    }
}

// ---------------------------------------------------------------------------
// The pagination-defeat form
// ---------------------------------------------------------------------------

/// The exact field list of the show-all-rows partial postback, in order: the
/// AJAX markers naming the widget, the pagination overrides that force every
/// row onto one page, and the ViewState token.
pub open spec fn is_show_all_fields(
    fields: Seq<(String, String)>,
    widget: Seq<char>,
    view_state: Seq<char>,
) -> bool {
    &&& fields.len() == 9
    &&& fields[0].0@ == "javax.faces.partial.ajax"@ && fields[0].1@ == "true"@
    &&& fields[1].0@ == "javax.faces.source"@ && fields[1].1@ == widget
    &&& fields[2].0@ == "javax.faces.partial.execute"@ && fields[2].1@ == widget
    &&& fields[3].0@ == "javax.faces.partial.render"@ && fields[3].1@ == widget
    &&& fields[4].0@ == widget + "_pagination"@ && fields[4].1@ == "true"@
    &&& fields[5].0@ == widget + "_first"@ && fields[5].1@ == "0"@
    &&& fields[6].0@ == widget + "_rows"@ && fields[6].1@ == "1000"@
    &&& fields[7].0@ == widget + "_rppDD"@ && fields[7].1@ == "1000"@
    &&& fields[8].0@ == "javax.faces.ViewState"@ && fields[8].1@ == view_state
}

fn widget_key(widget: &str, suffix: &str) -> (r: String)
    ensures
        r@ == widget@ + suffix@,
{
    let mut key = widget.to_owned();
    key.append(suffix);
    key
}

/// Builds the show-all-rows form for one widget and ViewState token.
pub fn show_all_fields(widget: &str, view_state: &str) -> (r: Vec<(String, String)>)
    ensures
        is_show_all_fields(r@, widget@, view_state@),
{
    let mut fields: Vec<(String, String)> = Vec::new();
    fields.push(("javax.faces.partial.ajax".to_owned(), "true".to_owned()));
    fields.push(("javax.faces.source".to_owned(), widget.to_owned()));
    fields.push(("javax.faces.partial.execute".to_owned(), widget.to_owned()));
    fields.push(("javax.faces.partial.render".to_owned(), widget.to_owned()));
    fields.push((widget_key(widget, "_pagination"), "true".to_owned()));
    fields.push((widget_key(widget, "_first"), "0".to_owned()));
    fields.push((widget_key(widget, "_rows"), "1000".to_owned()));
    fields.push((widget_key(widget, "_rppDD"), "1000".to_owned()));
    fields.push(("javax.faces.ViewState".to_owned(), view_state.to_owned()));
    fields
}

// ---------------------------------------------------------------------------
// The listing protocol
// ---------------------------------------------------------------------------
// Fetch the listing page to learn the pagination widget; fetch the page
// again for a fresh ViewState token; post the show-all form; parse the
// partial-render fragment.  One protocol value walks exactly one listing.

#[derive(Debug)]
enum ListingState {
    AwaitListing,
    AwaitViewState { widget: String },
    AwaitFragment,
}

/// One pagination-defeat walk in progress.  Obtain one with
/// [`ListingFlow::begin`], then feed each response to the matching `on_`
/// step.
#[derive(Debug)]
pub struct ListingFlow {
    kind: ListingKind,
    unit_id: u32,
    url: String,
    state: ListingState,
}

impl ListingFlow {
    pub closed spec fn spec_kind(&self) -> ListingKind {
        self.kind
    }

    pub closed spec fn spec_unit_id(&self) -> u32 {
        self.unit_id
    }

    /// The widget identifier learned from the listing page.
    pub closed spec fn spec_widget(&self) -> Seq<char> {
        match self.state {
            ListingState::AwaitViewState { widget } => widget@,
            _ => Seq::empty(),
        }
    }

    /// The stored URL is the detail page of the walked unit and tab.
    pub closed spec fn wf(&self) -> bool {
        self.url@ == unit_detail_url_spec(self.unit_id as nat, fragment_of(self.kind))
    }

    pub closed spec fn awaiting_listing(&self) -> bool {
        self.state is AwaitListing
    }

    pub closed spec fn awaiting_view_state(&self) -> bool {
        self.state is AwaitViewState
    }

    pub closed spec fn awaiting_fragment(&self) -> bool {
        self.state is AwaitFragment
    }

    /// Starts a walk of one unit's listing: the first request fetches the
    /// listing page itself.
    pub fn begin(unit_id: u32, kind: ListingKind) -> (r: (ListingFlow, HttpRequest))
        ensures
            r.0.wf(),
            r.0.awaiting_listing(),
            r.0.spec_kind() == kind,
            r.0.spec_unit_id() == unit_id,
            r.1 matches HttpRequest::Get { url } && url@ == unit_detail_url_spec(
                unit_id as nat,
                fragment_of(kind),
            ),
    {
        let url = listing_url(unit_id, kind);
        let url_again = listing_url(unit_id, kind);
        (
            ListingFlow { kind, unit_id, url, state: ListingState::AwaitListing },
            HttpRequest::Get { url: url_again },
        )
    }

    /// Consumes the listing page: learns the pagination widget and asks for
    /// the same page again, whose render will carry a fresh ViewState token.
    pub fn on_listing_page(self, event: HttpEvent) -> (r: Result<
        (ListingFlow, HttpRequest),
        ScrapeError,
    >)
        requires
            self.awaiting_listing(),
            self.wf(),
        ensures
            match event {
                HttpEvent::TransportFailed => r is Err && r->Err_0 is NetworkError,
                HttpEvent::Body(body) => {
                    if !selector_valid(paginator_selector_spec()) {
                        r is Err && r->Err_0 is InvalidSelector
                    } else {
                        match first_attr_of(body@, paginator_selector_spec(), "name"@) {
                            Some(attr) => {
                                if has_tab(attr) {
                                    r is Ok && r->Ok_0.0.wf() && r->Ok_0.0.awaiting_view_state()
                                        && r->Ok_0.0.spec_kind() == self.spec_kind()
                                        && r->Ok_0.0.spec_unit_id() == self.spec_unit_id()
                                        && r->Ok_0.0.spec_widget() == widget_id_of(tab_value(attr))
                                        && (r->Ok_0.1 matches HttpRequest::Get { url } && url@
                                        == unit_detail_url_spec(
                                        self.spec_unit_id() as nat,
                                        fragment_of(self.spec_kind()),
                                    ))
                                } else {
                                    r is Err && r->Err_0 is TabViewNotFound
                                }
                            },
                            None => r is Err && r->Err_0 is TabViewNotFound,
                        }
                    }
                },
            },
    {
        match event {
            HttpEvent::TransportFailed => Err(ScrapeError::NetworkError),
            HttpEvent::Body(body) => {
                match get_tab_view_id(body.as_str()) {
                    Ok(widget) => {
                        let next = HttpRequest::Get { url: self.url.clone() };
                        Ok(
                            (
                                ListingFlow {
                                    kind: self.kind,
                                    unit_id: self.unit_id,
                                    url: self.url,
                                    state: ListingState::AwaitViewState { widget },
                                },
                                next,
                            ),
                        )
                    },
                    Err(e) => Err(e),
                }
            },
        }
    }

    /// Consumes the re-fetched listing page: lifts its ViewState token and
    /// asks for the show-all-rows form to be posted.
    pub fn on_view_state_page(self, event: HttpEvent) -> (r: Result<
        (ListingFlow, HttpRequest),
        ScrapeError,
    >)
        requires
            self.awaiting_view_state(),
            self.wf(),
        ensures
            match event {
                HttpEvent::TransportFailed => r is Err && r->Err_0 is NetworkError,
                HttpEvent::Body(body) => {
                    if !selector_valid(view_state_selector_spec()) {
                        r is Err && r->Err_0 is InvalidSelector
                    } else {
                        match first_attr_of(body@, view_state_selector_spec(), "value"@) {
                            Some(token) => r is Ok && r->Ok_0.0.wf()
                                && r->Ok_0.0.awaiting_fragment() && r->Ok_0.0.spec_kind()
                                == self.spec_kind() && r->Ok_0.0.spec_unit_id()
                                == self.spec_unit_id() && (r->Ok_0.1 matches
                                HttpRequest::PostForm { url, fields } && url@
                                == unit_detail_url_spec(
                                self.spec_unit_id() as nat,
                                fragment_of(self.spec_kind()),
                            ) && is_show_all_fields(fields@, self.spec_widget(), token)),
                            None => r is Err && r->Err_0 is MissingTokenError,
                        }
                    }
                },
            },
    {
        match event {
            HttpEvent::TransportFailed => Err(ScrapeError::NetworkError),
            HttpEvent::Body(body) => {
                match self.state {
                    ListingState::AwaitViewState { widget } => {
                        match extract_view_state(body.as_str()) {
                            Ok(token) => {
                                let fields = show_all_fields(widget.as_str(), token.as_str());
                                let next = HttpRequest::PostForm { url: self.url.clone(), fields };
                                Ok(
                                    (
                                        ListingFlow {
                                            kind: self.kind,
                                            unit_id: self.unit_id,
                                            url: self.url,
                                            state: ListingState::AwaitFragment,
                                        },
                                        next,
                                    ),
                                )
                            },
                            Err(e) => Err(e),
                        }
                    },
                    _ => vstd::pervasive::unreached(),
                }
            },
        }
    }

    /// Consumes the partial-render fragment: parses every row or reports the
    /// first bad one.  No partial item list is ever produced.
    pub fn on_fragment(self, event: HttpEvent) -> (r: Result<Vec<(u32, String)>, ScrapeError>)
        requires
            self.awaiting_fragment(),
            self.wf(),
        ensures
            match event {
                HttpEvent::TransportFailed => r is Err && r->Err_0 is NetworkError,
                HttpEvent::Body(body) => {
                    if !listing_selectors_valid(self.spec_kind()) {
                        r is Err && r->Err_0 is InvalidSelector
                    } else {
                        let rows = listing_rows(body@, self.spec_kind());
                        match r {
                            Ok(items) => rows_all_ok(rows) && items@.len() == rows.len() && (
                            forall|t: int|
                                0 <= t < rows.len() ==> item_matches_row(
                                    #[trigger] items@[t],
                                    rows[t],
                                )),
                            Err(e) => exists|t: int|
                                0 <= t < rows.len() && !row_ok(#[trigger] rows[t]) && e
                                    == row_error(rows[t]) && (forall|q: int|
                                    0 <= q < t ==> row_ok(#[trigger] rows[q])),
                        }
                    }
                },
            },
    {
        match event {
            HttpEvent::TransportFailed => Err(ScrapeError::NetworkError),
            HttpEvent::Body(body) => {
                let outer = outer_selector(self.kind);
                let raw = match crate::html::html_select_rows(
                    body.as_str(),
                    outer,
                    "span.ListItemName",
                    "a.ui-link.ui-widget",
                ) {
                    Ok(raw) => raw,
                    Err(e) => return Err(e),
                };
                let items = match parse_rows(&raw) {
                    Ok(items) => items,
                    Err(e) => {
                        proof {
                            let rows = listing_rows(body@, self.spec_kind());
                            let t = choose|t: int|
                                0 <= t < raw@.len() && !row_ok(#[trigger] raw@[t]@) && e
                                    == row_error(raw@[t]@) && (forall|q: int|
                                    0 <= q < t ==> row_ok(#[trigger] raw@[q]@));
                            assert(rows[t] == raw@[t]@);
                            assert forall|q: int| 0 <= q < t implies row_ok(
                                #[trigger] rows[q],
                            ) by {
                                assert(rows[q] == raw@[q]@);
                            }
                            assert(0 <= t < rows.len() && !row_ok(rows[t]) && e == row_error(
                                rows[t],
                            ) && (forall|q: int| 0 <= q < t ==> row_ok(#[trigger] rows[q])));
                        }
                        return Err(e);
                    },
                };
                proof {
                    let rows = listing_rows(body@, self.spec_kind());
                    let mapped = raw@.map_values(|row: RowRaw| row@);
                    assert forall|t: int| 0 <= t < rows.len() implies row_ok(#[trigger] rows[t])
                        && item_matches_row(items@[t], rows[t]) by {
                        assert(rows[t] == raw@[t]@);
                        assert(mapped[t] == raw@[t]@);
                        assert(row_ok(mapped[t]));
                        assert(item_matches_row(items@[t], raw@[t]@));
                    }
                }
                Ok(items)
            },
        }
    }
}

} // verus!

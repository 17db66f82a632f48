use crate::errors::ScrapeError;
use vstd::prelude::*;

verus! {

// ---------------------------------------------------------------------------
// What the HTML layer is trusted to do
// ---------------------------------------------------------------------------
// CSS selection over parsed HTML is delegated to the `scraper` crate.  Its
// results are pure functions of the document text and the selector strings,
// so they are given names here; everything after these calls is verified.

/// Whether `Selector::parse` accepts the selector string.
pub uninterp spec fn selector_valid(selector: Seq<char>) -> bool;

/// The value of attribute `attr` on the first element of the parsed document
/// matching the selector, if both exist.
pub uninterp spec fn first_attr_of(html: Seq<char>, selector: Seq<char>, attr: Seq<char>) -> Option<
    Seq<char>,
>;

/// The rows of the parsed document: for each element matching the outer
/// selector, in document order, the `href` of its first descendant matching
/// the id selector and the first text node of its first descendant matching
/// the name selector.
pub uninterp spec fn rows_of(
    html: Seq<char>,
    outer: Seq<char>,
    name_selector: Seq<char>,
    id_selector: Seq<char>,
) -> Seq<(Option<Seq<char>>, Option<Seq<char>>)>;

/// One listing row as the HTML layer hands it over.
pub struct RowRaw {
    /// The link target of the row's first identifier element.
    pub href: Option<String>,
    /// The first text node of the row's first name element.
    pub name: Option<String>,
}

impl View for RowRaw {
    type V = (Option<Seq<char>>, Option<Seq<char>>);

    open spec fn view(&self) -> Self::V {
        (self.href.deep_view(), self.name.deep_view())
    }
}

/// Relies on scraper's `Selector::parse`, `Html::parse_document` and element
/// selection: returns the value of `attr` on the first element matching
/// `selector`, or the parse failure of the selector itself.
#[verifier::external_body]
pub(crate) fn html_first_attr(html: &str, selector: &str, attr: &str) -> (r: Result<
    Option<String>,
    ScrapeError,
>)
    ensures
        match r {
            Ok(found) => selector_valid(selector@) && found.deep_view() == first_attr_of(
                html@,
                selector@,
                attr@,
            ),
            Err(e) => !selector_valid(selector@) && e is InvalidSelector,
        },
{
    let compiled = match scraper::Selector::parse(selector) {
        Ok(sel) => sel,
        Err(_) => return Err(ScrapeError::InvalidSelector),
    };
    let document = scraper::Html::parse_document(html);
    Ok(document.select(&compiled).next().and_then(|el| el.attr(attr)).map(str::to_owned))
}

/// Relies on scraper's `Selector::parse`, `Html::parse_document` and element
/// selection: returns one [`RowRaw`] per element matching `outer`, in
/// document order, or the parse failure of a selector.
#[verifier::external_body]
pub(crate) fn html_select_rows(
    html: &str,
    outer: &str,
    name_selector: &str,
    id_selector: &str,
) -> (r: Result<Vec<RowRaw>, ScrapeError>)
    ensures
        match r {
            Ok(rows) => selector_valid(outer@) && selector_valid(name_selector@) && selector_valid(
                id_selector@,
            ) && rows@.len() == rows_of(html@, outer@, name_selector@, id_selector@).len() && (
            forall|t: int|
                0 <= t < rows@.len() ==> (#[trigger] rows@[t])@ == rows_of(
                    html@,
                    outer@,
                    name_selector@,
                    id_selector@,
                )[t]),
            Err(e) => !(selector_valid(outer@) && selector_valid(name_selector@) && selector_valid(
                id_selector@,
            )) && e is InvalidSelector,
        },
{
    let parsed = (
        scraper::Selector::parse(outer),
        scraper::Selector::parse(name_selector),
        scraper::Selector::parse(id_selector),
    );
    let (Ok(outer_sel), Ok(name_sel), Ok(id_sel)) = parsed else {
        return Err(ScrapeError::InvalidSelector);
    };
    let document = scraper::Html::parse_document(html);
    Ok(document.select(&outer_sel).map(|element| RowRaw {
        href: element.select(&id_sel).next().and_then(|e| e.attr("href")).map(str::to_owned),
        name: element.select(&name_sel).next().and_then(|e| e.text().next()).map(str::to_owned),
    }).collect())
}

} // verus!

use crate::errors::ScrapeError;
use vstd::prelude::*;

verus! {

/// A mode a scraper can operate in when producing objects of type `T`.
pub trait ScraperMode<T> {

}

/// A scraper that produces objects of type `T` under mode `M`.
///
/// Implementations live with the caller, which owns the HTTP session and
/// drives the library's protocol flows one request at a time.
pub trait Scraper<T, M: ScraperMode<T>> {
    /// Scrapes one batch of objects as the mode directs.
    fn scrape(&mut self, mode: M) -> Result<Vec<T>, ScrapeError>;
}

} // verus!

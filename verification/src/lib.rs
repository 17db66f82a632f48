//! A verified client library for the tee-pee organisational portal.
//!
//! The library models the login handshake, the interactive credential
//! validation state machine, the pagination-defeat scraping protocol and the
//! Unit/Person data model, with contracts checked by Verus.  The library
//! never touches the network itself: every protocol step hands the caller
//! one [`HttpRequest`], and the caller feeds the response back as an
//! [`HttpEvent`] over its own cookie-bearing session.

pub mod credentials;
pub mod errors;
pub mod extract;
pub mod html;
pub mod listing;
pub mod login_form;
pub mod object;
pub mod person;
pub mod person_scraper;
pub mod scraper;
pub mod session;
pub mod text;
pub mod unit;
pub mod unit_scraper;
pub mod validator;

pub use credentials::Credentials;
pub use credentials::PasswordLookup;
pub use errors::ScrapeError;
pub use login_form::LoginForm;
pub use object::Object;
pub use object::ObjectBuilder;
pub use person::Gender;
pub use person::Person;
pub use person::PersonBuilder;
pub use scraper::Scraper;
pub use session::HttpEvent;
pub use session::HttpRequest;
pub use session::LoginFlow;
pub use unit::Type;
pub use unit::Unit;
pub use unit::UnitBuilder;
pub use unit_scraper::ScraperMode::ChildUnits;
pub use unit_scraper::ScraperMode::MyUnits;
pub use person_scraper::ScraperMode::FromUnit;
pub use validator::PasswordValidator;

//! Extraction of a company's management board and reporting hierarchy from
//! the markup of a directory site.
//!
//! A run searches the site for a company, takes the first company that the
//! results page lists, and reads that company's board page. This library
//! holds all of a run but the fetching of pages:
//!
//! - [`search`] lists the companies of a results page, and passes over the
//!   entries that it cannot read;
//! - [`reading`] and [`board`] extract the board of a board page: the
//!   members of the board, and below them the managers with their direct
//!   reports. The extraction is strict: markup that lacks what a person
//!   needs gives no board at all;
//! - [`pipeline`] takes the decisions between the two;
//! - [`guarantees`] states what holds of every page.
//!
//! The extractors take markup of up to [`markup::TEXT_LIMIT`] characters,
//! which is what the parser takes; [`markup::fits_limit`] tells whether a
//! page is that short.
//!
//! Parsing markup, matching selectors and matching patterns are the work
//! of the crates `scraper` and `regex`. [`markup`] and [`pattern`] name
//! what those crates return, and all that this library proves, it proves
//! of the named results.

pub mod board;
pub mod error;
pub mod field;
pub mod guarantees;
pub mod layout;
pub mod markup;
pub mod model;
pub mod pattern;
pub mod pipeline;
pub mod reading;
pub mod search;
pub mod text;

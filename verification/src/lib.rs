//! The engine of a terminal news browser.
//!
//! The crate tracks which article of a list is selected, which rows are
//! visible through a viewport of fixed height, and how that window moves
//! while the user browses the list, filters it, or reads one article. It also
//! reads the pages of the site for their articles, lays an article out as
//! display lines, and decides what every key does. Fetching pages and drawing
//! on the terminal are left to the program around it.

pub mod args;
pub mod document;
pub mod filter;
pub mod input;
pub mod prompt;
pub mod scrape;
pub mod state;
pub mod util;
pub mod viewport;

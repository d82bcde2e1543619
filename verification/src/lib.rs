//! A content catalog kept in memory: items of several kinds, their categories
//! and tags with denormalised counters, paginated listings, search, visit
//! statistics, priced service options and orders.
//!
//! Every operation is a function from the catalog's state and plain request
//! values to a result, with its behaviour stated as a contract. What holds
//! across operations is stated and proved as laws: that pages read in turn
//! are the whole listing (`paging`, `listing`), that the counters of
//! categories and tags stay equal to the number of published items linked to
//! them (`ledger`, `conservation`), that a view is counted once (`stat`), and
//! that the kinds of items do not see each other (`listing`, `search`,
//! `conservation`).

// Values and texts.
pub mod errors;
pub mod text;
pub mod kinds;
pub mod moments;
pub mod forms;
pub mod requests;

// The state.
pub mod models;
pub mod catalog;
pub mod ranking;

// Listings.
pub mod paging;
pub mod listing;
pub mod shapes;
pub mod search;
pub mod getters;
pub mod detail;

// Counters and prices.
pub mod counter;
pub mod ledger;
pub mod discount;
pub mod pricing;

// Operations.
pub mod items;
pub mod conservation;
pub mod manage;
pub mod serve;
pub mod orders;
pub mod stat;
pub mod auth;
pub mod chat;

// Pages.
pub mod pages;
pub mod serve_pages;
pub mod tag_pages;
pub mod search_pages;
pub mod order_pages;

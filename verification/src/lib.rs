//! Verified core logic of the Remux admin dashboard: text handling, labels,
//! filter-rule editing, URL building and the small decision procedures that
//! the dashboard pages run on user input and server data.

pub mod activity;
pub mod appearance;
pub mod addons;
pub mod calendar;
pub mod catalogs;
pub mod chips;
pub mod collections;
pub mod devices;
pub mod filters;
pub mod ids;
pub mod iptv;
pub mod locale;
pub mod num;
pub mod paging;
pub mod reorder;
pub mod routes;
pub mod session;
pub mod settings;
pub mod size;
pub mod streams;
pub mod suggestions;
pub mod task_list;
pub mod tasks;
pub mod text;
pub mod url;
pub mod users;

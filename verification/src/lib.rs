//! Client library for the YggTorrent tracker: search options and the search
//! URLs they give, reading of the tracker's pages (torrents, their files, the
//! user's ratio), session cookies, and the decisions of a session (which URL
//! to fetch, when a search is cached, how result pages continue, what a
//! magnet link holds).  Network requests are left to the caller.
pub mod category_order;
pub mod clock;
pub mod data_struct;
pub mod html;
pub mod percent;
pub mod selector;
pub mod text;
pub(crate) mod tracker_list;
pub mod yggtorrent_client;
pub mod yggtorrent_params;

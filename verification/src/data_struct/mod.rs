pub mod yggtorrent_cookie;
pub mod yggtorrent_ratio;
pub mod yggtorrent_result;

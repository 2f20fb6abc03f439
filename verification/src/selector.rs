//! The CSS selectors and attributes that locate data in the tracker's pages.
use vstd::prelude::*;

verus! {

/// Links to the torrent pages in a page of search results (attribute `href`).
pub const LINK_TORRENT_PAGE_SELECTOR: &'static str = "#torrent_name";

/// The attribute of a link that holds its target.
pub const HREF_ATTRIBUTE: &'static str = "href";

/// The torrent's name on its page.
pub const NAME_SELECTOR: &'static str = "#title > h1";

/// The torrent's keywords on its page.
pub const KEYWORD_SELECTOR: &'static str = "a.term";

/// The number of seeders on a torrent page.
pub const SEEDERS_SELECTOR: &'static str = "#adv_search_cat > td:nth-child(2) > strong";

/// The number of leechers on a torrent page.
pub const LEECHERS_SELECTOR: &'static str = "#adv_search_cat > td:nth-child(4) > strong";

/// The number of completed downloads on a torrent page.
pub const COMPLETED_SELECTOR: &'static str = "#adv_search_cat > td:nth-child(6) > strong";

/// The torrent's size on its page.
pub const SIZE_SELECTOR: &'static str =
    "#informationsContainer > div > table > tbody > tr:nth-child(4) > td:nth-child(2)";

/// The torrent's info hash on its page.
pub const HASH_SELECTOR: &'static str =
    "#informationsContainer > div > table > tbody > tr:nth-child(5) > td:nth-child(2)";

/// The torrent's uploader on its page (absent for anonymous uploads).
pub const UPLOADER_SELECTOR: &'static str =
    "#informationsContainer > div > table > tbody > tr:nth-child(6) > td:nth-child(2) > a";

/// The torrent's upload date on its page.
pub const UPLOADED_SELECTOR: &'static str =
    "#informationsContainer > div > table > tbody > tr:nth-child(7) > td:nth-child(2)";

/// The torrent's download link on its page (attribute `href`).
pub const DOWNLOAD_LINK_SELECTOR: &'static str =
    "#informationsContainer > div > table > tbody > tr:nth-child(2) > td:nth-child(2) > a";

/// The rows of the table of files of a torrent.
pub const FILE_ROW_SELECTOR: &'static str = "table > tbody > tr";

/// The size of a file, in its row.
pub const SIZE_FILE_SELECTOR: &'static str = "td:nth-child(1)";

/// The name of a file, in its row.
pub const NAME_FILE_SELECTOR: &'static str = "td:nth-child(2)";

/// The uploaded amount on the home page of a logged-in user.
pub const UPLOADED_RATIO_SELECTOR: &'static str =
    "#top_panel > div.ct > ul > li:nth-child(1) > strong:nth-child(1)";

/// The downloaded amount on the home page of a logged-in user.
pub const DOWNLOADED_RATIO_SELECTOR: &'static str =
    "#top_panel > div.ct > ul > li:nth-child(1) > strong:nth-child(2)";

/// The ratio on the home page of a logged-in user.
pub const RATIO_SELECTOR: &'static str = "#top_panel > div.ct > ul > li:nth-child(2) > a > strong";

} // verus!

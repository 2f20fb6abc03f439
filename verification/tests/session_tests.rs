use yggtorrent::data_struct::yggtorrent_cookie::YggCookie;
use yggtorrent::data_struct::yggtorrent_ratio::YggRatioText;
use yggtorrent::data_struct::yggtorrent_result::{YggResult, YggResultFile};
use yggtorrent::yggtorrent_client::{
    cookie_action, scan_listing_page, CookieAction, ListingStep, YggClient,
};
use yggtorrent::yggtorrent_params::{YggCategory, YggParams};

const COOKIE_HEADER: &str = "ygg_=abc123; expires=Sat, 01-Jan-2050 00:00:00 GMT; path=/";
const EXPIRY: i64 = 2524608000;

#[test]
fn cookie_parses_header() {
    let mut cookie = YggCookie::new();
    assert!(cookie.parse(COOKIE_HEADER));
    assert!(cookie.is_valid_at(EXPIRY - 31));
    assert!(!cookie.is_valid_at(EXPIRY - 30));
    assert_eq!(cookie.get_cookie_at(0), Ok("ygg_=abc123"));
    assert_eq!(cookie.get_cookie_at(EXPIRY), Err("Le cookie n'est plus valid."));
    assert_eq!(cookie.get_cookie(), Ok("ygg_=abc123"));
    assert!(cookie.check_validity());
}

#[test]
fn cookie_with_capital_expires() {
    let mut cookie = YggCookie::new();
    assert!(cookie.parse("a=b; Path=/; Expires= Sat, 01-Jan-2050 00:00:00 GMT; HttpOnly"));
    assert_eq!(cookie.get_cookie_at(EXPIRY - 100), Ok("a=b"));
}

#[test]
fn expired_cookie_is_refused() {
    let mut cookie = YggCookie::new();
    assert!(cookie.parse("old=1; expires=Sat, 01-Jan-2000 00:00:00 GMT"));
    assert_eq!(cookie.get_cookie(), Err("Le cookie n'est plus valid."));
    assert!(!cookie.check_validity());
}

#[test]
fn cookie_without_expiry_is_not_read() {
    let mut cookie = YggCookie::new();
    assert!(!cookie.parse("a=b; path=/"));
    assert_eq!(cookie.get_cookie_at(i64::MIN), Ok("a=b"));
    let mut other = YggCookie::new();
    assert!(!other.parse("a=b; expires=tomorrow"));
}

#[test]
fn new_cookie_is_none() {
    let cookie = YggCookie::new();
    assert_eq!(cookie.get_cookie_at(i64::MIN), Ok("none"));
}

#[test]
fn login_messages() {
    let mut client = YggClient::new("tommot67".to_string(), "secret".to_string());
    assert_eq!(YggClient::login_url(), "https://www.ygg.re/auth/process_login");
    assert_eq!(
        client.login_form(),
        vec![("id".to_string(), "tommot67".to_string()), ("pass".to_string(), "secret".to_string())]
    );
    assert_eq!(YggClient::login_status_error(200, "200 OK"), None);
    assert_eq!(
        YggClient::login_status_error(403, "403 Forbidden"),
        Some("Status code is 403 Forbidden".to_string())
    );
    assert_eq!(client.accept_login_cookie(None), Some(Err("Not cookie found !".to_string())));
    assert_eq!(client.accept_login_cookie(Some("x=y; path=/")), None);
    assert_eq!(client.create_cookies_at(0), Ok(String::new()));
    assert_eq!(
        client.accept_login_cookie(Some(COOKIE_HEADER)),
        Some(Ok("User tommot67 login".to_string()))
    );
    assert_eq!(client.create_cookies_at(0), Ok("ygg_=abc123; ".to_string()));
    assert_eq!(client.create_cookies_at(EXPIRY), Err("Invalid cookie"));
    assert_eq!(client.create_cookies(), Ok("ygg_=abc123; ".to_string()));
}

#[test]
fn changed_credentials_are_posted() {
    let mut client = YggClient::new("a".to_string(), "b".to_string());
    client.change_username("c".to_string());
    client.change_password("d".to_string());
    assert_eq!(
        client.login_form(),
        vec![("id".to_string(), "c".to_string()), ("pass".to_string(), "d".to_string())]
    );
}

#[test]
fn search_urls() {
    assert_eq!(
        YggClient::search_url("HPI", None),
        "https://www.ygg.re/engine/search?name=HPI&do=search&category=all&sub_category=all"
    );
    let mut options = YggParams::default();
    options.category = YggCategory::GPS;
    assert_eq!(
        YggClient::search_url("map", Some(options)),
        "https://www.ygg.re/engine/search?name=map&do=search&category=2143&sub_category=all"
    );
    assert_eq!(YggClient::files_url(123), "https://www.ygg.re/engine/get_files?torrent=123");
}

#[test]
fn repeated_search_is_cached() {
    let mut client = YggClient::new("u".to_string(), "p".to_string());
    assert_eq!(client.get_last_url(), "");
    assert!(client.begin_search("https://www.ygg.re/engine/search?name=a"));
    client.add_result(YggResult::default());
    assert_eq!(client.get_last_result().len(), 1);
    assert!(!client.begin_search("https://www.ygg.re/engine/search?name=a"));
    assert_eq!(client.get_last_result().len(), 1);
    assert!(client.begin_search("https://www.ygg.re/engine/search?name=b"));
    assert_eq!(client.get_last_result().len(), 0);
    assert_eq!(client.get_last_url(), "https://www.ygg.re/engine/search?name=b");
}

const TORRENT_PAGE: &str = r#"<html><body>
<div id="title"><h1>  My Torrent é  </h1></div>
<a class="term">kw1</a><a class="term">kw2</a>
<table><tr id="adv_search_cat"><td>x</td><td><strong>1 234</strong></td><td>x</td><td><strong>5</strong></td><td>x</td><td><strong>678</strong></td></tr></table>
<div id="informationsContainer"><div><table><tbody>
<tr><td>a</td><td>b</td></tr>
<tr><td>Download</td><td><a href="https://www.ygg.re/engine/download_torrent?id=42">dl</a></td></tr>
<tr><td>x</td><td>y</td></tr>
<tr><td>Size</td><td>1.5 Go</td></tr>
<tr><td>Hash</td><td>abcdef</td></tr>
<tr><td>Uploader</td><td><a>alice</a></td></tr>
<tr><td>Date</td><td> 05/06/2023 14:30 </td></tr>
</tbody></table></div></div>
</body></html>"#;

#[test]
fn torrent_page_is_scraped() {
    let result = YggResult::scrape(TORRENT_PAGE).unwrap();
    assert_eq!(*result.id(), 42);
    assert_eq!(result.name(), "My Torrent é");
    assert_eq!(result.keywords(), &vec!["kw1".to_string(), "kw2".to_string()]);
    assert_eq!(*result.seeders(), 1234);
    assert_eq!(*result.leechers(), 5);
    assert_eq!(*result.completed(), 678);
    assert_eq!(result.size(), "1.5 Go");
    assert_eq!(result.info_hash(), "abcdef");
    assert_eq!(result.uploader(), "alice");
    assert_eq!(*result.uploaded(), 1685975400);
    assert_eq!(result.download_link(), "https://www.ygg.re/engine/download_torrent?id=42");
    assert_eq!(result.nfo_link(), "https://www3.yggtorrent.cool/engine/get_nfo?torrent=42");
    assert_eq!(result.files().len(), 0);
}

#[test]
fn anonymous_uploader_and_unreadable_date() {
    let page = TORRENT_PAGE
        .replace("<a>alice</a>", "nobody")
        .replace(" 05/06/2023 14:30 ", "yesterday");
    let result = YggResult::scrape(&page).unwrap();
    assert_eq!(result.uploader(), "Pirate Anonyme");
    assert_eq!(*result.uploaded(), 0);
}

#[test]
fn incomplete_torrent_page_is_refused() {
    let no_link = TORRENT_PAGE.replace(
        r#"<a href="https://www.ygg.re/engine/download_torrent?id=42">dl</a>"#,
        "dl",
    );
    assert!(YggResult::scrape(&no_link).is_none());
    let bad_count = TORRENT_PAGE.replace("<strong>5</strong>", "<strong>five</strong>");
    assert!(YggResult::scrape(&bad_count).is_none());
    let bad_id = TORRENT_PAGE.replace("?id=42", "?id=x42");
    assert!(YggResult::scrape(&bad_id).is_none());
    assert!(YggResult::scrape("<html></html>").is_none());
}

#[test]
fn magnet_link_of_scraped_torrent() {
    let result = YggResult::scrape(TORRENT_PAGE).unwrap();
    assert_eq!(
        YggClient::create_magnet_link(result),
        "magnet:?xt=urn:btih:abcdef&dn=My%20Torrent%20%C3%A9\
&tr=udp%3A%2F%2Ftracker.openbittorrent.com%3A80\
&tr=udp%3A%2F%2Fopentor.org%3A2710\
&tr=udp%3A%2F%2Ftracker.ccc.de%3A80\
&tr=udp%3A%2F%2Ftracker.blackunicorn.xyz%3A6969\
&tr=udp%3A%2F%2Ftracker.coppersurfer.tk%3A6969\
&tr=udp%3A%2F%2Ftracker.leechers-paradise.org%3A6969"
    );
}

#[test]
fn files_table_is_scraped() {
    let html = "\\u003Ctable\\u003E\\u003Ctbody\\u003E\r\n\t<tr><td> 1.2 Go </td><td> file.mkv </td></tr>\n<tr><td>3 Mo</td><td>b.nfo</td></tr></tbody></table>";
    let files = YggResultFile::scrape_files(html).unwrap();
    assert_eq!(files.len(), 2);
    assert_eq!(files[0].size(), "1.2 Go");
    assert_eq!(files[0].filename(), "file.mkv");
    assert_eq!(files[1].size(), "3 Mo");
    assert_eq!(files[1].filename(), "b.nfo");
    let mut result = YggResult::scrape(TORRENT_PAGE).unwrap();
    result.set_files(files);
    assert_eq!(result.files().len(), 2);
    let copy = result.clone();
    assert_eq!(copy.files()[1].filename(), "b.nfo");
    assert_eq!(copy.name(), "My Torrent é");
}

#[test]
fn files_row_without_name_is_refused() {
    let html = "<table><tbody><tr><td>1 Go</td></tr></tbody></table>";
    assert!(YggResultFile::scrape_files(html).is_none());
    let empty = YggResultFile::scrape_files("<p>none</p>").unwrap();
    assert!(empty.is_empty());
}

#[test]
fn ratio_is_scraped() {
    let html = r#"<div id="top_panel"><div class="ct"><ul>
<li><strong> 12.5Go
</strong><strong>3Go</strong></li>
<li><a><strong>Ratio : 4.166 </strong></a></li>
</ul></div></div>"#;
    let ratio = YggRatioText::scrape(html).unwrap();
    assert_eq!(ratio.uploaded, "12.5Go");
    assert_eq!(ratio.downloaded, "3Go");
    assert_eq!(ratio.ratio, "4.166");
    let no_colon = html.replace("Ratio : 4.166", "4.166");
    assert!(YggRatioText::scrape(&no_colon).is_none());
}

#[test]
fn listing_pages() {
    let html = r#"<a id="torrent_name" href="https://t/1">a</a><a id="torrent_name" href="https://t/2">b</a>"#;
    match scan_listing_page("https://s?q=x", 0, html) {
        Some(ListingStep::Continue { links, next_url, next_page }) => {
            assert_eq!(links, vec!["https://t/1".to_string(), "https://t/2".to_string()]);
            assert_eq!(next_url, "https://s?q=x&page=50");
            assert_eq!(next_page, 1);
        },
        other => panic!("unexpected step {:?}", other),
    }
    match scan_listing_page("https://s?q=x", 3, html) {
        Some(ListingStep::Continue { next_url, next_page, .. }) => {
            assert_eq!(next_url, "https://s?q=x&page=200");
            assert_eq!(next_page, 4);
        },
        other => panic!("unexpected step {:?}", other),
    }
    assert!(matches!(scan_listing_page("https://s", 0, "<p></p>"), Some(ListingStep::Done)));
    let no_target = r#"<a id="torrent_name">a</a>"#;
    assert!(scan_listing_page("https://s", 0, no_target).is_none());
}

#[test]
fn downloads() {
    let refused = "Vous devez vous connecter pour télécharger un torrent".as_bytes();
    assert_eq!(
        YggClient::check_download(refused),
        Err("Please login for download torrent or use magnet".to_string())
    );
    assert_eq!(YggClient::check_download(b"d8:announce"), Ok(()));
    assert_eq!(YggClient::download_directory("dir/sub/file.torrent"), "dir/sub/");
    assert_eq!(YggClient::download_directory("a/a"), "/");
    assert_eq!(YggClient::download_directory("dir/"), "dir/");
    assert_eq!(YggClient::download_directory("file.torrent"), "");
}

#[test]
fn encoded_names_are_url_safe() {
    let page = TORRENT_PAGE.replace("My Torrent é", "Ça & co: 100% [x] 👍");
    let result = YggResult::scrape(&page).unwrap();
    let link = YggClient::create_magnet_link(result);
    let name = link
        .split("&dn=")
        .nth(1)
        .unwrap()
        .split("&tr=")
        .next()
        .unwrap()
        .to_string();
    assert!(name.chars().all(|c| c.is_ascii_alphanumeric() || c == '%'));
    assert_eq!(name, "%C3%87a%20%26%20co%3A%20100%25%20%5Bx%5D%20%F0%9F%91%8D");
}

#[test]
fn cookie_validity_holds_earlier() {
    let mut cookie = YggCookie::new();
    assert!(cookie.parse(COOKIE_HEADER));
    for now in [EXPIRY - 31, EXPIRY - 1000, 0, -5] {
        assert!(cookie.is_valid_at(now));
    }
}

#[test]
fn torrent_text() {
    let mut result = YggResult::scrape(TORRENT_PAGE).unwrap();
    let files = YggResultFile::scrape_files(
        "<table><tbody><tr><td>1 Go</td><td>a.mkv</td></tr></tbody></table>",
    )
    .unwrap();
    assert_eq!(files[0].display_text(), "\t\tsize: 1 Go\t|\tname: a.mkv\n");
    result.set_files(files);
    assert_eq!(
        result.display_text(),
        "ID: 42\nName: My Torrent é\nKeywords: [\"kw1\", \"kw2\"]\nSeeders: 1234\nLeechers: 5\n\
Completed: 678\nSize: 1.5 Go\nInfo Hash: abcdef\nUploader: alice\nUploaded: 2023-06-05 14:30:00\n\
Download Link: https://www.ygg.re/engine/download_torrent?id=42\n\
NFO Link: https://www3.yggtorrent.cool/engine/get_nfo?torrent=42\nFile in torrent:\n\
\t\tsize: 1 Go\t|\tname: a.mkv\n"
    );
}

#[test]
fn keyword_text_is_escaped() {
    let page = TORRENT_PAGE.replace("<a class=\"term\">kw2</a>", "<a class=\"term\">say \"hi\"</a>");
    let result = YggResult::scrape(&page).unwrap();
    let text = result.display_text();
    assert!(text.contains("Keywords: [\"kw1\", \"say \\\"hi\\\"\"]\n"));
    let default_text = YggResult::default().display_text();
    assert!(default_text.contains("Keywords: []\nSeeders: 0\n"));
    assert!(default_text.contains("Uploaded: 1970-01-01 00:00:00\n"));
}

#[test]
fn cookie_actions() {
    assert_eq!(cookie_action(Ok("a=b; ".to_string()), false), CookieAction::Send("a=b; ".to_string()));
    assert_eq!(cookie_action(Ok("a=b; ".to_string()), true), CookieAction::Send("a=b; ".to_string()));
    assert_eq!(cookie_action(Err("Invalid cookie"), false), CookieAction::LoginThenRetry);
    assert_eq!(cookie_action(Err("Invalid cookie"), true), CookieAction::Fail);
}

#[test]
fn session_clone_keeps_state() {
    let mut client = YggClient::new("u".to_string(), "p".to_string());
    client.accept_login_cookie(Some(COOKIE_HEADER));
    client.begin_search("https://x");
    client.add_result(YggResult::scrape(TORRENT_PAGE).unwrap());
    let copy = client.clone();
    assert_eq!(copy.get_last_url(), "https://x");
    assert_eq!(copy.get_last_result()[0].name(), "My Torrent é");
    assert_eq!(copy.create_cookies_at(0), Ok("ygg_=abc123; ".to_string()));
    assert_eq!(copy.login_form(), client.login_form());
}

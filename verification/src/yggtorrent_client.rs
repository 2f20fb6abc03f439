//! The state of a tracker session and the decisions that it takes: the URLs
//! to fetch, the cookies to send, when a search must be run again, how a
//! page of search results continues, and what a magnet link holds.  The
//! network requests themselves are made by the caller.
use vstd::prelude::*;

use crate::clock::now_seconds;
use crate::data_struct::yggtorrent_cookie::{
    cookie_value_spec, expiry_spec, YggCookie, YggCookieView,
};
use crate::data_struct::yggtorrent_result::{
    all_present, present_texts, results_view, YggResult, YggResultView,
};
use crate::html::{document_attributes, select_attributes};
use crate::percent::{percent_encode_non_alphanumeric, percent_encode_spec};
use crate::selector::{HREF_ATTRIBUTE, LINK_TORRENT_PAGE_SELECTOR};
use crate::text::{append_chars, chars_of, decimal_spec, replace_all, replace_spec, split_on,
    split_spec, string_of, write_decimal, lemma_split_nonempty,
};
use crate::tracker_list::{trackers, trackers_spec};
use crate::yggtorrent_params::YggParams;

verus! {

/// The address of the tracker.
pub const WEBSITE_BASE_URL: &'static str = "https://www.ygg.re/";

/// The user agent that every request presents.
pub const USER_AGENT: &'static str =
    "Mozilla/5.0 (X11; Linux x86_64) AppleWebKit/537.36 (KHTML, like Gecko) Chrome/125.0.0.0 Safari/537.36";

/// Appends the characters of `s` to `out`.
fn append_str(out: &mut Vec<char>, s: &str)
    ensures
        final(out)@ == old(out)@ + s@,
{
    let v = chars_of(s);
    append_chars(out, v.as_slice());
}

/// The view of a session.
pub struct YggClientView {
    pub username: Seq<char>,
    pub password: Seq<char>,
    pub cookies: Seq<YggCookieView>,
    pub last_url: Seq<char>,
    pub result: Seq<YggResultView>,
}

/// The views of a list of cookies.
pub open spec fn cookies_view(cookies: Seq<YggCookie>) -> Seq<YggCookieView> {
    cookies.map_values(|c: YggCookie| c@)
}

/// The `Cookie` header of a list of cookies: each cookie followed by `; `.
pub open spec fn cookie_header_spec(cookies: Seq<YggCookieView>) -> Seq<char>
    decreases cookies.len(),
{
    if cookies.len() == 0 {
        Seq::<char>::empty()
    } else {
        cookie_header_spec(cookies.drop_last()) + cookies.last().data + "; "@
    }
}

/// Every cookie is valid at time `now`.
pub open spec fn all_valid_at(cookies: Seq<YggCookieView>, now: int) -> bool {
    forall|i: int| 0 <= i < cookies.len() ==> #[trigger] cookies[i].valid_at(now)
}

/// The text of a refused set of cookies.
pub open spec fn invalid_cookie_message() -> Seq<char> {
    "Invalid cookie"@
}

/// The parameters of the tracker's search page for `name` with `options`.
pub open spec fn search_url_spec(name: Seq<char>, options: YggParams) -> Seq<char> {
    "https://www.ygg.re/engine/search?name="@ + name + "&do=search"@ + options.options_url_spec()
}

/// The default search options.
pub open spec fn default_params() -> YggParams {
    YggParams {
        category: crate::yggtorrent_params::YggCategory::All,
        subcategory: crate::yggtorrent_params::YggSubCategory::All,
        uploader: None,
        order: None,
        other: None,
    }
}

/// The URL of the table of files of torrent `id`.
pub open spec fn files_url_spec(id: u64) -> Seq<char> {
    "https://www.ygg.re/engine/get_files?torrent="@ + decimal_spec(id as nat)
}

/// The tracker parameters of a magnet link, one per tracker.
pub open spec fn tracker_params_spec(trackers: Seq<Seq<char>>) -> Seq<char>
    decreases trackers.len(),
{
    if trackers.len() == 0 {
        Seq::<char>::empty()
    } else {
        tracker_params_spec(trackers.drop_last()) + "&tr="@ + trackers.last()
    }
}

/// The magnet link of a torrent: its info hash, its name percent-encoded,
/// then every tracker.
pub open spec fn magnet_link_spec(info_hash: Seq<char>, name: Seq<char>) -> Seq<char> {
    "magnet:?xt=urn:btih:"@ + info_hash + "&dn="@ + percent_encode_spec(name) + tracker_params_spec(
        trackers_spec(),
    )
}

/// What the tracker sends instead of a torrent file to a visitor who is not
/// logged in, as UTF-8 bytes.
pub open spec fn login_required_bytes() -> Seq<u8> {
    seq![
        86u8, 111, 117, 115, 32, 100, 101, 118, 101, 122, 32, 118, 111, 117, 115, 32, 99, 111,
        110, 110, 101, 99, 116, 101, 114, 32, 112, 111, 117, 114, 32, 116, 195, 169, 108, 195, 169,
        99, 104, 97, 114, 103, 101, 114, 32, 117, 110, 32, 116, 111, 114, 114, 101, 110, 116,
    ]
}

/// The message of a refused download.
pub open spec fn download_refused_message() -> Seq<char> {
    "Please login for download torrent or use magnet"@
}

/// The directory of a path: the path with every occurrence of its last
/// `/`-separated component removed.
pub open spec fn download_directory_spec(path: Seq<char>) -> Seq<char> {
    replace_spec(path, split_spec(path, '/').last(), Seq::<char>::empty())
}

/// Starting the search at `url`: whether its results must be fetched, and
/// the session afterwards.  They must be fetched only where `url` differs
/// from the last search's; then `url` becomes the last search and the results
/// are cleared.  Otherwise the session is unchanged.
pub open spec fn begin_search_spec(session: YggClientView, url: Seq<char>) -> (bool, YggClientView) {
    if session.last_url != url {
        (true, YggClientView { last_url: url, result: Seq::<YggResultView>::empty(), ..session })
    } else {
        (false, session)
    }
}

/// Searching twice in a row for the same URL fetches the results once: the
/// second search keeps the session, and the results, as the first left them.
pub proof fn lemma_repeated_search_is_cached(session: YggClientView, url: Seq<char>)
    ensures
        begin_search_spec(begin_search_spec(session, url).1, url) == (
            false,
            begin_search_spec(session, url).1,
        ),
{
}

/// A search for a new URL always fetches, and starts with no results.
pub proof fn lemma_new_search_starts_empty(session: YggClientView, url: Seq<char>)
    requires
        session.last_url != url,
    ensures
        begin_search_spec(session, url).0,
        begin_search_spec(session, url).1.result.len() == 0,
        begin_search_spec(session, url).1.last_url == url,
{
}

/// Cookies that are all valid at some time were all valid at every earlier
/// time: a `Cookie` header that can be built now could have been built
/// before.
pub proof fn lemma_cookie_header_available_earlier(
    cookies: Seq<YggCookieView>,
    earlier: int,
    later: int,
)
    requires
        earlier <= later,
        all_valid_at(cookies, later),
    ensures
        all_valid_at(cookies, earlier),
{
    assert forall|i: int| 0 <= i < cookies.len() implies #[trigger] cookies[i].valid_at(earlier) by {
        assert(cookies[i].valid_at(later));
    }
}

/// What to do to get the `Cookie` header of a request.
#[derive(Debug, PartialEq, Eq)]
pub enum CookieAction {
    /// Send this header.
    Send(String),
    /// Log in again, then build the header once more.
    LoginThenRetry,
    /// No valid header could be built, even after logging in again.
    Fail,
}

/// What to do with the outcome `attempt` of building the `Cookie` header;
/// `retried` tells whether a login was already made for this request.
pub open spec fn cookie_action_spec(attempt: Result<Seq<char>, Seq<char>>, retried: bool) -> CookieActionView {
    match attempt {
        Ok(header) => CookieActionView::Send(header),
        Err(_) => if retried {
            CookieActionView::Fail
        } else {
            CookieActionView::LoginThenRetry
        },
    }
}

/// The view of a cookie action.
pub enum CookieActionView {
    Send(Seq<char>),
    LoginThenRetry,
    Fail,
}

impl View for CookieAction {
    type V = CookieActionView;

    open spec fn view(&self) -> CookieActionView {
        match self {
            CookieAction::Send(header) => CookieActionView::Send(header@),
            CookieAction::LoginThenRetry => CookieActionView::LoginThenRetry,
            CookieAction::Fail => CookieActionView::Fail,
        }
    }
}

/// What to do with the outcome of building the `Cookie` header: send a
/// header that could be built; otherwise log in again once, and give up
/// where that was already done.
pub fn cookie_action(attempt: Result<String, &str>, retried: bool) -> (res: CookieAction)
    ensures
        res@ == cookie_action_spec(
            match attempt {
                Ok(header) => Ok(header@),
                Err(message) => Err(message@),
            },
            retried,
        ),
{
    match attempt {
        Ok(header) => CookieAction::Send(header),
        Err(_) => if retried {
            CookieAction::Fail
        } else {
            CookieAction::LoginThenRetry
        },
    }
}

/// What a page of search results leads to.
#[derive(Debug)]
pub enum ListingStep {
    /// The page lists no torrent: the search is complete.
    Done,
    /// The page lists torrents: their pages, then the next page to fetch.
    Continue { links: Vec<String>, next_url: String, next_page: u64 },
}

/// The view of what a page of search results leads to.
pub enum ListingStepView {
    Done,
    Continue { links: Seq<Seq<char>>, next_url: Seq<char>, next_page: u64 },
}

impl View for ListingStep {
    type V = ListingStepView;

    open spec fn view(&self) -> ListingStepView {
        match self {
            ListingStep::Done => ListingStepView::Done,
            ListingStep::Continue { links, next_url, next_page } => ListingStepView::Continue {
                links: links.deep_view(),
                next_url: next_url@,
                next_page: *next_page,
            },
        }
    }
}

/// What page `page` (counting from 0) of the search results at `base_url`
/// leads to, given the links to torrent pages that it holds: none means the
/// search is complete; otherwise the links, and page `page + 1`, which begins
/// at result `(page + 1) * 50`.  `None` where a link has no target.
pub open spec fn listing_step_spec(base_url: Seq<char>, page: u64, found: Seq<Option<Seq<char>>>) -> Option<ListingStepView> {
    if found.len() == 0 {
        Some(ListingStepView::Done)
    } else if all_present(found) {
        Some(
            ListingStepView::Continue {
                links: present_texts(found),
                next_url: base_url + "&page="@ + decimal_spec(((page + 1) * 50) as nat),
                next_page: (page + 1) as u64,
            },
        )
    } else {
        None
    }
}

/// What a page of search results leads to, from the links that it holds.
pub fn listing_step(base_url: &str, page: u64, found: &Vec<Option<String>>) -> (res: Option<
    ListingStep,
>)
    requires
        (page + 1) * 50 <= u64::MAX,
    ensures
        match res {
            Some(step) => listing_step_spec(base_url@, page, found.deep_view()) == Some(step@),
            None => listing_step_spec(base_url@, page, found.deep_view()) is None,
        },
{
    if found.len() == 0 {
        return Some(ListingStep::Done);
    }
    let mut links: Vec<String> = Vec::new();
    let mut i: usize = 0;
    while i < found.len()
        invariant
            i <= found@.len(),
            all_present(found.deep_view().take(i as int)),
            links.deep_view() == present_texts(found.deep_view().take(i as int)),
        decreases found@.len() - i,
    {
        assert(found.deep_view()[i as int] == found[i as int].deep_view());
        match &found[i] {
            Some(link) => {
                let ghost before = links.deep_view();
                let copy = link.clone();
                links.push(copy);
                assert(links.deep_view() =~= before.push(link@));
                assert(found.deep_view().take(i + 1) =~= found.deep_view().take(i as int).push(
                    found.deep_view()[i as int],
                ));
                assert(present_texts(found.deep_view().take(i + 1)) =~= present_texts(
                    found.deep_view().take(i as int),
                ).push(link@));
            },
            None => {
                assert(!all_present(found.deep_view()));
                return None;
            },
        }
        i = i + 1;
    }
    assert(found.deep_view().take(found@.len() as int) =~= found.deep_view());
    let next_page = page + 1;
    let mut next = chars_of(base_url);
    append_str(&mut next, "&page=");
    write_decimal(next_page * 50, &mut next);
    Some(ListingStep::Continue { links, next_url: string_of(next.as_slice()), next_page })
}

/// What page `page` of the search results at `base_url`, whose HTML is
/// `html`, leads to.  `None` where a link has no target or the selector is
/// refused.
pub fn scan_listing_page(base_url: &str, page: u64, html: &str) -> (res: Option<ListingStep>)
    requires
        (page + 1) * 50 <= u64::MAX,
    ensures
        match document_attributes(html@, LINK_TORRENT_PAGE_SELECTOR@, HREF_ATTRIBUTE@) {
            Some(found) => match res {
                Some(step) => listing_step_spec(base_url@, page, found) == Some(step@),
                None => listing_step_spec(base_url@, page, found) is None,
            },
            None => res is None,
        },
{
    match select_attributes(html, LINK_TORRENT_PAGE_SELECTOR, HREF_ATTRIBUTE) {
        Some(found) => listing_step(base_url, page, &found),
        None => None,
    }
}

/// A session with the tracker: the user's credentials, the cookies that
/// logins gave, and the last search with its results.
#[derive(Debug)]
pub struct YggClient {
    username: String,
    password: String,
    cookies: Vec<YggCookie>,
    last_url: String,
    result: Vec<YggResult>,
}

impl View for YggClient {
    type V = YggClientView;

    closed spec fn view(&self) -> YggClientView {
        YggClientView {
            username: self.username@,
            password: self.password@,
            cookies: cookies_view(self.cookies@),
            last_url: self.last_url@,
            result: results_view(self.result@),
        }
    }
}

impl Clone for YggClient {
    fn clone(&self) -> (res: Self)
        ensures
            res@ == self@,
    {
        let mut cookies: Vec<YggCookie> = Vec::new();
        let mut i: usize = 0;
        while i < self.cookies.len()
            invariant
                i <= self.cookies@.len(),
                cookies_view(cookies@) == cookies_view(self.cookies@).take(i as int),
            decreases self.cookies@.len() - i,
        {
            let ghost before = cookies@;
            let copy = self.cookies[i].clone();
            let ghost copied = copy@;
            cookies.push(copy);
            assert(cookies_view(cookies@) =~= cookies_view(before).push(copied));
            assert(cookies_view(self.cookies@).take(i + 1) =~= cookies_view(self.cookies@).take(
                i as int,
            ).push(cookies_view(self.cookies@)[i as int]));
            i = i + 1;
        }
        assert(cookies_view(self.cookies@).take(self.cookies@.len() as int) =~= cookies_view(
            self.cookies@,
        ));
        YggClient {
            username: self.username.clone(),
            password: self.password.clone(),
            cookies,
            last_url: self.last_url.clone(),
            result: self.get_last_result(),
        }
    }
}

impl YggClient {
    /// A session for the user `username` with the password `password`, not
    /// logged in yet, with no search.
    pub fn new(username: String, password: String) -> (res: YggClient)
        ensures
            res@.username == username@,
            res@.password == password@,
            res@.cookies == Seq::<YggCookieView>::empty(),
            res@.last_url == Seq::<char>::empty(),
            res@.result == Seq::<YggResultView>::empty(),
    {
        let cookies: Vec<YggCookie> = Vec::new();
        let result: Vec<YggResult> = Vec::new();
        assert(cookies_view(cookies@) =~= Seq::<YggCookieView>::empty());
        assert(results_view(result@) =~= Seq::<YggResultView>::empty());
        YggClient { username, password, cookies, last_url: String::new(), result }
    }

    /// Changes the user name; the caller logs in again.
    pub fn change_username(&mut self, username: String)
        ensures
            final(self)@ == (YggClientView { username: username@, ..old(self)@ }),
    {
        self.username = username;
    }

    /// Changes the password; the caller logs in again.
    pub fn change_password(&mut self, password: String)
        ensures
            final(self)@ == (YggClientView { password: password@, ..old(self)@ }),
    {
        self.password = password;
    }

    /// The URL to which a login is posted.
    pub fn login_url() -> (res: String)
        ensures
            res@ == "https://www.ygg.re/auth/process_login"@,
    {
        let mut v = chars_of(WEBSITE_BASE_URL);
        append_str(&mut v, "auth/process_login");
        proof {
            reveal_strlit("https://www.ygg.re/");
            reveal_strlit("auth/process_login");
            reveal_strlit("https://www.ygg.re/auth/process_login");
        }
        string_of(v.as_slice())
    }

    /// The form of a login: `id` is the user name, `pass` the password.
    pub fn login_form(&self) -> (res: Vec<(String, String)>)
        ensures
            res.deep_view() == seq![
                ("id"@, self@.username),
                ("pass"@, self@.password),
            ],
    {
        let mut form: Vec<(String, String)> = Vec::new();
        form.push(("id".to_owned(), self.username.clone()));
        form.push(("pass".to_owned(), self.password.clone()));
        assert(form.deep_view() =~= seq![("id"@, self@.username), ("pass"@, self@.password)]);
        form
    }

    /// The error of a login answered with HTTP status `status`, whose
    /// standard text is `status_text`: none for status 200, otherwise
    /// `Status code is ` followed by that text.
    pub fn login_status_error(status: u16, status_text: &str) -> (res: Option<String>)
        ensures
            status == 200 ==> res is None,
            status != 200 ==> (res matches Some(message) && message@ == "Status code is "@
                + status_text@),
    {
        if status == 200 {
            None
        } else {
            let mut v = chars_of("Status code is ");
            append_str(&mut v, status_text);
            Some(string_of(v.as_slice()))
        }
    }

    /// Takes in the `Set-Cookie` header of a successful login.  Without a
    /// header: the error `Not cookie found !`.  With a header whose expiry
    /// date can be read: the cookie is kept and the message is
    /// `User <name> login`.  `None`, with the session unchanged, where the
    /// header's expiry date cannot be read.
    pub fn accept_login_cookie(&mut self, header: Option<&str>) -> (res: Option<
        Result<String, String>,
    >)
        ensures
            match header {
                None => final(self)@ == old(self)@ && (res matches Some(Err(message)) && message@
                    == "Not cookie found !"@),
                Some(h) => match expiry_spec(h@) {
                    Some(date) => {
                        &&& final(self)@ == (YggClientView {
                            cookies: old(self)@.cookies.push(
                                YggCookieView { data: cookie_value_spec(h@), date_expire: date },
                            ),
                            ..old(self)@
                        })
                        &&& (res matches Some(Ok(message)) && message@ == "User "@
                            + old(self)@.username + " login"@)
                    },
                    None => final(self)@ == old(self)@ && res is None,
                },
            },
    {
        match header {
            None => {
                let message = "Not cookie found !".to_owned();
                Some(Err(message))
            },
            Some(h) => {
                let mut cookie = YggCookie::new();
                if cookie.parse(h) {
                    let ghost before = self.cookies@;
                    let ghost added = cookie@;
                    self.cookies.push(cookie);
                    assert(cookies_view(self.cookies@) =~= cookies_view(before).push(added));
                    let mut v = chars_of("User ");
                    append_str(&mut v, self.username.as_str());
                    append_str(&mut v, " login");
                    Some(Ok(string_of(v.as_slice())))
                } else {
                    None
                }
            },
        }
    }

    /// The `Cookie` header of the session at time `now`: every cookie
    /// followed by `; `, or the error `Invalid cookie` where a cookie is no
    /// longer valid.
    pub fn create_cookies_at(&self, now: i64) -> (res: Result<String, &'static str>)
        ensures
            match res {
                Ok(header) => all_valid_at(self@.cookies, now as int) && header@
                    == cookie_header_spec(self@.cookies),
                Err(message) => !all_valid_at(self@.cookies, now as int) && message@
                    == invalid_cookie_message(),
            },
    {
        let ghost cookies = self@.cookies;
        let mut v: Vec<char> = Vec::new();
        let mut i: usize = 0;
        assert(cookies_view(self.cookies@) == cookies);
        while i < self.cookies.len()
            invariant
                i <= self.cookies@.len(),
                cookies == cookies_view(self.cookies@),
                all_valid_at(cookies.take(i as int), now as int),
                v@ == cookie_header_spec(cookies.take(i as int)),
            decreases self.cookies@.len() - i,
        {
            assert(cookies[i as int] == self.cookies[i as int]@);
            match self.cookies[i].get_cookie_at(now) {
                Ok(data) => {
                    append_str(&mut v, data);
                    append_str(&mut v, "; ");
                    assert(cookies.take(i + 1).drop_last() =~= cookies.take(i as int));
                    assert(cookies.take(i + 1).last() == cookies[i as int]);
                },
                Err(_) => {
                    assert(!cookies[i as int].valid_at(now as int));
                    let message = "Invalid cookie";
                    proof {
                        reveal_strlit("Invalid cookie");
                    }
                    return Err(message);
                },
            }
            i = i + 1;
        }
        assert(cookies.take(cookies.len() as int) =~= cookies);
        Ok(string_of(v.as_slice()))
    }

    /// The `Cookie` header of the session now.
    pub fn create_cookies(&self) -> (res: Result<String, &'static str>)
        ensures
            exists|now: i64|
                match res {
                    Ok(header) => #[trigger] all_valid_at(self@.cookies, now as int) && header@
                        == cookie_header_spec(self@.cookies),
                    Err(message) => !all_valid_at(self@.cookies, now as int) && message@
                        == invalid_cookie_message(),
                },
    {
        let now = now_seconds();
        self.create_cookies_at(now)
    }

    /// The URL of a search for `name` with `options` (the default options
    /// where none are given).
    pub fn search_url(name: &str, options: Option<YggParams>) -> (res: String)
        ensures
            res@ == search_url_spec(
                name@,
                match options {
                    Some(o) => o,
                    None => default_params(),
                },
            ),
    {
        let mut v = chars_of(WEBSITE_BASE_URL);
        append_str(&mut v, "engine/search?name=");
        append_str(&mut v, name);
        append_str(&mut v, "&do=search");
        let options = match options {
            Some(o) => o,
            None => YggParams::default(),
        };
        let url = options.concat_to_url(string_of(v.as_slice()).as_str());
        proof {
            reveal_strlit("https://www.ygg.re/");
            reveal_strlit("engine/search?name=");
            reveal_strlit("https://www.ygg.re/engine/search?name=");
        }
        assert(url@ == "https://www.ygg.re/engine/search?name="@ + name@ + "&do=search"@
            + options.options_url_spec());
        url
    }

    /// Starts the search at `url`.  Returns whether its results must be
    /// fetched: only where `url` differs from the last search's, in which
    /// case `url` becomes the last search and the results are cleared.
    /// Otherwise the session is unchanged and keeps its results.
    pub fn begin_search(&mut self, url: &str) -> (fetch: bool)
        ensures
            (fetch, final(self)@) == begin_search_spec(old(self)@, url@),
    {
        let last = chars_of(self.last_url.as_str());
        let wanted = chars_of(url);
        let mut same = last.len() == wanted.len();
        let mut i: usize = 0;
        while same && i < last.len()
            invariant
                i <= last@.len(),
                same ==> last@.len() == wanted@.len(),
                same ==> last@.take(i as int) == wanted@.take(i as int),
                !same ==> last@ != wanted@,
            decreases last@.len() - i,
        {
            if last[i] != wanted[i] {
                assert(last@[i as int] != wanted@[i as int]);
                same = false;
            } else {
                assert(last@.take(i + 1) =~= last@.take(i as int).push(last@[i as int]));
                assert(wanted@.take(i + 1) =~= wanted@.take(i as int).push(wanted@[i as int]));
            }
            i = i + 1;
        }
        if same {
            assert(last@ =~= last@.take(last@.len() as int));
            assert(wanted@ =~= wanted@.take(wanted@.len() as int));
            false
        } else {
            self.last_url = url.to_owned();
            self.result = Vec::new();
            assert(results_view(self.result@) =~= Seq::<YggResultView>::empty());
            true
        }
    }

    /// Adds a result to the last search.
    pub fn add_result(&mut self, result: YggResult)
        ensures
            final(self)@ == (YggClientView {
                result: old(self)@.result.push(result@),
                ..old(self)@
            }),
    {
        let ghost before = self.result@;
        let ghost added = result@;
        self.result.push(result);
        assert(results_view(self.result@) =~= results_view(before).push(added));
    }

    /// The URL of the last search.
    pub fn get_last_url(&self) -> (res: String)
        ensures
            res@ == self@.last_url,
    {
        self.last_url.clone()
    }

    /// The results of the last search.
    pub fn get_last_result(&self) -> (res: Vec<YggResult>)
        ensures
            results_view(res@) == self@.result,
    {
        let mut out: Vec<YggResult> = Vec::new();
        let mut i: usize = 0;
        while i < self.result.len()
            invariant
                i <= self.result@.len(),
                results_view(out@) == results_view(self.result@).take(i as int),
            decreases self.result@.len() - i,
        {
            let ghost before = out@;
            let copy = self.result[i].clone();
            let ghost copied = copy@;
            out.push(copy);
            assert(results_view(out@) =~= results_view(before).push(copied));
            assert(results_view(self.result@).take(i + 1) =~= results_view(self.result@).take(
                i as int,
            ).push(results_view(self.result@)[i as int]));
            i = i + 1;
        }
        assert(results_view(self.result@).take(self.result@.len() as int) =~= results_view(
            self.result@,
        ));
        out
    }

    /// The URL of the table of files of torrent `id`.
    pub fn files_url(id: u64) -> (res: String)
        ensures
            res@ == files_url_spec(id),
    {
        let mut v = chars_of(WEBSITE_BASE_URL);
        append_str(&mut v, "engine/get_files?torrent=");
        write_decimal(id, &mut v);
        proof {
            reveal_strlit("https://www.ygg.re/");
            reveal_strlit("engine/get_files?torrent=");
            reveal_strlit("https://www.ygg.re/engine/get_files?torrent=");
        }
        assert(v@ == "https://www.ygg.re/engine/get_files?torrent="@ + decimal_spec(id as nat));
        string_of(v.as_slice())
    }

    /// The magnet link of a torrent.
    pub fn create_magnet_link(torrent: YggResult) -> (res: String)
        ensures
            res@ == magnet_link_spec(torrent@.info_hash, torrent@.name),
    {
        let mut v = chars_of("magnet:?xt=urn:btih:");
        append_str(&mut v, torrent.info_hash().as_str());
        append_str(&mut v, "&dn=");
        let encoded = percent_encode_non_alphanumeric(torrent.name().as_str());
        append_str(&mut v, encoded.as_str());
        let list = trackers();
        let ghost head = v@;
        let mut i: usize = 0;
        while i < list.len()
            invariant
                i <= list@.len(),
                list.deep_view() == trackers_spec(),
                v@ == head + tracker_params_spec(trackers_spec().take(i as int)),
            decreases list@.len() - i,
        {
            append_str(&mut v, "&tr=");
            append_str(&mut v, list[i].as_str());
            assert(list.deep_view()[i as int] == list[i as int]@);
            assert(trackers_spec().take(i + 1).drop_last() =~= trackers_spec().take(i as int));
            i = i + 1;
        }
        assert(trackers_spec().take(list@.len() as int) =~= trackers_spec());
        string_of(v.as_slice())
    }

    /// Checks a downloaded torrent file: the error `Please login for download
    /// torrent or use magnet` where the tracker sent its "log in first"
    /// message instead.
    pub fn check_download(body: &[u8]) -> (res: Result<(), String>)
        ensures
            match res {
                Ok(()) => body@ != login_required_bytes(),
                Err(message) => body@ == login_required_bytes() && message@
                    == download_refused_message(),
            },
    {
        let expected: Vec<u8> = vec![
            86u8, 111, 117, 115, 32, 100, 101, 118, 101, 122, 32, 118, 111, 117, 115, 32, 99, 111,
            110, 110, 101, 99, 116, 101, 114, 32, 112, 111, 117, 114, 32, 116, 195, 169, 108, 195,
            169, 99, 104, 97, 114, 103, 101, 114, 32, 117, 110, 32, 116, 111, 114, 114, 101, 110,
            116,
        ];
        assert(expected@ =~= login_required_bytes());
        if body.len() != expected.len() {
            return Ok(());
        }
        let mut i: usize = 0;
        while i < body.len()
            invariant
                i <= body@.len(),
                body@.len() == expected@.len(),
                expected@ == login_required_bytes(),
                body@.take(i as int) == expected@.take(i as int),
            decreases body@.len() - i,
        {
            if body[i] != expected[i] {
                assert(body@[i as int] != expected@[i as int]);
                return Ok(());
            }
            assert(body@.take(i + 1) =~= body@.take(i as int).push(body@[i as int]));
            assert(expected@.take(i + 1) =~= expected@.take(i as int).push(expected@[i as int]));
            i = i + 1;
        }
        assert(body@ =~= body@.take(body@.len() as int));
        assert(expected@ =~= expected@.take(expected@.len() as int));
        Err("Please login for download torrent or use magnet".to_owned())
    }

    /// The directory in which a torrent file at `path` is written: the path
    /// with every occurrence of its last `/`-separated component removed.
    pub fn download_directory(path: &str) -> (res: String)
        ensures
            res@ == download_directory_spec(path@),
    {
        let chars = chars_of(path);
        let parts = split_on(chars.as_slice(), '/');
        proof {
            lemma_split_nonempty(chars@, '/');
        }
        let last = parts.len() - 1;
        assert(parts[last as int]@ == parts.deep_view()[last as int]);
        let filename = &parts[last];
        if filename.len() == 0 {
            return path.to_owned();
        }
        let nothing: Vec<char> = Vec::new();
        let kept = replace_all(chars.as_slice(), filename.as_slice(), nothing.as_slice());
        assert(nothing@ =~= Seq::<char>::empty());
        string_of(kept.as_slice())
    }
}

} // verus!

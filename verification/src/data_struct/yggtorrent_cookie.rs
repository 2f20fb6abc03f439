//! A session cookie that the tracker sets at login, with its expiry date.
use vstd::prelude::*;

use crate::clock::{naive_datetime_seconds, now_seconds, parse_datetime_seconds};
use crate::text::{
    chars_of, contains, contains_seq, replace_all, replace_spec, split_on, split_spec,
    string_of, trim_start, trim_start_spec, lemma_split_nonempty,
};

verus! {

/// The format of the expiry date in a `Set-Cookie` header, once its dashes
/// are replaced by spaces.
pub open spec fn cookie_date_format() -> Seq<char> {
    "%a, %d %b %Y %H:%M:%S GMT"@
}

/// Whether a `Set-Cookie` attribute names the expiry date.
pub open spec fn mentions_expires(segment: Seq<char>) -> bool {
    contains_seq(segment, "Expires"@) || contains_seq(segment, "expires"@)
}

/// The first segment that names the expiry date.
pub open spec fn first_expires_segment(segments: Seq<Seq<char>>) -> Option<Seq<char>>
    decreases segments.len(),
{
    if segments.len() == 0 {
        None
    } else if mentions_expires(segments[0]) {
        Some(segments[0])
    } else {
        first_expires_segment(segments.drop_first())
    }
}

/// The cookie itself: what a `Set-Cookie` header holds before its first `;`.
pub open spec fn cookie_value_spec(header: Seq<char>) -> Seq<char> {
    split_spec(header, ';')[0]
}

/// The expiry date text of a `Set-Cookie` header: in the first `;`-separated
/// segment that mentions `Expires` or `expires`, the text between its first
/// and second `=`, without leading whitespace, with `-` replaced by spaces.
/// `None` where no segment mentions the expiry or it holds no `=`.
pub open spec fn expiry_text_spec(header: Seq<char>) -> Option<Seq<char>> {
    match first_expires_segment(split_spec(header, ';')) {
        Some(segment) => {
            let parts = split_spec(segment, '=');
            if parts.len() > 1 {
                Some(replace_spec(trim_start_spec(parts[1]), "-"@, " "@))
            } else {
                None
            }
        },
        None => None,
    }
}

/// The expiry date of a `Set-Cookie` header, in seconds.
pub open spec fn expiry_spec(header: Seq<char>) -> Option<int> {
    match expiry_text_spec(header) {
        Some(text) => naive_datetime_seconds(text, cookie_date_format()),
        None => None,
    }
}

/// The expiry date text of a `Set-Cookie` header.
pub fn expiry_text(header: &[char]) -> (res: Option<Vec<char>>)
    ensures
        res.deep_view() == expiry_text_spec(header@),
{
    let segments = split_on(header, ';');
    let expires_upper = chars_of("Expires");
    let expires_lower = chars_of("expires");
    let ghost segs = split_spec(header@, ';');
    let mut i: usize = 0;
    assert(segs.skip(0) == segs);
    while i < segments.len()
        invariant
            i <= segments@.len(),
            segments.deep_view() == segs,
            segs == split_spec(header@, ';'),
            expires_upper@ == "Expires"@,
            expires_lower@ == "expires"@,
            first_expires_segment(segs) == first_expires_segment(segs.skip(i as int)),
        decreases segments@.len() - i,
    {
        let segment = &segments[i];
        assert(segment@ == segs[i as int]);
        assert(segs.skip(i as int)[0] == segs[i as int]);
        assert(segs.skip(i as int).drop_first() == segs.skip(i + 1));
        if contains(segment.as_slice(), expires_upper.as_slice()) || contains(
            segment.as_slice(),
            expires_lower.as_slice(),
        ) {
            let parts = split_on(segment.as_slice(), '=');
            if parts.len() > 1 {
                assert(parts[1]@ == parts.deep_view()[1]);
                let trimmed = trim_start(parts[1].as_slice());
                proof {
                    reveal_strlit("-");
                }
                let dash = chars_of("-");
                let space = chars_of(" ");
                let text = replace_all(trimmed.as_slice(), dash.as_slice(), space.as_slice());
                assert(text.deep_view() =~= text@);
                return Some(text);
            } else {
                return None;
            }
        }
        i = i + 1;
    }
    None
}

/// The view of a cookie: its text and its expiry date in seconds.
pub struct YggCookieView {
    pub data: Seq<char>,
    pub date_expire: int,
}

/// A session cookie with its expiry date (whole seconds since 1970-01-01
/// 00:00:00 UTC).
#[derive(Debug)]
pub struct YggCookie {
    data: String,
    date_expire: i64,
}

impl View for YggCookie {
    type V = YggCookieView;

    closed spec fn view(&self) -> YggCookieView {
        YggCookieView { data: self.data@, date_expire: self.date_expire as int }
    }
}

impl YggCookieView {
    /// The cookie is still valid at time `now`, with a margin of 30 seconds:
    /// it expires more than 30 seconds after `now`.
    pub open spec fn valid_at(self, now: int) -> bool {
        self.date_expire > now + 30
    }
}

/// The text of a refused cookie.
pub open spec fn expired_cookie_message() -> Seq<char> {
    "Le cookie n'est plus valid."@
}

impl Clone for YggCookie {
    fn clone(&self) -> (res: Self)
        ensures
            res@ == self@,
    {
        YggCookie { data: self.data.clone(), date_expire: self.date_expire }
    }
}

impl YggCookie {
    /// A cookie with the text `none` that expires now.
    pub fn new() -> (res: YggCookie)
        ensures
            res@.data == "none"@,
    {
        let v = chars_of("none");
        YggCookie { data: string_of(v.as_slice()), date_expire: now_seconds() }
    }

    /// Reads a `Set-Cookie` header: the cookie becomes the text before the
    /// first `;`, and the expiry date the one that the header names.  Returns
    /// whether the header names a readable expiry date; where it does not,
    /// the expiry date is left unchanged.
    pub fn parse(&mut self, data: &str) -> (ok: bool)
        ensures
            final(self)@.data == cookie_value_spec(data@),
            ok == (expiry_spec(data@) is Some),
            ok ==> final(self)@.date_expire == expiry_spec(data@)->0,
            !ok ==> final(self)@.date_expire == old(self)@.date_expire,
    {
        let header = chars_of(data);
        let segments = split_on(header.as_slice(), ';');
        proof {
            lemma_split_nonempty(header@, ';');
        }
        assert(segments[0]@ == segments.deep_view()[0]);
        self.data = string_of(segments[0].as_slice());
        match expiry_text(header.as_slice()) {
            Some(text) => {
                assert(text.deep_view() =~= text@);
                let text_string = string_of(text.as_slice());
                let format = "%a, %d %b %Y %H:%M:%S GMT";
                match parse_datetime_seconds(text_string.as_str(), format) {
                    Some(seconds) => {
                        self.date_expire = seconds;
                        true
                    },
                    None => false,
                }
            },
            None => false,
        }
    }

    /// Whether the cookie is still valid at time `now` (seconds), with a
    /// margin of 30 seconds: it expires more than 30 seconds after `now`.
    pub fn is_valid_at(&self, now: i64) -> (res: bool)
        ensures
            res == (self@.valid_at(now as int)),
    {
        (self.date_expire as i128) - (now as i128) > 30
    }

    /// Whether the cookie is still valid now, with a margin of 30 seconds.
    pub fn check_validity(&self) -> (res: bool)
        ensures
            exists|now: i64| res == #[trigger] self@.valid_at(now as int),
    {
        let now = now_seconds();
        self.is_valid_at(now)
    }

    /// The cookie's text where it is still valid at time `now`, otherwise
    /// the message that it is no longer valid.
    pub fn get_cookie_at(&self, now: i64) -> (res: Result<&str, &'static str>)
        ensures
            match res {
                Ok(text) => self@.valid_at(now as int) && text@ == self@.data,
                Err(message) => !self@.valid_at(now as int) && message@
                    == expired_cookie_message(),
            },
    {
        if self.is_valid_at(now) {
            Ok(self.data.as_str())
        } else {
            let message = "Le cookie n'est plus valid.";
            proof {
                reveal_strlit("Le cookie n'est plus valid.");
            }
            Err(message)
        }
    }

    /// The cookie's text where it is still valid now, otherwise the message
    /// that it is no longer valid.
    pub fn get_cookie(&self) -> (res: Result<&str, &'static str>)
        ensures
            exists|now: i64|
                match res {
                    Ok(text) => #[trigger] self@.valid_at(now as int) && text@ == self@.data,
                    Err(message) => !self@.valid_at(now as int) && message@
                        == expired_cookie_message(),
                },
    {
        let now = now_seconds();
        self.get_cookie_at(now)
    }
}

/// A cookie that is valid at some time was valid at every earlier time.
pub proof fn lemma_validity_monotone(cookie: YggCookieView, earlier: int, later: int)
    requires
        earlier <= later,
        cookie.valid_at(later),
    ensures
        cookie.valid_at(earlier),
{
}

} // verus!

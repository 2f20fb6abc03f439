//! The upload/download ratio shown on the home page of a logged-in user, as
//! text.  Reading the ratio itself as a number is left to the caller.
use vstd::prelude::*;

use crate::data_struct::yggtorrent_result::{first_of, first_text};
use crate::html::{document_texts, select_texts};
use crate::selector::{DOWNLOADED_RATIO_SELECTOR, RATIO_SELECTOR, UPLOADED_RATIO_SELECTOR};
use crate::text::{
    after_first, after_first_of, chars_of, replace_all, replace_spec, string_of, trim, trim_spec,
};

verus! {

/// An amount shown on the page: trimmed, without line feeds.
pub open spec fn amount_spec(text: Seq<char>) -> Seq<char> {
    replace_spec(trim_spec(text), "\n"@, ""@)
}

/// The ratio shown on the page: what follows the first `:`, trimmed.
pub open spec fn ratio_value_spec(text: Seq<char>) -> Option<Seq<char>> {
    match after_first(text, ':') {
        Some(rest) => Some(trim_spec(rest)),
        None => None,
    }
}

/// The view of the ratio texts.
pub struct YggRatioTextView {
    pub uploaded: Seq<char>,
    pub downloaded: Seq<char>,
    pub ratio: Seq<char>,
}

/// The ratio texts from the selections of the page: the first uploaded
/// amount, the first downloaded amount and the first ratio; `None` where one
/// is missing or the ratio text holds no `:`.
pub open spec fn ratio_text_spec(
    uploaded: Seq<Option<Seq<char>>>,
    downloaded: Seq<Option<Seq<char>>>,
    ratio: Seq<Option<Seq<char>>>,
) -> Option<YggRatioTextView> {
    match (first_text(uploaded), first_text(downloaded), first_text(ratio)) {
        (Some(u), Some(d), Some(r)) => match ratio_value_spec(r) {
            Some(value) => Some(
                YggRatioTextView { uploaded: amount_spec(u), downloaded: amount_spec(d), ratio: value },
            ),
            None => None,
        },
        _ => None,
    }
}

/// The amounts uploaded and downloaded by a user and the text of the ratio.
#[derive(Debug, Clone)]
pub struct YggRatioText {
    pub uploaded: String,
    pub downloaded: String,
    pub ratio: String,
}

impl View for YggRatioText {
    type V = YggRatioTextView;

    open spec fn view(&self) -> YggRatioTextView {
        YggRatioTextView {
            uploaded: self.uploaded@,
            downloaded: self.downloaded@,
            ratio: self.ratio@,
        }
    }
}

/// An amount shown on the page.
fn amount(text: &Vec<char>) -> (res: String)
    ensures
        res@ == amount_spec(text@),
{
    proof {
        reveal_strlit("\n");
        reveal_strlit("");
    }
    let trimmed = trim(text.as_slice());
    let line_feed = chars_of("\n");
    let nothing = chars_of("");
    let cleaned = replace_all(trimmed.as_slice(), line_feed.as_slice(), nothing.as_slice());
    string_of(cleaned.as_slice())
}

impl YggRatioText {
    /// The ratio texts from the selections of the page.
    pub fn from_selections(
        uploaded: &Vec<Option<String>>,
        downloaded: &Vec<Option<String>>,
        ratio: &Vec<Option<String>>,
    ) -> (res: Option<YggRatioText>)
        ensures
            match res {
                Some(r) => ratio_text_spec(
                    uploaded.deep_view(),
                    downloaded.deep_view(),
                    ratio.deep_view(),
                ) == Some(r@),
                None => ratio_text_spec(
                    uploaded.deep_view(),
                    downloaded.deep_view(),
                    ratio.deep_view(),
                ) is None,
            },
    {
        match (first_of(uploaded), first_of(downloaded), first_of(ratio)) {
            (Some(u), Some(d), Some(r)) => {
                assert(u.deep_view() =~= u@);
                assert(d.deep_view() =~= d@);
                assert(r.deep_view() =~= r@);
                match after_first_of(r.as_slice(), ':') {
                    Some(rest) => {
                        assert(rest.deep_view() =~= rest@);
                        let value = trim(rest.as_slice());
                        Some(
                            YggRatioText {
                                uploaded: amount(&u),
                                downloaded: amount(&d),
                                ratio: string_of(value.as_slice()),
                            },
                        )
                    },
                    None => None,
                }
            },
            _ => None,
        }
    }

    /// The ratio texts of the home page `html` of a logged-in user.
    pub fn scrape(html: &str) -> (res: Option<YggRatioText>)
        ensures
            match (
                document_texts(html@, UPLOADED_RATIO_SELECTOR@),
                document_texts(html@, DOWNLOADED_RATIO_SELECTOR@),
                document_texts(html@, RATIO_SELECTOR@),
            ) {
                (Some(u), Some(d), Some(r)) => match res {
                    Some(t) => ratio_text_spec(u, d, r) == Some(t@),
                    None => ratio_text_spec(u, d, r) is None,
                },
                _ => res is None,
            },
    {
        let uploaded = select_texts(html, UPLOADED_RATIO_SELECTOR);
        let downloaded = select_texts(html, DOWNLOADED_RATIO_SELECTOR);
        let ratio = select_texts(html, RATIO_SELECTOR);
        match (uploaded, downloaded, ratio) {
            (Some(u), Some(d), Some(r)) => Self::from_selections(&u, &d, &r),
            _ => None,
        }
    }
}

} // verus!

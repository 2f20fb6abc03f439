//! A torrent as the tracker describes it on its page, and the files that it
//! holds.
use vstd::prelude::*;

use crate::clock::{datetime_text, naive_datetime_seconds, naive_datetime_text, parse_datetime_seconds};
use crate::html::{
    document_attributes, document_texts, fragment_row_texts, select_attributes, select_row_texts,
    select_texts,
};
use crate::selector::{
    COMPLETED_SELECTOR, DOWNLOAD_LINK_SELECTOR, FILE_ROW_SELECTOR, HASH_SELECTOR, HREF_ATTRIBUTE,
    KEYWORD_SELECTOR, LEECHERS_SELECTOR, NAME_FILE_SELECTOR, NAME_SELECTOR, SEEDERS_SELECTOR,
    SIZE_FILE_SELECTOR, SIZE_SELECTOR, UPLOADED_SELECTOR, UPLOADER_SELECTOR,
};
use crate::text::{
    after_first, after_first_of, append_chars, lemma_after_first_separator,
    lemma_decimal_parse_roundtrip, chars_of, debug_quoted, debug_text, decimal_spec,
    parse_unsigned,
    parse_unsigned_spec, replace_all, replace_spec, string_of, trim, trim_spec, write_decimal,
};

verus! {

// ---------------------------------------------------------------------------
// Reading selections
// ---------------------------------------------------------------------------

/// The text of the first element found, where an element was found and it
/// has text.
pub open spec fn first_text(found: Seq<Option<Seq<char>>>) -> Option<Seq<char>> {
    if found.len() > 0 {
        found[0]
    } else {
        None
    }
}

/// The text of the first element found.
pub fn first_of(found: &Vec<Option<String>>) -> (res: Option<Vec<char>>)
    ensures
        res.deep_view() == first_text(found.deep_view()),
{
    if found.len() > 0 {
        match &found[0] {
            Some(text) => {
                let v = chars_of(text.as_str());
                assert(v.deep_view() =~= v@);
                Some(v)
            },
            None => None,
        }
    } else {
        None
    }
}

/// A count shown on a torrent page: the first element's text without its
/// spaces, read as a `u32`.
pub open spec fn count_spec(found: Seq<Option<Seq<char>>>) -> Option<u32> {
    match first_text(found) {
        Some(text) => match parse_unsigned_spec(replace_spec(text, " "@, ""@), u32::MAX as int) {
            Some(v) => Some(v as u32),
            None => None,
        },
        None => None,
    }
}

/// A count shown on a torrent page.
pub fn count_of(found: &Vec<Option<String>>) -> (res: Option<u32>)
    ensures
        res == count_spec(found.deep_view()),
{
    match first_of(found) {
        Some(text) => {
            assert(text.deep_view() =~= text@);
            proof {
                reveal_strlit(" ");
                reveal_strlit("");
            }
            let space = chars_of(" ");
            let nothing = chars_of("");
            let digits = replace_all(text.as_slice(), space.as_slice(), nothing.as_slice());
            match parse_unsigned(digits.as_slice(), 4294967295u64) {
                Some(v) => Some(v as u32),
                None => None,
            }
        },
        None => None,
    }
}

// ---------------------------------------------------------------------------
// Files
// ---------------------------------------------------------------------------

/// The view of a file of a torrent.
pub struct YggResultFileView {
    pub size: Seq<char>,
    pub filename: Seq<char>,
}

/// A file of a torrent: its size as the tracker shows it, and its name.
#[derive(Debug)]
pub struct YggResultFile {
    size: String,
    filename: String,
}

impl View for YggResultFile {
    type V = YggResultFileView;

    closed spec fn view(&self) -> YggResultFileView {
        YggResultFileView { size: self.size@, filename: self.filename@ }
    }
}

/// The view of an optional file.
pub open spec fn file_option_view(file: Option<YggResultFile>) -> Option<YggResultFileView> {
    match file {
        Some(f) => Some(f@),
        None => None,
    }
}

/// The views of a list of files.
pub open spec fn files_view(files: Seq<YggResultFile>) -> Seq<YggResultFileView> {
    files.map_values(|f: YggResultFile| f@)
}

/// The file of a row of the table of files: the trimmed first text of the
/// first size cell and of the first name cell; `None` where either is
/// missing.
pub open spec fn file_from_cells_spec(
    size_cells: Seq<Option<Seq<char>>>,
    name_cells: Seq<Option<Seq<char>>>,
) -> Option<YggResultFileView> {
    match (first_text(size_cells), first_text(name_cells)) {
        (Some(size), Some(name)) => Some(
            YggResultFileView { size: trim_spec(size), filename: trim_spec(name) },
        ),
        _ => None,
    }
}

/// The cells of row `i`; none where there is no such row.
pub open spec fn row_cells(rows: Seq<Seq<Option<Seq<char>>>>, i: int) -> Seq<Option<Seq<char>>> {
    if 0 <= i < rows.len() {
        rows[i]
    } else {
        Seq::<Option<Seq<char>>>::empty()
    }
}

/// The files of a table, one per row of size cells, in order; `None` where
/// any row lacks its size or its name.
pub open spec fn files_spec(
    size_rows: Seq<Seq<Option<Seq<char>>>>,
    name_rows: Seq<Seq<Option<Seq<char>>>>,
) -> Option<Seq<YggResultFileView>>
    decreases size_rows.len(),
{
    if size_rows.len() == 0 {
        Some(Seq::<YggResultFileView>::empty())
    } else {
        match (
            files_spec(size_rows.drop_last(), name_rows),
            file_from_cells_spec(size_rows.last(), row_cells(name_rows, size_rows.len() - 1)),
        ) {
            (Some(files), Some(file)) => Some(files.push(file)),
            _ => None,
        }
    }
}

/// The table of files as the tracker sends it, cleaned: the escaped `<` and
/// `>` (`\u003C`, `\u003E`) restored, carriage returns, line feeds and tabs
/// removed.
pub open spec fn cleaned_files_html(html: Seq<char>) -> Seq<char> {
    replace_spec(
        replace_spec(
            replace_spec(
                replace_spec(replace_spec(html, "\\u003C"@, "<"@), "\\u003E"@, ">"@),
                "\r"@,
                ""@,
            ),
            "\n"@,
            ""@,
        ),
        "\t"@,
        ""@,
    )
}

impl YggResultFile {
    /// A file with the given size and name.
    pub fn from_parts(size: String, filename: String) -> (res: YggResultFile)
        ensures
            res@ == (YggResultFileView { size: size@, filename: filename@ }),
    {
        YggResultFile { size, filename }
    }

    /// The size of the file.
    pub fn size(&self) -> (res: &String)
        ensures
            res@ == self@.size,
    {
        &self.size
    }

    /// The name of the file.
    pub fn filename(&self) -> (res: &String)
        ensures
            res@ == self@.filename,
    {
        &self.filename
    }

    /// The file of a row of the table of files, from the texts of its size
    /// cells and of its name cells.
    pub fn from_cells(size_cells: &Vec<Option<String>>, name_cells: &Vec<Option<String>>) -> (res:
        Option<YggResultFile>)
        ensures
            file_option_view(res) == file_from_cells_spec(
                size_cells.deep_view(),
                name_cells.deep_view(),
            ),
    {
        match (first_of(size_cells), first_of(name_cells)) {
            (Some(size), Some(name)) => {
                assert(size.deep_view() =~= size@);
                assert(name.deep_view() =~= name@);
                let size = trim(size.as_slice());
                let name = trim(name.as_slice());
                Some(
                    YggResultFile {
                        size: string_of(size.as_slice()),
                        filename: string_of(name.as_slice()),
                    },
                )
            },
            _ => None,
        }
    }

    /// The files of a table, from the size cells and the name cells of its
    /// rows.
    pub fn files_from_cells(
        size_rows: &Vec<Vec<Option<String>>>,
        name_rows: &Vec<Vec<Option<String>>>,
    ) -> (res: Option<Vec<YggResultFile>>)
        ensures
            match res {
                Some(files) => files_spec(size_rows.deep_view(), name_rows.deep_view()) == Some(
                    files_view(files@),
                ),
                None => files_spec(size_rows.deep_view(), name_rows.deep_view()) is None,
            },
    {
        let ghost sizes = size_rows.deep_view();
        let ghost names = name_rows.deep_view();
        let mut files: Vec<YggResultFile> = Vec::new();
        let empty: Vec<Option<String>> = Vec::new();
        let mut i: usize = 0;
        assert(sizes.take(0) == Seq::<Seq<Option<Seq<char>>>>::empty());
        assert(files_view(files@) =~= Seq::<YggResultFileView>::empty());
        while i < size_rows.len()
            invariant
                i <= size_rows@.len(),
                sizes == size_rows.deep_view(),
                names == name_rows.deep_view(),
                empty@.len() == 0,
                files_spec(sizes.take(i as int), names) == Some(files_view(files@)),
            decreases size_rows@.len() - i,
        {
            let names_row = if i < name_rows.len() {
                &name_rows[i]
            } else {
                &empty
            };
            assert(names_row.deep_view() =~= row_cells(names, i as int));
            assert(size_rows[i as int].deep_view() == sizes[i as int]);
            let ghost prefix = sizes.take(i + 1);
            assert(prefix.drop_last() == sizes.take(i as int));
            assert(prefix.last() == sizes[i as int]);
            match Self::from_cells(&size_rows[i], names_row) {
                Some(file) => {
                    let ghost before = files@;
                    files.push(file);
                    assert(files_view(files@) =~= files_view(before).push(file@));
                },
                None => {
                    assert(files_spec(prefix, names) is None);
                    proof {
                        lemma_files_spec_failure_persists(sizes, names, i + 1);
                    }
                    assert(sizes.take(sizes.len() as int) == sizes);
                    return None;
                },
            }
            i = i + 1;
        }
        assert(sizes.take(sizes.len() as int) == sizes);
        Some(files)
    }

    /// The files of a torrent from the table of files that the tracker sends
    /// for it: the table is cleaned, then each row gives a file.  `None`
    /// where a row lacks its size or its name, or a selector is refused.
    pub fn scrape_files(html: &str) -> (res: Option<Vec<YggResultFile>>)
        ensures
            ({
                let cleaned = cleaned_files_html(html@);
                match (
                    fragment_row_texts(cleaned, FILE_ROW_SELECTOR@, SIZE_FILE_SELECTOR@),
                    fragment_row_texts(cleaned, FILE_ROW_SELECTOR@, NAME_FILE_SELECTOR@),
                ) {
                    (Some(sizes), Some(names)) => match res {
                        Some(files) => files_spec(sizes, names) == Some(files_view(files@)),
                        None => files_spec(sizes, names) is None,
                    },
                    _ => res is None,
                }
            }),
    {
        let cleaned = clean_files_html(html);
        let cleaned_str = string_of(cleaned.as_slice());
        let sizes = select_row_texts(cleaned_str.as_str(), FILE_ROW_SELECTOR, SIZE_FILE_SELECTOR);
        let names = select_row_texts(cleaned_str.as_str(), FILE_ROW_SELECTOR, NAME_FILE_SELECTOR);
        match (sizes, names) {
            (Some(sizes), Some(names)) => Self::files_from_cells(&sizes, &names),
            _ => None,
        }
    }
}

/// Once a prefix of the rows gives no files, no longer prefix does.
proof fn lemma_files_spec_failure_persists(
    sizes: Seq<Seq<Option<Seq<char>>>>,
    names: Seq<Seq<Option<Seq<char>>>>,
    k: int,
)
    requires
        0 <= k <= sizes.len(),
        files_spec(sizes.take(k), names) is None,
    ensures
        files_spec(sizes, names) is None,
    decreases sizes.len() - k,
{
    if k < sizes.len() {
        let next = sizes.take(k + 1);
        assert(next.drop_last() == sizes.take(k));
        lemma_files_spec_failure_persists(sizes, names, k + 1);
    } else {
        assert(sizes.take(k) == sizes);
    }
}

/// The table of files, cleaned.
pub fn clean_files_html(html: &str) -> (res: Vec<char>)
    ensures
        res@ == cleaned_files_html(html@),
{
    proof {
        reveal_strlit("\\u003C");
        reveal_strlit("\\u003E");
        reveal_strlit("\r");
        reveal_strlit("\n");
        reveal_strlit("\t");
    }
    let s = chars_of(html);
    let nothing = chars_of("");
    let s = replace_all(s.as_slice(), chars_of("\\u003C").as_slice(), chars_of("<").as_slice());
    let s = replace_all(s.as_slice(), chars_of("\\u003E").as_slice(), chars_of(">").as_slice());
    let s = replace_all(s.as_slice(), chars_of("\r").as_slice(), nothing.as_slice());
    let s = replace_all(s.as_slice(), chars_of("\n").as_slice(), nothing.as_slice());
    replace_all(s.as_slice(), chars_of("\t").as_slice(), nothing.as_slice())
}

// ---------------------------------------------------------------------------
// Torrents
// ---------------------------------------------------------------------------

/// What a torrent page shows, as selected: for each datum, the text (or the
/// link) of each element found.
pub struct YggResultPage {
    pub name: Vec<Option<String>>,
    pub keywords: Vec<Option<String>>,
    pub seeders: Vec<Option<String>>,
    pub leechers: Vec<Option<String>>,
    pub completed: Vec<Option<String>>,
    pub size: Vec<Option<String>>,
    pub info_hash: Vec<Option<String>>,
    pub uploader: Vec<Option<String>>,
    pub uploaded: Vec<Option<String>>,
    pub download_link: Vec<Option<String>>,
}

/// The view of a torrent page's selections.
pub struct YggResultPageView {
    pub name: Seq<Option<Seq<char>>>,
    pub keywords: Seq<Option<Seq<char>>>,
    pub seeders: Seq<Option<Seq<char>>>,
    pub leechers: Seq<Option<Seq<char>>>,
    pub completed: Seq<Option<Seq<char>>>,
    pub size: Seq<Option<Seq<char>>>,
    pub info_hash: Seq<Option<Seq<char>>>,
    pub uploader: Seq<Option<Seq<char>>>,
    pub uploaded: Seq<Option<Seq<char>>>,
    pub download_link: Seq<Option<Seq<char>>>,
}

impl View for YggResultPage {
    type V = YggResultPageView;

    open spec fn view(&self) -> YggResultPageView {
        YggResultPageView {
            name: self.name.deep_view(),
            keywords: self.keywords.deep_view(),
            seeders: self.seeders.deep_view(),
            leechers: self.leechers.deep_view(),
            completed: self.completed.deep_view(),
            size: self.size.deep_view(),
            info_hash: self.info_hash.deep_view(),
            uploader: self.uploader.deep_view(),
            uploaded: self.uploaded.deep_view(),
            download_link: self.download_link.deep_view(),
        }
    }
}

/// Every element found has a text.
pub open spec fn all_present(found: Seq<Option<Seq<char>>>) -> bool {
    forall|i: int| 0 <= i < found.len() ==> #[trigger] found[i] is Some
}

/// The texts of the elements found.
pub open spec fn present_texts(found: Seq<Option<Seq<char>>>) -> Seq<Seq<char>> {
    found.map_values(|t: Option<Seq<char>>| t->0)
}

/// The uploader: the text of the first element found, or `Pirate Anonyme`
/// where none was found.
pub open spec fn uploader_spec(found: Seq<Option<Seq<char>>>) -> Option<Seq<char>> {
    if found.len() > 0 {
        found[0]
    } else {
        Some("Pirate Anonyme"@)
    }
}

/// The torrent's number: what follows the first `=` of its download link,
/// read as a `u64`.
pub open spec fn link_id_spec(link: Seq<char>) -> Option<u64> {
    match after_first(link, '=') {
        Some(rest) => match parse_unsigned_spec(rest, u64::MAX as int) {
            Some(v) => Some(v as u64),
            None => None,
        },
        None => None,
    }
}

/// The link to the torrent's NFO file.
pub open spec fn nfo_link_spec(id: u64) -> Seq<char> {
    "https://www3.yggtorrent.cool/engine/get_nfo?torrent="@ + decimal_spec(id as nat)
}

/// The format of the upload date on a torrent page.
pub open spec fn upload_date_format() -> Seq<char> {
    "%d/%m/%Y %H:%M"@
}

/// Whether a torrent page holds everything that a torrent needs: a name,
/// a text for each keyword, readable counts, a size, a hash, an uploader (or
/// none at all), an upload date text, and a download link with a readable
/// number.
pub open spec fn page_complete(page: YggResultPageView) -> bool {
    &&& first_text(page.name) is Some
    &&& all_present(page.keywords)
    &&& count_spec(page.seeders) is Some
    &&& count_spec(page.leechers) is Some
    &&& count_spec(page.completed) is Some
    &&& first_text(page.size) is Some
    &&& first_text(page.info_hash) is Some
    &&& uploader_spec(page.uploader) is Some
    &&& first_text(page.uploaded) is Some
    &&& first_text(page.download_link) is Some
    &&& link_id_spec(first_text(page.download_link)->0) is Some
}

/// The view of a torrent.
pub struct YggResultView {
    pub id: u64,
    pub name: Seq<char>,
    pub keywords: Seq<Seq<char>>,
    pub seeders: u32,
    pub leechers: u32,
    pub completed: u32,
    pub size: Seq<char>,
    pub info_hash: Seq<char>,
    pub uploader: Seq<char>,
    pub uploaded: i64,
    pub download_link: Seq<char>,
    pub files: Seq<YggResultFileView>,
    pub nfo_link: Seq<char>,
}

/// The torrent that a complete page describes, without its files.
/// `uploaded` is the upload date read from the page, in seconds; where it
/// could not be read, the date is 0 (1970-01-01 00:00:00).
pub open spec fn page_result_spec(page: YggResultPageView, uploaded: Option<i64>) -> YggResultView {
    let id = link_id_spec(first_text(page.download_link)->0)->0;
    YggResultView {
        id: id,
        name: trim_spec(first_text(page.name)->0),
        keywords: present_texts(page.keywords),
        seeders: count_spec(page.seeders)->0,
        leechers: count_spec(page.leechers)->0,
        completed: count_spec(page.completed)->0,
        size: first_text(page.size)->0,
        info_hash: first_text(page.info_hash)->0,
        uploader: uploader_spec(page.uploader)->0,
        uploaded: match uploaded {
            Some(v) => v,
            None => 0,
        },
        download_link: first_text(page.download_link)->0,
        files: Seq::<YggResultFileView>::empty(),
        nfo_link: nfo_link_spec(id),
    }
}

/// The selections of the torrent page `html`; `None` where a selector is
/// refused.
pub open spec fn scraped_page_spec(html: Seq<char>) -> Option<YggResultPageView> {
    let name = document_texts(html, NAME_SELECTOR@);
    let keywords = document_texts(html, KEYWORD_SELECTOR@);
    let seeders = document_texts(html, SEEDERS_SELECTOR@);
    let leechers = document_texts(html, LEECHERS_SELECTOR@);
    let completed = document_texts(html, COMPLETED_SELECTOR@);
    let size = document_texts(html, SIZE_SELECTOR@);
    let info_hash = document_texts(html, HASH_SELECTOR@);
    let uploader = document_texts(html, UPLOADER_SELECTOR@);
    let uploaded = document_texts(html, UPLOADED_SELECTOR@);
    let download_link = document_attributes(html, DOWNLOAD_LINK_SELECTOR@, HREF_ATTRIBUTE@);
    if name is Some && keywords is Some && seeders is Some && leechers is Some && completed is Some
        && size is Some && info_hash is Some && uploader is Some && uploaded is Some
        && download_link is Some {
        Some(
            YggResultPageView {
                name: name->0,
                keywords: keywords->0,
                seeders: seeders->0,
                leechers: leechers->0,
                completed: completed->0,
                size: size->0,
                info_hash: info_hash->0,
                uploader: uploader->0,
                uploaded: uploaded->0,
                download_link: download_link->0,
            },
        )
    } else {
        None
    }
}

/// The upload date of a page, in seconds, as read from its trimmed text.
pub open spec fn page_upload_date_spec(page: YggResultPageView) -> Option<i64> {
    match first_text(page.uploaded) {
        Some(text) => match naive_datetime_seconds(trim_spec(text), upload_date_format()) {
            Some(v) => Some(v as i64),
            None => None,
        },
        None => None,
    }
}

/// A torrent of the tracker.
#[derive(Debug)]
pub struct YggResult {
    id: u64,
    name: String,
    keywords: Vec<String>,
    seeders: u32,
    leechers: u32,
    completed: u32,
    size: String,
    info_hash: String,
    uploader: String,
    uploaded: i64,
    download_link: String,
    files: Vec<YggResultFile>,
    nfo_link: String,
}

impl View for YggResult {
    type V = YggResultView;

    closed spec fn view(&self) -> YggResultView {
        YggResultView {
            id: self.id,
            name: self.name@,
            keywords: self.keywords.deep_view(),
            seeders: self.seeders,
            leechers: self.leechers,
            completed: self.completed,
            size: self.size@,
            info_hash: self.info_hash@,
            uploader: self.uploader@,
            uploaded: self.uploaded,
            download_link: self.download_link@,
            files: files_view(self.files@),
            nfo_link: self.nfo_link@,
        }
    }
}

/// The view of an optional torrent.
pub open spec fn result_option_view(result: Option<YggResult>) -> Option<YggResultView> {
    match result {
        Some(r) => Some(r@),
        None => None,
    }
}

/// The views of a list of torrents.
pub open spec fn results_view(results: Seq<YggResult>) -> Seq<YggResultView> {
    results.map_values(|r: YggResult| r@)
}

/// A copy of a string.
fn copy_string(s: &String) -> (res: String)
    ensures
        res@ == s@,
{
    let v = chars_of(s.as_str());
    string_of(v.as_slice())
}

/// The text of a found element.
fn present_string(t: &Option<String>) -> (res: String)
    requires
        t is Some,
    ensures
        res@ == t.deep_view()->0,
{
    match t {
        Some(s) => copy_string(s),
        None => String::new(),
    }
}

impl Clone for YggResultFile {
    fn clone(&self) -> (res: Self)
        ensures
            res@ == self@,
    {
        YggResultFile { size: copy_string(&self.size), filename: copy_string(&self.filename) }
    }
}

impl Default for YggResultFile {
    fn default() -> (res: Self)
        ensures
            res@.size == Seq::<char>::empty(),
            res@.filename == Seq::<char>::empty(),
    {
        YggResultFile { size: String::new(), filename: String::new() }
    }
}

impl Clone for YggResult {
    fn clone(&self) -> (res: Self)
        ensures
            res@ == self@,
    {
        let mut keywords: Vec<String> = Vec::new();
        let mut i: usize = 0;
        while i < self.keywords.len()
            invariant
                i <= self.keywords@.len(),
                keywords.deep_view() == self.keywords.deep_view().take(i as int),
            decreases self.keywords@.len() - i,
        {
            let ghost before = keywords.deep_view();
            let copy = copy_string(&self.keywords[i]);
            let ghost copied = copy@;
            keywords.push(copy);
            assert(keywords.deep_view() =~= before.push(copied));
            assert(self.keywords.deep_view().take(i + 1) =~= self.keywords.deep_view().take(
                i as int,
            ).push(self.keywords.deep_view()[i as int]));
            i = i + 1;
        }
        assert(self.keywords.deep_view().take(self.keywords@.len() as int)
            =~= self.keywords.deep_view());
        let mut files: Vec<YggResultFile> = Vec::new();
        let mut j: usize = 0;
        while j < self.files.len()
            invariant
                j <= self.files@.len(),
                files_view(files@) == files_view(self.files@).take(j as int),
            decreases self.files@.len() - j,
        {
            let ghost before = files@;
            let copy = self.files[j].clone();
            let ghost copied = copy@;
            files.push(copy);
            assert(files_view(files@) =~= files_view(before).push(copied));
            assert(files_view(self.files@).take(j + 1) =~= files_view(self.files@).take(
                j as int,
            ).push(files_view(self.files@)[j as int]));
            j = j + 1;
        }
        assert(files_view(self.files@).take(self.files@.len() as int) =~= files_view(
            self.files@,
        ));
        YggResult {
            id: self.id,
            name: copy_string(&self.name),
            keywords: keywords,
            seeders: self.seeders,
            leechers: self.leechers,
            completed: self.completed,
            size: copy_string(&self.size),
            info_hash: copy_string(&self.info_hash),
            uploader: copy_string(&self.uploader),
            uploaded: self.uploaded,
            download_link: copy_string(&self.download_link),
            files: files,
            nfo_link: copy_string(&self.nfo_link),
        }
    }
}

impl Default for YggResult {
    /// Number 0, empty texts and lists, no counts, uploaded on 1970-01-01.
    fn default() -> (res: Self)
        ensures
            res@.id == 0,
            res@.name == Seq::<char>::empty(),
            res@.keywords == Seq::<Seq<char>>::empty(),
            res@.seeders == 0,
            res@.leechers == 0,
            res@.completed == 0,
            res@.size == Seq::<char>::empty(),
            res@.info_hash == Seq::<char>::empty(),
            res@.uploader == Seq::<char>::empty(),
            res@.uploaded == 0,
            res@.download_link == Seq::<char>::empty(),
            res@.files == Seq::<YggResultFileView>::empty(),
            res@.nfo_link == Seq::<char>::empty(),
    {
        let keywords: Vec<String> = Vec::new();
        let files: Vec<YggResultFile> = Vec::new();
        assert(keywords.deep_view() =~= Seq::<Seq<char>>::empty());
        assert(files_view(files@) =~= Seq::<YggResultFileView>::empty());
        YggResult {
            id: 0,
            name: String::new(),
            keywords: keywords,
            seeders: 0,
            leechers: 0,
            completed: 0,
            size: String::new(),
            info_hash: String::new(),
            uploader: String::new(),
            uploaded: 0,
            download_link: String::new(),
            files: files,
            nfo_link: String::new(),
        }
    }
}

impl YggResult {
    /// The torrent that a torrent page describes, without its files, from the
    /// page's selections and its upload date (`uploaded`, as read from the
    /// page; `None` where it could not be read).  `None` where the page lacks
    /// something that a torrent needs.
    pub fn from_page(page: &YggResultPage, uploaded: Option<i64>) -> (res: Option<YggResult>)
        ensures
            res is Some <==> page_complete(page@),
            res matches Some(r) ==> r@ == page_result_spec(page@, uploaded),
    {
        let name = match first_of(&page.name) {
            Some(t) => t,
            None => return None,
        };
        assert(name.deep_view() =~= name@);
        let name = trim(name.as_slice());
        let mut keywords: Vec<String> = Vec::new();
        let mut i: usize = 0;
        while i < page.keywords.len()
            invariant
                i <= page.keywords@.len(),
                all_present(page.keywords.deep_view().take(i as int)),
                keywords.deep_view() == present_texts(page.keywords.deep_view().take(i as int)),
            decreases page.keywords@.len() - i,
        {
            assert(page.keywords.deep_view()[i as int] == page.keywords[i as int].deep_view());
            match &page.keywords[i] {
                Some(_) => {},
                None => {
                    assert(!all_present(page.keywords.deep_view()));
                    return None;
                },
            }
            let ghost before = keywords.deep_view();
            let text = present_string(&page.keywords[i]);
            let ghost added = text@;
            keywords.push(text);
            assert(keywords.deep_view() =~= before.push(added));
            assert(page.keywords.deep_view().take(i + 1) =~= page.keywords.deep_view().take(
                i as int,
            ).push(page.keywords.deep_view()[i as int]));
            assert(present_texts(page.keywords.deep_view().take(i + 1)) =~= present_texts(
                page.keywords.deep_view().take(i as int),
            ).push(added));
            i = i + 1;
        }
        assert(page.keywords.deep_view().take(page.keywords@.len() as int)
            =~= page.keywords.deep_view());
        let seeders = match count_of(&page.seeders) {
            Some(v) => v,
            None => return None,
        };
        let leechers = match count_of(&page.leechers) {
            Some(v) => v,
            None => return None,
        };
        let completed = match count_of(&page.completed) {
            Some(v) => v,
            None => return None,
        };
        let size = match first_of(&page.size) {
            Some(t) => t,
            None => return None,
        };
        assert(size.deep_view() =~= size@);
        let info_hash = match first_of(&page.info_hash) {
            Some(t) => t,
            None => return None,
        };
        assert(info_hash.deep_view() =~= info_hash@);
        let uploader = if page.uploader.len() > 0 {
            match first_of(&page.uploader) {
                Some(t) => t,
                None => return None,
            }
        } else {
            proof {
                reveal_strlit("Pirate Anonyme");
            }
            chars_of("Pirate Anonyme")
        };
        assert(uploader.deep_view() =~= uploader@);
        if page.uploaded.len() == 0 {
            return None;
        }
        match &page.uploaded[0] {
            Some(_) => {},
            None => return None,
        }
        let link = match first_of(&page.download_link) {
            Some(t) => t,
            None => return None,
        };
        assert(link.deep_view() =~= link@);
        let id = match after_first_of(link.as_slice(), '=') {
            Some(rest) => {
                assert(rest.deep_view() =~= rest@);
                match parse_unsigned(rest.as_slice(), 18446744073709551615u64) {
                    Some(v) => v,
                    None => return None,
                }
            },
            None => return None,
        };
        let mut nfo = chars_of("https://www3.yggtorrent.cool/engine/get_nfo?torrent=");
        write_decimal(id, &mut nfo);
        let files: Vec<YggResultFile> = Vec::new();
        assert(files_view(files@) =~= Seq::<YggResultFileView>::empty());
        let result = YggResult {
            id: id,
            name: string_of(name.as_slice()),
            keywords: keywords,
            seeders: seeders,
            leechers: leechers,
            completed: completed,
            size: string_of(size.as_slice()),
            info_hash: string_of(info_hash.as_slice()),
            uploader: string_of(uploader.as_slice()),
            uploaded: match uploaded {
                Some(v) => v,
                None => 0,
            },
            download_link: string_of(link.as_slice()),
            files: files,
            nfo_link: string_of(nfo.as_slice()),
        };
        Some(result)
    }

    /// The torrent that the torrent page `html` describes, without its files.
    /// `None` where the page lacks something that a torrent needs, or a
    /// selector is refused.
    pub fn scrape(html: &str) -> (res: Option<YggResult>)
        ensures
            match scraped_page_spec(html@) {
                Some(page) => {
                    &&& (res is Some <==> page_complete(page))
                    &&& res matches Some(r) ==> r@ == page_result_spec(
                        page,
                        page_upload_date_spec(page),
                    )
                },
                None => res is None,
            },
    {
        let name = select_texts(html, NAME_SELECTOR);
        let keywords = select_texts(html, KEYWORD_SELECTOR);
        let seeders = select_texts(html, SEEDERS_SELECTOR);
        let leechers = select_texts(html, LEECHERS_SELECTOR);
        let completed = select_texts(html, COMPLETED_SELECTOR);
        let size = select_texts(html, SIZE_SELECTOR);
        let info_hash = select_texts(html, HASH_SELECTOR);
        let uploader = select_texts(html, UPLOADER_SELECTOR);
        let uploaded = select_texts(html, UPLOADED_SELECTOR);
        let download_link = select_attributes(html, DOWNLOAD_LINK_SELECTOR, HREF_ATTRIBUTE);
        match (
            name,
            keywords,
            seeders,
            leechers,
            completed,
            size,
            info_hash,
            uploader,
            uploaded,
            download_link,
        ) {
            (
                Some(name),
                Some(keywords),
                Some(seeders),
                Some(leechers),
                Some(completed),
                Some(size),
                Some(info_hash),
                Some(uploader),
                Some(uploaded),
                Some(download_link),
            ) => {
                let page = YggResultPage {
                    name,
                    keywords,
                    seeders,
                    leechers,
                    completed,
                    size,
                    info_hash,
                    uploader,
                    uploaded,
                    download_link,
                };
                let date = match first_of(&page.uploaded) {
                    Some(text) => {
                        assert(text.deep_view() =~= text@);
                        let trimmed = trim(text.as_slice());
                        let trimmed = string_of(trimmed.as_slice());
                        parse_datetime_seconds(trimmed.as_str(), "%d/%m/%Y %H:%M")
                    },
                    None => None,
                };
                Self::from_page(&page, date)
            },
            _ => None,
        }
    }

    /// A torrent with the given data, for one that was stored and is read
    /// back.
    pub fn from_parts(
        id: u64,
        name: String,
        keywords: Vec<String>,
        seeders: u32,
        leechers: u32,
        completed: u32,
        size: String,
        info_hash: String,
        uploader: String,
        uploaded: i64,
        download_link: String,
        files: Vec<YggResultFile>,
        nfo_link: String,
    ) -> (res: YggResult)
        ensures
            res@ == (YggResultView {
                id: id,
                name: name@,
                keywords: keywords.deep_view(),
                seeders: seeders,
                leechers: leechers,
                completed: completed,
                size: size@,
                info_hash: info_hash@,
                uploader: uploader@,
                uploaded: uploaded,
                download_link: download_link@,
                files: files_view(files@),
                nfo_link: nfo_link@,
            }),
    {
        YggResult {
            id,
            name,
            keywords,
            seeders,
            leechers,
            completed,
            size,
            info_hash,
            uploader,
            uploaded,
            download_link,
            files,
            nfo_link,
        }
    }

    /// Replaces the files of the torrent.
    pub fn set_files(&mut self, files: Vec<YggResultFile>)
        ensures
            final(self)@ == (YggResultView { files: files_view(files@), ..old(self)@ }),
    {
        self.files = files;
    }

    /// The torrent's number.
    pub fn id(&self) -> (res: &u64)
        ensures
            *res == self@.id,
    {
        &self.id
    }

    /// The torrent's name.
    pub fn name(&self) -> (res: &String)
        ensures
            res@ == self@.name,
    {
        &self.name
    }

    /// The torrent's keywords.
    pub fn keywords(&self) -> (res: &Vec<String>)
        ensures
            res.deep_view() == self@.keywords,
    {
        &self.keywords
    }

    /// The number of seeders.
    pub fn seeders(&self) -> (res: &u32)
        ensures
            *res == self@.seeders,
    {
        &self.seeders
    }

    /// The number of leechers.
    pub fn leechers(&self) -> (res: &u32)
        ensures
            *res == self@.leechers,
    {
        &self.leechers
    }

    /// The number of completed downloads.
    pub fn completed(&self) -> (res: &u32)
        ensures
            *res == self@.completed,
    {
        &self.completed
    }

    /// The torrent's size as the tracker shows it.
    pub fn size(&self) -> (res: &String)
        ensures
            res@ == self@.size,
    {
        &self.size
    }

    /// The torrent's info hash.
    pub fn info_hash(&self) -> (res: &String)
        ensures
            res@ == self@.info_hash,
    {
        &self.info_hash
    }

    /// The torrent's uploader.
    pub fn uploader(&self) -> (res: &String)
        ensures
            res@ == self@.uploader,
    {
        &self.uploader
    }

    /// The upload date, in seconds since 1970-01-01 00:00:00.
    pub fn uploaded(&self) -> (res: &i64)
        ensures
            *res == self@.uploaded,
    {
        &self.uploaded
    }

    /// The torrent's download link.
    pub fn download_link(&self) -> (res: &String)
        ensures
            res@ == self@.download_link,
    {
        &self.download_link
    }

    /// The files of the torrent.
    pub fn files(&self) -> (res: &Vec<YggResultFile>)
        ensures
            files_view(res@) == self@.files,
    {
        &self.files
    }

    /// The link to the torrent's NFO file.
    pub fn nfo_link(&self) -> (res: &String)
        ensures
            res@ == self@.nfo_link,
    {
        &self.nfo_link
    }
}

// ---------------------------------------------------------------------------
// Text forms
// ---------------------------------------------------------------------------

/// Appends the characters of `s` to `out`.
fn append_str(out: &mut Vec<char>, s: &str)
    ensures
        final(out)@ == old(out)@ + s@,
{
    let v = chars_of(s);
    append_chars(out, v.as_slice());
}

/// The items written with `Debug` and separated by `, `.
pub open spec fn quoted_list_spec(items: Seq<Seq<char>>) -> Seq<char>
    decreases items.len(),
{
    if items.len() == 0 {
        Seq::<char>::empty()
    } else if items.len() == 1 {
        debug_quoted(items[0])
    } else {
        quoted_list_spec(items.drop_last()) + ", "@ + debug_quoted(items.last())
    }
}

/// A list of strings as `Debug` writes it: `[`, the quoted items separated by
/// `, `, then `]`.
pub open spec fn keywords_text_spec(keywords: Seq<Seq<char>>) -> Seq<char> {
    "["@ + quoted_list_spec(keywords) + "]"@
}

/// The text of a file: its size and its name on one line.
pub open spec fn file_text_spec(file: YggResultFileView) -> Seq<char> {
    "\t\tsize: "@ + file.size + "\t"@ + "|\tname: "@ + file.filename + "\n"@
}

/// The texts of files, one after the other.
pub open spec fn files_text_spec(files: Seq<YggResultFileView>) -> Seq<char>
    decreases files.len(),
{
    if files.len() == 0 {
        Seq::<char>::empty()
    } else {
        files_text_spec(files.drop_last()) + file_text_spec(files.last())
    }
}

/// The upload date as chrono prints it; nothing where it is outside chrono's
/// range.
pub open spec fn uploaded_text_spec(seconds: i64) -> Seq<char> {
    match naive_datetime_text(seconds as int) {
        Some(text) => text,
        None => Seq::<char>::empty(),
    }
}

/// The text of a torrent: one line per datum, then its files.
pub open spec fn result_text_spec(r: YggResultView) -> Seq<char> {
    "ID: "@ + decimal_spec(r.id as nat) + "\n"@ + "Name: "@ + r.name + "\n"@ + "Keywords: "@
        + keywords_text_spec(r.keywords) + "\n"@ + "Seeders: "@ + decimal_spec(r.seeders as nat)
        + "\n"@ + "Leechers: "@ + decimal_spec(r.leechers as nat) + "\n"@ + "Completed: "@
        + decimal_spec(r.completed as nat) + "\n"@ + "Size: "@ + r.size + "\n"@ + "Info Hash: "@
        + r.info_hash + "\n"@ + "Uploader: "@ + r.uploader + "\n"@ + "Uploaded: "@
        + uploaded_text_spec(r.uploaded) + "\n"@ + "Download Link: "@ + r.download_link + "\n"@
        + "NFO Link: "@ + r.nfo_link + "\n"@ + "File in torrent:\n"@ + files_text_spec(r.files)
}

/// A list of strings as `Debug` writes it.
fn keywords_text(keywords: &Vec<String>) -> (res: Vec<char>)
    ensures
        res@ == keywords_text_spec(keywords.deep_view()),
{
    let ghost items = keywords.deep_view();
    let mut v = chars_of("[");
    let ghost head = v@;
    let mut i: usize = 0;
    assert(items.take(0) =~= Seq::<Seq<char>>::empty());
    while i < keywords.len()
        invariant
            i <= keywords@.len(),
            items == keywords.deep_view(),
            v@ == head + quoted_list_spec(items.take(i as int)),
        decreases keywords@.len() - i,
    {
        assert(items[i as int] == keywords[i as int]@);
        let ghost before = v@;
        if i > 0 {
            append_str(&mut v, ", ");
        }
        let quoted = debug_text(keywords[i].as_str());
        append_str(&mut v, quoted.as_str());
        let ghost next = items.take(i + 1);
        assert(next.drop_last() =~= items.take(i as int));
        assert(next.last() == items[i as int]);
        if i == 0 {
            assert(items.take(0) =~= Seq::<Seq<char>>::empty());
            assert(next.len() == 1);
            assert(next[0] == items[0]);
            assert(v@ =~= head + quoted_list_spec(next));
        } else {
            assert(v@ =~= head + quoted_list_spec(next));
        }
        i = i + 1;
    }
    assert(items.take(items.len() as int) =~= items);
    append_str(&mut v, "]");
    v
}

impl YggResultFile {
    /// The text of the file: `\t\tsize: <size>\t|\tname: <name>` and a line
    /// feed.
    pub fn display_text(&self) -> (res: String)
        ensures
            res@ == file_text_spec(self@),
    {
        let mut v = chars_of("\t\tsize: ");
        append_str(&mut v, self.size.as_str());
        append_str(&mut v, "\t");
        append_str(&mut v, "|\tname: ");
        append_str(&mut v, self.filename.as_str());
        append_str(&mut v, "\n");
        string_of(v.as_slice())
    }
}

impl YggResult {
    /// The text of the torrent: number, name, keywords, counts, size, hash,
    /// uploader, upload date, links, one per line, then `File in torrent:`
    /// and the text of each file.
    pub fn display_text(&self) -> (res: String)
        ensures
            res@ == result_text_spec(self@),
    {
        let mut v = chars_of("ID: ");
        write_decimal(self.id, &mut v);
        append_str(&mut v, "\n");
        append_str(&mut v, "Name: ");
        append_str(&mut v, self.name.as_str());
        append_str(&mut v, "\n");
        append_str(&mut v, "Keywords: ");
        let keywords = keywords_text(&self.keywords);
        append_chars(&mut v, keywords.as_slice());
        append_str(&mut v, "\n");
        append_str(&mut v, "Seeders: ");
        write_decimal(self.seeders as u64, &mut v);
        append_str(&mut v, "\n");
        append_str(&mut v, "Leechers: ");
        write_decimal(self.leechers as u64, &mut v);
        append_str(&mut v, "\n");
        append_str(&mut v, "Completed: ");
        write_decimal(self.completed as u64, &mut v);
        append_str(&mut v, "\n");
        append_str(&mut v, "Size: ");
        append_str(&mut v, self.size.as_str());
        append_str(&mut v, "\n");
        append_str(&mut v, "Info Hash: ");
        append_str(&mut v, self.info_hash.as_str());
        append_str(&mut v, "\n");
        append_str(&mut v, "Uploader: ");
        append_str(&mut v, self.uploader.as_str());
        append_str(&mut v, "\n");
        append_str(&mut v, "Uploaded: ");
        match datetime_text(self.uploaded) {
            Some(text) => append_str(&mut v, text.as_str()),
            None => {},
        }
        append_str(&mut v, "\n");
        append_str(&mut v, "Download Link: ");
        append_str(&mut v, self.download_link.as_str());
        append_str(&mut v, "\n");
        append_str(&mut v, "NFO Link: ");
        append_str(&mut v, self.nfo_link.as_str());
        append_str(&mut v, "\n");
        append_str(&mut v, "File in torrent:\n");
        let ghost head = v@;
        let ghost files = files_view(self.files@);
        let mut i: usize = 0;
        assert(files.take(0) =~= Seq::<YggResultFileView>::empty());
        while i < self.files.len()
            invariant
                i <= self.files@.len(),
                files == files_view(self.files@),
                v@ == head + files_text_spec(files.take(i as int)),
            decreases self.files@.len() - i,
        {
            let text = self.files[i].display_text();
            append_str(&mut v, text.as_str());
            assert(files.take(i + 1).drop_last() =~= files.take(i as int));
            assert(files.take(i + 1).last() == files[i as int]);
            i = i + 1;
        }
        assert(files.take(files.len() as int) =~= files);
        string_of(v.as_slice())
    }
}

/// A download link `<anything without '='>=<n>` names torrent `n`, for every
/// `u64` `n`: the link never makes the page incomplete, and the torrent read
/// from a complete page has number `n` and the NFO link ending in `n`.
pub proof fn lemma_download_link_gives_torrent_number(
    page: YggResultPageView,
    uploaded: Option<i64>,
    prefix: Seq<char>,
    n: u64,
)
    requires
        !prefix.contains('='),
        first_text(page.download_link) == Some(prefix + seq!['='] + decimal_spec(n as nat)),
    ensures
        parse_unsigned_spec(decimal_spec(n as nat), u64::MAX as int) == Some(n as int),
        link_id_spec(prefix + seq!['='] + decimal_spec(n as nat)) == Some(n),
        page_complete(page) <==> {
            &&& first_text(page.name) is Some
            &&& all_present(page.keywords)
            &&& count_spec(page.seeders) is Some
            &&& count_spec(page.leechers) is Some
            &&& count_spec(page.completed) is Some
            &&& first_text(page.size) is Some
            &&& first_text(page.info_hash) is Some
            &&& uploader_spec(page.uploader) is Some
            &&& first_text(page.uploaded) is Some
        },
        page_complete(page) ==> page_result_spec(page, uploaded).id == n,
        page_complete(page) ==> page_result_spec(page, uploaded).nfo_link
            == "https://www3.yggtorrent.cool/engine/get_nfo?torrent="@ + decimal_spec(n as nat),
{
    lemma_after_first_separator(prefix, '=', decimal_spec(n as nat));
    lemma_decimal_parse_roundtrip(n as nat, u64::MAX as int);
}

} // verus!

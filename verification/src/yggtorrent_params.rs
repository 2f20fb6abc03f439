//! Search options of the tracker's search engine and the query string that
//! they add to a search URL.
use vstd::prelude::*;

use crate::text::{append_chars, chars_of, decimal_spec, string_of, write_decimal};

verus! {

/// Appends the characters of `s` to `out`.
fn append_str(out: &mut Vec<char>, s: &str)
    ensures
        final(out)@ == old(out)@ + s@,
{
    let v = chars_of(s);
    append_chars(out, v.as_slice());
}

/// A top-level category of the tracker; its number is the one that the
/// search engine expects.
#[derive(Clone, Copy, Debug, PartialEq, Eq, Structural)]
pub enum YggCategory {
    All,
    FilmVideo,
    Audio,
    Application,
    Jeux,
    Ebook,
    Print3D,
    Emulation,
    GPS,
    XXX,
}

impl YggCategory {
    /// The number of the category in the search engine.
    pub open spec fn value(self) -> u32 {
        match self {
            YggCategory::All => 0,
            YggCategory::FilmVideo => 2145,
            YggCategory::Audio => 2139,
            YggCategory::Application => 2144,
            YggCategory::Jeux => 2142,
            YggCategory::Ebook => 2140,
            YggCategory::Print3D => 2200,
            YggCategory::Emulation => 2141,
            YggCategory::GPS => 2143,
            YggCategory::XXX => 2188,
        }
    }

    /// The number of the category in the search engine.
    pub fn discriminant(&self) -> (res: u32)
        ensures
            res == self.value(),
    {
        match self {
            YggCategory::All => 0,
            YggCategory::FilmVideo => 2145,
            YggCategory::Audio => 2139,
            YggCategory::Application => 2144,
            YggCategory::Jeux => 2142,
            YggCategory::Ebook => 2140,
            YggCategory::Print3D => 2200,
            YggCategory::Emulation => 2141,
            YggCategory::GPS => 2143,
            YggCategory::XXX => 2188,
        }
    }

    /// The query parameter that selects this category.
    pub open spec fn base_url_spec(self) -> Seq<char> {
        if self.value() == 0 {
            "&category=all"@
        } else {
            "&category="@ + decimal_spec(self.value() as nat)
        }
    }

    /// The query parameter that selects this category: `&category=all` for
    /// `All`, otherwise `&category=` followed by its number.
    pub fn get_base_url(&self) -> (res: String)
        ensures
            res@ == self.base_url_spec(),
    {
        let value = self.discriminant();
        if value == 0 {
            let v = chars_of("&category=all");
            string_of(v.as_slice())
        } else {
            let mut v = chars_of("&category=");
            write_decimal(value as u64, &mut v);
            string_of(v.as_slice())
        }
    }

    /// The numbers of the subcategories that belong to this category, as an
    /// inclusive range.
    pub open spec fn subcategory_range(self) -> (u32, u32) {
        match self {
            YggCategory::FilmVideo => (2178, 2187),
            YggCategory::Audio => (2147, 2150),
            YggCategory::Application => (2171, 2177),
            YggCategory::Jeux => (2159, 2167),
            YggCategory::Ebook => (2151, 2156),
            YggCategory::Print3D => (2201, 2202),
            YggCategory::Emulation => (2157, 2158),
            YggCategory::GPS => (2168, 2170),
            YggCategory::XXX => (2189, 2402),
            YggCategory::All => (0, 0),
        }
    }

    /// Whether `subcategory` may be searched within this category: its number
    /// lies in the category's range, or it is `All`.
    pub open spec fn has_subcategory_spec(self, subcategory: YggSubCategory) -> bool {
        let (min, max) = self.subcategory_range();
        (min <= subcategory.value() && subcategory.value() <= max) || subcategory.value() == 0
    }

    /// Whether `subcategory` may be searched within this category.
    pub fn have_this_subcategory(&self, subcategory: &YggSubCategory) -> (res: bool)
        ensures
            res == self.has_subcategory_spec(*subcategory),
    {
        let min: u32;
        let max: u32;
        match self {
            YggCategory::FilmVideo => {
                min = 2178;
                max = 2187;
            },
            YggCategory::Audio => {
                min = 2147;
                max = 2150;
            },
            YggCategory::Application => {
                min = 2171;
                max = 2177;
            },
            YggCategory::Jeux => {
                min = 2159;
                max = 2167;
            },
            YggCategory::Ebook => {
                min = 2151;
                max = 2156;
            },
            YggCategory::Print3D => {
                min = 2201;
                max = 2202;
            },
            YggCategory::Emulation => {
                min = 2157;
                max = 2158;
            },
            YggCategory::GPS => {
                min = 2168;
                max = 2170;
            },
            YggCategory::XXX => {
                min = 2189;
                max = 2402;
            },
            YggCategory::All => {
                min = 0;
                max = 0;
            },
        }
        let value = subcategory.discriminant();
        (min <= value && value <= max) || value == 0
    }
}

/// A subcategory of the tracker; its number is the one that the search engine
/// expects.
#[derive(Clone, Copy, Debug, PartialEq, Eq, Structural)]
pub enum YggSubCategory {
    All,
    // FilmVideo (2178 to 2187)
    Animation,
    AnimationSerie,
    Concert,
    Documentaire,
    EmissionTV,
    Film,
    SerieTV,
    Spectacle,
    Sport,
    VideoClips,
    // Audio (2147 to 2150)
    Karaoke,
    Musique,
    PodcastRadio,
    Samples,
    // Application (2171 to 2177)
    AutreApplication,
    Formation,
    ApplicationLinux,
    ApplicationMacOS,
    ApplicationSmartphone,
    ApplicationTablette,
    ApplicationWindows,
    // Jeux (2159 to 2167)
    AutreJeux,
    JeuxLinux,
    JeuxMacOS,
    JeuxMicrosoft,
    JeuxNintendo,
    JeuxSmartphone,
    JeuxSony,
    JeuxTablette,
    JeuxWindows,
    // Ebook (2151 to 2156)
    Audio,
    Bds,
    Comics,
    Livres,
    Mangas,
    Presse,
    // Print3D (2201 to 2202)
    Objets,
    Personnages,
    // Emulation (2157 to 2158)
    Emulateurs,
    Roms,
    // GPS (2168 to 2170)
    Applications,
    Cartes,
    Divers,
    // XXX (2189 to 2402)
    Ebook,
    XXXfilm,
    Hentai,
    Image,
    Jeux,
}

impl YggSubCategory {
    /// The number of the subcategory in the search engine.
    pub open spec fn value(self) -> u32 {
        match self {
            YggSubCategory::All => 0,
            YggSubCategory::Animation => 2178,
            YggSubCategory::AnimationSerie => 2179,
            YggSubCategory::Concert => 2180,
            YggSubCategory::Documentaire => 2181,
            YggSubCategory::EmissionTV => 2182,
            YggSubCategory::Film => 2183,
            YggSubCategory::SerieTV => 2184,
            YggSubCategory::Spectacle => 2185,
            YggSubCategory::Sport => 2186,
            YggSubCategory::VideoClips => 2187,
            YggSubCategory::Karaoke => 2147,
            YggSubCategory::Musique => 2148,
            YggSubCategory::PodcastRadio => 2150,
            YggSubCategory::Samples => 2149,
            YggSubCategory::AutreApplication => 2177,
            YggSubCategory::Formation => 2176,
            YggSubCategory::ApplicationLinux => 2171,
            YggSubCategory::ApplicationMacOS => 2172,
            YggSubCategory::ApplicationSmartphone => 2174,
            YggSubCategory::ApplicationTablette => 2175,
            YggSubCategory::ApplicationWindows => 2173,
            YggSubCategory::AutreJeux => 2167,
            YggSubCategory::JeuxLinux => 2159,
            YggSubCategory::JeuxMacOS => 2160,
            YggSubCategory::JeuxMicrosoft => 2162,
            YggSubCategory::JeuxNintendo => 2163,
            YggSubCategory::JeuxSmartphone => 2165,
            YggSubCategory::JeuxSony => 2164,
            YggSubCategory::JeuxTablette => 2166,
            YggSubCategory::JeuxWindows => 2161,
            YggSubCategory::Audio => 2151,
            YggSubCategory::Bds => 2152,
            YggSubCategory::Comics => 2153,
            YggSubCategory::Livres => 2154,
            YggSubCategory::Mangas => 2155,
            YggSubCategory::Presse => 2156,
            YggSubCategory::Objets => 2201,
            YggSubCategory::Personnages => 2202,
            YggSubCategory::Emulateurs => 2157,
            YggSubCategory::Roms => 2158,
            YggSubCategory::Applications => 2168,
            YggSubCategory::Cartes => 2169,
            YggSubCategory::Divers => 2170,
            YggSubCategory::Ebook => 2401,
            YggSubCategory::XXXfilm => 2189,
            YggSubCategory::Hentai => 2190,
            YggSubCategory::Image => 2191,
            YggSubCategory::Jeux => 2402,
        }
    }

    /// The number of the subcategory in the search engine.
    pub fn discriminant(&self) -> (res: u32)
        ensures
            res == self.value(),
    {
        match self {
            YggSubCategory::All => 0,
            YggSubCategory::Animation => 2178,
            YggSubCategory::AnimationSerie => 2179,
            YggSubCategory::Concert => 2180,
            YggSubCategory::Documentaire => 2181,
            YggSubCategory::EmissionTV => 2182,
            YggSubCategory::Film => 2183,
            YggSubCategory::SerieTV => 2184,
            YggSubCategory::Spectacle => 2185,
            YggSubCategory::Sport => 2186,
            YggSubCategory::VideoClips => 2187,
            YggSubCategory::Karaoke => 2147,
            YggSubCategory::Musique => 2148,
            YggSubCategory::PodcastRadio => 2150,
            YggSubCategory::Samples => 2149,
            YggSubCategory::AutreApplication => 2177,
            YggSubCategory::Formation => 2176,
            YggSubCategory::ApplicationLinux => 2171,
            YggSubCategory::ApplicationMacOS => 2172,
            YggSubCategory::ApplicationSmartphone => 2174,
            YggSubCategory::ApplicationTablette => 2175,
            YggSubCategory::ApplicationWindows => 2173,
            YggSubCategory::AutreJeux => 2167,
            YggSubCategory::JeuxLinux => 2159,
            YggSubCategory::JeuxMacOS => 2160,
            YggSubCategory::JeuxMicrosoft => 2162,
            YggSubCategory::JeuxNintendo => 2163,
            YggSubCategory::JeuxSmartphone => 2165,
            YggSubCategory::JeuxSony => 2164,
            YggSubCategory::JeuxTablette => 2166,
            YggSubCategory::JeuxWindows => 2161,
            YggSubCategory::Audio => 2151,
            YggSubCategory::Bds => 2152,
            YggSubCategory::Comics => 2153,
            YggSubCategory::Livres => 2154,
            YggSubCategory::Mangas => 2155,
            YggSubCategory::Presse => 2156,
            YggSubCategory::Objets => 2201,
            YggSubCategory::Personnages => 2202,
            YggSubCategory::Emulateurs => 2157,
            YggSubCategory::Roms => 2158,
            YggSubCategory::Applications => 2168,
            YggSubCategory::Cartes => 2169,
            YggSubCategory::Divers => 2170,
            YggSubCategory::Ebook => 2401,
            YggSubCategory::XXXfilm => 2189,
            YggSubCategory::Hentai => 2190,
            YggSubCategory::Image => 2191,
            YggSubCategory::Jeux => 2402,
        }
    }

    /// The query parameter that selects this subcategory.
    pub open spec fn base_url_spec(self) -> Seq<char> {
        if self.value() == 0 {
            "&sub_category=all"@
        } else {
            "&sub_category="@ + decimal_spec(self.value() as nat)
        }
    }

    /// The query parameter that selects this subcategory: `&sub_category=all`
    /// for `All`, otherwise `&sub_category=` followed by its number.
    pub fn get_base_url(&self) -> (res: String)
        ensures
            res@ == self.base_url_spec(),
    {
        let value = self.discriminant();
        if value == 0 {
            let v = chars_of("&sub_category=all");
            string_of(v.as_slice())
        } else {
            let mut v = chars_of("&sub_category=");
            write_decimal(value as u64, &mut v);
            string_of(v.as_slice())
        }
    }

    /// Whether this subcategory may be searched within `category`.
    pub fn is_in_this_category(&self, category: YggCategory) -> (res: bool)
        ensures
            res == category.has_subcategory_spec(*self),
    {
        category.have_this_subcategory(self)
    }
}

/// The element by which search results are sorted.
#[derive(Clone, Copy, Debug, PartialEq, Eq, Structural)]
pub enum YggOrderElement {
    Commentaire,
    DatePublication,
    Taille,
    TelechargementComplet,
    Seed,
    Leech,
}

impl YggOrderElement {
    /// The position of the element in the declaration (0 to 5).
    pub open spec fn value(self) -> u32 {
        match self {
            YggOrderElement::Commentaire => 0,
            YggOrderElement::DatePublication => 1,
            YggOrderElement::Taille => 2,
            YggOrderElement::TelechargementComplet => 3,
            YggOrderElement::Seed => 4,
            YggOrderElement::Leech => 5,
        }
    }

    /// The position of the element in the declaration (0 to 5).
    pub fn discriminant(&self) -> (res: u32)
        ensures
            res == self.value(),
    {
        match self {
            YggOrderElement::Commentaire => 0,
            YggOrderElement::DatePublication => 1,
            YggOrderElement::Taille => 2,
            YggOrderElement::TelechargementComplet => 3,
            YggOrderElement::Seed => 4,
            YggOrderElement::Leech => 5,
        }
    }

    /// The query parameter that sorts by this element.
    pub open spec fn base_url_spec(self) -> Seq<char> {
        match self {
            YggOrderElement::Commentaire => "&sort=comments"@,
            YggOrderElement::DatePublication => "&sort=publish_date"@,
            YggOrderElement::Taille => "&sort=size"@,
            YggOrderElement::TelechargementComplet => "&sort=completed"@,
            YggOrderElement::Seed => "&sort=seed"@,
            YggOrderElement::Leech => "&sort=leech"@,
        }
    }

    /// The query parameter that sorts by this element.
    pub fn get_base_url(&self) -> (res: String)
        ensures
            res@ == self.base_url_spec(),
    {
        let s = match self {
            YggOrderElement::Commentaire => "&sort=comments",
            YggOrderElement::DatePublication => "&sort=publish_date",
            YggOrderElement::Taille => "&sort=size",
            YggOrderElement::TelechargementComplet => "&sort=completed",
            YggOrderElement::Seed => "&sort=seed",
            YggOrderElement::Leech => "&sort=leech",
        };
        let v = chars_of(s);
        string_of(v.as_slice())
    }
}

/// The direction in which search results are sorted.
#[derive(Clone, Copy, Debug, PartialEq, Eq, Structural)]
pub enum YggOrder {
    Ascendant,
    Descendant,
}

impl YggOrder {
    /// The position of the direction in the declaration (0 or 1).
    pub open spec fn value(self) -> u32 {
        match self {
            YggOrder::Ascendant => 0,
            YggOrder::Descendant => 1,
        }
    }

    /// The position of the direction in the declaration (0 or 1).
    pub fn discriminant(&self) -> (res: u32)
        ensures
            res == self.value(),
    {
        match self {
            YggOrder::Ascendant => 0,
            YggOrder::Descendant => 1,
        }
    }

    /// The query parameter that sorts in this direction.
    pub open spec fn base_url_spec(self) -> Seq<char> {
        match self {
            YggOrder::Ascendant => "&order=asc"@,
            YggOrder::Descendant => "&order=desc"@,
        }
    }

    /// The query parameter that sorts in this direction.
    pub fn get_base_url(&self) -> (res: String)
        ensures
            res@ == self.base_url_spec(),
    {
        let s = match self {
            YggOrder::Ascendant => "&order=asc",
            YggOrder::Descendant => "&order=desc",
        };
        let v = chars_of(s);
        string_of(v.as_slice())
    }
}

/// A season filter for series; `Num` goes up to 30.
#[derive(Clone, Copy, Debug, PartialEq, Eq, Structural)]
pub enum YggSaison {
    SerieIntegrale,
    HorsSaison,
    Nan,
    Num(u8),
}

/// An episode filter for series; `Num` goes up to 60.
#[derive(Clone, Copy, Debug, PartialEq, Eq, Structural)]
pub enum YggEpisode {
    SaisonComplete,
    Num(u8),
    Nan,
}

/// A quality filter.  The search engine's quality options are not offered
/// yet: the field is private, so no value can be made outside the library.
#[derive(Clone, Copy, Debug)]
pub struct YggQualite {
    none_yet: (),
}

/// The query parameter of a season filter: options 1 to 3 for the named
/// seasons, `d + 3` for season `d` up to 30, nothing above 30.
pub open spec fn saison_url_spec(saison: YggSaison) -> Seq<char> {
    match saison {
        YggSaison::SerieIntegrale => "&option_saison%5B%5D=1"@,
        YggSaison::HorsSaison => "&option_saison%5B%5D=2"@,
        YggSaison::Nan => "&option_saison%5B%5D=3"@,
        YggSaison::Num(d) => if d <= 30 {
            "&option_saison%5B%5D="@ + decimal_spec((d + 3) as nat)
        } else {
            Seq::<char>::empty()
        },
    }
}

/// The query parameter of an episode filter: option 1 for a complete season,
/// `d + 1` for episode `d` up to 60, 62 for `Nan`, nothing above 60.
pub open spec fn episode_url_spec(episode: YggEpisode) -> Seq<char> {
    match episode {
        YggEpisode::SaisonComplete => "&option_episode%5B%5D=1"@,
        YggEpisode::Num(d) => if d <= 60 {
            "&option_episode%5B%5D="@ + decimal_spec((d + 1) as nat)
        } else {
            Seq::<char>::empty()
        },
        YggEpisode::Nan => "&option_episode%5B%5D=62"@,
    }
}

/// The season filters of a list, one after the other.
pub open spec fn saisons_url_spec(saisons: Seq<YggSaison>) -> Seq<char>
    decreases saisons.len(),
{
    if saisons.len() == 0 {
        Seq::<char>::empty()
    } else {
        saisons_url_spec(saisons.drop_last()) + saison_url_spec(saisons.last())
    }
}

/// The episode filters of a list, one after the other.
pub open spec fn episodes_url_spec(episodes: Seq<YggEpisode>) -> Seq<char>
    decreases episodes.len(),
{
    if episodes.len() == 0 {
        Seq::<char>::empty()
    } else {
        episodes_url_spec(episodes.drop_last()) + episode_url_spec(episodes.last())
    }
}

/// The items of an optional list; an absent list has none.
pub open spec fn listed<T>(items: Option<Vec<T>>) -> Seq<T> {
    match items {
        Some(v) => v@,
        None => Seq::<T>::empty(),
    }
}

/// The options of a search.
#[derive(Debug, Clone)]
pub struct YggParams {
    pub category: YggCategory,
    pub subcategory: YggSubCategory,
    pub uploader: Option<&'static str>,
    pub order: Option<(YggOrder, YggOrderElement)>,
    pub other: Option<String>,
}

impl Default for YggParams {
    /// All categories and subcategories, no uploader, no order, no other
    /// option.
    fn default() -> (res: YggParams)
        ensures
            res.category == YggCategory::All,
            res.subcategory == YggSubCategory::All,
            res.uploader is None,
            res.order is None,
            res.other is None,
    {
        YggParams {
            category: YggCategory::All,
            subcategory: YggSubCategory::All,
            uploader: None,
            order: None,
            other: None,
        }
    }
}

impl YggParams {
    /// The uploader parameter: `&uploader=` and the name, or nothing.
    pub open spec fn uploader_url_spec(self) -> Seq<char> {
        match self.uploader {
            Some(name) => "&uploader="@ + name@,
            None => Seq::<char>::empty(),
        }
    }

    /// The order parameters: direction then element, or nothing.
    pub open spec fn order_url_spec(self) -> Seq<char> {
        match self.order {
            Some((direction, element)) => direction.base_url_spec() + element.base_url_spec(),
            None => Seq::<char>::empty(),
        }
    }

    /// The other options, as given.
    pub open spec fn other_url_spec(self) -> Seq<char> {
        match self.other {
            Some(other) => other@,
            None => Seq::<char>::empty(),
        }
    }

    /// The subcategory that the query selects: the chosen one where it
    /// belongs to the category, otherwise `All`.
    pub open spec fn effective_subcategory(self) -> YggSubCategory {
        if self.category.has_subcategory_spec(self.subcategory) {
            self.subcategory
        } else {
            YggSubCategory::All
        }
    }

    /// The query string of these options: category, subcategory, uploader,
    /// order, then the other options.
    pub open spec fn options_url_spec(self) -> Seq<char> {
        self.category.base_url_spec() + self.effective_subcategory().base_url_spec()
            + self.uploader_url_spec() + self.order_url_spec() + self.other_url_spec()
    }

    /// The query string of these options.
    pub fn get_options_url(&self) -> (res: String)
        ensures
            res@ == self.options_url_spec(),
    {
        let mut v: Vec<char> = Vec::new();
        append_str(&mut v, self.category.get_base_url().as_str());
        if self.category.have_this_subcategory(&self.subcategory) {
            append_str(&mut v, self.subcategory.get_base_url().as_str());
        } else {
            append_str(&mut v, YggSubCategory::All.get_base_url().as_str());
        }
        append_str(&mut v, self.get_uploader_base_url().as_str());
        append_str(&mut v, self.get_order_base_url().as_str());
        match &self.other {
            Some(other) => append_str(&mut v, other.as_str()),
            None => {},
        }
        string_of(v.as_slice())
    }

    /// `base_url` followed by the query string of these options.
    pub fn concat_to_url(&self, base_url: &str) -> (res: String)
        ensures
            res@ == base_url@ + self.options_url_spec(),
    {
        let mut v = chars_of(base_url);
        append_str(&mut v, self.get_options_url().as_str());
        string_of(v.as_slice())
    }

    /// The uploader parameter.
    pub fn get_uploader_base_url(&self) -> (res: String)
        ensures
            res@ == self.uploader_url_spec(),
    {
        match self.uploader {
            Some(name) => {
                let mut v = chars_of("&uploader=");
                append_str(&mut v, name);
                string_of(v.as_slice())
            },
            None => String::new(),
        }
    }

    /// The order parameters.
    pub fn get_order_base_url(&self) -> (res: String)
        ensures
            res@ == self.order_url_spec(),
    {
        match self.order {
            Some((direction, element)) => {
                let mut v: Vec<char> = Vec::new();
                append_str(&mut v, direction.get_base_url().as_str());
                append_str(&mut v, element.get_base_url().as_str());
                string_of(v.as_slice())
            },
            None => String::new(),
        }
    }

    /// The query parameter of a season filter.
    pub fn get_base_url_saison(saison: YggSaison) -> (res: String)
        ensures
            res@ == saison_url_spec(saison),
    {
        let mut v: Vec<char> = Vec::new();
        match saison {
            YggSaison::SerieIntegrale => append_str(&mut v, "&option_saison%5B%5D=1"),
            YggSaison::HorsSaison => append_str(&mut v, "&option_saison%5B%5D=2"),
            YggSaison::Nan => append_str(&mut v, "&option_saison%5B%5D=3"),
            YggSaison::Num(d) => {
                if d <= 30 {
                    append_str(&mut v, "&option_saison%5B%5D=");
                    write_decimal((d + 3) as u64, &mut v);
                }
            },
        }
        string_of(v.as_slice())
    }

    /// The query parameter of an episode filter.
    pub fn get_base_url_episode(episode: YggEpisode) -> (res: String)
        ensures
            res@ == episode_url_spec(episode),
    {
        let mut v: Vec<char> = Vec::new();
        match episode {
            YggEpisode::SaisonComplete => append_str(&mut v, "&option_episode%5B%5D=1"),
            YggEpisode::Num(d) => {
                if d <= 60 {
                    append_str(&mut v, "&option_episode%5B%5D=");
                    write_decimal((d + 1) as u64, &mut v);
                }
            },
            YggEpisode::Nan => append_str(&mut v, "&option_episode%5B%5D=62"),
        }
        string_of(v.as_slice())
    }

    /// Whether the options search series: the category is `FilmVideo` and
    /// the subcategory `SerieTV`, `AnimationSerie` or `EmissionTV`.
    pub open spec fn searches_series(self) -> bool {
        self.category == YggCategory::FilmVideo && (self.subcategory == YggSubCategory::SerieTV
            || self.subcategory == YggSubCategory::AnimationSerie || self.subcategory
            == YggSubCategory::EmissionTV)
    }

    /// The season and episode filters for series: the season filters then the
    /// episode filters, in the order given, where the options search series;
    /// nothing otherwise.
    pub open spec fn other_serie_spec(self, saisons: Seq<YggSaison>, episodes: Seq<YggEpisode>) -> Seq<char> {
        if self.searches_series() {
            saisons_url_spec(saisons) + episodes_url_spec(episodes)
        } else {
            Seq::<char>::empty()
        }
    }

    /// The season and episode filters for series, to be set as `other`.
    pub fn create_other_serie(
        &self,
        saisons: Option<Vec<YggSaison>>,
        episodes: Option<Vec<YggEpisode>>,
    ) -> (res: String)
        ensures
            res@ == self.other_serie_spec(listed(saisons), listed(episodes)),
    {
        let mut v: Vec<char> = Vec::new();
        if self.category == YggCategory::FilmVideo && (self.subcategory == YggSubCategory::SerieTV
            || self.subcategory == YggSubCategory::AnimationSerie || self.subcategory
            == YggSubCategory::EmissionTV) {
            match saisons {
                Some(list) => {
                    let mut i: usize = 0;
                    while i < list.len()
                        invariant
                            i <= list@.len(),
                            v@ == saisons_url_spec(list@.take(i as int)),
                        decreases list@.len() - i,
                    {
                        let part = Self::get_base_url_saison(list[i]);
                        append_str(&mut v, part.as_str());
                        assert(list@.take(i + 1).drop_last() == list@.take(i as int));
                        i = i + 1;
                    }
                    assert(list@.take(list@.len() as int) == list@);
                },
                None => {},
            }
            let ghost seasons_part = v@;
            match episodes {
                Some(list) => {
                    let mut i: usize = 0;
                    while i < list.len()
                        invariant
                            i <= list@.len(),
                            v@ == seasons_part + episodes_url_spec(list@.take(i as int)),
                        decreases list@.len() - i,
                    {
                        let part = Self::get_base_url_episode(list[i]);
                        append_str(&mut v, part.as_str());
                        assert(list@.take(i + 1).drop_last() == list@.take(i as int));
                        i = i + 1;
                    }
                    assert(list@.take(list@.len() as int) == list@);
                },
                None => {
                    assert(v@ == seasons_part + Seq::<char>::empty());
                },
            }
        }
        string_of(v.as_slice())
    }

    /// The quality filters, to be set as `other`: the search engine's quality
    /// options are not offered yet, so this is always empty.
    pub fn create_other_qualite(&self, qualites: Vec<YggQualite>) -> (res: String)
        ensures
            res@ == Seq::<char>::empty(),
    {
        String::new()
    }
}

/// The `All` subcategory may be searched within every category.
pub proof fn lemma_all_subcategory_in_every_category(category: YggCategory)
    ensures
        category.has_subcategory_spec(YggSubCategory::All),
{
}

/// A subcategory that does not belong to the chosen category is ignored:
/// the query string is the one of the same options with the `All`
/// subcategory.
pub proof fn lemma_foreign_subcategory_ignored(params: YggParams, other: YggParams)
    requires
        !params.category.has_subcategory_spec(params.subcategory),
        other.category == params.category,
        other.subcategory == YggSubCategory::All,
        other.uploader == params.uploader,
        other.order == params.order,
        other.other == params.other,
    ensures
        params.options_url_spec() == other.options_url_spec(),
{
}

/// Options that do not search series get no season or episode filter,
/// whatever seasons and episodes are asked for.
pub proof fn lemma_series_filters_need_series(
    params: YggParams,
    saisons: Seq<YggSaison>,
    episodes: Seq<YggEpisode>,
)
    requires
        !params.searches_series(),
    ensures
        params.other_serie_spec(saisons, episodes) == Seq::<char>::empty(),
{
}

/// The category under which the tracker lists each subcategory; `All`
/// belongs to none in particular.
pub open spec fn listed_category(subcategory: YggSubCategory) -> Option<YggCategory> {
    match subcategory {
        YggSubCategory::All => None,
        YggSubCategory::Animation
        | YggSubCategory::AnimationSerie
        | YggSubCategory::Concert
        | YggSubCategory::Documentaire
        | YggSubCategory::EmissionTV
        | YggSubCategory::Film
        | YggSubCategory::SerieTV
        | YggSubCategory::Spectacle
        | YggSubCategory::Sport
        | YggSubCategory::VideoClips => Some(YggCategory::FilmVideo),
        YggSubCategory::Karaoke
        | YggSubCategory::Musique
        | YggSubCategory::PodcastRadio
        | YggSubCategory::Samples => Some(YggCategory::Audio),
        YggSubCategory::AutreApplication
        | YggSubCategory::Formation
        | YggSubCategory::ApplicationLinux
        | YggSubCategory::ApplicationMacOS
        | YggSubCategory::ApplicationSmartphone
        | YggSubCategory::ApplicationTablette
        | YggSubCategory::ApplicationWindows => Some(YggCategory::Application),
        YggSubCategory::AutreJeux
        | YggSubCategory::JeuxLinux
        | YggSubCategory::JeuxMacOS
        | YggSubCategory::JeuxMicrosoft
        | YggSubCategory::JeuxNintendo
        | YggSubCategory::JeuxSmartphone
        | YggSubCategory::JeuxSony
        | YggSubCategory::JeuxTablette
        | YggSubCategory::JeuxWindows => Some(YggCategory::Jeux),
        YggSubCategory::Audio
        | YggSubCategory::Bds
        | YggSubCategory::Comics
        | YggSubCategory::Livres
        | YggSubCategory::Mangas
        | YggSubCategory::Presse => Some(YggCategory::Ebook),
        YggSubCategory::Objets
        | YggSubCategory::Personnages => Some(YggCategory::Print3D),
        YggSubCategory::Emulateurs
        | YggSubCategory::Roms => Some(YggCategory::Emulation),
        YggSubCategory::Applications
        | YggSubCategory::Cartes
        | YggSubCategory::Divers => Some(YggCategory::GPS),
        YggSubCategory::Ebook
        | YggSubCategory::XXXfilm
        | YggSubCategory::Hentai
        | YggSubCategory::Image
        | YggSubCategory::Jeux => Some(YggCategory::XXX),
    }
}

/// The subcategory that the search engine numbers `number`.
pub open spec fn subcategory_numbered(number: u32) -> Option<YggSubCategory> {
    if number == 0 {
        Some(YggSubCategory::All)
    } else if number == 2178 {
        Some(YggSubCategory::Animation)
    } else if number == 2179 {
        Some(YggSubCategory::AnimationSerie)
    } else if number == 2180 {
        Some(YggSubCategory::Concert)
    } else if number == 2181 {
        Some(YggSubCategory::Documentaire)
    } else if number == 2182 {
        Some(YggSubCategory::EmissionTV)
    } else if number == 2183 {
        Some(YggSubCategory::Film)
    } else if number == 2184 {
        Some(YggSubCategory::SerieTV)
    } else if number == 2185 {
        Some(YggSubCategory::Spectacle)
    } else if number == 2186 {
        Some(YggSubCategory::Sport)
    } else if number == 2187 {
        Some(YggSubCategory::VideoClips)
    } else if number == 2147 {
        Some(YggSubCategory::Karaoke)
    } else if number == 2148 {
        Some(YggSubCategory::Musique)
    } else if number == 2150 {
        Some(YggSubCategory::PodcastRadio)
    } else if number == 2149 {
        Some(YggSubCategory::Samples)
    } else if number == 2177 {
        Some(YggSubCategory::AutreApplication)
    } else if number == 2176 {
        Some(YggSubCategory::Formation)
    } else if number == 2171 {
        Some(YggSubCategory::ApplicationLinux)
    } else if number == 2172 {
        Some(YggSubCategory::ApplicationMacOS)
    } else if number == 2174 {
        Some(YggSubCategory::ApplicationSmartphone)
    } else if number == 2175 {
        Some(YggSubCategory::ApplicationTablette)
    } else if number == 2173 {
        Some(YggSubCategory::ApplicationWindows)
    } else if number == 2167 {
        Some(YggSubCategory::AutreJeux)
    } else if number == 2159 {
        Some(YggSubCategory::JeuxLinux)
    } else if number == 2160 {
        Some(YggSubCategory::JeuxMacOS)
    } else if number == 2162 {
        Some(YggSubCategory::JeuxMicrosoft)
    } else if number == 2163 {
        Some(YggSubCategory::JeuxNintendo)
    } else if number == 2165 {
        Some(YggSubCategory::JeuxSmartphone)
    } else if number == 2164 {
        Some(YggSubCategory::JeuxSony)
    } else if number == 2166 {
        Some(YggSubCategory::JeuxTablette)
    } else if number == 2161 {
        Some(YggSubCategory::JeuxWindows)
    } else if number == 2151 {
        Some(YggSubCategory::Audio)
    } else if number == 2152 {
        Some(YggSubCategory::Bds)
    } else if number == 2153 {
        Some(YggSubCategory::Comics)
    } else if number == 2154 {
        Some(YggSubCategory::Livres)
    } else if number == 2155 {
        Some(YggSubCategory::Mangas)
    } else if number == 2156 {
        Some(YggSubCategory::Presse)
    } else if number == 2201 {
        Some(YggSubCategory::Objets)
    } else if number == 2202 {
        Some(YggSubCategory::Personnages)
    } else if number == 2157 {
        Some(YggSubCategory::Emulateurs)
    } else if number == 2158 {
        Some(YggSubCategory::Roms)
    } else if number == 2168 {
        Some(YggSubCategory::Applications)
    } else if number == 2169 {
        Some(YggSubCategory::Cartes)
    } else if number == 2170 {
        Some(YggSubCategory::Divers)
    } else if number == 2401 {
        Some(YggSubCategory::Ebook)
    } else if number == 2189 {
        Some(YggSubCategory::XXXfilm)
    } else if number == 2190 {
        Some(YggSubCategory::Hentai)
    } else if number == 2191 {
        Some(YggSubCategory::Image)
    } else if number == 2402 {
        Some(YggSubCategory::Jeux)
    } else {
        None
    }
}

/// The category that the search engine numbers `number`.
pub open spec fn category_numbered(number: u32) -> Option<YggCategory> {
    if number == 0 {
        Some(YggCategory::All)
    } else if number == 2145 {
        Some(YggCategory::FilmVideo)
    } else if number == 2139 {
        Some(YggCategory::Audio)
    } else if number == 2144 {
        Some(YggCategory::Application)
    } else if number == 2142 {
        Some(YggCategory::Jeux)
    } else if number == 2140 {
        Some(YggCategory::Ebook)
    } else if number == 2200 {
        Some(YggCategory::Print3D)
    } else if number == 2141 {
        Some(YggCategory::Emulation)
    } else if number == 2143 {
        Some(YggCategory::GPS)
    } else if number == 2188 {
        Some(YggCategory::XXX)
    } else {
        None
    }
}

/// The search engine's numbers of the subcategories.
pub proof fn lemma_subcategory_numbers()
    ensures
        YggSubCategory::All.value() == 0,
        YggSubCategory::Animation.value() == 2178,
        YggSubCategory::AnimationSerie.value() == 2179,
        YggSubCategory::Concert.value() == 2180,
        YggSubCategory::Documentaire.value() == 2181,
        YggSubCategory::EmissionTV.value() == 2182,
        YggSubCategory::Film.value() == 2183,
        YggSubCategory::SerieTV.value() == 2184,
        YggSubCategory::Spectacle.value() == 2185,
        YggSubCategory::Sport.value() == 2186,
        YggSubCategory::VideoClips.value() == 2187,
        YggSubCategory::Karaoke.value() == 2147,
        YggSubCategory::Musique.value() == 2148,
        YggSubCategory::PodcastRadio.value() == 2150,
        YggSubCategory::Samples.value() == 2149,
        YggSubCategory::AutreApplication.value() == 2177,
        YggSubCategory::Formation.value() == 2176,
        YggSubCategory::ApplicationLinux.value() == 2171,
        YggSubCategory::ApplicationMacOS.value() == 2172,
        YggSubCategory::ApplicationSmartphone.value() == 2174,
        YggSubCategory::ApplicationTablette.value() == 2175,
        YggSubCategory::ApplicationWindows.value() == 2173,
        YggSubCategory::AutreJeux.value() == 2167,
        YggSubCategory::JeuxLinux.value() == 2159,
        YggSubCategory::JeuxMacOS.value() == 2160,
        YggSubCategory::JeuxMicrosoft.value() == 2162,
        YggSubCategory::JeuxNintendo.value() == 2163,
        YggSubCategory::JeuxSmartphone.value() == 2165,
        YggSubCategory::JeuxSony.value() == 2164,
        YggSubCategory::JeuxTablette.value() == 2166,
        YggSubCategory::JeuxWindows.value() == 2161,
        YggSubCategory::Audio.value() == 2151,
        YggSubCategory::Bds.value() == 2152,
        YggSubCategory::Comics.value() == 2153,
        YggSubCategory::Livres.value() == 2154,
        YggSubCategory::Mangas.value() == 2155,
        YggSubCategory::Presse.value() == 2156,
        YggSubCategory::Objets.value() == 2201,
        YggSubCategory::Personnages.value() == 2202,
        YggSubCategory::Emulateurs.value() == 2157,
        YggSubCategory::Roms.value() == 2158,
        YggSubCategory::Applications.value() == 2168,
        YggSubCategory::Cartes.value() == 2169,
        YggSubCategory::Divers.value() == 2170,
        YggSubCategory::Ebook.value() == 2401,
        YggSubCategory::XXXfilm.value() == 2189,
        YggSubCategory::Hentai.value() == 2190,
        YggSubCategory::Image.value() == 2191,
        YggSubCategory::Jeux.value() == 2402,
{
}

/// The search engine's numbers of the categories.
pub proof fn lemma_category_numbers()
    ensures
        YggCategory::All.value() == 0,
        YggCategory::FilmVideo.value() == 2145,
        YggCategory::Audio.value() == 2139,
        YggCategory::Application.value() == 2144,
        YggCategory::Jeux.value() == 2142,
        YggCategory::Ebook.value() == 2140,
        YggCategory::Print3D.value() == 2200,
        YggCategory::Emulation.value() == 2141,
        YggCategory::GPS.value() == 2143,
        YggCategory::XXX.value() == 2188,
{
}

/// Each subcategory's number names it back.
proof fn lemma_subcategory_number_names_it(subcategory: YggSubCategory)
    ensures
        subcategory_numbered(subcategory.value()) == Some(subcategory),
{
    match subcategory {
        YggSubCategory::All => {},
        YggSubCategory::Animation => {},
        YggSubCategory::AnimationSerie => {},
        YggSubCategory::Concert => {},
        YggSubCategory::Documentaire => {},
        YggSubCategory::EmissionTV => {},
        YggSubCategory::Film => {},
        YggSubCategory::SerieTV => {},
        YggSubCategory::Spectacle => {},
        YggSubCategory::Sport => {},
        YggSubCategory::VideoClips => {},
        YggSubCategory::Karaoke => {},
        YggSubCategory::Musique => {},
        YggSubCategory::PodcastRadio => {},
        YggSubCategory::Samples => {},
        YggSubCategory::AutreApplication => {},
        YggSubCategory::Formation => {},
        YggSubCategory::ApplicationLinux => {},
        YggSubCategory::ApplicationMacOS => {},
        YggSubCategory::ApplicationSmartphone => {},
        YggSubCategory::ApplicationTablette => {},
        YggSubCategory::ApplicationWindows => {},
        YggSubCategory::AutreJeux => {},
        YggSubCategory::JeuxLinux => {},
        YggSubCategory::JeuxMacOS => {},
        YggSubCategory::JeuxMicrosoft => {},
        YggSubCategory::JeuxNintendo => {},
        YggSubCategory::JeuxSmartphone => {},
        YggSubCategory::JeuxSony => {},
        YggSubCategory::JeuxTablette => {},
        YggSubCategory::JeuxWindows => {},
        YggSubCategory::Audio => {},
        YggSubCategory::Bds => {},
        YggSubCategory::Comics => {},
        YggSubCategory::Livres => {},
        YggSubCategory::Mangas => {},
        YggSubCategory::Presse => {},
        YggSubCategory::Objets => {},
        YggSubCategory::Personnages => {},
        YggSubCategory::Emulateurs => {},
        YggSubCategory::Roms => {},
        YggSubCategory::Applications => {},
        YggSubCategory::Cartes => {},
        YggSubCategory::Divers => {},
        YggSubCategory::Ebook => {},
        YggSubCategory::XXXfilm => {},
        YggSubCategory::Hentai => {},
        YggSubCategory::Image => {},
        YggSubCategory::Jeux => {},
    }
}

/// Each category's number names it back.
proof fn lemma_category_number_names_it(category: YggCategory)
    ensures
        category_numbered(category.value()) == Some(category),
{
    match category {
        YggCategory::All => {},
        YggCategory::FilmVideo => {},
        YggCategory::Audio => {},
        YggCategory::Application => {},
        YggCategory::Jeux => {},
        YggCategory::Ebook => {},
        YggCategory::Print3D => {},
        YggCategory::Emulation => {},
        YggCategory::GPS => {},
        YggCategory::XXX => {},
    }
}

/// Distinct subcategories have distinct numbers, so the query string names
/// the subcategory that was chosen and no other.
pub proof fn lemma_subcategory_numbers_distinct(a: YggSubCategory, b: YggSubCategory)
    ensures
        a.value() == b.value() ==> a == b,
{
    lemma_subcategory_number_names_it(a);
    lemma_subcategory_number_names_it(b);
}

/// Distinct categories have distinct numbers, so the query string names the
/// category that was chosen and no other.
pub proof fn lemma_category_numbers_distinct(a: YggCategory, b: YggCategory)
    ensures
        a.value() == b.value() ==> a == b,
{
    lemma_category_number_names_it(a);
    lemma_category_number_names_it(b);
}

/// Every subcategory listed under a category belongs to it: options with
/// that category and subcategory keep the subcategory, whose number follows
/// `&sub_category=` in the query string.
pub proof fn lemma_listed_subcategory_is_kept(params: YggParams)
    requires
        listed_category(params.subcategory) == Some(params.category),
    ensures
        params.category.has_subcategory_spec(params.subcategory),
        params.effective_subcategory() == params.subcategory,
        params.options_url_spec() == params.category.base_url_spec() + "&sub_category="@
            + decimal_spec(params.subcategory.value() as nat) + params.uploader_url_spec()
            + params.order_url_spec() + params.other_url_spec(),
{
    match params.subcategory {
        YggSubCategory::All => {},
        YggSubCategory::Animation => {},
        YggSubCategory::AnimationSerie => {},
        YggSubCategory::Concert => {},
        YggSubCategory::Documentaire => {},
        YggSubCategory::EmissionTV => {},
        YggSubCategory::Film => {},
        YggSubCategory::SerieTV => {},
        YggSubCategory::Spectacle => {},
        YggSubCategory::Sport => {},
        YggSubCategory::VideoClips => {},
        YggSubCategory::Karaoke => {},
        YggSubCategory::Musique => {},
        YggSubCategory::PodcastRadio => {},
        YggSubCategory::Samples => {},
        YggSubCategory::AutreApplication => {},
        YggSubCategory::Formation => {},
        YggSubCategory::ApplicationLinux => {},
        YggSubCategory::ApplicationMacOS => {},
        YggSubCategory::ApplicationSmartphone => {},
        YggSubCategory::ApplicationTablette => {},
        YggSubCategory::ApplicationWindows => {},
        YggSubCategory::AutreJeux => {},
        YggSubCategory::JeuxLinux => {},
        YggSubCategory::JeuxMacOS => {},
        YggSubCategory::JeuxMicrosoft => {},
        YggSubCategory::JeuxNintendo => {},
        YggSubCategory::JeuxSmartphone => {},
        YggSubCategory::JeuxSony => {},
        YggSubCategory::JeuxTablette => {},
        YggSubCategory::JeuxWindows => {},
        YggSubCategory::Audio => {},
        YggSubCategory::Bds => {},
        YggSubCategory::Comics => {},
        YggSubCategory::Livres => {},
        YggSubCategory::Mangas => {},
        YggSubCategory::Presse => {},
        YggSubCategory::Objets => {},
        YggSubCategory::Personnages => {},
        YggSubCategory::Emulateurs => {},
        YggSubCategory::Roms => {},
        YggSubCategory::Applications => {},
        YggSubCategory::Cartes => {},
        YggSubCategory::Divers => {},
        YggSubCategory::Ebook => {},
        YggSubCategory::XXXfilm => {},
        YggSubCategory::Hentai => {},
        YggSubCategory::Image => {},
        YggSubCategory::Jeux => {},
    }
}

/// Options searching series (category `FilmVideo` with subcategory
/// `SerieTV`, `AnimationSerie` or `EmissionTV`) get the season filters then
/// the episode filters asked for.
pub proof fn lemma_series_get_filters(
    params: YggParams,
    saisons: Seq<YggSaison>,
    episodes: Seq<YggEpisode>,
)
    requires
        params.category == YggCategory::FilmVideo,
        params.subcategory == YggSubCategory::SerieTV || params.subcategory
            == YggSubCategory::AnimationSerie || params.subcategory == YggSubCategory::EmissionTV,
    ensures
        params.other_serie_spec(saisons, episodes) == saisons_url_spec(saisons) + episodes_url_spec(
            episodes,
        ),
{
}

} // verus!

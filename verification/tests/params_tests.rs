use yggtorrent::yggtorrent_params::{
    YggCategory, YggEpisode, YggOrder, YggOrderElement, YggParams, YggSaison, YggSubCategory,
};

#[test]
fn category_urls() {
    assert_eq!(YggCategory::All.get_base_url(), "&category=all");
    assert_eq!(YggCategory::FilmVideo.get_base_url(), "&category=2145");
    assert_eq!(YggCategory::XXX.get_base_url(), "&category=2188");
    assert_eq!(YggCategory::Print3D.discriminant(), 2200);
}

#[test]
fn subcategory_urls() {
    assert_eq!(YggSubCategory::All.get_base_url(), "&sub_category=all");
    assert_eq!(YggSubCategory::SerieTV.get_base_url(), "&sub_category=2184");
    assert_eq!(YggSubCategory::Personnages.get_base_url(), "&sub_category=2202");
    assert_eq!(YggSubCategory::Jeux.discriminant(), 2402);
}

#[test]
fn subcategory_membership() {
    assert!(YggCategory::FilmVideo.have_this_subcategory(&YggSubCategory::SerieTV));
    assert!(YggCategory::FilmVideo.have_this_subcategory(&YggSubCategory::Animation));
    assert!(YggCategory::FilmVideo.have_this_subcategory(&YggSubCategory::VideoClips));
    assert!(!YggCategory::Audio.have_this_subcategory(&YggSubCategory::SerieTV));
    assert!(YggCategory::Audio.have_this_subcategory(&YggSubCategory::PodcastRadio));
    assert!(YggCategory::Application.have_this_subcategory(&YggSubCategory::ApplicationLinux));
    assert!(YggCategory::Application.have_this_subcategory(&YggSubCategory::AutreApplication));
    assert!(!YggCategory::Application.have_this_subcategory(&YggSubCategory::Karaoke));
    assert!(YggCategory::Print3D.have_this_subcategory(&YggSubCategory::Objets));
    assert!(YggCategory::Print3D.have_this_subcategory(&YggSubCategory::Personnages));
    assert!(!YggCategory::Print3D.have_this_subcategory(&YggSubCategory::Cartes));
    assert!(YggCategory::XXX.have_this_subcategory(&YggSubCategory::Jeux));
    assert!(!YggCategory::All.have_this_subcategory(&YggSubCategory::Film));
}

#[test]
fn all_subcategory_in_every_category() {
    for category in [
        YggCategory::All,
        YggCategory::FilmVideo,
        YggCategory::Audio,
        YggCategory::Application,
        YggCategory::Jeux,
        YggCategory::Ebook,
        YggCategory::Print3D,
        YggCategory::Emulation,
        YggCategory::GPS,
        YggCategory::XXX,
    ] {
        assert!(category.have_this_subcategory(&YggSubCategory::All));
    }
}

#[test]
fn is_in_this_category_follows_category() {
    assert!(YggSubCategory::Roms.is_in_this_category(YggCategory::Emulation));
    assert!(!YggSubCategory::Roms.is_in_this_category(YggCategory::GPS));
    assert!(YggSubCategory::Cartes.is_in_this_category(YggCategory::GPS));
}

#[test]
fn order_urls() {
    assert_eq!(YggOrder::Ascendant.get_base_url(), "&order=asc");
    assert_eq!(YggOrder::Descendant.get_base_url(), "&order=desc");
    assert_eq!(YggOrderElement::Commentaire.get_base_url(), "&sort=comments");
    assert_eq!(YggOrderElement::DatePublication.get_base_url(), "&sort=publish_date");
    assert_eq!(YggOrderElement::Taille.get_base_url(), "&sort=size");
    assert_eq!(YggOrderElement::TelechargementComplet.get_base_url(), "&sort=completed");
    assert_eq!(YggOrderElement::Seed.get_base_url(), "&sort=seed");
    assert_eq!(YggOrderElement::Leech.get_base_url(), "&sort=leech");
    assert_eq!(YggOrderElement::Leech.discriminant(), 5);
}

#[test]
fn default_options_url() {
    let options = YggParams::default();
    assert_eq!(options.get_options_url(), "&category=all&sub_category=all");
    assert_eq!(options.get_uploader_base_url(), "");
    assert_eq!(options.get_order_base_url(), "");
}

#[test]
fn series_options_url() {
    let mut options = YggParams::default();
    options.category = YggCategory::FilmVideo;
    options.subcategory = YggSubCategory::SerieTV;
    options.uploader = Some("bob");
    options.order = Some((YggOrder::Ascendant, YggOrderElement::TelechargementComplet));
    options.other =
        Some(options.create_other_serie(Some(vec![YggSaison::Num(1), YggSaison::Num(2)]), None));
    assert_eq!(
        options.get_options_url(),
        "&category=2145&sub_category=2184&uploader=bob&order=asc&sort=completed&option_saison%5B%5D=4&option_saison%5B%5D=5"
    );
}

#[test]
fn foreign_subcategory_is_ignored() {
    let mut options = YggParams::default();
    options.category = YggCategory::Audio;
    options.subcategory = YggSubCategory::SerieTV;
    assert_eq!(options.get_options_url(), "&category=2139&sub_category=all");
}

#[test]
fn concat_appends_options() {
    let mut options = YggParams::default();
    options.category = YggCategory::Ebook;
    options.subcategory = YggSubCategory::Mangas;
    options.order = Some((YggOrder::Descendant, YggOrderElement::Seed));
    assert_eq!(
        options.concat_to_url("https://host/search?q=x"),
        "https://host/search?q=x&category=2140&sub_category=2155&order=desc&sort=seed"
    );
}

#[test]
fn season_and_episode_filters() {
    assert_eq!(YggParams::get_base_url_saison(YggSaison::SerieIntegrale), "&option_saison%5B%5D=1");
    assert_eq!(YggParams::get_base_url_saison(YggSaison::HorsSaison), "&option_saison%5B%5D=2");
    assert_eq!(YggParams::get_base_url_saison(YggSaison::Nan), "&option_saison%5B%5D=3");
    assert_eq!(YggParams::get_base_url_saison(YggSaison::Num(0)), "&option_saison%5B%5D=3");
    assert_eq!(YggParams::get_base_url_saison(YggSaison::Num(30)), "&option_saison%5B%5D=33");
    assert_eq!(YggParams::get_base_url_saison(YggSaison::Num(31)), "");
    assert_eq!(YggParams::get_base_url_episode(YggEpisode::SaisonComplete), "&option_episode%5B%5D=1");
    assert_eq!(YggParams::get_base_url_episode(YggEpisode::Num(60)), "&option_episode%5B%5D=61");
    assert_eq!(YggParams::get_base_url_episode(YggEpisode::Num(61)), "");
    assert_eq!(YggParams::get_base_url_episode(YggEpisode::Nan), "&option_episode%5B%5D=62");
}

#[test]
fn series_filters_in_order() {
    let mut options = YggParams::default();
    options.category = YggCategory::FilmVideo;
    options.subcategory = YggSubCategory::AnimationSerie;
    let other = options.create_other_serie(
        Some(vec![YggSaison::HorsSaison, YggSaison::Num(40)]),
        Some(vec![YggEpisode::Num(2), YggEpisode::Nan]),
    );
    assert_eq!(
        other,
        "&option_saison%5B%5D=2&option_episode%5B%5D=3&option_episode%5B%5D=62"
    );
}

#[test]
fn series_filters_need_series() {
    let mut options = YggParams::default();
    options.category = YggCategory::FilmVideo;
    options.subcategory = YggSubCategory::Film;
    assert_eq!(options.create_other_serie(Some(vec![YggSaison::Num(1)]), None), "");
    options.category = YggCategory::Audio;
    options.subcategory = YggSubCategory::SerieTV;
    assert_eq!(options.create_other_serie(Some(vec![YggSaison::Num(1)]), None), "");
    options.category = YggCategory::FilmVideo;
    options.subcategory = YggSubCategory::EmissionTV;
    assert_eq!(options.create_other_serie(None, None), "");
}

#[test]
fn quality_filters_are_empty() {
    let mut options = YggParams::default();
    assert_eq!(options.create_other_qualite(Vec::new()), "");
    options.category = YggCategory::FilmVideo;
    assert_eq!(options.create_other_qualite(Vec::new()), "");
}

#[test]
fn categories_ordered_by_number() {
    assert!(YggCategory::FilmVideo > YggCategory::Audio);
    assert!(YggCategory::All < YggCategory::Ebook);
    assert!(YggCategory::XXX <= YggCategory::XXX);
    assert!(YggSubCategory::Personnages > YggSubCategory::Objets);
    assert!(YggSubCategory::Jeux > YggSubCategory::Ebook);
}

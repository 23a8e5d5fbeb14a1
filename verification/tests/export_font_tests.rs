use herding_cats_rust::export::epub::{
    chapter_file_name, convert_to_epub_content, determine_asset_type, determine_media_type, generate_container_xml,
    AssetType, DocumentElement, EpubContent,
};
use herding_cats_rust::export::epub::{asset_from_file, build_epub_package, generate_epub_navigation};
use herding_cats_rust::export::TextAlignment;
use herding_cats_rust::font_manager::{font_catalog, FontManager};
use herding_cats_rust::fonts::embedded_fonts::{FontWeight};

fn para(t: &str) -> DocumentElement {
    DocumentElement::Paragraph { text: t.to_string(), alignment: TextAlignment::Left }
}

fn heading(t: &str) -> DocumentElement {
    DocumentElement::Heading { level: 1, text: t.to_string(), id: t.to_lowercase() }
}

#[test]
fn level_one_headings_start_chapters() {
    let chapters = convert_to_epub_content(vec![para("intro"), heading("One"), para("a"), heading("Two"), para("b")]);
    let ids: Vec<&str> = chapters.iter().map(|c| c.chapter_id.as_str()).collect();
    let titles: Vec<&str> = chapters.iter().map(|c| c.title.as_str()).collect();
    assert_eq!(ids, vec!["chapter_1", "chapter_2", "chapter_3"]);
    assert_eq!(titles, vec!["Chapter 1", "One", "Two"]);
    assert_eq!(chapters[1].content.len(), 2);
    assert!(matches!(&chapters[1].content[0], EpubContent::Heading { text, .. } if text == "One"));
}

#[test]
fn a_leading_heading_stays_in_the_first_chapter() {
    let chapters = convert_to_epub_content(vec![heading("Start"), para("x")]);
    assert_eq!(chapters.len(), 1);
    assert_eq!(chapters[0].title, "Chapter 1");
    assert!(convert_to_epub_content(vec![DocumentElement::PageBreak]).is_empty());
}

#[test]
fn media_types_by_extension() {
    assert_eq!(determine_media_type("a/b/photo.JPG"), "image/jpeg");
    assert_eq!(determine_media_type("x.woff2"), "font/woff2");
    assert_eq!(determine_media_type("noext"), "application/octet-stream");
    assert_eq!(determine_asset_type("s.css"), AssetType::Stylesheet);
    assert_eq!(determine_asset_type("unknown.bin"), AssetType::Image);
    assert_eq!(chapter_file_name(0), "chapter_1.xhtml");
    assert!(generate_container_xml().contains("OEBPS/content.opf"));
}

#[test]
fn font_catalog_and_manager() {
    let catalog = font_catalog();
    assert_eq!(catalog.len(), 12);
    assert!(catalog.iter().all(|f| !f.installed));
    let manager = FontManager::with_directory("fonts".to_string(), &vec!["Roboto.otf".to_string()]);
    assert!(manager.is_font_installed("Roboto"));
    assert!(!manager.is_font_installed("OpenSans"));
    let google = manager.get_fonts_by_category("Google Fonts");
    assert_eq!(google.len(), 3);
    assert_eq!(manager.get_available_fonts().len(), 12);
    assert_eq!(manager.get_font_path("Roboto"), Some("fonts/Roboto.otf"));
}

#[test]
fn font_weights_round_trip() {
    for w in [FontWeight::Thin, FontWeight::Regular, FontWeight::Black] {
        assert_eq!(FontWeight::from_value(w.get_value()), w);
    }
    assert_eq!(FontWeight::from_value(450), FontWeight::Regular);
}

fn plain_metadata() -> herding_cats_rust::export::epub::EpubMetadata {
    herding_cats_rust::export::epub::EpubMetadata {
        title: "Book".to_string(),
        creator: "Author".to_string(),
        language: "en".to_string(),
        identifier: "book-1".to_string(),
        publisher: None,
        publication_date: None,
        rights: None,
        subject: vec![],
        description: None,
        contributor: vec![],
        coverage: None,
        relation: vec![],
        source: None,
        type_: None,
        format: None,
        source_identifier: None,
        isbn: None,
        unique_identifier: "urn:book-1".to_string(),
    }
}

fn plain_config() -> herding_cats_rust::export::epub::EpubExportConfig {
    herding_cats_rust::export::epub::EpubExportConfig {
        epub_version: herding_cats_rust::export::epub::EpubVersion::V3,
        language: "en".to_string(),
        identifier: "book-1".to_string(),
        cover_image: None,
        navigation_enabled: true,
        adaptive_layout: false,
        toc_depth: 2,
        page_progression: herding_cats_rust::export::epub::PageProgressionDirection::Default,
        reading_order: vec![],
        landmarks_enabled: false,
        metadata: plain_metadata(),
        css_rules: vec![],
        javascript_enabled: false,
    }
}

#[test]
fn navigation_lists_every_chapter_in_order() {
    let chapters = convert_to_epub_content(vec![para("intro"), heading("One"), para("a"), heading("Two")]);
    let assets = vec![asset_from_file("cover".to_string(), "images/cover.png".to_string(), vec![1, 2, 3], 3)];
    let package = build_epub_package(&chapters, plain_config(), &assets);
    assert_eq!(package.spine.len(), 3);
    assert_eq!(package.manifest.len(), 4);
    let nav = generate_epub_navigation(&package);
    let hrefs: Vec<&str> = nav.toc.nav_points.iter().map(|p| p.content_src.as_str()).collect();
    let labels: Vec<&str> = nav.toc.nav_points.iter().map(|p| p.text.as_str()).collect();
    assert_eq!(hrefs, vec!["xhtml/chapter_1.xhtml", "xhtml/chapter_2.xhtml", "xhtml/chapter_3.xhtml"]);
    assert_eq!(labels, vec!["Chapter 1", "Chapter 2", "Chapter 3"]);
    assert_eq!(nav.toc.title, "Table of Contents");
}

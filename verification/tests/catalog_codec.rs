use comic_pipeline::catalog::build_chapter_list;
use comic_pipeline::catalog::ChapterAnchor;
use comic_pipeline::codec::materialize;
use comic_pipeline::error::ComicError;
use comic_pipeline::fetch::MaterializationJob;
use comic_pipeline::settings::strip_http_prefix;
use comic_pipeline::settings::Driver;
use comic_pipeline::settings::Settings;

#[test]
fn chapter_list_resolves_hrefs_against_the_catalog_origin() {
    let anchors = vec![
        ChapterAnchor {
            href: Some("/comic/abc/chapter/1".to_string()),
            title: Some("Ch.1".to_string()),
        },
        ChapterAnchor {
            href: Some("/comic/abc/chapter/2".to_string()),
            title: Some("Ch.2".to_string()),
        },
    ];
    let items = build_chapter_list("https://www.example.com/comic/abc", anchors).unwrap();
    assert_eq!(items.len(), 2);
    assert_eq!(items[0].chapter_name, "Ch.1");
    assert_eq!(items[0].chapter_url, "https://www.example.com/comic/abc/chapter/1");
    assert_eq!(items[1].chapter_name, "Ch.2");
    assert_eq!(items[1].chapter_url, "https://www.example.com/comic/abc/chapter/2");
}

#[test]
fn chapter_anchor_without_href_or_title_fails_extraction() {
    let anchors = vec![ChapterAnchor { href: None, title: Some("Ch.1".to_string()) }];
    let r = build_chapter_list("https://www.example.com/comic/abc", anchors);
    assert!(matches!(r, Err(ComicError::Extraction)));

    let anchors = vec![ChapterAnchor { href: Some("/c/1".to_string()), title: None }];
    let r = build_chapter_list("https://www.example.com/comic/abc", anchors);
    assert!(matches!(r, Err(ComicError::Extraction)));
}

#[test]
fn oversize_chapter_href_fails_extraction() {
    // An href so long that resolving it could overrun the url crate's
    // internal offsets is rejected instead of resolved.
    let anchors = vec![ChapterAnchor {
        href: Some("a".repeat(0x100_0001)),
        title: Some("Ch.1".to_string()),
    }];
    let r = build_chapter_list("https://www.example.com/comic/abc", anchors);
    assert!(matches!(r, Err(ComicError::Extraction)));
}

#[test]
fn unparseable_catalog_url_fails_extraction() {
    let anchors = vec![
        ChapterAnchor { href: Some("/c/1".to_string()), title: Some("Ch.1".to_string()) },
    ];
    let r = build_chapter_list("not a url", anchors);
    assert!(matches!(r, Err(ComicError::Extraction)));
}

#[test]
fn materializer_round_trips_dimensions_as_png() {
    // A small bitmap, encoded as BMP, must come back out as a PNG of the
    // same pixel dimensions.
    let src = image::DynamicImage::new_rgb8(2, 3);
    let mut raw = std::io::Cursor::new(Vec::new());
    src.write_to(&mut raw, image::ImageOutputFormat::Bmp).unwrap();
    let job = MaterializationJob {
        raw_bytes: raw.into_inner(),
        save_path: "root/Comic/Ch.1/00001.png".to_string(),
    };
    let (png, path) = materialize(job).unwrap();
    assert_eq!(path, "root/Comic/Ch.1/00001.png");
    assert_eq!(image::guess_format(&png).unwrap(), image::ImageFormat::Png);
    let out = image::load_from_memory(&png).unwrap();
    assert_eq!(out.width(), 2);
    assert_eq!(out.height(), 3);
}

#[test]
fn undecodable_bytes_fail_with_codec_error() {
    let job = MaterializationJob {
        raw_bytes: vec![0u8, 1, 2, 3, 4, 5],
        save_path: "root/Comic/Ch.1/00002.png".to_string(),
    };
    assert!(matches!(materialize(job), Err(ComicError::Codec)));
}

#[test]
fn proxy_prefix_is_stripped_for_the_browser_session() {
    assert_eq!(strip_http_prefix("http://localhost:7890"), Some("localhost:7890".to_string()));
    assert_eq!(strip_http_prefix("socks5://localhost:7890"), None);
    assert_eq!(strip_http_prefix("http:/"), None);
}

#[test]
fn settings_carry_driver_paths_and_proxy() {
    let s = Settings {
        driver: Driver {
            driver_path: "./driver/firefox.exe".to_string(),
            firefox_binary_path: "./firefox/firefox.exe".to_string(),
        },
        http_proxy: Some("http://localhost:7890".to_string()),
    };
    assert_eq!(s.driver.driver_path, "./driver/firefox.exe");
    assert_eq!(s.http_proxy.as_deref(), Some("http://localhost:7890"));
}

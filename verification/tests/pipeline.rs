use comic_pipeline::error::ComicError;
use comic_pipeline::fetch::handle_fetch;
use comic_pipeline::flatten::Message;
use comic_pipeline::flatten::Messages;
use comic_pipeline::scan::collect_image_urls;
use comic_pipeline::scan::make_batch;
use comic_pipeline::scan::next_page_step;
use comic_pipeline::scan::parse_page_count;
use comic_pipeline::scan::PageStep;

fn urls(n: usize) -> Vec<String> {
    (1..=n).map(|i| format!("https://img.example.com/{i}.webp")).collect()
}

#[test]
fn flattener_numbers_jobs_in_input_order() {
    let batch = Messages::new("root/Comic/Ch.1".to_string(), urls(3));
    let jobs = batch.flatten_message();
    assert_eq!(jobs.len(), 3);
    assert_eq!(jobs[0].image_url, "https://img.example.com/1.webp");
    assert_eq!(jobs[0].save_path, "root/Comic/Ch.1/00001.png");
    assert_eq!(jobs[1].image_url, "https://img.example.com/2.webp");
    assert_eq!(jobs[1].save_path, "root/Comic/Ch.1/00002.png");
    assert_eq!(jobs[2].image_url, "https://img.example.com/3.webp");
    assert_eq!(jobs[2].save_path, "root/Comic/Ch.1/00003.png");
}

#[test]
fn flattener_of_empty_batch_is_empty() {
    let batch = Messages::new("root/Comic/Ch.2".to_string(), Vec::new());
    assert_eq!(batch.image_count(), 0);
    assert!(batch.flatten_message().is_empty());
}

#[test]
fn two_chapter_catalog_yields_one_directory_each() {
    // Chapter one: three images; chapter two: none.
    let first = make_batch("root", "ComicName", "Ch.1", 3, urls(3)).unwrap();
    assert_eq!(first.save_path, "root/ComicName/Ch.1");
    let jobs = first.flatten_message();
    assert_eq!(jobs.len(), 3);
    assert_eq!(jobs[0].save_path, "root/ComicName/Ch.1/00001.png");
    assert_eq!(jobs[1].save_path, "root/ComicName/Ch.1/00002.png");
    assert_eq!(jobs[2].save_path, "root/ComicName/Ch.1/00003.png");

    let second = make_batch("root", "ComicName", "Ch.2", 0, Vec::new()).unwrap();
    assert_eq!(second.save_path, "root/ComicName/Ch.2");
    assert!(second.flatten_message().is_empty());
}

#[test]
fn count_mismatch_fails_the_chapter() {
    // Declared page count 10, only 9 realized image URLs.
    let r = make_batch("root", "ComicName", "Ch.3", 10, urls(9));
    match r {
        Err(ComicError::Consistency { declared, found }) => {
            assert_eq!(declared, 10);
            assert_eq!(found, 9);
        }
        _ => panic!("expected a consistency failure"),
    }
}

#[test]
fn page_count_readout_parses_or_fails_extraction() {
    assert_eq!(parse_page_count("12").unwrap(), 12);
    assert_eq!(parse_page_count(""), Err(ComicError::Extraction));
    assert_eq!(parse_page_count("12/30"), Err(ComicError::Extraction));
}

#[test]
fn pagination_scrolls_until_index_reaches_count() {
    assert_eq!(next_page_step(30, "7").unwrap(), PageStep::Scroll);
    assert_eq!(next_page_step(30, "30").unwrap(), PageStep::Extract);
    assert_eq!(next_page_step(30, "31").unwrap(), PageStep::Scroll);
    assert_eq!(next_page_step(30, "n/a"), Err(ComicError::Extraction));
}

#[test]
fn image_list_extraction_requires_every_lazy_source() {
    let attrs = vec![Some("a".to_string()), Some("b".to_string())];
    let got = collect_image_urls(attrs).unwrap();
    assert_eq!(got, vec!["a".to_string(), "b".to_string()]);

    let attrs = vec![Some("a".to_string()), None, Some("c".to_string())];
    assert_eq!(collect_image_urls(attrs), Err(ComicError::Extraction));
}

#[test]
fn failed_fetch_drops_only_its_own_job() {
    let batch = Messages::new("root/Comic/Ch.1".to_string(), urls(3));
    let jobs = batch.flatten_message();
    let bodies = vec![Some(vec![1u8, 2]), None, Some(vec![3u8])];
    let mut materialized: Vec<String> = Vec::new();
    for (job, body) in jobs.into_iter().zip(bodies.into_iter()) {
        if let Some(m) = handle_fetch(job, body) {
            materialized.push(m.save_path);
        }
    }
    // The second image's fetch failed: only its numbered file is missing.
    assert_eq!(
        materialized,
        vec![
            "root/Comic/Ch.1/00001.png".to_string(),
            "root/Comic/Ch.1/00003.png".to_string(),
        ]
    );
}

#[test]
fn successful_fetch_hands_bytes_through() {
    let job = Message {
        image_url: "https://img.example.com/1.webp".to_string(),
        save_path: "root/Comic/Ch.1/00001.png".to_string(),
    };
    let m = handle_fetch(job, Some(vec![9u8, 8, 7])).unwrap();
    assert_eq!(m.raw_bytes, vec![9u8, 8, 7]);
    assert_eq!(m.save_path, "root/Comic/Ch.1/00001.png");
}

#[test]
fn errors_describe_themselves() {
    assert_eq!(ComicError::Navigation.describe(), "page failed to load");
    assert_eq!(
        ComicError::Extraction.describe(),
        "expected element or attribute absent or unparsable"
    );
    assert_eq!(
        ComicError::Consistency { declared: 2, found: 1 }.describe(),
        "realized image count differs from declared page count"
    );
    assert_eq!(ComicError::Transport.describe(), "image fetch failed");
    assert_eq!(ComicError::Codec.describe(), "image decode or encode failed");
}

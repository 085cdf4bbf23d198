//! Link previews.

use feditexter::preview::{
    bsky_api_url, keep_public, preview_looks_private, preview_parse_bsky_url, preview_parse_meta,
    preview_url_encode, read_bsky_post, skip_scheme, youtube_oembed_url,
};
use feditexter::preview_job::{Got, Need, PreviewJob};

#[test]
fn private_addresses_are_recognised() {
    for u in [
        "http://localhost/x",
        "http://127.0.0.1:80/",
        "https://10.1.2.3",
        "http://172.16.0.1",
        "http://192.168.1.1/a",
        "http://169.254.0.1",
        "",
    ] {
        assert!(preview_looks_private(u), "{u}");
    }
    assert!(!preview_looks_private("https://example.org/a"));
    assert!(!preview_looks_private("http://172.32.0.1"));
    assert_eq!(skip_scheme("https://a/b"), "a/b");
    assert_eq!(
        keep_public(vec!["http://10.0.0.1/a".to_string(), "https://a.b/c".to_string()]),
        vec!["https://a.b/c".to_string()]
    );
}

#[test]
fn pages_are_read() {
    let html = "<html><head><title>plain</title>\
        <meta property=\"og:title\" content=\" A title \">\
        <meta name=\"twitter:description\" content=\"words\">\
        <meta property=\"og:image\" content=\"/pic.png\"></head></html>";
    let (t, d, i) = preview_parse_meta("https://a.b/c/d", html);
    assert_eq!(t, Some("A title".to_string()));
    assert_eq!(d, Some("words".to_string()));
    assert_eq!(i, Some("https://a.b/pic.png".to_string()));
    let (t, _, i) = preview_parse_meta("https://a.b", "<title>plain</title>");
    assert_eq!(t, Some("plain".to_string()));
    assert_eq!(i, None);
}

#[test]
fn posts_are_found() {
    assert_eq!(
        preview_parse_bsky_url("https://bsky.app/profile/a.bsky.social/post/3k"),
        Some(("a.bsky.social".to_string(), "3k".to_string()))
    );
    assert_eq!(preview_parse_bsky_url("https://example.org/profile/a/post/b"), None);
    assert!(bsky_api_url("a", "k").contains("at%3A%2F%2Fa%2Fapp.bsky.feed.post%2Fk"));
    assert_eq!(preview_url_encode("a:b/c#d é"), "a%3Ab%2Fc%23d é");
    let json = "{\"thread\":{\"post\":{\"author\":{\"displayName\":\"Ann\"},\
        \"record\":{\"text\":\"hi\"},\"embed\":{\"images\":[{\"fullsize\":\"https://a.b/1\"},\
        {\"fullsize\":\"http://10.0.0.1/2\"}]}}}}";
    assert_eq!(
        read_bsky_post(json, "ann"),
        Some(("Ann: hi".to_string(), vec!["https://a.b/1".to_string()]))
    );
}

#[test]
fn videos_are_asked_for() {
    assert_eq!(
        youtube_oembed_url("https://youtu.be/x?y=1"),
        Some(
            "https://www.youtube.com/oembed?url=https%3A%2F%2Fyoutu.be%2Fx%3Fy%3D1&format=json"
                .to_string()
        )
    );
    assert_eq!(youtube_oembed_url("https://example.org"), None);
}

#[test]
fn a_job_goes_from_host_to_page_to_picture() {
    let (mut job, need) = PreviewJob::begin("https://example.org/a".to_string());
    match need {
        Need::Text(u) => assert!(u.starts_with("https://example.org/api/oembed?url=")),
        _ => panic!("the host is asked first"),
    }
    match job.resume(Got::Text { success: false, text: None }) {
        Need::Page(u) => assert_eq!(u, "https://example.org/a"),
        _ => panic!("the page comes next"),
    }
    let html = "<title>T</title><meta property=\"og:image\" content=\"https://a.b/p.png\">";
    match job.resume(Got::Page(html.as_bytes().to_vec())) {
        Need::Picture(u) => assert_eq!(u, "https://a.b/p.png"),
        _ => panic!("the picture comes next"),
    }
    match job.resume(Got::Picture(true)) {
        Need::Done(p) => {
            assert_eq!(p.title, Some("T".to_string()));
            assert_eq!(p.images, vec!["https://a.b/p.png".to_string()]);
        }
        _ => panic!("the job is done"),
    }
}

#[test]
fn private_pictures_are_not_asked_for() {
    let (mut job, _) = PreviewJob::begin("https://example.org/a".to_string());
    job.resume(Got::Nothing);
    let html = "<title>T</title><meta property=\"og:image\" content=\"http://192.168.0.1/p.png\">";
    match job.resume(Got::Page(html.as_bytes().to_vec())) {
        Need::Done(p) => assert!(p.images.is_empty()),
        _ => panic!("no picture is left"),
    }
}

#[test]
fn large_pages_are_not_read() {
    let (mut job, _) = PreviewJob::begin("https://example.org/a".to_string());
    job.resume(Got::Nothing);
    match job.resume(Got::Page(vec![b'a'; 2_000_001])) {
        Need::Done(p) => assert_eq!(p.title, None),
        _ => panic!("the job is done"),
    }
}

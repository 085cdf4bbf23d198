//! Sizes, names, addresses, times and colours.

use feditexter::cache::{
    cache_hit, cache_path_for, fetched_bytes, files_cache_dir, media_cache_dir, media_cache_path,
    preview_cache_path,
};
use feditexter::chat::types::{Conversation, Member, Rgb};
use feditexter::colour::{accent_to_hex, parse_hex_color, strict_colour};
use feditexter::data_url::{data_url_bytes, make_data_url};
use feditexter::identity::{
    conversation_target, conversation_title, desktop_sender_name, initials, name_hue,
    parse_targets, sender_name, url_to_handle, user_initials,
};
use feditexter::links::{extract_urls, first_url};
use feditexter::mime::{
    desktop_mime_from_path, extension_for, file_attachment, mime_from_path, sticker_files,
    temp_file_name,
};
use feditexter::server::{api_url, is_localhost, normalize_server, ws_url};
use feditexter::size::human_size;
use feditexter::time::{format_desktop_time, format_local_time};
use feditexter::totp::{base32_decode, totp_at};

fn member(id: u64, username: &str, display_name: &str) -> Member {
    Member {
        id,
        username: username.to_string(),
        display_name: display_name.to_string(),
        domain: "example.org".to_string(),
        avatar_url: None,
        is_bot: false,
    }
}

#[test]
fn human_size_formats() {
    assert_eq!(human_size(512), "512 B");
    assert_eq!(human_size(2048), "2 KB");
    assert_eq!(human_size(5 * 1024 * 1024), "5.0 MB");
}

#[test]
fn sizes_round_like_floats() {
    assert_eq!(human_size(0), "0 B");
    assert_eq!(human_size(1023), "1023 B");
    assert_eq!(human_size(1536), "2 KB");
    assert_eq!(human_size(2560), "2 KB");
    assert_eq!(human_size(1024 * 1024 - 1), "1024 KB");
    assert_eq!(human_size(3 * 1024 * 1024 * 1024), "3.0 GB");
    for n in [1500u64, 1_234_567, 123_456_789, 9_999_999_999, u64::MAX] {
        let b = n as f64;
        let expected = if b >= 1073741824.0 {
            format!("{:.1} GB", b / 1073741824.0)
        } else if b >= 1048576.0 {
            format!("{:.1} MB", b / 1048576.0)
        } else {
            format!("{:.0} KB", b / 1024.0)
        };
        assert_eq!(human_size(n), expected);
    }
}

#[test]
fn media_cache_path_is_deterministic() {
    let dir = files_cache_dir(Some("/home/me"));
    let url = "https://cdn.bsky.app/img/feed_fullsize/plain/did:plc:x/bafkrei1";
    let p1 = media_cache_path(&dir, url);
    let p2 = media_cache_path(&dir, url);
    assert_eq!(p1, p2);
    let p3 = media_cache_path(
        &dir,
        "https://cdn.bsky.app/img/feed_fullsize/plain/did:plc:x/bafkrei2",
    );
    assert_ne!(p1, p3);
    let name = p1.rsplit('/').next().unwrap().to_string();
    assert_eq!(name.len(), 40, "sha1 hex is 40 chars");
    assert!(!name.contains('/') && !name.contains('\\'));
    assert!(p1.starts_with(&format!("{dir}/media/")));
}

#[test]
fn preview_cache_path_is_distinct_from_raw() {
    let dir = files_cache_dir(None);
    let url = "https://cdn.bsky.app/img/feed_fullsize/plain/did:plc:x/bafkrei1";
    assert_ne!(preview_cache_path(&dir, url), media_cache_path(&dir, url));
    assert!(preview_cache_path(&dir, url).ends_with(".jpg"));
    assert!(preview_cache_path(&dir, url).starts_with(&media_cache_dir(&dir)));
}

#[test]
fn cached_names_are_digests() {
    assert_eq!(files_cache_dir(Some("/home/me")), "/home/me/.feditexter_files");
    assert_eq!(files_cache_dir(None), "./.feditexter_files");
    assert_eq!(cache_path_for("/d", "id"), "/d/id");
    assert_eq!(
        media_cache_path("/d", "abc"),
        "/d/media/a9993e364706816aba3e25717850c26c9cd0d89d"
    );
}

#[test]
fn downloads_are_classified() {
    assert_eq!(cache_hit(Some(vec![1]), false), Some(vec![1]));
    assert_eq!(cache_hit(None, false), None);
    assert_eq!(fetched_bytes(true, "200 OK", vec![1, 2]), Ok(vec![1, 2]));
    assert!(fetched_bytes(false, "404 Not Found", vec![]).is_err());
}

#[test]
fn servers_are_completed() {
    assert_eq!(normalize_server(""), "http://localhost:3000");
    assert_eq!(normalize_server("localhost"), "http://localhost:3000");
    assert_eq!(normalize_server("127.0.0.1"), "http://localhost:3000");
    assert_eq!(normalize_server("localhost:8080"), "http://localhost:8080");
    assert_eq!(normalize_server("example.org"), "https://example.org");
    assert_eq!(normalize_server(" HTTPS://example.org/chat "), "https://example.org");
    assert_eq!(normalize_server("http://localhost"), "http://localhost:3000");
    assert_eq!(normalize_server("http://a:1"), "http://a:1");
}

#[test]
fn addresses_are_joined() {
    assert_eq!(api_url("https://a/", "/api/me"), "https://a/api/me");
    assert_eq!(api_url("https://a", "api/me"), "https://a/api/me");
    assert_eq!(ws_url("https://a/"), "wss://a/api/ws");
    assert_eq!(ws_url("http://a"), "ws://a/api/ws");
    assert_eq!(ws_url("a"), "ws://a/api/ws");
    assert!(is_localhost("::1"));
    assert!(!is_localhost("example.org"));
}

#[test]
fn names_become_letters() {
    assert_eq!(initials("ada lovelace"), "AL");
    assert_eq!(initials("  "), "?");
    assert_eq!(user_initials("ada lovelace"), "AD");
    assert_eq!(user_initials(""), "?");
    assert_eq!(name_hue("ab"), 225);
}

#[test]
fn senders_and_titles() {
    let ms = vec![member(1, "me", "Me"), member(2, "bob", "")];
    assert_eq!(sender_name(&ms, 1, Some(1)), "You");
    assert_eq!(sender_name(&ms, 2, Some(1)), "bob");
    assert_eq!(sender_name(&ms, 9, Some(1)), "user 9");
    assert!(desktop_sender_name(&ms, 2, Some(1)).contains("bob"));
    let c = Conversation {
        id: 4,
        kind: "direct".to_string(),
        guild_id: None,
        channel_name: None,
        members: ms,
    };
    assert_eq!(conversation_title(&c, Some(1)), "bob");
    assert_eq!(conversation_title(&c, None), "Group: Me, bob");
}

#[test]
fn targets_are_read() {
    assert_eq!(conversation_target("42"), Ok((Some(42), None)));
    assert_eq!(
        conversation_target("@a@b.c"),
        Ok((None, Some("@a@b.c".to_string())))
    );
    assert_eq!(
        conversation_target(""),
        Err("enter a user id, @handle, or profile URL".to_string())
    );
    assert!(conversation_target("what").is_err());
    assert_eq!(
        url_to_handle("https://mastodon.social/@gargron"),
        Some("@gargron@mastodon.social".to_string())
    );
    assert_eq!(url_to_handle("https://mastodon.social/about"), None);
    assert_eq!(
        parse_targets("1, @x@y.z 2"),
        Ok((vec![1, 2], vec!["@x@y.z".to_string()]))
    );
    assert_eq!(
        parse_targets(" , "),
        Err("enter at least one user id, @handle, or profile URL".to_string())
    );
    assert_eq!(
        parse_targets("1, nobody"),
        Err("could not understand 'nobody'".to_string())
    );
}

#[test]
fn links_are_found() {
    assert_eq!(
        extract_urls("see https://a.b/c, and (http://d.e)!"),
        vec!["https://a.b/c".to_string(), "http://d.e".to_string()]
    );
    assert_eq!(first_url("no link"), None);
    assert_eq!(first_url("x https://a.b y"), Some("https://a.b".to_string()));
}

#[test]
fn media_types_follow_extensions() {
    assert_eq!(mime_from_path("a.PNG"), "image/png");
    assert_eq!(desktop_mime_from_path("a.jpeg"), "image/jpeg");
    assert_eq!(desktop_mime_from_path("a"), "application/octet-stream");
    assert_eq!(extension_for("image/png"), "png");
    assert!(temp_file_name("image/png", "../../x y.png").ends_with(".png"));
    assert!(!temp_file_name("image/png", "../../x y.png").contains('/'));
}

#[test]
fn picked_files_are_checked() {
    let a = match file_attachment("a.txt".to_string(), vec![1, 2, 3], "thumb".to_string()) {
        Ok(a) => a,
        Err(e) => panic!("{e}"),
    };
    assert_eq!(a.mime, "text/plain");
    assert_eq!(a.file_size, 3);
    assert_eq!(a.thumbnail, "");
    assert_eq!(a.file_id.len(), 36);
    assert!(sticker_files(vec![("a.txt".to_string(), vec![1])]).is_err());
    assert_eq!(
        sticker_files(vec![("a.png".to_string(), vec![0; 600_000])]),
        Err("sticker image too large (max 512 KiB)".to_string())
    );
    assert_eq!(
        sticker_files(vec![("a.png".to_string(), vec![7])]),
        Ok(vec![("a".to_string(), "image/png".to_string(), vec![7])])
    );
}

#[test]
fn colours_round_trip() {
    let c = Rgb { r: 125, g: 92, b: 224 };
    assert_eq!(accent_to_hex(c), "#7D5CE0");
    assert_eq!(parse_hex_color("#7D5CE0"), Some(c));
    assert_eq!(parse_hex_color("12345"), None);
    assert_eq!(parse_hex_color("gg0000"), None);
    assert_eq!(strict_colour("7d5ce0"), Some(c));
    assert_eq!(strict_colour("+15ce0"), None);
}

#[test]
fn data_urls_round_trip() {
    let url = make_data_url("data:image/png;base64,", &vec![104, 105]);
    assert_eq!(data_url_bytes(&url), Some(vec![104, 105]));
    assert_eq!(data_url_bytes("data:text/plain;base64,aGk="), Some(vec![104, 105]));
    assert_eq!(data_url_bytes("data:text/plain,hi"), None);
    assert_eq!(data_url_bytes("data:;base64,***"), None);
}

#[test]
fn passwords_match_the_standard() {
    let secret = "GEZDGNBVGY3TQOJQGEZDGNBVGY3TQOJQ";
    assert_eq!(base32_decode(secret), b"12345678901234567890".to_vec());
    assert_eq!(totp_at(secret, 59), "287082");
    assert_eq!(totp_at(secret, 1_111_111_109), "081804");
    assert_eq!(totp_at(secret, 30), totp_at(secret, 59));
}

#[test]
fn times_are_shown() {
    assert_eq!(format_local_time("2024-01-02T03:04:05"), "01:04 PM");
    assert_eq!(format_local_time("soon"), "soon");
    assert_eq!(format_desktop_time("1970-01-02 00:30:00", 3600, 1), "01:30");
    assert_eq!(format_desktop_time("1970-01-02 00:30:00", 3600, 2), "02 Jan 01:30");
    assert_eq!(format_desktop_time("x", 0, 0), "x");
}

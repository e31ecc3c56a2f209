use lariv_website::media::{html_with_media_urls, public_asset_url, static_route_path};
use lariv_website::text::{chars_to_string, replace_chars, str_chars};

fn pairs(items: &[(&str, &str)]) -> Vec<(String, String)> {
    items.iter().map(|(n, u)| (n.to_string(), u.to_string())).collect()
}

#[test]
fn media_url_of_positive_id() {
    assert_eq!(public_asset_url(12), "/media/12/");
    assert_eq!(public_asset_url(7), "/media/7/");
    assert_eq!(public_asset_url(1234567890), "/media/1234567890/");
}

#[test]
fn media_url_of_zero_and_negative_ids() {
    assert_eq!(public_asset_url(0), "/media/0/");
    assert_eq!(public_asset_url(-5), "/media/-5/");
    assert_eq!(public_asset_url(i64::MIN), format!("/media/{}/", i64::MIN));
    assert_eq!(public_asset_url(i64::MAX), format!("/media/{}/", i64::MAX));
}

#[test]
fn media_urls_of_distinct_ids_differ() {
    assert_ne!(public_asset_url(1), public_asset_url(10));
    assert_ne!(public_asset_url(-1), public_asset_url(1));
}

#[test]
fn static_route_path_prefixes_name() {
    assert_eq!(static_route_path("logo.svg"), "/static/logo.svg");
    assert_eq!(static_route_path(""), "/static/");
}

#[test]
fn rewrite_replaces_every_reference() {
    let html = r#"<img src="/static/logo.svg"><a href="/static/logo.svg">x</a>"#;
    let out = html_with_media_urls(html, &pairs(&[("logo.svg", "/media/4/")]));
    assert_eq!(out, r#"<img src="/media/4/"><a href="/media/4/">x</a>"#);
}

#[test]
fn rewrite_applies_pairs_in_order() {
    let html = "/static/a.svg /static/b.json /static/c";
    let out = html_with_media_urls(
        html,
        &pairs(&[("a.svg", "/media/1/"), ("b.json", "/media/2/")]),
    );
    assert_eq!(out, "/media/1/ /media/2/ /static/c");
}

#[test]
fn rewrite_without_urls_is_identity() {
    let html = "<p>/static/logo.svg</p>";
    assert_eq!(html_with_media_urls(html, &[]), html);
}

#[test]
fn rewrite_without_static_references_is_identity() {
    let html = "<p>plain page, media at /media/3/</p>";
    let out = html_with_media_urls(html, &pairs(&[("logo.svg", "/media/4/")]));
    assert_eq!(out, html);
}

#[test]
fn rewrite_matches_prefix_of_longer_names_like_str_replace() {
    let html = "/static/logo.svg2 and /static/logo.sv";
    let urls = pairs(&[("logo.svg", "/media/9/")]);
    let expected = html.replace("/static/logo.svg", "/media/9/");
    assert_eq!(html_with_media_urls(html, &urls), expected);
    assert_eq!(html_with_media_urls(html, &urls), "/media/9/2 and /static/logo.sv");
}

#[test]
fn rewrite_keeps_non_ascii_text() {
    let html = "é /static/ü.svg ✓";
    let out = html_with_media_urls(html, &pairs(&[("ü.svg", "/media/8/")]));
    assert_eq!(out, "é /media/8/ ✓");
}

#[test]
fn replace_does_not_overlap() {
    let s = str_chars("aaaa a");
    let pat = str_chars("aa");
    let rep = str_chars("X");
    assert_eq!(chars_to_string(&replace_chars(&s, &pat, &rep)), "XX a");
    let s = str_chars("aaa");
    assert_eq!(chars_to_string(&replace_chars(&s, &pat, &rep)), "Xa");
}

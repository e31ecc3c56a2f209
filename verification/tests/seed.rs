use lariv_website::catalog::{seed_pages, PageBody, PAGE_COUNT};
use lariv_website::hook::SeedsHook;
use lariv_website::seeder::{
    theme_preferences, SeedAction, SeedContents, SeedEvent, SiteSeeder, ThemePreferences,
};

fn contents() -> SeedContents {
    SeedContents {
        theme_css: b"body{}".to_vec(),
        theme_js: b"void 0".to_vec(),
        logo_svg: b"<svg/>".to_vec(),
        main_artwork_svg: b"<svg>art</svg>".to_vec(),
        benchmark_metrics_json: b"{}".to_vec(),
        header_html: r#"<header><img src="/static/logo.svg"></header>"#.to_string(),
        footer_html: "<footer>/static/benchmark_metrics.json</footer>".to_string(),
        homepage_html: r#"<main><img src="/static/main-artwork.svg"></main>"#.to_string(),
        pricing_html: "<main>pricing</main>".to_string(),
        blogs_html: "<main>blogs</main>".to_string(),
        blogs_slug_html: "<main>post</main>".to_string(),
        privacy_policy_html: "<main>privacy</main>".to_string(),
    }
}

#[derive(Debug, Clone, PartialEq)]
enum Seen {
    Dir(Vec<String>),
    File(Option<i64>, String, Vec<u8>),
    Prefs(ThemePreferences),
    Route(String, i64, String, bool),
    Refs(i64, Vec<i64>),
    Finished,
    Rejected,
}

fn seen(a: &SeedAction) -> Seen {
    match a {
        SeedAction::EnsureDirectory(s) => Seen::Dir(s.clone()),
        SeedAction::SyncFile { parent_id, name, bytes } => {
            Seen::File(*parent_id, name.clone(), bytes.clone())
        }
        SeedAction::SavePreferences(p) => Seen::Prefs(*p),
        SeedAction::EnsureRoute(r) => {
            Seen::Route(r.path.clone(), r.page_id, r.theme.clone(), r.reset_grapes_project)
        }
        SeedAction::ReplaceRouteRefs { route_id, vnode_ids } => Seen::Refs(*route_id, vnode_ids.clone()),
        SeedAction::Finished => Seen::Finished,
        SeedAction::Rejected => Seen::Rejected,
    }
}

/// Drives a whole seed: folders get ids from 100, files from 1000, routes from 5000.
/// `rewritten(name)` says whether the file `name` is reported as rewritten.
fn run(rewritten: impl Fn(&str) -> bool) -> Vec<Seen> {
    let (mut seeder, first) = SiteSeeder::new(contents());
    let mut out = vec![seen(&first)];
    let mut action = first;
    let (mut dir, mut file, mut route) = (100i64, 1000i64, 5000i64);
    for _ in 0..200 {
        let event = match &action {
            SeedAction::EnsureDirectory(_) => {
                dir += 1;
                SeedEvent::DirectoryReady(Some(dir))
            }
            SeedAction::SyncFile { name, .. } => {
                file += 1;
                SeedEvent::FileReady { vnode_id: file, rewritten: rewritten(name) }
            }
            SeedAction::SavePreferences(_) => SeedEvent::PreferencesSaved,
            SeedAction::EnsureRoute(_) => {
                route += 1;
                SeedEvent::RouteReady(route)
            }
            SeedAction::ReplaceRouteRefs { .. } => SeedEvent::RefsReplaced,
            SeedAction::Finished | SeedAction::Rejected => break,
        };
        action = seeder.step(event);
        out.push(seen(&action));
    }
    assert!(seeder.is_finished());
    out
}

fn dir(segments: &[&str]) -> Seen {
    Seen::Dir(segments.iter().map(|s| s.to_string()).collect())
}

#[test]
fn seed_completes_after_fixed_number_of_reports() {
    let actions = run(|_| true);
    // one action at the start, then one per report; the last one is Finished
    assert_eq!(actions.len(), 4 * PAGE_COUNT + 2 * 3 + 9 + 1);
    assert_eq!(actions.last(), Some(&Seen::Finished));
    assert!(!actions.contains(&Seen::Rejected));
}

#[test]
fn seed_starts_with_custom_theme() {
    let a = run(|_| true);
    assert_eq!(a[0], dir(&["website", "themes"]));
    assert_eq!(a[1], Seen::File(Some(101), "lariv.css".into(), b"body{}".to_vec()));
    assert_eq!(a[2], Seen::File(Some(101), "lariv.js".into(), b"void 0".to_vec()));
    assert_eq!(a[3], Seen::Prefs(theme_preferences(1001, 1002)));
    assert_eq!(
        theme_preferences(1001, 1002),
        ThemePreferences {
            id: 1,
            created_at: None,
            updated_at: None,
            custom_theme_css_vnode_id: Some(1001),
            custom_theme_js_vnode_id: Some(1002),
        }
    );
}

#[test]
fn static_assets_get_alias_routes() {
    let a = run(|_| true);
    assert_eq!(a[4], dir(&["website", "static"]));
    assert_eq!(a[5], Seen::File(Some(102), "logo.svg".into(), b"<svg/>".to_vec()));
    assert_eq!(a[6], Seen::Route("/static/logo.svg".into(), 1003, String::new(), false));
    assert_eq!(a[7], Seen::File(Some(102), "main-artwork.svg".into(), b"<svg>art</svg>".to_vec()));
    assert_eq!(a[8], Seen::Route("/static/main-artwork.svg".into(), 1004, String::new(), false));
    assert_eq!(a[9], Seen::File(Some(102), "benchmark_metrics.json".into(), b"{}".to_vec()));
    assert_eq!(a[10], Seen::Route("/static/benchmark_metrics.json".into(), 1005, String::new(), false));
}

#[test]
fn header_and_footer_use_media_urls() {
    let a = run(|_| true);
    assert_eq!(a[11], dir(&["website"]));
    assert_eq!(
        a[12],
        Seen::File(Some(103), "header.html".into(), br#"<header><img src="/media/1003/"></header>"#.to_vec())
    );
    assert_eq!(a[13], dir(&["website"]));
    assert_eq!(
        a[14],
        Seen::File(Some(104), "footer.html".into(), b"<footer>/media/1005/</footer>".to_vec())
    );
}

#[test]
fn pages_get_routes_with_header_and_footer_refs() {
    let a = run(|_| true);
    // first page: index.html in website/pages
    assert_eq!(a[15], dir(&["website", "pages"]));
    assert_eq!(
        a[16],
        Seen::File(Some(105), "index.html".into(), br#"<main><img src="/media/1004/"></main>"#.to_vec())
    );
    assert_eq!(a[17], Seen::Route("/".into(), 1008, "p_website.custom".into(), true));
    assert_eq!(a[18], Seen::Refs(5004, vec![1006, 1007]));
    // second page: landing.html in website, same route path
    assert_eq!(a[19], dir(&["website"]));
    assert!(matches!(&a[20], Seen::File(_, n, _) if n == "landing.html"));
    assert!(matches!(&a[21], Seen::Route(p, _, _, _) if p == "/"));
    // the last page is the website/privacy-policy.html counterpart
    let n = a.len();
    assert_eq!(a[n - 5], dir(&["website"]));
    assert!(matches!(&a[n - 4], Seen::File(_, name, bytes) if name == "privacy-policy.html" && bytes == b"<main>privacy</main>"));
    assert!(matches!(&a[n - 3], Seen::Route(p, _, t, _) if p == "/privacy-policy" && t == "p_website.custom"));
    assert!(matches!(&a[n - 2], Seen::Refs(_, ids) if ids == &vec![1006, 1007]));
}

#[test]
fn unchanged_store_resets_no_project() {
    let a = run(|_| false);
    for s in &a {
        if let Seen::Route(_, _, _, reset) = s {
            assert!(!reset);
        }
    }
}

#[test]
fn rewritten_header_resets_every_page_project() {
    let a = run(|name| name == "header.html");
    let page_resets: Vec<bool> = a
        .iter()
        .filter_map(|s| match s {
            Seen::Route(_, _, t, r) if t == "p_website.custom" => Some(*r),
            _ => None,
        })
        .collect();
    assert_eq!(page_resets.len(), PAGE_COUNT);
    assert!(page_resets.iter().all(|r| *r));
}

#[test]
fn rewritten_page_resets_only_its_project() {
    let a = run(|name| name == "pricing.html");
    let page_resets: Vec<(String, bool)> = a
        .iter()
        .filter_map(|s| match s {
            Seen::Route(p, _, t, r) if t == "p_website.custom" => Some((p.clone(), *r)),
            _ => None,
        })
        .collect();
    for (p, r) in page_resets {
        assert_eq!(r, p == "/pricing");
    }
}

#[test]
fn unexpected_event_is_rejected() {
    let (mut seeder, _) = SiteSeeder::new(contents());
    let a = seeder.step(SeedEvent::RouteReady(1));
    assert!(matches!(a, SeedAction::Rejected));
    let a = seeder.step(SeedEvent::DirectoryReady(None));
    assert!(matches!(a, SeedAction::SyncFile { parent_id: None, .. }));
}

#[test]
fn pages_are_seeded_in_catalog_order() {
    let pages = seed_pages();
    let names: Vec<&str> = pages.iter().map(|p| p.name.as_str()).collect();
    assert_eq!(
        names,
        vec![
            "index.html",
            "landing.html",
            "pricing.html",
            "blogs.html",
            "blogs_slug.html",
            "privacy-policy.html",
            "pricing.html",
            "blogs.html",
            "blogs_slug.html",
            "privacy-policy.html",
        ]
    );
    assert_eq!(pages[0].dir, vec!["website".to_string(), "pages".to_string()]);
    assert_eq!(pages[1].dir, vec!["website".to_string()]);
    assert_eq!(pages[1].body, PageBody::Homepage);
    assert_eq!(pages[4].path, "/blogs/*");
    assert_eq!(pages[9].dir, vec!["website".to_string()]);
    assert_eq!(pages[9].body, PageBody::PrivacyPolicy);
}

#[test]
fn seeds_hook_default() {
    let _hook: SeedsHook = SeedsHook::default();
}

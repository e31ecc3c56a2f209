use std::collections::HashMap;

use lariv_website::route::{plan_route_write, route_reference_rows, DbRouteRecord, RouteWrite};
use lariv_website::seeder::{SeedAction, SeedContents, SeedEvent, SiteSeeder, ThemePreferences};
use lariv_website::vnode::{BlobRead, FileAction, FileEvent, FileSync};

/// An in-memory stand-in for the database and file store.
#[derive(Default, Clone, PartialEq, Debug)]
struct Store {
    dirs: HashMap<Vec<String>, i64>,
    files: HashMap<(Option<i64>, String), (i64, Option<Vec<u8>>)>,
    routes: HashMap<String, (i64, Option<i64>, Option<i64>, i64, bool, String, Option<String>)>,
    refs: HashMap<i64, Vec<i64>>,
    prefs: Option<ThemePreferences>,
    next_id: i64,
    writes: usize,
}

impl Store {
    fn fresh(&mut self) -> i64 {
        self.next_id += 1;
        self.next_id
    }

    fn sync_file(&mut self, parent: Option<i64>, name: &str, bytes: Vec<u8>) -> (i64, bool) {
        let key = (parent, name.to_string());
        let (mut sync, mut action) = FileSync::new(bytes.clone());
        loop {
            let event = match action {
                FileAction::FindChild => FileEvent::Found(self.files.get(&key).map(|f| f.0)),
                FileAction::OpenBlob { .. } => FileEvent::Blob(match &self.files[&key].1 {
                    Some(b) => BlobRead::Contents(b.clone()),
                    None => BlobRead::Missing,
                }),
                FileAction::ReplaceContent { existing } => {
                    self.writes += 1;
                    self.files.insert(key.clone(), (existing, Some(bytes.clone())));
                    FileEvent::Written(existing)
                }
                FileAction::CreateNode => {
                    self.writes += 1;
                    let id = self.fresh();
                    self.files.insert(key.clone(), (id, Some(bytes.clone())));
                    FileEvent::Written(id)
                }
                FileAction::Finished { vnode_id, rewritten } => return (vnode_id, rewritten),
                FileAction::Fail(e) => panic!("{e:?}"),
            };
            action = sync.step(event);
        }
    }

    fn ensure_route(&mut self, path: &str, page_id: i64, theme: &str, reset: bool, now: i64) -> i64 {
        let existing = self.routes.get(path).map(|r| DbRouteRecord {
            id: r.0,
            created_at: r.1,
            updated_at: r.2,
            path: path.to_string(),
            page_id: r.3,
            is_active: r.4,
            theme: r.5.clone(),
            grapes_project: r.6.clone(),
        });
        let request = lariv_website::route::RouteRequest {
            path: path.to_string(),
            page_id,
            theme: theme.to_string(),
            reset_grapes_project: reset,
        };
        match plan_route_write(existing, &request, now) {
            RouteWrite::Update(r) => {
                if reset {
                    self.writes += 1;
                }
                self.routes.insert(
                    path.to_string(),
                    (r.id, r.created_at, r.updated_at, r.page_id, r.is_active, r.theme, r.grapes_project),
                );
                r.id
            }
            RouteWrite::Insert(r) => {
                self.writes += 1;
                let id = self.fresh();
                self.routes.insert(
                    path.to_string(),
                    (id, r.created_at, r.updated_at, r.page_id, r.is_active, r.theme, r.grapes_project),
                );
                id
            }
        }
    }

    fn seed(&mut self, now: i64) {
        let (mut seeder, mut action) = SiteSeeder::new(contents());
        loop {
            let event = match action {
                SeedAction::EnsureDirectory(path) => {
                    let id = match self.dirs.get(&path) {
                        Some(id) => *id,
                        None => {
                            self.writes += 1;
                            let id = self.fresh();
                            self.dirs.insert(path, id);
                            id
                        }
                    };
                    SeedEvent::DirectoryReady(Some(id))
                }
                SeedAction::SyncFile { parent_id, name, bytes } => {
                    let (vnode_id, rewritten) = self.sync_file(parent_id, &name, bytes);
                    SeedEvent::FileReady { vnode_id, rewritten }
                }
                SeedAction::SavePreferences(p) => {
                    self.prefs = Some(p);
                    SeedEvent::PreferencesSaved
                }
                SeedAction::EnsureRoute(r) => SeedEvent::RouteReady(self.ensure_route(
                    &r.path,
                    r.page_id,
                    &r.theme,
                    r.reset_grapes_project,
                    now,
                )),
                SeedAction::ReplaceRouteRefs { route_id, vnode_ids } => {
                    let rows = route_reference_rows(route_id, &vnode_ids);
                    self.refs.insert(route_id, rows.iter().map(|r| r.v_node_id).collect());
                    SeedEvent::RefsReplaced
                }
                SeedAction::Finished => return,
                SeedAction::Rejected => panic!("rejected"),
            };
            action = seeder.step(event);
        }
    }
}

fn contents() -> SeedContents {
    SeedContents {
        theme_css: b"body{}".to_vec(),
        theme_js: b"void 0".to_vec(),
        logo_svg: b"<svg/>".to_vec(),
        main_artwork_svg: b"<svg>art</svg>".to_vec(),
        benchmark_metrics_json: b"{}".to_vec(),
        header_html: r#"<img src="/static/logo.svg">"#.to_string(),
        footer_html: "/static/benchmark_metrics.json".to_string(),
        homepage_html: r#"<img src="/static/main-artwork.svg">"#.to_string(),
        pricing_html: "pricing".to_string(),
        blogs_html: "blogs".to_string(),
        blogs_slug_html: "post".to_string(),
        privacy_policy_html: "privacy".to_string(),
    }
}

fn without_route_times(s: &Store) -> Store {
    let mut s = s.clone();
    for r in s.routes.values_mut() {
        r.2 = None;
    }
    s.writes = 0;
    s
}

#[test]
fn second_seed_writes_nothing() {
    let mut store = Store::default();
    store.seed(100);
    assert!(store.writes > 0);
    let after_first = store.clone();
    store.writes = 0;
    store.seed(200);
    assert_eq!(store.writes, 0);
    assert_eq!(without_route_times(&store), without_route_times(&after_first));
    assert!(store.routes.values().all(|r| r.2 == Some(200)));
    assert_eq!(store.routes["/"].3, after_first.files[&(Some(after_first.dirs[&vec!["website".to_string()]]), "landing.html".to_string())].0);
}

#[test]
fn second_seed_after_blob_loss_rewrites_only_that_file() {
    let mut store = Store::default();
    store.seed(100);
    let key = (Some(store.dirs[&vec!["website".to_string(), "pages".to_string()]]), "pricing.html".to_string());
    store.files.get_mut(&key).unwrap().1 = None;
    store.routes.get_mut("/pricing").unwrap().6 = Some("project".to_string());
    store.writes = 0;
    store.seed(200);
    // the lost blob is rewritten, and the route of the rewritten page drops its builder
    // project; nothing else is written
    assert_eq!(store.writes, 2);
    assert_eq!(store.routes["/pricing"].6, None);
}

//! A model of what the seed acts on (folders, files and their blobs, routes, route
//! references, preferences) and of a complete seed run over it, with what holds of
//! seeding twice.

use vstd::prelude::*;
use crate::catalog::{
    custom_theme_id, footer_name, header_name, page_body, page_dir, page_name, page_path,
    static_asset_name, static_dir, theme_css_name, theme_js_name, themes_dir, website_dir,
    pages_dir, PAGE_COUNT, STATIC_ASSET_COUNT,
};
use crate::laws::remaining_steps;
use crate::media::{media_url, static_ref};
use crate::route::{updated_route, RouteView};
use crate::vnode::{file_transition, BlobRead, FileAction, FileEvent, FileStep};
use crate::seeder::{
    body_html, initial_seeder, markup_bytes, seed_transition, static_asset_bytes,
    theme_preferences_spec, ActionView, ContentsView, SeedEvent, SeedPhase, SeederView,
    ThemePreferences,
};

verus! {

/// The store: folder ids by path; files by (folder, name) with their id and stored blob
/// (`None`: the blob is missing); routes by path; references by route id; the
/// preferences; and the next free id.
pub struct StoreView {
    pub dirs: Map<Seq<Seq<char>>, i64>,
    pub files: Map<(Option<i64>, Seq<char>), (i64, Option<Seq<u8>>)>,
    pub routes: Map<Seq<char>, RouteView>,
    pub refs: Map<i64, Seq<i64>>,
    pub prefs: Option<ThemePreferences>,
    pub next_id: int,
}

/// The fresh route written for a request with no route under its path.
pub open spec fn new_route_view(
    id: i64,
    path: Seq<char>,
    page_id: i64,
    theme: Seq<char>,
    now: i64,
) -> RouteView {
    RouteView {
        id,
        created_at: Some(now),
        updated_at: Some(now),
        path,
        page_id,
        is_active: true,
        theme,
        grapes_project: None,
    }
}

/// Performing action `a` on store `w` at instant `now`: the store after it, the report
/// for the seed, and whether it wrote (created a folder, file or route, rewrote a blob,
/// or dropped a builder project). Files are kept in place as `FileSync` decides
/// (`file_follows_file_sync`), routes written as `plan_route_write` decides
/// (`updated_route`, or a fresh route as `is_new_route` describes).
pub open spec fn perform(w: StoreView, a: ActionView, now: i64) -> (StoreView, SeedEvent, nat) {
    match a {
        ActionView::EnsureDirectory(path) => if w.dirs.contains_key(path) {
            (w, SeedEvent::DirectoryReady(Some(w.dirs[path])), 0)
        } else {
            (
                StoreView {
                    dirs: w.dirs.insert(path, w.next_id as i64),
                    next_id: w.next_id + 1,
                    ..w
                },
                SeedEvent::DirectoryReady(Some(w.next_id as i64)),
                1,
            )
        },
        ActionView::SyncFile { parent_id, name, bytes } => {
            let key = (parent_id, name);
            if w.files.contains_key(key) {
                let id = w.files[key].0;
                if w.files[key].1 == Some(bytes) {
                    (w, SeedEvent::FileReady { vnode_id: id, rewritten: false }, 0)
                } else {
                    (
                        StoreView { files: w.files.insert(key, (id, Some(bytes))), ..w },
                        SeedEvent::FileReady { vnode_id: id, rewritten: true },
                        1,
                    )
                }
            } else {
                (
                    StoreView {
                        files: w.files.insert(key, (w.next_id as i64, Some(bytes))),
                        next_id: w.next_id + 1,
                        ..w
                    },
                    SeedEvent::FileReady { vnode_id: w.next_id as i64, rewritten: true },
                    1,
                )
            }
        },
        ActionView::SavePreferences(p) => (
            StoreView { prefs: Some(p), ..w },
            SeedEvent::PreferencesSaved,
            0,
        ),
        ActionView::EnsureRoute { path, page_id, theme, reset_grapes_project } => if w.routes.contains_key(
            path,
        ) {
            let existing = w.routes[path];
            (
                StoreView {
                    routes: w.routes.insert(
                        path,
                        updated_route(existing, page_id, theme, reset_grapes_project, now),
                    ),
                    ..w
                },
                SeedEvent::RouteReady(existing.id),
                if reset_grapes_project { 1 } else { 0 },
            )
        } else {
            (
                StoreView {
                    routes: w.routes.insert(
                        path,
                        new_route_view(w.next_id as i64, path, page_id, theme, now),
                    ),
                    next_id: w.next_id + 1,
                    ..w
                },
                SeedEvent::RouteReady(w.next_id as i64),
                1,
            )
        },
        ActionView::ReplaceRouteRefs { route_id, vnode_ids } => (
            StoreView { refs: w.refs.insert(route_id, vnode_ids), ..w },
            SeedEvent::RefsReplaced,
            0,
        ),
        _ => (w, SeedEvent::RefsReplaced, 0),
    }
}

/// Running the seed from state `s` with pending action `a` over store `w` at instant
/// `now`, for at most `fuel` actions: the final seed state, the final store, and how
/// many actions wrote.
pub open spec fn seed_run(s: SeederView, a: ActionView, w: StoreView, now: i64, fuel: nat) -> (
    SeederView,
    StoreView,
    nat,
)
    decreases fuel,
{
    if fuel == 0 {
        (s, w, 0)
    } else {
        match a {
            ActionView::Finished | ActionView::Rejected => (s, w, 0),
            _ => {
                let (w2, e, wrote) = perform(w, a, now);
                let (s2, a2) = seed_transition(s, e);
                let r = seed_run(s2, a2, w2, now, (fuel - 1) as nat);
                (r.0, r.1, r.2 + wrote)
            },
        }
    }
}

/// Number of actions a complete seed performs.
pub open spec fn seed_actions() -> nat {
    (4 * PAGE_COUNT + 2 * STATIC_ASSET_COUNT + 9) as nat
}

/// A complete seed with contents `c` over store `w` at instant `now`.
pub open spec fn full_seed(c: ContentsView, w: StoreView, now: i64) -> (SeederView, StoreView, nat) {
    seed_run(initial_seeder(c), ActionView::EnsureDirectory(themes_dir()), w, now, seed_actions())
}

/// The model keeps a file in place as `FileSync` does. With no file under the key,
/// `FileSync` creates it and reports it rewritten; with a file whose blob reads as
/// `stored`,
/// it keeps the file unrewritten exactly when `stored` is the wanted bytes and otherwise
/// replaces its content under the same id; with a file whose blob is missing it replaces
/// the content. Each outcome is the report `perform` gives.
pub proof fn file_follows_file_sync(
    w: StoreView,
    parent_id: Option<i64>,
    name: Seq<char>,
    bytes: Seq<u8>,
    stored: Vec<u8>,
    now: i64,
)
    ensures
        ({
            let key = (parent_id, name);
            let reported = perform(w, ActionView::SyncFile { parent_id, name, bytes }, now).1;
            if !w.files.contains_key(key) {
                let (st1, act1) = file_transition(FileStep::LookingUp, bytes, FileEvent::Found(None));
                &&& act1 == FileAction::CreateNode
                &&& file_transition(st1, bytes, FileEvent::Written(w.next_id as i64)).1
                    == (FileAction::Finished { vnode_id: w.next_id as i64, rewritten: true })
                &&& reported == (SeedEvent::FileReady { vnode_id: w.next_id as i64, rewritten: true })
            } else {
                let id = w.files[key].0;
                let (st1, act1) = file_transition(FileStep::LookingUp, bytes, FileEvent::Found(Some(id)));
                let read = match w.files[key].1 {
                    Some(_) => BlobRead::Contents(stored),
                    None => BlobRead::Missing,
                };
                let (st2, act2) = file_transition(st1, bytes, FileEvent::Blob(read));
                &&& act1 == (FileAction::OpenBlob { existing: id })
                &&& (w.files[key].1 == Some(stored@) || w.files[key].1 is None) ==> {
                    &&& act2 == (FileAction::Finished { vnode_id: id, rewritten: false })
                        ==> reported == (SeedEvent::FileReady { vnode_id: id, rewritten: false })
                    &&& act2 == (FileAction::ReplaceContent { existing: id }) ==> {
                        &&& file_transition(st2, bytes, FileEvent::Written(id)).1 == (FileAction::Finished {
                            vnode_id: id,
                            rewritten: true,
                        })
                        &&& reported == (SeedEvent::FileReady { vnode_id: id, rewritten: true })
                    }
                    &&& (act2 is Finished || act2 is ReplaceContent)
                }
            }
        }),
{
}

// ---------------------------------------------------------------------------------------
// A store that holds the seed
// ---------------------------------------------------------------------------------------

/// Id of the file `name` in folder `path`.
pub open spec fn file_id(w: StoreView, path: Seq<Seq<char>>, name: Seq<char>) -> i64 {
    w.files[(Some(w.dirs[path]), name)].0
}

/// Whether folder `path` holds the file `name` with exactly `bytes`.
pub open spec fn file_holds(w: StoreView, path: Seq<Seq<char>>, name: Seq<char>, bytes: Seq<u8>) -> bool {
    &&& w.dirs.contains_key(path)
    &&& w.files.contains_key((Some(w.dirs[path]), name))
    &&& w.files[(Some(w.dirs[path]), name)].1 == Some(bytes)
}

/// Id of static asset `k`.
pub open spec fn static_file_id(w: StoreView, k: int) -> i64 {
    file_id(w, static_dir(), static_asset_name(k))
}

/// Id of page `j`'s file.
pub open spec fn page_file_id(w: StoreView, j: int) -> i64 {
    file_id(w, page_dir(j), page_name(j))
}

/// Id of the header file.
pub open spec fn header_file_id(w: StoreView) -> i64 {
    file_id(w, website_dir(), header_name())
}

/// Id of the footer file.
pub open spec fn footer_file_id(w: StoreView) -> i64 {
    file_id(w, website_dir(), footer_name())
}

/// `(name, /media/{id}/)` of the static assets in the store.
pub open spec fn store_media_urls(w: StoreView) -> Seq<(Seq<char>, Seq<char>)> {
    Seq::new(
        STATIC_ASSET_COUNT as nat,
        |k: int| (static_asset_name(k), media_url(static_file_id(w, k) as int)),
    )
}

/// The first page seeded with the same route path as page `j`.
pub open spec fn first_of_path(j: int) -> int {
    if j == 1 {
        0
    } else if j >= 6 {
        j - 4
    } else {
        j
    }
}

/// The last page seeded with the same route path as page `j`: its route ends on it.
pub open spec fn last_of_path(j: int) -> int {
    if first_of_path(j) == 0 {
        1
    } else {
        first_of_path(j) + 4
    }
}

/// Whether store `w` holds everything the seed with contents `c` puts in place: the
/// Custom theme files and preferences, the static media with their alias routes, the
/// header and footer, every page with the markup of the stored media, and every page
/// route on the last page of its path, under the Custom theme, referencing the header
/// and footer.
pub open spec fn holds_seed(w: StoreView, c: ContentsView) -> bool {
    &&& w.dirs.contains_key(themes_dir())
    &&& w.dirs.contains_key(static_dir())
    &&& w.dirs.contains_key(website_dir())
    &&& w.dirs.contains_key(pages_dir())
    &&& file_holds(w, themes_dir(), theme_css_name(), c.theme_css)
    &&& file_holds(w, themes_dir(), theme_js_name(), c.theme_js)
    &&& w.prefs == Some(
        theme_preferences_spec(
            file_id(w, themes_dir(), theme_css_name()),
            file_id(w, themes_dir(), theme_js_name()),
        ),
    )
    &&& forall|k: int|
        0 <= k < STATIC_ASSET_COUNT ==> {
            &&& #[trigger] file_holds(w, static_dir(), static_asset_name(k), static_asset_bytes(c, k))
            &&& w.routes.contains_key(static_ref(static_asset_name(k)))
            &&& w.routes[static_ref(static_asset_name(k))].page_id == static_file_id(w, k)
            &&& w.routes[static_ref(static_asset_name(k))].theme == Seq::<char>::empty()
            &&& w.routes[static_ref(static_asset_name(k))].is_active
        }
    &&& file_holds(w, website_dir(), header_name(), markup_bytes(c.header_html, store_media_urls(w)))
    &&& file_holds(w, website_dir(), footer_name(), markup_bytes(c.footer_html, store_media_urls(w)))
    &&& forall|j: int|
        0 <= j < PAGE_COUNT ==> {
            &&& #[trigger] file_holds(
                w,
                page_dir(j),
                page_name(j),
                markup_bytes(body_html(c, page_body(j)), store_media_urls(w)),
            )
            &&& w.routes.contains_key(page_path(j))
            &&& w.routes[page_path(j)].page_id == page_file_id(w, last_of_path(j))
            &&& w.routes[page_path(j)].theme == custom_theme_id()
            &&& w.routes[page_path(j)].is_active
            &&& w.refs.contains_key(w.routes[page_path(j)].id)
            &&& w.refs[w.routes[page_path(j)].id] == seq![header_file_id(w), footer_file_id(w)]
        }
}

/// Whether `w2` is `w` with, at most, later route timestamps: same folders, files,
/// references, preferences and free id, the same routes with the same fields but for
/// `updated_at`.
pub open spec fn same_but_route_times(w: StoreView, w2: StoreView) -> bool {
    &&& w2.dirs == w.dirs
    &&& w2.files == w.files
    &&& w2.refs == w.refs
    &&& w2.prefs == w.prefs
    &&& w2.next_id == w.next_id
    &&& w2.routes.dom() == w.routes.dom()
    &&& forall|p: Seq<char>|
        #[trigger] w.routes.contains_key(p) ==> w2.routes[p] == (RouteView {
            updated_at: w2.routes[p].updated_at,
            ..w.routes[p]
        })
}


// ---------------------------------------------------------------------------------------
// Seeding over a store that holds the seed
// ---------------------------------------------------------------------------------------

/// Whether `p` is the route path of some page.
pub open spec fn is_page_path(p: Seq<char>) -> bool {
    p == page_path(0) || p == page_path(2) || p == page_path(3) || p == page_path(4) || p
        == page_path(5)
}

/// Two pages share a route path exactly when they are the same page or a page and its
/// `website/*.html` counterpart (or the index and the landing page).
pub proof fn page_paths_shared(i: int, j: int)
    requires
        0 <= i < PAGE_COUNT,
        0 <= j < PAGE_COUNT,
    ensures
        (page_path(i) == page_path(j)) <==> (first_of_path(i) == first_of_path(j)),
        is_page_path(page_path(i)),
{
    reveal_strlit("/");
    reveal_strlit("/pricing");
    reveal_strlit("/blogs");
    reveal_strlit("/blogs/*");
    reveal_strlit("/privacy-policy");
    if first_of_path(i) != first_of_path(j) {
        let a = page_path(i);
        let b = page_path(j);
        if a.len() == b.len() {
            assert(a[1] != b[1] || a[2] != b[2] || a[6] != b[6]);
        }
        assert(a != b);
    }
}

/// Number of page routes already written when the seed is at `phase`.
pub open spec fn routes_done(phase: SeedPhase) -> int {
    match phase {
        SeedPhase::PageDir { index } => index as int,
        SeedPhase::PageFile { index } => index as int,
        SeedPhase::PageRoute { index } => index as int,
        SeedPhase::PageRefs { index } => index + 1,
        SeedPhase::Finished => PAGE_COUNT as int,
        _ => 0,
    }
}

/// The page the route of page `j`'s path points at once `done` page routes are written
/// over a store `w` holding the seed.
pub open spec fn route_page_after(w: StoreView, j: int, done: int) -> i64 {
    if last_of_path(j) < done {
        page_file_id(w, last_of_path(j))
    } else if first_of_path(j) < done {
        page_file_id(w, first_of_path(j))
    } else {
        w.routes[page_path(j)].page_id
    }
}

/// Whether store `w2`, while a seed runs over the store `w` holding the seed with `done`
/// page routes written, differs from `w` only in route timestamps and in the page of the
/// routes rewritten so far.
pub open spec fn store_agrees(w: StoreView, w2: StoreView, done: int) -> bool {
    &&& w2.dirs == w.dirs
    &&& w2.files == w.files
    &&& w2.refs == w.refs
    &&& w2.prefs == w.prefs
    &&& w2.next_id == w.next_id
    &&& w2.routes.dom() == w.routes.dom()
    &&& forall|p: Seq<char>|
        #[trigger] w.routes.contains_key(p) ==> w2.routes[p] == (RouteView {
            updated_at: w2.routes[p].updated_at,
            page_id: w2.routes[p].page_id,
            ..w.routes[p]
        })
    &&& forall|p: Seq<char>|
        #[trigger] w.routes.contains_key(p) && !is_page_path(p) ==> w2.routes[p].page_id
            == w.routes[p].page_id
    &&& forall|j: int|
        0 <= j < PAGE_COUNT ==> #[trigger] w2.routes[page_path(j)].page_id == route_page_after(
            w,
            j,
            done,
        )
}

/// Whether the seed has recorded the header by `phase`.
pub open spec fn header_recorded(phase: SeedPhase) -> bool {
    match phase {
        SeedPhase::FooterDir | SeedPhase::FooterFile | SeedPhase::PageDir { .. }
        | SeedPhase::PageFile { .. } | SeedPhase::PageRoute { .. } | SeedPhase::PageRefs { .. }
        | SeedPhase::Finished => true,
        _ => false,
    }
}

/// Whether the seed has recorded the footer by `phase`.
pub open spec fn footer_recorded(phase: SeedPhase) -> bool {
    match phase {
        SeedPhase::PageDir { .. } | SeedPhase::PageFile { .. } | SeedPhase::PageRoute { .. }
        | SeedPhase::PageRefs { .. } | SeedPhase::Finished => true,
        _ => false,
    }
}

/// Whether seed state `s` matches the store `w` holding the seed: same contents, nothing
/// reported rewritten, the recorded ids are those of the stored files.
pub open spec fn seeder_agrees(c: ContentsView, w: StoreView, s: SeederView) -> bool {
    &&& s.well_formed()
    &&& s.contents == c
    &&& !s.header_rewritten
    &&& !s.footer_rewritten
    &&& forall|k: int| 0 <= k < s.static_ids.len() ==> #[trigger] s.static_ids[k] == static_file_id(w, k)
    &&& header_recorded(s.phase) ==> s.header_id == header_file_id(w)
    &&& footer_recorded(s.phase) ==> s.footer_id == footer_file_id(w)
    &&& match s.phase {
        SeedPhase::ThemeCss { parent } => parent == Some(w.dirs[themes_dir()]),
        SeedPhase::ThemeJs { css } => css == file_id(w, themes_dir(), theme_css_name()),
        SeedPhase::StaticFile { parent, .. } => parent == Some(w.dirs[static_dir()]),
        SeedPhase::StaticRoute { parent, .. } => parent == Some(w.dirs[static_dir()]),
        _ => true,
    }
}

/// The action a seed at state `s` has pending over a store `w` that holds the seed.
pub open spec fn pending_action(c: ContentsView, w: StoreView, s: SeederView) -> ActionView {
    match s.phase {
        SeedPhase::ThemeDir => ActionView::EnsureDirectory(themes_dir()),
        SeedPhase::ThemeCss { .. } => ActionView::SyncFile {
            parent_id: Some(w.dirs[themes_dir()]),
            name: theme_css_name(),
            bytes: c.theme_css,
        },
        SeedPhase::ThemeJs { .. } => ActionView::SyncFile {
            parent_id: Some(w.dirs[themes_dir()]),
            name: theme_js_name(),
            bytes: c.theme_js,
        },
        SeedPhase::ThemePrefs => ActionView::SavePreferences(
            theme_preferences_spec(
                file_id(w, themes_dir(), theme_css_name()),
                file_id(w, themes_dir(), theme_js_name()),
            ),
        ),
        SeedPhase::StaticDir => ActionView::EnsureDirectory(static_dir()),
        SeedPhase::StaticFile { index, .. } => ActionView::SyncFile {
            parent_id: Some(w.dirs[static_dir()]),
            name: static_asset_name(index as int),
            bytes: static_asset_bytes(c, index as int),
        },
        SeedPhase::StaticRoute { index, .. } => ActionView::EnsureRoute {
            path: static_ref(static_asset_name(index as int)),
            page_id: static_file_id(w, index as int),
            theme: Seq::empty(),
            reset_grapes_project: false,
        },
        SeedPhase::HeaderDir => ActionView::EnsureDirectory(website_dir()),
        SeedPhase::HeaderFile => ActionView::SyncFile {
            parent_id: Some(w.dirs[website_dir()]),
            name: header_name(),
            bytes: markup_bytes(c.header_html, store_media_urls(w)),
        },
        SeedPhase::FooterDir => ActionView::EnsureDirectory(website_dir()),
        SeedPhase::FooterFile => ActionView::SyncFile {
            parent_id: Some(w.dirs[website_dir()]),
            name: footer_name(),
            bytes: markup_bytes(c.footer_html, store_media_urls(w)),
        },
        SeedPhase::PageDir { index } => ActionView::EnsureDirectory(page_dir(index as int)),
        SeedPhase::PageFile { index } => ActionView::SyncFile {
            parent_id: Some(w.dirs[page_dir(index as int)]),
            name: page_name(index as int),
            bytes: markup_bytes(body_html(c, page_body(index as int)), store_media_urls(w)),
        },
        SeedPhase::PageRoute { index } => ActionView::EnsureRoute {
            path: page_path(index as int),
            page_id: page_file_id(w, index as int),
            theme: custom_theme_id(),
            reset_grapes_project: false,
        },
        SeedPhase::PageRefs { index } => ActionView::ReplaceRouteRefs {
            route_id: w.routes[page_path(index as int)].id,
            vnode_ids: seq![header_file_id(w), footer_file_id(w)],
        },
        SeedPhase::Finished => ActionView::Finished,
    }
}

/// Whether a seed at state `s` with pending action `a` over store `w2` is a seed over
/// the store `w`, which holds the seed with contents `c`, that has written nothing.
pub open spec fn quiet_reseed(c: ContentsView, w: StoreView, s: SeederView, a: ActionView, w2: StoreView) -> bool {
    &&& holds_seed(w, c)
    &&& store_agrees(w, w2, routes_done(s.phase))
    &&& seeder_agrees(c, w, s)
    &&& a == pending_action(c, w, s)
}

/// Once every static asset is recorded, the seed's media URLs are the store's.
proof fn media_urls_are_stored(c: ContentsView, w: StoreView, s: SeederView)
    requires
        seeder_agrees(c, w, s),
        s.static_ids.len() == STATIC_ASSET_COUNT,
    ensures
        s.media_urls == store_media_urls(w),
{
    assert(s.media_urls =~= store_media_urls(w));
}


/// One action of a seed over a store that holds the seed writes nothing and keeps the
/// seed quiet, one step closer to its end.
#[verifier::rlimit(60)]
proof fn quiet_step(c: ContentsView, w: StoreView, s: SeederView, a: ActionView, w2: StoreView, now: i64)
    requires
        quiet_reseed(c, w, s, a, w2),
        s.phase != SeedPhase::Finished,
    ensures
        ({
            let (w3, e, wrote) = perform(w2, a, now);
            let (s3, a3) = seed_transition(s, e);
            &&& wrote == 0
            &&& quiet_reseed(c, w, s3, a3, w3)
            &&& remaining_steps(s3.phase) == remaining_steps(s.phase) - 1
        }),
{
    let (w3, e, wrote) = perform(w2, a, now);
    let (s3, a3) = seed_transition(s, e);
    match s.phase {
        SeedPhase::StaticFile { parent, index } => {
            assert(file_holds(w, static_dir(), static_asset_name(index as int), static_asset_bytes(c, index as int)));
            assert forall|k: int| 0 <= k < s3.static_ids.len() implies #[trigger] s3.static_ids[k]
                == static_file_id(w, k) by {
                if k < s.static_ids.len() {
                    assert(s3.static_ids[k] == s.static_ids[k]);
                }
            }
            crate::laws::seed_keeps_well_formed(s, e);
        },
        SeedPhase::StaticRoute { parent, index } => {
            let path = static_ref(static_asset_name(index as int));
            assert(file_holds(w, static_dir(), static_asset_name(index as int), static_asset_bytes(c, index as int)));
            assert(w.routes.contains_key(path));
            assert(w3.routes.dom() =~= w.routes.dom());
            assert forall|j: int| 0 <= j < PAGE_COUNT implies #[trigger] w3.routes[page_path(j)].page_id
                == route_page_after(w, j, 0) by {
                assert(file_holds(w, page_dir(j), page_name(j), markup_bytes(body_html(c, page_body(j)), store_media_urls(w))));
            }
            crate::laws::seed_keeps_well_formed(s, e);
        },
        SeedPhase::HeaderDir => {
            media_urls_are_stored(c, w, s);
        },
        SeedPhase::FooterDir => {
            media_urls_are_stored(c, w, s);
        },
        SeedPhase::PageDir { index } => {
            media_urls_are_stored(c, w, s);
        },
        SeedPhase::PageFile { index } => {
            assert(file_holds(w, page_dir(index as int), page_name(index as int), markup_bytes(body_html(c, page_body(index as int)), store_media_urls(w))));
        },
        SeedPhase::PageRoute { index } => {
            let i = index as int;
            media_urls_same(w, w3);
            assert forall|n: int| 0 <= n < slot_count() && remaining_steps(s3.phase) <= #[trigger] slot_done_at(n) implies file_holds(w3, slot_path(n), slot_name(n), slot_bytes(c, w3, n)) by {
                assert(file_holds(w, slot_path(n), slot_name(n), slot_bytes(c, w, n)));
            }
            let path = page_path(i);
            assert(file_holds(w, page_dir(i), page_name(i), markup_bytes(body_html(c, page_body(i)), store_media_urls(w))));
            page_paths_shared(i, i);
            assert(w3.routes.dom() =~= w.routes.dom());
            assert forall|j: int| 0 <= j < PAGE_COUNT implies #[trigger] w3.routes[page_path(j)].page_id
                == route_page_after(w, j, i + 1) by {
                page_paths_shared(i, j);
                assert(file_holds(w, page_dir(j), page_name(j), markup_bytes(body_html(c, page_body(j)), store_media_urls(w))));
            }
        },
        SeedPhase::PageRefs { index } => {
            let i = index as int;
            assert(file_holds(w, page_dir(i), page_name(i), markup_bytes(body_html(c, page_body(i)), store_media_urls(w))));
            assert(w3.refs =~= w.refs);
        },
        _ => {},
    }
}


/// A quiet seed runs to its end without writing.
proof fn quiet_run(c: ContentsView, w: StoreView, s: SeederView, a: ActionView, w2: StoreView, now: i64, fuel: nat)
    requires
        quiet_reseed(c, w, s, a, w2),
        fuel >= remaining_steps(s.phase),
    ensures
        ({
            let r = seed_run(s, a, w2, now, fuel);
            &&& r.0.phase == SeedPhase::Finished
            &&& r.2 == 0
            &&& store_agrees(w, r.1, PAGE_COUNT as int)
            &&& seeder_agrees(c, w, r.0)
        }),
    decreases fuel,
{
    if s.phase == SeedPhase::Finished {
        if fuel > 0 {
            assert(a == ActionView::Finished);
        }
    } else {
        let (w3, e, wrote) = perform(w2, a, now);
        let (s3, a3) = seed_transition(s, e);
        quiet_step(c, w, s, a, w2, now);
        assert(fuel > 0);
        assert(!(a is Finished) && !(a is Rejected));
        quiet_run(c, w, s3, a3, w3, now, (fuel - 1) as nat);
    }
}

/// Seeding again over a store that holds the seed writes nothing: no folder, file or
/// route is created, no blob rewritten and no builder project dropped; the seed reaches
/// its end, with the store's static media URLs, and leaves the store as it was but for
/// the timestamps of the routes it touched.
pub proof fn reseed_writes_nothing(c: ContentsView, w: StoreView, now: i64)
    requires
        holds_seed(w, c),
    ensures
        full_seed(c, w, now).0.phase == SeedPhase::Finished,
        full_seed(c, w, now).2 == 0,
        full_seed(c, w, now).0.media_urls == store_media_urls(w),
        same_but_route_times(w, full_seed(c, w, now).1),
{
    let s0 = initial_seeder(c);
    assert(store_agrees(w, w, 0));
    assert(seeder_agrees(c, w, s0));
    quiet_run(c, w, s0, ActionView::EnsureDirectory(themes_dir()), w, now, seed_actions());
    let r = full_seed(c, w, now);
    media_urls_are_stored(c, w, r.0);
    assert forall|p: Seq<char>| #[trigger] w.routes.contains_key(p) implies r.1.routes[p] == (
    RouteView { updated_at: r.1.routes[p].updated_at, ..w.routes[p] }) by {
        if is_page_path(p) {
            let j = if p == page_path(0) {
                0
            } else if p == page_path(2) {
                2
            } else if p == page_path(3) {
                3
            } else if p == page_path(4) {
                4
            } else {
                5
            };
            assert(file_holds(w, page_dir(j), page_name(j), markup_bytes(body_html(c, page_body(j)), store_media_urls(w))));
            assert(r.1.routes[page_path(j)].page_id == route_page_after(w, j, PAGE_COUNT as int));
        }
    }
}


// ---------------------------------------------------------------------------------------
// A first seed
// ---------------------------------------------------------------------------------------

/// Number of files the seed keeps in place.
pub open spec fn slot_count() -> int {
    7 + PAGE_COUNT
}

/// Folder of the seed's file `n`: theme stylesheet and script, static media, header,
/// footer, pages, in seeding order.
pub open spec fn slot_path(n: int) -> Seq<Seq<char>> {
    if n < 2 {
        themes_dir()
    } else if n < 5 {
        static_dir()
    } else if n < 7 {
        website_dir()
    } else {
        page_dir(n - 7)
    }
}

/// File name of the seed's file `n`.
pub open spec fn slot_name(n: int) -> Seq<char> {
    if n == 0 {
        theme_css_name()
    } else if n == 1 {
        theme_js_name()
    } else if n < 5 {
        static_asset_name(n - 2)
    } else if n == 5 {
        header_name()
    } else if n == 6 {
        footer_name()
    } else {
        page_name(n - 7)
    }
}

/// The seed's files are distinct (folder, name) pairs.
pub proof fn slots_distinct(n: int, m: int)
    requires
        0 <= n < slot_count(),
        0 <= m < slot_count(),
        n != m,
    ensures
        slot_path(n) != slot_path(m) || slot_name(n) != slot_name(m),
{
    reveal_strlit("website");
    reveal_strlit("pages");
    reveal_strlit("themes");
    reveal_strlit("static");
    reveal_strlit("lariv.css");
    reveal_strlit("lariv.js");
    reveal_strlit("logo.svg");
    reveal_strlit("main-artwork.svg");
    reveal_strlit("benchmark_metrics.json");
    reveal_strlit("header.html");
    reveal_strlit("footer.html");
    reveal_strlit("index.html");
    reveal_strlit("landing.html");
    reveal_strlit("pricing.html");
    reveal_strlit("blogs.html");
    reveal_strlit("blogs_slug.html");
    reveal_strlit("privacy-policy.html");
    seed_dirs_distinct();
    let (pn, pm) = (slot_path(n), slot_path(m));
    let (nn, nm) = (slot_name(n), slot_name(m));
    if pn == pm {
        assert(nn.len() != nm.len() || nn[0] != nm[0]);
    }
}

/// The folders the seed uses are distinct paths.
pub proof fn seed_dirs_distinct()
    ensures
        themes_dir() != static_dir(),
        themes_dir() != website_dir(),
        themes_dir() != pages_dir(),
        static_dir() != website_dir(),
        static_dir() != pages_dir(),
        website_dir() != pages_dir(),
{
    reveal_strlit("pages");
    reveal_strlit("themes");
    reveal_strlit("static");
    assert("themes"@[0] == 't' && "static"@[0] == 's' && "pages"@[0] == 'p');
    assert("themes"@ != "static"@);
    assert("themes"@ != "pages"@);
    assert("static"@ != "pages"@);
    assert(themes_dir()[1] == "themes"@);
    assert(static_dir()[1] == "static"@);
    assert(pages_dir()[1] == "pages"@);
    assert(website_dir().len() == 1 && themes_dir().len() == 2 && static_dir().len() == 2
        && pages_dir().len() == 2);
}

/// The static alias routes are distinct from each other and from the page routes.
pub proof fn static_paths_distinct(k: int, m: int, j: int)
    requires
        0 <= k < STATIC_ASSET_COUNT,
        0 <= m < STATIC_ASSET_COUNT,
        0 <= j < PAGE_COUNT,
    ensures
        k != m ==> static_ref(static_asset_name(k)) != static_ref(static_asset_name(m)),
        static_ref(static_asset_name(k)) != page_path(j),
        !is_page_path(static_ref(static_asset_name(k))),
{
    reveal_strlit("logo.svg");
    reveal_strlit("main-artwork.svg");
    reveal_strlit("benchmark_metrics.json");
    reveal_strlit("/");
    reveal_strlit("/pricing");
    reveal_strlit("/blogs");
    reveal_strlit("/blogs/*");
    reveal_strlit("/privacy-policy");
    let a = static_ref(static_asset_name(k));
    assert(a[1] == 's');
    if k != m {
        let b = static_ref(static_asset_name(m));
        assert(a.len() != b.len() || a[8] != b[8]);
    }
    assert(page_path(j).len() == 1 || page_path(j)[1] != 's');
    assert(page_path(0).len() == 1 && page_path(2)[1] != 's' && page_path(3)[1] != 's'
        && page_path(4)[1] != 's' && page_path(5)[1] != 's');
}


/// The bytes the seed with contents `c` puts in its file `n`, over store `w`.
pub open spec fn slot_bytes(c: ContentsView, w: StoreView, n: int) -> Seq<u8> {
    if n == 0 {
        c.theme_css
    } else if n == 1 {
        c.theme_js
    } else if n < 5 {
        static_asset_bytes(c, n - 2)
    } else if n == 5 {
        markup_bytes(c.header_html, store_media_urls(w))
    } else if n == 6 {
        markup_bytes(c.footer_html, store_media_urls(w))
    } else {
        markup_bytes(body_html(c, page_body(n - 7)), store_media_urls(w))
    }
}

/// The seed has kept its file `n` in place once no more than this many reports remain.
pub open spec fn slot_done_at(n: int) -> int {
    if n == 0 {
        53
    } else if n == 1 {
        52
    } else if n < 5 {
        49 - 2 * (n - 2)
    } else if n == 5 {
        42
    } else if n == 6 {
        40
    } else {
        38 - 4 * (n - 7)
    }
}

/// Number of page route references already replaced when the seed is at `phase`.
pub open spec fn refs_done(phase: SeedPhase) -> int {
    match phase {
        SeedPhase::PageDir { index } => index as int,
        SeedPhase::PageFile { index } => index as int,
        SeedPhase::PageRoute { index } => index as int,
        SeedPhase::PageRefs { index } => index as int,
        SeedPhase::Finished => PAGE_COUNT as int,
        _ => 0,
    }
}

/// The last page written among those sharing page `j`'s route path, once `done` page
/// routes are written (`j < done`).
pub open spec fn latest_page(j: int, done: int) -> int {
    if last_of_path(j) < done {
        last_of_path(j)
    } else {
        first_of_path(j)
    }
}

/// Whether the alias route of static asset `k` is in place in `w`.
pub open spec fn static_route_holds(w: StoreView, k: int) -> bool {
    &&& w.routes.contains_key(static_ref(static_asset_name(k)))
    &&& w.routes[static_ref(static_asset_name(k))].page_id == static_file_id(w, k)
    &&& w.routes[static_ref(static_asset_name(k))].theme == Seq::<char>::empty()
    &&& w.routes[static_ref(static_asset_name(k))].is_active
}

/// Whether the route of page `j` is in place in `w`, on the last page of its path among
/// the first `done` pages.
pub open spec fn page_route_holds(w: StoreView, j: int, done: int) -> bool {
    &&& w.routes.contains_key(page_path(j))
    &&& w.routes[page_path(j)].page_id == page_file_id(w, latest_page(j, done))
    &&& w.routes[page_path(j)].theme == custom_theme_id()
    &&& w.routes[page_path(j)].is_active
}

/// Whether the route of page `j` references the header and footer in `w`.
pub open spec fn page_refs_hold(w: StoreView, j: int) -> bool {
    &&& w.refs.contains_key(w.routes[page_path(j)].id)
    &&& w.refs[w.routes[page_path(j)].id] == seq![header_file_id(w), footer_file_id(w)]
}

/// A store a seed can run over: distinct folder paths have distinct ids, all below the
/// next free id.
pub open spec fn store_well_formed(w: StoreView) -> bool {
    &&& 0 <= w.next_id
    &&& forall|p: Seq<Seq<char>>| #[trigger] w.dirs.contains_key(p) ==> w.dirs[p] < w.next_id
    &&& forall|p: Seq<Seq<char>>, q: Seq<Seq<char>>|
        #[trigger] w.dirs.contains_key(p) && #[trigger] w.dirs.contains_key(q) && p != q
            ==> w.dirs[p] != w.dirs[q]
}

/// `a` is `b` but for the builder project reset of a route request.
pub open spec fn same_but_reset(a: ActionView, b: ActionView) -> bool {
    match (a, b) {
        (
            ActionView::EnsureRoute { path, page_id, theme, .. },
            ActionView::EnsureRoute { path: p2, page_id: i2, theme: t2, .. },
        ) => path == p2 && page_id == i2 && theme == t2,
        _ => a == b,
    }
}

/// Whether the seed at state `s` with pending action `a` over store `w` has put in place
/// everything a seed puts in place before reaching `s`, with its recorded ids being those
/// of the store.
pub open spec fn first_seed(c: ContentsView, s: SeederView, a: ActionView, w: StoreView) -> bool {
    let r = remaining_steps(s.phase);
    &&& store_well_formed(w)
    &&& w.next_id + r <= i64::MAX
    &&& s.well_formed()
    &&& s.contents == c
    &&& r <= 54 ==> w.dirs.contains_key(themes_dir())
    &&& r <= 50 ==> w.dirs.contains_key(static_dir())
    &&& r <= 43 ==> w.dirs.contains_key(website_dir())
    &&& r <= 39 ==> w.dirs.contains_key(pages_dir())
    &&& forall|n: int|
        0 <= n < slot_count() && r <= #[trigger] slot_done_at(n) ==> file_holds(
            w,
            slot_path(n),
            slot_name(n),
            slot_bytes(c, w, n),
        )
    &&& r <= 51 ==> w.prefs == Some(
        theme_preferences_spec(
            file_id(w, themes_dir(), theme_css_name()),
            file_id(w, themes_dir(), theme_js_name()),
        ),
    )
    &&& forall|k: int|
        0 <= k < STATIC_ASSET_COUNT && r <= 48 - 2 * k ==> #[trigger] static_route_holds(w, k)
    &&& forall|j: int|
        0 <= j < PAGE_COUNT && j < routes_done(s.phase) ==> #[trigger] page_route_holds(
            w,
            j,
            routes_done(s.phase),
        )
    &&& forall|j: int| 0 <= j < PAGE_COUNT && j < refs_done(s.phase) ==> #[trigger] page_refs_hold(w, j)
    &&& forall|k: int| 0 <= k < s.static_ids.len() ==> #[trigger] s.static_ids[k] == static_file_id(w, k)
    &&& header_recorded(s.phase) ==> s.header_id == header_file_id(w)
    &&& footer_recorded(s.phase) ==> s.footer_id == footer_file_id(w)
    &&& match s.phase {
        SeedPhase::ThemeCss { parent } => parent == Some(w.dirs[themes_dir()]),
        SeedPhase::ThemeJs { css } => css == file_id(w, themes_dir(), theme_css_name()),
        SeedPhase::StaticFile { parent, .. } => parent == Some(w.dirs[static_dir()]),
        SeedPhase::StaticRoute { parent, .. } => parent == Some(w.dirs[static_dir()]),
        _ => true,
    }
    &&& same_but_reset(a, pending_action(c, w, s))
}


/// The store key of the seed's file `n`.
pub open spec fn slot_key(w: StoreView, n: int) -> (Option<i64>, Seq<char>) {
    (Some(w.dirs[slot_path(n)]), slot_name(n))
}

/// Keeping the seed's file `m` in place writes that file only.
proof fn sync_effect(w: StoreView, m: int, bytes: Seq<u8>, now: i64)
    requires
        store_well_formed(w),
        0 <= m < slot_count(),
        w.dirs.contains_key(slot_path(m)),
        w.next_id + 1 <= i64::MAX,
    ensures
        ({
            let (w3, e, _) = perform(
                w,
                ActionView::SyncFile { parent_id: Some(w.dirs[slot_path(m)]), name: slot_name(m), bytes },
                now,
            );
            &&& store_well_formed(w3)
            &&& w3.dirs == w.dirs
            &&& w3.routes == w.routes
            &&& w3.refs == w.refs
            &&& w3.prefs == w.prefs
            &&& w.next_id <= w3.next_id <= w.next_id + 1
            &&& file_holds(w3, slot_path(m), slot_name(m), bytes)
            &&& e matches SeedEvent::FileReady { vnode_id, .. } && vnode_id == file_id(
                w3,
                slot_path(m),
                slot_name(m),
            )
            &&& forall|n: int|
                0 <= n < slot_count() && n != m && #[trigger] w.dirs.contains_key(slot_path(n))
                    ==> w3.files.contains_key(slot_key(w, n)) == w.files.contains_key(
                    slot_key(w, n),
                ) && w3.files[slot_key(w, n)] == w.files[slot_key(w, n)]
        }),
{
    let (w3, e, _) = perform(
        w,
        ActionView::SyncFile { parent_id: Some(w.dirs[slot_path(m)]), name: slot_name(m), bytes },
        now,
    );
    assert forall|n: int|
        0 <= n < slot_count() && n != m && #[trigger] w.dirs.contains_key(slot_path(n))
            implies w3.files.contains_key(slot_key(w, n)) == w.files.contains_key(slot_key(w, n))
        && w3.files[slot_key(w, n)] == w.files[slot_key(w, n)] by {
        slots_distinct(n, m);
        assert(slot_key(w, n) != slot_key(w, m));
    }
}

/// The media URLs of a store depend only on its static files.
proof fn media_urls_unchanged(w: StoreView, w3: StoreView)
    requires
        w3.dirs == w.dirs,
        forall|k: int|
            0 <= k < STATIC_ASSET_COUNT ==> #[trigger] w3.files[slot_key(w, k + 2)] == w.files[slot_key(w, k + 2)],
    ensures
        store_media_urls(w3) == store_media_urls(w),
{
    assert forall|k: int| 0 <= k < STATIC_ASSET_COUNT implies static_file_id(w3, k) == static_file_id(w, k) by {
        assert(w3.files[slot_key(w, k + 2)] == w.files[slot_key(w, k + 2)]);
        assert(slot_path(k + 2) == static_dir());
        assert(slot_name(k + 2) == static_asset_name(k));
    }
    assert(store_media_urls(w3) =~= store_media_urls(w));
}


/// Creating a folder other than `website/static` keeps the media URLs.
proof fn media_urls_same(w: StoreView, w3: StoreView)
    requires
        w3.files == w.files,
        w.dirs.contains_key(static_dir()),
        w3.dirs[static_dir()] == w.dirs[static_dir()],
    ensures
        store_media_urls(w3) == store_media_urls(w),
{
    assert(store_media_urls(w3) =~= store_media_urls(w));
}

/// Once every static asset is recorded with the id it has in `w`, the seed's media URLs
/// are those of `w`.
proof fn recorded_media_urls(s: SeederView, w: StoreView)
    requires
        s.well_formed(),
        s.static_ids.len() == STATIC_ASSET_COUNT,
        forall|k: int| 0 <= k < s.static_ids.len() ==> #[trigger] s.static_ids[k] == static_file_id(w, k),
    ensures
        s.media_urls == store_media_urls(w),
{
    assert(s.media_urls =~= store_media_urls(w));
}

/// One action of a seed over a well-formed store puts its part in place and keeps what
/// the earlier actions put in place.
#[verifier::rlimit(100)]
proof fn first_step(c: ContentsView, s: SeederView, a: ActionView, w: StoreView, now: i64)
    requires
        first_seed(c, s, a, w),
        s.phase != SeedPhase::Finished,
    ensures
        first_seed(
            c,
            seed_transition(s, perform(w, a, now).1).0,
            seed_transition(s, perform(w, a, now).1).1,
            perform(w, a, now).0,
        ),
        remaining_steps(seed_transition(s, perform(w, a, now).1).0.phase) == remaining_steps(
            s.phase,
        ) - 1,
{
    let w3 = perform(w, a, now).0;
    let e = perform(w, a, now).1;
    let s3 = seed_transition(s, e).0;
    let a3 = seed_transition(s, e).1;
    crate::laws::seed_keeps_well_formed(s, e);
    match s.phase {
        SeedPhase::ThemeCss { parent } => {
            sync_effect(w, 0, c.theme_css, now);
            let r3 = remaining_steps(s3.phase);
            assert(store_well_formed(w3));
            assert(w3.next_id + r3 <= i64::MAX);
            assert(s3.well_formed());
            assert forall|n: int|
                0 <= n < slot_count() && r3 <= #[trigger] slot_done_at(n) implies file_holds(
                    w3,
                    slot_path(n),
                    slot_name(n),
                    slot_bytes(c, w3, n),
                ) by {
                assert(n == 0);
            }
            assert(same_but_reset(a3, pending_action(c, w3, s3)));
            assert(r3 <= 54 ==> w3.dirs.contains_key(themes_dir()));
            assert(r3 <= 51 ==> w3.prefs == Some(
                theme_preferences_spec(
                    file_id(w3, themes_dir(), theme_css_name()),
                    file_id(w3, themes_dir(), theme_js_name()),
                ),
            ));
            assert(forall|k: int| 0 <= k < s3.static_ids.len() ==> #[trigger] s3.static_ids[k] == static_file_id(w3, k));
            assert(header_recorded(s3.phase) ==> s3.header_id == header_file_id(w3));
            assert(match s3.phase {
                SeedPhase::ThemeCss { parent } => parent == Some(w3.dirs[themes_dir()]),
                SeedPhase::ThemeJs { css } => css == file_id(w3, themes_dir(), theme_css_name()),
                SeedPhase::StaticFile { parent, .. } => parent == Some(w3.dirs[static_dir()]),
                SeedPhase::StaticRoute { parent, .. } => parent == Some(w3.dirs[static_dir()]),
                _ => true,
            });
            assert(s3.contents == c);
        },
        SeedPhase::ThemeJs { css } => {
            sync_effect(w, 1, c.theme_js, now);
            assert(w.dirs.contains_key(slot_path(0)));
        },
        SeedPhase::StaticFile { parent, index } => {
            let m = 2 + index as int;
            sync_effect(w, m, static_asset_bytes(c, index as int), now);
            assert forall|k: int| 0 <= k < STATIC_ASSET_COUNT && remaining_steps(s3.phase) <= 48 - 2 * k implies #[trigger] static_route_holds(w3, k) by {
                assert(static_route_holds(w, k));
                assert(k < index);
                assert(w.dirs.contains_key(slot_path(k + 2)));
                assert(file_id(w3, slot_path(k + 2), slot_name(k + 2)) == file_id(w, slot_path(k + 2), slot_name(k + 2)));
            }
            assert forall|k: int| 0 <= k < s3.static_ids.len() implies #[trigger] s3.static_ids[k]
                == static_file_id(w3, k) by {
                if k < s.static_ids.len() {
                    assert(s3.static_ids[k] == s.static_ids[k]);
                    assert(w.dirs.contains_key(slot_path(k + 2)));
                    assert(slot_key(w, k + 2) == (Some(w.dirs[static_dir()]), static_asset_name(k)));
                }
            }
            assert(w.dirs.contains_key(slot_path(0)));
            assert(w.dirs.contains_key(slot_path(1)));
        },
        SeedPhase::StaticRoute { parent, index } => {
            assert forall|k: int|
                0 <= k < STATIC_ASSET_COUNT && remaining_steps(s3.phase) <= 48 - 2 * k implies #[trigger] static_route_holds(w3, k) by {
                static_paths_distinct(k, index as int, 0);
                if k != index {
                    assert(static_route_holds(w, k));
                }
            }
        },
        SeedPhase::HeaderFile => {
            recorded_media_urls(s, w);
            sync_effect(w, 5, markup_bytes(c.header_html, store_media_urls(w)), now);
            assert forall|k: int| 0 <= k < STATIC_ASSET_COUNT && remaining_steps(s3.phase) <= 48 - 2 * k implies #[trigger] static_route_holds(w3, k) by {
                assert(static_route_holds(w, k));
                assert(w.dirs.contains_key(slot_path(k + 2)));
                assert(file_id(w3, slot_path(k + 2), slot_name(k + 2)) == file_id(w, slot_path(k + 2), slot_name(k + 2)));
            }
            assert forall|k: int| 0 <= k < s.static_ids.len() implies #[trigger] s3.static_ids[k] == static_file_id(w3, k) by {
                assert(w.dirs.contains_key(slot_path(k + 2)));
                assert(file_id(w3, slot_path(k + 2), slot_name(k + 2)) == file_id(w, slot_path(k + 2), slot_name(k + 2)));
            }
            assert forall|k: int| 0 <= k < STATIC_ASSET_COUNT implies #[trigger] w3.files[slot_key(w, k + 2)]
                == w.files[slot_key(w, k + 2)] by {
                assert(w.dirs.contains_key(slot_path(k + 2)));
            }
            media_urls_unchanged(w, w3);
        },
        SeedPhase::FooterFile => {
            recorded_media_urls(s, w);
            sync_effect(w, 6, markup_bytes(c.footer_html, store_media_urls(w)), now);
            assert forall|k: int| 0 <= k < STATIC_ASSET_COUNT && remaining_steps(s3.phase) <= 48 - 2 * k implies #[trigger] static_route_holds(w3, k) by {
                assert(static_route_holds(w, k));
                assert(w.dirs.contains_key(slot_path(k + 2)));
                assert(file_id(w3, slot_path(k + 2), slot_name(k + 2)) == file_id(w, slot_path(k + 2), slot_name(k + 2)));
            }
            assert forall|k: int| 0 <= k < s.static_ids.len() implies #[trigger] s3.static_ids[k] == static_file_id(w3, k) by {
                assert(w.dirs.contains_key(slot_path(k + 2)));
                assert(file_id(w3, slot_path(k + 2), slot_name(k + 2)) == file_id(w, slot_path(k + 2), slot_name(k + 2)));
            }
            assert forall|k: int| 0 <= k < STATIC_ASSET_COUNT implies #[trigger] w3.files[slot_key(w, k + 2)]
                == w.files[slot_key(w, k + 2)] by {
                assert(w.dirs.contains_key(slot_path(k + 2)));
            }
            media_urls_unchanged(w, w3);
        },
        SeedPhase::PageDir { index } => {
            recorded_media_urls(s, w);
            media_urls_same(w, w3);
            assert forall|j: int| 0 <= j < PAGE_COUNT && j < routes_done(s3.phase) implies #[trigger] page_route_holds(w3, j, routes_done(s3.phase)) by {
                assert(page_route_holds(w, j, routes_done(s.phase)));
                let l = latest_page(j, routes_done(s.phase));
                assert(page_dir(l) == website_dir() || page_dir(l) == pages_dir());
                assert(w3.dirs[page_dir(l)] == w.dirs[page_dir(l)]);
            }
            assert forall|k: int| 0 <= k < STATIC_ASSET_COUNT && remaining_steps(s3.phase) <= 48 - 2 * k implies #[trigger] static_route_holds(w3, k) by {
                assert(static_route_holds(w, k));
            }
        },
        SeedPhase::PageFile { index } => {
            let m = 7 + index as int;
            recorded_media_urls(s, w);
            sync_effect(w, m, markup_bytes(body_html(c, page_body(index as int)), store_media_urls(w)), now);
            assert forall|k: int| 0 <= k < STATIC_ASSET_COUNT implies #[trigger] w3.files[slot_key(w, k + 2)]
                == w.files[slot_key(w, k + 2)] by {
                assert(w.dirs.contains_key(slot_path(k + 2)));
            }
            media_urls_unchanged(w, w3);
            let i = index as int;
            assert forall|n: int| 0 <= n < slot_count() && n != m && w.dirs.contains_key(slot_path(n)) implies
                #[trigger] file_id(w3, slot_path(n), slot_name(n)) == file_id(w, slot_path(n), slot_name(n)) by {
                assert(w.dirs.contains_key(slot_path(n)));
            }
            assert(w.dirs.contains_key(slot_path(0)) && w.dirs.contains_key(slot_path(1)));
            assert(file_id(w3, slot_path(0), slot_name(0)) == file_id(w, slot_path(0), slot_name(0)));
            assert(file_id(w3, slot_path(1), slot_name(1)) == file_id(w, slot_path(1), slot_name(1)));
            assert(w.dirs.contains_key(slot_path(5)) && w.dirs.contains_key(slot_path(6)));
            assert(file_id(w3, slot_path(5), slot_name(5)) == file_id(w, slot_path(5), slot_name(5)));
            assert(file_id(w3, slot_path(6), slot_name(6)) == file_id(w, slot_path(6), slot_name(6)));
            assert forall|k: int| 0 <= k < STATIC_ASSET_COUNT && remaining_steps(s3.phase) <= 48 - 2 * k implies #[trigger] static_route_holds(w3, k) by {
                assert(static_route_holds(w, k));
                assert(w.dirs.contains_key(slot_path(k + 2)));
                assert(file_id(w3, slot_path(k + 2), slot_name(k + 2)) == file_id(w, slot_path(k + 2), slot_name(k + 2)));
            }
            assert forall|k: int| 0 <= k < s3.static_ids.len() implies #[trigger] s3.static_ids[k] == static_file_id(w3, k) by {
                assert(w.dirs.contains_key(slot_path(k + 2)));
                assert(file_id(w3, slot_path(k + 2), slot_name(k + 2)) == file_id(w, slot_path(k + 2), slot_name(k + 2)));
            }
            assert forall|j: int| 0 <= j < PAGE_COUNT && j < routes_done(s3.phase) implies #[trigger] page_route_holds(w3, j, routes_done(s3.phase)) by {
                assert(page_route_holds(w, j, routes_done(s.phase)));
                let l = latest_page(j, routes_done(s.phase));
                assert(w.dirs.contains_key(slot_path(7 + l)));
                assert(file_id(w3, slot_path(7 + l), slot_name(7 + l)) == file_id(w, slot_path(7 + l), slot_name(7 + l)));
            }
            assert forall|j: int| 0 <= j < PAGE_COUNT && j < refs_done(s3.phase) implies #[trigger] page_refs_hold(w3, j) by {
                assert(page_refs_hold(w, j));
            }
        },
        SeedPhase::PageRoute { index } => {
            let i = index as int;
            media_urls_same(w, w3);
            assert forall|n: int| 0 <= n < slot_count() && remaining_steps(s3.phase) <= #[trigger] slot_done_at(n) implies file_holds(w3, slot_path(n), slot_name(n), slot_bytes(c, w3, n)) by {
                assert(file_holds(w, slot_path(n), slot_name(n), slot_bytes(c, w, n)));
            }
            assert forall|j: int| 0 <= j < PAGE_COUNT && j < routes_done(s3.phase) implies #[trigger] page_route_holds(w3, j, routes_done(s3.phase)) by {
                page_paths_shared(i, j);
                if page_path(j) != page_path(i) {
                    assert(page_route_holds(w, j, routes_done(s.phase)));
                }
            }
            assert forall|k: int|
                0 <= k < STATIC_ASSET_COUNT && remaining_steps(s3.phase) <= 48 - 2 * k implies #[trigger] static_route_holds(w3, k) by {
                static_paths_distinct(k, k, i);
                assert(static_route_holds(w, k));
            }
            assert forall|j: int| 0 <= j < PAGE_COUNT && j < refs_done(s3.phase) implies #[trigger] page_refs_hold(w3, j) by {
                page_paths_shared(i, j);
                assert(page_refs_hold(w, j));
                assert(page_route_holds(w, j, routes_done(s.phase)));
                assert(w3.routes[page_path(j)].id == w.routes[page_path(j)].id);
            }
        },
        SeedPhase::ThemeDir => { assert(first_seed(c, s3, a3, w3)); },
        SeedPhase::ThemePrefs => { assert(first_seed(c, s3, a3, w3)); },
        SeedPhase::StaticDir => { assert(first_seed(c, s3, a3, w3)); },
        SeedPhase::HeaderDir => {
            recorded_media_urls(s, w);
            media_urls_same(w, w3);
            assert forall|k: int| 0 <= k < STATIC_ASSET_COUNT && remaining_steps(s3.phase) <= 48 - 2 * k implies #[trigger] static_route_holds(w3, k) by {
                assert(static_route_holds(w, k));
            }
        },
        SeedPhase::FooterDir => {
            recorded_media_urls(s, w);
            media_urls_same(w, w3);
        },
        SeedPhase::PageRefs { index } => {
            let i = index as int;
            media_urls_same(w, w3);
            assert forall|n: int| 0 <= n < slot_count() && remaining_steps(s3.phase) <= #[trigger] slot_done_at(n) implies file_holds(w3, slot_path(n), slot_name(n), slot_bytes(c, w3, n)) by {
                assert(file_holds(w, slot_path(n), slot_name(n), slot_bytes(c, w, n)));
            }
            assert forall|j: int| 0 <= j < PAGE_COUNT && j < routes_done(s3.phase) implies #[trigger] page_route_holds(w3, j, routes_done(s3.phase)) by {
                assert(page_route_holds(w, j, routes_done(s.phase)));
            }
            assert forall|k: int| 0 <= k < STATIC_ASSET_COUNT && remaining_steps(s3.phase) <= 48 - 2 * k implies #[trigger] static_route_holds(w3, k) by {
                assert(static_route_holds(w, k));
            }
            media_urls_same(w, w3);
            assert forall|n: int| 0 <= n < slot_count() && remaining_steps(s3.phase) <= #[trigger] slot_done_at(n) implies file_holds(w3, slot_path(n), slot_name(n), slot_bytes(c, w3, n)) by {
                assert(file_holds(w, slot_path(n), slot_name(n), slot_bytes(c, w, n)));
            }
            assert forall|j: int| 0 <= j < PAGE_COUNT && j < routes_done(s3.phase) implies #[trigger] page_route_holds(w3, j, routes_done(s3.phase)) by {
                assert(page_route_holds(w, j, routes_done(s.phase)));
            }
            assert forall|k: int| 0 <= k < STATIC_ASSET_COUNT && remaining_steps(s3.phase) <= 48 - 2 * k implies #[trigger] static_route_holds(w3, k) by {
                assert(static_route_holds(w, k));
            }
            assert forall|j: int| 0 <= j < PAGE_COUNT && j < refs_done(s3.phase) implies #[trigger] page_refs_hold(w3, j) by {
                if j < i {
                    assert(page_refs_hold(w, j));
                }
            }
        },
        _ => {},
    }
    assert(first_seed(c, s3, a3, w3));
}


/// A seed over a well-formed store runs to its end, putting every part in place.
proof fn first_run(c: ContentsView, s: SeederView, a: ActionView, w: StoreView, now: i64, fuel: nat)
    requires
        first_seed(c, s, a, w),
        fuel >= remaining_steps(s.phase),
    ensures
        seed_run(s, a, w, now, fuel).0.phase == SeedPhase::Finished,
        first_seed(c, seed_run(s, a, w, now, fuel).0, ActionView::Finished, seed_run(s, a, w, now, fuel).1),
    decreases fuel,
{
    if s.phase == SeedPhase::Finished {
        if fuel > 0 {
            assert(a == ActionView::Finished);
        }
    } else {
        let w3 = perform(w, a, now).0;
        let e = perform(w, a, now).1;
        let s3 = seed_transition(s, e).0;
        let a3 = seed_transition(s, e).1;
        first_step(c, s, a, w, now);
        assert(fuel > 0);
        assert(!(a is Finished) && !(a is Rejected));
        first_run(c, s3, a3, w3, now, (fuel - 1) as nat);
    }
}

/// At its end a seed leaves a store that holds the seed, with the store's media URLs.
proof fn finished_holds(c: ContentsView, s: SeederView, w: StoreView)
    requires
        first_seed(c, s, ActionView::Finished, w),
        s.phase == SeedPhase::Finished,
    ensures
        holds_seed(w, c),
        s.media_urls == store_media_urls(w),
{
    recorded_media_urls(s, w);
    assert(slot_done_at(0) >= 0 && slot_done_at(1) >= 0 && slot_done_at(5) >= 0 && slot_done_at(6) >= 0);
    assert(file_holds(w, slot_path(0), slot_name(0), slot_bytes(c, w, 0)));
    assert(file_holds(w, slot_path(1), slot_name(1), slot_bytes(c, w, 1)));
    assert(file_holds(w, slot_path(5), slot_name(5), slot_bytes(c, w, 5)));
    assert(file_holds(w, slot_path(6), slot_name(6), slot_bytes(c, w, 6)));
    assert forall|k: int| 0 <= k < STATIC_ASSET_COUNT implies {
        &&& #[trigger] file_holds(w, static_dir(), static_asset_name(k), static_asset_bytes(c, k))
        &&& w.routes.contains_key(static_ref(static_asset_name(k)))
        &&& w.routes[static_ref(static_asset_name(k))].page_id == static_file_id(w, k)
        &&& w.routes[static_ref(static_asset_name(k))].theme == Seq::<char>::empty()
        &&& w.routes[static_ref(static_asset_name(k))].is_active
    } by {
        assert(slot_done_at(k + 2) >= 0);
        assert(file_holds(w, slot_path(k + 2), slot_name(k + 2), slot_bytes(c, w, k + 2)));
        assert(static_route_holds(w, k));
    }
    assert forall|j: int| 0 <= j < PAGE_COUNT implies {
        &&& #[trigger] file_holds(
            w,
            page_dir(j),
            page_name(j),
            markup_bytes(body_html(c, page_body(j)), store_media_urls(w)),
        )
        &&& w.routes.contains_key(page_path(j))
        &&& w.routes[page_path(j)].page_id == page_file_id(w, last_of_path(j))
        &&& w.routes[page_path(j)].theme == custom_theme_id()
        &&& w.routes[page_path(j)].is_active
        &&& w.refs.contains_key(w.routes[page_path(j)].id)
        &&& w.refs[w.routes[page_path(j)].id] == seq![header_file_id(w), footer_file_id(w)]
    } by {
        assert(slot_done_at(j + 7) >= 0);
        assert(file_holds(w, slot_path(j + 7), slot_name(j + 7), slot_bytes(c, w, j + 7)));
        assert(page_route_holds(w, j, routes_done(s.phase)));
        assert(latest_page(j, PAGE_COUNT as int) == last_of_path(j));
        assert(page_refs_hold(w, j));
    }
}

/// Seeding twice is seeding once. A complete seed over any well-formed store leaves a
/// store that holds the seed; seeding again over that store then writes nothing (no
/// folder, file or route created, no blob rewritten, no builder project dropped), finds
/// the same static media URLs, and leaves the store as the first seed left it but for
/// the timestamps of the routes it touched: the same folders, files and ids, preferences,
/// route references, and routes with the same ids, pages, themes and activity.
pub proof fn seeding_twice(c: ContentsView, w: StoreView, first: i64, second: i64)
    requires
        store_well_formed(w),
        w.next_id + seed_actions() <= i64::MAX,
    ensures
        full_seed(c, w, first).0.phase == SeedPhase::Finished,
        holds_seed(full_seed(c, w, first).1, c),
        full_seed(c, full_seed(c, w, first).1, second).0.phase == SeedPhase::Finished,
        full_seed(c, full_seed(c, w, first).1, second).2 == 0,
        full_seed(c, full_seed(c, w, first).1, second).0.media_urls == full_seed(c, w, first).0.media_urls,
        same_but_route_times(full_seed(c, w, first).1, full_seed(c, full_seed(c, w, first).1, second).1),
{
    let s0 = initial_seeder(c);
    let a0 = ActionView::EnsureDirectory(themes_dir());
    crate::laws::seed_length(c);
    assert(first_seed(c, s0, a0, w));
    first_run(c, s0, a0, w, first, seed_actions());
    let r1 = full_seed(c, w, first);
    finished_holds(c, r1.0, r1.1);
    reseed_writes_nothing(c, r1.1, second);
}

} // verus!

//! The site seed as a state machine: from the current step and what the outside world
//! reports, the next step and the next thing to do. The caller performs each action
//! (folders, files, preferences, routes) and reports back; the decisions are made here.
//!
//! Order of the seed: the Custom theme (stylesheet, script, preferences), the static
//! media with one `/static/{name}` alias route each, the shared header and footer, then
//! every page with its route and its references to the header and footer.

use vstd::prelude::*;
use crate::catalog::{
    custom_theme_id, custom_theme_key, footer_name, header_name, owned, page_body, page_dir, page_name, page_path,
    seed_page, segments_view, static_asset_file_name, static_asset_name, static_dir,
    static_segments, theme_css_name, theme_js_name, themes_dir, themes_segments, website_dir,
    website_segments, PageBody, PAGE_COUNT, STATIC_ASSET_COUNT,
};
use crate::media::{
    html_with_media_urls, media_rewrite, media_url, pairs_view, public_asset_url, static_ref,
    static_route_path,
};
use crate::route::RouteRequest;
use vstd::utf8::encode_utf8;

verus! {

/// The bytes and markup the seed puts in place.
pub struct SeedContents {
    pub theme_css: Vec<u8>,
    pub theme_js: Vec<u8>,
    pub logo_svg: Vec<u8>,
    pub main_artwork_svg: Vec<u8>,
    pub benchmark_metrics_json: Vec<u8>,
    pub header_html: String,
    pub footer_html: String,
    pub homepage_html: String,
    pub pricing_html: String,
    pub blogs_html: String,
    pub blogs_slug_html: String,
    pub privacy_policy_html: String,
}

/// The value of the seed contents.
pub struct ContentsView {
    pub theme_css: Seq<u8>,
    pub theme_js: Seq<u8>,
    pub logo_svg: Seq<u8>,
    pub main_artwork_svg: Seq<u8>,
    pub benchmark_metrics_json: Seq<u8>,
    pub header_html: Seq<char>,
    pub footer_html: Seq<char>,
    pub homepage_html: Seq<char>,
    pub pricing_html: Seq<char>,
    pub blogs_html: Seq<char>,
    pub blogs_slug_html: Seq<char>,
    pub privacy_policy_html: Seq<char>,
}

impl View for SeedContents {
    type V = ContentsView;

    open spec fn view(&self) -> ContentsView {
        ContentsView {
            theme_css: self.theme_css@,
            theme_js: self.theme_js@,
            logo_svg: self.logo_svg@,
            main_artwork_svg: self.main_artwork_svg@,
            benchmark_metrics_json: self.benchmark_metrics_json@,
            header_html: self.header_html@,
            footer_html: self.footer_html@,
            homepage_html: self.homepage_html@,
            pricing_html: self.pricing_html@,
            blogs_html: self.blogs_html@,
            blogs_slug_html: self.blogs_slug_html@,
            privacy_policy_html: self.privacy_policy_html@,
        }
    }
}

/// Bytes of static asset `i`.
pub open spec fn static_asset_bytes(c: ContentsView, i: int) -> Seq<u8> {
    if i == 0 {
        c.logo_svg
    } else if i == 1 {
        c.main_artwork_svg
    } else {
        c.benchmark_metrics_json
    }
}

/// Markup of a page body.
pub open spec fn body_html(c: ContentsView, body: PageBody) -> Seq<char> {
    match body {
        PageBody::Homepage => c.homepage_html,
        PageBody::Pricing => c.pricing_html,
        PageBody::Blogs => c.blogs_html,
        PageBody::BlogsSlug => c.blogs_slug_html,
        PageBody::PrivacyPolicy => c.privacy_policy_html,
    }
}

/// The stored bytes of markup `html` once its static references point at `urls`.
pub open spec fn markup_bytes(html: Seq<char>, urls: Seq<(Seq<char>, Seq<char>)>) -> Seq<u8> {
    encode_utf8(media_rewrite(html, urls))
}

/// The website preferences row written by the seed.
#[derive(Clone, Copy, PartialEq, Eq, Structural, Debug)]
pub struct ThemePreferences {
    pub id: i64,
    pub created_at: Option<i64>,
    pub updated_at: Option<i64>,
    pub custom_theme_css_vnode_id: Option<i64>,
    pub custom_theme_js_vnode_id: Option<i64>,
}

/// The singleton preferences row (`id = 1`) pointing the Custom theme at the seeded
/// stylesheet `css` and script `js`.
pub open spec fn theme_preferences_spec(css: i64, js: i64) -> ThemePreferences {
    ThemePreferences {
        id: 1,
        created_at: None,
        updated_at: None,
        custom_theme_css_vnode_id: Some(css),
        custom_theme_js_vnode_id: Some(js),
    }
}

/// The preferences row pointing the Custom theme at the stylesheet `css` and script `js`.
pub fn theme_preferences(css: i64, js: i64) -> (p: ThemePreferences)
    ensures
        p == theme_preferences_spec(css, js),
{
    ThemePreferences {
        id: 1,
        created_at: None,
        updated_at: None,
        custom_theme_css_vnode_id: Some(css),
        custom_theme_js_vnode_id: Some(js),
    }
}

/// Where the seed stands; each step waits for one event.
#[derive(Clone, Copy, PartialEq, Eq, Structural, Debug)]
pub enum SeedPhase {
    /// Waiting for the folder `website/themes`.
    ThemeDir,
    /// Waiting for the theme stylesheet in folder `parent`.
    ThemeCss { parent: Option<i64> },
    /// Waiting for the theme script; the stylesheet is `css`.
    ThemeJs { css: i64 },
    /// Waiting for the preferences to be saved.
    ThemePrefs,
    /// Waiting for the folder `website/static`.
    StaticDir,
    /// Waiting for static asset `index` in folder `parent`.
    StaticFile { parent: Option<i64>, index: usize },
    /// Waiting for the alias route of static asset `index`.
    StaticRoute { parent: Option<i64>, index: usize },
    /// Waiting for the folder of the header.
    HeaderDir,
    /// Waiting for the header file.
    HeaderFile,
    /// Waiting for the folder of the footer.
    FooterDir,
    /// Waiting for the footer file.
    FooterFile,
    /// Waiting for the folder of page `index`.
    PageDir { index: usize },
    /// Waiting for the file of page `index`.
    PageFile { index: usize },
    /// Waiting for the route of page `index`.
    PageRoute { index: usize },
    /// Waiting for the references of the route of page `index`.
    PageRefs { index: usize },
    /// The seed is complete.
    Finished,
}

/// What the outside world reports back to the seed.
#[derive(Clone, Copy, PartialEq, Eq, Structural, Debug)]
pub enum SeedEvent {
    /// The folder asked for exists, as this vnode (none for the root).
    DirectoryReady(Option<i64>),
    /// The file asked for is in place as `vnode_id`; `rewritten` tells whether its content
    /// was written.
    FileReady { vnode_id: i64, rewritten: bool },
    /// The preferences were saved.
    PreferencesSaved,
    /// The route asked for is in place with this id.
    RouteReady(i64),
    /// The references of the route were replaced.
    RefsReplaced,
}

/// What the seed asks for next.
pub enum SeedAction {
    /// Make sure the folder path exists (creating missing folders) and report its vnode.
    EnsureDirectory(Vec<String>),
    /// Keep the file `name` with exactly `bytes` in folder `parent_id`.
    SyncFile { parent_id: Option<i64>, name: String, bytes: Vec<u8> },
    /// Save the website preferences.
    SavePreferences(ThemePreferences),
    /// Put the route in place.
    EnsureRoute(RouteRequest),
    /// Replace every reference of route `route_id` by references to `vnode_ids`.
    ReplaceRouteRefs { route_id: i64, vnode_ids: Vec<i64> },
    /// Nothing is left to do.
    Finished,
    /// The event does not fit the current step; nothing changed.
    Rejected,
}

/// The value of a seed action.
pub enum ActionView {
    EnsureDirectory(Seq<Seq<char>>),
    SyncFile { parent_id: Option<i64>, name: Seq<char>, bytes: Seq<u8> },
    SavePreferences(ThemePreferences),
    EnsureRoute { path: Seq<char>, page_id: i64, theme: Seq<char>, reset_grapes_project: bool },
    ReplaceRouteRefs { route_id: i64, vnode_ids: Seq<i64> },
    Finished,
    Rejected,
}

impl View for SeedAction {
    type V = ActionView;

    open spec fn view(&self) -> ActionView {
        match self {
            SeedAction::EnsureDirectory(segments) => ActionView::EnsureDirectory(
                segments_view(segments@),
            ),
            SeedAction::SyncFile { parent_id, name, bytes } => ActionView::SyncFile {
                parent_id: *parent_id,
                name: name@,
                bytes: bytes@,
            },
            SeedAction::SavePreferences(p) => ActionView::SavePreferences(*p),
            SeedAction::EnsureRoute(r) => ActionView::EnsureRoute {
                path: r.path@,
                page_id: r.page_id,
                theme: r.theme@,
                reset_grapes_project: r.reset_grapes_project,
            },
            SeedAction::ReplaceRouteRefs { route_id, vnode_ids } => ActionView::ReplaceRouteRefs {
                route_id: *route_id,
                vnode_ids: vnode_ids@,
            },
            SeedAction::Finished => ActionView::Finished,
            SeedAction::Rejected => ActionView::Rejected,
        }
    }
}

/// The value of the seed's state.
pub struct SeederView {
    pub contents: ContentsView,
    pub phase: SeedPhase,
    /// The vnodes of the static assets seeded so far, in catalog order.
    pub static_ids: Seq<i64>,
    /// `(name, url)` of the static assets seeded so far, in catalog order.
    pub media_urls: Seq<(Seq<char>, Seq<char>)>,
    pub header_id: i64,
    pub header_rewritten: bool,
    pub footer_id: i64,
    pub footer_rewritten: bool,
}

/// Number of static assets seeded before the seed reaches `phase`.
pub open spec fn seeded_static_count(phase: SeedPhase) -> int {
    match phase {
        SeedPhase::ThemeDir | SeedPhase::ThemeCss { .. } | SeedPhase::ThemeJs { .. }
        | SeedPhase::ThemePrefs | SeedPhase::StaticDir => 0,
        SeedPhase::StaticFile { index, .. } => index as int,
        SeedPhase::StaticRoute { index, .. } => index + 1,
        _ => STATIC_ASSET_COUNT as int,
    }
}

/// Whether the indices of `phase` are within the catalog.
pub open spec fn phase_in_range(phase: SeedPhase) -> bool {
    match phase {
        SeedPhase::StaticFile { index, .. } => index < STATIC_ASSET_COUNT,
        SeedPhase::StaticRoute { index, .. } => index < STATIC_ASSET_COUNT,
        SeedPhase::PageDir { index } => index < PAGE_COUNT,
        SeedPhase::PageFile { index } => index < PAGE_COUNT,
        SeedPhase::PageRoute { index } => index < PAGE_COUNT,
        SeedPhase::PageRefs { index } => index < PAGE_COUNT,
        _ => true,
    }
}

impl SeederView {
    /// The seed's state is consistent: the recorded static assets are exactly those seeded
    /// so far, each paired with the media URL of its vnode.
    pub open spec fn well_formed(self) -> bool {
        &&& phase_in_range(self.phase)
        &&& self.static_ids.len() == seeded_static_count(self.phase)
        &&& self.media_urls.len() == self.static_ids.len()
        &&& forall|k: int|
            0 <= k < self.static_ids.len() ==> #[trigger] self.media_urls[k] == (
                static_asset_name(k),
                media_url(self.static_ids[k] as int),
            )
    }
}

/// The seed after recording static asset `index` as vnode `id`.
pub open spec fn with_static_asset(s: SeederView, index: int, id: i64) -> SeederView {
    SeederView {
        static_ids: s.static_ids.push(id),
        media_urls: s.media_urls.push((static_asset_name(index), media_url(id as int))),
        ..s
    }
}

/// The seed's next state and action when `event` arrives in state `s`.
pub open spec fn seed_transition(s: SeederView, event: SeedEvent) -> (SeederView, ActionView) {
    let c = s.contents;
    match (s.phase, event) {
        (SeedPhase::ThemeDir, SeedEvent::DirectoryReady(p)) => (
            SeederView { phase: SeedPhase::ThemeCss { parent: p }, ..s },
            ActionView::SyncFile { parent_id: p, name: theme_css_name(), bytes: c.theme_css },
        ),
        (SeedPhase::ThemeCss { parent }, SeedEvent::FileReady { vnode_id, .. }) => (
            SeederView { phase: SeedPhase::ThemeJs { css: vnode_id }, ..s },
            ActionView::SyncFile { parent_id: parent, name: theme_js_name(), bytes: c.theme_js },
        ),
        (SeedPhase::ThemeJs { css }, SeedEvent::FileReady { vnode_id, .. }) => (
            SeederView { phase: SeedPhase::ThemePrefs, ..s },
            ActionView::SavePreferences(theme_preferences_spec(css, vnode_id)),
        ),
        (SeedPhase::ThemePrefs, SeedEvent::PreferencesSaved) => (
            SeederView { phase: SeedPhase::StaticDir, ..s },
            ActionView::EnsureDirectory(static_dir()),
        ),
        (SeedPhase::StaticDir, SeedEvent::DirectoryReady(p)) => (
            SeederView { phase: SeedPhase::StaticFile { parent: p, index: 0 }, ..s },
            ActionView::SyncFile {
                parent_id: p,
                name: static_asset_name(0),
                bytes: static_asset_bytes(c, 0),
            },
        ),
        (SeedPhase::StaticFile { parent, index }, SeedEvent::FileReady { vnode_id, .. }) => (
            SeederView {
                phase: SeedPhase::StaticRoute { parent, index },
                ..with_static_asset(s, index as int, vnode_id)
            },
            ActionView::EnsureRoute {
                path: static_ref(static_asset_name(index as int)),
                page_id: vnode_id,
                theme: Seq::empty(),
                reset_grapes_project: false,
            },
        ),
        (SeedPhase::StaticRoute { parent, index }, SeedEvent::RouteReady(_)) => if index + 1
            < STATIC_ASSET_COUNT {
            (
                SeederView {
                    phase: SeedPhase::StaticFile { parent, index: (index + 1) as usize },
                    ..s
                },
                ActionView::SyncFile {
                    parent_id: parent,
                    name: static_asset_name(index + 1),
                    bytes: static_asset_bytes(c, index + 1),
                },
            )
        } else {
            (
                SeederView { phase: SeedPhase::HeaderDir, ..s },
                ActionView::EnsureDirectory(website_dir()),
            )
        },
        (SeedPhase::HeaderDir, SeedEvent::DirectoryReady(p)) => (
            SeederView { phase: SeedPhase::HeaderFile, ..s },
            ActionView::SyncFile {
                parent_id: p,
                name: header_name(),
                bytes: markup_bytes(c.header_html, s.media_urls),
            },
        ),
        (SeedPhase::HeaderFile, SeedEvent::FileReady { vnode_id, rewritten }) => (
            SeederView {
                phase: SeedPhase::FooterDir,
                header_id: vnode_id,
                header_rewritten: rewritten,
                ..s
            },
            ActionView::EnsureDirectory(website_dir()),
        ),
        (SeedPhase::FooterDir, SeedEvent::DirectoryReady(p)) => (
            SeederView { phase: SeedPhase::FooterFile, ..s },
            ActionView::SyncFile {
                parent_id: p,
                name: footer_name(),
                bytes: markup_bytes(c.footer_html, s.media_urls),
            },
        ),
        (SeedPhase::FooterFile, SeedEvent::FileReady { vnode_id, rewritten }) => (
            SeederView {
                phase: SeedPhase::PageDir { index: 0 },
                footer_id: vnode_id,
                footer_rewritten: rewritten,
                ..s
            },
            ActionView::EnsureDirectory(page_dir(0)),
        ),
        (SeedPhase::PageDir { index }, SeedEvent::DirectoryReady(p)) => (
            SeederView { phase: SeedPhase::PageFile { index }, ..s },
            ActionView::SyncFile {
                parent_id: p,
                name: page_name(index as int),
                bytes: markup_bytes(body_html(c, page_body(index as int)), s.media_urls),
            },
        ),
        (SeedPhase::PageFile { index }, SeedEvent::FileReady { vnode_id, rewritten }) => (
            SeederView { phase: SeedPhase::PageRoute { index }, ..s },
            ActionView::EnsureRoute {
                path: page_path(index as int),
                page_id: vnode_id,
                theme: custom_theme_id(),
                reset_grapes_project: rewritten || s.header_rewritten || s.footer_rewritten,
            },
        ),
        (SeedPhase::PageRoute { index }, SeedEvent::RouteReady(route_id)) => (
            SeederView { phase: SeedPhase::PageRefs { index }, ..s },
            ActionView::ReplaceRouteRefs { route_id, vnode_ids: seq![s.header_id, s.footer_id] },
        ),
        (SeedPhase::PageRefs { index }, SeedEvent::RefsReplaced) => if index + 1 < PAGE_COUNT {
            (
                SeederView { phase: SeedPhase::PageDir { index: (index + 1) as usize }, ..s },
                ActionView::EnsureDirectory(page_dir(index + 1)),
            )
        } else {
            (SeederView { phase: SeedPhase::Finished, ..s }, ActionView::Finished)
        },
        (SeedPhase::Finished, _) => (s, ActionView::Finished),
        _ => (s, ActionView::Rejected),
    }
}

/// The seed's state at its start, with the contents `c`.
pub open spec fn initial_seeder(c: ContentsView) -> SeederView {
    SeederView {
        contents: c,
        phase: SeedPhase::ThemeDir,
        static_ids: Seq::empty(),
        media_urls: Seq::empty(),
        header_id: 0,
        header_rewritten: false,
        footer_id: 0,
        footer_rewritten: false,
    }
}

/// The site seed.
pub struct SiteSeeder {
    contents: SeedContents,
    phase: SeedPhase,
    static_ids: Vec<i64>,
    media_urls: Vec<(String, String)>,
    header_id: i64,
    header_rewritten: bool,
    footer_id: i64,
    footer_rewritten: bool,
}

impl View for SiteSeeder {
    type V = SeederView;

    closed spec fn view(&self) -> SeederView {
        SeederView {
            contents: self.contents@,
            phase: self.phase,
            static_ids: self.static_ids@,
            media_urls: pairs_view(self.media_urls@),
            header_id: self.header_id,
            header_rewritten: self.header_rewritten,
            footer_id: self.footer_id,
            footer_rewritten: self.footer_rewritten,
        }
    }
}

/// An owned copy of a byte string.
fn copy_bytes(v: &Vec<u8>) -> (r: Vec<u8>)
    ensures
        r@ == v@,
{
    vstd::slice::slice_to_vec(v.as_slice())
}

/// The stored bytes of `html` once its static references point at `urls`.
fn rewritten_markup(html: &String, urls: &Vec<(String, String)>) -> (bytes: Vec<u8>)
    ensures
        bytes@ == markup_bytes(html@, pairs_view(urls@)),
{
    let out = html_with_media_urls(html.as_str(), urls.as_slice());
    vstd::slice::slice_to_vec(out.as_str().as_bytes())
}

impl SiteSeeder {
    /// Starts the seed with `contents`: the first thing to do is the theme folder.
    pub fn new(contents: SeedContents) -> (r: (SiteSeeder, SeedAction))
        ensures
            r.0@ == initial_seeder(contents@),
            r.0@.well_formed(),
            r.1@ == ActionView::EnsureDirectory(themes_dir()),
    {
        let seeder = SiteSeeder {
            contents,
            phase: SeedPhase::ThemeDir,
            static_ids: Vec::new(),
            media_urls: Vec::new(),
            header_id: 0,
            header_rewritten: false,
            footer_id: 0,
            footer_rewritten: false,
        };
        assert(pairs_view(seeder.media_urls@) =~= Seq::empty());
        (seeder, SeedAction::EnsureDirectory(themes_segments()))
    }

    /// Whether the seed is complete.
    pub fn is_finished(&self) -> (b: bool)
        ensures
            b == (self@.phase == SeedPhase::Finished),
    {
        match self.phase {
            SeedPhase::Finished => true,
            _ => false,
        }
    }

    /// Bytes of static asset `i`.
    fn static_bytes(&self, i: usize) -> (b: Vec<u8>)
        requires
            i < STATIC_ASSET_COUNT,
        ensures
            b@ == static_asset_bytes(self.contents@, i as int),
    {
        if i == 0 {
            copy_bytes(&self.contents.logo_svg)
        } else if i == 1 {
            copy_bytes(&self.contents.main_artwork_svg)
        } else {
            copy_bytes(&self.contents.benchmark_metrics_json)
        }
    }

    /// Markup of page body `body`.
    fn body(&self, body: PageBody) -> (h: &String)
        ensures
            h@ == body_html(self.contents@, body),
    {
        match body {
            PageBody::Homepage => &self.contents.homepage_html,
            PageBody::Pricing => &self.contents.pricing_html,
            PageBody::Blogs => &self.contents.blogs_html,
            PageBody::BlogsSlug => &self.contents.blogs_slug_html,
            PageBody::PrivacyPolicy => &self.contents.privacy_policy_html,
        }
    }

    /// Takes in what the outside world reports and says what to do next.
    pub fn step(&mut self, event: SeedEvent) -> (action: SeedAction)
        requires
            old(self)@.well_formed(),
        ensures
            (final(self)@, action@) == seed_transition(old(self)@, event),
            final(self)@.well_formed(),
    {
        let ghost s = self@;
        match (self.phase, event) {
            (SeedPhase::ThemeDir, SeedEvent::DirectoryReady(p)) => {
                self.phase = SeedPhase::ThemeCss { parent: p };
                SeedAction::SyncFile {
                    parent_id: p,
                    name: owned("lariv.css"),
                    bytes: copy_bytes(&self.contents.theme_css),
                }
            },
            (SeedPhase::ThemeCss { parent }, SeedEvent::FileReady { vnode_id, .. }) => {
                self.phase = SeedPhase::ThemeJs { css: vnode_id };
                SeedAction::SyncFile {
                    parent_id: parent,
                    name: owned("lariv.js"),
                    bytes: copy_bytes(&self.contents.theme_js),
                }
            },
            (SeedPhase::ThemeJs { css }, SeedEvent::FileReady { vnode_id, .. }) => {
                self.phase = SeedPhase::ThemePrefs;
                SeedAction::SavePreferences(theme_preferences(css, vnode_id))
            },
            (SeedPhase::ThemePrefs, SeedEvent::PreferencesSaved) => {
                self.phase = SeedPhase::StaticDir;
                SeedAction::EnsureDirectory(static_segments())
            },
            (SeedPhase::StaticDir, SeedEvent::DirectoryReady(p)) => {
                self.phase = SeedPhase::StaticFile { parent: p, index: 0 };
                SeedAction::SyncFile {
                    parent_id: p,
                    name: static_asset_file_name(0),
                    bytes: self.static_bytes(0),
                }
            },
            (SeedPhase::StaticFile { parent, index }, SeedEvent::FileReady { vnode_id, .. }) => {
                let name = static_asset_file_name(index);
                let url = public_asset_url(vnode_id);
                let path = static_route_path(name.as_str());
                let ghost old_urls = self.media_urls@;
                self.static_ids.push(vnode_id);
                self.media_urls.push((name, url));
                proof {
                    assert(pairs_view(self.media_urls@) =~= pairs_view(old_urls).push(
                        (static_asset_name(index as int), media_url(vnode_id as int)),
                    ));
                }
                self.phase = SeedPhase::StaticRoute { parent, index };
                SeedAction::EnsureRoute(
                    RouteRequest {
                        path,
                        page_id: vnode_id,
                        theme: String::new(),
                        reset_grapes_project: false,
                    },
                )
            },
            (SeedPhase::StaticRoute { parent, index }, SeedEvent::RouteReady(_)) => {
                if index + 1 < STATIC_ASSET_COUNT {
                    self.phase = SeedPhase::StaticFile { parent, index: index + 1 };
                    SeedAction::SyncFile {
                        parent_id: parent,
                        name: static_asset_file_name(index + 1),
                        bytes: self.static_bytes(index + 1),
                    }
                } else {
                    self.phase = SeedPhase::HeaderDir;
                    SeedAction::EnsureDirectory(website_segments())
                }
            },
            (SeedPhase::HeaderDir, SeedEvent::DirectoryReady(p)) => {
                self.phase = SeedPhase::HeaderFile;
                SeedAction::SyncFile {
                    parent_id: p,
                    name: owned("header.html"),
                    bytes: rewritten_markup(&self.contents.header_html, &self.media_urls),
                }
            },
            (SeedPhase::HeaderFile, SeedEvent::FileReady { vnode_id, rewritten }) => {
                self.phase = SeedPhase::FooterDir;
                self.header_id = vnode_id;
                self.header_rewritten = rewritten;
                SeedAction::EnsureDirectory(website_segments())
            },
            (SeedPhase::FooterDir, SeedEvent::DirectoryReady(p)) => {
                self.phase = SeedPhase::FooterFile;
                SeedAction::SyncFile {
                    parent_id: p,
                    name: owned("footer.html"),
                    bytes: rewritten_markup(&self.contents.footer_html, &self.media_urls),
                }
            },
            (SeedPhase::FooterFile, SeedEvent::FileReady { vnode_id, rewritten }) => {
                self.phase = SeedPhase::PageDir { index: 0 };
                self.footer_id = vnode_id;
                self.footer_rewritten = rewritten;
                SeedAction::EnsureDirectory(seed_page(0).dir)
            },
            (SeedPhase::PageDir { index }, SeedEvent::DirectoryReady(p)) => {
                self.phase = SeedPhase::PageFile { index };
                let page = seed_page(index);
                let bytes = rewritten_markup(self.body(page.body), &self.media_urls);
                SeedAction::SyncFile { parent_id: p, name: page.name, bytes }
            },
            (SeedPhase::PageFile { index }, SeedEvent::FileReady { vnode_id, rewritten }) => {
                self.phase = SeedPhase::PageRoute { index };
                let page = seed_page(index);
                SeedAction::EnsureRoute(
                    RouteRequest {
                        path: page.path,
                        page_id: vnode_id,
                        theme: custom_theme_key(),
                        reset_grapes_project: rewritten || self.header_rewritten
                            || self.footer_rewritten,
                    },
                )
            },
            (SeedPhase::PageRoute { index }, SeedEvent::RouteReady(route_id)) => {
                self.phase = SeedPhase::PageRefs { index };
                let mut vnode_ids: Vec<i64> = Vec::new();
                vnode_ids.push(self.header_id);
                vnode_ids.push(self.footer_id);
                assert(vnode_ids@ =~= seq![s.header_id, s.footer_id]);
                SeedAction::ReplaceRouteRefs { route_id, vnode_ids }
            },
            (SeedPhase::PageRefs { index }, SeedEvent::RefsReplaced) => {
                if index + 1 < PAGE_COUNT {
                    self.phase = SeedPhase::PageDir { index: index + 1 };
                    SeedAction::EnsureDirectory(seed_page(index + 1).dir)
                } else {
                    self.phase = SeedPhase::Finished;
                    SeedAction::Finished
                }
            },
            (SeedPhase::Finished, _) => SeedAction::Finished,
            _ => SeedAction::Rejected,
        }
    }
}

} // verus!

//! What holds of the seed as a whole.

use vstd::prelude::*;
use crate::catalog::{
    custom_theme_id, page_body, page_dir, page_name, page_path, static_asset_name, website_dir,
    PAGE_COUNT, SITE_PAGE_COUNT, STATIC_ASSET_COUNT,
};
use crate::error::SeedError;
use crate::media::{
    decimal, digit_char, media_rewrite, media_url, nat_decimal, static_prefix, static_ref,
};
use crate::route::{updated_route, RouteView};
use crate::seeder::{
    initial_seeder, seed_transition, ActionView, ContentsView, SeedEvent, SeedPhase, SeederView,
};
use crate::text::{occurs_at, occurs_in, replace_all};
use crate::vnode::{blob_outcome, file_transition, BlobRead, FileAction, FileEvent, FileStep};
use vstd::utf8::encode_utf8;

verus! {

// ---------------------------------------------------------------------------------------
// Text
// ---------------------------------------------------------------------------------------

/// Replacing a pattern that does not occur leaves the text unchanged.
pub proof fn replace_absent_is_identity(s: Seq<char>, pat: Seq<char>, rep: Seq<char>)
    requires
        !occurs_in(s, pat),
    ensures
        replace_all(s, pat, rep) == s,
    decreases s.len(),
{
    if pat.len() == 0 || s.len() < pat.len() {
    } else {
        assert(s.take(pat.len() as int) == s.subrange(0, pat.len() as int));
        assert(!occurs_at(s, pat, 0));
        let rest = s.skip(1);
        assert forall|i: int| !occurs_at(rest, pat, i) by {
            if occurs_at(rest, pat, i) {
                assert(rest.subrange(i, i + pat.len()) == s.subrange(i + 1, i + 1 + pat.len()));
                assert(occurs_at(s, pat, i + 1));
            }
        }
        replace_absent_is_identity(rest, pat, rep);
        assert(seq![s[0]] + rest == s);
    }
}

/// Markup that holds no `/static/` reference at all is stored exactly as given, whatever
/// media URLs are known.
pub proof fn markup_without_static_refs_unchanged(
    html: Seq<char>,
    urls: Seq<(Seq<char>, Seq<char>)>,
)
    requires
        !occurs_in(html, static_prefix()),
    ensures
        media_rewrite(html, urls) == html,
    decreases urls.len(),
{
    if urls.len() > 0 {
        markup_without_static_refs_unchanged(html, urls.drop_last());
        let pat = static_ref(urls.last().0);
        assert forall|i: int| !occurs_at(html, pat, i) by {
            if occurs_at(html, pat, i) {
                assert(html.subrange(i, i + 8) == pat.subrange(0, 8));
                assert(pat.subrange(0, 8) =~= static_prefix());
                assert(occurs_at(html, static_prefix(), i));
            }
        }
        replace_absent_is_identity(html, pat, urls.last().1);
    }
}

/// The first occurrence of the pattern is replaced wherever it stands, the very end of the
/// text included: when `pat` starts nowhere inside `a`, replacing in `a + pat + b` gives
/// `a`, then `rep`, then the replacement in `b`.
pub proof fn first_occurrence_replaced(a: Seq<char>, pat: Seq<char>, rep: Seq<char>, b: Seq<char>)
    requires
        pat.len() > 0,
        forall|i: int| 0 <= i < a.len() ==> !occurs_at(a + pat + b, pat, i),
    ensures
        replace_all(a + pat + b, pat, rep) == a + rep + replace_all(b, pat, rep),
    decreases a.len(),
{
    let s = a + pat + b;
    if a.len() == 0 {
        assert(s.take(pat.len() as int) =~= pat);
        assert(s.skip(pat.len() as int) =~= b);
        assert(a + rep =~= rep);
    } else {
        assert(!occurs_at(s, pat, 0));
        assert(s.take(pat.len() as int) =~= s.subrange(0, pat.len() as int));
        let a1 = a.skip(1);
        let s1 = a1 + pat + b;
        assert(s.skip(1) =~= s1);
        assert forall|i: int| 0 <= i < a1.len() implies !occurs_at(s1, pat, i) by {
            assert(!occurs_at(s, pat, i + 1));
            if occurs_at(s1, pat, i) {
                assert(s1.subrange(i, i + pat.len()) =~= s.subrange(i + 1, i + 1 + pat.len()));
            }
        }
        first_occurrence_replaced(a1, pat, rep, b);
        let r = replace_all(b, pat, rep);
        assert(seq![s[0]] + (a1 + rep + r) =~= a + rep + r);
    }
}

/// A text that ends with its only occurrence of the pattern ends with the replacement:
/// when `pat` starts nowhere inside `a`, replacing in `a + pat` gives `a + rep`.
pub proof fn last_occurrence_replaced(a: Seq<char>, pat: Seq<char>, rep: Seq<char>)
    requires
        pat.len() > 0,
        forall|i: int| 0 <= i < a.len() ==> !occurs_at(a + pat, pat, i),
    ensures
        replace_all(a + pat, pat, rep) == a + rep,
{
    let e = Seq::<char>::empty();
    assert(a + pat + e =~= a + pat);
    first_occurrence_replaced(a, pat, rep, e);
    assert(replace_all(e, pat, rep) == e);
    assert(a + rep + e =~= a + rep);
}

/// A text that is exactly the pattern becomes exactly the replacement.
pub proof fn whole_pattern_replaced(pat: Seq<char>, rep: Seq<char>)
    requires
        pat.len() > 0,
    ensures
        replace_all(pat, pat, rep) == rep,
{
    let e = Seq::<char>::empty();
    assert(e + pat =~= pat);
    last_occurrence_replaced(e, pat, rep);
    assert(e + rep =~= rep);
}

/// Markup that is one reference to a static asset, rewritten with that asset's URL alone,
/// becomes the URL.
pub proof fn lone_static_reference_becomes_url(name: Seq<char>, url: Seq<char>)
    ensures
        media_rewrite(static_ref(name), seq![(name, url)]) == url,
{
    let urls = seq![(name, url)];
    assert(urls.drop_last() =~= Seq::<(Seq<char>, Seq<char>)>::empty());
    assert(urls.last() == (name, url));
    assert(media_rewrite(static_ref(name), urls.drop_last()) == static_ref(name));
    whole_pattern_replaced(static_ref(name), url);
}

// ---------------------------------------------------------------------------------------
// Catalog
// ---------------------------------------------------------------------------------------

/// Every `website/*.html` counterpart is seeded after a site page with the same file name,
/// markup and route path, so the route of that path ends up pointing at the counterpart.
pub proof fn counterparts_follow_site_pages(i: int)
    requires
        SITE_PAGE_COUNT <= i < PAGE_COUNT,
    ensures
        page_dir(i) == website_dir(),
        exists|j: int|
            0 <= j < SITE_PAGE_COUNT && j < i && #[trigger] page_path(j) == page_path(i)
                && page_name(j) == page_name(i) && page_body(j) == page_body(i),
{
    let j = i - 4;
    assert(page_path(j) == page_path(i) && page_name(j) == page_name(i) && page_body(j)
        == page_body(i));
}

// ---------------------------------------------------------------------------------------
// Media URLs
// ---------------------------------------------------------------------------------------

proof fn nat_decimal_nonempty(n: nat)
    ensures
        nat_decimal(n).len() >= 1,
        n >= 10 ==> nat_decimal(n).len() >= 2,
    decreases n,
{
    if n >= 10 {
        nat_decimal_nonempty(n / 10);
    }
}

proof fn digit_char_injective(a: int, b: int)
    requires
        0 <= a < 10,
        0 <= b < 10,
        digit_char(a) == digit_char(b),
    ensures
        a == b,
{
}

proof fn nat_decimal_has_no_sign(n: nat, i: int)
    requires
        0 <= i < nat_decimal(n).len(),
    ensures
        nat_decimal(n)[i] != '-',
    decreases n,
{
    if n >= 10 {
        if i < nat_decimal(n / 10).len() {
            nat_decimal_has_no_sign(n / 10, i);
        }
    }
}

proof fn nat_decimal_injective(a: nat, b: nat)
    requires
        nat_decimal(a) == nat_decimal(b),
    ensures
        a == b,
    decreases a,
{
    nat_decimal_nonempty(a);
    nat_decimal_nonempty(b);
    if a < 10 && b < 10 {
        assert(nat_decimal(a) == seq![digit_char(a as int)]);
        assert(nat_decimal(b) == seq![digit_char(b as int)]);
        assert(nat_decimal(a)[0] == nat_decimal(b)[0]);
        assert(nat_decimal(a)[0] == digit_char(a as int));
        assert(nat_decimal(b)[0] == digit_char(b as int));
        digit_char_injective(a as int, b as int);
    } else if a >= 10 && b >= 10 {
        let da = nat_decimal(a);
        let db = nat_decimal(b);
        assert(da.last() == db.last());
        digit_char_injective((a % 10) as int, (b % 10) as int);
        assert(da.drop_last() =~= nat_decimal(a / 10));
        assert(db.drop_last() =~= nat_decimal(b / 10));
        nat_decimal_injective(a / 10, b / 10);
    } else {
        assert(nat_decimal(a).len() != nat_decimal(b).len());
    }
}

/// Distinct vnodes are served under distinct media URLs.
pub proof fn media_url_injective(a: int, b: int)
    requires
        media_url(a) == media_url(b),
    ensures
        a == b,
{
    let prefix = seq!['/', 'm', 'e', 'd', 'i', 'a', '/'];
    let da = decimal(a);
    let db = decimal(b);
    assert(media_url(a) == prefix + da + seq!['/']);
    assert(da =~= media_url(a).subrange(7, media_url(a).len() - 1));
    assert(db =~= media_url(b).subrange(7, media_url(b).len() - 1));
    assert(da == db);
    if a < 0 && b < 0 {
        assert(da.drop_first() =~= nat_decimal((-a) as nat));
        assert(db.drop_first() =~= nat_decimal((-b) as nat));
        nat_decimal_injective((-a) as nat, (-b) as nat);
    } else if a >= 0 && b >= 0 {
        nat_decimal_injective(a as nat, b as nat);
    } else if a < 0 {
        nat_decimal_nonempty(b as nat);
        nat_decimal_has_no_sign(b as nat, 0);
        assert(da[0] == '-');
    } else {
        nat_decimal_nonempty(a as nat);
        nat_decimal_has_no_sign(a as nat, 0);
        assert(db[0] == '-');
    }
}

// ---------------------------------------------------------------------------------------
// Files
// ---------------------------------------------------------------------------------------

/// A file whose stored blob already holds the wanted bytes is kept as it is and reported
/// as not rewritten: seeding again over an unchanged store writes no file.
pub proof fn unchanged_file_is_kept(existing: i64, wanted: Seq<u8>, stored: Vec<u8>)
    requires
        stored@ == wanted,
    ensures
        file_transition(
            FileStep::CheckingBlob { existing },
            wanted,
            FileEvent::Blob(BlobRead::Contents(stored)),
        ) == (
            FileStep::Done { vnode_id: existing, rewritten: false },
            FileAction::Finished { vnode_id: existing, rewritten: false },
        ),
{
}

/// A file is reported as not rewritten only when it existed and its stored blob held
/// exactly the wanted bytes; a missing or differing blob is rewritten, an unreadable one
/// stops the seed.
pub proof fn kept_only_when_blob_matches(
    step: FileStep,
    wanted: Seq<u8>,
    event: FileEvent,
    vnode_id: i64,
)
    requires
        file_transition(step, wanted, event).1 == (FileAction::Finished {
            vnode_id,
            rewritten: false,
        }),
    ensures
        step == (FileStep::CheckingBlob { existing: vnode_id }),
        event matches FileEvent::Blob(read) && blob_outcome(read, wanted) == Ok::<
            bool,
            SeedError,
        >(true),
{
}

// ---------------------------------------------------------------------------------------
// Routes
// ---------------------------------------------------------------------------------------

/// An existing file whose stored blob differs from the wanted bytes has its content
/// replaced, under its own id, before it is reported.
pub proof fn differing_blob_is_rewritten(existing: i64, wanted: Seq<u8>, stored: Vec<u8>)
    requires
        stored@ != wanted,
    ensures
        file_transition(
            FileStep::CheckingBlob { existing },
            wanted,
            FileEvent::Blob(BlobRead::Contents(stored)),
        ) == (FileStep::Writing, FileAction::ReplaceContent { existing }),
{
}

/// An existing file whose blob is missing from the store has its content replaced.
pub proof fn missing_blob_is_rewritten(existing: i64, wanted: Seq<u8>)
    ensures
        file_transition(FileStep::CheckingBlob { existing }, wanted, FileEvent::Blob(BlobRead::Missing))
            == (FileStep::Writing, FileAction::ReplaceContent { existing }),
{
}

/// A file whose blob cannot be read stops the seed with that error.
pub proof fn unreadable_blob_stops(existing: i64, wanted: Seq<u8>)
    ensures
        file_transition(FileStep::CheckingBlob { existing }, wanted, FileEvent::Blob(BlobRead::Unreadable))
            == (FileStep::Failed, FileAction::Fail(SeedError::StoreUnreadable)),
{
}

/// A file that is not found is created; one that is found has its blob read.
pub proof fn lookup_decides_create_or_read(wanted: Seq<u8>, found: Option<i64>)
    ensures
        file_transition(FileStep::LookingUp, wanted, FileEvent::Found(found)).1 == match found {
            None => FileAction::CreateNode,
            Some(id) => FileAction::OpenBlob { existing: id },
        },
{
}

/// A file is reported as rewritten only once its content was written: the report follows
/// a `Written` event, for the vnode that event names.
pub proof fn rewritten_only_after_write(step: FileStep, wanted: Seq<u8>, event: FileEvent, vnode_id: i64)
    requires
        file_transition(step, wanted, event).1 == (FileAction::Finished { vnode_id, rewritten: true }),
    ensures
        step == FileStep::Writing,
        event matches FileEvent::Written(id) && id == vnode_id,
{
}

/// Whether the stored blob holds the wanted bytes: a missing blob does not, an unreadable
/// one is an error, and read bytes do exactly when they are the wanted bytes.
pub proof fn blob_match_is_byte_equality(read: BlobRead, wanted: Seq<u8>)
    ensures
        read matches BlobRead::Missing ==> blob_outcome(read, wanted) == Ok::<bool, SeedError>(false),
        read matches BlobRead::Unreadable ==> blob_outcome(read, wanted) is Err,
        read matches BlobRead::Contents(stored) ==> (blob_outcome(read, wanted) == Ok::<bool, SeedError>(true)
            <==> stored@ == wanted),
        read matches BlobRead::Contents(_) ==> blob_outcome(read, wanted) is Ok,
{
}

/// A route update asked with a reset drops the builder project, whatever page the route
/// pointed at; without a reset the project is kept. Either way the route keeps its id,
/// path and creation instant, becomes active, points at the requested page under the
/// requested theme, and is touched at `now`.
pub proof fn route_update_fields(existing: RouteView, page_id: i64, theme: Seq<char>, reset: bool, now: i64)
    ensures
        reset ==> updated_route(existing, page_id, theme, reset, now).grapes_project is None,
        !reset ==> updated_route(existing, page_id, theme, reset, now).grapes_project
            == existing.grapes_project,
        updated_route(existing, page_id, theme, reset, now).id == existing.id,
        updated_route(existing, page_id, theme, reset, now).path == existing.path,
        updated_route(existing, page_id, theme, reset, now).created_at == existing.created_at,
        updated_route(existing, page_id, theme, reset, now).updated_at == Some(now),
        updated_route(existing, page_id, theme, reset, now).page_id == page_id,
        updated_route(existing, page_id, theme, reset, now).theme == theme,
        updated_route(existing, page_id, theme, reset, now).is_active,
{
}

/// Putting the same route in place twice gives what putting it in place once, at the
/// later instant, gives.
pub proof fn route_update_idempotent(
    existing: RouteView,
    page_id: i64,
    theme: Seq<char>,
    reset: bool,
    first: i64,
    second: i64,
)
    ensures
        updated_route(updated_route(existing, page_id, theme, reset, first), page_id, theme, reset, second)
            == updated_route(existing, page_id, theme, reset, second),
{
}

// ---------------------------------------------------------------------------------------
// The seed
// ---------------------------------------------------------------------------------------

/// Every step of the seed keeps its state consistent.
pub proof fn seed_keeps_well_formed(s: SeederView, event: SeedEvent)
    requires
        s.well_formed(),
    ensures
        seed_transition(s, event).0.well_formed(),
{
    let t = seed_transition(s, event).0;
    match (s.phase, event) {
        (SeedPhase::StaticFile { parent, index }, SeedEvent::FileReady { vnode_id, .. }) => {
            assert forall|k: int| 0 <= k < t.static_ids.len() implies #[trigger] t.media_urls[k]
                == (static_asset_name(k), media_url(t.static_ids[k] as int)) by {
                if k < s.static_ids.len() {
                    assert(t.media_urls[k] == s.media_urls[k]);
                }
            }
        },
        _ => {},
    }
}

/// Whether `event` is the kind of report the seed waits for in `phase`.
pub open spec fn event_fits(phase: SeedPhase, event: SeedEvent) -> bool {
    match (phase, event) {
        (SeedPhase::ThemeDir, SeedEvent::DirectoryReady(_)) => true,
        (SeedPhase::ThemeCss { .. }, SeedEvent::FileReady { .. }) => true,
        (SeedPhase::ThemeJs { .. }, SeedEvent::FileReady { .. }) => true,
        (SeedPhase::ThemePrefs, SeedEvent::PreferencesSaved) => true,
        (SeedPhase::StaticDir, SeedEvent::DirectoryReady(_)) => true,
        (SeedPhase::StaticFile { .. }, SeedEvent::FileReady { .. }) => true,
        (SeedPhase::StaticRoute { .. }, SeedEvent::RouteReady(_)) => true,
        (SeedPhase::HeaderDir, SeedEvent::DirectoryReady(_)) => true,
        (SeedPhase::HeaderFile, SeedEvent::FileReady { .. }) => true,
        (SeedPhase::FooterDir, SeedEvent::DirectoryReady(_)) => true,
        (SeedPhase::FooterFile, SeedEvent::FileReady { .. }) => true,
        (SeedPhase::PageDir { .. }, SeedEvent::DirectoryReady(_)) => true,
        (SeedPhase::PageFile { .. }, SeedEvent::FileReady { .. }) => true,
        (SeedPhase::PageRoute { .. }, SeedEvent::RouteReady(_)) => true,
        (SeedPhase::PageRefs { .. }, SeedEvent::RefsReplaced) => true,
        _ => false,
    }
}

/// How many reports the seed still waits for in `phase`.
pub open spec fn remaining_steps(phase: SeedPhase) -> int {
    let last_page = PAGE_COUNT - 1;
    let last_asset = STATIC_ASSET_COUNT - 1;
    match phase {
        SeedPhase::Finished => 0,
        SeedPhase::PageRefs { index } => 1 + 4 * (last_page - index),
        SeedPhase::PageRoute { index } => 2 + 4 * (last_page - index),
        SeedPhase::PageFile { index } => 3 + 4 * (last_page - index),
        SeedPhase::PageDir { index } => 4 + 4 * (last_page - index),
        SeedPhase::FooterFile => 4 * PAGE_COUNT + 1,
        SeedPhase::FooterDir => 4 * PAGE_COUNT + 2,
        SeedPhase::HeaderFile => 4 * PAGE_COUNT + 3,
        SeedPhase::HeaderDir => 4 * PAGE_COUNT + 4,
        SeedPhase::StaticRoute { index, .. } => 4 * PAGE_COUNT + 5 + 2 * (last_asset - index),
        SeedPhase::StaticFile { index, .. } => 4 * PAGE_COUNT + 6 + 2 * (last_asset - index),
        SeedPhase::StaticDir => 4 * PAGE_COUNT + 2 * STATIC_ASSET_COUNT + 5,
        SeedPhase::ThemePrefs => 4 * PAGE_COUNT + 2 * STATIC_ASSET_COUNT + 6,
        SeedPhase::ThemeJs { .. } => 4 * PAGE_COUNT + 2 * STATIC_ASSET_COUNT + 7,
        SeedPhase::ThemeCss { .. } => 4 * PAGE_COUNT + 2 * STATIC_ASSET_COUNT + 8,
        SeedPhase::ThemeDir => 4 * PAGE_COUNT + 2 * STATIC_ASSET_COUNT + 9,
    }
}

/// The seed always completes: every report of the awaited kind is taken (never
/// rejected) and brings the seed one step closer to the end, which it reaches after
/// exactly `remaining_steps` of the start such reports.
pub proof fn seed_progresses(s: SeederView, event: SeedEvent)
    requires
        s.well_formed(),
        s.phase != SeedPhase::Finished,
        event_fits(s.phase, event),
    ensures
        seed_transition(s, event).1 != ActionView::Rejected,
        remaining_steps(seed_transition(s, event).0.phase) == remaining_steps(s.phase) - 1,
        remaining_steps(seed_transition(s, event).0.phase) == 0 <==> seed_transition(
            s,
            event,
        ).0.phase == SeedPhase::Finished,
{
}

/// The seed starts `remaining_steps` reports away from its end.
pub proof fn seed_length(c: ContentsView)
    ensures
        initial_seeder(c).well_formed(),
        remaining_steps(initial_seeder(c).phase) == 4 * PAGE_COUNT + 2 * STATIC_ASSET_COUNT + 9,
{
}

/// Each page file is written into the folder just made ready, under its own file name and
/// with the markup of its own page, its static references rewritten to the media URLs
/// known so far: the index and landing pages carry the homepage, the pricing pages the
/// pricing page, the blogs pages the blog list, the blogs_slug pages the blog post
/// template and the privacy-policy pages the privacy policy.
pub proof fn page_file_carries_its_own_markup(s: SeederView, index: usize, parent: Option<i64>)
    requires
        s.phase == (SeedPhase::PageDir { index }),
        index < PAGE_COUNT,
    ensures
        index == 0 ==> seed_transition(s, SeedEvent::DirectoryReady(parent)).1
            == (ActionView::SyncFile {
            parent_id: parent,
            name: "index.html"@,
            bytes: encode_utf8(media_rewrite(s.contents.homepage_html, s.media_urls)),
        }),
        index == 1 ==> seed_transition(s, SeedEvent::DirectoryReady(parent)).1
            == (ActionView::SyncFile {
            parent_id: parent,
            name: "landing.html"@,
            bytes: encode_utf8(media_rewrite(s.contents.homepage_html, s.media_urls)),
        }),
        index == 2 || index == 6 ==> seed_transition(s, SeedEvent::DirectoryReady(parent)).1
            == (ActionView::SyncFile {
            parent_id: parent,
            name: "pricing.html"@,
            bytes: encode_utf8(media_rewrite(s.contents.pricing_html, s.media_urls)),
        }),
        index == 3 || index == 7 ==> seed_transition(s, SeedEvent::DirectoryReady(parent)).1
            == (ActionView::SyncFile {
            parent_id: parent,
            name: "blogs.html"@,
            bytes: encode_utf8(media_rewrite(s.contents.blogs_html, s.media_urls)),
        }),
        index == 4 || index == 8 ==> seed_transition(s, SeedEvent::DirectoryReady(parent)).1
            == (ActionView::SyncFile {
            parent_id: parent,
            name: "blogs_slug.html"@,
            bytes: encode_utf8(media_rewrite(s.contents.blogs_slug_html, s.media_urls)),
        }),
        index == 5 || index == 9 ==> seed_transition(s, SeedEvent::DirectoryReady(parent)).1
            == (ActionView::SyncFile {
            parent_id: parent,
            name: "privacy-policy.html"@,
            bytes: encode_utf8(media_rewrite(s.contents.privacy_policy_html, s.media_urls)),
        }),
{
}

/// Each page route serves its page's path, points at the page file just written and uses
/// the Custom theme: `/` for the index and landing pages, `/pricing`, `/blogs`,
/// `/blogs/*` and `/privacy-policy` for the others.
pub proof fn page_route_serves_its_path(
    s: SeederView,
    index: usize,
    vnode_id: i64,
    rewritten: bool,
)
    requires
        s.phase == (SeedPhase::PageFile { index }),
        index < PAGE_COUNT,
    ensures
        seed_transition(s, SeedEvent::FileReady { vnode_id, rewritten }).1 matches ActionView::EnsureRoute {
            path,
            page_id,
            theme,
            ..
        } && page_id == vnode_id && theme == "p_website.custom"@ && (index <= 1 ==> path == "/"@)
            && (index == 2 || index == 6 ==> path == "/pricing"@) && (index == 3 || index == 7
            ==> path == "/blogs"@) && (index == 4 || index == 8 ==> path == "/blogs/*"@) && (
        index == 5 || index == 9 ==> path == "/privacy-policy"@),
{
}

/// The theme stylesheet and script, each static asset, the header and the footer are each
/// written into the folder just made ready, under their own file name, with their own
/// bytes; the header and footer markup with its static references rewritten to the media
/// URLs of the static assets.
pub proof fn fixed_files_carry_their_own_bytes(
    s: SeederView,
    p: Option<i64>,
    vnode_id: i64,
    rewritten: bool,
)
    ensures
        s.phase == SeedPhase::ThemeDir ==> seed_transition(s, SeedEvent::DirectoryReady(p)).1
            == (ActionView::SyncFile { parent_id: p, name: "lariv.css"@, bytes: s.contents.theme_css }),
        s.phase == (SeedPhase::ThemeCss { parent: p }) ==> seed_transition(
            s,
            SeedEvent::FileReady { vnode_id, rewritten },
        ).1 == (ActionView::SyncFile { parent_id: p, name: "lariv.js"@, bytes: s.contents.theme_js }),
        s.phase == SeedPhase::StaticDir ==> seed_transition(s, SeedEvent::DirectoryReady(p)).1
            == (ActionView::SyncFile { parent_id: p, name: "logo.svg"@, bytes: s.contents.logo_svg }),
        s.phase == (SeedPhase::StaticRoute { parent: p, index: 0 }) ==> seed_transition(
            s,
            SeedEvent::RouteReady(vnode_id),
        ).1 == (ActionView::SyncFile {
            parent_id: p,
            name: "main-artwork.svg"@,
            bytes: s.contents.main_artwork_svg,
        }),
        s.phase == (SeedPhase::StaticRoute { parent: p, index: 1 }) ==> seed_transition(
            s,
            SeedEvent::RouteReady(vnode_id),
        ).1 == (ActionView::SyncFile {
            parent_id: p,
            name: "benchmark_metrics.json"@,
            bytes: s.contents.benchmark_metrics_json,
        }),
        s.phase == SeedPhase::HeaderDir ==> seed_transition(s, SeedEvent::DirectoryReady(p)).1
            == (ActionView::SyncFile {
            parent_id: p,
            name: "header.html"@,
            bytes: encode_utf8(media_rewrite(s.contents.header_html, s.media_urls)),
        }),
        s.phase == SeedPhase::FooterDir ==> seed_transition(s, SeedEvent::DirectoryReady(p)).1
            == (ActionView::SyncFile {
            parent_id: p,
            name: "footer.html"@,
            bytes: encode_utf8(media_rewrite(s.contents.footer_html, s.media_urls)),
        }),
{
}

/// Every page route references exactly the shared header and footer.
pub proof fn page_refs_are_header_and_footer(s: SeederView, event: SeedEvent)
    ensures
        seed_transition(s, event).1 matches ActionView::ReplaceRouteRefs { vnode_ids, .. }
            ==> vnode_ids == seq![s.header_id, s.footer_id],
{
}

/// Routes asked for by the seed: a static alias route is `/static/{name}` with no theme
/// and never drops a builder project; a page route uses the Custom theme and drops its
/// builder project exactly when the page, the header or the footer was rewritten.
pub proof fn route_requests(s: SeederView, event: SeedEvent)
    requires
        s.well_formed(),
    ensures
        seed_transition(s, event).1 matches ActionView::EnsureRoute {
            path,
            theme,
            reset_grapes_project,
            ..
        } ==> match s.phase {
            SeedPhase::StaticFile { index, .. } => {
                &&& path == static_ref(static_asset_name(index as int))
                &&& theme == Seq::<char>::empty()
                &&& !reset_grapes_project
            },
            SeedPhase::PageFile { .. } => {
                &&& theme == custom_theme_id()
                &&& reset_grapes_project == (event->rewritten || s.header_rewritten
                    || s.footer_rewritten)
            },
            _ => false,
        },
{
}

/// Whether no file written so far by the seed was reported as rewritten.
pub open spec fn nothing_rewritten(s: SeederView) -> bool {
    !s.header_rewritten && !s.footer_rewritten
}

/// A seed in which no file is rewritten (as when seeding again over an unchanged store)
/// drops no builder project: every route it asks for keeps its project.
pub proof fn quiet_seed_resets_nothing(s: SeederView, event: SeedEvent)
    requires
        nothing_rewritten(s),
        !(event matches SeedEvent::FileReady { rewritten: true, .. }),
    ensures
        nothing_rewritten(seed_transition(s, event).0),
        seed_transition(s, event).1 matches ActionView::EnsureRoute { reset_grapes_project, .. }
            ==> !reset_grapes_project,
{
}

/// The header, the footer and every page are written with their static references
/// pointing at the media URLs of all seeded static assets.
pub proof fn markup_uses_every_media_url(s: SeederView, event: SeedEvent)
    requires
        s.well_formed(),
        seed_transition(s, event).1 matches ActionView::SyncFile { .. },
        (s.phase == SeedPhase::HeaderDir || s.phase == SeedPhase::FooterDir
            || s.phase is PageDir),
    ensures
        s.media_urls.len() == STATIC_ASSET_COUNT,
        forall|k: int|
            0 <= k < STATIC_ASSET_COUNT ==> #[trigger] s.media_urls[k] == (
                static_asset_name(k),
                media_url(s.static_ids[k] as int),
            ),
{
}

} // verus!

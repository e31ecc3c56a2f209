//! What the seed puts in place: the Custom theme files, the static media, the shared
//! header and footer, and the page routes, each with its file name, folder and path.

use vstd::prelude::*;

verus! {

/// Number of static media assets seeded under `website/static/`.
pub const STATIC_ASSET_COUNT: usize = 3;

/// Number of page routes seeded: the site pages followed by their `website/*.html`
/// counterparts kept for sites that still route to those files.
pub const PAGE_COUNT: usize = 10;

/// Number of site pages seeded before the `website/*.html` counterparts.
pub const SITE_PAGE_COUNT: usize = 6;

/// Which markup a seeded page carries.
#[derive(Clone, Copy, PartialEq, Eq, Structural, Debug)]
pub enum PageBody {
    Homepage,
    Pricing,
    Blogs,
    BlogsSlug,
    PrivacyPolicy,
}

/// A seeded page: the file `name` created in folder `dir` with the markup `body`, and
/// served at route `path`.
pub struct PageSeed {
    pub name: String,
    pub body: PageBody,
    pub path: String,
    pub dir: Vec<String>,
}

/// The character views of a folder path's segments.
pub open spec fn segments_view(dir: Seq<String>) -> Seq<Seq<char>> {
    dir.map_values(|s: String| s@)
}

/// `website`
pub open spec fn website_dir() -> Seq<Seq<char>> {
    seq!["website"@]
}

/// `website/pages`
pub open spec fn pages_dir() -> Seq<Seq<char>> {
    seq!["website"@, "pages"@]
}

/// `website/themes`: where the Custom theme CSS and JS live.
pub open spec fn themes_dir() -> Seq<Seq<char>> {
    seq!["website"@, "themes"@]
}

/// `website/static`: where the static media live.
pub open spec fn static_dir() -> Seq<Seq<char>> {
    seq!["website"@, "static"@]
}

/// File name of the Custom theme stylesheet.
pub open spec fn theme_css_name() -> Seq<char> {
    "lariv.css"@
}

/// File name of the Custom theme script.
pub open spec fn theme_js_name() -> Seq<char> {
    "lariv.js"@
}

/// File name of the shared header markup.
pub open spec fn header_name() -> Seq<char> {
    "header.html"@
}

/// File name of the shared footer markup.
pub open spec fn footer_name() -> Seq<char> {
    "footer.html"@
}

/// The theme key of every seeded page route: the Custom theme.
pub open spec fn custom_theme_id() -> Seq<char> {
    "p_website.custom"@
}

/// File name of static asset `i`.
pub open spec fn static_asset_name(i: int) -> Seq<char> {
    if i == 0 {
        "logo.svg"@
    } else if i == 1 {
        "main-artwork.svg"@
    } else {
        "benchmark_metrics.json"@
    }
}

/// File name of page `i`.
pub open spec fn page_name(i: int) -> Seq<char> {
    if i == 0 {
        "index.html"@
    } else if i == 1 {
        "landing.html"@
    } else if i == 2 || i == 6 {
        "pricing.html"@
    } else if i == 3 || i == 7 {
        "blogs.html"@
    } else if i == 4 || i == 8 {
        "blogs_slug.html"@
    } else {
        "privacy-policy.html"@
    }
}

/// Route path of page `i`.
pub open spec fn page_path(i: int) -> Seq<char> {
    if i == 0 || i == 1 {
        "/"@
    } else if i == 2 || i == 6 {
        "/pricing"@
    } else if i == 3 || i == 7 {
        "/blogs"@
    } else if i == 4 || i == 8 {
        "/blogs/*"@
    } else {
        "/privacy-policy"@
    }
}

/// Markup of page `i`.
pub open spec fn page_body(i: int) -> PageBody {
    if i == 0 || i == 1 {
        PageBody::Homepage
    } else if i == 2 || i == 6 {
        PageBody::Pricing
    } else if i == 3 || i == 7 {
        PageBody::Blogs
    } else if i == 4 || i == 8 {
        PageBody::BlogsSlug
    } else {
        PageBody::PrivacyPolicy
    }
}

/// Folder of page `i`: the site pages live in `website/pages` (but the landing page in
/// `website`), their counterparts in `website`.
pub open spec fn page_dir(i: int) -> Seq<Seq<char>> {
    if i == 1 || i >= SITE_PAGE_COUNT as int {
        website_dir()
    } else {
        pages_dir()
    }
}

/// An owned copy of a string literal.
pub fn owned(s: &str) -> (r: String)
    ensures
        r@ == s@,
{
    s.to_owned()
}

/// The segments `website`.
pub fn website_segments() -> (v: Vec<String>)
    ensures
        segments_view(v@) == website_dir(),
{
    let mut v: Vec<String> = Vec::new();
    v.push(owned("website"));
    assert(segments_view(v@) =~= website_dir());
    v
}

/// The segments `website/pages`.
pub fn pages_segments() -> (v: Vec<String>)
    ensures
        segments_view(v@) == pages_dir(),
{
    let mut v: Vec<String> = Vec::new();
    v.push(owned("website"));
    v.push(owned("pages"));
    assert(segments_view(v@) =~= pages_dir());
    v
}

/// The segments `website/themes`.
pub fn themes_segments() -> (v: Vec<String>)
    ensures
        segments_view(v@) == themes_dir(),
{
    let mut v: Vec<String> = Vec::new();
    v.push(owned("website"));
    v.push(owned("themes"));
    assert(segments_view(v@) =~= themes_dir());
    v
}

/// The segments `website/static`.
pub fn static_segments() -> (v: Vec<String>)
    ensures
        segments_view(v@) == static_dir(),
{
    let mut v: Vec<String> = Vec::new();
    v.push(owned("website"));
    v.push(owned("static"));
    assert(segments_view(v@) =~= static_dir());
    v
}

/// The theme key of the seeded page routes.
pub fn custom_theme_key() -> (key: String)
    ensures
        key@ == custom_theme_id(),
{
    owned("p_website.custom")
}

/// File name of static asset `i`.
pub fn static_asset_file_name(i: usize) -> (name: String)
    requires
        i < STATIC_ASSET_COUNT,
    ensures
        name@ == static_asset_name(i as int),
{
    if i == 0 {
        owned("logo.svg")
    } else if i == 1 {
        owned("main-artwork.svg")
    } else {
        owned("benchmark_metrics.json")
    }
}

/// Page `i` of the seed, in seeding order.
pub fn seed_page(i: usize) -> (page: PageSeed)
    requires
        i < PAGE_COUNT,
    ensures
        page.name@ == page_name(i as int),
        page.path@ == page_path(i as int),
        page.body == page_body(i as int),
        segments_view(page.dir@) == page_dir(i as int),
{
    let name = if i == 0 {
        owned("index.html")
    } else if i == 1 {
        owned("landing.html")
    } else if i == 2 || i == 6 {
        owned("pricing.html")
    } else if i == 3 || i == 7 {
        owned("blogs.html")
    } else if i == 4 || i == 8 {
        owned("blogs_slug.html")
    } else {
        owned("privacy-policy.html")
    };
    let path = if i == 0 || i == 1 {
        owned("/")
    } else if i == 2 || i == 6 {
        owned("/pricing")
    } else if i == 3 || i == 7 {
        owned("/blogs")
    } else if i == 4 || i == 8 {
        owned("/blogs/*")
    } else {
        owned("/privacy-policy")
    };
    let body = if i == 0 || i == 1 {
        PageBody::Homepage
    } else if i == 2 || i == 6 {
        PageBody::Pricing
    } else if i == 3 || i == 7 {
        PageBody::Blogs
    } else if i == 4 || i == 8 {
        PageBody::BlogsSlug
    } else {
        PageBody::PrivacyPolicy
    };
    let dir = if i == 1 || i >= SITE_PAGE_COUNT {
        website_segments()
    } else {
        pages_segments()
    };
    PageSeed { name, body, path, dir }
}

/// Whether `page` is page `i` of the catalog.
pub open spec fn is_catalog_page(page: PageSeed, i: int) -> bool {
    &&& page.name@ == page_name(i)
    &&& page.path@ == page_path(i)
    &&& page.body == page_body(i)
    &&& segments_view(page.dir@) == page_dir(i)
}

/// Every seeded page, in seeding order: the site pages, then their `website/*.html`
/// counterparts, seeded last so that routes still pointing at those files pick up the
/// current markup in place.
pub fn seed_pages() -> (pages: Vec<PageSeed>)
    ensures
        pages.len() == PAGE_COUNT,
        forall|i: int| 0 <= i < PAGE_COUNT ==> is_catalog_page(#[trigger] pages@[i], i),
{
    let mut pages: Vec<PageSeed> = Vec::new();
    let mut i: usize = 0;
    while i < PAGE_COUNT
        invariant
            i <= PAGE_COUNT,
            pages.len() == i,
            forall|k: int| 0 <= k < i ==> is_catalog_page(#[trigger] pages@[k], k),
        decreases PAGE_COUNT - i,
    {
        let page = seed_page(i);
        assert(is_catalog_page(page, i as int));
        pages.push(page);
        i = i + 1;
    }
    pages
}

} // verus!

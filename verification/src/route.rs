//! Website routes: the row written for a seeded route path, and the header/footer
//! references attached to a page route. Instants are microseconds since the Unix epoch.

use vstd::prelude::*;

verus! {

/// A stored website route row.
pub struct DbRouteRecord {
    pub id: i64,
    pub created_at: Option<i64>,
    pub updated_at: Option<i64>,
    pub path: String,
    pub page_id: i64,
    pub is_active: bool,
    pub theme: String,
    pub grapes_project: Option<String>,
}

/// The value of a route row.
pub struct RouteView {
    pub id: i64,
    pub created_at: Option<i64>,
    pub updated_at: Option<i64>,
    pub path: Seq<char>,
    pub page_id: i64,
    pub is_active: bool,
    pub theme: Seq<char>,
    pub grapes_project: Option<Seq<char>>,
}

/// The character view of an optional string.
pub open spec fn opt_view(s: Option<String>) -> Option<Seq<char>> {
    match s {
        Some(v) => Some(v@),
        None => None,
    }
}

impl View for DbRouteRecord {
    type V = RouteView;

    open spec fn view(&self) -> RouteView {
        RouteView {
            id: self.id,
            created_at: self.created_at,
            updated_at: self.updated_at,
            path: self.path@,
            page_id: self.page_id,
            is_active: self.is_active,
            theme: self.theme@,
            grapes_project: opt_view(self.grapes_project),
        }
    }
}

/// A route to be put in place: `path` served by the page vnode `page_id` under `theme`;
/// `reset_grapes_project` drops the builder project kept for an existing route.
pub struct RouteRequest {
    pub path: String,
    pub page_id: i64,
    pub theme: String,
    pub reset_grapes_project: bool,
}

/// A route row to insert (its id is chosen by the database).
pub struct NewRoute {
    pub created_at: Option<i64>,
    pub updated_at: Option<i64>,
    pub path: String,
    pub page_id: i64,
    pub is_active: bool,
    pub theme: String,
    pub grapes_project: Option<String>,
}

/// How a route request is written.
pub enum RouteWrite {
    /// The path already has a route; store this row in its place.
    Update(DbRouteRecord),
    /// The path has no route yet; insert this row.
    Insert(NewRoute),
}

/// The route `existing` after a request for `page_id` and `theme` at instant `now`:
/// active, pointing at the page, under the theme, touched at `now`, and without its
/// builder project when `reset` asks for it; id, path and creation instant kept.
pub open spec fn updated_route(
    existing: RouteView,
    page_id: i64,
    theme: Seq<char>,
    reset: bool,
    now: i64,
) -> RouteView {
    RouteView {
        id: existing.id,
        created_at: existing.created_at,
        updated_at: Some(now),
        path: existing.path,
        page_id,
        is_active: true,
        theme,
        grapes_project: if reset { None } else { existing.grapes_project },
    }
}

/// Whether `row` is the fresh route for `path`, `page_id` and `theme` created at `now`:
/// active, without builder project.
pub open spec fn is_new_route(
    row: NewRoute,
    path: Seq<char>,
    page_id: i64,
    theme: Seq<char>,
    now: i64,
) -> bool {
    &&& row.created_at == Some(now)
    &&& row.updated_at == Some(now)
    &&& row.path@ == path
    &&& row.page_id == page_id
    &&& row.is_active
    &&& row.theme@ == theme
    &&& row.grapes_project is None
}

/// How to put the route asked for by `request` in place at instant `now`, given the
/// route already stored under its path, if any.
pub fn plan_route_write(existing: Option<DbRouteRecord>, request: &RouteRequest, now: i64) -> (w: RouteWrite)
    ensures
        match existing {
            Some(e) => w matches RouteWrite::Update(row) && row@ == updated_route(
                e@,
                request.page_id,
                request.theme@,
                request.reset_grapes_project,
                now,
            ),
            None => w matches RouteWrite::Insert(row) && is_new_route(
                row,
                request.path@,
                request.page_id,
                request.theme@,
                now,
            ),
        },
{
    match existing {
        Some(e) => {
            let grapes_project = if request.reset_grapes_project {
                None
            } else {
                e.grapes_project
            };
            RouteWrite::Update(
                DbRouteRecord {
                    id: e.id,
                    created_at: e.created_at,
                    updated_at: Some(now),
                    path: e.path,
                    page_id: request.page_id,
                    is_active: true,
                    theme: request.theme.clone(),
                    grapes_project,
                },
            )
        },
        None => RouteWrite::Insert(
            NewRoute {
                created_at: Some(now),
                updated_at: Some(now),
                path: request.path.clone(),
                page_id: request.page_id,
                is_active: true,
                theme: request.theme.clone(),
                grapes_project: None,
            },
        ),
    }
}

/// A reference from a page route to a vnode its page includes.
#[derive(Clone, Copy, PartialEq, Eq, Structural, Debug)]
pub struct RouteReferenceRow {
    pub db_route_id: i64,
    pub v_node_id: i64,
}

/// The reference rows that replace all references of route `route_id`: one per vnode, in
/// order.
pub fn route_reference_rows(route_id: i64, vnode_ids: &[i64]) -> (rows: Vec<RouteReferenceRow>)
    ensures
        rows.len() == vnode_ids.len(),
        forall|i: int|
            0 <= i < rows.len() ==> #[trigger] rows@[i] == (RouteReferenceRow {
                db_route_id: route_id,
                v_node_id: vnode_ids@[i],
            }),
{
    let mut rows: Vec<RouteReferenceRow> = Vec::new();
    let mut i: usize = 0;
    while i < vnode_ids.len()
        invariant
            i <= vnode_ids.len(),
            rows.len() == i,
            forall|k: int|
                0 <= k < i ==> #[trigger] rows@[k] == (RouteReferenceRow {
                    db_route_id: route_id,
                    v_node_id: vnode_ids@[k],
                }),
        decreases vnode_ids.len() - i,
    {
        rows.push(RouteReferenceRow { db_route_id: route_id, v_node_id: vnode_ids[i] });
        i = i + 1;
    }
    rows
}

} // verus!

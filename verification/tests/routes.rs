use lariv_website::route::{
    plan_route_write, route_reference_rows, DbRouteRecord, RouteReferenceRow, RouteRequest,
    RouteWrite,
};

fn existing() -> DbRouteRecord {
    DbRouteRecord {
        id: 42,
        created_at: Some(100),
        updated_at: Some(200),
        path: "/pricing".to_string(),
        page_id: 5,
        is_active: false,
        theme: "old".to_string(),
        grapes_project: Some("{\"pages\":[]}".to_string()),
    }
}

fn request(reset: bool) -> RouteRequest {
    RouteRequest {
        path: "/pricing".to_string(),
        page_id: 9,
        theme: "p_website.custom".to_string(),
        reset_grapes_project: reset,
    }
}

#[test]
fn existing_route_is_updated_keeping_project() {
    match plan_route_write(Some(existing()), &request(false), 300) {
        RouteWrite::Update(r) => {
            assert_eq!(r.id, 42);
            assert_eq!(r.created_at, Some(100));
            assert_eq!(r.updated_at, Some(300));
            assert_eq!(r.path, "/pricing");
            assert_eq!(r.page_id, 9);
            assert!(r.is_active);
            assert_eq!(r.theme, "p_website.custom");
            assert_eq!(r.grapes_project.as_deref(), Some("{\"pages\":[]}"));
        }
        RouteWrite::Insert(_) => panic!("expected an update"),
    }
}

#[test]
fn existing_route_reset_drops_project() {
    match plan_route_write(Some(existing()), &request(true), 300) {
        RouteWrite::Update(r) => assert_eq!(r.grapes_project, None),
        RouteWrite::Insert(_) => panic!("expected an update"),
    }
}

#[test]
fn new_route_is_inserted() {
    match plan_route_write(None, &request(true), 77) {
        RouteWrite::Insert(r) => {
            assert_eq!(r.created_at, Some(77));
            assert_eq!(r.updated_at, Some(77));
            assert_eq!(r.path, "/pricing");
            assert_eq!(r.page_id, 9);
            assert!(r.is_active);
            assert_eq!(r.theme, "p_website.custom");
            assert_eq!(r.grapes_project, None);
        }
        RouteWrite::Update(_) => panic!("expected an insert"),
    }
}

#[test]
fn updating_twice_is_updating_once() {
    let once = match plan_route_write(Some(existing()), &request(false), 500) {
        RouteWrite::Update(r) => r,
        _ => unreachable!(),
    };
    let first = match plan_route_write(Some(existing()), &request(false), 300) {
        RouteWrite::Update(r) => r,
        _ => unreachable!(),
    };
    let twice = match plan_route_write(Some(first), &request(false), 500) {
        RouteWrite::Update(r) => r,
        _ => unreachable!(),
    };
    assert_eq!(once.id, twice.id);
    assert_eq!(once.updated_at, twice.updated_at);
    assert_eq!(once.page_id, twice.page_id);
    assert_eq!(once.theme, twice.theme);
    assert_eq!(once.grapes_project, twice.grapes_project);
    assert_eq!(once.path, twice.path);
}

#[test]
fn reference_rows_follow_vnodes() {
    let rows = route_reference_rows(8, &[3, 4]);
    assert_eq!(
        rows,
        vec![
            RouteReferenceRow { db_route_id: 8, v_node_id: 3 },
            RouteReferenceRow { db_route_id: 8, v_node_id: 4 },
        ]
    );
    assert!(route_reference_rows(8, &[]).is_empty());
}

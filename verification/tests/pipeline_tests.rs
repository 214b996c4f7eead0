use easyproject_mcp_server::cache::ResponseCache;
use easyproject_mcp_server::client::{EasyProjectClient, Step};
use easyproject_mcp_server::error::ApiError;
use easyproject_mcp_server::json::{parse_json_text, json_to_string, JsonValue};
use easyproject_mcp_server::limiter::{Admission, TokenBucket};
use easyproject_mcp_server::ops::{
    key_eq, list_projects_key, list_issues_key, ListIssuesParams, ListProjectsParams,
};
use easyproject_mcp_server::protocol::{response_to_line, JsonRpcResponse};
use easyproject_mcp_server::request::classify_http;
use easyproject_mcp_server::scan;

fn cached_client() -> EasyProjectClient {
    EasyProjectClient::from_parts(
        "SECRET-REDACTED".to_string(),
        Some(ResponseCache::new(100, 300)),
        None,
    )
}

fn list_params(limit: u32, offset: u32, archived: bool) -> ListProjectsParams {
    ListProjectsParams {
        limit: Some(limit),
        offset: Some(offset),
        include_archived: Some(archived),
        easy_query_q: None,
        set_filter: None,
        sort: None,
    }
}

const PROJECTS_BODY: &str =
    r#"{"projects":[{"id":1,"name":"Alpha","status":1}],"total_count":1,"offset":0,"limit":25}"#;

#[test]
fn repeated_list_projects_is_served_from_cache() {
    // Scenario: the same read twice in a row with the cache on — the second
    // call costs no upstream fetch.
    let mut client = cached_client();
    let params = list_params(25, 0, false);
    let now = 1000;

    let mut fetches = 0;
    let first = match client.list_projects(&params, now).unwrap() {
        Step::Fetch(req) => {
            fetches += 1;
            assert_eq!(req.path, "/projects.json");
            client.list_projects_fetched(&params, now, 200, PROJECTS_BODY).unwrap()
        },
        Step::Ready(_) => panic!("a cold cache cannot serve"),
    };
    assert_eq!(first.projects.len(), 1);
    assert_eq!(first.projects[0].name, "Alpha");

    let second = match client.list_projects(&params, now + 10).unwrap() {
        Step::Ready(resp) => resp,
        Step::Fetch(_) => panic!("the second identical read must be served from cache"),
    };
    assert_eq!(fetches, 1);
    assert_eq!(second.projects.len(), 1);
    assert_eq!(second.projects[0].id, first.projects[0].id);
    assert_eq!(second.total_count, Some(1));
}

#[test]
fn expired_entries_are_not_served() {
    let mut client = cached_client();
    let params = list_params(25, 0, false);
    match client.list_projects(&params, 0).unwrap() {
        Step::Fetch(_) => {
            client.list_projects_fetched(&params, 0, 200, PROJECTS_BODY).unwrap();
        },
        _ => panic!(),
    }
    // Within the time to live: served.
    assert!(matches!(client.list_projects(&params, 299).unwrap(), Step::Ready(_)));
    // Past the time to live: fetched again.
    assert!(matches!(client.list_projects(&params, 300).unwrap(), Step::Fetch(_)));
}

#[test]
fn different_parameters_derive_different_keys() {
    // No false sharing: any differing parameter, presence included, changes
    // the key.
    let a = list_projects_key(&list_params(25, 0, false));
    let b = list_projects_key(&list_params(25, 0, true));
    let c = list_projects_key(&list_params(25, 25, false));
    let mut with_query = list_params(25, 0, false);
    with_query.easy_query_q = Some("x".to_string());
    let d = list_projects_key(&with_query);
    let mut absent = list_params(25, 0, false);
    absent.include_archived = None;
    let e = list_projects_key(&absent);

    assert!(key_eq(&a, &a));
    assert!(!key_eq(&a, &b));
    assert!(!key_eq(&a, &c));
    assert!(!key_eq(&a, &d));
    assert!(!key_eq(&a, &e));

    let issues_a = list_issues_key(&ListIssuesParams {
        project_id: Some(5),
        limit: Some(100),
        offset: Some(0),
        includes: None,
        easy_query_q: None,
        set_filter: None,
        sort: None,
        assigned_to_id: None,
        status_id: None,
        tracker_id: None,
        priority_id: None,
    });
    assert!(!key_eq(&a, &issues_a));
}

#[test]
fn mutation_with_invalidation_scope_clears_cached_reads() {
    // After a delete the pre-mutation cached value is never served again.
    let mut client = cached_client();
    let params = list_params(25, 0, false);
    match client.list_projects(&params, 0).unwrap() {
        Step::Fetch(_) => {
            client.list_projects_fetched(&params, 0, 200, PROJECTS_BODY).unwrap();
        },
        _ => panic!(),
    }
    assert!(matches!(client.list_projects(&params, 1).unwrap(), Step::Ready(_)));

    let req = client.delete_project(1);
    assert_eq!(req.path, "/projects/1.json");
    client.delete_project_fetched(200, "").unwrap();

    assert!(matches!(client.list_projects(&params, 2).unwrap(), Step::Fetch(_)));
}

#[test]
fn empty_update_body_triggers_a_refetch() {
    // Scenario: the upstream answers a successful update with an empty body;
    // the client re-fetches the issue and returns its full current state.
    let mut client = cached_client();
    let data = easyproject_mcp_server::models::CreateIssueRequest {
        issue: easyproject_mcp_server::models::CreateIssue {
            project_id: 1,
            tracker_id: 1,
            status_id: 1,
            priority_id: 1,
            subject: "Trim the hedge".to_string(),
            description: None,
            category_id: None,
            fixed_version_id: None,
            assigned_to_id: None,
            parent_issue_id: None,
            estimated_hours: None,
            start_date: None,
            due_date: None,
            done_ratio: Some(100),
        },
    };
    let req = client.update_issue(5, &data);
    assert_eq!(req.path, "/issues/5.json");

    let step = client.update_issue_fetched(5, 200, "  ").unwrap();
    let refetch = match step {
        Step::Fetch(r) => r,
        Step::Ready(_) => panic!("an empty body cannot be the updated issue"),
    };
    assert_eq!(refetch.path, "/issues/5.json");

    let body = r#"{"issue":{"id":5,"subject":"Trim the hedge","project":{"id":1,"name":"Alpha"},
        "tracker":{"id":1,"name":"Task"},"status":{"id":2,"name":"Done"},
        "priority":{"id":1,"name":"Normal"},"done_ratio":100}}"#;
    let resp = client.get_issue_fetched(5, &None, 10, 200, body).unwrap();
    assert_eq!(resp.issue.id, 5);
    assert_eq!(resp.issue.subject, "Trim the hedge");
    assert_eq!(resp.issue.done_ratio, Some(100));
}

#[test]
fn degenerate_bucket_suspends_after_its_burst() {
    // A bucket with burst three and no refill grants exactly three calls at
    // one instant; the fourth is told to suspend, never an error.
    let mut bucket = TokenBucket::new(0, 3, 0);
    assert_eq!(bucket.acquire(0), Admission::Granted);
    assert_eq!(bucket.acquire(0), Admission::Granted);
    assert_eq!(bucket.acquire(0), Admission::Granted);
    assert_eq!(bucket.acquire(0), Admission::WaitUnbounded);
    // Still suspended arbitrarily much later: the rate is zero.
    assert_eq!(bucket.acquire(1_000_000), Admission::WaitUnbounded);
}

#[test]
fn refilling_bucket_names_a_resume_time() {
    let mut bucket = TokenBucket::new(60, 1, 0);
    assert_eq!(bucket.acquire(0), Admission::Granted);
    match bucket.acquire(0) {
        Admission::Wait(t) => assert_eq!(t, 1000),
        other => panic!("expected a wait, got {:?}", other),
    }
    // One second later a token has refilled.
    assert_eq!(bucket.acquire(1000), Admission::Granted);
}

fn issues_page(start_id: i32, count: i32, total: i32) -> String {
    let mut items = Vec::new();
    for i in 0..count {
        let id = start_id + i;
        items.push(format!(
            r#"{{"id":{},"subject":"Issue {}","project":{{"id":1,"name":"Alpha"}},"tracker":{{"id":{},"name":"Tracker {}"}},"status":{{"id":{},"name":"Status {}"}},"priority":{{"id":{},"name":"Priority {}"}}}}"#,
            id,
            id,
            id % 3 + 1,
            id % 3 + 1,
            id % 4 + 1,
            id % 4 + 1,
            id % 2 + 1,
            id % 2 + 1,
        ));
    }
    format!(
        r#"{{"issues":[{}],"total_count":{},"offset":{},"limit":100}}"#,
        items.join(","),
        total,
        start_id - 1,
    )
}

#[test]
fn enumeration_scan_stops_at_the_total_not_the_cap() {
    // Scenario: one hundred fifty issues at page size one hundred — exactly
    // two fetches, stopped by the reported total, far from the page cap.
    let mut client = cached_client();
    let mut state = scan::scan_begin();
    let mut fetches: u64 = 0;
    loop {
        if scan::scan_at_cap(&state) {
            panic!("the scan must stop at the total, not the cap");
        }
        let params = scan::scan_request(None, &state);
        let page = match client.list_issues(&params, fetches).unwrap() {
            Step::Fetch(_) => {
                let body = issues_page(state.offset as i32 + 1, (150 - state.offset as i32).min(100), 150);
                fetches += 1;
                client.list_issues_fetched(&params, fetches, 200, &body).unwrap()
            },
            Step::Ready(resp) => resp,
        };
        if scan::scan_absorb(&mut state, &page) {
            break;
        }
    }
    assert_eq!(fetches, 2);
    assert_eq!(state.iteration, 2);
    assert!(state.iteration < scan::SCAN_MAX_PAGES);
    assert_eq!(state.offset, 200);

    let enums = scan::scan_finish(state);
    // Distinct values only, sorted ascending by id.
    assert_eq!(enums.trackers.len(), 3);
    assert_eq!(enums.statuses.len(), 4);
    assert_eq!(enums.priorities.len(), 2);
    for w in enums.statuses.windows(2) {
        assert!(w[0].id < w[1].id);
    }
    assert_eq!(enums.trackers[0].name, "Tracker 1");
}

#[test]
fn scan_stops_on_an_empty_page() {
    let mut state = scan::scan_begin();
    let empty = easyproject_mcp_server::models::IssuesResponse {
        issues: Vec::new(),
        total_count: Some(0),
        offset: Some(0),
        limit: Some(100),
    };
    assert!(scan::scan_absorb(&mut state, &empty));
    assert_eq!(state.iteration, 1);
}

#[test]
fn classification_keeps_the_status_and_body_text() {
    match classify_http(404, "not here") {
        Err(ApiError::Api { status, message }) => {
            assert_eq!(status, 404);
            assert_eq!(message, "HTTP error 404: not here");
        },
        _ => panic!("a missing entity is an API error"),
    }
    // A blank success body counts as an empty object.
    let v = classify_http(204, "  \n").unwrap();
    assert_eq!(json_to_string(&v), "{}");
    // A non-JSON success body is a decode error carrying the raw body.
    match classify_http(200, "<html>") {
        Err(ApiError::Api { status, message }) => {
            assert_eq!(status, 500);
            assert_eq!(message, "Chyba parsování JSON. Response: <html>");
        },
        _ => panic!("a non-JSON body is a decode error"),
    }
}

#[test]
fn json_survives_a_round_trip() {
    let text = r#"{"a":[1,2.5,"x\ny",null,true],"b":{"c":false},"d":"A"}"#;
    let v = parse_json_text(text).unwrap();
    let out = json_to_string(&v);
    let v2 = parse_json_text(&out).unwrap();
    assert_eq!(json_to_string(&v2), out);
    assert_eq!(out, r#"{"a":[1,2.5,"x\ny",null,true],"b":{"c":false},"d":"A"}"#);

    assert!(parse_json_text("{broken").is_none());
    assert!(parse_json_text("").is_none());
    match parse_json_text(r#""😀""#).unwrap() {
        JsonValue::Str(s) => assert_eq!(s, "\u{1F600}"),
        _ => panic!("a string must parse as a string"),
    }
}

#[test]
fn cached_client_never_spends_tokens_on_hits() {
    // A hit consumes no admission token: the bucket still holds its burst.
    let mut client = EasyProjectClient::from_parts(
        "SECRET-REDACTED".to_string(),
        Some(ResponseCache::new(100, 300)),
        Some(TokenBucket::new(0, 1, 0)),
    );
    let params = list_params(25, 0, false);
    match client.list_projects(&params, 0).unwrap() {
        Step::Fetch(_) => {
            assert_eq!(client.acquire_token(0), Admission::Granted);
            client.list_projects_fetched(&params, 0, 200, PROJECTS_BODY).unwrap();
        },
        _ => panic!(),
    }
    // Served from cache: no token asked for, and the bucket is empty anyway.
    assert!(matches!(client.list_projects(&params, 1).unwrap(), Step::Ready(_)));
    // A fresh fetch would have had to wait.
    assert_eq!(client.acquire_token(1), Admission::WaitUnbounded);
}

#[test]
fn unicode_escapes_decode_to_their_characters() {
    // A BMP escape and a surrogate pair, decoded to the real characters.
    match parse_json_text(r#""A😀\n""#).unwrap() {
        JsonValue::Str(s) => assert_eq!(s, "A\u{1F600}\n"),
        _ => panic!("a string must parse as a string"),
    }
    // A lone low surrogate is refused.
    assert!(parse_json_text(r#""\uDE00""#).is_none());
    // Control characters must be escaped.
    assert!(parse_json_text("\"a\u{1}b\"").is_none());
}

#[test]
fn responses_serialize_without_absent_members() {
    let ok = JsonRpcResponse::success(Some(JsonValue::Num("7".to_string())), JsonValue::Bool(true));
    assert_eq!(response_to_line(ok), r#"{"jsonrpc":"2.0","result":true,"id":7}"#);
    let err = JsonRpcResponse::error(
        None,
        easyproject_mcp_server::error::JsonRpcError {
            code: -32601,
            message: "Method not found".to_string(),
            data: None,
        },
    );
    assert_eq!(
        response_to_line(err),
        r#"{"jsonrpc":"2.0","error":{"code":-32601,"message":"Method not found"}}"#
    );
}

#[test]
fn api_errors_render_their_status_and_detail() {
    let e = ApiError::Api { status: 404, message: "HTTP error 404: gone".to_string() };
    assert_eq!(e.message(), "API error: 404 - HTTP error 404: gone");
    assert_eq!(ApiError::RateLimit.message(), "Rate limit exceeded");
}

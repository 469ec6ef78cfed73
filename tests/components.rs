use docker_tui::nav::Request;
use docker_tui::registry::{catalog_url, request_url, tags_url};
use docker_tui::search::{compile, filter_items, retain_marked};
use docker_tui::status::{fresh_tip, get_random_elem, status_body, tip_pool, Status, Tip};
use docker_tui::viewport::{visible_range, visible_rows, VIEWPORT_ROWS};

fn owned(v: &[&str]) -> Vec<String> {
    v.iter().map(|s| s.to_string()).collect()
}

#[test]
fn viewport_short_list_shows_all() {
    assert_eq!(visible_range(5, 3, VIEWPORT_ROWS), (0, 5));
    assert_eq!(visible_range(0, 0, VIEWPORT_ROWS), (0, 0));
}

#[test]
fn viewport_trails_focus() {
    assert_eq!(visible_range(100, 10, 21), (10, 31));
    assert_eq!(visible_range(30, 25, 21), (9, 30));
    assert_eq!(visible_range(30, 29, 21), (9, 30));
    assert_eq!(visible_range(21, 20, 21), (0, 21));
}

#[test]
fn viewport_always_holds_focus() {
    for n in 1..60usize {
        for w in 1..30usize {
            for focus in 0..n {
                let (start, stop) = visible_range(n, focus, w);
                assert!(start <= focus && focus < stop);
                assert_eq!(stop - start, w.min(n));
                assert!(stop <= n);
            }
        }
    }
}

#[test]
fn viewport_rows_highlight_focus() {
    let items = owned(&["a", "b", "c", "d", "e"]);
    let rows = visible_rows(&items, 3, 2);
    assert_eq!(rows.len(), 2);
    assert_eq!(rows[0].text, "d");
    assert!(rows[0].highlighted);
    assert_eq!(rows[1].text, "e");
    assert!(!rows[1].highlighted);
}

#[test]
fn filter_keeps_matching_in_order() {
    let p = compile(&"a$".to_string()).unwrap();
    let items = owned(&["alpine", "samba", "nginx", "vista"]);
    assert_eq!(filter_items(&items, &p), owned(&["samba", "vista"]));
}

#[test]
fn filter_anchored_pattern() {
    let p = compile(&"^n".to_string()).unwrap();
    let items = owned(&["alpine", "nginx", "redis", "node"]);
    assert_eq!(filter_items(&items, &p), owned(&["nginx", "node"]));
}

#[test]
fn filter_match_all() {
    let p = compile(&".*".to_string()).unwrap();
    let items = owned(&["b", "", "a"]);
    assert_eq!(filter_items(&items, &p), items);
}

#[test]
fn filter_empty_list() {
    let p = compile(&"x".to_string()).unwrap();
    assert!(filter_items(&Vec::new(), &p).is_empty());
}

#[test]
fn compile_rejects_invalid() {
    assert!(compile(&"[".to_string()).is_err());
    assert!(compile(&"(a".to_string()).is_err());
    assert!(compile(&"a|b".to_string()).is_ok());
}

#[test]
fn retain_marked_exact() {
    let items = owned(&["a", "b", "c"]);
    assert_eq!(retain_marked(&items, &vec![true, false, true]), owned(&["a", "c"]));
    assert!(retain_marked(&items, &vec![false, false, false]).is_empty());
}

#[test]
fn random_elem_by_draw() {
    let v = vec![10, 20, 30];
    assert_eq!(get_random_elem(&v, 4), 20);
    assert_eq!(get_random_elem(&v, 0), 10);
    assert_eq!(get_random_elem(&v, u64::MAX), 10);
}

#[test]
fn tip_comes_from_pool() {
    assert!(tip_pool().contains(&fresh_tip()));
}

#[test]
fn status_texts() {
    let input = "ng".to_string();
    let tip = status_body(&Status::Tip(Tip::QuitHint), &input);
    assert_eq!(tip.len(), 3);
    assert_eq!(tip[0].text, "Press ");
    assert_eq!(tip[1].text, "q");
    assert!(tip[1].bold);
    assert_eq!(tip[2].text, " to exit.");
    let bottom = status_body(&Status::ReachedBottom, &input);
    assert_eq!(bottom[0].text, "You reached bottom of the result");
    let top = status_body(&Status::ReachedTop, &input);
    assert_eq!(top[0].text, "You reached top of the result");
    let echo = status_body(&Status::Echo, &input);
    assert_eq!(echo.len(), 1);
    assert_eq!(echo[0].text, "ng");
    assert!(status_body(&Status::Blank, &input).is_empty());
    let err = status_body(&Status::PatternError("bad".to_string()), &input);
    assert_eq!(err[1].text, "bad");
}

#[test]
fn urls() {
    assert_eq!(catalog_url("http://r:5000"), "http://r:5000/v2/_catalog");
    assert_eq!(tags_url("http://r:5000", "nginx"), "http://r:5000/v2/nginx/tags/list");
    assert_eq!(request_url("", &Request::Catalog), "/v2/_catalog");
    assert_eq!(request_url("h", &Request::Tags("a/b".to_string())), "h/v2/a/b/tags/list");
}

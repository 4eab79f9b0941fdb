use link_shortener::link::{
    health, internal_error, normalize_target, plan_link, redirect, retry_create, settle, Link,
    LinkError, LinkTarget, Reply, StoreFault, CACHE_CONTROL, DEFAULT_TIMEOUT_MS,
    MAX_CREATE_ATTEMPTS,
};
use link_shortener::ident::id_for;
use link_shortener::table::LinkTable;

#[test]
fn create_redirect_update_scenario() {
    let mut table = LinkTable::new();
    let link = table.create_link("https://example.com/a", 42).ok().unwrap();
    assert_eq!(link.id, id_for(42));
    assert_eq!(link.target_url, "https://example.com/a");

    let rd = table.redirect(&link.id).ok().unwrap();
    assert_eq!(rd.status, 307);
    assert_eq!(rd.location, "https://example.com/a");
    assert_eq!(
        rd.cache_control,
        "public, max-age=300, s-maxage=300, stale-while-revalidate=300, stale-if-error=300"
    );

    let body = LinkTarget { target_url: "https://example.com/b".to_string() };
    let updated = table.update_link(&link.id, &body.target_url).ok().unwrap();
    assert_eq!(updated.id, link.id);
    assert_eq!(updated.target_url, "https://example.com/b");

    let rd = table.redirect(&link.id).ok().unwrap();
    assert_eq!(rd.status, 307);
    assert_eq!(rd.location, "https://example.com/b");

    let missing = table.redirect("unknown-id").err().unwrap();
    assert_eq!(missing, LinkError::NotFound);
    assert_eq!(missing.status(), 404);
}

#[test]
fn create_stores_normalized_form() {
    let mut table = LinkTable::new();
    let link = table.create_link("HTTPS://Example.COM", 7).ok().unwrap();
    assert_eq!(link.target_url, "https://example.com/");
    let rd = table.redirect(&link.id).ok().unwrap();
    assert_eq!(rd.location, link.target_url);
}

#[test]
fn create_with_random_identifier_round_trips() {
    let mut table = LinkTable::new();
    let link = table.create("https://example.org/x?y=1").ok().unwrap();
    assert_eq!(link.target_url, "https://example.org/x?y=1");
    assert_eq!(table.redirect(&link.id).ok().unwrap().location, link.target_url);
    assert_eq!(table.len(), 1);
}

#[test]
fn invalid_url_is_refused_before_the_store() {
    let mut table = LinkTable::new();
    assert_eq!(table.create_link("not a url", 1).err(), Some(LinkError::InvalidUrl));
    assert_eq!(table.create_link("/relative/path", 2).err(), Some(LinkError::InvalidUrl));
    assert_eq!(table.create_link("", 3).err(), Some(LinkError::InvalidUrl));
    assert_eq!(table.len(), 0);

    let mut slow = LinkTable::with_latency(1000, DEFAULT_TIMEOUT_MS);
    assert_eq!(slow.create_link("not a url", 1).err(), Some(LinkError::InvalidUrl));
    assert_eq!(slow.len(), 0);
}

#[test]
fn unknown_identifier_is_not_found() {
    let mut table = LinkTable::new();
    assert_eq!(table.redirect("abc").err(), Some(LinkError::NotFound));
    table.create_link("https://example.com/", 5).ok().unwrap();
    assert_eq!(table.redirect(&id_for(6)).err(), Some(LinkError::NotFound));
}

#[test]
fn update_keeps_identifier() {
    let mut table = LinkTable::new();
    let link = table.create_link("https://example.com/one", 11).ok().unwrap();
    let updated = table.update_link(&link.id, "https://EXAMPLE.com/two").ok().unwrap();
    assert_eq!(updated.id, link.id);
    assert_eq!(updated.target_url, "https://example.com/two");
    assert_eq!(table.redirect(&link.id).ok().unwrap().location, "https://example.com/two");
    assert_eq!(table.len(), 1);
}

#[test]
fn update_of_missing_identifier_is_not_found() {
    let mut table = LinkTable::new();
    assert_eq!(
        table.update_link("nope", "https://example.com/").err(),
        Some(LinkError::NotFound)
    );
    assert_eq!(table.len(), 0);
}

#[test]
fn update_with_invalid_url_changes_nothing() {
    let mut table = LinkTable::new();
    let link = table.create_link("https://example.com/keep", 3).ok().unwrap();
    assert_eq!(table.update_link(&link.id, "::bad::").err(), Some(LinkError::InvalidUrl));
    assert_eq!(table.redirect(&link.id).ok().unwrap().location, "https://example.com/keep");
}

#[test]
fn slow_store_times_out() {
    let mut table = LinkTable::with_latency(301, DEFAULT_TIMEOUT_MS);
    assert_eq!(table.create_link("https://example.com/", 1).err(), Some(LinkError::Timeout));
    assert_eq!(table.redirect(&id_for(1)).err(), Some(LinkError::Timeout));
    assert_eq!(
        table.update_link(&id_for(1), "https://example.com/b").err(),
        Some(LinkError::Timeout)
    );
    assert_eq!(LinkError::Timeout.status(), 500);
}

#[test]
fn store_within_time_bound_answers() {
    let mut table = LinkTable::with_latency(300, DEFAULT_TIMEOUT_MS);
    let link = table.create_link("https://example.com/", 1).ok().unwrap();
    assert_eq!(table.redirect(&link.id).ok().unwrap().location, "https://example.com/");
}

#[test]
fn colliding_identifier_is_refused() {
    let mut table = LinkTable::new();
    let first = table.create_link("https://example.com/first", 99).ok().unwrap();
    let second = table.create_link("https://example.com/second", 99);
    assert_eq!(second.err(), Some(LinkError::Duplicate));
    assert_eq!(table.redirect(&first.id).ok().unwrap().location, "https://example.com/first");
    assert_eq!(table.len(), 1);
}

#[test]
fn settle_maps_each_reply() {
    assert_eq!(settle(Reply::Elapsed).err(), Some(LinkError::Timeout));
    assert_eq!(
        settle(Reply::Failed(StoreFault::UniqueViolation)).err(),
        Some(LinkError::Duplicate)
    );
    assert_eq!(settle(Reply::Failed(StoreFault::Other)).err(), Some(LinkError::Store));
    assert_eq!(settle(Reply::Rows(None)).err(), Some(LinkError::NotFound));
    let row = Link::new("id".to_string(), "https://example.com/".to_string());
    let got = settle(Reply::Rows(Some(row))).ok().unwrap();
    assert_eq!(got.id, "id");
    assert_eq!(got.target_url, "https://example.com/");
}

#[test]
fn statuses_and_texts_of_errors() {
    assert_eq!(internal_error(LinkError::InvalidUrl), (409, "URL malformed"));
    assert_eq!(internal_error(LinkError::NotFound), (404, "Not found"));
    assert_eq!(internal_error(LinkError::Timeout), (500, "store timed out"));
    assert_eq!(internal_error(LinkError::Duplicate), (500, "identifier already in use"));
    assert_eq!(internal_error(LinkError::Store), (500, "store failure"));
}

#[test]
fn health_is_ok() {
    assert_eq!(health(), (200, "Service is Healthy"));
}

#[test]
fn redirect_carries_cache_policy() {
    let rd = redirect(Link::new("x".to_string(), "https://example.com/z".to_string()));
    assert_eq!(rd.status, 307);
    assert_eq!(rd.location, "https://example.com/z");
    assert_eq!(rd.cache_control, CACHE_CONTROL);
}

#[test]
fn normalize_target_outcomes() {
    assert_eq!(normalize_target("http://a.example/b/../c").ok().unwrap(), "http://a.example/c");
    assert_eq!(normalize_target("example.com").err(), Some(LinkError::InvalidUrl));
}

#[test]
fn plan_link_uses_drawn_number() {
    let l = plan_link("https://example.com", 42).ok().unwrap();
    assert_eq!(l.id, "NDI");
    assert_eq!(l.target_url, "https://example.com/");
    assert_eq!(plan_link("nope", 42).err(), Some(LinkError::InvalidUrl));
}

#[test]
fn only_collisions_are_retried() {
    assert!(retry_create(LinkError::Duplicate, 1, MAX_CREATE_ATTEMPTS));
    assert!(!retry_create(LinkError::Duplicate, MAX_CREATE_ATTEMPTS, MAX_CREATE_ATTEMPTS));
    assert!(!retry_create(LinkError::Store, 1, MAX_CREATE_ATTEMPTS));
    assert!(!retry_create(LinkError::Timeout, 1, MAX_CREATE_ATTEMPTS));
}

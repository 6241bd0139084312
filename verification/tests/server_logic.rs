use tinyserver::bootstrap::{create_users_table_sql, seed_insert_sql, seed_record, UsersStore};
use tinyserver::handler::{connection_plan, plan_request, Plan, ReadOutcome, READ_BUF_LEN};
use tinyserver::response::{page_name, static_response, Page, Status};
use tinyserver::route::{classify, Route, LOOKUP_ID};
use tinyserver::user::{lookup_response, to_decimal, user_json, LookupOutcome, Record};

#[test]
fn classify_root() {
    assert!(matches!(classify("GET / HTTP/1.1\r\n\r\n"), Route::Root));
}

#[test]
fn classify_root_ignores_trailing_content() {
    assert!(matches!(classify("GET / anything at all, even garbage"), Route::Root));
}

#[test]
fn classify_login() {
    assert!(matches!(classify("GET /login HTTP/1.1\r\n\r\n"), Route::Login));
}

#[test]
fn classify_login_longer_path_still_matches_prefix() {
    assert!(matches!(classify("GET /login/extra"), Route::Login));
}

#[test]
fn classify_user_lookup() {
    match classify("GET /users/1 HTTP/1.1\r\n\r\n") {
        Route::UserLookup(id) => assert_eq!(id, LOOKUP_ID),
        other => panic!("expected the lookup route, got {:?}", other),
    }
}

#[test]
fn classify_other_user_id_is_not_found() {
    assert!(matches!(classify("GET /users/2 HTTP/1.1"), Route::NotFound));
}

#[test]
fn classify_missing_trailing_space_is_not_root() {
    // "GET /" without the trailing space matches no known prefix.
    assert!(matches!(classify("GET /"), Route::NotFound));
}

#[test]
fn classify_post_is_not_found() {
    assert!(matches!(classify("POST / HTTP/1.1"), Route::NotFound));
}

#[test]
fn classify_empty_request_is_not_found() {
    assert!(matches!(classify(""), Route::NotFound));
}

#[test]
fn plan_maps_routes_to_status_and_page() {
    assert_eq!(plan_request("GET / HTTP/1.1"), Plan::Static(Status::Success, Page::Root));
    assert_eq!(plan_request("GET /login HTTP/1.1"), Plan::Static(Status::Success, Page::Login));
    assert_eq!(plan_request("GET /users/1 HTTP/1.1"), Plan::Lookup(1));
    assert_eq!(plan_request("GET /nope HTTP/1.1"), Plan::Static(Status::NotFound, Page::NotFound));
}

#[test]
fn zero_byte_connection_gets_no_response() {
    assert!(connection_plan(&ReadOutcome::Closed).is_none());
}

#[test]
fn failed_read_gets_no_response() {
    assert!(connection_plan(&ReadOutcome::Failed).is_none());
}

#[test]
fn captured_data_is_routed() {
    let plan = connection_plan(&ReadOutcome::Data(String::from("GET / HTTP/1.1")));
    assert_eq!(plan, Some(Plan::Static(Status::Success, Page::Root)));
}

#[test]
fn page_names_match_resolver_keys() {
    assert_eq!(page_name(Page::Root), "hello.html");
    assert_eq!(page_name(Page::Login), "login.html");
    assert_eq!(page_name(Page::NotFound), "404.html");
}

#[test]
fn root_response_is_status_headers_then_body() {
    let r = static_response(Status::Success, "<h1>Hello</h1>");
    assert_eq!(r, "HTTP/1.1 200 OK\r\nConnection: close\r\n\r\n<h1>Hello</h1>");
}

#[test]
fn login_response_body_is_resolved_content() {
    let r = static_response(Status::Success, "login page");
    assert_eq!(r, "HTTP/1.1 200 OK\r\nConnection: close\r\n\r\nlogin page");
}

#[test]
fn not_found_response_is_404_with_page_body() {
    let r = static_response(Status::NotFound, "missing!");
    assert_eq!(r, "HTTP/1.1 404 NOT FOUND\r\nConnection: close\r\n\r\nmissing!");
}

#[test]
fn empty_body_response_ends_with_blank_line() {
    let r = static_response(Status::Success, "");
    assert_eq!(r, "HTTP/1.1 200 OK\r\nConnection: close\r\n\r\n");
}

#[test]
fn decimal_of_zero() {
    assert_eq!(to_decimal(0), "0");
}

#[test]
fn decimal_of_single_digit() {
    assert_eq!(to_decimal(7), "7");
}

#[test]
fn decimal_of_two_digits() {
    assert_eq!(to_decimal(10), "10");
}

#[test]
fn decimal_of_many_digits() {
    assert_eq!(to_decimal(1234567890), "1234567890");
}

#[test]
fn decimal_of_largest_value() {
    assert_eq!(to_decimal(u64::MAX), "18446744073709551615");
}

#[test]
fn user_json_has_exactly_the_three_fields() {
    let r = Record {
        id: 1,
        name: String::from("Fathan"),
        email: String::from("fathan@rust.com"),
    };
    assert_eq!(user_json(&r), "{\"id\": 1, \"name\": \"Fathan\", \"email\": \"fathan@rust.com\"}");
}

#[test]
fn found_record_gets_json_200() {
    let outcome = LookupOutcome::Found(seed_record());
    let r = lookup_response(&outcome);
    assert_eq!(
        r,
        "HTTP/1.1 200 OK\r\nContent-Type: application/json\r\nConnection: close\r\n\r\n{\"id\": 1, \"name\": \"Fathan\", \"email\": \"fathan@rust.com\"}"
    );
}

#[test]
fn absent_record_gets_plain_404() {
    let r = lookup_response(&LookupOutcome::NotFound);
    assert_eq!(r, "HTTP/1.1 404 NOT FOUND\r\nConnection: close\r\n\r\nUser not found");
}

#[test]
fn service_failure_gets_plain_500() {
    let r = lookup_response(&LookupOutcome::ServiceFailure(String::from("connection refused")));
    assert_eq!(r, "HTTP/1.1 500 ERROR\r\nConnection: close\r\n\r\nDatabase error");
}

#[test]
fn service_failure_detail_is_never_echoed() {
    let detail = "secret internal state at 10.0.0.5";
    let r = lookup_response(&LookupOutcome::ServiceFailure(String::from(detail)));
    assert!(!r.contains(detail));
    assert!(!r.contains("10.0.0.5"));
}

#[test]
fn seed_record_has_known_fields() {
    let r = seed_record();
    assert_eq!(r.id, 1);
    assert_eq!(r.name, "Fathan");
    assert_eq!(r.email, "fathan@rust.com");
}

#[test]
fn bootstrap_seeds_an_empty_store_once() {
    let mut store = UsersStore::new();
    store.bootstrap();
    assert!(store.schema_ready);
    assert_eq!(store.rows.len(), 1);
    assert_eq!(store.rows[0].id, 1);
    assert_eq!(store.rows[0].name, "Fathan");
    assert_eq!(store.rows[0].email, "fathan@rust.com");
}

#[test]
fn repeated_bootstrap_never_creates_a_second_seed() {
    let mut store = UsersStore::new();
    store.bootstrap();
    store.bootstrap();
    store.bootstrap();
    assert_eq!(store.rows.len(), 1);
    assert_eq!(store.rows[0].id, 1);
}

#[test]
fn bootstrap_keeps_a_pre_existing_record() {
    let mut store = UsersStore::new();
    store.ensure_schema();
    store.rows.push(Record {
        id: 1,
        name: String::from("Someone Else"),
        email: String::from("someone@example.com"),
    });
    store.bootstrap();
    assert_eq!(store.rows.len(), 1);
    assert_eq!(store.rows[0].name, "Someone Else");
}

#[test]
fn schema_statement_is_conflict_tolerant() {
    assert!(create_users_table_sql().contains("IF NOT EXISTS"));
    assert_eq!(
        create_users_table_sql(),
        "CREATE TABLE IF NOT EXISTS users (id SERIAL PRIMARY KEY, name TEXT NOT NULL, email TEXT NOT NULL);"
    );
}

#[test]
fn seed_statement_is_conflict_tolerant() {
    assert!(seed_insert_sql().contains("ON CONFLICT DO NOTHING"));
    assert_eq!(
        seed_insert_sql(),
        "INSERT INTO users (id, name, email) VALUES (1, 'Fathan', 'fathan@rust.com') ON CONFLICT DO NOTHING"
    );
}

#[test]
fn read_buffer_is_the_fixed_capture_cap() {
    assert_eq!(READ_BUF_LEN, 4096);
}

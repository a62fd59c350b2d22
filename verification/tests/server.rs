use rustyback::api::{SettingsResponse, SpecialRandomResponse, WikiPageRequest, WikiPageResponse};
use rustyback::client::{Client, ClientError, Fetched, Redirect};
use rustyback::server::{
    error_status, extract_body, found_body, route, settings_handler, special_random_handler,
    body_of_document, wiki_page_handler, wiki_page_path, wikipedia_file_handler, ExtractionError,
    Method, RandomPair, Route, Server, ServerError, INTERNAL_SERVER_ERROR, MAX_DOCUMENT_CHARS,
};
use std::path::Path;
use std::sync::Arc;

const SERVER_URL: &str = "http://127.0.0.1:1234";

fn transport_failure() -> reqwest::Error {
    reqwest::Client::new().get("no address").build().unwrap_err()
}

fn is_dir(path: &str) -> Result<bool, std::io::Error> {
    Path::new(path).metadata().map(|metadata| metadata.is_dir())
}

fn random_title(location: &str) -> Result<String, ClientError> {
    Client::get_random(Ok(Redirect { status: 302, location: Some(location.as_bytes().to_vec()) }))
}

#[test]
fn test_new_server() {
    let client = Arc::new(Client::new(None));
    let server = Server::new(8080, ".".to_string(), client.clone(), is_dir("."));
    assert!(server.is_ok());

    let server = Server::new(80, ".".to_string(), client.clone(), is_dir("."));
    assert!(server.is_err());

    let server = Server::new(
        8080,
        "not-a-directory".to_string(),
        client.clone(),
        is_dir("not-a-directory"),
    );
    assert!(server.is_err());
}

#[test]
fn test_settings_handler() {
    let settings: SettingsResponse = settings_handler();
    assert_eq!(route(Method::Get, "/api/settings"), Route::Settings);
    assert_eq!(settings.loglevel, "info");
    assert!(settings.traceids.is_empty());
}

#[test]
fn test_special_random_handler() {
    let client = Client::new(Some(SERVER_URL));
    assert_eq!(client.random_url(), format!("{}/wiki/Special:Random", SERVER_URL));
    assert_eq!(route(Method::Get, "/api/specialrandom"), Route::SpecialRandom);

    let state = RandomPair::Start;
    let state = special_random_handler(state, random_title(&format!("{}/wiki/Start", SERVER_URL)));
    let state = special_random_handler(state, random_title(&format!("{}/wiki/Goal", SERVER_URL)));
    match state {
        RandomPair::Done { reply: Ok(special_random) } => {
            assert_eq!(special_random.start, "Start");
            assert_eq!(special_random.goal, "Goal");
        },
        other => panic!("the route did not answer: {:?}", other),
    }
}

#[test]
fn test_wiki_page_handler() {
    let client = Client::new(Some(SERVER_URL));
    let request = WikiPageRequest { subject: "Test".to_string() };
    assert_eq!(route(Method::Post, "/api/wikipage"), Route::WikiPage);
    let path = wiki_page_path(&request);
    assert_eq!(path, "/wiki/Test");
    assert_eq!(client.get_url(&path), format!("{}/wiki/Test", SERVER_URL));

    let fetched = Client::get(Ok(Fetched {
        status: 200,
        body: Ok(b"<html><body><p>Test</p></body></html>".to_vec()),
    }));
    let body = wiki_page_handler(fetched);
    assert_eq!(body, Ok("<p>Test</p>".to_string()));
}

#[test]
fn test_serve_static_files() {
    let client = Arc::new(Client::new(None));
    let server = Server::new(8081, ".".to_string(), client.clone(), is_dir(".")).unwrap();
    assert_eq!(server.port(), 8081);
    assert_eq!(server.static_path(), ".");
    assert_eq!(route(Method::Get, "/test.html"), Route::StaticFile);
}

#[test]
fn test_wikipedia_file_handler() {
    let client = Client::new(Some(SERVER_URL));
    assert_eq!(route(Method::Get, "/w/Test"), Route::WikipediaFile);
    assert_eq!(client.get_url("/w/Test"), format!("{}/w/Test", SERVER_URL));

    let fetched = Client::get(Ok(Fetched { status: 200, body: Ok(b"hello".to_vec()) }));
    let body = wikipedia_file_handler(fetched);
    assert_eq!(body, Ok(b"hello".to_vec()));
}

#[test]
fn server_refuses_reserved_ports() {
    for port in [0u16, 1, 80, 443, 1023, 1024] {
        let client = Arc::new(Client::new(None));
        match Server::new(port, ".".to_string(), client, Ok(true)) {
            Err(ServerError::InvalidPort(refused)) => assert_eq!(refused, port),
            other => panic!("port {} gave {:?}", port, other),
        }
    }
    for port in [1025u16, 8080, 65535] {
        let client = Arc::new(Client::new(None));
        let server = Server::new(port, ".".to_string(), client, Ok(true)).unwrap();
        assert_eq!(server.port(), port);
    }
}

#[test]
fn server_judges_the_port_before_the_path() {
    let client = Arc::new(Client::new(None));
    let lookup = Err(std::io::Error::from(std::io::ErrorKind::NotFound));
    let server = Server::new(80, "missing".to_string(), client.clone(), lookup);
    assert!(matches!(server, Err(ServerError::InvalidPort(80))));
    let server = Server::new(1024, "file".to_string(), client, Ok(false));
    assert!(matches!(server, Err(ServerError::InvalidPort(1024))));
}

#[test]
fn server_refuses_a_path_that_is_a_file() {
    let client = Arc::new(Client::new(None));
    let server = Server::new(8080, "index.html".to_string(), client, Ok(false));
    assert!(matches!(server, Err(ServerError::StaticPathNotADirectory)));
}

#[test]
fn server_refuses_a_path_that_cannot_be_looked_up() {
    let client = Arc::new(Client::new(None));
    let server = Server::new(8080, "not-a-directory".to_string(), client.clone(), is_dir("not-a-directory"));
    match server {
        Err(ServerError::StaticPathError(reason)) => {
            assert_eq!(reason.kind(), std::io::ErrorKind::NotFound)
        },
        other => panic!("a missing path gave {:?}", other),
    }
    let lookup = Err(std::io::Error::from(std::io::ErrorKind::PermissionDenied));
    match Server::new(8080, "closed".to_string(), client, lookup) {
        Err(ServerError::StaticPathError(reason)) => {
            assert_eq!(reason.kind(), std::io::ErrorKind::PermissionDenied)
        },
        other => panic!("a closed path gave {:?}", other),
    }
}

#[test]
fn server_keeps_what_it_was_given() {
    let client = Arc::new(Client::new(Some(SERVER_URL)));
    let server = Server::new(9000, "assets".to_string(), client.clone(), Ok(true)).unwrap();
    assert_eq!(server.port(), 9000);
    assert_eq!(server.static_path(), "assets");
    assert!(Arc::ptr_eq(server.client(), &client));
    assert_eq!(server.client().wiki_url(), SERVER_URL);
}

#[test]
fn error_status_keeps_the_upstream_status() {
    for status in [100u16, 302, 404, 418, 500, 503] {
        assert_eq!(error_status(&ClientError::StatusError(status)), status);
    }
}

#[test]
fn error_status_of_other_failures_is_500() {
    assert_eq!(INTERNAL_SERVER_ERROR, 500);
    assert_eq!(error_status(&ClientError::Reqwest(transport_failure())), 500);
    assert_eq!(error_status(&ClientError::MissingLocationHeader), 500);
    assert_eq!(
        error_status(&ClientError::InvalidLocationHeader(Some(url::ParseError::EmptyHost))),
        500
    );
    assert_eq!(error_status(&ClientError::InvalidLocationHeader(None)), 500);
}

#[test]
fn extract_body_gives_the_inner_markup() {
    assert_eq!(
        extract_body(b"<html><body><p>Test</p></body></html>"),
        Ok("<p>Test</p>".to_string())
    );
    assert_eq!(
        extract_body(b"<html><head><title>T</title></head><body class=\"x\">a<b>c</b></body></html>"),
        Ok("a<b>c</b>".to_string())
    );
}

#[test]
fn extract_body_parses_leniently() {
    assert_eq!(extract_body(b"<p>open"), Ok("<p>open</p>".to_string()));
    assert_eq!(extract_body(b"plain text"), Ok("plain text".to_string()));
    assert_eq!(extract_body(b""), Ok(String::new()));
    assert_eq!(extract_body(b"<body><div><span>x</div>"), Ok("<div><span>x</span></div>".to_string()));
}

#[test]
fn extract_body_replaces_bytes_that_are_no_text() {
    assert_eq!(extract_body(b"<body>a\xffb</body>"), Ok("a\u{fffd}b".to_string()));
}

#[test]
fn extract_body_fails_without_a_body_element() {
    assert_eq!(
        extract_body(b"<html><head></head><frameset><frame src=\"a.html\"></frameset></html>"),
        Err(ExtractionError::MissingBody)
    );
}

#[test]
fn body_of_document_reads_text() {
    assert_eq!(
        body_of_document("<html><body><p>Test</p></body></html>"),
        Ok("<p>Test</p>".to_string())
    );
    assert_eq!(body_of_document("Zo\u{eb} &amp; co"), Ok("Zo\u{eb} &amp; co".to_string()));
    assert_eq!(
        body_of_document("<html><frameset></frameset></html>"),
        Err(ExtractionError::MissingBody)
    );
}

#[test]
fn a_document_beyond_the_bound_is_refused_unparsed() {
    assert_eq!(MAX_DOCUMENT_CHARS, 357_913_941);
    let document = "<".repeat(MAX_DOCUMENT_CHARS + 1);
    assert_eq!(body_of_document(&document), Err(ExtractionError::DocumentTooLong));
    let page = document.into_bytes();
    assert_eq!(extract_body(&page), Err(ExtractionError::DocumentTooLong));
    assert_eq!(wiki_page_handler(Ok(page)), Err(500));
}

#[test]
fn found_body_maps_both_outcomes() {
    assert_eq!(found_body(Some("<p>x</p>".to_string())), Ok("<p>x</p>".to_string()));
    assert_eq!(found_body(Some(String::new())), Ok(String::new()));
    assert_eq!(found_body(None), Err(ExtractionError::MissingBody));
}

#[test]
fn settings_are_fixed() {
    let first = settings_handler();
    let second = settings_handler();
    assert_eq!(first.loglevel, "info");
    assert_eq!(first.loglevel, second.loglevel);
    assert_eq!(first.traceids, Vec::<String>::new());
    assert_eq!(second.traceids, Vec::<String>::new());
}

#[test]
fn random_pair_keeps_order_and_equal_titles() {
    let state = special_random_handler(RandomPair::Start, Ok("A".to_string()));
    assert!(matches!(&state, RandomPair::Goal { start } if start == "A"));
    let state = special_random_handler(state, Ok("B".to_string()));
    match state {
        RandomPair::Done { reply: Ok(SpecialRandomResponse { start, goal }) } => {
            assert_eq!((start.as_str(), goal.as_str()), ("A", "B"));
        },
        other => panic!("the route did not answer: {:?}", other),
    }

    let state = special_random_handler(RandomPair::Start, Ok("Same".to_string()));
    let state = special_random_handler(state, Ok("Same".to_string()));
    match state {
        RandomPair::Done { reply: Ok(SpecialRandomResponse { start, goal }) } => {
            assert_eq!((start.as_str(), goal.as_str()), ("Same", "Same"));
        },
        other => panic!("the route did not answer: {:?}", other),
    }
}

#[test]
fn random_pair_ends_at_the_first_failure() {
    let state = special_random_handler(RandomPair::Start, Err(ClientError::StatusError(503)));
    assert!(matches!(state, RandomPair::Done { reply: Err(503) }));

    let state = special_random_handler(RandomPair::Start, Err(ClientError::MissingLocationHeader));
    assert!(matches!(state, RandomPair::Done { reply: Err(500) }));
}

#[test]
fn random_pair_drops_the_start_when_the_goal_fails() {
    let state = special_random_handler(RandomPair::Start, Ok("Start".to_string()));
    let state = special_random_handler(state, Err(ClientError::StatusError(404)));
    assert!(matches!(state, RandomPair::Done { reply: Err(404) }));

    let state = special_random_handler(RandomPair::Start, Ok("Start".to_string()));
    let state = special_random_handler(state, Err(ClientError::Reqwest(transport_failure())));
    assert!(matches!(state, RandomPair::Done { reply: Err(500) }));
}

#[test]
fn random_pair_answer_is_final() {
    let state = special_random_handler(RandomPair::Start, Err(ClientError::StatusError(404)));
    let state = special_random_handler(state, Ok("Late".to_string()));
    assert!(matches!(state, RandomPair::Done { reply: Err(404) }));

    let state = special_random_handler(RandomPair::Start, Ok("A".to_string()));
    let state = special_random_handler(state, Ok("B".to_string()));
    let state = special_random_handler(state, Err(ClientError::StatusError(500)));
    assert!(matches!(
        state,
        RandomPair::Done { reply: Ok(SpecialRandomResponse { ref start, ref goal }) }
            if start == "A" && goal == "B"
    ));
}

#[test]
fn wiki_page_path_keeps_the_subject_verbatim() {
    let request = WikiPageRequest { subject: "Rust (programming language)".to_string() };
    assert_eq!(wiki_page_path(&request), "/wiki/Rust (programming language)");
    let request = WikiPageRequest { subject: "../w/index.php?title=A&b=c".to_string() };
    assert_eq!(wiki_page_path(&request), "/wiki/../w/index.php?title=A&b=c");
    let request = WikiPageRequest { subject: String::new() };
    assert_eq!(wiki_page_path(&request), "/wiki/");
}

#[test]
fn wiki_page_handler_maps_failures() {
    assert_eq!(wiki_page_handler(Err(ClientError::StatusError(404))), Err(404));
    assert_eq!(wiki_page_handler(Err(ClientError::Reqwest(transport_failure()))), Err(500));
    assert_eq!(wiki_page_handler(Err(ClientError::MissingLocationHeader)), Err(500));
    assert_eq!(
        wiki_page_handler(Err(ClientError::InvalidLocationHeader(Some(
            url::ParseError::EmptyHost
        )))),
        Err(500)
    );
    assert_eq!(wiki_page_handler(Err(ClientError::InvalidLocationHeader(None))), Err(500));
}

#[test]
fn wiki_page_handler_fails_without_a_body_element() {
    let page = b"<html><frameset></frameset></html>".to_vec();
    assert_eq!(wiki_page_handler(Ok(page)), Err(500));
}

#[test]
fn upstream_failure_reaches_the_caller_as_its_status() {
    let fetched = Client::get(Ok(Fetched { status: 500, body: Ok(Vec::new()) }));
    assert!(matches!(fetched, Err(ClientError::StatusError(500))));
    assert_eq!(wikipedia_file_handler(fetched), Err(500));

    let fetched = Client::get(Ok(Fetched { status: 500, body: Ok(Vec::new()) }));
    assert_eq!(wiki_page_handler(fetched), Err(500));

    let fetched = Client::get(Ok(Fetched { status: 404, body: Ok(b"gone".to_vec()) }));
    assert_eq!(wikipedia_file_handler(fetched), Err(404));
}

#[test]
fn relay_does_not_touch_the_bytes() {
    let page = b"<html><body><p>Test</p></body></html>".to_vec();
    assert_eq!(wikipedia_file_handler(Ok(page.clone())), Ok(page));
    let bytes = vec![0u8, 159, 146, 150, 255];
    assert_eq!(wikipedia_file_handler(Ok(bytes.clone())), Ok(bytes));
    assert_eq!(wikipedia_file_handler(Ok(Vec::new())), Ok(Vec::new()));
}

#[test]
fn relay_maps_failures() {
    assert_eq!(wikipedia_file_handler(Err(ClientError::StatusError(403))), Err(403));
    assert_eq!(wikipedia_file_handler(Err(ClientError::Reqwest(transport_failure()))), Err(500));
}

#[test]
fn routes_of_the_api() {
    assert_eq!(route(Method::Get, "/api/settings"), Route::Settings);
    assert_eq!(route(Method::Head, "/api/settings"), Route::Settings);
    assert_eq!(route(Method::Post, "/api/settings"), Route::MethodNotAllowed);
    assert_eq!(route(Method::Get, "/api/specialrandom"), Route::SpecialRandom);
    assert_eq!(route(Method::Other, "/api/specialrandom"), Route::MethodNotAllowed);
    assert_eq!(route(Method::Post, "/api/wikipage"), Route::WikiPage);
    assert_eq!(route(Method::Get, "/api/wikipage"), Route::MethodNotAllowed);
    assert_eq!(route(Method::Head, "/api/wikipage"), Route::MethodNotAllowed);
}

#[test]
fn routes_of_the_relayed_namespaces() {
    assert_eq!(route(Method::Get, "/w/load.php"), Route::WikipediaFile);
    assert_eq!(route(Method::Head, "/w/a/b/c"), Route::WikipediaFile);
    assert_eq!(route(Method::Get, "/static/images/logo.png"), Route::WikipediaFile);
    assert_eq!(route(Method::Post, "/w/load.php"), Route::MethodNotAllowed);
    assert_eq!(route(Method::Other, "/static/x"), Route::MethodNotAllowed);
}

#[test]
fn every_other_path_is_a_static_file() {
    for method in [Method::Get, Method::Head, Method::Post, Method::Other] {
        assert_eq!(route(method, "/"), Route::StaticFile);
        assert_eq!(route(method, "/index.html"), Route::StaticFile);
        assert_eq!(route(method, "/w/"), Route::StaticFile);
        assert_eq!(route(method, "/w"), Route::StaticFile);
        assert_eq!(route(method, "/static/"), Route::StaticFile);
        assert_eq!(route(method, "/static"), Route::StaticFile);
        assert_eq!(route(method, "/api/settings/"), Route::StaticFile);
        assert_eq!(route(method, "/api"), Route::StaticFile);
        assert_eq!(route(method, "/wiki/Test"), Route::StaticFile);
        assert_eq!(route(method, "/W/x"), Route::StaticFile);
        assert_eq!(route(method, ""), Route::StaticFile);
    }
}

#[test]
fn page_response_holds_page_and_error() {
    let response = WikiPageResponse { page: "<p>x</p>".to_string(), error: String::new() };
    assert_eq!(response.page, "<p>x</p>");
    assert_eq!(response.error, "");
}

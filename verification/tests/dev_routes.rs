use dev_server::dev_routes::build_options;
use dev_server::dev_routes::get_asset;
use dev_server::dev_routes::get_index;
use dev_server::dev_routes::respond;
use dev_server::dev_routes::routes;
use dev_server::dev_routes::Error;
use dev_server::dev_routes::Handler;
use dev_server::dev_routes::Method;
use dev_server::dev_routes::INTERNAL_SERVER_ERROR;
use dev_server::dev_routes::NOT_FOUND;
use dev_server::watcher::Watching;

#[test]
fn found_asset_is_answered_with_its_media_type() {
    let response = respond(Some(("text/html".to_string(), b"<html></html>".to_vec())));
    let (headers, body) = response.expect("an asset is served");
    assert_eq!(headers, vec![("content-type".to_string(), "text/html".to_string())]);
    assert_eq!(body, b"<html></html>".to_vec());
}

#[test]
fn missing_asset_is_not_found() {
    match respond(None) {
        Err(Error::StatusCode(code)) => assert_eq!(code, 404),
        other => panic!("expected a status, got {:?}", other),
    }
    assert_eq!(NOT_FOUND, 404);
}

#[test]
fn media_type_that_cannot_be_a_header_is_a_fault() {
    let response = respond(Some(("text/\nhtml".to_string(), vec![1])));
    assert!(matches!(response, Err(Error::InvalidHeaderValue(_))));
    let response = respond(Some(("text/\u{7f}".to_string(), vec![1])));
    assert!(matches!(response, Err(Error::InvalidHeaderValue(_))));
}

#[test]
fn tab_and_characters_beyond_ascii_can_stand_in_a_header() {
    assert!(respond(Some(("a\tb".to_string(), Vec::new()))).is_ok());
    assert!(respond(Some(("caf\u{e9}".to_string(), Vec::new()))).is_ok());
    assert!(respond(Some((String::new(), Vec::new()))).is_ok());
}

#[test]
fn status_is_answered_with_an_empty_body() {
    let response = Error::StatusCode(404).into_response(false);
    assert_eq!(response.status, 404);
    assert_eq!(response.body, "");
    let response = Error::StatusCode(404).into_response(true);
    assert_eq!(response.status, 404);
    assert_eq!(response.body, "");
    let response = Error::StatusCode(503).into_response(true);
    assert_eq!(response.status, 503);
    assert_eq!(response.body, "");
}

#[test]
fn status_without_a_reason_phrase_is_answered_as_it_is() {
    let response = Error::StatusCode(599).into_response(false);
    assert_eq!(response.status, 599);
    assert_eq!(response.body, "");
    assert_eq!(Error::StatusCode(100).status(), 100);
    assert_eq!(Error::StatusCode(999).status(), 999);
}

#[test]
fn number_that_is_no_status_is_a_server_error() {
    for code in [0, 42, 99, 1000, u16::MAX] {
        assert_eq!(Error::StatusCode(code).status(), 500);
        let response = Error::StatusCode(code).into_response(true);
        assert_eq!(response.status, 500);
        assert_eq!(response.body, "");
    }
}

#[test]
fn fault_is_a_server_error_with_an_empty_body() {
    let fault = respond(Some(("\n".to_string(), Vec::new()))).unwrap_err();
    assert_eq!(fault.status(), 500);
    let response = fault.into_response(false);
    assert_eq!(response.status, INTERNAL_SERVER_ERROR);
    assert_eq!(response.status, 500);
    assert_eq!(response.body, "");
    let io = Error::Io(std::io::Error::other("disk"));
    let response = io.into_response(false);
    assert_eq!(response.status, 500);
    assert_eq!(response.body, "");
}

#[test]
fn fault_is_dumped_where_diagnostics_are_on() {
    let fault = respond(Some(("\n".to_string(), Vec::new()))).unwrap_err();
    let response = fault.into_response(true);
    assert_eq!(response.status, 500);
    assert!(!response.body.is_empty());
    assert!(response.body.contains("InvalidHeaderValue"));
    let response = Error::Io(std::io::Error::other("disk")).into_response(true);
    assert_eq!(response.status, 500);
    assert!(response.body.contains("Io"));
}

#[test]
fn errors_are_made_from_what_they_hold() {
    assert!(matches!(Error::from(404u16), Error::StatusCode(404)));
    assert!(matches!(Error::from(std::io::Error::other("disk")), Error::Io(_)));
}

#[test]
fn index_route_asks_for_the_entry_document() {
    let watching = Watching::new("/", None, None, std::time::SystemTime::UNIX_EPOCH);
    assert_eq!(get_index(&watching).path(), "/index.html");
}

#[test]
fn asset_route_asks_for_the_path_as_it_stands() {
    let watching = Watching::new("/", None, None, std::time::SystemTime::UNIX_EPOCH);
    assert_eq!(get_asset(&watching, "js/app.js").path(), "/js/app.js");
    assert_eq!(get_asset(&watching, "index.html").path(), get_index(&watching).path().as_str());
}

#[test]
fn routes_are_the_index_and_the_catch_all() {
    let routes = routes(std::time::SystemTime::UNIX_EPOCH).routes;
    assert_eq!(routes.len(), 2);
    assert_eq!(routes[0].method, Method::Get);
    assert_eq!(routes[1].method, Method::Get);
    assert_eq!(routes[0].path, "/");
    assert_eq!(routes[0].handler, Handler::Index);
    assert_eq!(routes[1].path, "/{*path}");
    assert_eq!(routes[1].handler, Handler::Asset);
}

#[test]
fn build_is_configured_for_development() {
    let options = build_options();
    assert_eq!(options.mode, "development");
    assert!(options.inline_source_maps);
    assert_eq!(options.entry_name, "main");
    assert_eq!(options.entry_path, "./frontend/index.ts");
    assert_eq!(options.output_path, "/");
    assert_eq!(options.tsconfig, "./tsconfig.json");
    assert_eq!(options.rule.test, "\\.ts$");
    assert_eq!(options.rule.loader, "builtin:swc-loader");
    assert_eq!(options.rule.options_file, ".swcrc");
    assert!(options.html_entry);
    assert!(options.memory_output);
}

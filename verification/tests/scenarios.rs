use std::collections::HashMap;
use std::time::SystemTime;

use dev_server::asset::AssetQuery;
use dev_server::asset::FileMetadata;
use dev_server::dev_routes::get_asset;
use dev_server::dev_routes::get_index;
use dev_server::dev_routes::respond;
use dev_server::dev_routes::routes;
use dev_server::dev_routes::Error;
use dev_server::watcher::Action;
use dev_server::watcher::Outcome;
use dev_server::watcher::Watching;

/// A compiler that writes a new version of the entry document on each build.
struct StubCompiler {
    store: HashMap<String, Vec<u8>>,
    version: u32,
    builds: u32,
    rebuilds: Vec<(Vec<String>, Vec<String>)>,
}

impl StubCompiler {
    fn new() -> StubCompiler {
        StubCompiler { store: HashMap::new(), version: 0, builds: 0, rebuilds: Vec::new() }
    }

    fn write_entry(&mut self) {
        self.version += 1;
        let document = format!("<html>v{}</html>", self.version);
        self.store.insert("/index.html".to_string(), document.into_bytes());
    }
}

/// Performs the actions of the orchestrator until it stands by.
fn drive(watching: &mut Watching, first: Action, compiler: &mut StubCompiler) {
    let mut action = first;
    loop {
        let outcome = match action {
            Action::Standby => return,
            Action::Pause => Outcome::Paused,
            Action::Build => {
                compiler.builds += 1;
                compiler.write_entry();
                Outcome::Compiled { success: true }
            }
            Action::Rebuild { changed, deleted } => {
                compiler.rebuilds.push((changed, deleted));
                compiler.write_entry();
                Outcome::Compiled { success: true }
            }
            Action::ReadDependencies => Outcome::Dependencies {
                files: vec!["src/a.ts".to_string()],
                missing: Vec::new(),
                diagnostics: Vec::new(),
            },
            Action::Watch { files, .. } => {
                assert_eq!(files.watch, vec!["src/a.ts".to_string()]);
                Outcome::Armed
            }
        };
        action = watching.advance(outcome);
    }
}

/// Answers a lookup from the store, as the server does for a request.
fn serve(query: AssetQuery, store: &HashMap<String, Vec<u8>>) -> Result<(Vec<(String, String)>, Vec<u8>), Error> {
    let metadata = store.get(query.path().as_str()).map(|content| FileMetadata {
        is_file: true,
        is_directory: false,
        is_symlink: false,
        size: content.len() as u64,
    });
    let asset = query.checked(metadata).map(|read| {
        let content = store[read.path().as_str()].clone();
        read.loaded(content)
    });
    respond(asset)
}

#[test]
fn change_is_served_after_the_rebuild() {
    let mut compiler = StubCompiler::new();
    let mut watching = Watching::new("/", None, None, SystemTime::now());

    assert!(serve(get_index(&watching), &compiler.store).is_err());

    let first = watching.start();
    drive(&mut watching, first, &mut compiler);
    let (headers, body) = serve(get_index(&watching), &compiler.store).expect("the entry document is served");
    assert_eq!(body, b"<html>v1</html>".to_vec());
    assert_eq!(headers, vec![("content-type".to_string(), "text/html".to_string())]);

    let first = watching.on_event_handle(vec!["src/a.ts".to_string()], Vec::new(), SystemTime::now());
    drive(&mut watching, first, &mut compiler);
    let (_, body) = serve(get_index(&watching), &compiler.store).expect("the entry document is served");
    assert_eq!(body, b"<html>v2</html>".to_vec());

    assert_eq!(compiler.builds, 1);
    assert_eq!(compiler.rebuilds, vec![(vec!["src/a.ts".to_string()], Vec::new())]);
}

#[test]
fn missing_asset_is_answered_with_not_found() {
    let mut compiler = StubCompiler::new();
    let mut watching = Watching::new("/", None, None, SystemTime::now());
    let first = watching.start();
    drive(&mut watching, first, &mut compiler);

    let fault = serve(get_asset(&watching, "missing.js"), &compiler.store).unwrap_err();
    assert!(matches!(fault, Error::StatusCode(404)));
    let response = fault.into_response(false);
    assert_eq!(response.status, 404);
    assert_eq!(response.body, "");
}

#[test]
fn one_aggregated_event_leads_to_one_rebuild_with_the_union() {
    let mut compiler = StubCompiler::new();
    let mut watching = Watching::new("/", None, None, SystemTime::now());
    let first = watching.start();
    drive(&mut watching, first, &mut compiler);

    // Two changes inside one debounce window reach the orchestrator as one
    // batch that holds both.
    let changed = vec!["src/a.ts".to_string(), "src/b.ts".to_string()];
    let deleted = vec!["src/c.ts".to_string()];
    let first = watching.on_event_handle(changed.clone(), deleted.clone(), SystemTime::now());
    assert_eq!(first, Action::Pause);
    drive(&mut watching, first, &mut compiler);

    assert_eq!(compiler.builds, 1);
    assert_eq!(compiler.rebuilds, vec![(changed, deleted)]);
    assert_eq!(watching.waiting(), 0);
}

#[test]
fn two_lookups_without_a_rebuild_between_serve_the_same() {
    let mut compiler = StubCompiler::new();
    let mut watching = Watching::new("/", None, None, SystemTime::now());
    let first = watching.start();
    drive(&mut watching, first, &mut compiler);

    let first = serve(get_index(&watching), &compiler.store).unwrap();
    let second = serve(get_index(&watching), &compiler.store).unwrap();
    assert_eq!(first, second);
}

#[test]
fn path_that_no_build_wrote_is_absent_before_and_after_a_build() {
    let mut compiler = StubCompiler::new();
    let mut watching = Watching::new("/", None, None, SystemTime::now());
    assert!(matches!(serve(get_asset(&watching, "other.css"), &compiler.store), Err(Error::StatusCode(404))));
    let first = watching.start();
    drive(&mut watching, first, &mut compiler);
    assert!(matches!(serve(get_asset(&watching, "other.css"), &compiler.store), Err(Error::StatusCode(404))));
    assert!(serve(get_asset(&watching, "index.html"), &compiler.store).is_ok());
}

#[test]
fn server_is_made_with_its_build_its_orchestrator_and_its_routes() {
    let now = SystemTime::now();
    let server = routes(now);
    assert_eq!(server.build.mode, "development");
    assert_eq!(server.build.output_path, "/");
    assert_eq!(server.watching.output_path(), "/");
    assert_eq!(server.watching.waiting(), 1);
    assert_eq!(server.routes.len(), 2);

    let mut compiler = StubCompiler::new();
    let mut watching = server.watching;
    let first = watching.start();
    assert_eq!(first, Action::Pause);
    drive(&mut watching, first, &mut compiler);
    let (_, body) = serve(get_index(&watching), &compiler.store).expect("the entry document is served");
    assert_eq!(body, b"<html>v1</html>".to_vec());
}

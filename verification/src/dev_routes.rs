//! The HTTP boundary of the development server.
//!
//! Two entry points reach the orchestrator: `/` asks for the entry document
//! and every other path for the asset of that name.  A lookup that found its
//! asset is answered with the asset's bytes under its media type, one that
//! found nothing with a "not found" status, and a fault at the boundary with
//! a server error.

use axum::http::header::InvalidHeaderValue;
use axum::http::HeaderValue;
use vstd::prelude::*;

use crate::asset::guessed_mime;
use crate::asset::joined_path;
use crate::asset::served;
use crate::asset::store_answers_content;
use crate::asset::AssetQuery;
use crate::asset::Store;
use crate::watcher::initial_session;
use crate::watcher::Watching;

verus! {

/// A header value of the `http` crate.  Made only to learn whether a text
/// can be one.
#[verifier::external_type_specification]
#[verifier::external_body]
pub struct ExHeaderValue(HeaderValue);

/// The error of the `http` crate for a text that cannot be a header value.
#[verifier::external_type_specification]
#[verifier::external_body]
pub struct ExInvalidHeaderValue(InvalidHeaderValue);

/// An input/output error of the standard library.
#[verifier::external_type_specification]
#[verifier::external_body]
pub struct ExIoError(std::io::Error);

/// Whether a header value may hold `c`: a tab, or any character from the
/// space on but the delete character.
pub open spec fn is_header_char(c: char) -> bool {
    (c as u32 >= 32 && c as u32 != 127) || c == '\t'
}

/// Whether `text` can be a header value.
pub open spec fn is_header_text(text: Seq<char>) -> bool {
    forall|i: int| 0 <= i < text.len() ==> is_header_char(#[trigger] text[i])
}

/// Makes a header value of `text` with `http::HeaderValue::from_str`.
///
/// Trusted: the call succeeds exactly where every byte of the text is a
/// tab, or at least 32 and not 127.  A character below 128 is one byte of
/// its own number and a character from 128 on is a run of bytes from 128 on,
/// so this is the same as [`is_header_text`] of the characters.
#[verifier::external_body]
fn header_value(text: &str) -> (value: Result<HeaderValue, InvalidHeaderValue>)
    ensures
        value is Ok <==> is_header_text(text@),
{
    HeaderValue::from_str(text)
}

/// Writes `error` out with `format!` and its `Debug` form.
///
/// Trusted: the text is not empty, since the `Debug` form of a value begins
/// with the name of its variant.  Nothing else is claimed of the text.
#[verifier::external_body]
fn dump(error: &Error) -> (text: String)
    ensures
        text@.len() > 0,
{
    format!("{:#?}", error)
}

/// The status of an asset that the build output does not hold.
pub const NOT_FOUND: u16 = 404;

/// The status of a fault at the boundary.
pub const INTERNAL_SERVER_ERROR: u16 = 500;

/// The name of the entry document, which `/` resolves to.
pub open spec fn entry_document() -> Seq<char> {
    "index.html"@
}

/// The name of the header that carries the media type.
pub open spec fn content_type() -> Seq<char> {
    "content-type"@
}

/// What can go wrong at the HTTP boundary.
#[derive(Debug)]
pub enum Error {
    /// Input or output failed.
    Io(std::io::Error),
    /// The request is answered with this status and nothing else.
    StatusCode(u16),
    /// A media type cannot stand in a header.
    InvalidHeaderValue(InvalidHeaderValue),
}

impl From<u16> for Error {
    /// The error that answers with the status `code`.
    fn from(code: u16) -> (error: Error) {
        Error::StatusCode(code)
    }
}

impl vstd::std_specs::convert::FromSpecImpl<u16> for Error {
    open spec fn obeys_from_spec() -> bool {
        true
    }

    open spec fn from_spec(code: u16) -> Error {
        Error::StatusCode(code)
    }
}

impl From<InvalidHeaderValue> for Error {
    fn from(invalid: InvalidHeaderValue) -> (error: Error) {
        Error::InvalidHeaderValue(invalid)
    }
}

impl vstd::std_specs::convert::FromSpecImpl<InvalidHeaderValue> for Error {
    open spec fn obeys_from_spec() -> bool {
        true
    }

    open spec fn from_spec(invalid: InvalidHeaderValue) -> Error {
        Error::InvalidHeaderValue(invalid)
    }
}

impl From<std::io::Error> for Error {
    fn from(error: std::io::Error) -> (wrapped: Error) {
        Error::Io(error)
    }
}

impl vstd::std_specs::convert::FromSpecImpl<std::io::Error> for Error {
    open spec fn obeys_from_spec() -> bool {
        true
    }

    open spec fn from_spec(error: std::io::Error) -> Error {
        Error::Io(error)
    }
}

/// The answer that stands for an [`Error`].
#[derive(Debug, PartialEq, Eq)]
pub struct ErrorResponse {
    pub status: u16,
    pub body: String,
}

/// Whether `code` is a status of HTTP: a number of three digits.
pub open spec fn is_status(code: u16) -> bool {
    100 <= code <= 999
}

impl Error {
    /// The status that answers a request which ended with this error: the
    /// status it holds, where the number it holds is one, and a server error
    /// for everything else.
    pub open spec fn status_spec(self) -> u16 {
        match self {
            Error::StatusCode(code) if is_status(code) => code,
            _ => INTERNAL_SERVER_ERROR,
        }
    }

    /// The status that answers a request which ended with this error.
    ///
    /// It is the status the error holds.  An error that holds a number which
    /// is no status, and every other error, is a server error.
    pub fn status(&self) -> (status: u16)
        ensures
            status == self.status_spec(),
            is_status(status),
    {
        match self {
            Error::StatusCode(code) => {
                if 100 <= *code && *code <= 999 {
                    *code
                } else {
                    INTERNAL_SERVER_ERROR
                }
            },
            _ => INTERNAL_SERVER_ERROR,
        }
    }

    /// The answer to a request that ended with this error.
    ///
    /// A status is answered with itself and an empty body: the status says
    /// all there is to say.  A fault is a server error; its body is empty
    /// too, unless `diagnostics` asks for a dump of the fault, which is then
    /// the body.
    pub fn into_response(self, diagnostics: bool) -> (response: ErrorResponse)
        ensures
            response.status == self.status_spec(),
            is_status(response.status),
            response.body@.len() > 0 <==> diagnostics && !(self is StatusCode),
    {
        let status = self.status();
        match self {
            Error::StatusCode(_) => ErrorResponse { status, body: String::new() },
            fault => {
                let body = if diagnostics {
                    dump(&fault)
                } else {
                    String::new()
                };
                ErrorResponse { status, body }
            },
        }
    }
}

/// The view of a list of headers.
pub open spec fn headers_view(headers: Seq<(String, String)>) -> Seq<(Seq<char>, Seq<char>)> {
    Seq::new(headers.len(), |i: int| (headers[i].0@, headers[i].1@))
}

/// Answers a lookup that has ended.
///
/// An asset is answered with its bytes and one header, the media type as the
/// content type.  Where the media type cannot stand in a header the answer
/// is [`Error::InvalidHeaderValue`], and where the lookup found nothing it
/// is the status [`NOT_FOUND`].
pub fn respond(asset: Option<(String, Vec<u8>)>) -> (response: Result<
    (Vec<(String, String)>, Vec<u8>),
    Error,
>)
    ensures
        match asset {
            Some((mime, content)) => if is_header_text(mime@) {
                &&& response matches Ok((headers, body))
                &&& headers_view(headers@) == seq![(content_type(), mime@)]
                &&& body@ == content@
            } else {
                response matches Err(Error::InvalidHeaderValue(_))
            },
            None => response matches Err(Error::StatusCode(code)) && code == NOT_FOUND,
        },
{
    match asset {
        Some((mime, content)) => match header_value(mime.as_str()) {
            Ok(_) => {
                let mut headers: Vec<(String, String)> = Vec::new();
                headers.push(("content-type".to_owned(), mime));
                assert(headers_view(headers@) =~= seq![(content_type(), mime@)]);
                Ok((headers, content))
            },
            Err(invalid) => Err(Error::from(invalid)),
        },
        None => Err(Error::from(NOT_FOUND)),
    }
}

/// Whatever a build wrote beside it, an entry document that the store holds
/// as a regular file is served with its own bytes, under the media type
/// guessed for its resolved path.
pub proof fn lemma_entry_document_is_served(store: Store, root: Seq<char>, bytes: Seq<u8>)
    requires
        store_answers_content(store, joined_path(root, entry_document()), bytes),
    ensures
        served(store, root, entry_document()) == Some(
            (guessed_mime(joined_path(root, entry_document())), bytes),
        ),
{
}

/// Starts the lookup that answers `GET /`: the entry document.
pub fn get_index(watching: &Watching) -> (query: AssetQuery)
    ensures
        query@ == joined_path(watching@.output_path, entry_document()),
{
    watching.get_asset("index.html")
}

/// Starts the lookup that answers `GET /<path>`: the asset at `path`, taken
/// as it stands.
pub fn get_asset(watching: &Watching, path: &str) -> (query: AssetQuery)
    ensures
        query@ == joined_path(watching@.output_path, path@),
{
    watching.get_asset(path)
}

/// Which lookup answers a route.
#[derive(Debug, Clone, Copy, PartialEq, Eq, Structural)]
pub enum Handler {
    /// The entry document.
    Index,
    /// The asset that the rest of the request path names.
    Asset,
}

/// The request method that a route answers.
#[derive(Debug, Clone, Copy, PartialEq, Eq, Structural)]
pub enum Method {
    Get,
}

/// A route of the development server: a request of `method` on `path` is
/// answered by `handler`.
#[derive(Debug, PartialEq, Eq)]
pub struct Route {
    pub method: Method,
    pub path: String,
    pub handler: Handler,
}

/// The view of a list of routes.
pub open spec fn routes_view(routes: Seq<Route>) -> Seq<(Method, Seq<char>, Handler)> {
    Seq::new(routes.len(), |i: int| (routes[i].method, routes[i].path@, routes[i].handler))
}

/// The one rule by which modules are transformed: the sources whose path
/// matches `test` go through `loader`, which takes its options from the file
/// `options_file`.
#[derive(Debug, PartialEq, Eq)]
pub struct TransformRule {
    pub test: String,
    pub loader: String,
    pub options_file: String,
}

/// The configuration of the build, which is fixed.
#[derive(Debug, PartialEq, Eq)]
pub struct BuildOptions {
    /// The build mode.
    pub mode: String,
    /// Whether source maps are written into the bundles.
    pub inline_source_maps: bool,
    /// The name of the one entry point and the module it starts from.
    pub entry_name: String,
    pub entry_path: String,
    /// The directory of the output store that the build writes below.
    pub output_path: String,
    /// The TypeScript configuration that module resolution goes by.
    pub tsconfig: String,
    pub rule: TransformRule,
    /// Whether an HTML entry document is emitted.
    pub html_entry: bool,
    /// Whether the output goes to the store in memory, not to disk.
    pub memory_output: bool,
}

/// Whether `options` is the configuration of the build: a development
/// build with inline source maps, the entry point `main`, output at the root
/// of the store in memory, TypeScript sources transformed by the built-in
/// loader, and an HTML entry document.
pub open spec fn is_development_build(options: BuildOptions) -> bool {
    &&& options.mode@ == "development"@
    &&& options.inline_source_maps
    &&& options.entry_name@ == "main"@
    &&& options.entry_path@ == "./frontend/index.ts"@
    &&& options.output_path@ == "/"@
    &&& options.tsconfig@ == "./tsconfig.json"@
    &&& options.rule.test@ == "\\.ts$"@
    &&& options.rule.loader@ == "builtin:swc-loader"@
    &&& options.rule.options_file@ == ".swcrc"@
    &&& options.html_entry
    &&& options.memory_output
}

/// The configuration of the build.
pub fn build_options() -> (options: BuildOptions)
    ensures
        is_development_build(options),
{
    BuildOptions {
        mode: "development".to_owned(),
        inline_source_maps: true,
        entry_name: "main".to_owned(),
        entry_path: "./frontend/index.ts".to_owned(),
        output_path: "/".to_owned(),
        tsconfig: "./tsconfig.json".to_owned(),
        rule: TransformRule {
            test: "\\.ts$".to_owned(),
            loader: "builtin:swc-loader".to_owned(),
            options_file: ".swcrc".to_owned(),
        },
        html_entry: true,
        memory_output: true,
    }
}

/// The development server before it is wired to its collaborators: the
/// build it runs, the orchestrator of that build, and the routes that reach
/// the orchestrator.
#[derive(Debug)]
pub struct DevServer {
    pub build: BuildOptions,
    pub watching: Watching,
    pub routes: Vec<Route>,
}

/// The development server, made at the instant `now`.
///
/// The build is the fixed development build.  The orchestrator is made
/// once, for the output directory of that build, with the default watcher
/// options and the default policy, and its initial build is scheduled.  A
/// `GET` on `/` serves the entry document, and a `GET` on any path below it,
/// nested segments included, serves the asset of that name.
pub fn routes(now: std::time::SystemTime) -> (server: DevServer)
    ensures
        is_development_build(server.build),
        server.watching@ == initial_session("/"@, None, None, now),
        server.watching@.well_formed(),
        routes_view(server.routes@) == seq![
            (Method::Get, "/"@, Handler::Index),
            (Method::Get, "/{*path}"@, Handler::Asset),
        ],
{
    let build = build_options();
    let watching = Watching::new(build.output_path.as_str(), None, None, now);
    let mut routes: Vec<Route> = Vec::new();
    routes.push(Route { method: Method::Get, path: "/".to_owned(), handler: Handler::Index });
    routes.push(
        Route { method: Method::Get, path: "/{*path}".to_owned(), handler: Handler::Asset },
    );
    assert(routes_view(routes@) =~= seq![
        (Method::Get, "/"@, Handler::Index),
        (Method::Get, "/{*path}"@, Handler::Asset),
    ]);
    DevServer { build, watching, routes }
}

} // verus!

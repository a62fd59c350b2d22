//! The dispatch layer: which handler a request goes to, what each handler
//! answers, and how a failure of the client becomes a status.

use crate::api::{SettingsResponse, SpecialRandomResponse, WikiPageRequest};
use crate::client::{Client, ClientError, WIKI_PREFIX};
use crate::text::{decode_lossy, extends, is_under, lossy_text, same_text};
use std::sync::Arc;
use vstd::prelude::*;
use vstd::string::StringExecFns;

verus! {

/// The status that stands for every failure that is not the upstream's own.
pub const INTERNAL_SERVER_ERROR: u16 = 500;

/// The selector that finds the element whose inner markup is a page's content.
pub const BODY_SELECTOR: &'static str = "body";

/// The log level that the settings route reports.
pub const LOG_LEVEL: &'static str = "info";

/// The status that answers a request after `error`: the upstream's own status
/// where the upstream gave one, and the internal-server-error status for
/// every other failure.
pub open spec fn status_of(error: ClientError) -> u16 {
    match error {
        ClientError::Reqwest(_) => INTERNAL_SERVER_ERROR,
        ClientError::StatusError(status) => status,
        ClientError::MissingLocationHeader => INTERNAL_SERVER_ERROR,
        ClientError::InvalidLocationHeader(_) => INTERNAL_SERVER_ERROR,
    }
}

/// Maps a failure of the client to the status of the response.
pub fn error_status(error: &ClientError) -> (status: u16)
    ensures
        status == status_of(*error),
{
    match error {
        ClientError::Reqwest(_) => INTERNAL_SERVER_ERROR,
        ClientError::StatusError(status) => *status,
        ClientError::MissingLocationHeader => INTERNAL_SERVER_ERROR,
        ClientError::InvalidLocationHeader(_) => INTERNAL_SERVER_ERROR,
    }
}

/// The longest document, in characters, that is parsed. The parser keeps
/// text in buffers that hold less than 4 GiB and stops the program beyond
/// that; a character takes four bytes at most, in the document and in what
/// the parser makes of it, so a document within this bound stays below.
pub const MAX_DOCUMENT_CHARS: usize = 0x1555_5555;

/// The inner markup of the first element of `document` that `selector`
/// matches, where `document` is parsed leniently as a whole HTML document:
/// what `scraper` gives for `Html::parse_document`, `Selector::parse`, the
/// first item of `Html::select`, and `ElementRef::inner_html` of it. `None`
/// where no element matches, or where `selector` is no selector at all.
pub uninterp spec fn selected_markup(document: Seq<char>, selector: Seq<char>) -> Option<
    Seq<char>,
>;

/// Parses `document` with `scraper::Html::parse_document` and `selector` with
/// `scraper::Selector::parse`, takes the first element that
/// `scraper::Html::select` yields and returns its
/// `scraper::ElementRef::inner_html`. The contract claims that the outcome is
/// the one that `selected_markup` names for the two texts. A document beyond
/// the bound is left out: the parser's text buffers panic at 4 GiB.
#[verifier::external_body]
fn select_first_inner_html(document: &str, selector: &str) -> (markup: Option<String>)
    requires
        document@.len() <= MAX_DOCUMENT_CHARS,
    ensures
        match markup {
            Some(inner) => selected_markup(document@, selector@) == Some(inner@),
            None => selected_markup(document@, selector@).is_none(),
        },
{
    let parsed = scraper::Selector::parse(selector).ok()?;
    let html = scraper::Html::parse_document(document);
    let first = html.select(&parsed).next()?;
    Some(first.inner_html())
}

/// Why a page has no content to show.
#[derive(Debug, Clone, Copy, PartialEq, Eq, Structural)]
pub enum ExtractionError {
    /// The document has no body element.
    MissingBody,
    /// The document is longer than `MAX_DOCUMENT_CHARS` and was not parsed.
    DocumentTooLong,
}

/// The content of a document: the inner markup of its first body element. A
/// document beyond the bound has none, whatever it holds.
pub open spec fn document_body(document: Seq<char>) -> Result<Seq<char>, ExtractionError> {
    if document.len() > MAX_DOCUMENT_CHARS {
        Err(ExtractionError::DocumentTooLong)
    } else {
        match selected_markup(document, BODY_SELECTOR@) {
            Some(inner) => Ok(inner),
            None => Err(ExtractionError::MissingBody),
        }
    }
}

/// The content of a fetched page: that of the document that its bytes spell.
pub open spec fn body_markup(page: Seq<u8>) -> Result<Seq<char>, ExtractionError> {
    document_body(lossy_text(page))
}

/// Gives the markup that was found, or the failure where none was.
pub fn found_body(markup: Option<String>) -> (body: Result<String, ExtractionError>)
    ensures
        match markup {
            Some(inner) => body == Ok::<String, ExtractionError>(inner),
            None => body == Err::<String, ExtractionError>(ExtractionError::MissingBody),
        },
{
    match markup {
        Some(inner) => Ok(inner),
        None => Err(ExtractionError::MissingBody),
    }
}

/// Isolates the content of a document that is at hand as text: the text is
/// parsed as an HTML document however malformed, and the inner markup of its
/// first body element comes back, the body tag itself left out. There is no
/// other content to fall back on where no body element is found. A document
/// of more than `MAX_DOCUMENT_CHARS` characters is refused unparsed.
pub fn body_of_document(document: &str) -> (body: Result<String, ExtractionError>)
    ensures
        match body {
            Ok(text) => document_body(document@) == Ok::<Seq<char>, ExtractionError>(text@),
            Err(error) => document_body(document@) == Err::<Seq<char>, ExtractionError>(error),
        },
{
    if document.unicode_len() > MAX_DOCUMENT_CHARS {
        return Err(ExtractionError::DocumentTooLong);
    }
    found_body(select_first_inner_html(document, BODY_SELECTOR))
}

/// Isolates the content of a fetched page: the bytes are read as text, bytes
/// that are no text replaced rather than refused, and the content of that
/// document comes back.
pub fn extract_body(page: &[u8]) -> (body: Result<String, ExtractionError>)
    ensures
        match body {
            Ok(text) => body_markup(page@) == Ok::<Seq<char>, ExtractionError>(text@),
            Err(error) => body_markup(page@) == Err::<Seq<char>, ExtractionError>(error),
        },
{
    let text = decode_lossy(page);
    body_of_document(text.as_str())
}

/// The fixed answer of the settings route.
pub fn settings_handler() -> (settings: SettingsResponse)
    ensures
        settings.loglevel@ == LOG_LEVEL@,
        settings.traceids@.len() == 0,
{
    SettingsResponse { loglevel: String::from_str(LOG_LEVEL), traceids: Vec::new() }
}

/// How far the random-pair route has come.
#[derive(Debug)]
pub enum RandomPair {
    /// Nothing is resolved: the first random-article request is due.
    Start,
    /// The start title is resolved: the second random-article request is due.
    Goal { start: String },
    /// The route has its answer: both titles, or the status of the failure.
    Done { reply: Result<SpecialRandomResponse, u16> },
}

/// Where the random-pair route stands after `fetched`, the outcome of the
/// request that was due in `state`.
pub open spec fn pair_step(state: RandomPair, fetched: Result<String, ClientError>) -> RandomPair {
    match state {
        RandomPair::Start => match fetched {
            Ok(start) => RandomPair::Goal { start },
            Err(error) => RandomPair::Done { reply: Err(status_of(error)) },
        },
        RandomPair::Goal { start } => match fetched {
            Ok(goal) => RandomPair::Done { reply: Ok(SpecialRandomResponse { start, goal }) },
            Err(error) => RandomPair::Done { reply: Err(status_of(error)) },
        },
        RandomPair::Done { reply } => RandomPair::Done { reply },
    }
}

/// Takes the random-pair route one request further. The two titles are
/// resolved one after the other; the first failure ends the route with that
/// failure's status and drops a title that was already resolved. Once the
/// route has its answer, nothing changes it.
pub fn special_random_handler(state: RandomPair, fetched: Result<String, ClientError>) -> (next:
    RandomPair)
    ensures
        next == pair_step(state, fetched),
{
    match state {
        RandomPair::Start => match fetched {
            Ok(start) => RandomPair::Goal { start },
            Err(error) => RandomPair::Done { reply: Err(error_status(&error)) },
        },
        RandomPair::Goal { start } => match fetched {
            Ok(goal) => RandomPair::Done { reply: Ok(SpecialRandomResponse { start, goal }) },
            Err(error) => RandomPair::Done { reply: Err(error_status(&error)) },
        },
        RandomPair::Done { reply } => RandomPair::Done { reply },
    }
}

/// The upstream path of the article that `request` asks for: `/wiki/` and the
/// subject as it was given.
pub fn wiki_page_path(request: &WikiPageRequest) -> (path: String)
    ensures
        path@ == WIKI_PREFIX@ + request.subject@,
{
    String::from_str(WIKI_PREFIX).concat(request.subject.as_str())
}

/// What the read-article route answers for `fetched`: the content of the
/// page, the status of the client's failure, or the internal-server-error
/// status for a page that has no content to show.
pub open spec fn page_reply(fetched: Result<Vec<u8>, ClientError>) -> Result<Seq<char>, u16> {
    match fetched {
        Err(error) => Err(status_of(error)),
        Ok(page) => match body_markup(page@) {
            Ok(inner) => Ok(inner),
            Err(_) => Err(INTERNAL_SERVER_ERROR),
        },
    }
}

/// Answers the read-article route from what fetching the article gave.
pub fn wiki_page_handler(fetched: Result<Vec<u8>, ClientError>) -> (reply: Result<String, u16>)
    ensures
        match reply {
            Ok(text) => page_reply(fetched) == Ok::<Seq<char>, u16>(text@),
            Err(status) => page_reply(fetched) == Err::<Seq<char>, u16>(status),
        },
{
    match fetched {
        Err(error) => Err(error_status(&error)),
        Ok(page) => match extract_body(page.as_slice()) {
            Ok(text) => Ok(text),
            Err(_) => Err(INTERNAL_SERVER_ERROR),
        },
    }
}

/// What the relay route answers for `fetched`.
pub open spec fn relayed(fetched: Result<Vec<u8>, ClientError>) -> Result<Vec<u8>, u16> {
    match fetched {
        Ok(bytes) => Ok(bytes),
        Err(error) => Err(status_of(error)),
    }
}

/// Answers the relay route from what fetching the requested path gave: the
/// upstream's bytes as they are, or the status of the client's failure.
pub fn wikipedia_file_handler(fetched: Result<Vec<u8>, ClientError>) -> (reply: Result<
    Vec<u8>,
    u16,
>)
    ensures
        reply == relayed(fetched),
{
    match fetched {
        Ok(bytes) => Ok(bytes),
        Err(error) => Err(error_status(&error)),
    }
}

/// The method of a request, as far as the routes tell methods apart.
#[derive(Debug, Clone, Copy, PartialEq, Eq, Structural)]
pub enum Method {
    Get,
    Head,
    Post,
    Other,
}

/// Where a request goes.
#[derive(Debug, Clone, Copy, PartialEq, Eq, Structural)]
pub enum Route {
    /// The fixed settings payload.
    Settings,
    /// A pair of random article titles.
    SpecialRandom,
    /// The content of one article, extracted.
    WikiPage,
    /// An upstream resource, relayed byte for byte under the request's own path.
    WikipediaFile,
    /// A file of the static-assets directory.
    StaticFile,
    /// The path is a route's, the method is not: nothing is served.
    MethodNotAllowed,
}

pub const SETTINGS_PATH: &'static str = "/api/settings";

pub const SPECIAL_RANDOM_PATH: &'static str = "/api/specialrandom";

pub const WIKI_PAGE_PATH: &'static str = "/api/wikipage";

/// The upstream namespace of scripts and styles.
pub const SCRIPT_PREFIX: &'static str = "/w/";

/// The upstream namespace of media.
pub const MEDIA_PREFIX: &'static str = "/static/";

/// A method that reads: a route that answers `Get` answers `Head` too.
pub open spec fn reads(method: Method) -> bool {
    method == Method::Get || method == Method::Head
}

/// A path of one of the two relayed upstream namespaces, with something
/// behind the namespace's prefix.
pub open spec fn is_relayed(path: Seq<char>) -> bool {
    extends(path, SCRIPT_PREFIX@) || extends(path, MEDIA_PREFIX@)
}

/// The route of a request. The three API paths are matched whole, the two
/// relayed namespaces by their prefix; every other path belongs to the static
/// assets, whatever the method. On a path of the API or of a relayed
/// namespace, a method that the route does not answer is refused.
pub open spec fn route_of(method: Method, path: Seq<char>) -> Route {
    if path == SETTINGS_PATH@ {
        if reads(method) {
            Route::Settings
        } else {
            Route::MethodNotAllowed
        }
    } else if path == SPECIAL_RANDOM_PATH@ {
        if reads(method) {
            Route::SpecialRandom
        } else {
            Route::MethodNotAllowed
        }
    } else if path == WIKI_PAGE_PATH@ {
        if method == Method::Post {
            Route::WikiPage
        } else {
            Route::MethodNotAllowed
        }
    } else if is_relayed(path) {
        if reads(method) {
            Route::WikipediaFile
        } else {
            Route::MethodNotAllowed
        }
    } else {
        Route::StaticFile
    }
}

/// `found` where the method reads, the refusal where it does not.
fn for_reading(method: Method, found: Route) -> (route: Route)
    ensures
        route == if reads(method) {
            found
        } else {
            Route::MethodNotAllowed
        },
{
    match method {
        Method::Get => found,
        Method::Head => found,
        _ => Route::MethodNotAllowed,
    }
}

/// Selects the route of a request by its path and method.
pub fn route(method: Method, path: &str) -> (route: Route)
    ensures
        route == route_of(method, path@),
{
    if same_text(path, SETTINGS_PATH) {
        for_reading(method, Route::Settings)
    } else if same_text(path, SPECIAL_RANDOM_PATH) {
        for_reading(method, Route::SpecialRandom)
    } else if same_text(path, WIKI_PAGE_PATH) {
        match method {
            Method::Post => Route::WikiPage,
            _ => Route::MethodNotAllowed,
        }
    } else if is_under(path, SCRIPT_PREFIX) || is_under(path, MEDIA_PREFIX) {
        for_reading(method, Route::WikipediaFile)
    } else {
        Route::StaticFile
    }
}

/// A `std::io::Error`: why a path could not be looked up. It is carried,
/// never read.
#[verifier::external_type_specification]
#[verifier::external_body]
pub struct ExIoError(std::io::Error);

/// The highest of the reserved ports: a server listens above it.
pub const LAST_RESERVED_PORT: u16 = 1024;

/// Why a server could not be set up.
#[derive(Debug)]
pub enum ServerError {
    /// The port is one of the reserved ones.
    InvalidPort(u16),
    /// The static-assets path could not be looked up.
    StaticPathError(std::io::Error),
    /// The static-assets path is there and is no directory.
    StaticPathNotADirectory,
}

/// A gateway that is ready to listen: its configuration has been checked.
#[derive(Debug)]
pub struct Server {
    client: Arc<Client>,
    port: u16,
    static_path: String,
}

impl Server {
    /// The port to listen on.
    pub closed spec fn listening_port(&self) -> u16 {
        self.port
    }

    /// The directory that the static assets are served from.
    pub closed spec fn assets(&self) -> Seq<char> {
        self.static_path@
    }

    /// The client that every handler shares.
    pub closed spec fn upstream(&self) -> Arc<Client> {
        self.client
    }

    /// Every server that exists listens above the reserved ports.
    #[verifier::type_invariant]
    closed spec fn port_is_free(&self) -> bool {
        self.port > LAST_RESERVED_PORT
    }

    /// Checks the configuration and sets the server up. `metadata` is what
    /// looking up `static_path` in the file system gave: whether it is a
    /// directory, or why it could not be looked up. The port is judged first:
    /// a reserved port is refused whatever the path is. Then the path: it has
    /// to be there and to be a directory.
    pub fn new(
        port: u16,
        static_path: String,
        client: Arc<Client>,
        metadata: Result<bool, std::io::Error>,
    ) -> (outcome: Result<Server, ServerError>)
        ensures
            match outcome {
                Ok(server) => {
                    &&& port > LAST_RESERVED_PORT
                    &&& metadata == Ok::<bool, std::io::Error>(true)
                    &&& server.listening_port() == port
                    &&& server.assets() == static_path@
                    &&& server.upstream() == client
                },
                Err(ServerError::InvalidPort(refused)) => port <= LAST_RESERVED_PORT && refused
                    == port,
                Err(ServerError::StaticPathError(reason)) => port > LAST_RESERVED_PORT && metadata
                    == Err::<bool, std::io::Error>(reason),
                Err(ServerError::StaticPathNotADirectory) => port > LAST_RESERVED_PORT && metadata
                    == Ok::<bool, std::io::Error>(false),
            },
    {
        if port <= LAST_RESERVED_PORT {
            return Err(ServerError::InvalidPort(port));
        }
        match metadata {
            Ok(is_dir) => {
                if !is_dir {
                    return Err(ServerError::StaticPathNotADirectory);
                }
            },
            Err(reason) => {
                return Err(ServerError::StaticPathError(reason));
            },
        }
        Ok(Server { client, port, static_path })
    }

    pub fn port(&self) -> (port: u16)
        ensures
            port == self.listening_port(),
            port > LAST_RESERVED_PORT,
    {
        proof {
            use_type_invariant(self);
        }
        self.port
    }

    pub fn static_path(&self) -> (path: &str)
        ensures
            path@ == self.assets(),
    {
        self.static_path.as_str()
    }

    pub fn client(&self) -> (client: &Arc<Client>)
        ensures
            *client == self.upstream(),
    {
        &self.client
    }
}

/// Two random-article requests that succeed with the titles `start` and
/// `goal` give the pair with `start` first and `goal` second, whether or not
/// the two titles differ.
pub proof fn lemma_pair_keeps_order(start: String, goal: String)
    ensures
        pair_step(pair_step(RandomPair::Start, Ok(start)), Ok(goal)) == (RandomPair::Done {
            reply: Ok(SpecialRandomResponse { start, goal }),
        }),
{
}

/// The random-pair route has its answer after two requests at most, and no
/// later outcome changes an answer.
pub proof fn lemma_pair_settles(
    first: Result<String, ClientError>,
    second: Result<String, ClientError>,
    later: Result<String, ClientError>,
)
    ensures
        pair_step(pair_step(RandomPair::Start, first), second) is Done,
        pair_step(pair_step(pair_step(RandomPair::Start, first), second), later) == pair_step(
            pair_step(RandomPair::Start, first),
            second,
        ),
{
}

/// A status that the upstream gave goes to the caller unchanged, and every
/// other failure of the client becomes the internal-server-error status.
pub proof fn lemma_status_mapping(error: ClientError)
    ensures
        error matches ClientError::StatusError(status) ==> status_of(error) == status,
        !(error is StatusError) ==> status_of(error) == INTERNAL_SERVER_ERROR,
{
}

/// A failure of the client is answered with the same status on every route
/// that asks the upstream: the random-pair route at either request, the
/// read-article route and the relay route.
pub proof fn lemma_failures_map_alike(error: ClientError, start: String)
    ensures
        pair_step(RandomPair::Start, Err(error)) == (RandomPair::Done {
            reply: Err(status_of(error)),
        }),
        pair_step(RandomPair::Goal { start }, Err(error)) == (RandomPair::Done {
            reply: Err(status_of(error)),
        }),
        page_reply(Err(error)) == Err::<Seq<char>, u16>(status_of(error)),
        relayed(Err(error)) == Err::<Vec<u8>, u16>(status_of(error)),
{
}

/// The relay route hands a fetched payload on byte for byte.
pub proof fn lemma_relay_keeps_bytes(bytes: Vec<u8>)
    ensures
        relayed(Ok(bytes)) == Ok::<Vec<u8>, u16>(bytes),
{
}

/// The read-article route is reached by a `Post` to its own path and by no
/// other request; a path of a relayed namespace never reaches it.
pub proof fn lemma_wiki_page_route(method: Method, path: Seq<char>)
    ensures
        route_of(method, path) == Route::WikiPage <==> (path == WIKI_PAGE_PATH@ && method
            == Method::Post),
        is_relayed(path) ==> route_of(method, path) == Route::WikipediaFile || route_of(
            method,
            path,
        ) == Route::MethodNotAllowed,
{
    reveal_strlit("/api/settings");
    reveal_strlit("/api/specialrandom");
    reveal_strlit("/api/wikipage");
    reveal_strlit("/w/");
    reveal_strlit("/static/");
    if is_relayed(path) {
        if extends(path, SCRIPT_PREFIX@) {
            assert(path[1] == SCRIPT_PREFIX@.subrange(0, 3)[1]);
            assert(path[1] == 'w');
        } else {
            assert(path[1] == MEDIA_PREFIX@.subrange(0, 8)[1]);
            assert(path[1] == 's');
        }
        assert(SETTINGS_PATH@[1] == 'a');
        assert(SPECIAL_RANDOM_PATH@[1] == 'a');
        assert(WIKI_PAGE_PATH@[1] == 'a');
    }
    assert(SETTINGS_PATH@.len() == 13);
    assert(SPECIAL_RANDOM_PATH@.len() == 18);
    assert(WIKI_PAGE_PATH@.len() == 13);
    assert(SETTINGS_PATH@[5] == 's');
    assert(WIKI_PAGE_PATH@[5] == 'w');
}

} // verus!

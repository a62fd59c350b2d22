//! The upstream client: which address to ask, and what an answer means.
//!
//! The client sends nothing itself. It names the address of each request and
//! the way the transport has to be set up, and it reads what the transport
//! brings back: a status, a `Location` header, a body, or a failure.

use crate::text::{decode_lossy, lossy_text, strip_prefix, without_prefix};
use vstd::prelude::*;
use vstd::std_specs::convert::FromSpecImpl;
use vstd::string::StringExecFns;

verus! {

/// The upstream root that a client asks when it is given no other.
pub const DEFAULT_WIKI_URL: &'static str = "https://en.wikipedia.org";

/// The identity that every request presents to the upstream.
pub const USER_AGENT: &'static str =
    "Mozilla/5.0 (X11; Linux x86_64) AppleWebKit/537.36 (KHTML, like Gecko) Chrome/108.0.0.0 Safari/537.36";

/// The upstream path that answers with a redirect to some article.
pub const RANDOM_PATH: &'static str = "/wiki/Special:Random";

/// The front of every article's path; what follows it is the article's title.
pub const WIKI_PREFIX: &'static str = "/wiki/";

/// A `reqwest::Error`: why no usable response arrived. It is carried, never read.
#[verifier::external_type_specification]
#[verifier::external_body]
pub struct ExReqwestError(reqwest::Error);

/// A `url::ParseError`: why a text is no absolute URL. It is carried, never read.
#[verifier::external_type_specification]
#[verifier::external_body]
pub struct ExParseError(url::ParseError);

/// Why a call of the client gave no payload.
#[derive(Debug)]
pub enum ClientError {
    /// The transport failed: no response, or a body that could not be read.
    Reqwest(reqwest::Error),
    /// The upstream answered with this status, which the call does not accept.
    StatusError(u16),
    /// The answer to the random-article request names no target.
    MissingLocationHeader,
    /// The target that the answer names is no absolute URL: the header's
    /// value is no text at all, or it is text and the parser gave this reason.
    InvalidLocationHeader(Option<url::ParseError>),
}

impl From<reqwest::Error> for ClientError {
    fn from(err: reqwest::Error) -> (error: ClientError) {
        ClientError::Reqwest(err)
    }
}

impl FromSpecImpl<reqwest::Error> for ClientError {
    open spec fn obeys_from_spec() -> bool {
        true
    }

    open spec fn from_spec(err: reqwest::Error) -> ClientError {
        ClientError::Reqwest(err)
    }
}

impl From<url::ParseError> for ClientError {
    fn from(err: url::ParseError) -> (error: ClientError) {
        ClientError::InvalidLocationHeader(Some(err))
    }
}

impl FromSpecImpl<url::ParseError> for ClientError {
    open spec fn obeys_from_spec() -> bool {
        true
    }

    open spec fn from_spec(err: url::ParseError) -> ClientError {
        ClientError::InvalidLocationHeader(Some(err))
    }
}

/// A status of the success class.
pub open spec fn is_success(status: u16) -> bool {
    200 <= status < 300
}

/// A status of the redirection class.
pub open spec fn is_redirection(status: u16) -> bool {
    300 <= status < 400
}

/// Whether `status` is of the success class.
pub fn status_is_success(status: u16) -> (yes: bool)
    ensures
        yes == is_success(status),
{
    200 <= status && status < 300
}

/// Whether `status` is of the redirection class.
pub fn status_is_redirection(status: u16) -> (yes: bool)
    ensures
        yes == is_redirection(status),
{
    300 <= status && status < 400
}

/// What the transport saw of the response to a page request: its status, and
/// what reading its body to the end gave.
#[derive(Debug)]
pub struct Fetched {
    pub status: u16,
    pub body: Result<Vec<u8>, reqwest::Error>,
}

/// What the transport saw of the response to the random-article request: its
/// status, and the bytes of its `Location` header's value where it has one.
#[derive(Debug)]
pub struct Redirect {
    pub status: u16,
    pub location: Option<Vec<u8>>,
}

/// A byte that may stand in a header value that is text: visible ASCII, the
/// space, or the tab.
pub open spec fn is_visible_ascii(byte: u8) -> bool {
    (32 <= byte < 127) || byte == 9
}

/// A header value that is text: every byte of it may stand in one.
pub open spec fn is_header_text(value: Seq<u8>) -> bool {
    forall|at: int| 0 <= at < value.len() ==> is_visible_ascii(#[trigger] value[at])
}

/// Whether a header value is text.
pub fn header_is_text(value: &[u8]) -> (yes: bool)
    ensures
        yes == is_header_text(value@),
{
    let mut at: usize = 0;
    while at < value.len()
        invariant
            at <= value@.len(),
            forall|seen: int| 0 <= seen < at ==> is_visible_ascii(#[trigger] value@[seen]),
        decreases value@.len() - at,
    {
        let byte: u8 = value[at];
        if !((32 <= byte && byte < 127) || byte == 9) {
            return false;
        }
        at += 1;
    }
    true
}

/// The path of the absolute URL that `text` spells, or the reason why it
/// spells none. This is what `url::Url::parse` makes of `text`, read through
/// `url::Url::path`; the URL standard's parsing rules are not restated here.
pub uninterp spec fn url_path(text: Seq<char>) -> Result<Seq<char>, url::ParseError>;

/// Calls `url::Url::parse` on `text` and, where that gives a URL, copies out
/// what `url::Url::path` returns for it. The contract claims only that the
/// outcome is the one that `url_path` names for this text.
#[verifier::external_body]
fn parse_url_path(text: &str) -> (parsed: Result<String, url::ParseError>)
    ensures
        match parsed {
            Ok(path) => url_path(text@) == Ok::<Seq<char>, url::ParseError>(path@),
            Err(reason) => url_path(text@) == Err::<Seq<char>, url::ParseError>(reason),
        },
{
    url::Url::parse(text).map(|url| url.path().to_string())
}

/// The title that an article's path names: the path without its leading
/// `/wiki/`, taken off once, or the whole path where it begins otherwise.
pub open spec fn title_of(path: Seq<char>) -> Seq<char> {
    match without_prefix(path, WIKI_PREFIX@) {
        Some(title) => title,
        None => path,
    }
}

/// The title that the path of a redirect target names.
pub fn article_title(path: &str) -> (title: String)
    ensures
        title@ == title_of(path@),
{
    match strip_prefix(path, WIKI_PREFIX) {
        Some(rest) => String::from_str(rest),
        None => String::from_str(path),
    }
}

/// What a page request comes to, given what the transport reports of it.
pub open spec fn page_outcome(sent: Result<Fetched, reqwest::Error>) -> Result<
    Vec<u8>,
    ClientError,
> {
    match sent {
        Err(failure) => Err(ClientError::Reqwest(failure)),
        Ok(fetched) => if !is_success(fetched.status) {
            Err(ClientError::StatusError(fetched.status))
        } else {
            match fetched.body {
                Ok(bytes) => Ok(bytes),
                Err(failure) => Err(ClientError::Reqwest(failure)),
            }
        },
    }
}

/// What the random-article request comes to before its target is read: the
/// error that ends it, or the bytes of the target.
pub open spec fn redirect_target(sent: Result<Redirect, reqwest::Error>) -> Result<
    Seq<u8>,
    ClientError,
> {
    match sent {
        Err(failure) => Err(ClientError::Reqwest(failure)),
        Ok(redirect) => if !is_success(redirect.status) && !is_redirection(redirect.status) {
            Err(ClientError::StatusError(redirect.status))
        } else {
            match redirect.location {
                None => Err(ClientError::MissingLocationHeader),
                Some(location) => Ok(location@),
            }
        },
    }
}

/// The title that a redirect target names: a target that is no text, or
/// whose text is no absolute URL, is an invalid location; of any other, the
/// title is what its path names.
pub open spec fn target_title(location: Seq<u8>) -> Result<Seq<char>, ClientError> {
    if !is_header_text(location) {
        Err(ClientError::InvalidLocationHeader(None))
    } else {
        match url_path(lossy_text(location)) {
            Err(reason) => Err(ClientError::InvalidLocationHeader(Some(reason))),
            Ok(path) => Ok(title_of(path)),
        }
    }
}

/// What the random-article request comes to: the title of the article that
/// the redirect points at, or the error that ends it.
pub open spec fn random_outcome(sent: Result<Redirect, reqwest::Error>) -> Result<
    Seq<char>,
    ClientError,
> {
    match redirect_target(sent) {
        Err(error) => Err(error),
        Ok(location) => target_title(location),
    }
}

/// The single point of contact with the upstream. It is fixed once made.
#[derive(Debug)]
pub struct Client {
    wiki_url: String,
    user_agent: &'static str,
    follow_redirects: bool,
}

impl Client {
    /// The upstream root that every request of this client starts with.
    pub closed spec fn base(&self) -> Seq<char> {
        self.wiki_url@
    }

    /// The identity that the transport has to present.
    pub closed spec fn agent(&self) -> Seq<char> {
        self.user_agent@
    }

    /// Whether the transport may follow a redirect by itself.
    pub closed spec fn redirects_followed(&self) -> bool {
        self.follow_redirects
    }

    /// A client for the upstream at `wiki_url`, or at the default root where
    /// none is given. Its transport presents the fixed identity and leaves
    /// every redirect unfollowed, so that the redirect itself can be read.
    pub fn new(wiki_url: Option<&str>) -> (client: Client)
        ensures
            client.base() == match wiki_url {
                Some(url) => url@,
                None => DEFAULT_WIKI_URL@,
            },
            client.agent() == USER_AGENT@,
            !client.redirects_followed(),
    {
        let root = match wiki_url {
            Some(url) => url,
            None => DEFAULT_WIKI_URL,
        };
        Client { wiki_url: String::from_str(root), user_agent: USER_AGENT, follow_redirects: false }
    }

    pub fn wiki_url(&self) -> (url: &str)
        ensures
            url@ == self.base(),
    {
        self.wiki_url.as_str()
    }

    pub fn user_agent(&self) -> (agent: &'static str)
        ensures
            agent@ == self.agent(),
    {
        self.user_agent
    }

    pub fn follows_redirects(&self) -> (yes: bool)
        ensures
            yes == self.redirects_followed(),
    {
        self.follow_redirects
    }

    /// The address to ask for `path`: the root with the path behind it,
    /// neither of them changed.
    pub fn get_url(&self, path: &str) -> (url: String)
        ensures
            url@ == self.base() + path@,
    {
        String::from_str(self.wiki_url.as_str()).concat(path)
    }

    /// The address of the random-article request.
    pub fn random_url(&self) -> (url: String)
        ensures
            url@ == self.base() + RANDOM_PATH@,
    {
        self.get_url(RANDOM_PATH)
    }

    /// Judges the status of the response to a page request before its body
    /// is read: a status of the success class lets the body be read, any
    /// other ends the request with the status error, as `get` does whatever
    /// the body.
    pub fn accept_status(status: u16) -> (outcome: Result<(), ClientError>)
        ensures
            match outcome {
                Ok(_) => is_success(status),
                Err(error) => !is_success(status) && error == ClientError::StatusError(status),
            },
    {
        if status_is_success(status) {
            Ok(())
        } else {
            Err(ClientError::StatusError(status))
        }
    }

    /// Reads the outcome of a page request. A transport failure, before or
    /// while the body is read, is handed on; a status outside the success
    /// class is an error that carries that status, whatever the body; on
    /// success the body comes back as it is.
    pub fn get(sent: Result<Fetched, reqwest::Error>) -> (outcome: Result<Vec<u8>, ClientError>)
        ensures
            outcome == page_outcome(sent),
    {
        match sent {
            Err(failure) => Err(ClientError::Reqwest(failure)),
            Ok(fetched) => {
                if !status_is_success(fetched.status) {
                    return Err(ClientError::StatusError(fetched.status));
                }
                match fetched.body {
                    Ok(bytes) => Ok(bytes),
                    Err(failure) => Err(ClientError::Reqwest(failure)),
                }
            },
        }
    }

    /// Reads the outcome of the random-article request. A status of the
    /// success or the redirection class is accepted; the `Location` header is
    /// then looked for whatever the status. Its value has to be text and to
    /// spell an absolute URL: where it does, the title is the URL's path
    /// without the leading `/wiki/`; where it does not, the location is
    /// invalid, and the call says so without reading further.
    pub fn get_random(sent: Result<Redirect, reqwest::Error>) -> (outcome: Result<
        String,
        ClientError,
    >)
        ensures
            match outcome {
                Ok(title) => random_outcome(sent) == Ok::<Seq<char>, ClientError>(title@),
                Err(error) => random_outcome(sent) == Err::<Seq<char>, ClientError>(error),
            },
    {
        match sent {
            Err(failure) => Err(ClientError::Reqwest(failure)),
            Ok(redirect) => {
                if !status_is_success(redirect.status) && !status_is_redirection(redirect.status) {
                    return Err(ClientError::StatusError(redirect.status));
                }
                match redirect.location {
                    None => Err(ClientError::MissingLocationHeader),
                    Some(location) => {
                        if !header_is_text(location.as_slice()) {
                            return Err(ClientError::InvalidLocationHeader(None));
                        }
                        let text = decode_lossy(location.as_slice());
                        Self::title_of_location(parse_url_path(text.as_str()))
                    },
                }
            },
        }
    }

    /// Turns what parsing the redirect target gave into the call's outcome:
    /// the title that the target's path names, or the invalid-location error
    /// with the parser's reason.
    pub fn title_of_location(parsed: Result<String, url::ParseError>) -> (outcome: Result<
        String,
        ClientError,
    >)
        ensures
            match parsed {
                Ok(path) => outcome matches Ok(title) && title@ == title_of(path@),
                Err(reason) => outcome == Err::<String, ClientError>(
                    ClientError::InvalidLocationHeader(Some(reason)),
                ),
            },
    {
        match parsed {
            Ok(path) => Ok(article_title(path.as_str())),
            Err(reason) => Err(ClientError::InvalidLocationHeader(Some(reason))),
        }
    }
}

/// A page request that the upstream answers with a status of the success
/// class gives back exactly the body that was read, whatever the body is.
pub proof fn lemma_success_gives_body(status: u16, body: Vec<u8>)
    requires
        is_success(status),
    ensures
        page_outcome(Ok(Fetched { status, body: Ok(body) })) == Ok::<Vec<u8>, ClientError>(body),
{
}

/// A page request that the upstream answers with a status outside the success
/// class gives the status error with exactly that status, whatever came of
/// the body.
pub proof fn lemma_other_status_is_the_error(status: u16, body: Result<Vec<u8>, reqwest::Error>)
    requires
        !is_success(status),
    ensures
        page_outcome(Ok(Fetched { status, body })) == Err::<Vec<u8>, ClientError>(
            ClientError::StatusError(status),
        ),
{
}

/// A path made of `/wiki/` and a title names exactly that title.
pub proof fn lemma_title_of_article_path(title: Seq<char>)
    ensures
        title_of(WIKI_PREFIX@ + title) == title,
{
    let path = WIKI_PREFIX@ + title;
    assert(path.subrange(0, WIKI_PREFIX@.len() as int) =~= WIKI_PREFIX@);
    assert(path.skip(WIKI_PREFIX@.len() as int) =~= title);
}

/// A random-article request answered with a redirect whose target is text
/// and has the path `/wiki/` and then a title gives exactly that title.
pub proof fn lemma_redirect_gives_title(status: u16, location: Vec<u8>, title: Seq<char>)
    requires
        is_redirection(status),
        is_header_text(location@),
    ensures
        url_path(lossy_text(location@)) == Ok::<Seq<char>, url::ParseError>(WIKI_PREFIX@ + title)
            ==> random_outcome(Ok(Redirect { status, location: Some(location) })) == Ok::<
            Seq<char>,
            ClientError,
        >(title),
{
    lemma_title_of_article_path(title);
}

/// A random-article request whose answer has an accepted status and a
/// `Location` header that holds a byte which is no visible ASCII gives the
/// invalid-location error, whatever else the header holds.
pub proof fn lemma_location_that_is_no_text_is_invalid(status: u16, location: Vec<u8>, at: int)
    requires
        is_success(status) || is_redirection(status),
        0 <= at < location@.len(),
        !is_visible_ascii(location@[at]),
    ensures
        random_outcome(Ok(Redirect { status, location: Some(location) })) == Err::<
            Seq<char>,
            ClientError,
        >(ClientError::InvalidLocationHeader(None)),
{
}

/// A random-article request whose answer has an accepted status and no
/// `Location` header gives the missing-location error.
pub proof fn lemma_no_location_is_the_error(status: u16)
    requires
        is_success(status) || is_redirection(status),
    ensures
        random_outcome(Ok(Redirect { status, location: None })) == Err::<Seq<char>, ClientError>(
            ClientError::MissingLocationHeader,
        ),
{
}

/// Every outcome of a call is a payload or exactly one error: a transport
/// failure that is handed in comes back as the transport error, for both
/// calls.
pub proof fn lemma_transport_failure_is_handed_on(failure: reqwest::Error)
    ensures
        page_outcome(Err(failure)) == Err::<Vec<u8>, ClientError>(ClientError::Reqwest(failure)),
        random_outcome(Err(failure)) == Err::<Seq<char>, ClientError>(
            ClientError::Reqwest(failure),
        ),
{
}

} // verus!

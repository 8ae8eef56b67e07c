//! Following a link through its redirects: each request is answered by a
//! hop, and the traversal ends at the first answer that is no redirect.
use vstd::prelude::*;

verus! {

/// The address of the host that answered a request.
#[derive(Clone, Copy, Debug)]
pub enum IpAddress {
    V4([u8; 4]),
    V6([u8; 16]),
}

/// One answered request of a traversal.
#[derive(Debug)]
pub struct Hop {
    /// The HTTP status of the answer.
    pub status: u16,
    /// The URL that answered.
    pub url: String,
    pub ip: IpAddress,
}

/// A finished traversal.
#[derive(Debug)]
pub struct Traversal {
    pub end_status: u16,
    pub hops: Vec<Hop>,
    pub source_url: String,
    pub destination_url: String,
    pub destination_ip: IpAddress,
}

/// Whether an HTTP status asks the client to go elsewhere (300 to 399), as
/// `http::StatusCode::is_redirection` answers.
pub open spec fn is_redirection(status: u16) -> bool {
    300 <= status && status < 400
}

/// Whether an HTTP status is a redirection.
pub fn status_is_redirection(status: u16) -> (r: bool)
    ensures
        r == is_redirection(status),
{
    300 <= status && status < 400
}

/// The URL that `reqwest::Url::parse` makes of `input`, in the form that
/// `Url::as_str` writes; `None` when it refuses the input.
pub uninterp spec fn url_serialization(input: Seq<char>) -> Option<Seq<char>>;

/// Parses a URL with `reqwest::Url::parse` (the `url` crate's parser) and
/// hands back its serialization. Which inputs parse, and to what, is left
/// to the name `url_serialization`.
#[verifier::external_body]
fn parse_url(input: &str) -> (r: Option<String>)
    ensures
        match r {
            Some(u) => url_serialization(input@) == Some(u@),
            None => url_serialization(input@) is None,
        },
{
    match reqwest::Url::parse(input) {
        Ok(url) => Some(url.as_str().to_string()),
        Err(_) => None,
    }
}

/// The `Location` header of an answer.
#[derive(Debug)]
pub enum LocationHeader {
    Missing,
    /// Present, but not readable as text.
    Unreadable,
    Value(String),
}

/// What the traversal reads of an answer.
#[derive(Debug)]
pub struct HopReport {
    pub status: u16,
    pub url: String,
    /// The address of the host that answered, when it is known.
    pub ip: Option<IpAddress>,
    pub location: LocationHeader,
}

/// Why a traversal stopped short.
#[derive(Clone, Copy, Debug, PartialEq, Eq, Structural)]
pub enum TraversalError {
    /// The link to follow is not a URL.
    InvalidOrigin,
    /// An answer came without the address of its host.
    NoRemoteAddress,
    /// A redirect's `Location` header is not readable as text.
    UnreadableLocation,
    /// A redirect came without a `Location` header.
    NoLocationHeader,
    /// A redirect's `Location` header is not a URL.
    InvalidRedirect,
}

/// A traversal under way: the link it started from and the redirects
/// followed so far.
#[derive(Debug)]
pub struct TraversalState {
    source_url: String,
    hops: Vec<Hop>,
}

impl TraversalState {
    /// Every hop followed so far is a redirection.
    #[verifier::type_invariant]
    spec fn only_redirects(self) -> bool {
        all_redirects(self.hops@)
    }

    /// The link the traversal started from.
    pub closed spec fn source(&self) -> String {
        self.source_url
    }

    /// The redirects followed so far.
    pub closed spec fn followed(&self) -> Seq<Hop> {
        self.hops@
    }
}

/// Every hop is a redirection.
pub open spec fn all_redirects(hops: Seq<Hop>) -> bool {
    forall|i: int| 0 <= i < hops.len() ==> is_redirection(#[trigger] hops[i].status)
}

/// A hop records an answer whose host had the address `ip`.
pub open spec fn records(hop: Hop, report: HopReport, ip: IpAddress) -> bool {
    hop.status == report.status && hop.url == report.url && hop.ip == ip
}

/// Every hop but possibly the last is a redirection.
pub open spec fn redirects_before_end(hops: Seq<Hop>) -> bool {
    forall|i: int| 0 <= i < hops.len() - 1 ==> is_redirection(#[trigger] hops[i].status)
}

/// What a traversal does after an answer.
#[derive(Debug)]
pub enum Step {
    /// Request `next` and carry on with `state`.
    Follow(TraversalState, String),
    Finished(Traversal),
    Failed(TraversalError),
}

/// Starts a traversal of the link `origin`; hands back the state and the
/// URL to request first.
pub fn start_traversal(origin: &str) -> (r: Result<(TraversalState, String), TraversalError>)
    ensures
        match url_serialization(origin@) {
            None => r == Err::<(TraversalState, String), TraversalError>(
                TraversalError::InvalidOrigin,
            ),
            Some(u) => r matches Ok((state, first)) && state.source()@ == u && first@ == u
                && state.followed().len() == 0,
        },
{
    match parse_url(origin) {
        None => Err(TraversalError::InvalidOrigin),
        Some(u) => {
            let first = u.clone();
            Ok((TraversalState { source_url: u, hops: Vec::new() }, first))
        },
    }
}

impl TraversalState {
    /// Takes the answer to the latest request into account.
    pub fn step(self, report: HopReport) -> (s: Step)
        ensures
            match report.ip {
                None => s == Step::Failed(TraversalError::NoRemoteAddress),
                Some(ip) => {
                    if !is_redirection(report.status) {
                        s matches Step::Finished(t) && {
                            &&& t.end_status == report.status
                            &&& t.hops@.len() == self.followed().len() + 1
                            &&& t.hops@.drop_last() == self.followed()
                            &&& records(t.hops@.last(), report, ip)
                            &&& redirects_before_end(t.hops@)
                            &&& !is_redirection(t.hops@.last().status)
                            &&& t.destination_url == t.hops@.last().url
                            &&& t.destination_ip == t.hops@.last().ip
                            &&& t.source_url == self.source()
                            &&& t.destination_url == report.url
                            &&& t.destination_ip == ip
                        }
                    } else {
                        match report.location {
                            LocationHeader::Missing => s == Step::Failed(
                                TraversalError::NoLocationHeader,
                            ),
                            LocationHeader::Unreadable => s == Step::Failed(
                                TraversalError::UnreadableLocation,
                            ),
                            LocationHeader::Value(v) => match url_serialization(v@) {
                                None => s == Step::Failed(TraversalError::InvalidRedirect),
                                Some(u) => s matches Step::Follow(next_state, next) && {
                                    &&& next@ == u
                                    &&& next_state.source() == self.source()
                                    &&& next_state.followed().len() == self.followed().len() + 1
                                    &&& next_state.followed().drop_last() == self.followed()
                                    &&& records(next_state.followed().last(), report, ip)
                                },
                            },
                        }
                    }
                },
            },
    {
        proof { use_type_invariant(&self); }
        let ip = match report.ip {
            None => {
                return Step::Failed(TraversalError::NoRemoteAddress);
            },
            Some(ip) => ip,
        };
        let status = report.status;
        let url = report.url;
        let mut hops = self.hops;
        let ghost before = hops@;
        hops.push(Hop { status, url: url.clone(), ip });
        assert(hops@.drop_last() =~= before);
        if !status_is_redirection(status) {
            return Step::Finished(
                Traversal {
                    end_status: status,
                    hops,
                    source_url: self.source_url,
                    destination_url: url,
                    destination_ip: ip,
                },
            );
        }
        match report.location {
            LocationHeader::Missing => Step::Failed(TraversalError::NoLocationHeader),
            LocationHeader::Unreadable => Step::Failed(TraversalError::UnreadableLocation),
            LocationHeader::Value(v) => match parse_url(v.as_str()) {
                None => Step::Failed(TraversalError::InvalidRedirect),
                Some(next) => Step::Follow(TraversalState { source_url: self.source_url, hops }, next),
            },
        }
    }
}

} // verus!

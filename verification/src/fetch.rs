//! The per-dependency download state machine and the all-or-nothing
//! aggregation of a batch of download results.
//!
//! The pipeline retrieves every dependency concurrently; network I/O itself
//! lives with the caller. The caller issues one GET per [`FetchState`], feeds
//! the observed response back through [`FetchState::step`], and repeats while
//! the machine says to continue. The decisions — when to follow a redirect,
//! when the redirect budget is spent, which statuses fail — are all here.

use vstd::prelude::*;

use crate::errors::DownloadCause;
use crate::errors::Error;
use crate::manifest::Dependency;
use crate::manifest::url_spec;

verus! {

/// How many redirect hops one download may follow before it fails.
pub const REDIRECT_BUDGET: u8 = 5;

/// One in-flight download: the URL to request next and how many further
/// redirects may still be followed.
pub struct FetchState {
    pub url: String,
    pub redirects_left: u8,
}

/// What the transport observed for one GET: a response with its status code,
/// its `Location` header if any, and its body bytes; or a transport-level
/// failure (connection error, timeout), carrying the transport's description
/// of the underlying cause.
pub enum FetchEvent {
    Response { status: u16, location: Option<String>, body: Vec<u8> },
    TransportFailure(String),
}

/// What one event means for the download: the payload is complete, or the given
/// state's URL should be requested next, or the download has failed.
pub enum FetchStep {
    Fetched(Vec<u8>),
    Continue(FetchState),
    Failed(DownloadCause),
}

impl FetchState {
    /// The initial state for one dependency: its registry URL, with the full
    /// redirect budget.
    pub fn start(dep: &Dependency) -> (s: FetchState)
        ensures
            s.url@ == url_spec(dep.name@, dep.version@),
            s.redirects_left == REDIRECT_BUDGET,
    {
        FetchState { url: dep.url(), redirects_left: REDIRECT_BUDGET }
    }

    /// Decides what one observed response means for this download.
    ///
    /// A success status yields the body as the payload. A redirect status
    /// with a `Location` header continues at that URL while budget remains,
    /// and exhausts the download once the budget is spent; a redirect
    /// without a `Location` header fails. Every other status fails with that
    /// status code, and a transport failure fails carrying the transport's
    /// description of the underlying cause.
    pub fn step(self, event: FetchEvent) -> (r: FetchStep)
        ensures
            event matches FetchEvent::TransportFailure(m) ==> (r matches FetchStep::Failed(c)
                && c matches DownloadCause::Transport(m2) && m2@ == m@),
            event matches FetchEvent::Response { status, location, body } ==> {
                if status == 200 {
                    r matches FetchStep::Fetched(b) && b@ == body@
                } else if status != 302 {
                    r matches FetchStep::Failed(c) && c matches DownloadCause::Status(s) && s
                        == status
                } else if location is None {
                    r matches FetchStep::Failed(c) && c is MissingLocation
                } else if self.redirects_left == 0 {
                    r matches FetchStep::Failed(c) && c is TooManyRedirects
                } else {
                    &&& r matches FetchStep::Continue(next)
                    &&& next.url@ == location->0@
                    &&& next.redirects_left == self.redirects_left - 1
                }
            },
    {
        match event {
            FetchEvent::TransportFailure(m) => FetchStep::Failed(DownloadCause::Transport(m)),
            FetchEvent::Response { status, location, body } => {
                if status == 200 {
                    FetchStep::Fetched(body)
                } else if status != 302 {
                    FetchStep::Failed(DownloadCause::Status(status))
                } else {
                    match location {
                        None => FetchStep::Failed(DownloadCause::MissingLocation),
                        Some(next_url) => {
                            if self.redirects_left == 0 {
                                FetchStep::Failed(DownloadCause::TooManyRedirects)
                            } else {
                                FetchStep::Continue(
                                    FetchState {
                                        url: next_url,
                                        redirects_left: self.redirects_left - 1,
                                    },
                                )
                            }
                        },
                    }
                }
            },
        }
    }
}

/// One successfully downloaded package: the dependency it belongs to and the
/// raw archive bytes.
pub struct DownloadedDependency {
    pub dependency: Dependency,
    pub bytes: Vec<u8>,
}

/// The batch outcome `r` carries the first failure of `results`: some entry
/// failed with exactly that error and every entry before it succeeded.
pub open spec fn is_first_failure(
    results: Seq<Result<DownloadedDependency, Error>>,
    e: Error,
) -> bool {
    exists|i: int|
        #![trigger results[i]]
        {
            &&& 0 <= i < results.len()
            &&& results[i] matches Err(e2) && e == e2
            &&& forall|j: int| 0 <= j < i ==> #[trigger] results[j] is Ok
        }
}

/// Joins the per-dependency download results into the batch outcome:
/// every payload, or the first failure.
///
/// The dependency set is all-or-nothing: if any download failed, the whole
/// batch fails with the error of the earliest failed entry, and none of the
/// sibling payloads survive. Only when every download succeeded does the
/// batch yield the payloads, one per dependency, in order.
pub fn collect_downloads(results: Vec<Result<DownloadedDependency, Error>>) -> (r: Result<
    Vec<DownloadedDependency>,
    Error,
>)
    ensures
        r is Ok <==> (forall|i: int| 0 <= i < results@.len() ==> #[trigger] results@[i] is Ok),
        r matches Ok(v) ==> v@.len() == results@.len() && forall|i: int|
            0 <= i < results@.len() ==> (#[trigger] results@[i] matches Ok(d) && v@[i] == d),
        r matches Err(e) ==> is_first_failure(results@, e),
{
    let mut out: Vec<DownloadedDependency> = Vec::new();
    let mut rest = results;
    let n = rest.len();
    let mut i: usize = 0;
    while i < n
        invariant
            n == results@.len(),
            0 <= i <= n,
            rest@ == results@.skip(i as int),
            out@.len() == i,
            forall|k: int|
                0 <= k < i ==> (#[trigger] results@[k] matches Ok(d) && out@[k] == d),
        decreases n - i,
    {
        proof {
            assert(rest@[0] == results@[i as int]);
        }
        let ghost prev = out@;
        match rest.remove(0) {
            Ok(d) => {
                out.push(d);
            },
            Err(e) => {
                proof {
                    assert(results@[i as int] matches Err(e2) && e == e2);
                }
                return Err(e);
            },
        }
        proof {
            assert forall|k: int|
                0 <= k < i + 1 implies (#[trigger] results@[k] matches Ok(d) && out@[k] == d) by {
                if k < i {
                    assert(out@[k] == prev[k]);
                }
            }
            assert(rest@ =~= results@.skip(i + 1));
        }
        i = i + 1;
    }
    Ok(out)
}

} // verus!

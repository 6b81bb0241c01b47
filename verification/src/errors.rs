//! Error taxonomy of the library: lifecycle misuse, malformed host input,
//! API response mismatch, and translation failures.
use vstd::prelude::*;
use crate::proxy::ResponseTag;
use crate::chain::NodeKind;

verus! {

/// Every failure the verified core can report.
///
/// Lifecycle errors (`AlreadyStarted`, `AlreadyTerminated`, `NotInitialized`)
/// are usage errors surfaced immediately and never retried. `InvalidId` is a
/// malformed decimal identifier from the host. `UnexpectedResponseType` is a
/// tagged-response mismatch in the API proxy. `UnsupportedSegment`,
/// `MissingImageUrl` and `MissingSenderId` are translation failures.
#[derive(Clone, Copy, Debug, PartialEq, Eq, Structural)]
pub enum BotError {
    /// A second `start` on the same session.
    AlreadyStarted,
    /// A second `terminate` on the same session.
    AlreadyTerminated,
    /// `get_client` before `start` has set the connection handle.
    NotInitialized,
    /// An id string that is not a decimal 64-bit signed integer.
    InvalidId,
    /// A connection target that is not `host:port` with a valid host.
    BadAddress,
    /// The remote answered a call with the wrong response tag.
    UnexpectedResponseType { expected: ResponseTag, actual: ResponseTag },
    /// An outbound chain node that has no wire representation.
    UnsupportedSegment { variant: NodeKind },
    /// An inbound image segment without its required URL.
    MissingImageUrl,
    /// A group message whose sender carries no user id.
    MissingSenderId,
    /// Image bytes that could not be decoded.
    Undecodable,
}

} // verus!

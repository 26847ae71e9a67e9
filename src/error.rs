use vstd::prelude::*;

verus! {

/// Every failure that the pool or the responder can report.
#[derive(Debug, Clone, Copy, PartialEq, Eq, Structural)]
pub enum DnsError {
    /// The CIDR string is not a valid IPv4 network.
    InvalidNetwork,
    /// The network holds fewer than three addresses, or too many to count in 32 bits.
    RangeTooSmall,
    /// The request bytes are not a decodable DNS message.
    MalformedRequest,
    /// The request decoded but asks no question.
    NoQuestion,
    /// The response could not be put into wire format.
    EncodeError,
}

} // verus!

//! Errors of the roles logic that sits above the binary (V2) protocol:
//! what can go wrong between channel management and the binary codec.

use vstd::prelude::*;
use vstd::string::StringExecFns;
use binary_sv2::Error as BinarySv2Error;
use crate::utils::{spec_dec, u64_to_dec};

verus! {

/// The binary codec's error type, carried through opaquely.
#[verifier::external_type_specification]
#[verifier::external_body]
pub struct ExBinarySv2Error(BinarySv2Error);

/// Relies on the `Debug` rendering of `binary_sv2::Error`, for diagnostics
/// only; nothing further is assumed of the text.
#[verifier::external_body]
fn binary_error_text(e: &BinarySv2Error) -> String {
    format!("{:?}", e)
}

/// What can go wrong in the roles logic.
pub enum Error {
    /// A value was expected to be 32 bytes long.
    ExpectedLen32(usize),
    /// The binary codec failed to encode or decode.
    BinarySv2Error(BinarySv2Error),
    /// A channel was attempted on an upstream with no groups.
    NoGroupsFound,
    /// A frame carried a message type nobody handles.
    WrongMessageType(u8),
    /// A message arrived that the current state does not expect.
    UnexpectedMessage,
    /// No upstream pairs with the downstream's (min, max, flags) terms.
    NoPairableUpstream((u16, u16, u32)),
    /// The job dispatcher holds no future jobs.
    NoFutureJobs,
    /// No downstream is connected.
    NoDownstreamsConnected,
    /// A previous-hash update names a job nobody tracks.
    PrevHashRequireNonExistentJobId(u32),
    /// A request id is not in the mapping.
    RequestIdNotMapped(u32),
    /// No upstream is connected.
    NoUpstreamsConnected,
    /// An answer carries a request id nobody asked with.
    UnknownRequestId(u32),
}

impl From<BinarySv2Error> for Error {
    fn from(v: BinarySv2Error) -> (r: Error) {
        Error::BinarySv2Error(v)
    }
}

impl vstd::std_specs::convert::FromSpecImpl<BinarySv2Error> for Error {
    open spec fn obeys_from_spec() -> bool {
        true
    }

    open spec fn from_spec(v: BinarySv2Error) -> Error {
        Error::BinarySv2Error(v)
    }
}

/// The diagnostic line an error renders to; the codec error's own text is
/// left open.
pub open spec fn spec_message(e: Error) -> Seq<char> {
    match e {
        Error::ExpectedLen32(l) => "Expected length of 32, but received length of "@ + spec_dec(
            l as int,
        ),
        Error::BinarySv2Error(_) => Seq::empty(),
        Error::NoGroupsFound => "A channel was attempted to be added to an Upstream, but no groups are specified"@,
        Error::WrongMessageType(m) => "Wrong message type: "@ + spec_dec(m as int),
        Error::UnexpectedMessage => "Error: Unexpected message received"@,
        Error::NoPairableUpstream(a) => "No pairable upstream node: ("@ + spec_dec(a.0 as int)
            + ", "@ + spec_dec(a.1 as int) + ", "@ + spec_dec(a.2 as int) + ")"@,
        Error::NoFutureJobs => "GroupChannelJobDispatcher does not have any future jobs"@,
        Error::NoDownstreamsConnected => "NoDownstreamsConnected"@,
        Error::PrevHashRequireNonExistentJobId(id) => "PrevHashRequireNonExistentJobId "@
            + spec_dec(id as int),
        Error::RequestIdNotMapped(id) => "RequestIdNotMapped "@ + spec_dec(id as int),
        Error::NoUpstreamsConnected => "There are no upstream connected"@,
        Error::UnknownRequestId(id) => "Upstream is answering with a wrong request ID "@ + spec_dec(
            id as int,
        )
            + " or DownstreamMiningSelector::on_open_standard_channel_request has not been called before relaying open channel request to upstream"@,
    }
}

impl Error {
    /// Render the error as one diagnostic line. For the codec error the
    /// text ends with whatever the codec reports of itself.
    pub fn message(&self) -> (r: String)
        ensures
            !(*self is BinarySv2Error) ==> r@ == spec_message(*self),
    {
        match self {
            Error::ExpectedLen32(l) => {
                let mut s = String::from_str("Expected length of 32, but received length of ");
                s.append(u64_to_dec(*l as u64).as_str());
                s
            },
            Error::BinarySv2Error(v) => {
                let mut s = String::from_str(
                    "BinarySv2Error: error in serializing/deserilizing binary format ",
                );
                s.append(binary_error_text(v).as_str());
                s
            },
            Error::NoGroupsFound => String::from_str(
                "A channel was attempted to be added to an Upstream, but no groups are specified",
            ),
            Error::WrongMessageType(m) => {
                let mut s = String::from_str("Wrong message type: ");
                s.append(u64_to_dec(*m as u64).as_str());
                s
            },
            Error::UnexpectedMessage => String::from_str("Error: Unexpected message received"),
            Error::NoPairableUpstream(a) => {
                let mut s = String::from_str("No pairable upstream node: (");
                s.append(u64_to_dec(a.0 as u64).as_str());
                s.append(", ");
                s.append(u64_to_dec(a.1 as u64).as_str());
                s.append(", ");
                s.append(u64_to_dec(a.2 as u64).as_str());
                s.append(")");
                s
            },
            Error::NoFutureJobs => String::from_str(
                "GroupChannelJobDispatcher does not have any future jobs",
            ),
            Error::NoDownstreamsConnected => String::from_str("NoDownstreamsConnected"),
            Error::PrevHashRequireNonExistentJobId(id) => {
                let mut s = String::from_str("PrevHashRequireNonExistentJobId ");
                s.append(u64_to_dec(*id as u64).as_str());
                s
            },
            Error::RequestIdNotMapped(id) => {
                let mut s = String::from_str("RequestIdNotMapped ");
                s.append(u64_to_dec(*id as u64).as_str());
                s
            },
            Error::NoUpstreamsConnected => String::from_str("There are no upstream connected"),
            Error::UnknownRequestId(id) => {
                let mut s = String::from_str("Upstream is answering with a wrong request ID ");
                s.append(u64_to_dec(*id as u64).as_str());
                s.append(
                    " or DownstreamMiningSelector::on_open_standard_channel_request has not been called before relaying open channel request to upstream",
                );
                s
            },
        }
    }
}

} // verus!

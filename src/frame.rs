//! The frames that the transport hands over, and the notifications that
//! service-method frames decode into.

use steam_vent_proto::MsgKind;
use vstd::prelude::*;

verus! {

#[verifier::external_type_specification]
pub struct ExMsgKind(MsgKind);

/// Relies on steam-vent-proto's derived `Clone` for `MsgKind`, a `Copy` type
/// of one `i32` field: the clone equals the value it was made from.
pub assume_specification[ <MsgKind as Clone>::clone ](k: &MsgKind) -> (r: MsgKind)
    ensures
        r == *k,
;

/// The kind code of a generic service-method frame.
pub open spec fn service_method_code() -> i32 {
    146
}

/// Relies on `MsgKind`'s `PartialEq<EMsg>` from steam-vent-proto: it compares the
/// kind's code with `EMsg::k_EMsgServiceMethod`'s enum value, which the
/// generated enum gives as 146.
#[verifier::external_body]
pub(crate) fn is_service_method(kind: MsgKind) -> (r: bool)
    ensures
        r == (kind.0 == service_method_code()),
{
    kind == steam_vent_proto::enums_clientserver::EMsg::k_EMsgServiceMethod
}

/// A correlation identifier that links a reply to the request that caused it.
#[derive(Clone, Copy, Debug, PartialEq, Eq, Hash)]
pub struct JobId(pub u64);

impl JobId {
    /// The identifier that correlates to no request.
    pub fn none() -> (r: JobId)
        ensures
            r.0 == u64::MAX,
    {
        JobId(u64::MAX)
    }

    pub fn is_none(&self) -> (r: bool)
        ensures
            r == (self.0 == u64::MAX),
    {
        self.0 == u64::MAX
    }
}

/// One decoded protocol frame: its correlation id, its kind and its raw payload.
#[derive(Clone, Debug)]
pub struct Frame {
    pub job_id: JobId,
    pub kind: MsgKind,
    pub payload: Vec<u8>,
}

/// A service-method frame decoded into its event name and method data.
#[derive(Clone, Debug)]
pub struct Notification {
    pub job_name: String,
    pub data: Vec<u8>,
}

} // verus!

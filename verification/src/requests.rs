//! The domain requests the API accepts, their binary field layout, and
//! the endpoint table: each request type names its endpoint and says
//! whether its response arrives wrapped in the authenticated envelope.

use vstd::prelude::*;
use vstd::utf8::encode_utf8;
use crate::codec::b64_encode_of;
use crate::codec::encode_payload;
use crate::wire::push_varint;
use crate::wire::varint;

verus! {

/// Client version the fixed install identity reports.
pub const CLIENT_VERSION: u32 = 64;

/// Client version the periodicals request asks to be measured against.
pub const CURRENT_CLIENT_VERSION: u32 = 999;

/// Wire rendering of a field tag.
pub open spec fn field_tag(field: int, wire: int) -> Seq<u8> {
    varint(field * 8 + wire)
}

/// A varint-valued field.
pub open spec fn varint_field(field: int, value: int) -> Seq<u8> {
    field_tag(field, 0) + varint(value)
}

/// A length-delimited field.
pub open spec fn len_field(field: int, payload: Seq<u8>) -> Seq<u8> {
    field_tag(field, 2) + varint(payload.len() as int) + payload
}

/// A string field: its UTF-8 bytes, length-delimited.
pub open spec fn string_field(field: int, s: Seq<char>) -> Seq<u8> {
    len_field(field, encode_utf8(s))
}

fn push_bytes(out: &mut Vec<u8>, b: &[u8])
    ensures
        final(out)@ == old(out)@ + b@,
{
    let mut i: usize = 0;
    proof {
        assert(out@ =~= out@ + b@.take(0int));
    }
    while i < b.len()
        invariant
            i <= b@.len(),
            out@ == old(out)@ + b@.take(i as int),
        decreases b@.len() - i,
    {
        out.push(b[i]);
        proof {
            assert(out@ =~= old(out)@ + b@.take(i as int + 1));
        }
        i = i + 1;
    }
    proof {
        assert(b@.take(b@.len() as int) =~= b@);
    }
}

fn push_varint_field(out: &mut Vec<u8>, field: u32, value: u32)
    ensures
        final(out)@ == old(out)@ + varint_field(field as int, value as int),
{
    push_varint(out, (field as u64) * 8);
    push_varint(out, value as u64);
    proof {
        assert(out@ =~= old(out)@ + varint_field(field as int, value as int));
    }
}

fn push_string_field(out: &mut Vec<u8>, field: u32, s: &str)
    ensures
        final(out)@ == old(out)@ + string_field(field as int, s@),
{
    push_varint(out, (field as u64) * 8 + 2);
    let b = s.as_bytes();
    push_varint(out, b.len() as u64);
    push_bytes(out, b);
    proof {
        assert(out@ =~= old(out)@ + string_field(field as int, s@));
    }
}

fn push_message_field(out: &mut Vec<u8>, field: u32, payload: &Vec<u8>)
    ensures
        final(out)@ == old(out)@ + len_field(field as int, payload@),
{
    push_varint(out, (field as u64) * 8 + 2);
    push_varint(out, payload.len() as u64);
    push_bytes(out, payload.as_slice());
    proof {
        assert(out@ =~= old(out)@ + len_field(field as int, payload@));
    }
}

/// The endpoints the transport knows.
#[derive(Debug, Clone, Copy, PartialEq, Eq, Structural)]
pub enum RequestEndpoint {
    CoopStatus,
    FirstContact,
    GetPeriodicals,
}

/// Path segment of an endpoint under the API base URL.
pub open spec fn endpoint_name_spec(e: RequestEndpoint) -> Seq<char> {
    match e {
        RequestEndpoint::CoopStatus => "coop_status"@,
        RequestEndpoint::FirstContact => "first_contact"@,
        RequestEndpoint::GetPeriodicals => "get_periodicals"@,
    }
}

/// Whether an endpoint's response arrives inside the authenticated
/// envelope.
pub open spec fn expects_envelope_spec(e: RequestEndpoint) -> bool {
    match e {
        RequestEndpoint::CoopStatus => true,
        RequestEndpoint::FirstContact => false,
        RequestEndpoint::GetPeriodicals => true,
    }
}

impl RequestEndpoint {
    pub fn endpoint_name(&self) -> (r: &'static str)
        ensures
            r@ == endpoint_name_spec(*self),
    {
        match self {
            RequestEndpoint::CoopStatus => "coop_status",
            RequestEndpoint::FirstContact => "first_contact",
            RequestEndpoint::GetPeriodicals => "get_periodicals",
        }
    }

    pub fn expects_envelope(&self) -> (r: bool)
        ensures
            r == expects_envelope_spec(*self),
    {
        match self {
            RequestEndpoint::CoopStatus => true,
            RequestEndpoint::FirstContact => false,
            RequestEndpoint::GetPeriodicals => true,
        }
    }
}

/// The client-identity block every request carries.
#[derive(Debug)]
pub struct BasicRequestInfo {
    pub ei_user_id: String,
    pub client_version: u32,
    pub version: String,
    pub build: String,
    pub platform: String,
}

/// Field layout of the identity block.
pub open spec fn spec_encode_basic_info(r: BasicRequestInfo) -> Seq<u8> {
    string_field(1, r.ei_user_id@) + varint_field(2, r.client_version as int) + string_field(
        3,
        r.version@,
    ) + string_field(4, r.build@) + string_field(5, r.platform@)
}

impl BasicRequestInfo {
    /// The fixed per-install identity, with the user id supplied as
    /// explicit configuration.
    pub fn new(ei_user_id: String) -> (r: Self)
        ensures
            r.ei_user_id == ei_user_id,
            r.client_version == CLIENT_VERSION,
            r.version@ == "1.31"@,
            r.build@ == "111284"@,
            r.platform@ == "IOS"@,
    {
        Self {
            ei_user_id,
            client_version: CLIENT_VERSION,
            version: "1.31".to_owned(),
            build: "111284".to_owned(),
            platform: "IOS".to_owned(),
        }
    }

    pub fn encode(&self) -> (r: Vec<u8>)
        ensures
            r@ == spec_encode_basic_info(*self),
    {
        let mut out: Vec<u8> = Vec::new();
        push_string_field(&mut out, 1, self.ei_user_id.as_str());
        push_varint_field(&mut out, 2, self.client_version);
        push_string_field(&mut out, 3, self.version.as_str());
        push_string_field(&mut out, 4, self.build.as_str());
        push_string_field(&mut out, 5, self.platform.as_str());
        proof {
            assert(out@ =~= spec_encode_basic_info(*self));
        }
        out
    }
}

/// Request for the live status of one coop.
#[derive(Debug)]
pub struct ContractCoopStatusRequest {
    pub rinfo: BasicRequestInfo,
    pub contract_identifier: String,
    pub coop_identifier: String,
    pub user_id: String,
    pub client_version: u32,
}

/// Field layout of the coop status request.
pub open spec fn spec_encode_coop_status_request(r: ContractCoopStatusRequest) -> Seq<u8> {
    len_field(1, spec_encode_basic_info(r.rinfo)) + string_field(2, r.contract_identifier@)
        + string_field(3, r.coop_identifier@) + string_field(4, r.user_id@) + varint_field(
        5,
        r.client_version as int,
    )
}

impl ContractCoopStatusRequest {
    pub fn new(user_id: String, contract_id: String, coop_id: String) -> (r: Self)
        ensures
            r.rinfo.ei_user_id == user_id,
            r.rinfo.client_version == CLIENT_VERSION,
            r.rinfo.version@ == "1.31"@,
            r.rinfo.build@ == "111284"@,
            r.rinfo.platform@ == "IOS"@,
            r.contract_identifier == contract_id,
            r.coop_identifier == coop_id,
            r.user_id == user_id,
            r.client_version == CLIENT_VERSION,
    {
        let rinfo = BasicRequestInfo::new(user_id.clone());
        Self {
            rinfo,
            contract_identifier: contract_id,
            coop_identifier: coop_id,
            user_id,
            client_version: CLIENT_VERSION,
        }
    }

    pub fn endpoint(&self) -> (r: RequestEndpoint)
        ensures
            r == RequestEndpoint::CoopStatus,
    {
        RequestEndpoint::CoopStatus
    }

    pub fn encode(&self) -> (r: Vec<u8>)
        ensures
            r@ == spec_encode_coop_status_request(*self),
    {
        let rinfo_bytes = self.rinfo.encode();
        let mut out: Vec<u8> = Vec::new();
        push_message_field(&mut out, 1, &rinfo_bytes);
        push_string_field(&mut out, 2, self.contract_identifier.as_str());
        push_string_field(&mut out, 3, self.coop_identifier.as_str());
        push_string_field(&mut out, 4, self.user_id.as_str());
        push_varint_field(&mut out, 5, self.client_version);
        proof {
            assert(out@ =~= spec_encode_coop_status_request(*self));
        }
        out
    }

    /// The transport-ready form: the encoded request, base64-wrapped.
    pub fn to_api_payload(&self) -> (r: String)
        ensures
            r@ == b64_encode_of(spec_encode_coop_status_request(*self)),
    {
        let bytes = self.encode();
        encode_payload(&bytes)
    }
}

/// Request for the periodicals feed, which carries the active contracts.
#[derive(Debug)]
pub struct GetPeriodicalsRequest {
    pub rinfo: BasicRequestInfo,
    pub user_id: String,
    pub current_client_version: u32,
}

/// Field layout of the periodicals request.
pub open spec fn spec_encode_periodicals_request(r: GetPeriodicalsRequest) -> Seq<u8> {
    len_field(1, spec_encode_basic_info(r.rinfo)) + string_field(2, r.user_id@) + varint_field(
        3,
        r.current_client_version as int,
    )
}

impl GetPeriodicalsRequest {
    pub fn new(user_id: String) -> (r: Self)
        ensures
            r.rinfo.ei_user_id == user_id,
            r.rinfo.client_version == CLIENT_VERSION,
            r.rinfo.version@ == "1.31"@,
            r.rinfo.build@ == "111284"@,
            r.rinfo.platform@ == "IOS"@,
            r.user_id == user_id,
            r.current_client_version == CURRENT_CLIENT_VERSION,
    {
        let rinfo = BasicRequestInfo::new(user_id.clone());
        Self { rinfo, user_id, current_client_version: CURRENT_CLIENT_VERSION }
    }

    pub fn endpoint(&self) -> (r: RequestEndpoint)
        ensures
            r == RequestEndpoint::GetPeriodicals,
    {
        RequestEndpoint::GetPeriodicals
    }

    pub fn encode(&self) -> (r: Vec<u8>)
        ensures
            r@ == spec_encode_periodicals_request(*self),
    {
        let rinfo_bytes = self.rinfo.encode();
        let mut out: Vec<u8> = Vec::new();
        push_message_field(&mut out, 1, &rinfo_bytes);
        push_string_field(&mut out, 2, self.user_id.as_str());
        push_varint_field(&mut out, 3, self.current_client_version);
        proof {
            assert(out@ =~= spec_encode_periodicals_request(*self));
        }
        out
    }

    /// The transport-ready form: the encoded request, base64-wrapped.
    pub fn to_api_payload(&self) -> (r: String)
        ensures
            r@ == b64_encode_of(spec_encode_periodicals_request(*self)),
    {
        let bytes = self.encode();
        encode_payload(&bytes)
    }
}

/// The first-contact request; its response arrives without an envelope.
#[derive(Debug)]
pub struct EggIncFirstContactRequest {
    pub rinfo: BasicRequestInfo,
    pub ei_user_id: String,
    pub client_version: u32,
}

/// Field layout of the first-contact request.
pub open spec fn spec_encode_first_contact_request(r: EggIncFirstContactRequest) -> Seq<u8> {
    len_field(1, spec_encode_basic_info(r.rinfo)) + string_field(2, r.ei_user_id@) + varint_field(
        3,
        r.client_version as int,
    )
}

impl EggIncFirstContactRequest {
    pub fn new(user_id: String) -> (r: Self)
        ensures
            r.rinfo.ei_user_id == user_id,
            r.rinfo.client_version == CLIENT_VERSION,
            r.rinfo.version@ == "1.31"@,
            r.rinfo.build@ == "111284"@,
            r.rinfo.platform@ == "IOS"@,
            r.ei_user_id == user_id,
            r.client_version == CLIENT_VERSION,
    {
        let rinfo = BasicRequestInfo::new(user_id.clone());
        Self { rinfo, ei_user_id: user_id, client_version: CLIENT_VERSION }
    }

    pub fn endpoint(&self) -> (r: RequestEndpoint)
        ensures
            r == RequestEndpoint::FirstContact,
    {
        RequestEndpoint::FirstContact
    }

    pub fn encode(&self) -> (r: Vec<u8>)
        ensures
            r@ == spec_encode_first_contact_request(*self),
    {
        let rinfo_bytes = self.rinfo.encode();
        let mut out: Vec<u8> = Vec::new();
        push_message_field(&mut out, 1, &rinfo_bytes);
        push_string_field(&mut out, 2, self.ei_user_id.as_str());
        push_varint_field(&mut out, 3, self.client_version);
        proof {
            assert(out@ =~= spec_encode_first_contact_request(*self));
        }
        out
    }

    /// The transport-ready form: the encoded request, base64-wrapped.
    pub fn to_api_payload(&self) -> (r: String)
        ensures
            r@ == b64_encode_of(spec_encode_first_contact_request(*self)),
    {
        let bytes = self.encode();
        encode_payload(&bytes)
    }
}

} // verus!

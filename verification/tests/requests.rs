use sruc::codec::decode_response;
use sruc::requests::{
    BasicRequestInfo, ContractCoopStatusRequest, EggIncFirstContactRequest, GetPeriodicalsRequest,
    RequestEndpoint, CLIENT_VERSION, CURRENT_CLIENT_VERSION,
};

fn string_field(field: u8, s: &str) -> Vec<u8> {
    let mut v = vec![field << 3 | 2, s.len() as u8];
    v.extend_from_slice(s.as_bytes());
    v
}

fn varint_field(field: u8, value: u32) -> Vec<u8> {
    assert!(value < 0x80 || value < 0x4000);
    let mut v = vec![field << 3];
    if value < 0x80 {
        v.push(value as u8);
    } else {
        v.push(0x80 | (value & 0x7f) as u8);
        v.push((value >> 7) as u8);
    }
    v
}

fn expected_rinfo(user: &str) -> Vec<u8> {
    let mut v = Vec::new();
    v.extend(string_field(1, user));
    v.extend(varint_field(2, CLIENT_VERSION));
    v.extend(string_field(3, "1.31"));
    v.extend(string_field(4, "111284"));
    v.extend(string_field(5, "IOS"));
    v
}

#[test]
fn endpoint_table() {
    assert_eq!(RequestEndpoint::CoopStatus.endpoint_name(), "coop_status");
    assert_eq!(RequestEndpoint::GetPeriodicals.endpoint_name(), "get_periodicals");
    assert_eq!(RequestEndpoint::FirstContact.endpoint_name(), "first_contact");
    assert!(RequestEndpoint::CoopStatus.expects_envelope());
    assert!(RequestEndpoint::GetPeriodicals.expects_envelope());
    assert!(!RequestEndpoint::FirstContact.expects_envelope());
}

#[test]
fn basic_request_info_bytes() {
    let info = BasicRequestInfo::new("u".to_string());
    assert_eq!(info.client_version, CLIENT_VERSION);
    assert_eq!(info.encode(), expected_rinfo("u"));
}

#[test]
fn coop_status_request_bytes() {
    let req = ContractCoopStatusRequest::new(
        "u".to_string(),
        "ctr".to_string(),
        "code".to_string(),
    );
    assert_eq!(req.endpoint(), RequestEndpoint::CoopStatus);
    let rinfo = expected_rinfo("u");
    let mut expected = vec![0x0A, rinfo.len() as u8];
    expected.extend(rinfo);
    expected.extend(string_field(2, "ctr"));
    expected.extend(string_field(3, "code"));
    expected.extend(string_field(4, "u"));
    expected.extend(varint_field(5, CLIENT_VERSION));
    assert_eq!(req.encode(), expected);
}

#[test]
fn periodicals_request_bytes() {
    let req = GetPeriodicalsRequest::new("u".to_string());
    assert_eq!(req.endpoint(), RequestEndpoint::GetPeriodicals);
    assert_eq!(req.current_client_version, CURRENT_CLIENT_VERSION);
    let rinfo = expected_rinfo("u");
    let mut expected = vec![0x0A, rinfo.len() as u8];
    expected.extend(rinfo);
    expected.extend(string_field(2, "u"));
    expected.extend(varint_field(3, CURRENT_CLIENT_VERSION));
    assert_eq!(req.encode(), expected);
}

#[test]
fn first_contact_request_bytes() {
    let req = EggIncFirstContactRequest::new("u".to_string());
    assert_eq!(req.endpoint(), RequestEndpoint::FirstContact);
    let rinfo = expected_rinfo("u");
    let mut expected = vec![0x0A, rinfo.len() as u8];
    expected.extend(rinfo);
    expected.extend(string_field(2, "u"));
    expected.extend(varint_field(3, CLIENT_VERSION));
    assert_eq!(req.encode(), expected);
}

#[test]
fn payload_round_trips_through_codec() {
    let req = ContractCoopStatusRequest::new(
        "user".to_string(),
        "contract-id".to_string(),
        "coop-code".to_string(),
    );
    let payload = req.to_api_payload();
    let decoded = decode_response(&payload, false).expect("own payload must decode");
    assert_eq!(decoded, req.encode());
}

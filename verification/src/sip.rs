//! Call-signaling registration: reading the line configuration, and
//! building the values of a REGISTER request (random tag and branch
//! parameters, hex-encoded) for the signaling client to serialize.

use vstd::prelude::*;
use vstd::string::StringExecFns;

verus! {

/// The local port registration names in its Via header.
pub const OUTGOING_PORT: u16 = 50606;

/// The lowercase hex digit of a nibble.
pub open spec fn hex_digit(n: u8) -> char
    recommends
        n < 16,
{
    if n == 0 {
        '0'
    } else if n == 1 {
        '1'
    } else if n == 2 {
        '2'
    } else if n == 3 {
        '3'
    } else if n == 4 {
        '4'
    } else if n == 5 {
        '5'
    } else if n == 6 {
        '6'
    } else if n == 7 {
        '7'
    } else if n == 8 {
        '8'
    } else if n == 9 {
        '9'
    } else if n == 10 {
        'a'
    } else if n == 11 {
        'b'
    } else if n == 12 {
        'c'
    } else if n == 13 {
        'd'
    } else if n == 14 {
        'e'
    } else {
        'f'
    }
}

/// The lowercase hex encoding of a byte string: two digits per byte,
/// high nibble first.
pub open spec fn hex_of(bytes: Seq<u8>) -> Seq<char>
    decreases bytes.len(),
{
    if bytes.len() == 0 {
        Seq::<char>::empty()
    } else {
        hex_of(bytes.drop_last()) + seq![
            hex_digit(bytes.last() / 16),
            hex_digit(bytes.last() % 16),
        ]
    }
}

/// Relies on `hex::encode`: every byte becomes exactly two lowercase
/// hex digits, high nibble first.
#[verifier::external_body]
fn hex_lower(bytes: &Vec<u8>) -> (r: String)
    ensures
        r@ == hex_of(bytes@),
{
    String::from(hex::encode(bytes.as_slice()))
}

/// Relies on `rand::random`: four bytes from the thread-local
/// generator. The values are random, so only their count is stated.
#[verifier::external_body]
fn random_bytes() -> (r: Vec<u8>)
    ensures
        r@.len() == 4,
{
    rand::random::<[u8; 4]>().to_vec()
}

/// One configured signaling line, as read from the key-value store.
#[derive(Debug)]
pub struct SipConfig {
    pub user: String,
    pub password: String,
    pub domain: String,
}

/// Decides whether a signaling line can start from what the key-value
/// store held: the line must be enabled and carry a user, a password
/// and a domain; each missing piece is its own error, checked in that
/// order. An absent enabled-flag counts as disabled.
pub fn sip_config_decision(
    enabled: Option<bool>,
    user: Option<String>,
    password: Option<String>,
    domain: Option<String>,
) -> (r: Result<SipConfig, String>)
    ensures
        enabled != Some(true) ==> (r matches Err(e) && e@ == "SIP line disabled"@),
        enabled == Some(true) && user is None ==> (r matches Err(e) && e@
            == "SIP line enabled but no user"@),
        enabled == Some(true) && user is Some && password is None ==> (r matches Err(e) && e@
            == "SIP line enabled but no pw"@),
        enabled == Some(true) && user is Some && password is Some && domain is None ==> (r
            matches Err(e) && e@ == "SIP line enabled but no domain"@),
        enabled == Some(true) && user is Some && password is Some && domain is Some ==> (r
            matches Ok(c) && c.user == user.unwrap() && c.password == password.unwrap() && c.domain
            == domain.unwrap()),
{
    let is_enabled = match enabled {
        Some(val) => val,
        None => false,
    };
    if !is_enabled {
        return Err(String::from_str("SIP line disabled"));
    }
    let user = match user {
        Some(val) => val,
        None => {
            return Err(String::from_str("SIP line enabled but no user"));
        },
    };
    let password = match password {
        Some(val) => val,
        None => {
            return Err(String::from_str("SIP line enabled but no pw"));
        },
    };
    let domain = match domain {
        Some(val) => val,
        None => {
            return Err(String::from_str("SIP line enabled but no domain"));
        },
    };
    Ok(SipConfig { user, password, domain })
}

/// Everything a REGISTER request of this core carries, as plain values:
/// the line's identity, where it registers, the fixed display name and
/// sequence number, and the freshly drawn tag and branch parameters.
pub struct RegisterRequest {
    pub user: String,
    pub password: String,
    pub domain: String,
    pub external_ip: String,
    pub display_name: String,
    pub tag: String,
    pub branch: String,
    pub cseq: u32,
    pub port: u16,
}

/// Builds the REGISTER request values from the line configuration and
/// the drawn parameter bytes. Note that both the From tag and the Via
/// branch are encoded from `tag_bytes`: the separately drawn
/// `branch_bytes` never reach the encoding, so the two parameters come
/// out equal. The contract states this as it is.
pub fn register_request(
    user: String,
    password: String,
    domain: String,
    external_ip: String,
    tag_bytes: &Vec<u8>,
    branch_bytes: &Vec<u8>,
) -> (r: RegisterRequest)
    ensures
        r.user == user,
        r.password == password,
        r.domain == domain,
        r.external_ip == external_ip,
        r.display_name@ == "KYP"@,
        r.tag@ == hex_of(tag_bytes@),
        r.branch@ == hex_of(tag_bytes@),
        r.cseq == 1,
        r.port == OUTGOING_PORT,
{
    let tag = hex_lower(tag_bytes);
    let branch = hex_lower(tag_bytes);
    RegisterRequest {
        user,
        password,
        domain,
        external_ip,
        display_name: String::from_str("KYP"),
        tag,
        branch,
        cseq: 1,
        port: OUTGOING_PORT,
    }
}

/// Builds a REGISTER request for the line, drawing fresh random
/// parameter bytes: the tag is eight lowercase hex digits, and the
/// branch comes out equal to it (see `register_request`).
pub fn register(user: String, password: String, domain: String, external_ip: String) -> (r:
    RegisterRequest)
    ensures
        r.user == user,
        r.password == password,
        r.domain == domain,
        r.external_ip == external_ip,
        r.display_name@ == "KYP"@,
        exists|b: Seq<u8>| b.len() == 4 && r.tag@ == hex_of(b),
        r.branch@ == r.tag@,
        r.cseq == 1,
        r.port == OUTGOING_PORT,
{
    let tag_bytes = random_bytes();
    let branch_bytes = random_bytes();
    let r = register_request(user, password, domain, external_ip, &tag_bytes, &branch_bytes);
    proof {
        assert(tag_bytes@.len() == 4 && r.tag@ == hex_of(tag_bytes@));
    }
    r
}

} // verus!

use vstd::prelude::*;

verus! {

/// The name of the request header in which a client announces what its
/// tunnel carries.
pub const NETWORK_TYPE_HEADER: &'static str = "network-type";

/// What a tunnel carries, as the server learns it from the handshake.
#[derive(Clone, Copy, Debug, PartialEq, Eq, Structural)]
pub enum NetworkType {
    Tcp,
    Udp,
    Unset,
}

/// Why the server refuses a WebSocket handshake.
#[derive(Clone, Copy, Debug, PartialEq, Eq, Structural)]
pub enum HandshakeRejection {
    /// The request has no `network-type` header.
    MissingHeader,
    /// The `network-type` header holds neither `tcp` nor `udp`.
    InvalidValue,
}

/// The bytes of `text`, where every character of it is ASCII.
pub open spec fn ascii_bytes(text: Seq<char>) -> Seq<u8> {
    text.map_values(|c: char| c as u8)
}

/// The value of the `network-type` header for each transport.
pub open spec fn header_text(nt: NetworkType) -> Seq<char> {
    match nt {
        NetworkType::Tcp => seq!['t', 'c', 'p'],
        NetworkType::Udp => seq!['u', 'd', 'p'],
        NetworkType::Unset => Seq::empty(),
    }
}

/// A byte of a header value that reads as text: visible ASCII or a tab.
pub open spec fn visible_ascii(b: u8) -> bool {
    (32 <= b && b < 127) || b == 9
}

/// What the server makes of the `network-type` header's value: `tcp` and
/// `udp` name a transport; anything else is refused.
pub open spec fn header_verdict(value: Seq<u8>) -> Result<NetworkType, HandshakeRejection> {
    if value == ascii_bytes(header_text(NetworkType::Tcp)) {
        Ok(NetworkType::Tcp)
    } else if value == ascii_bytes(header_text(NetworkType::Udp)) {
        Ok(NetworkType::Udp)
    } else {
        Err(HandshakeRejection::InvalidValue)
    }
}

/// The text of each refusal, as the server sends it back.
pub open spec fn rejection_text(r: HandshakeRejection) -> Seq<char> {
    match r {
        HandshakeRejection::MissingHeader => "No network-type header was present in the request."@,
        HandshakeRejection::InvalidValue => "The network-type header contained an invalid value."@,
    }
}

impl NetworkType {
    /// The value of the `network-type` header that announces this transport.
    pub fn header_value(&self) -> (text: &'static str)
        requires
            !(*self is Unset),
        ensures
            text@ == header_text(*self),
    {
        match self {
            NetworkType::Tcp => {
                proof {
                    reveal_strlit("tcp");
                }
                "tcp"
            },
            _ => {
                proof {
                    reveal_strlit("udp");
                }
                "udp"
            },
        }
    }
}

impl HandshakeRejection {
    /// The text of this refusal, as the server sends it back.
    pub fn message(&self) -> (text: String)
        ensures
            text@ == rejection_text(*self),
    {
        match self {
            HandshakeRejection::MissingHeader => String::from_str("No network-type header was present in the request."),
            HandshakeRejection::InvalidValue => String::from_str("The network-type header contained an invalid value."),
        }
    }
}

/// Whether every byte of `value` reads as text (the test of
/// `http::HeaderValue::to_str`).
pub fn is_header_text(value: &[u8]) -> (r: bool)
    ensures
        r == (forall|i: int| 0 <= i < value@.len() ==> visible_ascii(#[trigger] value@[i])),
{
    let n = value.len();
    for i in 0..n
        invariant
            n == value@.len(),
            forall|j: int| 0 <= j < i ==> visible_ascii(#[trigger] value@[j]),
    {
        let b = value[i];
        if !((32 <= b && b < 127) || b == 9) {
            return false;
        }
    }
    true
}

/// Whether `value` is the three bytes `a`, `b`, `c`.
fn is_three(value: &[u8], a: u8, b: u8, c: u8) -> (r: bool)
    ensures
        r == (value@ == seq![a, b, c]),
{
    if value.len() == 3 && value[0] == a && value[1] == b && value[2] == c {
        assert(value@ =~= seq![a, b, c]);
        true
    } else {
        false
    }
}

/// What the server makes of the bytes of a `network-type` header: the value
/// must read as text, and the text must be `tcp` or `udp`.
pub fn network_type_from_value(value: &[u8]) -> (r: Result<NetworkType, HandshakeRejection>)
    ensures
        r == header_verdict(value@),
{
    proof {
        assert(ascii_bytes(header_text(NetworkType::Tcp)) =~= seq![116u8, 99u8, 112u8]);
        assert(ascii_bytes(header_text(NetworkType::Udp)) =~= seq![117u8, 100u8, 112u8]);
    }
    if !is_header_text(value) {
        proof {
            let i = choose|i: int| 0 <= i < value@.len() && !visible_ascii(#[trigger] value@[i]);
            assert(value@ != seq![116u8, 99u8, 112u8]);
            assert(value@ != seq![117u8, 100u8, 112u8]);
        }
        Err(HandshakeRejection::InvalidValue)
    } else if is_three(value, 116, 99, 112) {
        Ok(NetworkType::Tcp)
    } else if is_three(value, 117, 100, 112) {
        Ok(NetworkType::Udp)
    } else {
        Err(HandshakeRejection::InvalidValue)
    }
}

/// The header value type of the `http` crate.
#[verifier::external_type_specification]
#[verifier::external_body]
pub struct ExHeaderValue(http::HeaderValue);

/// The bytes of a header value.
pub uninterp spec fn header_bytes(v: http::HeaderValue) -> Seq<u8>;

/// `http::HeaderValue::as_bytes`, copied out: the bytes of the value.
#[verifier::external_body]
fn header_value_bytes(v: &http::HeaderValue) -> (bytes: Vec<u8>)
    ensures
        bytes@ == header_bytes(*v),
{
    v.as_bytes().to_vec()
}

/// What the server makes of a handshake request whose `network-type` header
/// is `header`, or that has no such header: a request without it is refused
/// as such; its value must read as text and be `tcp` or `udp`.
pub fn network_type_from_header(header: Option<&http::HeaderValue>) -> (r: Result<NetworkType, HandshakeRejection>)
    ensures
        r == (match header {
            Some(value) => header_verdict(header_bytes(*value)),
            None => Err(HandshakeRejection::MissingHeader),
        }),
{
    match header {
        Some(value) => {
            let bytes = header_value_bytes(value);
            network_type_from_value(bytes.as_slice())
        },
        None => Err(HandshakeRejection::MissingHeader),
    }
}

} // verus!

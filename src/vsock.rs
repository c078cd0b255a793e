//! Addresses of the API sockets: a Unix socket path or a virtio socket
//! (`cid:port`), and the encoding of a virtio socket address in a URI host.

use vstd::prelude::*;
use crate::text::{chars_of, has_prefix, starts_with, decimal, digit_char, push_decimal, push_str, split_once, split_once_spec, string_of, parse_u32, u32_of};

verus! {

/// A virtio socket address.
#[derive(Debug, Clone, Copy, PartialEq, Eq, Structural)]
pub struct VsockAddr {
    pub cid: u32,
    pub port: u32,
}

/// A socket the API server listens on or the client connects to.
pub enum Socket {
    /// A Unix socket at a path.
    Unix(String),
    /// A virtio socket, as context id and port.
    Vsock(u32, u32),
}

/// Why a socket address was refused.
#[derive(Debug, Clone, Copy, PartialEq, Eq, Structural)]
pub enum SocketError {
    /// The context id is not a `u32`.
    BadCid,
    /// The port is not a `u32`.
    BadPort,
}

/// What a socket argument means: `cid:port` is a virtio socket, anything
/// without a `:` a Unix socket path.
pub open spec fn socket_of(s: Seq<char>) -> Result<(Option<Seq<char>>, u32, u32), SocketError> {
    match split_once_spec(s, seq![':']) {
        None => Ok((Some(s), 0, 0)),
        Some((cid, port)) => match (u32_of(cid), u32_of(port)) {
            (None, _) => Err(SocketError::BadCid),
            (Some(_), None) => Err(SocketError::BadPort),
            (Some(c), Some(p)) => Ok((None, c, p)),
        },
    }
}

impl Socket {
    /// Reads a socket argument: `cid:port` for a virtio socket, else a Unix
    /// socket path.
    pub fn from_str(s: &str) -> (r: Result<Socket, SocketError>)
        ensures
            match (r, socket_of(s@)) {
                (Ok(Socket::Unix(path)), Ok((Some(p), _, _))) => path@ == p,
                (Ok(Socket::Vsock(cid, port)), Ok((None, want_cid, want_port))) => cid == want_cid && port == want_port,
                (Err(e), Err(want)) => e == want,
                _ => false,
            },
    {
        let cs = chars_of(s);
        let colon: Vec<char> = vec![':'];
        proof {
            assert(colon@ =~= seq![':']);
        }
        match split_once(&cs, &colon) {
            None => Ok(Socket::Unix(s.to_owned())),
            Some((cid, port)) => match parse_u32(&cid) {
                None => Err(SocketError::BadCid),
                Some(c) => match parse_u32(&port) {
                    None => Err(SocketError::BadPort),
                    Some(p) => Ok(Socket::Vsock(c, p)),
                },
            },
        }
    }
}

/// The lower-case hex digit for `n < 16`.
pub open spec fn hex_digit(n: nat) -> char {
    if n < 10 { digit_char(n) }
    else if n == 10 { 'a' }
    else if n == 11 { 'b' }
    else if n == 12 { 'c' }
    else if n == 13 { 'd' }
    else if n == 14 { 'e' }
    else { 'f' }
}

/// Two lower-case hex digits per byte, high nibble first.
pub open spec fn hex_encoded(b: Seq<u8>) -> Seq<char>
    decreases b.len(),
{
    if b.len() == 0 {
        Seq::empty()
    } else {
        seq![hex_digit((b[0] / 16) as nat), hex_digit((b[0] % 16) as nat)] + hex_encoded(b.drop_first())
    }
}

/// The value of a hex digit of either case.
pub open spec fn hex_value(c: char) -> Option<u8> {
    let u = c as u32;
    if 48 <= u <= 57 { Some((u - 48) as u8) }
    else if 97 <= u <= 102 { Some((u - 87) as u8) }
    else if 65 <= u <= 70 { Some((u - 55) as u8) }
    else { None }
}

/// The bytes that a text of hex digit pairs encodes; `None` for an odd
/// length or a character that is not a hex digit.
pub open spec fn hex_decoded(s: Seq<char>) -> Option<Seq<u8>>
    decreases s.len(),
{
    if s.len() == 0 {
        Some(Seq::empty())
    } else if s.len() == 1 {
        None
    } else {
        match (hex_value(s[0]), hex_value(s[1]), hex_decoded(s.subrange(2, s.len() as int))) {
            (Some(h), Some(l), Some(rest)) => Some(seq![(h * 16 + l) as u8] + rest),
            _ => None,
        }
    }
}

/// Relies on `hex::encode`: two lower-case hex digits per byte, in order.
#[verifier::external_body]
fn hex_encode(b: &Vec<u8>) -> (r: String)
    ensures
        r@ == hex_encoded(b@),
{
    hex::encode(b)
}

/// Relies on `hex::FromHex` for `Vec<u8>`: pairs of hex digits of either case
/// become bytes; an odd length or another character is an error.
#[verifier::external_body]
fn hex_decode(s: &str) -> (r: Option<Vec<u8>>)
    ensures
        match (r, hex_decoded(s@)) {
            (Some(v), Some(b)) => v@ == b,
            (None, None) => true,
            _ => false,
        },
{
    <Vec<u8> as hex::FromHex>::from_hex(s).ok()
}

/// The text that `String::from_utf8_lossy` makes of some bytes.
pub uninterp spec fn utf8_lossy(b: Seq<u8>) -> Seq<char>;

/// Relies on `String::from_utf8_lossy`: the bytes read as UTF-8, with each
/// invalid sequence replaced.
#[verifier::external_body]
fn lossy_text(b: &Vec<u8>) -> (r: String)
    ensures
        r@ == utf8_lossy(b@),
{
    String::from_utf8_lossy(b).into_owned()
}

/// The bytes of an ASCII text.
pub open spec fn ascii_bytes(s: Seq<char>) -> Seq<u8> {
    s.map_values(|c: char| (c as u32) as u8)
}

/// The text `cid:port` of a virtio socket address.
pub open spec fn vsock_text(cid: u32, port: u32) -> Seq<char> {
    decimal(cid as nat) + seq![':'] + decimal(port as nat)
}

proof fn lemma_decimal_ascii(n: nat)
    ensures
        forall|i: int| 0 <= i < decimal(n).len() ==> (#[trigger] decimal(n)[i] as u32) < 128,
    decreases n,
{
    if n >= 10 {
        lemma_decimal_ascii(n / 10);
        let d = decimal(n / 10).push(digit_char(n % 10));
        assert forall|i: int| 0 <= i < d.len() implies (#[trigger] d[i] as u32) < 128 by {
            if i < d.len() - 1 {
                assert(d[i] == decimal(n / 10)[i]);
            }
        }
    }
}

/// The URI that names `endpoint` on the virtio socket `cid:port`: the address
/// travels hex-encoded in the host part.
pub open spec fn vsock_uri_text(cid: u32, port: u32, endpoint: Seq<char>) -> Seq<char> {
    seq!['v', 's', 'o', 'c', 'k', ':', '/', '/'] + hex_encoded(ascii_bytes(vsock_text(cid, port)))
        + seq![':', '0'] + endpoint
}

/// The URI of `endpoint` on the API server at the virtio socket `cid:port`.
pub fn vsock_uri(cid: u32, port: u32, endpoint: &str) -> (r: String)
    ensures
        r@ == vsock_uri_text(cid, port, endpoint@),
{
    let mut addr: Vec<char> = Vec::new();
    push_decimal(&mut addr, cid as u64);
    addr.push(':');
    push_decimal(&mut addr, port as u64);
    proof {
        assert(addr@ =~= vsock_text(cid, port));
        lemma_decimal_ascii(cid as nat);
        lemma_decimal_ascii(port as nat);
        assert forall|i: int| 0 <= i < addr@.len() implies (#[trigger] addr@[i] as u32) < 128 by {
            let a = decimal(cid as nat);
            if i < a.len() {
                assert(addr@[i] == a[i]);
            } else if i > a.len() {
                assert(addr@[i] == decimal(port as nat)[i - a.len() - 1]);
            }
        }
    }
    let mut bytes: Vec<u8> = Vec::new();
    for i in 0..addr.len()
        invariant
            forall|k: int| 0 <= k < addr@.len() ==> (#[trigger] addr@[k] as u32) < 128,
            bytes@ == ascii_bytes(addr@.subrange(0, i as int)),
    {
        let c = addr[i];
        let u = c as u32;
        bytes.push(u as u8);
        proof {
            assert(ascii_bytes(addr@.subrange(0, i + 1)) =~= ascii_bytes(addr@.subrange(0, i as int)).push((c as u32) as u8));
        }
    }
    proof {
        assert(addr@.subrange(0, addr@.len() as int) =~= addr@);
    }
    let host = hex_encode(&bytes);
    let mut out: Vec<char> = vec!['v', 's', 'o', 'c', 'k', ':', '/', '/'];
    let host_chars = chars_of(host.as_str());
    push_str(&mut out, &host_chars);
    out.push(':');
    out.push('0');
    let ep = chars_of(endpoint);
    push_str(&mut out, &ep);
    proof {
        assert(out@ =~= vsock_uri_text(cid, port, endpoint@));
    }
    string_of(&out)
}

/// Why a URI does not name a virtio socket.
#[derive(Debug, Clone, Copy, PartialEq, Eq, Structural)]
pub enum VsockPathError {
    /// The scheme is not `vsock`.
    Scheme,
    /// There is no host.
    NoHost,
    /// The host is not hex-encoded.
    NotHex,
    /// The decoded host is not `cid:port`.
    NoPort,
    /// The context id is not a `u32`.
    Cid,
    /// The port is not a `u32`.
    Port,
}

/// The virtio socket address that a URI with scheme `scheme` and host `host`
/// names.
pub open spec fn vsock_path_of(scheme: Option<Seq<char>>, host: Option<Seq<char>>) -> Result<(u32, u32), VsockPathError> {
    if scheme != Some(seq!['v', 's', 'o', 'c', 'k']) {
        Err(VsockPathError::Scheme)
    } else {
        match host {
            None => Err(VsockPathError::NoHost),
            Some(h) => match hex_decoded(h) {
                None => Err(VsockPathError::NotHex),
                Some(bytes) => match split_once_spec(utf8_lossy(bytes), seq![':']) {
                    None => Err(VsockPathError::NoPort),
                    Some((cid, port)) => match (u32_of(cid), u32_of(port)) {
                        (None, _) => Err(VsockPathError::Cid),
                        (Some(_), None) => Err(VsockPathError::Port),
                        (Some(c), Some(p)) => Ok((c, p)),
                    },
                },
            },
        }
    }
}

/// Reads the virtio socket address from the scheme and host of a URI.
pub fn parse_vsock_path(scheme: Option<&str>, host: Option<&str>) -> (r: Result<(u32, u32), VsockPathError>)
    ensures
        r == vsock_path_of(
            match scheme { Some(s) => Some(s@), None => None },
            match host { Some(h) => Some(h@), None => None },
        ),
{
    let is_vsock = match scheme {
        Some(s) => {
            let cs = chars_of(s);
            let want: Vec<char> = vec!['v', 's', 'o', 'c', 'k'];
            proof {
                assert(want@ =~= seq!['v', 's', 'o', 'c', 'k']);
            }
            let same = cs.len() == want.len() && starts_with(&cs, &want);
            proof {
                if cs@.len() == want@.len() {
                    assert(cs@.subrange(0, want@.len() as int) =~= cs@);
                }
                assert(same == (s@ == seq!['v', 's', 'o', 'c', 'k']));
            }
            same
        },
        None => false,
    };
    if !is_vsock {
        return Err(VsockPathError::Scheme);
    }
    let h = match host {
        None => return Err(VsockPathError::NoHost),
        Some(h) => h,
    };
    let bytes = match hex_decode(h) {
        None => return Err(VsockPathError::NotHex),
        Some(b) => b,
    };
    let text = lossy_text(&bytes);
    let cs = chars_of(text.as_str());
    let colon: Vec<char> = vec![':'];
    proof {
        assert(colon@ =~= seq![':']);
    }
    match split_once(&cs, &colon) {
        None => Err(VsockPathError::NoPort),
        Some((cid, port)) => match parse_u32(&cid) {
            None => Err(VsockPathError::Cid),
            Some(c) => match parse_u32(&port) {
                None => Err(VsockPathError::Port),
                Some(p) => Ok((c, p)),
            },
        },
    }
}

} // verus!

//! HTTP protocol versions and the wire form of a response.

use vstd::prelude::*;
use vstd::string::*;
use vstd::utf8::encode_utf8;

verus! {

/// The protocol version a server speaks on its status lines.
#[derive(Clone, Copy, Debug, PartialEq, Eq, Structural)]
pub enum HttpVersion {
    Http10,
    Http11,
}

impl HttpVersion {
    /// The version as it is written on a status line.
    pub open spec fn text(self) -> Seq<char> {
        match self {
            HttpVersion::Http10 => "HTTP/1.0"@,
            HttpVersion::Http11 => "HTTP/1.1"@,
        }
    }

    pub fn as_str(&self) -> (s: &'static str)
        ensures
            s@ == self.text(),
    {
        match self {
            HttpVersion::Http10 => "HTTP/1.0",
            HttpVersion::Http11 => "HTTP/1.1",
        }
    }
}

impl Default for HttpVersion {
    fn default() -> (v: Self)
        ensures
            v == HttpVersion::Http11,
    {
        HttpVersion::Http11
    }
}

/// The decimal digits of `n` as ASCII bytes, most significant first.
pub open spec fn decimal(n: nat) -> Seq<u8>
    decreases n,
{
    if n < 10 {
        seq![(48 + n) as u8]
    } else {
        decimal(n / 10).push((48 + n % 10) as u8)
    }
}

/// Renders a status code in decimal.
pub fn decimal_bytes(code: u16) -> (out: Vec<u8>)
    ensures
        out@ == decimal(code as nat),
{
    let mut rev: Vec<u8> = Vec::new();
    let mut rest: u16 = code;
    while rest >= 10
        invariant
            decimal(code as nat) == decimal(rest as nat) + rev@.reverse(),
        decreases rest,
    {
        let digit: u8 = 48 + (rest % 10) as u8;
        proof {
            let r = rest as nat;
            assert(decimal(r) == decimal(r / 10).push((48 + r % 10) as u8));
            assert(rev@.push(digit).reverse() =~= seq![digit] + rev@.reverse());
            assert(decimal(r / 10).push(digit) + rev@.reverse() =~= decimal(r / 10) + (seq![digit]
                + rev@.reverse()));
        }
        rev.push(digit);
        rest = rest / 10;
    }
    let mut out: Vec<u8> = Vec::new();
    out.push(48 + rest as u8);
    let mut i: usize = rev.len();
    while i > 0
        invariant
            i <= rev.len(),
            out@ == decimal(rest as nat) + rev@.reverse().subrange(0, rev.len() - i),
        decreases i,
    {
        i = i - 1;
        out.push(rev[i]);
        proof {
            let r = rev@.reverse();
            assert(r.subrange(0, rev.len() - i) =~= r.subrange(0, rev.len() - i - 1).push(
                rev@[i as int],
            ));
        }
    }
    proof {
        assert(rev@.reverse().subrange(0, rev.len() as int) =~= rev@.reverse());
    }
    out
}

/// Appends `bytes` to `out`.
pub(crate) fn append_bytes(out: &mut Vec<u8>, bytes: &[u8])
    ensures
        final(out)@ == old(out)@ + bytes@,
{
    let mut i: usize = 0;
    while i < bytes.len()
        invariant
            i <= bytes.len(),
            out@ == old(out)@ + bytes@.subrange(0, i as int),
        decreases bytes.len() - i,
    {
        out.push(bytes[i]);
        i = i + 1;
        proof {
            assert(bytes@.subrange(0, i as int) =~= bytes@.subrange(0, i - 1).push(
                bytes@[i - 1],
            ));
        }
    }
    proof {
        assert(bytes@.subrange(0, bytes@.len() as int) =~= bytes@);
    }
}

/// A response as the core hands it to a transport.
pub struct HttpResponse {
    pub version: HttpVersion,
    pub status_code: u16,
    pub reason: String,
    pub body: Vec<u8>,
}

/// The bytes of a response: the status line, an empty header section, the body.
pub open spec fn response_wire(
    version: HttpVersion,
    status_code: u16,
    reason: Seq<char>,
    body: Seq<u8>,
) -> Seq<u8> {
    encode_utf8(version.text()) + seq![32u8] + decimal(status_code as nat) + seq![32u8]
        + encode_utf8(reason) + seq![13u8, 10u8, 13u8, 10u8] + body
}

impl HttpResponse {
    /// The bytes this response puts on the wire.
    pub open spec fn wire(&self) -> Seq<u8> {
        response_wire(self.version, self.status_code, self.reason@, self.body@)
    }

    /// Serialises the response.
    pub fn as_bytes(&self) -> (out: Vec<u8>)
        ensures
            out@ == self.wire(),
    {
        let mut out: Vec<u8> = Vec::new();
        append_bytes(&mut out, self.version.as_str().as_bytes());
        out.push(32u8);
        let code = decimal_bytes(self.status_code);
        append_bytes(&mut out, code.as_slice());
        out.push(32u8);
        append_bytes(&mut out, self.reason.as_str().as_bytes());
        out.push(13u8);
        out.push(10u8);
        out.push(13u8);
        out.push(10u8);
        append_bytes(&mut out, self.body.as_slice());
        proof {
            assert(out@ =~= self.wire());
        }
        out
    }
}

} // verus!

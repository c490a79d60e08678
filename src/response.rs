use vstd::prelude::*;

use crate::request::{version_name, Version};

verus! {

/// The reason phrase that `http` registers for a status code, if any.
pub uninterp spec fn reason_of(code: u16) -> Option<Seq<u8>>;

/// Relies on `http::StatusCode::from_u16` and `StatusCode::canonical_reason`:
/// the registered reason phrase of a status code.
#[verifier::external_body]
fn reason_phrase(code: u16) -> (r: Option<Vec<u8>>)
    ensures
        r is None <==> reason_of(code) is None,
        r matches Some(p) ==> reason_of(code) == Some(p@),
{
    match http::StatusCode::from_u16(code) {
        Ok(status) => status.canonical_reason().map(|p| p.as_bytes().to_vec()),
        Err(_) => None,
    }
}

/// The three decimal digits of a status code.
pub open spec fn status_digits(code: u16) -> Seq<u8> {
    seq![(48 + code / 100) as u8, (48 + (code / 10) % 10) as u8, (48 + code % 10) as u8]
}

/// What stands after the code where no reason phrase is registered.
pub open spec fn unknown_reason() -> Seq<u8> {
    seq![60u8, 117, 110, 107, 110, 111, 119, 110, 32, 115, 116, 97, 116, 117, 115, 32, 99, 111, 100, 101, 62]
}

/// The status line text after the version: code and reason phrase.
pub open spec fn status_text(code: u16, reason: Option<Seq<u8>>) -> Seq<u8> {
    status_digits(code) + seq![32u8] + match reason {
        Some(p) => p,
        None => unknown_reason(),
    }
}

/// The bytes sent for a response: version, status, a blank line, and the body.
pub open spec fn wire_bytes(version: Version, code: u16, reason: Option<Seq<u8>>, body: Seq<u8>) -> Seq<u8> {
    version_name(version) + seq![32u8] + status_text(code, reason) + seq![13u8, 10, 13, 10] + body
}

/// A response: version, status code and body.
pub struct Response {
    pub version: Version,
    pub status: u16,
    pub body: Vec<u8>,
}

impl Response {
    /// A response in HTTP/1.1 with the given status and body.
    pub fn new(status: u16, body: Vec<u8>) -> (r: Response)
        ensures
            r.version == Version::Http11,
            r.status == status,
            r.body@ == body@,
    {
        Response { version: Version::Http11, status, body }
    }

    /// The bytes of this response, where `reason` is the reason phrase of its status.
    pub fn to_bytes_with_reason(&self, reason: Option<Vec<u8>>) -> (r: Vec<u8>)
        requires
            100 <= self.status <= 999,
        ensures
            r@ == wire_bytes(
                self.version,
                self.status,
                match reason {
                    Some(p) => Some(p@),
                    None => None,
                },
                self.body@,
            ),
    {
        let mut out = self.version.name();
        out.push(32);
        let code = self.status;
        out.push((48 + code / 100) as u8);
        out.push((48 + (code / 10) % 10) as u8);
        out.push((48 + code % 10) as u8);
        out.push(32);
        let mut phrase = match reason {
            Some(p) => p,
            None => vec![60u8, 117, 110, 107, 110, 111, 119, 110, 32, 115, 116, 97, 116, 117, 115, 32, 99, 111, 100, 101, 62],
        };
        out.append(&mut phrase);
        out.push(13);
        out.push(10);
        out.push(13);
        out.push(10);
        let mut i: usize = 0;
        let ghost head = out@;
        while i < self.body.len()
            invariant
                i <= self.body@.len(),
                out@ == head + self.body@.subrange(0, i as int),
            decreases self.body@.len() - i,
        {
            out.push(self.body[i]);
            assert(self.body@.subrange(0, i + 1) =~= self.body@.subrange(0, i as int).push(self.body@[i as int]));
            i = i + 1;
        }
        assert(self.body@.subrange(0, self.body@.len() as int) =~= self.body@);
        assert(out@ =~= wire_bytes(
            self.version,
            self.status,
            match reason {
                Some(p) => Some(p@),
                None => None,
            },
            self.body@,
        ));
        out
    }

    /// The bytes sent for this response: `VERSION CODE REASON`, a blank line,
    /// then the body.
    pub fn to_bytes(&self) -> (r: Vec<u8>)
        requires
            100 <= self.status <= 999,
        ensures
            r@ == wire_bytes(self.version, self.status, reason_of(self.status), self.body@),
    {
        let reason = reason_phrase(self.status);
        self.to_bytes_with_reason(reason)
    }
}

} // verus!

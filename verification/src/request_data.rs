//! The body of a captured request, in the two forms in which it is relayed.

use base64::Engine;
use vstd::prelude::*;

verus! {

/// The text that `String::from_utf8_lossy` makes of a sequence of bytes.
pub uninterp spec fn utf8_lossy_text(bytes: Seq<u8>) -> Seq<char>;

/// The text that the standard base64 alphabet with padding makes of a
/// sequence of bytes.
pub uninterp spec fn base64_text(bytes: Seq<u8>) -> Seq<char>;

/// `String::from_utf8_lossy` decodes bytes as UTF-8 and puts the replacement
/// character in place of what is not valid. The result depends on the bytes
/// alone.
#[verifier::external_body]
fn decode_lossy(bytes: &[u8]) -> (text: String)
    ensures
        text@ == utf8_lossy_text(bytes@),
{
    String::from_utf8_lossy(bytes).into_owned()
}

/// `Engine::encode` of `base64::engine::general_purpose::STANDARD` encodes
/// bytes as base64. It panics where the encoded length does not fit in
/// `usize`, which the precondition leaves out. The result depends on the
/// bytes alone.
#[verifier::external_body]
fn encode_base64(bytes: &[u8]) -> (text: String)
    requires
        (bytes@.len() / 3 + 1) * 4 <= usize::MAX,
    ensures
        text@ == base64_text(bytes@),
{
    base64::engine::general_purpose::STANDARD.encode(bytes)
}

/// The body of a captured request: as text, and as base64 of its bytes.
#[derive(Debug)]
pub struct Body {
    raw: String,
    base64: String,
}

/// What a body says.
pub struct BodyView {
    pub raw: Seq<char>,
    pub base64: Seq<char>,
}

impl View for Body {
    type V = BodyView;

    closed spec fn view(&self) -> BodyView {
        BodyView { raw: self.raw@, base64: self.base64@ }
    }
}

impl Body {
    /// The body with the given two forms.
    pub fn new(raw: String, base64: String) -> (body: Body)
        ensures
            body@ == (BodyView { raw: raw@, base64: base64@ }),
    {
        Body { raw, base64 }
    }

    /// Whether the encoded form of `count` bytes has a length that fits.
    pub open spec fn encodable(count: nat) -> bool {
        (count / 3 + 1) * 4 <= usize::MAX
    }

    /// The body of a request whose bytes are `bytes`.
    pub fn from_bytes(bytes: &[u8]) -> (body: Body)
        requires
            Body::encodable(bytes@.len()),
        ensures
            body@ == (BodyView { raw: utf8_lossy_text(bytes@), base64: base64_text(bytes@) }),
    {
        let raw = decode_lossy(bytes);
        let base64 = encode_base64(bytes);
        Body::new(raw, base64)
    }

    /// The body of a request whose bytes are `bytes`, or `None` where there
    /// are too many bytes for their encoded form to fit.
    pub fn try_from_bytes(bytes: &[u8]) -> (body: Option<Body>)
        ensures
            match body {
                Some(body) => Body::encodable(bytes@.len()) && body@ == (BodyView {
                    raw: utf8_lossy_text(bytes@),
                    base64: base64_text(bytes@),
                }),
                None => !Body::encodable(bytes@.len()),
            },
    {
        if bytes.len() / 3 < usize::MAX / 4 {
            Some(Body::from_bytes(bytes))
        } else {
            None
        }
    }

    /// The body as text, with the replacement character where the bytes were
    /// not valid UTF-8.
    pub fn raw(&self) -> (raw: &str)
        ensures
            raw@ == self@.raw,
    {
        self.raw.as_str()
    }

    /// The bytes of the body in base64.
    pub fn base64(&self) -> (base64: &str)
        ensures
            base64@ == self@.base64,
    {
        self.base64.as_str()
    }
}

impl Clone for Body {
    fn clone(&self) -> (copy: Body)
        ensures
            copy@ == self@,
    {
        Body { raw: self.raw.clone(), base64: self.base64.clone() }
    }
}

} // verus!

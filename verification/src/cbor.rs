//! The CBOR body extractor's decision logic: whether a request's content type
//! announces a CBOR body, and how each way the extraction can fail maps to a
//! status code. The wire codec itself is a collaborator's concern; this
//! module owns the checks and the classification around it.

use vstd::prelude::*;
use vstd::string::StringExecFns;

verus! {

/// A value carried as a CBOR request or response body.
pub struct Cbor<T>(pub T);

impl<T> Cbor<T> {
    /// Unwraps the carried value.
    pub fn into_inner(self) -> (inner: T)
        ensures
            inner == self.0,
    {
        self.0
    }

    /// Borrows the carried value.
    pub fn get(&self) -> (inner: &T)
        ensures
            inner == &self.0,
    {
        &self.0
    }
}

impl<T> From<T> for Cbor<T> {
    fn from(inner: T) -> (r: Self) {
        Cbor(inner)
    }
}

impl<T> vstd::std_specs::convert::FromSpecImpl<T> for Cbor<T> {
    open spec fn obeys_from_spec() -> bool {
        true
    }

    open spec fn from_spec(inner: T) -> Self {
        Cbor(inner)
    }
}

/// What a decode failure amounts to: a body whose CBOR is readable but does
/// not fit the expected shape is semantic; anything else is a transport or
/// syntax problem.
#[derive(Debug, Clone, Copy, PartialEq, Eq, Structural)]
pub enum DecodeErrorKind {
    Io,
    Syntax,
    Semantic,
    RecursionLimit,
}

/// The ways extracting a CBOR body from a request can fail.
#[derive(Debug, Clone, Copy, PartialEq, Eq, Structural)]
pub enum CborRejection {
    ContentTypeMissing,
    ContentTypeInvalid,
    BytesRejection,
    CiboriumIoError(DecodeErrorKind),
}

/// The status code each rejection is reported as: an unusable content type is
/// an unsupported media type, a body that could not be buffered is too large,
/// a well-formed body of the wrong shape is unprocessable, and every other
/// decode failure is a plain client error.
pub open spec fn spec_rejection_status(r: CborRejection) -> u16 {
    match r {
        CborRejection::ContentTypeMissing => 415,
        CborRejection::ContentTypeInvalid => 415,
        CborRejection::BytesRejection => 413,
        CborRejection::CiboriumIoError(kind) => if kind is Semantic {
            422
        } else {
            400
        },
    }
}

impl CborRejection {
    /// The status code this rejection is reported as.
    pub fn status_code(&self) -> (code: u16)
        ensures
            code == spec_rejection_status(*self),
    {
        match self {
            CborRejection::ContentTypeMissing => 415,
            CborRejection::ContentTypeInvalid => 415,
            CborRejection::BytesRejection => 413,
            CborRejection::CiboriumIoError(kind) => match kind {
                DecodeErrorKind::Semantic => 422,
                _ => 400,
            },
        }
    }
}

/// A request's content-type header as the extractor sees it: absent, present
/// but not readable as text, or its text.
pub enum ContentTypeHeader {
    Absent,
    Binary,
    Text(String),
}

/// The top-level type and subtype that the media-type parser reads out of a
/// header value, if the value parses as a media type at all.
pub uninterp spec fn mime_essence(s: Seq<char>) -> Option<(Seq<char>, Seq<char>)>;

/// Relies on the mime crate's parser (`str::parse::<mime::Mime>`): the parse
/// result depends on the input text alone, and `type_()` and `subtype()` of a
/// parsed value are the media type's two components, ASCII-lowercased by the
/// parser.
#[verifier::external_body]
fn parse_mime_parts(s: &String) -> (parts: Option<(String, String)>)
    ensures
        match (parts, mime_essence(s@)) {
            (Some(p), Some(q)) => p.0@ == q.0 && p.1@ == q.1,
            (None, None) => true,
            _ => false,
        },
{
    match s.parse::<mime::Mime>() {
        Ok(m) => Some((m.type_().as_str().to_owned(), m.subtype().as_str().to_owned())),
        Err(_) => None,
    }
}

/// Checks that the request announces a CBOR body: the content-type header
/// must be present, parse as a media type, and have type `application` and
/// subtype `cbor`. An absent header is rejected as missing; anything else
/// that fails is rejected as invalid.
pub fn assert_cbor_content_type(header: &ContentTypeHeader) -> (r: Result<(), CborRejection>)
    ensures
        match header {
            ContentTypeHeader::Absent => r == Err::<(), _>(CborRejection::ContentTypeMissing),
            ContentTypeHeader::Binary => r == Err::<(), _>(CborRejection::ContentTypeInvalid),
            ContentTypeHeader::Text(s) => (r is Ok <==> (match mime_essence(s@) {
                Some(parts) => parts.0 == "application"@ && parts.1 == "cbor"@,
                None => false,
            })) && (r is Err ==> r == Err::<(), _>(CborRejection::ContentTypeInvalid)),
        },
{
    match header {
        ContentTypeHeader::Absent => Err(CborRejection::ContentTypeMissing),
        ContentTypeHeader::Binary => Err(CborRejection::ContentTypeInvalid),
        ContentTypeHeader::Text(s) => {
            match parse_mime_parts(s) {
                None => Err(CborRejection::ContentTypeInvalid),
                Some(parts) => {
                    let expected_type = String::from_str("application");
                    let expected_subtype = String::from_str("cbor");
                    if parts.0.eq(&expected_type) && parts.1.eq(&expected_subtype) {
                        Ok(())
                    } else {
                        Err(CborRejection::ContentTypeInvalid)
                    }
                },
            }
        },
    }
}

} // verus!

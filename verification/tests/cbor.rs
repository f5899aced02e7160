use gatehouse::cbor::{
    assert_cbor_content_type, Cbor, CborRejection, ContentTypeHeader, DecodeErrorKind,
};

fn text(value: &str) -> ContentTypeHeader {
    ContentTypeHeader::Text(value.to_string())
}

#[test]
fn cbor_content_type_is_accepted() {
    assert!(assert_cbor_content_type(&text("application/cbor")).is_ok());
}

#[test]
fn cbor_content_type_with_parameters_is_accepted() {
    assert!(assert_cbor_content_type(&text("application/cbor; charset=utf-8")).is_ok());
}

#[test]
fn content_type_match_ignores_case() {
    assert!(assert_cbor_content_type(&text("Application/CBOR")).is_ok());
}

#[test]
fn missing_content_type_is_rejected() {
    assert_eq!(
        assert_cbor_content_type(&ContentTypeHeader::Absent),
        Err(CborRejection::ContentTypeMissing)
    );
}

#[test]
fn unreadable_content_type_is_rejected() {
    assert_eq!(
        assert_cbor_content_type(&ContentTypeHeader::Binary),
        Err(CborRejection::ContentTypeInvalid)
    );
}

#[test]
fn other_media_types_are_rejected() {
    assert_eq!(
        assert_cbor_content_type(&text("application/json")),
        Err(CborRejection::ContentTypeInvalid)
    );
    assert_eq!(
        assert_cbor_content_type(&text("text/plain")),
        Err(CborRejection::ContentTypeInvalid)
    );
    assert_eq!(
        assert_cbor_content_type(&text("text/cbor")),
        Err(CborRejection::ContentTypeInvalid)
    );
}

#[test]
fn unparsable_media_type_is_rejected() {
    assert_eq!(
        assert_cbor_content_type(&text("not a media type")),
        Err(CborRejection::ContentTypeInvalid)
    );
    assert_eq!(
        assert_cbor_content_type(&text("")),
        Err(CborRejection::ContentTypeInvalid)
    );
}

#[test]
fn rejection_status_codes() {
    assert_eq!(CborRejection::ContentTypeMissing.status_code(), 415);
    assert_eq!(CborRejection::ContentTypeInvalid.status_code(), 415);
    assert_eq!(CborRejection::BytesRejection.status_code(), 413);
    assert_eq!(
        CborRejection::CiboriumIoError(DecodeErrorKind::Semantic).status_code(),
        422
    );
    assert_eq!(
        CborRejection::CiboriumIoError(DecodeErrorKind::Syntax).status_code(),
        400
    );
    assert_eq!(
        CborRejection::CiboriumIoError(DecodeErrorKind::Io).status_code(),
        400
    );
    assert_eq!(
        CborRejection::CiboriumIoError(DecodeErrorKind::RecursionLimit).status_code(),
        400
    );
}

#[test]
fn cbor_wrapper_carries_its_value() {
    let wrapped = Cbor::from(42u32);
    assert_eq!(*wrapped.get(), 42);
    assert_eq!(wrapped.into_inner(), 42);
}

#[test]
fn cbor_round_trips_through_the_real_codec() {
    // The wrapper's value survives encoding and decoding with the codec the
    // service speaks on the wire.
    let wrapped = Cbor::from((7u32, "seven".to_string()));
    let mut buf: Vec<u8> = Vec::new();
    ciborium::ser::into_writer(wrapped.get(), &mut buf).unwrap();
    let decoded: (u32, String) = ciborium::de::from_reader(buf.as_slice()).unwrap();
    assert_eq!(decoded, (7, "seven".to_string()));
}

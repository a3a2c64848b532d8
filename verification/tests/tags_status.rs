use ipp_encoder::Attribute;
use ipp_encoder::AttributeName;
use ipp_encoder::AttributeValue;
use ipp_encoder::CompressionSupportedKeyword;
use ipp_encoder::DelimiterTag;
use ipp_encoder::IppDateTime;
use ipp_encoder::JobAttribute;
use ipp_encoder::JobState;
use ipp_encoder::OperationID;
use ipp_encoder::PdlOverrideSupportedKeyword;
use ipp_encoder::PrinterState;
use ipp_encoder::StatusCode;
use ipp_encoder::UriAuthenticationSupportedKeyword;
use ipp_encoder::UriSecuritySupportedKeyword;
use ipp_encoder::ValueTag;

#[test]
fn delimiter_tag_codes_round_trip() {
    let tags = [
        DelimiterTag::OperationAttributes,
        DelimiterTag::JobAttributes,
        DelimiterTag::EndOfAttributes,
        DelimiterTag::PrinterAttributes,
        DelimiterTag::UnsupportedAttributes,
    ];
    for t in tags {
        assert_eq!(DelimiterTag::from_code(t.code()), Some(t));
    }
    assert_eq!(DelimiterTag::OperationAttributes.code(), 0x01);
    assert_eq!(DelimiterTag::EndOfAttributes.code(), 0x03);
    assert!(DelimiterTag::from_code(0x06).is_none());
}

#[test]
fn value_tag_codes_round_trip() {
    let tags = [
        ValueTag::Unsupported,
        ValueTag::Integer,
        ValueTag::Boolean,
        ValueTag::Enum,
        ValueTag::DateTime,
        ValueTag::TextWithLanguage,
        ValueTag::TextWithoutLanguage,
        ValueTag::Keyword,
        ValueTag::Uri,
        ValueTag::Charset,
        ValueTag::NaturalLanguage,
        ValueTag::MimeMediaType,
        ValueTag::MemberAttrName,
    ];
    for t in tags {
        assert_eq!(ValueTag::from_code(t.code()), Some(t));
    }
    assert_eq!(ValueTag::Integer.code(), 0x21);
    assert!(ValueTag::from_code(0x11).is_none());
    // the delimiter and value tag spaces are disjoint
    for d in 1u8..=5 {
        assert!(ValueTag::from_code(d).is_none());
    }
}

#[test]
fn operation_and_status_codes_round_trip() {
    assert_eq!(OperationID::PrintJob.code(), 0x0002);
    assert_eq!(OperationID::GetPrinterAttributes.code(), 0x000B);
    assert_eq!(OperationID::from_code(0x000A), Some(OperationID::GetJobs));
    assert!(OperationID::from_code(0x0001).is_none());

    assert_eq!(StatusCode::SuccessfulOk.code(), 0x0000);
    assert_eq!(StatusCode::ServerErrorVersionNotSupported.code(), 0x0503);
    assert_eq!(StatusCode::ServerErrorOperationNotSupported.code(), 0x0501);
    assert_eq!(
        StatusCode::from_code(0x0400),
        Some(StatusCode::ClientErrorBadRequest)
    );
    assert!(StatusCode::from_code(0x0300).is_none());

    assert_eq!(PrinterState::Idle.code(), 3);
    assert_eq!(PrinterState::from_code(4), Some(PrinterState::Processing));
    assert_eq!(JobState::Completed.code(), 9);
    assert_eq!(JobState::from_code(7), Some(JobState::Canceled));
}

#[test]
fn keyword_vocabularies_spell_their_wire_keywords() {
    assert_eq!(UriSecuritySupportedKeyword::NoSecurity.keyword(), "none");
    assert_eq!(UriSecuritySupportedKeyword::TLS.keyword(), "tls");
    assert_eq!(
        UriAuthenticationSupportedKeyword::RequestingUserName.keyword(),
        "requesting-user-name"
    );
    assert_eq!(PdlOverrideSupportedKeyword::NotAttempted.keyword(), "not-attempted");
    assert_eq!(CompressionSupportedKeyword::Gzip.keyword(), "gzip");
}

#[test]
fn datetime_attribute_round_trips_inside_an_attribute() {
    let attr = Attribute {
        tag: ValueTag::DateTime,
        name: AttributeName::Job(JobAttribute::DateTimeAtCreation),
        values: vec![AttributeValue::DateTime(IppDateTime {
            year: 2023,
            month: 12,
            day: 31,
            hour: 23,
            minute: 59,
            second: 59,
            decisecond: 0,
        })],
    };
    let bytes = ipp_encoder::Attribute::to_ipp(&attr);
    let (consumed, decoded) = Attribute::from_ipp(&bytes, 0).unwrap();
    assert_eq!(consumed, bytes.len());
    assert_eq!(decoded.unwrap(), attr);
}

use ipp_encoder::Attribute;
use ipp_encoder::AttributeGroup;
use ipp_encoder::AttributeGroupTable;
use ipp_encoder::AttributeName;
use ipp_encoder::AttributeValue;
use ipp_encoder::DelimiterTag;
use ipp_encoder::IppDateTime;
use ipp_encoder::IppEncode;
use ipp_encoder::IppError;
use ipp_encoder::IppVersion;
use ipp_encoder::JobTemplateAttribute;
use ipp_encoder::Operation;
use ipp_encoder::OperationAttribute;
use ipp_encoder::PrinterAttribute;
use ipp_encoder::TextWithLang;
use ipp_encoder::ValueTag;

fn copies_attribute() -> Attribute {
    Attribute {
        tag: ValueTag::Integer,
        name: AttributeName::JobTemplate(JobTemplateAttribute::Copies),
        values: vec![AttributeValue::Number(42)],
    }
}

#[test]
fn encode_single_integer_attribute_exact_bytes() {
    // value-tag, name-length 6, "copies", value-length 4, 42 big-endian
    let expected: Vec<u8> = vec![
        0x21, 0x00, 0x06, b'c', b'o', b'p', b'i', b'e', b's', 0x00, 0x04, 0x00, 0x00, 0x00, 0x2A,
    ];
    assert_eq!(copies_attribute().to_ipp(), expected);
}

#[test]
fn multi_value_framing_uses_zero_length_names() {
    let attr = Attribute {
        tag: ValueTag::Integer,
        name: AttributeName::JobTemplate(JobTemplateAttribute::PageRanges),
        values: vec![
            AttributeValue::Number(1),
            AttributeValue::Number(2),
            AttributeValue::Number(3),
        ],
    };
    let mut expected: Vec<u8> = Vec::new();
    // leading record: full name of length 11
    expected.extend([0x21, 0x00, 0x0B]);
    expected.extend(*b"page-ranges");
    expected.extend([0x00, 0x04, 0x00, 0x00, 0x00, 0x01]);
    // two additional-value records: name-length 0x0000, no name bytes
    expected.extend([0x21, 0x00, 0x00, 0x00, 0x04, 0x00, 0x00, 0x00, 0x02]);
    expected.extend([0x21, 0x00, 0x00, 0x00, 0x04, 0x00, 0x00, 0x00, 0x03]);
    assert_eq!(attr.to_ipp(), expected);
    assert_eq!(attr.ipp_len(), expected.len());

    let (consumed, decoded) = Attribute::from_ipp(&expected, 0).unwrap();
    assert_eq!(consumed, expected.len());
    assert_eq!(decoded.unwrap(), attr);
}

#[test]
fn attribute_round_trips() {
    let attr = copies_attribute();
    let bytes = attr.to_ipp();
    assert_eq!(attr.ipp_len(), bytes.len());
    let (consumed, decoded) = Attribute::from_ipp(&bytes, 0).unwrap();
    assert_eq!(consumed, bytes.len());
    assert_eq!(decoded.unwrap(), attr);
}

#[test]
fn unsupported_name_round_trips() {
    let attr = Attribute {
        tag: ValueTag::Keyword,
        name: AttributeName::Unsupported(String::from("vendor-custom")),
        values: vec![AttributeValue::TextWithoutLang(String::from("maybe"))],
    };
    let bytes = attr.to_ipp();
    let (_, decoded) = Attribute::from_ipp(&bytes, 0).unwrap();
    assert_eq!(decoded.unwrap(), attr);
}

#[test]
fn text_with_lang_round_trips() {
    let attr = Attribute {
        tag: ValueTag::TextWithLanguage,
        name: AttributeName::Printer(PrinterAttribute::PrinterName),
        values: vec![AttributeValue::TextWithLang(TextWithLang {
            lang: String::from("en"),
            text: String::from("Front Desk"),
        })],
    };
    let bytes = attr.to_ipp();
    assert_eq!(attr.ipp_len(), bytes.len());
    let (_, decoded) = Attribute::from_ipp(&bytes, 0).unwrap();
    assert_eq!(decoded.unwrap(), attr);
}

#[test]
fn non_ascii_string_value_round_trips() {
    let attr = Attribute {
        tag: ValueTag::NameWithoutLanguage,
        name: AttributeName::Unsupported(String::from("location-note")),
        values: vec![AttributeValue::TextWithoutLang(String::from("caf\u{e9} \u{2603}"))],
    };
    let bytes = attr.to_ipp();
    let (_, decoded) = Attribute::from_ipp(&bytes, 0).unwrap();
    assert_eq!(decoded.unwrap(), attr);
}

#[test]
fn datetime_loses_deciseconds_only() {
    let instant = IppDateTime {
        year: 2024,
        month: 7,
        day: 15,
        hour: 13,
        minute: 59,
        second: 58,
        decisecond: 7,
    };
    let bytes = instant.to_ipp();
    assert_eq!(instant.ipp_len(), bytes.len());
    assert_eq!(bytes.len(), 13);
    // second comes before decisecond, which encodes as zero
    assert_eq!(bytes[8], 58);
    assert_eq!(bytes[9], 0);
    // the offset written is +00:00
    assert_eq!(&bytes[10..], [b'+', 0, 0]);
    let (consumed, decoded) = IppDateTime::from_ipp(&bytes, 0).unwrap();
    assert_eq!(consumed, 13);
    assert_eq!(decoded, IppDateTime { decisecond: 0, ..instant });
}

#[test]
fn datetime_decode_applies_negative_offset_to_minute() {
    // local 13:10 at offset -00:30 is UTC minute (10 - 30) mod 60 = 40
    let bytes: Vec<u8> = vec![
        0x00, 0x0B, 0x07, 0xE8, 7, 15, 13, 10, 0, 0, b'-', 0, 30,
    ];
    let (_, decoded) = IppDateTime::from_ipp(&bytes, 0).unwrap();
    assert_eq!(decoded.minute, 40);
}

#[test]
fn primitives_round_trip() {
    let bytes = (-7i32).to_ipp();
    assert_eq!(bytes, vec![0x00, 0x04, 0xFF, 0xFF, 0xFF, 0xF9]);
    assert_eq!(i32::from_ipp(&bytes, 0).unwrap(), (6, -7));
    assert_eq!((-7i32).ipp_len(), 6);

    let bytes = true.to_ipp();
    assert_eq!(bytes, vec![0x00, 0x01, 0x01]);
    assert_eq!(bool::from_ipp(&bytes, 0).unwrap(), (3, true));

    let s = String::from("utf-8");
    let bytes = s.to_ipp();
    assert_eq!(bytes, vec![0x00, 0x05, b'u', b't', b'f', b'-', b'8']);
    assert_eq!(String::from_ipp(&bytes, 0).unwrap(), (7, s));
}

#[test]
fn boolean_byte_outside_zero_one_is_invalid_encoding() {
    let bytes: Vec<u8> = vec![0x00, 0x01, 0x02];
    assert_eq!(bool::from_ipp(&bytes, 0), Err(IppError::InvalidEncoding));
}

#[test]
fn invalid_utf8_is_invalid_encoding() {
    let bytes: Vec<u8> = vec![0x00, 0x02, 0xFF, 0xFE];
    assert_eq!(String::from_ipp(&bytes, 0).unwrap_err(), IppError::InvalidEncoding);
}

#[test]
fn short_buffers_are_malformed() {
    let bytes: Vec<u8> = vec![0x00, 0x04, 0x00];
    assert_eq!(i32::from_ipp(&bytes, 0).unwrap_err(), IppError::MalformedBuffer);
    let bytes: Vec<u8> = vec![0x00, 0x09, b'x'];
    assert_eq!(String::from_ipp(&bytes, 0).unwrap_err(), IppError::MalformedBuffer);
    let bytes: Vec<u8> = vec![0x01, 0x01, 0x00, 0x02];
    assert_eq!(Operation::from_ipp(&bytes, 0).unwrap_err(), IppError::MalformedBuffer);
}

#[test]
fn unknown_value_tag_is_invalid_tag() {
    // 0x99 is neither a delimiter nor a value tag
    let bytes: Vec<u8> = vec![0x99, 0x00, 0x00, 0x00, 0x01, 0x00];
    assert_eq!(Attribute::from_ipp(&bytes, 0).unwrap_err(), IppError::InvalidTag);
}

#[test]
fn group_table_stops_at_lone_end_tag() {
    let bytes: Vec<u8> = vec![0x03];
    let (consumed, table) = AttributeGroupTable::from_ipp(&bytes, 0).unwrap();
    assert_eq!(consumed, 1);
    assert!(table.groups.is_empty());
}

#[test]
fn group_table_rejects_stray_byte_where_delimiter_is_due() {
    let bytes: Vec<u8> = vec![0x07];
    assert_eq!(AttributeGroupTable::from_ipp(&bytes, 0).unwrap_err(), IppError::InvalidTag);
}

fn charset_attribute() -> Attribute {
    Attribute {
        tag: ValueTag::Charset,
        name: AttributeName::Operation(OperationAttribute::AttributesCharset),
        values: vec![AttributeValue::TextWithoutLang(String::from("utf-8"))],
    }
}

#[test]
fn two_group_buffer_decodes_into_two_entries() {
    let table = AttributeGroupTable {
        groups: vec![
            AttributeGroup {
                tag: DelimiterTag::OperationAttributes,
                attributes: vec![charset_attribute()],
            },
            AttributeGroup {
                tag: DelimiterTag::JobAttributes,
                attributes: vec![copies_attribute()],
            },
        ],
    };
    let bytes = table.to_ipp();
    assert_eq!(bytes[0], 0x01);
    assert_eq!(*bytes.last().unwrap(), 0x03);
    let (consumed, decoded) = AttributeGroupTable::from_ipp(&bytes, 0).unwrap();
    assert_eq!(consumed, bytes.len());
    assert_eq!(decoded.groups.len(), 2);
    assert_eq!(decoded.get(DelimiterTag::OperationAttributes).unwrap().attributes, vec![
        charset_attribute()
    ]);
    assert_eq!(decoded.get(DelimiterTag::JobAttributes).unwrap().attributes, vec![
        copies_attribute()
    ]);
    assert!(decoded.get(DelimiterTag::PrinterAttributes).is_none());
}

#[test]
fn canonical_group_order_ignores_held_order() {
    let printer_first = AttributeGroupTable {
        groups: vec![
            AttributeGroup {
                tag: DelimiterTag::PrinterAttributes,
                attributes: vec![copies_attribute()],
            },
            AttributeGroup {
                tag: DelimiterTag::OperationAttributes,
                attributes: vec![charset_attribute()],
            },
        ],
    };
    let operation_first = AttributeGroupTable {
        groups: vec![
            AttributeGroup {
                tag: DelimiterTag::OperationAttributes,
                attributes: vec![charset_attribute()],
            },
            AttributeGroup {
                tag: DelimiterTag::PrinterAttributes,
                attributes: vec![copies_attribute()],
            },
        ],
    };
    let bytes = printer_first.to_ipp();
    assert_eq!(bytes, operation_first.to_ipp());
    // the operation-attributes group (tag 0x01) is emitted first
    assert_eq!(bytes[0], 0x01);
    let printer_tag_pos = bytes.iter().position(|b| *b == 0x04).unwrap();
    assert!(printer_tag_pos > 0);
}

#[test]
fn repeated_group_tag_keeps_the_later_group() {
    let mut bytes: Vec<u8> = Vec::new();
    bytes.push(0x01);
    bytes.extend(charset_attribute().to_ipp());
    bytes.push(0x01);
    bytes.extend(copies_attribute().to_ipp());
    bytes.push(0x03);
    let (_, decoded) = AttributeGroupTable::from_ipp(&bytes, 0).unwrap();
    let group = decoded.get(DelimiterTag::OperationAttributes).unwrap();
    assert_eq!(group.attributes, vec![copies_attribute()]);
}

#[test]
fn operation_round_trips_with_trailing_data() {
    let op = Operation {
        version: IppVersion { major: 1, minor: 1 },
        operation_id_or_status_code: 0x0002,
        request_id: 0xDEAD_BEEF,
        attribute_groups: AttributeGroupTable {
            groups: vec![AttributeGroup {
                tag: DelimiterTag::OperationAttributes,
                attributes: vec![charset_attribute()],
            }],
        },
        data: vec![0x25, 0x21, 0x50, 0x53],
    };
    let bytes = op.to_ipp();
    assert_eq!(op.ipp_len(), bytes.len());
    assert_eq!(&bytes[0..2], [1, 1]);
    let (consumed, decoded) = Operation::from_ipp(&bytes, 0).unwrap();
    // the bytes consumed cover the header and table; the data is the rest
    assert_eq!(consumed, bytes.len() - op.data.len());
    assert_eq!(decoded, op);
}

#[test]
fn unknown_operation_id_round_trips_as_raw_integer() {
    let op = Operation {
        version: IppVersion { major: 1, minor: 1 },
        operation_id_or_status_code: 0x7777,
        request_id: 9,
        attribute_groups: AttributeGroupTable { groups: Vec::new() },
        data: Vec::new(),
    };
    let bytes = op.to_ipp();
    let (_, decoded) = Operation::from_ipp(&bytes, 0).unwrap();
    assert_eq!(decoded.operation_id_or_status_code, 0x7777);
    assert!(decoded.operation_id().is_none());
    assert!(decoded.status_code().is_none());
}

#[test]
fn empty_attribute_encodes_to_nothing() {
    let attr = Attribute {
        tag: ValueTag::Integer,
        name: AttributeName::JobTemplate(JobTemplateAttribute::Copies),
        values: Vec::new(),
    };
    assert!(attr.to_ipp().is_empty());
    assert_eq!(attr.ipp_len(), 0);
}

#[test]
fn names_resolve_and_fall_back() {
    let n = AttributeName::from_str("copies").unwrap();
    assert_eq!(n, AttributeName::JobTemplate(JobTemplateAttribute::Copies));
    assert_eq!(n.text(), "copies");
    assert!(!n.is_empty());

    let n = AttributeName::from_str("fictional-attribute").unwrap();
    assert_eq!(n, AttributeName::Unsupported(String::from("fictional-attribute")));
    assert_eq!(n.text(), "fictional-attribute");

    let n = AttributeName::from_str("").unwrap();
    assert!(n.is_empty());

    let n = AttributeName::from_str("printer-up-time").unwrap();
    assert_eq!(n, AttributeName::Printer(PrinterAttribute::PrinterUpTime));
}

#[test]
fn ipp_len_matches_encoded_length_for_each_entity() {
    let attr = Attribute {
        tag: ValueTag::TextWithLanguage,
        name: AttributeName::Printer(PrinterAttribute::PrinterName),
        values: vec![
            AttributeValue::TextWithLang(TextWithLang {
                lang: String::from("en"),
                text: String::from("A printer"),
            }),
            AttributeValue::TextWithLang(TextWithLang {
                lang: String::from("de"),
                text: String::from("Ein Drucker"),
            }),
        ],
    };
    assert_eq!(attr.ipp_len(), attr.to_ipp().len());

    let table = AttributeGroupTable {
        groups: vec![AttributeGroup {
            tag: DelimiterTag::PrinterAttributes,
            attributes: vec![copies_attribute()],
        }],
    };
    assert_eq!(table.ipp_len(), table.to_ipp().len());

    let twl = TextWithLang { lang: String::from("en"), text: String::from("hi") };
    assert_eq!(twl.ipp_len(), twl.to_ipp().len());
}

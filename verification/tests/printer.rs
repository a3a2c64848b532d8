use ipp_encoder::Attribute;
use ipp_encoder::AttributeGroup;
use ipp_encoder::AttributeGroupTable;
use ipp_encoder::AttributeName;
use ipp_encoder::AttributeValue;
use ipp_encoder::DelimiterTag;
use ipp_encoder::IppDateTime;
use ipp_encoder::IppEncode;
use ipp_encoder::IppPrinter;
use ipp_encoder::IppVersion;
use ipp_encoder::Operation;
use ipp_encoder::OperationAttribute;
use ipp_encoder::OperationID;
use ipp_encoder::PrinterAttribute;
use ipp_encoder::StatusCode;
use ipp_encoder::ValueTag;
use ipp_encoder::printer::uptime_seconds;

fn test_printer() -> IppPrinter {
    IppPrinter::new("ipp://localhost:6363/", 6363, "Verified Printer")
}

fn test_now() -> IppDateTime {
    IppDateTime { year: 2024, month: 7, day: 15, hour: 13, minute: 5, second: 0, decisecond: 0 }
}

fn request(major: u8, operation: u16, attributes: Vec<Attribute>) -> Operation {
    Operation {
        version: IppVersion { major, minor: 1 },
        operation_id_or_status_code: operation,
        request_id: 77,
        attribute_groups: AttributeGroupTable {
            groups: vec![AttributeGroup {
                tag: DelimiterTag::OperationAttributes,
                attributes,
            }],
        },
        data: Vec::new(),
    }
}

fn requested_attributes(names: &[&str]) -> Attribute {
    Attribute {
        tag: ValueTag::Keyword,
        name: AttributeName::Operation(OperationAttribute::RequestedAttributes),
        values: names
            .iter()
            .map(|n| AttributeValue::TextWithoutLang(String::from(*n)))
            .collect(),
    }
}

#[test]
fn wrong_major_version_yields_version_not_supported() {
    let printer = test_printer();
    let req = request(2, OperationID::GetPrinterAttributes.code(), Vec::new());
    let res = printer.respond(&req, test_now(), 1000);
    assert_eq!(
        res.operation_id_or_status_code,
        StatusCode::ServerErrorVersionNotSupported.code()
    );
    // only the operation-attributes group is populated
    assert_eq!(res.attribute_groups.groups.len(), 1);
    assert_eq!(res.attribute_groups.groups[0].tag, DelimiterTag::OperationAttributes);
    assert_eq!(res.request_id, 77);
    assert_eq!(res.version, IppVersion { major: 1, minor: 1 });
}

#[test]
fn unsupported_operation_yields_operation_not_supported() {
    let printer = test_printer();
    let req = request(1, OperationID::CreateJob.code(), Vec::new());
    let res = printer.respond(&req, test_now(), 1000);
    assert_eq!(
        res.operation_id_or_status_code,
        StatusCode::ServerErrorOperationNotSupported.code()
    );
    assert_eq!(res.attribute_groups.groups.len(), 1);
}

#[test]
fn requested_attributes_are_partitioned() {
    let printer = test_printer();
    let req = request(
        1,
        OperationID::GetPrinterAttributes.code(),
        vec![requested_attributes(&["printer-name", "imaginary-thing", "queued-job-count"])],
    );
    let res = printer.respond(&req, test_now(), 1000);
    assert_eq!(res.operation_id_or_status_code, StatusCode::SuccessfulOk.code());

    let printer_group = res.attribute_groups.get(DelimiterTag::PrinterAttributes).unwrap();
    assert_eq!(printer_group.attributes.len(), 2);
    assert_eq!(
        printer_group.attributes[0].name,
        AttributeName::Printer(PrinterAttribute::PrinterName)
    );
    assert_eq!(
        printer_group.attributes[1].name,
        AttributeName::Printer(PrinterAttribute::QueuedJobCount)
    );
    assert_eq!(printer_group.attributes[1].values, vec![AttributeValue::Number(0)]);

    let unsupported = res.attribute_groups.get(DelimiterTag::UnsupportedAttributes).unwrap();
    assert_eq!(unsupported.attributes.len(), 1);
    assert_eq!(
        unsupported.attributes[0].name,
        AttributeName::Unsupported(String::from("imaginary-thing"))
    );
    assert_eq!(unsupported.attributes[0].tag, ValueTag::Unsupported);
    assert_eq!(
        unsupported.attributes[0].values,
        vec![AttributeValue::TextWithoutLang(String::from("unsupported"))]
    );
}

#[test]
fn known_printer_attribute_without_provider_is_unsupported() {
    // printer-location parses as a printer attribute, but this printer does
    // not provide it, so it lands in the unsupported group
    let printer = test_printer();
    let req = request(
        1,
        OperationID::GetPrinterAttributes.code(),
        vec![requested_attributes(&["printer-location"])],
    );
    let res = printer.respond(&req, test_now(), 1000);
    let unsupported = res.attribute_groups.get(DelimiterTag::UnsupportedAttributes).unwrap();
    assert_eq!(unsupported.attributes.len(), 1);
    let printer_group = res.attribute_groups.get(DelimiterTag::PrinterAttributes).unwrap();
    assert!(printer_group.attributes.is_empty());
}

#[test]
fn request_without_requested_attributes_gets_no_printer_group() {
    let printer = test_printer();
    let req = request(1, OperationID::ValidateJob.code(), Vec::new());
    let res = printer.respond(&req, test_now(), 1000);
    assert_eq!(res.operation_id_or_status_code, StatusCode::SuccessfulOk.code());
    assert!(res.attribute_groups.get(DelimiterTag::PrinterAttributes).is_none());
    assert!(res.attribute_groups.get(DelimiterTag::UnsupportedAttributes).is_none());
    let op_group = res.attribute_groups.get(DelimiterTag::OperationAttributes).unwrap();
    assert_eq!(op_group.attributes.len(), 3);
    assert_eq!(
        op_group.attributes[0].name,
        AttributeName::Operation(OperationAttribute::PrinterUri)
    );
}

#[test]
fn uptime_and_current_time_attributes_use_given_clock() {
    let printer = test_printer();
    let up = printer.printer_up_time(printer.started_at + 125);
    assert_eq!(up.values, vec![AttributeValue::Number(125)]);
    let now = test_now();
    let cur = printer.printer_current_time(now);
    assert_eq!(cur.values, vec![AttributeValue::DateTime(now)]);
    assert_eq!(cur.tag, ValueTag::DateTime);
}

#[test]
fn uptime_clamps_and_never_goes_negative() {
    assert_eq!(uptime_seconds(100, 40), 0);
    assert_eq!(uptime_seconds(100, 100), 0);
    assert_eq!(uptime_seconds(0, i64::MAX), i32::MAX);
    assert_eq!(uptime_seconds(-50, 50), 100);
}

#[test]
fn handle_round_trips_over_the_wire() {
    let printer = test_printer();
    let req = request(
        1,
        OperationID::GetPrinterAttributes.code(),
        vec![requested_attributes(&["charset-configured"])],
    );
    let bytes = req.to_ipp();
    let (response_bytes, document) = printer.handle(&bytes).unwrap();
    assert!(document.is_none());
    let (_, response) = Operation::from_ipp(&response_bytes, 0).unwrap();
    assert_eq!(response.operation_id_or_status_code, StatusCode::SuccessfulOk.code());
    assert_eq!(response.request_id, 77);
    let printer_group = response.attribute_groups.get(DelimiterTag::PrinterAttributes).unwrap();
    assert_eq!(
        printer_group.attributes[0].values,
        vec![AttributeValue::TextWithoutLang(String::from("utf-8"))]
    );
}

#[test]
fn handle_hands_back_the_print_job_document() {
    let printer = test_printer();
    let mut req = request(1, OperationID::PrintJob.code(), Vec::new());
    req.data = vec![b'%', b'!', b'P', b'S'];
    let bytes = req.to_ipp();
    let (response_bytes, document) = printer.handle(&bytes).unwrap();
    assert_eq!(document.unwrap(), vec![b'%', b'!', b'P', b'S']);
    let (_, response) = Operation::from_ipp(&response_bytes, 0).unwrap();
    assert_eq!(response.operation_id_or_status_code, StatusCode::SuccessfulOk.code());
}

#[test]
fn handle_rejects_malformed_buffers() {
    let printer = test_printer();
    let bytes: Vec<u8> = vec![0x01, 0x01, 0x00];
    assert!(printer.handle(&bytes).is_err());
}

#[test]
fn version_two_over_the_wire_gets_version_not_supported() {
    let printer = test_printer();
    let req = request(2, OperationID::GetPrinterAttributes.code(), Vec::new());
    let (response_bytes, document) = printer.handle(&req.to_ipp()).unwrap();
    assert!(document.is_none());
    let (_, response) = Operation::from_ipp(&response_bytes, 0).unwrap();
    assert_eq!(
        response.status_code().unwrap(),
        StatusCode::ServerErrorVersionNotSupported
    );
    assert_eq!(response.attribute_groups.groups.len(), 1);
    assert_eq!(response.attribute_groups.groups[0].tag, DelimiterTag::OperationAttributes);
}

#[test]
fn advertised_operations_match_the_support_check() {
    let printer = test_printer();
    let advertised = printer.operation_supported();
    for value in &advertised.values {
        if let AttributeValue::Number(code) = value {
            assert!(printer.operation_is_supported(*code as u16));
        } else {
            panic!("operations-supported must hold numeric codes");
        }
    }
    assert!(!printer.operation_is_supported(OperationID::CreateJob.code()));
    assert!(!printer.operation_is_supported(0x7777));
}

//! The request dispatch of a small IPP printer: version and
//! operation-support checks, resolution of requested printer attributes into
//! supported and unsupported sets, and assembly of the response operation.
//! The printer's clock is read through trusted wrappers; everything decided
//! from what the clock returned is verified for every possible reading.

use vstd::prelude::*;
use vstd::string::StringExecFns;
use chrono::{Datelike, Timelike};
use crate::attribute::{Attribute, AttributeView};
use crate::attribute_group::{attrs_model, AttributeGroup, AttributeGroupTable, GroupView};
use crate::attribute_value::{AttributeValue, ValueView};
use crate::datetime::IppDateTime;
use crate::error::IppError;
use crate::keywords::{CompressionSupportedKeyword, PdlOverrideSupportedKeyword,
    PrinterStateReasonKeyword, UriAuthenticationSupportedKeyword, UriSecuritySupportedKeyword};
use crate::names::{AttributeName, NameView, OperationAttribute, PrinterAttribute};
use crate::operation::{dec_op, enc_op, IppVersion, Operation, OperationView};
use crate::status::{OperationID, PrinterState, StatusCode};
use crate::tags::{DelimiterTag, ValueTag};
use crate::text_with_lang::{TextWithLang, TextWithLangView};
use crate::traits::IppEncode;

verus! {

/// A printer: identity and capability fields fixed at construction, plus
/// the moment it started and the number of queued jobs. A server that
/// mutates the queue count after startup must guard the whole value with a
/// lock; everything here reads it only.
#[derive(Debug, Clone)]
pub struct IppPrinter {
    pub uri: String,
    pub port: u16,
    pub name: String,
    pub state: PrinterState,
    /// Unix seconds when the printer was constructed, for printer-up-time.
    pub started_at: i64,
    pub queued_jobs: usize,
}

/// Relies on `chrono::Utc::now` and the `Datelike`/`Timelike` accessors:
/// month runs 1 to 12, day 1 to 31, hour below 24, minute and second below
/// 60, and the sub-second milliseconds stay below 2000 even across a leap
/// second.
#[verifier::external_body]
fn utc_now_raw() -> (r: (i32, u32, u32, u32, u32, u32, u32))
    ensures
        1 <= r.1 <= 12,
        1 <= r.2 <= 31,
        r.3 < 24,
        r.4 < 60,
        r.5 < 60,
        r.6 < 2000,
{
    let n = chrono::Utc::now();
    (n.year(), n.month(), n.day(), n.hour(), n.minute(), n.second(), n.timestamp_subsec_millis())
}

/// Relies on `chrono::Utc::now` and `DateTime::timestamp`: seconds since the
/// Unix epoch. Nothing is promised of a clock reading.
#[verifier::external_body]
pub fn unix_now() -> (r: i64)
{
    chrono::Utc::now().timestamp()
}

/// The current UTC instant as a date-time value. The fields come from the
/// clock, so nothing is known of them beyond their documented ranges.
pub fn current_datetime() -> (r: IppDateTime)
    ensures
        crate::datetime::wf_datetime(r),
{
    let (year, month, day, hour, minute, second, millis) = utc_now_raw();
    let ds = millis / 100;
    IppDateTime {
        year: #[verifier::truncate] (year as u16),
        month: month as u8,
        day: day as u8,
        hour: hour as u8,
        minute: minute as u8,
        second: second as u8,
        decisecond: if ds > 9 {
            9
        } else {
            ds as u8
        },
    }
}

/// Seconds from `started` to `now`, clamped into a 32-bit value and never
/// negative: a clock that moved backwards reads as zero uptime.
pub open spec fn spec_uptime(started: i64, now: i64) -> i32 {
    if now < started {
        0
    } else if now - started > 0x7fff_ffff {
        i32::MAX
    } else {
        (now - started) as i32
    }
}

/// Seconds from `started` to `now`, clamped into a 32-bit value and never
/// negative: a clock that moved backwards reads as zero uptime.
pub fn uptime_seconds(started: i64, now: i64) -> (r: i32)
    ensures
        r == spec_uptime(started, now),
{
    if now < started {
        0
    } else {
        let d = (now as i128) - (started as i128);
        if d > 0x7fff_ffffi128 {
            i32::MAX
        } else {
            d as i32
        }
    }
}

/// The operations the printer implements: exactly those that
/// `operation_supported` advertises.
pub open spec fn supported_operation_code(code: u16) -> bool {
    ||| code == OperationID::PrintJob.spec_code()
    ||| code == OperationID::ValidateJob.spec_code()
    ||| code == OperationID::CancelJob.spec_code()
    ||| code == OperationID::GetPrinterAttributes.spec_code()
    ||| code == OperationID::GetJobAttributes.spec_code()
    ||| code == OperationID::GetJobs.spec_code()
}

impl IppPrinter {
    /// A printer listening at `uri` on `port`, idle, with an empty queue,
    /// started now.
    pub fn new(uri: &str, port: u16, name: &str) -> (r: IppPrinter)
        ensures
            r.uri@ == uri@,
            r.port == port,
            r.name@ == name@,
            r.state == PrinterState::Idle,
            r.queued_jobs == 0,
    {
        IppPrinter {
            uri: uri.to_owned(),
            port,
            name: name.to_owned(),
            state: PrinterState::Idle,
            started_at: unix_now(),
            queued_jobs: 0,
        }
    }

    /// Whether `code` names an operation this printer implements.
    pub fn operation_is_supported(&self, code: u16) -> (r: bool)
        ensures
            r == supported_operation_code(code),
    {
        code == 0x0002 || code == 0x0004 || code == 0x0008 || code == 0x000b || code == 0x0009
            || code == 0x000a
    }

    /// printer-up-time: whole seconds since the printer started, given the
    /// clock's current reading.
    pub open spec fn spec_printer_up_time(self, now_unix: i64) -> AttributeView {
        AttributeView {
            tag: ValueTag::Integer,
            name: NameView::Printer(PrinterAttribute::PrinterUpTime),
            values: seq![ValueView::Number(spec_uptime(self.started_at, now_unix))],
        }
    }

    /// printer-up-time: whole seconds since the printer started.
    pub fn printer_up_time(&self, now_unix: i64) -> (r: Attribute)
        ensures
            r.model() == self.spec_printer_up_time(now_unix),
    {
        let r = Attribute {
            tag: ValueTag::Integer,
            name: AttributeName::Printer(PrinterAttribute::PrinterUpTime),
            values: vec![AttributeValue::Number(uptime_seconds(self.started_at, now_unix))],
        };
        assert(r.model().values =~= self.spec_printer_up_time(now_unix).values);
        assert(r.model() =~= self.spec_printer_up_time(now_unix));
        r
    }

    /// printer-current-time: the clock's current reading as a date-time.
    pub open spec fn spec_printer_current_time(self, now: IppDateTime) -> AttributeView {
        AttributeView {
            tag: ValueTag::DateTime,
            name: NameView::Printer(PrinterAttribute::PrinterCurrentTime),
            values: seq![ValueView::DateTime(now)],
        }
    }

    /// printer-current-time: the clock's current reading as a date-time.
    pub fn printer_current_time(&self, now: IppDateTime) -> (r: Attribute)
        ensures
            r.model() == self.spec_printer_current_time(now),
    {
        let r = Attribute {
            tag: ValueTag::DateTime,
            name: AttributeName::Printer(PrinterAttribute::PrinterCurrentTime),
            values: vec![AttributeValue::DateTime(now)],
        };
        assert(r.model().values =~= self.spec_printer_current_time(now).values);
        assert(r.model() =~= self.spec_printer_current_time(now));
        r
    }


    /// The protocol versions this printer speaks.
    pub open spec fn spec_ipp_printer_versions_supported(self) -> AttributeView {
        AttributeView {
            tag: ValueTag::Keyword,
            name: NameView::Printer(PrinterAttribute::IppVersionsSupported),
            values: seq![ValueView::TextWithoutLang("1.1"@)],
        }
    }

    /// The protocol versions this printer speaks.
    pub fn ipp_printer_versions_supported(&self) -> (r: Attribute)
        ensures
            r.model() == self.spec_ipp_printer_versions_supported(),
    {
        let r = Attribute {
            tag: ValueTag::Keyword,
            name: AttributeName::Printer(PrinterAttribute::IppVersionsSupported),
            values: vec![
                AttributeValue::TextWithoutLang(String::from_str("1.1")),
            ],
        };
        assert(r.model().values =~= self.spec_ipp_printer_versions_supported().values);
        assert(r.model() =~= self.spec_ipp_printer_versions_supported());
        r
    }

    /// The URI this printer serves.
    pub open spec fn spec_printer_uri_supported(self) -> AttributeView {
        AttributeView {
            tag: ValueTag::Uri,
            name: NameView::Printer(PrinterAttribute::PrinterUriSupported),
            values: seq![ValueView::TextWithoutLang(self.uri@)],
        }
    }

    /// The URI this printer serves.
    pub fn printer_uri_supported(&self) -> (r: Attribute)
        ensures
            r.model() == self.spec_printer_uri_supported(),
    {
        let r = Attribute {
            tag: ValueTag::Uri,
            name: AttributeName::Printer(PrinterAttribute::PrinterUriSupported),
            values: vec![
                AttributeValue::TextWithoutLang(self.uri.clone()),
            ],
        };
        assert(r.model().values =~= self.spec_printer_uri_supported().values);
        assert(r.model() =~= self.spec_printer_uri_supported());
        r
    }

    /// The security the printer URI offers: none.
    pub open spec fn spec_uri_security_supported(self) -> AttributeView {
        AttributeView {
            tag: ValueTag::Keyword,
            name: NameView::Printer(PrinterAttribute::UriSecuritySupported),
            values: seq![ValueView::TextWithoutLang(UriSecuritySupportedKeyword::NoSecurity.spec_keyword())],
        }
    }

    /// The security the printer URI offers: none.
    pub fn uri_security_supported(&self) -> (r: Attribute)
        ensures
            r.model() == self.spec_uri_security_supported(),
    {
        let r = Attribute {
            tag: ValueTag::Keyword,
            name: AttributeName::Printer(PrinterAttribute::UriSecuritySupported),
            values: vec![
                AttributeValue::TextWithoutLang(UriSecuritySupportedKeyword::NoSecurity.keyword().to_owned()),
            ],
        };
        assert(r.model().values =~= self.spec_uri_security_supported().values);
        assert(r.model() =~= self.spec_uri_security_supported());
        r
    }

    /// The authentication the printer URI asks for: none.
    pub open spec fn spec_uri_authentication_supported(self) -> AttributeView {
        AttributeView {
            tag: ValueTag::Keyword,
            name: NameView::Printer(PrinterAttribute::UriAuthenticationSupported),
            values: seq![ValueView::TextWithoutLang(UriAuthenticationSupportedKeyword::NoAuthentication.spec_keyword())],
        }
    }

    /// The authentication the printer URI asks for: none.
    pub fn uri_authentication_supported(&self) -> (r: Attribute)
        ensures
            r.model() == self.spec_uri_authentication_supported(),
    {
        let r = Attribute {
            tag: ValueTag::Keyword,
            name: AttributeName::Printer(PrinterAttribute::UriAuthenticationSupported),
            values: vec![
                AttributeValue::TextWithoutLang(UriAuthenticationSupportedKeyword::NoAuthentication.keyword().to_owned()),
            ],
        };
        assert(r.model().values =~= self.spec_uri_authentication_supported().values);
        assert(r.model() =~= self.spec_uri_authentication_supported());
        r
    }

    /// The printer's name, as language-tagged text.
    pub open spec fn spec_printer_name(self) -> AttributeView {
        AttributeView {
            tag: ValueTag::NameWithLanguage,
            name: NameView::Printer(PrinterAttribute::PrinterName),
            values: seq![ValueView::TextWithLang(TextWithLangView { lang: "en"@, text: self.name@ })],
        }
    }

    /// The printer's name, as language-tagged text.
    pub fn printer_name(&self) -> (r: Attribute)
        ensures
            r.model() == self.spec_printer_name(),
    {
        let r = Attribute {
            tag: ValueTag::NameWithLanguage,
            name: AttributeName::Printer(PrinterAttribute::PrinterName),
            values: vec![
                AttributeValue::TextWithLang(TextWithLang { lang: String::from_str("en"), text: self.name.clone() }),
            ],
        };
        assert(r.model().values =~= self.spec_printer_name().values);
        assert(r.model() =~= self.spec_printer_name());
        r
    }

    /// Why the printer is in its state: no reasons.
    pub open spec fn spec_printer_state_reasons(self) -> AttributeView {
        AttributeView {
            tag: ValueTag::Keyword,
            name: NameView::Printer(PrinterAttribute::PrinterStateReasons),
            values: seq![ValueView::TextWithoutLang(PrinterStateReasonKeyword::NoReasons.spec_keyword())],
        }
    }

    /// Why the printer is in its state: no reasons.
    pub fn printer_state_reasons(&self) -> (r: Attribute)
        ensures
            r.model() == self.spec_printer_state_reasons(),
    {
        let r = Attribute {
            tag: ValueTag::Keyword,
            name: AttributeName::Printer(PrinterAttribute::PrinterStateReasons),
            values: vec![
                AttributeValue::TextWithoutLang(PrinterStateReasonKeyword::NoReasons.keyword().to_owned()),
            ],
        };
        assert(r.model().values =~= self.spec_printer_state_reasons().values);
        assert(r.model() =~= self.spec_printer_state_reasons());
        r
    }

    /// The printer's current state, as its numeric code.
    pub open spec fn spec_printer_state(self) -> AttributeView {
        AttributeView {
            tag: ValueTag::Enum,
            name: NameView::Printer(PrinterAttribute::PrinterState),
            values: seq![ValueView::Number(self.state.spec_code() as i32)],
        }
    }

    /// The printer's current state, as its numeric code.
    pub fn printer_state(&self) -> (r: Attribute)
        ensures
            r.model() == self.spec_printer_state(),
    {
        let r = Attribute {
            tag: ValueTag::Enum,
            name: AttributeName::Printer(PrinterAttribute::PrinterState),
            values: vec![
                AttributeValue::Number(self.state.code() as i32),
            ],
        };
        assert(r.model().values =~= self.spec_printer_state().values);
        assert(r.model() =~= self.spec_printer_state());
        r
    }

    /// The operations this printer implements, as numeric codes.
    pub open spec fn spec_operation_supported(self) -> AttributeView {
        AttributeView {
            tag: ValueTag::Enum,
            name: NameView::Printer(PrinterAttribute::OperationsSupported),
            values: seq![ValueView::Number(OperationID::PrintJob.spec_code() as i32), ValueView::Number(OperationID::ValidateJob.spec_code() as i32), ValueView::Number(OperationID::CancelJob.spec_code() as i32), ValueView::Number(OperationID::GetPrinterAttributes.spec_code() as i32), ValueView::Number(OperationID::GetJobAttributes.spec_code() as i32), ValueView::Number(OperationID::GetJobs.spec_code() as i32)],
        }
    }

    /// The operations this printer implements, as numeric codes.
    pub fn operation_supported(&self) -> (r: Attribute)
        ensures
            r.model() == self.spec_operation_supported(),
    {
        let r = Attribute {
            tag: ValueTag::Enum,
            name: AttributeName::Printer(PrinterAttribute::OperationsSupported),
            values: vec![
                AttributeValue::Number(OperationID::PrintJob.code() as i32),
                AttributeValue::Number(OperationID::ValidateJob.code() as i32),
                AttributeValue::Number(OperationID::CancelJob.code() as i32),
                AttributeValue::Number(OperationID::GetPrinterAttributes.code() as i32),
                AttributeValue::Number(OperationID::GetJobAttributes.code() as i32),
                AttributeValue::Number(OperationID::GetJobs.code() as i32),
            ],
        };
        assert(r.model().values =~= self.spec_operation_supported().values);
        assert(r.model() =~= self.spec_operation_supported());
        r
    }

    /// The charset of this printer's own text: UTF-8.
    pub open spec fn spec_charset_configured(self) -> AttributeView {
        AttributeView {
            tag: ValueTag::Charset,
            name: NameView::Printer(PrinterAttribute::CharsetConfigured),
            values: seq![ValueView::TextWithoutLang("utf-8"@)],
        }
    }

    /// The charset of this printer's own text: UTF-8.
    pub fn charset_configured(&self) -> (r: Attribute)
        ensures
            r.model() == self.spec_charset_configured(),
    {
        let r = Attribute {
            tag: ValueTag::Charset,
            name: AttributeName::Printer(PrinterAttribute::CharsetConfigured),
            values: vec![
                AttributeValue::TextWithoutLang(String::from_str("utf-8")),
            ],
        };
        assert(r.model().values =~= self.spec_charset_configured().values);
        assert(r.model() =~= self.spec_charset_configured());
        r
    }

    /// The charsets the printer accepts: UTF-8.
    pub open spec fn spec_charset_supported(self) -> AttributeView {
        AttributeView {
            tag: ValueTag::Charset,
            name: NameView::Printer(PrinterAttribute::CharsetSupported),
            values: seq![ValueView::TextWithoutLang("utf-8"@)],
        }
    }

    /// The charsets the printer accepts: UTF-8.
    pub fn charset_supported(&self) -> (r: Attribute)
        ensures
            r.model() == self.spec_charset_supported(),
    {
        let r = Attribute {
            tag: ValueTag::Charset,
            name: AttributeName::Printer(PrinterAttribute::CharsetSupported),
            values: vec![
                AttributeValue::TextWithoutLang(String::from_str("utf-8")),
            ],
        };
        assert(r.model().values =~= self.spec_charset_supported().values);
        assert(r.model() =~= self.spec_charset_supported());
        r
    }

    /// The printer's own natural language.
    pub open spec fn spec_natural_language_configured(self) -> AttributeView {
        AttributeView {
            tag: ValueTag::NaturalLanguage,
            name: NameView::Printer(PrinterAttribute::NaturalLanguageConfigured),
            values: seq![ValueView::TextWithoutLang("en-US"@)],
        }
    }

    /// The printer's own natural language.
    pub fn natural_language_configured(&self) -> (r: Attribute)
        ensures
            r.model() == self.spec_natural_language_configured(),
    {
        let r = Attribute {
            tag: ValueTag::NaturalLanguage,
            name: AttributeName::Printer(PrinterAttribute::NaturalLanguageConfigured),
            values: vec![
                AttributeValue::TextWithoutLang(String::from_str("en-US")),
            ],
        };
        assert(r.model().values =~= self.spec_natural_language_configured().values);
        assert(r.model() =~= self.spec_natural_language_configured());
        r
    }

    /// The natural languages the printer can answer in.
    pub open spec fn spec_generated_natural_language_supported(self) -> AttributeView {
        AttributeView {
            tag: ValueTag::NaturalLanguage,
            name: NameView::Printer(PrinterAttribute::GeneratedNaturalLanguageSupported),
            values: seq![ValueView::TextWithoutLang("en-US"@)],
        }
    }

    /// The natural languages the printer can answer in.
    pub fn generated_natural_language_supported(&self) -> (r: Attribute)
        ensures
            r.model() == self.spec_generated_natural_language_supported(),
    {
        let r = Attribute {
            tag: ValueTag::NaturalLanguage,
            name: AttributeName::Printer(PrinterAttribute::GeneratedNaturalLanguageSupported),
            values: vec![
                AttributeValue::TextWithoutLang(String::from_str("en-US")),
            ],
        };
        assert(r.model().values =~= self.spec_generated_natural_language_supported().values);
        assert(r.model() =~= self.spec_generated_natural_language_supported());
        r
    }

    /// The document format assumed when none is named.
    pub open spec fn spec_document_format_default(self) -> AttributeView {
        AttributeView {
            tag: ValueTag::MimeMediaType,
            name: NameView::Printer(PrinterAttribute::DocumentFormatDefault),
            values: seq![ValueView::TextWithoutLang("application/postscript"@)],
        }
    }

    /// The document format assumed when none is named.
    pub fn document_format_default(&self) -> (r: Attribute)
        ensures
            r.model() == self.spec_document_format_default(),
    {
        let r = Attribute {
            tag: ValueTag::MimeMediaType,
            name: AttributeName::Printer(PrinterAttribute::DocumentFormatDefault),
            values: vec![
                AttributeValue::TextWithoutLang(String::from_str("application/postscript")),
            ],
        };
        assert(r.model().values =~= self.spec_document_format_default().values);
        assert(r.model() =~= self.spec_document_format_default());
        r
    }

    /// The document formats the printer accepts.
    pub open spec fn spec_document_format_supported(self) -> AttributeView {
        AttributeView {
            tag: ValueTag::MimeMediaType,
            name: NameView::Printer(PrinterAttribute::DocumentFormatSupported),
            values: seq![ValueView::TextWithoutLang("text/html"@), ValueView::TextWithoutLang("text/plain"@), ValueView::TextWithoutLang("application/vnd.hp-PCL"@), ValueView::TextWithoutLang("application/octet-stream"@), ValueView::TextWithoutLang("application/pdf"@), ValueView::TextWithoutLang("application/postscript"@)],
        }
    }

    /// The document formats the printer accepts.
    pub fn document_format_supported(&self) -> (r: Attribute)
        ensures
            r.model() == self.spec_document_format_supported(),
    {
        let r = Attribute {
            tag: ValueTag::MimeMediaType,
            name: AttributeName::Printer(PrinterAttribute::DocumentFormatSupported),
            values: vec![
                AttributeValue::TextWithoutLang(String::from_str("text/html")),
                AttributeValue::TextWithoutLang(String::from_str("text/plain")),
                AttributeValue::TextWithoutLang(String::from_str("application/vnd.hp-PCL")),
                AttributeValue::TextWithoutLang(String::from_str("application/octet-stream")),
                AttributeValue::TextWithoutLang(String::from_str("application/pdf")),
                AttributeValue::TextWithoutLang(String::from_str("application/postscript")),
            ],
        };
        assert(r.model().values =~= self.spec_document_format_supported().values);
        assert(r.model() =~= self.spec_document_format_supported());
        r
    }

    /// Whether jobs are accepted; this printer always accepts.
    pub open spec fn spec_printer_is_accepting_jobs(self) -> AttributeView {
        AttributeView {
            tag: ValueTag::Boolean,
            name: NameView::Printer(PrinterAttribute::PrinterIsAcceptingJobs),
            values: seq![ValueView::Boolean(true)],
        }
    }

    /// Whether jobs are accepted; this printer always accepts.
    pub fn printer_is_accepting_jobs(&self) -> (r: Attribute)
        ensures
            r.model() == self.spec_printer_is_accepting_jobs(),
    {
        let r = Attribute {
            tag: ValueTag::Boolean,
            name: AttributeName::Printer(PrinterAttribute::PrinterIsAcceptingJobs),
            values: vec![
                AttributeValue::Boolean(true),
            ],
        };
        assert(r.model().values =~= self.spec_printer_is_accepting_jobs().values);
        assert(r.model() =~= self.spec_printer_is_accepting_jobs());
        r
    }

    /// How many jobs wait in the queue.
    pub open spec fn spec_queued_job_count(self) -> AttributeView {
        AttributeView {
            tag: ValueTag::Integer,
            name: NameView::Printer(PrinterAttribute::QueuedJobCount),
            values: seq![ValueView::Number(self.queued_jobs as i32)],
        }
    }

    /// How many jobs wait in the queue.
    pub fn queued_job_count(&self) -> (r: Attribute)
        ensures
            r.model() == self.spec_queued_job_count(),
    {
        let r = Attribute {
            tag: ValueTag::Integer,
            name: AttributeName::Printer(PrinterAttribute::QueuedJobCount),
            values: vec![
                AttributeValue::Number(#[verifier::truncate] (self.queued_jobs as i32)),
            ],
        };
        assert(r.model().values =~= self.spec_queued_job_count().values);
        assert(r.model() =~= self.spec_queued_job_count());
        r
    }

    /// Whether the printer overrides document PDL instructions.
    pub open spec fn spec_pdl_override_supported(self) -> AttributeView {
        AttributeView {
            tag: ValueTag::Keyword,
            name: NameView::Printer(PrinterAttribute::PdlOverrideSupported),
            values: seq![ValueView::TextWithoutLang(PdlOverrideSupportedKeyword::NotAttempted.spec_keyword())],
        }
    }

    /// Whether the printer overrides document PDL instructions.
    pub fn pdl_override_supported(&self) -> (r: Attribute)
        ensures
            r.model() == self.spec_pdl_override_supported(),
    {
        let r = Attribute {
            tag: ValueTag::Keyword,
            name: AttributeName::Printer(PrinterAttribute::PdlOverrideSupported),
            values: vec![
                AttributeValue::TextWithoutLang(PdlOverrideSupportedKeyword::NotAttempted.keyword().to_owned()),
            ],
        };
        assert(r.model().values =~= self.spec_pdl_override_supported().values);
        assert(r.model() =~= self.spec_pdl_override_supported());
        r
    }

    /// The compressions the printer accepts.
    pub open spec fn spec_compression_supported(self) -> AttributeView {
        AttributeView {
            tag: ValueTag::Keyword,
            name: NameView::Printer(PrinterAttribute::CompressionSupported),
            values: seq![ValueView::TextWithoutLang(CompressionSupportedKeyword::Deflate.spec_keyword()), ValueView::TextWithoutLang(CompressionSupportedKeyword::Gzip.spec_keyword())],
        }
    }

    /// The compressions the printer accepts.
    pub fn compression_supported(&self) -> (r: Attribute)
        ensures
            r.model() == self.spec_compression_supported(),
    {
        let r = Attribute {
            tag: ValueTag::Keyword,
            name: AttributeName::Printer(PrinterAttribute::CompressionSupported),
            values: vec![
                AttributeValue::TextWithoutLang(CompressionSupportedKeyword::Deflate.keyword().to_owned()),
                AttributeValue::TextWithoutLang(CompressionSupportedKeyword::Gzip.keyword().to_owned()),
            ],
        };
        assert(r.model().values =~= self.spec_compression_supported().values);
        assert(r.model() =~= self.spec_compression_supported());
        r
    }

    /// The printer-uri operation attribute echoed on every response.
    pub open spec fn spec_printer_uri(self) -> AttributeView {
        AttributeView {
            tag: ValueTag::Uri,
            name: NameView::Operation(OperationAttribute::PrinterUri),
            values: seq![ValueView::TextWithoutLang(self.uri@)],
        }
    }

    /// The printer-uri operation attribute echoed on every response.
    pub fn printer_uri(&self) -> (r: Attribute)
        ensures
            r.model() == self.spec_printer_uri(),
    {
        let r = Attribute {
            tag: ValueTag::Uri,
            name: AttributeName::Operation(OperationAttribute::PrinterUri),
            values: vec![
                AttributeValue::TextWithoutLang(self.uri.clone()),
            ],
        };
        assert(r.model().values =~= self.spec_printer_uri().values);
        assert(r.model() =~= self.spec_printer_uri());
        r
    }

    /// The charset of the response's own text.
    pub open spec fn spec_attributes_charset(self) -> AttributeView {
        AttributeView {
            tag: ValueTag::Charset,
            name: NameView::Operation(OperationAttribute::AttributesCharset),
            values: seq![ValueView::TextWithoutLang("utf-8"@)],
        }
    }

    /// The charset of the response's own text.
    pub fn attributes_charset(&self) -> (r: Attribute)
        ensures
            r.model() == self.spec_attributes_charset(),
    {
        let r = Attribute {
            tag: ValueTag::Charset,
            name: AttributeName::Operation(OperationAttribute::AttributesCharset),
            values: vec![
                AttributeValue::TextWithoutLang(String::from_str("utf-8")),
            ],
        };
        assert(r.model().values =~= self.spec_attributes_charset().values);
        assert(r.model() =~= self.spec_attributes_charset());
        r
    }

    /// The natural language of the response's own text.
    pub open spec fn spec_attributes_natural_language(self) -> AttributeView {
        AttributeView {
            tag: ValueTag::NaturalLanguage,
            name: NameView::Operation(OperationAttribute::AttributesNaturalLanguage),
            values: seq![ValueView::TextWithoutLang("en-US"@)],
        }
    }

    /// The natural language of the response's own text.
    pub fn attributes_natural_language(&self) -> (r: Attribute)
        ensures
            r.model() == self.spec_attributes_natural_language(),
    {
        let r = Attribute {
            tag: ValueTag::NaturalLanguage,
            name: AttributeName::Operation(OperationAttribute::AttributesNaturalLanguage),
            values: vec![
                AttributeValue::TextWithoutLang(String::from_str("en-US")),
            ],
        };
        assert(r.model().values =~= self.spec_attributes_natural_language().values);
        assert(r.model() =~= self.spec_attributes_natural_language());
        r
    }


    /// The attribute the printer provides under a requested name, if any:
    /// the name must parse as a printer attribute the printer implements.
    pub open spec fn spec_provider(self, s: Seq<char>, now: IppDateTime, now_unix: i64) -> Option<
        AttributeView,
    > {
        match PrinterAttribute::spec_from_keyword(s) {
            None => None,
            Some(a) => match a {
                PrinterAttribute::IppVersionsSupported => Some(
                    self.spec_ipp_printer_versions_supported(),
                ),
                PrinterAttribute::PrinterUriSupported => Some(self.spec_printer_uri_supported()),
                PrinterAttribute::UriSecuritySupported => Some(self.spec_uri_security_supported()),
                PrinterAttribute::UriAuthenticationSupported => Some(
                    self.spec_uri_authentication_supported(),
                ),
                PrinterAttribute::PrinterName => Some(self.spec_printer_name()),
                PrinterAttribute::PrinterState => Some(self.spec_printer_state()),
                PrinterAttribute::PrinterStateReasons => Some(self.spec_printer_state_reasons()),
                PrinterAttribute::OperationsSupported => Some(self.spec_operation_supported()),
                PrinterAttribute::CharsetConfigured => Some(self.spec_charset_configured()),
                PrinterAttribute::CharsetSupported => Some(self.spec_charset_supported()),
                PrinterAttribute::NaturalLanguageConfigured => Some(
                    self.spec_natural_language_configured(),
                ),
                PrinterAttribute::GeneratedNaturalLanguageSupported => Some(
                    self.spec_generated_natural_language_supported(),
                ),
                PrinterAttribute::DocumentFormatDefault => Some(
                    self.spec_document_format_default(),
                ),
                PrinterAttribute::DocumentFormatSupported => Some(
                    self.spec_document_format_supported(),
                ),
                PrinterAttribute::PrinterIsAcceptingJobs => Some(
                    self.spec_printer_is_accepting_jobs(),
                ),
                PrinterAttribute::QueuedJobCount => Some(self.spec_queued_job_count()),
                PrinterAttribute::PdlOverrideSupported => Some(self.spec_pdl_override_supported()),
                PrinterAttribute::PrinterUpTime => Some(self.spec_printer_up_time(now_unix)),
                PrinterAttribute::PrinterCurrentTime => Some(self.spec_printer_current_time(now)),
                PrinterAttribute::CompressionSupported => Some(self.spec_compression_supported()),
                _ => None,
            },
        }
    }

    /// The attribute the printer provides under a requested name, if any.
    fn request_printer_attribute(&self, attribute_name: &str, now: IppDateTime, now_unix: i64) -> (r:
        Option<Attribute>)
        ensures
            match r {
                Some(a) => self.spec_provider(attribute_name@, now, now_unix) == Some(a.model()),
                None => self.spec_provider(attribute_name@, now, now_unix) is None,
            },
    {
        match PrinterAttribute::from_keyword(attribute_name) {
            None => None,
            Some(a) => match a {
                PrinterAttribute::IppVersionsSupported => Some(
                    self.ipp_printer_versions_supported(),
                ),
                PrinterAttribute::PrinterUriSupported => Some(self.printer_uri_supported()),
                PrinterAttribute::UriSecuritySupported => Some(self.uri_security_supported()),
                PrinterAttribute::UriAuthenticationSupported => Some(
                    self.uri_authentication_supported(),
                ),
                PrinterAttribute::PrinterName => Some(self.printer_name()),
                PrinterAttribute::PrinterState => Some(self.printer_state()),
                PrinterAttribute::PrinterStateReasons => Some(self.printer_state_reasons()),
                PrinterAttribute::OperationsSupported => Some(self.operation_supported()),
                PrinterAttribute::CharsetConfigured => Some(self.charset_configured()),
                PrinterAttribute::CharsetSupported => Some(self.charset_supported()),
                PrinterAttribute::NaturalLanguageConfigured => Some(
                    self.natural_language_configured(),
                ),
                PrinterAttribute::GeneratedNaturalLanguageSupported => Some(
                    self.generated_natural_language_supported(),
                ),
                PrinterAttribute::DocumentFormatDefault => Some(self.document_format_default()),
                PrinterAttribute::DocumentFormatSupported => Some(self.document_format_supported()),
                PrinterAttribute::PrinterIsAcceptingJobs => Some(self.printer_is_accepting_jobs()),
                PrinterAttribute::QueuedJobCount => Some(self.queued_job_count()),
                PrinterAttribute::PdlOverrideSupported => Some(self.pdl_override_supported()),
                PrinterAttribute::PrinterUpTime => Some(self.printer_up_time(now_unix)),
                PrinterAttribute::PrinterCurrentTime => Some(self.printer_current_time(now)),
                PrinterAttribute::CompressionSupported => Some(self.compression_supported()),
                _ => None,
            },
        }
    }

    /// The supported requested attributes among values `i` onward: each
    /// plain-text name the provider resolves, in request order. Values that
    /// are not plain text are passed over.
    pub open spec fn spec_supported_from(
        self,
        vals: Seq<ValueView>,
        i: int,
        now: IppDateTime,
        now_unix: i64,
    ) -> Seq<AttributeView>
        decreases vals.len() - i,
    {
        if i < 0 || i >= vals.len() {
            Seq::empty()
        } else {
            let rest = self.spec_supported_from(vals, i + 1, now, now_unix);
            match vals[i] {
                ValueView::TextWithoutLang(s) => match self.spec_provider(s, now, now_unix) {
                    Some(a) => seq![a] + rest,
                    None => rest,
                },
                _ => rest,
            }
        }
    }

    /// The placeholder attribute the unsupported-attributes group carries
    /// for one requested name outside the printer's vocabulary.
    pub open spec fn spec_unsupported_attr(s: Seq<char>) -> AttributeView {
        AttributeView {
            tag: ValueTag::Unsupported,
            name: NameView::Unsupported(s),
            values: seq![ValueView::TextWithoutLang("unsupported"@)],
        }
    }

    /// The placeholder attributes for the unsupported requested names among
    /// values `i` onward, in request order.
    pub open spec fn spec_unsupported_from(
        self,
        vals: Seq<ValueView>,
        i: int,
        now: IppDateTime,
        now_unix: i64,
    ) -> Seq<AttributeView>
        decreases vals.len() - i,
    {
        if i < 0 || i >= vals.len() {
            Seq::empty()
        } else {
            let rest = self.spec_unsupported_from(vals, i + 1, now, now_unix);
            match vals[i] {
                ValueView::TextWithoutLang(s) => match self.spec_provider(s, now, now_unix) {
                    Some(_) => rest,
                    None => seq![IppPrinter::spec_unsupported_attr(s)] + rest,
                },
                _ => rest,
            }
        }
    }

    /// Partitions the requested names into provided attributes and
    /// unsupported placeholders, in request order.
    fn partition_requested(&self, requested: &Attribute, now: IppDateTime, now_unix: i64) -> (r: (
        Vec<Attribute>,
        Vec<Attribute>,
    ))
        ensures
            attrs_model(r.0@) == self.spec_supported_from(requested.model().values, 0, now, now_unix),
            attrs_model(r.1@) == self.spec_unsupported_from(
                requested.model().values,
                0,
                now,
                now_unix,
            ),
    {
        let ghost vals = requested.model().values;
        let mut supported: Vec<Attribute> = Vec::new();
        let mut unsupported: Vec<Attribute> = Vec::new();
        let n = requested.values.len();
        let mut i: usize = 0;
        assert(attrs_model(supported@) + self.spec_supported_from(vals, 0, now, now_unix)
            =~= self.spec_supported_from(vals, 0, now, now_unix));
        assert(attrs_model(unsupported@) + self.spec_unsupported_from(vals, 0, now, now_unix)
            =~= self.spec_unsupported_from(vals, 0, now, now_unix));
        while i < n
            invariant
                i <= n,
                n == requested.values@.len(),
                vals == requested.model().values,
                attrs_model(supported@) + self.spec_supported_from(vals, i as int, now, now_unix)
                    == self.spec_supported_from(vals, 0, now, now_unix),
                attrs_model(unsupported@) + self.spec_unsupported_from(
                    vals,
                    i as int,
                    now,
                    now_unix,
                ) == self.spec_unsupported_from(vals, 0, now, now_unix),
            decreases n - i,
        {
            let ghost sup_before = attrs_model(supported@);
            let ghost unsup_before = attrs_model(unsupported@);
            proof {
                assert(vals[i as int] == requested.values@[i as int].model());
            }
            match &requested.values[i] {
                AttributeValue::TextWithoutLang(value_str) => {
                    match self.request_printer_attribute(value_str.as_str(), now, now_unix) {
                        Some(attribute) => {
                            supported.push(attribute);
                            assert(attrs_model(supported@) =~= sup_before + seq![
                                self.spec_provider(value_str@, now, now_unix)->Some_0,
                            ]);
                            assert(sup_before + seq![
                                self.spec_provider(value_str@, now, now_unix)->Some_0,
                            ] + self.spec_supported_from(vals, i as int + 1, now, now_unix)
                                =~= sup_before + self.spec_supported_from(
                                vals,
                                i as int,
                                now,
                                now_unix,
                            ));
                        },
                        None => {
                            let attribute = Attribute {
                                tag: ValueTag::Unsupported,
                                name: AttributeName::Unsupported(value_str.clone()),
                                values: vec![
                                    AttributeValue::TextWithoutLang(
                                        String::from_str("unsupported"),
                                    ),
                                ],
                            };
                            assert(attribute.model() =~= IppPrinter::spec_unsupported_attr(
                                value_str@,
                            )) by {
                                assert(attribute.model().values
                                    =~= IppPrinter::spec_unsupported_attr(value_str@).values);
                            }
                            unsupported.push(attribute);
                            assert(attrs_model(unsupported@) =~= unsup_before + seq![
                                IppPrinter::spec_unsupported_attr(value_str@),
                            ]);
                            assert(unsup_before + seq![
                                IppPrinter::spec_unsupported_attr(value_str@),
                            ] + self.spec_unsupported_from(vals, i as int + 1, now, now_unix)
                                =~= unsup_before + self.spec_unsupported_from(
                                vals,
                                i as int,
                                now,
                                now_unix,
                            ));
                        },
                    }
                },
                _ => {},
            }
            i = i + 1;
        }
        (supported, unsupported)
    }

    /// The operation-attributes group every response carries: the printer's
    /// URI, the charset, and the natural language.
    pub open spec fn spec_operation_attributes_group(self) -> GroupView {
        GroupView {
            tag: DelimiterTag::OperationAttributes,
            attributes: seq![
                self.spec_printer_uri(),
                self.spec_attributes_charset(),
                self.spec_attributes_natural_language(),
            ],
        }
    }

    /// The operation-attributes group every response carries.
    fn request_operation_attributes(&self) -> (r: AttributeGroup)
        ensures
            r.model() == self.spec_operation_attributes_group(),
    {
        let r = AttributeGroup {
            tag: DelimiterTag::OperationAttributes,
            attributes: vec![
                self.printer_uri(),
                self.attributes_charset(),
                self.attributes_natural_language(),
            ],
        };
        assert(r.model().attributes =~= self.spec_operation_attributes_group().attributes);
        assert(r.model() =~= self.spec_operation_attributes_group());
        r
    }

    /// Whether a request carries a requested-attributes list: its
    /// operation-attributes group holds one under that name.
    pub open spec fn spec_requested_list(req: OperationView) -> Option<Seq<ValueView>> {
        if req.attribute_groups.contains_key(DelimiterTag::OperationAttributes) {
            let g = req.attribute_groups[DelimiterTag::OperationAttributes];
            let idx = crate::attribute_group::find_name(
                g.attributes,
                NameView::Operation(OperationAttribute::RequestedAttributes),
            );
            if idx == -1 {
                None
            } else {
                Some(g.attributes[idx].values)
            }
        } else {
            None
        }
    }

    /// The status a request resolves to: version-not-supported for a wrong
    /// major version, operation-not-supported for an operation outside the
    /// printer's set, success otherwise.
    pub open spec fn spec_status(self, req: OperationView) -> u16 {
        if req.major != 1 {
            StatusCode::ServerErrorVersionNotSupported.spec_code()
        } else if !supported_operation_code(req.operation_id_or_status_code) {
            StatusCode::ServerErrorOperationNotSupported.spec_code()
        } else {
            StatusCode::SuccessfulOk.spec_code()
        }
    }

    /// The groups of the response: the operation-attributes group always;
    /// the printer- and unsupported-attributes groups exactly when a
    /// well-versioned, supported request asked for attributes.
    pub open spec fn spec_response_groups(
        self,
        req: OperationView,
        now: IppDateTime,
        now_unix: i64,
    ) -> Map<DelimiterTag, GroupView> {
        let base = Map::empty().insert(
            DelimiterTag::OperationAttributes,
            self.spec_operation_attributes_group(),
        );
        if req.major == 1 && supported_operation_code(req.operation_id_or_status_code)
            && IppPrinter::spec_requested_list(req) is Some {
            let vals = IppPrinter::spec_requested_list(req)->Some_0;
            base.insert(
                DelimiterTag::UnsupportedAttributes,
                GroupView {
                    tag: DelimiterTag::UnsupportedAttributes,
                    attributes: self.spec_unsupported_from(vals, 0, now, now_unix),
                },
            ).insert(
                DelimiterTag::PrinterAttributes,
                GroupView {
                    tag: DelimiterTag::PrinterAttributes,
                    attributes: self.spec_supported_from(vals, 0, now, now_unix),
                },
            )
        } else {
            base
        }
    }

    /// The whole response to a request, given the clock's readings.
    pub open spec fn spec_respond(
        self,
        req: OperationView,
        now: IppDateTime,
        now_unix: i64,
    ) -> OperationView {
        OperationView {
            major: 1,
            minor: 1,
            operation_id_or_status_code: self.spec_status(req),
            request_id: req.request_id,
            attribute_groups: self.spec_response_groups(req, now, now_unix),
            data: Seq::empty(),
        }
    }

    /// Whether handling a request persists its trailing data as a document:
    /// only a well-versioned, supported print-job submission does.
    pub open spec fn spec_wants_document(self, req: OperationView) -> bool {
        &&& req.major == 1
        &&& supported_operation_code(req.operation_id_or_status_code)
        &&& OperationID::spec_from_code(req.operation_id_or_status_code) == Some(
            OperationID::PrintJob,
        )
    }

    /// Builds the response to a decoded request. The version check comes
    /// first, then the operation-support check; only a request that passes
    /// both has its requested attributes resolved. The response always
    /// echoes the operation-attributes group, answers with the request's
    /// own id, and carries no trailing data.
    pub fn respond(&self, request: &Operation, now: IppDateTime, now_unix: i64) -> (r: Operation)
        ensures
            r.model() == self.spec_respond(request.model(), now, now_unix),
            request.model().major != 1 ==> r.model().operation_id_or_status_code
                == StatusCode::ServerErrorVersionNotSupported.spec_code()
                && r.model().attribute_groups.dom() == set![DelimiterTag::OperationAttributes],
    {
        let ghost req = request.model();
        let op_group = self.request_operation_attributes();
        let mut groups: Vec<AttributeGroup> = Vec::new();
        proof {
            assert(crate::attribute_group::groups_map(
                crate::attribute_group::groups_model(groups@),
            ) =~= Map::<DelimiterTag, GroupView>::empty());
            crate::attribute_group::lemma_table_push(groups@, op_group);
        }
        groups.push(op_group);
        let mut status: u16 = StatusCode::SuccessfulOk.code();
        if request.version.major != 1 {
            status = StatusCode::ServerErrorVersionNotSupported.code();
        } else if !self.operation_is_supported(request.operation_id_or_status_code) {
            status = StatusCode::ServerErrorOperationNotSupported.code();
        } else {
            let requested = match request.attribute_groups.get(
                DelimiterTag::OperationAttributes,
            ) {
                None => None,
                Some(g) => match g.get_attribute(
                    &AttributeName::Operation(OperationAttribute::RequestedAttributes),
                ) {
                    None => None,
                    Some(a) => Some(a),
                },
            };
            if let Some(requested) = requested {
                let (supported, unsupported) = self.partition_requested(
                    requested,
                    now,
                    now_unix,
                );
                let unsup_group = AttributeGroup {
                    tag: DelimiterTag::UnsupportedAttributes,
                    attributes: unsupported,
                };
                proof {
                    crate::attribute_group::lemma_table_push(groups@, unsup_group);
                }
                groups.push(unsup_group);
                let sup_group = AttributeGroup {
                    tag: DelimiterTag::PrinterAttributes,
                    attributes: supported,
                };
                proof {
                    crate::attribute_group::lemma_table_push(groups@, sup_group);
                }
                groups.push(sup_group);
            }
        }
        let table = AttributeGroupTable { groups };
        let r = Operation {
            version: IppVersion { major: 1, minor: 1 },
            operation_id_or_status_code: status,
            request_id: request.request_id,
            attribute_groups: table,
            data: Vec::new(),
        };
        proof {
            assert(r.model().attribute_groups =~= self.spec_response_groups(req, now, now_unix));
            assert(r.model() =~= self.spec_respond(req, now, now_unix));
            if req.major != 1 {
                assert(r.model().attribute_groups.dom() =~= set![
                    DelimiterTag::OperationAttributes,
                ]);
            }
        }
        r
    }

    /// Handles one raw request buffer: decode, respond, encode. The result
    /// carries the response bytes and, for a print-job submission, the
    /// document bytes to persist. A buffer that does not decode is the
    /// decoder's error, so the transport can reject it without crashing.
    pub fn handle(&self, bytes: &[u8]) -> (r: Result<(Vec<u8>, Option<Vec<u8>>), IppError>)
        ensures
            r is Ok <==> dec_op(bytes@, 0) is Ok,
            r matches Err(e) ==> dec_op(bytes@, 0) == Err::<(int, OperationView), IppError>(e),
            r matches Ok(p) ==> ({
                let req = dec_op(bytes@, 0)->Ok_0.1;
                &&& exists|now: IppDateTime, nu: i64|
                    p.0@ == enc_op(#[trigger] self.spec_respond(req, now, nu))
                &&& self.spec_wants_document(req) ==> (p.1 matches Some(d) && d@ == req.data)
                &&& !self.spec_wants_document(req) ==> p.1 is None
            }),
    {
        let (_, request) = match Operation::from_ipp(bytes, 0) {
            Ok(p) => p,
            Err(e) => {
                return Err(e);
            },
        };
        let now = current_datetime();
        let now_unix = unix_now();
        let response = self.respond(&request, now, now_unix);
        let out = response.to_ipp();
        let document = if request.version.major == 1 && self.operation_is_supported(
            request.operation_id_or_status_code,
        ) && matches!(request.operation_id(), Some(OperationID::PrintJob)) {
            Some(request.data)
        } else {
            None
        };
        proof {
            let req = dec_op(bytes@, 0)->Ok_0.1;
            assert(out@ == enc_op(self.spec_respond(req, now, now_unix)));
        }
        Ok((out, document))
    }
}


/// The support check and the advertised operations-supported attribute name
/// the same operations: a code passes the check exactly when the attribute's
/// values carry it.
pub proof fn lemma_support_check_matches_advertised(p: IppPrinter, code: u16)
    ensures
        supported_operation_code(code) <==> p.spec_operation_supported().values.contains(
            ValueView::Number(code as i32),
        ),
{
    let vs = p.spec_operation_supported().values;
    if supported_operation_code(code) {
        if code == 0x0002 {
            assert(vs[0] == ValueView::Number(code as i32));
        } else if code == 0x0004 {
            assert(vs[1] == ValueView::Number(code as i32));
        } else if code == 0x0008 {
            assert(vs[2] == ValueView::Number(code as i32));
        } else if code == 0x000b {
            assert(vs[3] == ValueView::Number(code as i32));
        } else if code == 0x0009 {
            assert(vs[4] == ValueView::Number(code as i32));
        } else {
            assert(vs[5] == ValueView::Number(code as i32));
        }
    }
    if vs.contains(ValueView::Number(code as i32)) {
        let i = choose|i: int| 0 <= i < vs.len() && vs[i] == ValueView::Number(code as i32);
        assert(supported_operation_code(code));
    }
}


} // verus!

//! The attribute-name vocabularies: the symbolic keywords of the four
//! attribute groups, and the generalized `AttributeName` that unites them
//! with an `Unsupported` fallback for names outside the known vocabularies.

use vstd::prelude::*;
use vstd::utf8::encode_utf8;
use crate::error::{AttributeNameParseError, IppError};
use crate::primitives::{dec_string, enc_string};
use crate::traits::IppEncode;
use crate::wire::str_eq;

verus! {

/// Operation attribute names of RFC 8011.
#[derive(Debug, Clone, Copy, PartialEq, Eq, Structural, Hash)]
pub enum OperationAttribute {
    RequestedAttributes,
    PrinterUri,
    AttributesCharset,
    AttributesNaturalLanguage,
}

/// Printer description and status attribute names of RFC 8011.
#[derive(Debug, Clone, Copy, PartialEq, Eq, Structural, Hash)]
pub enum PrinterAttribute {
    PrinterUriSupported,
    UriSecuritySupported,
    UriAuthenticationSupported,
    PrinterName,
    PrinterLocation,
    PrinterInfo,
    PrinterMoreInfo,
    PrinterDriverInstaller,
    PrinterMakeAndModel,
    PrinterMoreInfoManufacturer,
    PrinterState,
    PrinterStateReasons,
    PrinterStateMessage,
    IppVersionsSupported,
    OperationsSupported,
    MultipleDocumentJobsSupported,
    CharsetConfigured,
    CharsetSupported,
    NaturalLanguageConfigured,
    GeneratedNaturalLanguageSupported,
    DocumentFormatDefault,
    DocumentFormatSupported,
    PrinterIsAcceptingJobs,
    QueuedJobCount,
    PrinterMessageFromOperator,
    ColorSupported,
    ReferenceUriSchemesSupported,
    PdlOverrideSupported,
    PrinterUpTime,
    PrinterCurrentTime,
    MultipleOperationTimeOut,
    CompressionSupported,
    JobKOctetsSupported,
    JobImpressionsSupported,
    JobMediaSheetsSupported,
    PagesPerMinute,
    PagesPerMinuteColor,
}

/// Job-template attribute names of RFC 8011.
#[derive(Debug, Clone, Copy, PartialEq, Eq, Structural, Hash)]
pub enum JobTemplateAttribute {
    JobPriority,
    JobHoldUntil,
    JobSheets,
    MultipleDocumentHandling,
    Copies,
    Finishings,
    PageRanges,
    Sides,
    NumberUp,
    OrientationRequested,
    Media,
    PrinterResolution,
    PrintQuality,
}

/// Job description and status attribute names of RFC 8011.
#[derive(Debug, Clone, Copy, PartialEq, Eq, Structural, Hash)]
pub enum JobAttribute {
    JobUri,
    JobId,
    JobPrinterUri,
    JobMoreInfo,
    JobName,
    JobOriginatingUserName,
    JobState,
    JobStateReasons,
    JobStateMessage,
    JobDetailedStatusMessages,
    JobDocumentAccessErrors,
    NumberOfDocuments,
    OutputDeviceAssigned,
    TimeAtCreation,
    TimeAtProcessing,
    TimeAtCompleted,
    JobPrinterUpTime,
    DateTimeAtCreation,
    DateTimeAtProcessing,
    DateTimeAtCompleted,
    NumberOfInterveningJobs,
    JobMessageFromOperator,
    JobKOctets,
    JobImpressions,
    JobMediaSheets,
    JobKOctetsProcessed,
    JobImpressionsCompleted,
    JobMediaSheetsCompleted,
}

impl OperationAttribute {
    /// The wire keyword of this attribute name.
    pub open spec fn spec_keyword(self) -> Seq<char> {
        match self {
            OperationAttribute::RequestedAttributes => "requested-attributes"@,
            OperationAttribute::PrinterUri => "printer-uri"@,
            OperationAttribute::AttributesCharset => "attributes-charset"@,
            OperationAttribute::AttributesNaturalLanguage => "attributes-natural-language"@,
        }
    }

    /// The attribute this wire keyword names, if any.
    pub open spec fn spec_from_keyword(s: Seq<char>) -> Option<Self> {
        if s == "requested-attributes"@ {
            Some(OperationAttribute::RequestedAttributes)
        } else if s == "printer-uri"@ {
            Some(OperationAttribute::PrinterUri)
        } else if s == "attributes-charset"@ {
            Some(OperationAttribute::AttributesCharset)
        } else if s == "attributes-natural-language"@ {
            Some(OperationAttribute::AttributesNaturalLanguage)
        } else {
            None
        }
    }

    pub fn keyword(self) -> (r: &'static str)
        ensures
            r@ == self.spec_keyword(),
    {
        match self {
            OperationAttribute::RequestedAttributes => "requested-attributes",
            OperationAttribute::PrinterUri => "printer-uri",
            OperationAttribute::AttributesCharset => "attributes-charset",
            OperationAttribute::AttributesNaturalLanguage => "attributes-natural-language",
        }
    }

    pub fn from_keyword(s: &str) -> (r: Option<Self>)
        ensures
            r == OperationAttribute::spec_from_keyword(s@),
    {
        if str_eq(s, "requested-attributes") {
            Some(OperationAttribute::RequestedAttributes)
        } else if str_eq(s, "printer-uri") {
            Some(OperationAttribute::PrinterUri)
        } else if str_eq(s, "attributes-charset") {
            Some(OperationAttribute::AttributesCharset)
        } else if str_eq(s, "attributes-natural-language") {
            Some(OperationAttribute::AttributesNaturalLanguage)
        } else {
            None
        }
    }

    /// A keyword lookup only succeeds on the exact keyword of the
    /// attribute it returns.
    pub proof fn lemma_from_keyword_exact(s: Seq<char>)
        ensures
            OperationAttribute::spec_from_keyword(s) matches Some(a) ==> a.spec_keyword() == s,
    {
    }

}

impl PrinterAttribute {
    /// The wire keyword of this attribute name.
    pub open spec fn spec_keyword(self) -> Seq<char> {
        match self {
            PrinterAttribute::PrinterUriSupported => "printer-uri-supported"@,
            PrinterAttribute::UriSecuritySupported => "uri-security-supported"@,
            PrinterAttribute::UriAuthenticationSupported => "uri-authentication-supported"@,
            PrinterAttribute::PrinterName => "printer-name"@,
            PrinterAttribute::PrinterLocation => "printer-location"@,
            PrinterAttribute::PrinterInfo => "printer-info"@,
            PrinterAttribute::PrinterMoreInfo => "printer-more-info"@,
            PrinterAttribute::PrinterDriverInstaller => "printer-driver-installer"@,
            PrinterAttribute::PrinterMakeAndModel => "printer-make-and-model"@,
            PrinterAttribute::PrinterMoreInfoManufacturer => "printer-more-info-manufacturer"@,
            PrinterAttribute::PrinterState => "printer-state"@,
            PrinterAttribute::PrinterStateReasons => "printer-state-reasons"@,
            PrinterAttribute::PrinterStateMessage => "printer-state-message"@,
            PrinterAttribute::IppVersionsSupported => "ipp-versions-supported"@,
            PrinterAttribute::OperationsSupported => "operations-supported"@,
            PrinterAttribute::MultipleDocumentJobsSupported => "multiple-document-jobs-supported"@,
            PrinterAttribute::CharsetConfigured => "charset-configured"@,
            PrinterAttribute::CharsetSupported => "charset-supported"@,
            PrinterAttribute::NaturalLanguageConfigured => "natural-language-configured"@,
            PrinterAttribute::GeneratedNaturalLanguageSupported => "generated-natural-language-supported"@,
            PrinterAttribute::DocumentFormatDefault => "document-format-default"@,
            PrinterAttribute::DocumentFormatSupported => "document-format-supported"@,
            PrinterAttribute::PrinterIsAcceptingJobs => "printer-is-accepting-jobs"@,
            PrinterAttribute::QueuedJobCount => "queued-job-count"@,
            PrinterAttribute::PrinterMessageFromOperator => "printer-message-from-operator"@,
            PrinterAttribute::ColorSupported => "color-supported"@,
            PrinterAttribute::ReferenceUriSchemesSupported => "reference-uri-schemes-supported"@,
            PrinterAttribute::PdlOverrideSupported => "pdl-override-supported"@,
            PrinterAttribute::PrinterUpTime => "printer-up-time"@,
            PrinterAttribute::PrinterCurrentTime => "printer-current-time"@,
            PrinterAttribute::MultipleOperationTimeOut => "multiple-operation-time-out"@,
            PrinterAttribute::CompressionSupported => "compression-supported"@,
            PrinterAttribute::JobKOctetsSupported => "job-k-octets-supported"@,
            PrinterAttribute::JobImpressionsSupported => "job-impressions-supported"@,
            PrinterAttribute::JobMediaSheetsSupported => "job-media-sheets-supported"@,
            PrinterAttribute::PagesPerMinute => "pages-per-minute"@,
            PrinterAttribute::PagesPerMinuteColor => "pages-per-minute-color"@,
        }
    }

    /// The attribute this wire keyword names, if any.
    pub open spec fn spec_from_keyword(s: Seq<char>) -> Option<Self> {
        if s == "printer-uri-supported"@ {
            Some(PrinterAttribute::PrinterUriSupported)
        } else if s == "uri-security-supported"@ {
            Some(PrinterAttribute::UriSecuritySupported)
        } else if s == "uri-authentication-supported"@ {
            Some(PrinterAttribute::UriAuthenticationSupported)
        } else if s == "printer-name"@ {
            Some(PrinterAttribute::PrinterName)
        } else if s == "printer-location"@ {
            Some(PrinterAttribute::PrinterLocation)
        } else if s == "printer-info"@ {
            Some(PrinterAttribute::PrinterInfo)
        } else if s == "printer-more-info"@ {
            Some(PrinterAttribute::PrinterMoreInfo)
        } else if s == "printer-driver-installer"@ {
            Some(PrinterAttribute::PrinterDriverInstaller)
        } else if s == "printer-make-and-model"@ {
            Some(PrinterAttribute::PrinterMakeAndModel)
        } else if s == "printer-more-info-manufacturer"@ {
            Some(PrinterAttribute::PrinterMoreInfoManufacturer)
        } else if s == "printer-state"@ {
            Some(PrinterAttribute::PrinterState)
        } else if s == "printer-state-reasons"@ {
            Some(PrinterAttribute::PrinterStateReasons)
        } else if s == "printer-state-message"@ {
            Some(PrinterAttribute::PrinterStateMessage)
        } else if s == "ipp-versions-supported"@ {
            Some(PrinterAttribute::IppVersionsSupported)
        } else if s == "operations-supported"@ {
            Some(PrinterAttribute::OperationsSupported)
        } else if s == "multiple-document-jobs-supported"@ {
            Some(PrinterAttribute::MultipleDocumentJobsSupported)
        } else if s == "charset-configured"@ {
            Some(PrinterAttribute::CharsetConfigured)
        } else if s == "charset-supported"@ {
            Some(PrinterAttribute::CharsetSupported)
        } else if s == "natural-language-configured"@ {
            Some(PrinterAttribute::NaturalLanguageConfigured)
        } else if s == "generated-natural-language-supported"@ {
            Some(PrinterAttribute::GeneratedNaturalLanguageSupported)
        } else if s == "document-format-default"@ {
            Some(PrinterAttribute::DocumentFormatDefault)
        } else if s == "document-format-supported"@ {
            Some(PrinterAttribute::DocumentFormatSupported)
        } else if s == "printer-is-accepting-jobs"@ {
            Some(PrinterAttribute::PrinterIsAcceptingJobs)
        } else if s == "queued-job-count"@ {
            Some(PrinterAttribute::QueuedJobCount)
        } else if s == "printer-message-from-operator"@ {
            Some(PrinterAttribute::PrinterMessageFromOperator)
        } else if s == "color-supported"@ {
            Some(PrinterAttribute::ColorSupported)
        } else if s == "reference-uri-schemes-supported"@ {
            Some(PrinterAttribute::ReferenceUriSchemesSupported)
        } else if s == "pdl-override-supported"@ {
            Some(PrinterAttribute::PdlOverrideSupported)
        } else if s == "printer-up-time"@ {
            Some(PrinterAttribute::PrinterUpTime)
        } else if s == "printer-current-time"@ {
            Some(PrinterAttribute::PrinterCurrentTime)
        } else if s == "multiple-operation-time-out"@ {
            Some(PrinterAttribute::MultipleOperationTimeOut)
        } else if s == "compression-supported"@ {
            Some(PrinterAttribute::CompressionSupported)
        } else if s == "job-k-octets-supported"@ {
            Some(PrinterAttribute::JobKOctetsSupported)
        } else if s == "job-impressions-supported"@ {
            Some(PrinterAttribute::JobImpressionsSupported)
        } else if s == "job-media-sheets-supported"@ {
            Some(PrinterAttribute::JobMediaSheetsSupported)
        } else if s == "pages-per-minute"@ {
            Some(PrinterAttribute::PagesPerMinute)
        } else if s == "pages-per-minute-color"@ {
            Some(PrinterAttribute::PagesPerMinuteColor)
        } else {
            None
        }
    }

    pub fn keyword(self) -> (r: &'static str)
        ensures
            r@ == self.spec_keyword(),
    {
        match self {
            PrinterAttribute::PrinterUriSupported => "printer-uri-supported",
            PrinterAttribute::UriSecuritySupported => "uri-security-supported",
            PrinterAttribute::UriAuthenticationSupported => "uri-authentication-supported",
            PrinterAttribute::PrinterName => "printer-name",
            PrinterAttribute::PrinterLocation => "printer-location",
            PrinterAttribute::PrinterInfo => "printer-info",
            PrinterAttribute::PrinterMoreInfo => "printer-more-info",
            PrinterAttribute::PrinterDriverInstaller => "printer-driver-installer",
            PrinterAttribute::PrinterMakeAndModel => "printer-make-and-model",
            PrinterAttribute::PrinterMoreInfoManufacturer => "printer-more-info-manufacturer",
            PrinterAttribute::PrinterState => "printer-state",
            PrinterAttribute::PrinterStateReasons => "printer-state-reasons",
            PrinterAttribute::PrinterStateMessage => "printer-state-message",
            PrinterAttribute::IppVersionsSupported => "ipp-versions-supported",
            PrinterAttribute::OperationsSupported => "operations-supported",
            PrinterAttribute::MultipleDocumentJobsSupported => "multiple-document-jobs-supported",
            PrinterAttribute::CharsetConfigured => "charset-configured",
            PrinterAttribute::CharsetSupported => "charset-supported",
            PrinterAttribute::NaturalLanguageConfigured => "natural-language-configured",
            PrinterAttribute::GeneratedNaturalLanguageSupported => "generated-natural-language-supported",
            PrinterAttribute::DocumentFormatDefault => "document-format-default",
            PrinterAttribute::DocumentFormatSupported => "document-format-supported",
            PrinterAttribute::PrinterIsAcceptingJobs => "printer-is-accepting-jobs",
            PrinterAttribute::QueuedJobCount => "queued-job-count",
            PrinterAttribute::PrinterMessageFromOperator => "printer-message-from-operator",
            PrinterAttribute::ColorSupported => "color-supported",
            PrinterAttribute::ReferenceUriSchemesSupported => "reference-uri-schemes-supported",
            PrinterAttribute::PdlOverrideSupported => "pdl-override-supported",
            PrinterAttribute::PrinterUpTime => "printer-up-time",
            PrinterAttribute::PrinterCurrentTime => "printer-current-time",
            PrinterAttribute::MultipleOperationTimeOut => "multiple-operation-time-out",
            PrinterAttribute::CompressionSupported => "compression-supported",
            PrinterAttribute::JobKOctetsSupported => "job-k-octets-supported",
            PrinterAttribute::JobImpressionsSupported => "job-impressions-supported",
            PrinterAttribute::JobMediaSheetsSupported => "job-media-sheets-supported",
            PrinterAttribute::PagesPerMinute => "pages-per-minute",
            PrinterAttribute::PagesPerMinuteColor => "pages-per-minute-color",
        }
    }

    pub fn from_keyword(s: &str) -> (r: Option<Self>)
        ensures
            r == PrinterAttribute::spec_from_keyword(s@),
    {
        if str_eq(s, "printer-uri-supported") {
            Some(PrinterAttribute::PrinterUriSupported)
        } else if str_eq(s, "uri-security-supported") {
            Some(PrinterAttribute::UriSecuritySupported)
        } else if str_eq(s, "uri-authentication-supported") {
            Some(PrinterAttribute::UriAuthenticationSupported)
        } else if str_eq(s, "printer-name") {
            Some(PrinterAttribute::PrinterName)
        } else if str_eq(s, "printer-location") {
            Some(PrinterAttribute::PrinterLocation)
        } else if str_eq(s, "printer-info") {
            Some(PrinterAttribute::PrinterInfo)
        } else if str_eq(s, "printer-more-info") {
            Some(PrinterAttribute::PrinterMoreInfo)
        } else if str_eq(s, "printer-driver-installer") {
            Some(PrinterAttribute::PrinterDriverInstaller)
        } else if str_eq(s, "printer-make-and-model") {
            Some(PrinterAttribute::PrinterMakeAndModel)
        } else if str_eq(s, "printer-more-info-manufacturer") {
            Some(PrinterAttribute::PrinterMoreInfoManufacturer)
        } else if str_eq(s, "printer-state") {
            Some(PrinterAttribute::PrinterState)
        } else if str_eq(s, "printer-state-reasons") {
            Some(PrinterAttribute::PrinterStateReasons)
        } else if str_eq(s, "printer-state-message") {
            Some(PrinterAttribute::PrinterStateMessage)
        } else if str_eq(s, "ipp-versions-supported") {
            Some(PrinterAttribute::IppVersionsSupported)
        } else if str_eq(s, "operations-supported") {
            Some(PrinterAttribute::OperationsSupported)
        } else if str_eq(s, "multiple-document-jobs-supported") {
            Some(PrinterAttribute::MultipleDocumentJobsSupported)
        } else if str_eq(s, "charset-configured") {
            Some(PrinterAttribute::CharsetConfigured)
        } else if str_eq(s, "charset-supported") {
            Some(PrinterAttribute::CharsetSupported)
        } else if str_eq(s, "natural-language-configured") {
            Some(PrinterAttribute::NaturalLanguageConfigured)
        } else if str_eq(s, "generated-natural-language-supported") {
            Some(PrinterAttribute::GeneratedNaturalLanguageSupported)
        } else if str_eq(s, "document-format-default") {
            Some(PrinterAttribute::DocumentFormatDefault)
        } else if str_eq(s, "document-format-supported") {
            Some(PrinterAttribute::DocumentFormatSupported)
        } else if str_eq(s, "printer-is-accepting-jobs") {
            Some(PrinterAttribute::PrinterIsAcceptingJobs)
        } else if str_eq(s, "queued-job-count") {
            Some(PrinterAttribute::QueuedJobCount)
        } else if str_eq(s, "printer-message-from-operator") {
            Some(PrinterAttribute::PrinterMessageFromOperator)
        } else if str_eq(s, "color-supported") {
            Some(PrinterAttribute::ColorSupported)
        } else if str_eq(s, "reference-uri-schemes-supported") {
            Some(PrinterAttribute::ReferenceUriSchemesSupported)
        } else if str_eq(s, "pdl-override-supported") {
            Some(PrinterAttribute::PdlOverrideSupported)
        } else if str_eq(s, "printer-up-time") {
            Some(PrinterAttribute::PrinterUpTime)
        } else if str_eq(s, "printer-current-time") {
            Some(PrinterAttribute::PrinterCurrentTime)
        } else if str_eq(s, "multiple-operation-time-out") {
            Some(PrinterAttribute::MultipleOperationTimeOut)
        } else if str_eq(s, "compression-supported") {
            Some(PrinterAttribute::CompressionSupported)
        } else if str_eq(s, "job-k-octets-supported") {
            Some(PrinterAttribute::JobKOctetsSupported)
        } else if str_eq(s, "job-impressions-supported") {
            Some(PrinterAttribute::JobImpressionsSupported)
        } else if str_eq(s, "job-media-sheets-supported") {
            Some(PrinterAttribute::JobMediaSheetsSupported)
        } else if str_eq(s, "pages-per-minute") {
            Some(PrinterAttribute::PagesPerMinute)
        } else if str_eq(s, "pages-per-minute-color") {
            Some(PrinterAttribute::PagesPerMinuteColor)
        } else {
            None
        }
    }

    /// A keyword lookup only succeeds on the exact keyword of the
    /// attribute it returns.
    pub proof fn lemma_from_keyword_exact(s: Seq<char>)
        ensures
            PrinterAttribute::spec_from_keyword(s) matches Some(a) ==> a.spec_keyword() == s,
    {
    }

}

impl JobTemplateAttribute {
    /// The wire keyword of this attribute name.
    pub open spec fn spec_keyword(self) -> Seq<char> {
        match self {
            JobTemplateAttribute::JobPriority => "job-priority"@,
            JobTemplateAttribute::JobHoldUntil => "job-hold-until"@,
            JobTemplateAttribute::JobSheets => "job-sheets"@,
            JobTemplateAttribute::MultipleDocumentHandling => "multiple-document-handling"@,
            JobTemplateAttribute::Copies => "copies"@,
            JobTemplateAttribute::Finishings => "finishings"@,
            JobTemplateAttribute::PageRanges => "page-ranges"@,
            JobTemplateAttribute::Sides => "sides"@,
            JobTemplateAttribute::NumberUp => "number-up"@,
            JobTemplateAttribute::OrientationRequested => "orientation-requested"@,
            JobTemplateAttribute::Media => "media"@,
            JobTemplateAttribute::PrinterResolution => "printer-resolution"@,
            JobTemplateAttribute::PrintQuality => "print-quality"@,
        }
    }

    /// The attribute this wire keyword names, if any.
    pub open spec fn spec_from_keyword(s: Seq<char>) -> Option<Self> {
        if s == "job-priority"@ {
            Some(JobTemplateAttribute::JobPriority)
        } else if s == "job-hold-until"@ {
            Some(JobTemplateAttribute::JobHoldUntil)
        } else if s == "job-sheets"@ {
            Some(JobTemplateAttribute::JobSheets)
        } else if s == "multiple-document-handling"@ {
            Some(JobTemplateAttribute::MultipleDocumentHandling)
        } else if s == "copies"@ {
            Some(JobTemplateAttribute::Copies)
        } else if s == "finishings"@ {
            Some(JobTemplateAttribute::Finishings)
        } else if s == "page-ranges"@ {
            Some(JobTemplateAttribute::PageRanges)
        } else if s == "sides"@ {
            Some(JobTemplateAttribute::Sides)
        } else if s == "number-up"@ {
            Some(JobTemplateAttribute::NumberUp)
        } else if s == "orientation-requested"@ {
            Some(JobTemplateAttribute::OrientationRequested)
        } else if s == "media"@ {
            Some(JobTemplateAttribute::Media)
        } else if s == "printer-resolution"@ {
            Some(JobTemplateAttribute::PrinterResolution)
        } else if s == "print-quality"@ {
            Some(JobTemplateAttribute::PrintQuality)
        } else {
            None
        }
    }

    pub fn keyword(self) -> (r: &'static str)
        ensures
            r@ == self.spec_keyword(),
    {
        match self {
            JobTemplateAttribute::JobPriority => "job-priority",
            JobTemplateAttribute::JobHoldUntil => "job-hold-until",
            JobTemplateAttribute::JobSheets => "job-sheets",
            JobTemplateAttribute::MultipleDocumentHandling => "multiple-document-handling",
            JobTemplateAttribute::Copies => "copies",
            JobTemplateAttribute::Finishings => "finishings",
            JobTemplateAttribute::PageRanges => "page-ranges",
            JobTemplateAttribute::Sides => "sides",
            JobTemplateAttribute::NumberUp => "number-up",
            JobTemplateAttribute::OrientationRequested => "orientation-requested",
            JobTemplateAttribute::Media => "media",
            JobTemplateAttribute::PrinterResolution => "printer-resolution",
            JobTemplateAttribute::PrintQuality => "print-quality",
        }
    }

    pub fn from_keyword(s: &str) -> (r: Option<Self>)
        ensures
            r == JobTemplateAttribute::spec_from_keyword(s@),
    {
        if str_eq(s, "job-priority") {
            Some(JobTemplateAttribute::JobPriority)
        } else if str_eq(s, "job-hold-until") {
            Some(JobTemplateAttribute::JobHoldUntil)
        } else if str_eq(s, "job-sheets") {
            Some(JobTemplateAttribute::JobSheets)
        } else if str_eq(s, "multiple-document-handling") {
            Some(JobTemplateAttribute::MultipleDocumentHandling)
        } else if str_eq(s, "copies") {
            Some(JobTemplateAttribute::Copies)
        } else if str_eq(s, "finishings") {
            Some(JobTemplateAttribute::Finishings)
        } else if str_eq(s, "page-ranges") {
            Some(JobTemplateAttribute::PageRanges)
        } else if str_eq(s, "sides") {
            Some(JobTemplateAttribute::Sides)
        } else if str_eq(s, "number-up") {
            Some(JobTemplateAttribute::NumberUp)
        } else if str_eq(s, "orientation-requested") {
            Some(JobTemplateAttribute::OrientationRequested)
        } else if str_eq(s, "media") {
            Some(JobTemplateAttribute::Media)
        } else if str_eq(s, "printer-resolution") {
            Some(JobTemplateAttribute::PrinterResolution)
        } else if str_eq(s, "print-quality") {
            Some(JobTemplateAttribute::PrintQuality)
        } else {
            None
        }
    }

    /// A keyword lookup only succeeds on the exact keyword of the
    /// attribute it returns.
    pub proof fn lemma_from_keyword_exact(s: Seq<char>)
        ensures
            JobTemplateAttribute::spec_from_keyword(s) matches Some(a) ==> a.spec_keyword() == s,
    {
    }

}

impl JobAttribute {
    /// The wire keyword of this attribute name.
    pub open spec fn spec_keyword(self) -> Seq<char> {
        match self {
            JobAttribute::JobUri => "job-uri"@,
            JobAttribute::JobId => "job-id"@,
            JobAttribute::JobPrinterUri => "job-printer-uri"@,
            JobAttribute::JobMoreInfo => "job-more-info"@,
            JobAttribute::JobName => "job-name"@,
            JobAttribute::JobOriginatingUserName => "job-originating-user-name"@,
            JobAttribute::JobState => "job-state"@,
            JobAttribute::JobStateReasons => "job-state-reasons"@,
            JobAttribute::JobStateMessage => "job-state-message"@,
            JobAttribute::JobDetailedStatusMessages => "job-detailed-status-messages"@,
            JobAttribute::JobDocumentAccessErrors => "job-document-access-errors"@,
            JobAttribute::NumberOfDocuments => "number-of-documents"@,
            JobAttribute::OutputDeviceAssigned => "output-device-assigned"@,
            JobAttribute::TimeAtCreation => "time-at-creation"@,
            JobAttribute::TimeAtProcessing => "time-at-processing"@,
            JobAttribute::TimeAtCompleted => "time-at-completed"@,
            JobAttribute::JobPrinterUpTime => "job-printer-up-time"@,
            JobAttribute::DateTimeAtCreation => "date-time-at-creation"@,
            JobAttribute::DateTimeAtProcessing => "date-time-at-processing"@,
            JobAttribute::DateTimeAtCompleted => "date-time-at-completed"@,
            JobAttribute::NumberOfInterveningJobs => "number-of-intervening-jobs"@,
            JobAttribute::JobMessageFromOperator => "job-message-from-operator"@,
            JobAttribute::JobKOctets => "job-k-octets"@,
            JobAttribute::JobImpressions => "job-impressions"@,
            JobAttribute::JobMediaSheets => "job-media-sheets"@,
            JobAttribute::JobKOctetsProcessed => "job-k-octets-processed"@,
            JobAttribute::JobImpressionsCompleted => "job-impressions-completed"@,
            JobAttribute::JobMediaSheetsCompleted => "job-media-sheets-completed"@,
        }
    }

    /// The attribute this wire keyword names, if any.
    pub open spec fn spec_from_keyword(s: Seq<char>) -> Option<Self> {
        if s == "job-uri"@ {
            Some(JobAttribute::JobUri)
        } else if s == "job-id"@ {
            Some(JobAttribute::JobId)
        } else if s == "job-printer-uri"@ {
            Some(JobAttribute::JobPrinterUri)
        } else if s == "job-more-info"@ {
            Some(JobAttribute::JobMoreInfo)
        } else if s == "job-name"@ {
            Some(JobAttribute::JobName)
        } else if s == "job-originating-user-name"@ {
            Some(JobAttribute::JobOriginatingUserName)
        } else if s == "job-state"@ {
            Some(JobAttribute::JobState)
        } else if s == "job-state-reasons"@ {
            Some(JobAttribute::JobStateReasons)
        } else if s == "job-state-message"@ {
            Some(JobAttribute::JobStateMessage)
        } else if s == "job-detailed-status-messages"@ {
            Some(JobAttribute::JobDetailedStatusMessages)
        } else if s == "job-document-access-errors"@ {
            Some(JobAttribute::JobDocumentAccessErrors)
        } else if s == "number-of-documents"@ {
            Some(JobAttribute::NumberOfDocuments)
        } else if s == "output-device-assigned"@ {
            Some(JobAttribute::OutputDeviceAssigned)
        } else if s == "time-at-creation"@ {
            Some(JobAttribute::TimeAtCreation)
        } else if s == "time-at-processing"@ {
            Some(JobAttribute::TimeAtProcessing)
        } else if s == "time-at-completed"@ {
            Some(JobAttribute::TimeAtCompleted)
        } else if s == "job-printer-up-time"@ {
            Some(JobAttribute::JobPrinterUpTime)
        } else if s == "date-time-at-creation"@ {
            Some(JobAttribute::DateTimeAtCreation)
        } else if s == "date-time-at-processing"@ {
            Some(JobAttribute::DateTimeAtProcessing)
        } else if s == "date-time-at-completed"@ {
            Some(JobAttribute::DateTimeAtCompleted)
        } else if s == "number-of-intervening-jobs"@ {
            Some(JobAttribute::NumberOfInterveningJobs)
        } else if s == "job-message-from-operator"@ {
            Some(JobAttribute::JobMessageFromOperator)
        } else if s == "job-k-octets"@ {
            Some(JobAttribute::JobKOctets)
        } else if s == "job-impressions"@ {
            Some(JobAttribute::JobImpressions)
        } else if s == "job-media-sheets"@ {
            Some(JobAttribute::JobMediaSheets)
        } else if s == "job-k-octets-processed"@ {
            Some(JobAttribute::JobKOctetsProcessed)
        } else if s == "job-impressions-completed"@ {
            Some(JobAttribute::JobImpressionsCompleted)
        } else if s == "job-media-sheets-completed"@ {
            Some(JobAttribute::JobMediaSheetsCompleted)
        } else {
            None
        }
    }

    pub fn keyword(self) -> (r: &'static str)
        ensures
            r@ == self.spec_keyword(),
    {
        match self {
            JobAttribute::JobUri => "job-uri",
            JobAttribute::JobId => "job-id",
            JobAttribute::JobPrinterUri => "job-printer-uri",
            JobAttribute::JobMoreInfo => "job-more-info",
            JobAttribute::JobName => "job-name",
            JobAttribute::JobOriginatingUserName => "job-originating-user-name",
            JobAttribute::JobState => "job-state",
            JobAttribute::JobStateReasons => "job-state-reasons",
            JobAttribute::JobStateMessage => "job-state-message",
            JobAttribute::JobDetailedStatusMessages => "job-detailed-status-messages",
            JobAttribute::JobDocumentAccessErrors => "job-document-access-errors",
            JobAttribute::NumberOfDocuments => "number-of-documents",
            JobAttribute::OutputDeviceAssigned => "output-device-assigned",
            JobAttribute::TimeAtCreation => "time-at-creation",
            JobAttribute::TimeAtProcessing => "time-at-processing",
            JobAttribute::TimeAtCompleted => "time-at-completed",
            JobAttribute::JobPrinterUpTime => "job-printer-up-time",
            JobAttribute::DateTimeAtCreation => "date-time-at-creation",
            JobAttribute::DateTimeAtProcessing => "date-time-at-processing",
            JobAttribute::DateTimeAtCompleted => "date-time-at-completed",
            JobAttribute::NumberOfInterveningJobs => "number-of-intervening-jobs",
            JobAttribute::JobMessageFromOperator => "job-message-from-operator",
            JobAttribute::JobKOctets => "job-k-octets",
            JobAttribute::JobImpressions => "job-impressions",
            JobAttribute::JobMediaSheets => "job-media-sheets",
            JobAttribute::JobKOctetsProcessed => "job-k-octets-processed",
            JobAttribute::JobImpressionsCompleted => "job-impressions-completed",
            JobAttribute::JobMediaSheetsCompleted => "job-media-sheets-completed",
        }
    }

    pub fn from_keyword(s: &str) -> (r: Option<Self>)
        ensures
            r == JobAttribute::spec_from_keyword(s@),
    {
        if str_eq(s, "job-uri") {
            Some(JobAttribute::JobUri)
        } else if str_eq(s, "job-id") {
            Some(JobAttribute::JobId)
        } else if str_eq(s, "job-printer-uri") {
            Some(JobAttribute::JobPrinterUri)
        } else if str_eq(s, "job-more-info") {
            Some(JobAttribute::JobMoreInfo)
        } else if str_eq(s, "job-name") {
            Some(JobAttribute::JobName)
        } else if str_eq(s, "job-originating-user-name") {
            Some(JobAttribute::JobOriginatingUserName)
        } else if str_eq(s, "job-state") {
            Some(JobAttribute::JobState)
        } else if str_eq(s, "job-state-reasons") {
            Some(JobAttribute::JobStateReasons)
        } else if str_eq(s, "job-state-message") {
            Some(JobAttribute::JobStateMessage)
        } else if str_eq(s, "job-detailed-status-messages") {
            Some(JobAttribute::JobDetailedStatusMessages)
        } else if str_eq(s, "job-document-access-errors") {
            Some(JobAttribute::JobDocumentAccessErrors)
        } else if str_eq(s, "number-of-documents") {
            Some(JobAttribute::NumberOfDocuments)
        } else if str_eq(s, "output-device-assigned") {
            Some(JobAttribute::OutputDeviceAssigned)
        } else if str_eq(s, "time-at-creation") {
            Some(JobAttribute::TimeAtCreation)
        } else if str_eq(s, "time-at-processing") {
            Some(JobAttribute::TimeAtProcessing)
        } else if str_eq(s, "time-at-completed") {
            Some(JobAttribute::TimeAtCompleted)
        } else if str_eq(s, "job-printer-up-time") {
            Some(JobAttribute::JobPrinterUpTime)
        } else if str_eq(s, "date-time-at-creation") {
            Some(JobAttribute::DateTimeAtCreation)
        } else if str_eq(s, "date-time-at-processing") {
            Some(JobAttribute::DateTimeAtProcessing)
        } else if str_eq(s, "date-time-at-completed") {
            Some(JobAttribute::DateTimeAtCompleted)
        } else if str_eq(s, "number-of-intervening-jobs") {
            Some(JobAttribute::NumberOfInterveningJobs)
        } else if str_eq(s, "job-message-from-operator") {
            Some(JobAttribute::JobMessageFromOperator)
        } else if str_eq(s, "job-k-octets") {
            Some(JobAttribute::JobKOctets)
        } else if str_eq(s, "job-impressions") {
            Some(JobAttribute::JobImpressions)
        } else if str_eq(s, "job-media-sheets") {
            Some(JobAttribute::JobMediaSheets)
        } else if str_eq(s, "job-k-octets-processed") {
            Some(JobAttribute::JobKOctetsProcessed)
        } else if str_eq(s, "job-impressions-completed") {
            Some(JobAttribute::JobImpressionsCompleted)
        } else if str_eq(s, "job-media-sheets-completed") {
            Some(JobAttribute::JobMediaSheetsCompleted)
        } else {
            None
        }
    }

    /// A keyword lookup only succeeds on the exact keyword of the
    /// attribute it returns.
    pub proof fn lemma_from_keyword_exact(s: Seq<char>)
        ensures
            JobAttribute::spec_from_keyword(s) matches Some(a) ==> a.spec_keyword() == s,
    {
    }

}


/// A generalized attribute name: a keyword of one of the four vocabularies,
/// or an `Unsupported` fallback carrying names outside them, so that unknown
/// attributes survive a decode-encode round trip.
#[derive(Debug, Clone)]
pub enum AttributeName {
    Operation(OperationAttribute),
    Printer(PrinterAttribute),
    JobTemplate(JobTemplateAttribute),
    Job(JobAttribute),
    Unsupported(String),
}

/// The model of an attribute name; an unsupported name appears as its raw
/// characters.
#[verifier::ext_equal]
pub enum NameView {
    Operation(OperationAttribute),
    Printer(PrinterAttribute),
    JobTemplate(JobTemplateAttribute),
    Job(JobAttribute),
    Unsupported(Seq<char>),
}

/// The wire text of a name: its keyword, or the raw characters of an
/// unsupported name.
pub open spec fn name_text(n: NameView) -> Seq<char> {
    match n {
        NameView::Operation(a) => a.spec_keyword(),
        NameView::Printer(a) => a.spec_keyword(),
        NameView::JobTemplate(a) => a.spec_keyword(),
        NameView::Job(a) => a.spec_keyword(),
        NameView::Unsupported(s) => s,
    }
}

/// The name a wire text resolves to. The four vocabularies are tried in a
/// fixed order; text outside all of them falls back to `Unsupported`.
pub open spec fn name_of(s: Seq<char>) -> NameView {
    match OperationAttribute::spec_from_keyword(s) {
        Some(a) => NameView::Operation(a),
        None => match PrinterAttribute::spec_from_keyword(s) {
            Some(a) => NameView::Printer(a),
            None => match JobTemplateAttribute::spec_from_keyword(s) {
                Some(a) => NameView::JobTemplate(a),
                None => match JobAttribute::spec_from_keyword(s) {
                    Some(a) => NameView::Job(a),
                    None => NameView::Unsupported(s),
                },
            },
        },
    }
}

/// A canonical name is one that resolves back from its own wire text.
/// Decoding only ever produces canonical names, and only canonical names
/// survive a round trip unchanged.
pub open spec fn canonical_name(n: NameView) -> bool {
    name_of(name_text(n)) == n
}

/// A name encodes faithfully when its text fits the 16-bit length field.
pub open spec fn wf_name(n: NameView) -> bool {
    encode_utf8(name_text(n)).len() <= 0xFFFF
}

/// Resolving a wire text yields a name that carries that very text.
pub proof fn lemma_name_text_of(s: Seq<char>)
    ensures
        name_text(name_of(s)) == s,
{
    OperationAttribute::lemma_from_keyword_exact(s);
    PrinterAttribute::lemma_from_keyword_exact(s);
    JobTemplateAttribute::lemma_from_keyword_exact(s);
    JobAttribute::lemma_from_keyword_exact(s);
}

/// Every name that resolution produces is canonical.
pub proof fn lemma_name_of_canonical(s: Seq<char>)
    ensures
        canonical_name(name_of(s)),
{
    lemma_name_text_of(s);
}


/// An `Operation` keyword name is canonical: resolving its own text lands
/// back on the same attribute, and the text is ASCII, non-empty and short.
pub proof fn lemma_operation_name_canonical(a: OperationAttribute)
    ensures
        canonical_name(NameView::Operation(a)),
        wf_name(NameView::Operation(a)),
        0 < name_text(NameView::Operation(a)).len() <= 36,
        vstd::utf8::is_ascii_chars(name_text(NameView::Operation(a))),
{
    match a {
        OperationAttribute::RequestedAttributes => {
            assert(vstd::utf8::is_ascii_chars("requested-attributes"@) && 0 < "requested-attributes"@.len() <= 36) by {
                reveal_strlit("requested-attributes");
            }
            vstd::utf8::is_ascii_chars_encode_utf8("requested-attributes"@);
            assert(OperationAttribute::spec_from_keyword("requested-attributes"@) == Some(OperationAttribute::RequestedAttributes)) by {
                reveal_strlit("requested-attributes");
            }
            assert(canonical_name(NameView::Operation(a)));
        },
        OperationAttribute::PrinterUri => {
            assert(vstd::utf8::is_ascii_chars("printer-uri"@) && 0 < "printer-uri"@.len() <= 36) by {
                reveal_strlit("printer-uri");
            }
            vstd::utf8::is_ascii_chars_encode_utf8("printer-uri"@);
            assert(OperationAttribute::spec_from_keyword("printer-uri"@) == Some(OperationAttribute::PrinterUri)) by {
                reveal_strlit("requested-attributes");
                reveal_strlit("printer-uri");
            }
            assert(canonical_name(NameView::Operation(a)));
        },
        OperationAttribute::AttributesCharset => {
            assert(vstd::utf8::is_ascii_chars("attributes-charset"@) && 0 < "attributes-charset"@.len() <= 36) by {
                reveal_strlit("attributes-charset");
            }
            vstd::utf8::is_ascii_chars_encode_utf8("attributes-charset"@);
            assert(OperationAttribute::spec_from_keyword("attributes-charset"@) == Some(OperationAttribute::AttributesCharset)) by {
                reveal_strlit("requested-attributes");
                reveal_strlit("printer-uri");
                reveal_strlit("attributes-charset");
            }
            assert(canonical_name(NameView::Operation(a)));
        },
        OperationAttribute::AttributesNaturalLanguage => {
            assert(vstd::utf8::is_ascii_chars("attributes-natural-language"@) && 0 < "attributes-natural-language"@.len() <= 36) by {
                reveal_strlit("attributes-natural-language");
            }
            vstd::utf8::is_ascii_chars_encode_utf8("attributes-natural-language"@);
            assert(OperationAttribute::spec_from_keyword("attributes-natural-language"@) == Some(OperationAttribute::AttributesNaturalLanguage)) by {
                reveal_strlit("requested-attributes");
                reveal_strlit("printer-uri");
                reveal_strlit("attributes-charset");
                reveal_strlit("attributes-natural-language");
            }
            assert(canonical_name(NameView::Operation(a)));
        },
    }
}

/// A `Printer` keyword name is canonical: no earlier vocabulary claims its
/// keyword, so resolving its text lands back on the same attribute.
pub proof fn lemma_printer_name_canonical(a: PrinterAttribute)
    ensures
        canonical_name(NameView::Printer(a)),
        wf_name(NameView::Printer(a)),
        0 < name_text(NameView::Printer(a)).len() <= 36,
        vstd::utf8::is_ascii_chars(name_text(NameView::Printer(a))),
{
    match a {
        PrinterAttribute::PrinterUriSupported => {
            assert(vstd::utf8::is_ascii_chars("printer-uri-supported"@) && 0 < "printer-uri-supported"@.len() <= 36) by {
                reveal_strlit("printer-uri-supported");
            }
            vstd::utf8::is_ascii_chars_encode_utf8("printer-uri-supported"@);
            assert(OperationAttribute::spec_from_keyword("printer-uri-supported"@) is None) by {
                reveal_strlit("printer-uri-supported");
                reveal_strlit("requested-attributes");
                reveal_strlit("printer-uri");
                reveal_strlit("attributes-charset");
                reveal_strlit("attributes-natural-language");
            }
            assert(PrinterAttribute::spec_from_keyword("printer-uri-supported"@) == Some(PrinterAttribute::PrinterUriSupported)) by {
                reveal_strlit("printer-uri-supported");
            }
            assert(canonical_name(NameView::Printer(a)));
        },
        PrinterAttribute::UriSecuritySupported => {
            assert(vstd::utf8::is_ascii_chars("uri-security-supported"@) && 0 < "uri-security-supported"@.len() <= 36) by {
                reveal_strlit("uri-security-supported");
            }
            vstd::utf8::is_ascii_chars_encode_utf8("uri-security-supported"@);
            assert(OperationAttribute::spec_from_keyword("uri-security-supported"@) is None) by {
                reveal_strlit("uri-security-supported");
                reveal_strlit("requested-attributes");
                reveal_strlit("printer-uri");
                reveal_strlit("attributes-charset");
                reveal_strlit("attributes-natural-language");
            }
            assert(PrinterAttribute::spec_from_keyword("uri-security-supported"@) == Some(PrinterAttribute::UriSecuritySupported)) by {
                reveal_strlit("printer-uri-supported");
                reveal_strlit("uri-security-supported");
            }
            assert(canonical_name(NameView::Printer(a)));
        },
        PrinterAttribute::UriAuthenticationSupported => {
            assert(vstd::utf8::is_ascii_chars("uri-authentication-supported"@) && 0 < "uri-authentication-supported"@.len() <= 36) by {
                reveal_strlit("uri-authentication-supported");
            }
            vstd::utf8::is_ascii_chars_encode_utf8("uri-authentication-supported"@);
            assert(OperationAttribute::spec_from_keyword("uri-authentication-supported"@) is None) by {
                reveal_strlit("uri-authentication-supported");
                reveal_strlit("requested-attributes");
                reveal_strlit("printer-uri");
                reveal_strlit("attributes-charset");
                reveal_strlit("attributes-natural-language");
            }
            assert(PrinterAttribute::spec_from_keyword("uri-authentication-supported"@) == Some(PrinterAttribute::UriAuthenticationSupported)) by {
                reveal_strlit("printer-uri-supported");
                reveal_strlit("uri-security-supported");
                reveal_strlit("uri-authentication-supported");
            }
            assert(canonical_name(NameView::Printer(a)));
        },
        PrinterAttribute::PrinterName => {
            assert(vstd::utf8::is_ascii_chars("printer-name"@) && 0 < "printer-name"@.len() <= 36) by {
                reveal_strlit("printer-name");
            }
            vstd::utf8::is_ascii_chars_encode_utf8("printer-name"@);
            assert(OperationAttribute::spec_from_keyword("printer-name"@) is None) by {
                reveal_strlit("printer-name");
                reveal_strlit("requested-attributes");
                reveal_strlit("printer-uri");
                reveal_strlit("attributes-charset");
                reveal_strlit("attributes-natural-language");
            }
            assert(PrinterAttribute::spec_from_keyword("printer-name"@) == Some(PrinterAttribute::PrinterName)) by {
                reveal_strlit("printer-uri-supported");
                reveal_strlit("uri-security-supported");
                reveal_strlit("uri-authentication-supported");
                reveal_strlit("printer-name");
            }
            assert(canonical_name(NameView::Printer(a)));
        },
        PrinterAttribute::PrinterLocation => {
            assert(vstd::utf8::is_ascii_chars("printer-location"@) && 0 < "printer-location"@.len() <= 36) by {
                reveal_strlit("printer-location");
            }
            vstd::utf8::is_ascii_chars_encode_utf8("printer-location"@);
            assert(OperationAttribute::spec_from_keyword("printer-location"@) is None) by {
                reveal_strlit("printer-location");
                reveal_strlit("requested-attributes");
                reveal_strlit("printer-uri");
                reveal_strlit("attributes-charset");
                reveal_strlit("attributes-natural-language");
            }
            assert(PrinterAttribute::spec_from_keyword("printer-location"@) == Some(PrinterAttribute::PrinterLocation)) by {
                reveal_strlit("printer-uri-supported");
                reveal_strlit("uri-security-supported");
                reveal_strlit("uri-authentication-supported");
                reveal_strlit("printer-name");
                reveal_strlit("printer-location");
            }
            assert(canonical_name(NameView::Printer(a)));
        },
        PrinterAttribute::PrinterInfo => {
            assert(vstd::utf8::is_ascii_chars("printer-info"@) && 0 < "printer-info"@.len() <= 36) by {
                reveal_strlit("printer-info");
            }
            vstd::utf8::is_ascii_chars_encode_utf8("printer-info"@);
            assert(OperationAttribute::spec_from_keyword("printer-info"@) is None) by {
                reveal_strlit("printer-info");
                reveal_strlit("requested-attributes");
                reveal_strlit("printer-uri");
                reveal_strlit("attributes-charset");
                reveal_strlit("attributes-natural-language");
            }
            assert(PrinterAttribute::spec_from_keyword("printer-info"@) == Some(PrinterAttribute::PrinterInfo)) by {
                reveal_strlit("printer-uri-supported");
                reveal_strlit("uri-security-supported");
                reveal_strlit("uri-authentication-supported");
                reveal_strlit("printer-name");
                reveal_strlit("printer-location");
                reveal_strlit("printer-info");
                assert("printer-info"@[8] != "printer-name"@[8]);
            }
            assert(canonical_name(NameView::Printer(a)));
        },
        PrinterAttribute::PrinterMoreInfo => {
            assert(vstd::utf8::is_ascii_chars("printer-more-info"@) && 0 < "printer-more-info"@.len() <= 36) by {
                reveal_strlit("printer-more-info");
            }
            vstd::utf8::is_ascii_chars_encode_utf8("printer-more-info"@);
            assert(OperationAttribute::spec_from_keyword("printer-more-info"@) is None) by {
                reveal_strlit("printer-more-info");
                reveal_strlit("requested-attributes");
                reveal_strlit("printer-uri");
                reveal_strlit("attributes-charset");
                reveal_strlit("attributes-natural-language");
            }
            assert(PrinterAttribute::spec_from_keyword("printer-more-info"@) == Some(PrinterAttribute::PrinterMoreInfo)) by {
                reveal_strlit("printer-uri-supported");
                reveal_strlit("uri-security-supported");
                reveal_strlit("uri-authentication-supported");
                reveal_strlit("printer-name");
                reveal_strlit("printer-location");
                reveal_strlit("printer-info");
                reveal_strlit("printer-more-info");
            }
            assert(canonical_name(NameView::Printer(a)));
        },
        PrinterAttribute::PrinterDriverInstaller => {
            assert(vstd::utf8::is_ascii_chars("printer-driver-installer"@) && 0 < "printer-driver-installer"@.len() <= 36) by {
                reveal_strlit("printer-driver-installer");
            }
            vstd::utf8::is_ascii_chars_encode_utf8("printer-driver-installer"@);
            assert(OperationAttribute::spec_from_keyword("printer-driver-installer"@) is None) by {
                reveal_strlit("printer-driver-installer");
                reveal_strlit("requested-attributes");
                reveal_strlit("printer-uri");
                reveal_strlit("attributes-charset");
                reveal_strlit("attributes-natural-language");
            }
            assert(PrinterAttribute::spec_from_keyword("printer-driver-installer"@) == Some(PrinterAttribute::PrinterDriverInstaller)) by {
                reveal_strlit("printer-uri-supported");
                reveal_strlit("uri-security-supported");
                reveal_strlit("uri-authentication-supported");
                reveal_strlit("printer-name");
                reveal_strlit("printer-location");
                reveal_strlit("printer-info");
                reveal_strlit("printer-more-info");
                reveal_strlit("printer-driver-installer");
            }
            assert(canonical_name(NameView::Printer(a)));
        },
        PrinterAttribute::PrinterMakeAndModel => {
            assert(vstd::utf8::is_ascii_chars("printer-make-and-model"@) && 0 < "printer-make-and-model"@.len() <= 36) by {
                reveal_strlit("printer-make-and-model");
            }
            vstd::utf8::is_ascii_chars_encode_utf8("printer-make-and-model"@);
            assert(OperationAttribute::spec_from_keyword("printer-make-and-model"@) is None) by {
                reveal_strlit("printer-make-and-model");
                reveal_strlit("requested-attributes");
                reveal_strlit("printer-uri");
                reveal_strlit("attributes-charset");
                reveal_strlit("attributes-natural-language");
            }
            assert(PrinterAttribute::spec_from_keyword("printer-make-and-model"@) == Some(PrinterAttribute::PrinterMakeAndModel)) by {
                reveal_strlit("printer-uri-supported");
                reveal_strlit("uri-security-supported");
                reveal_strlit("uri-authentication-supported");
                reveal_strlit("printer-name");
                reveal_strlit("printer-location");
                reveal_strlit("printer-info");
                reveal_strlit("printer-more-info");
                reveal_strlit("printer-driver-installer");
                reveal_strlit("printer-make-and-model");
                assert("printer-make-and-model"@[0] != "uri-security-supported"@[0]);
            }
            assert(canonical_name(NameView::Printer(a)));
        },
        PrinterAttribute::PrinterMoreInfoManufacturer => {
            assert(vstd::utf8::is_ascii_chars("printer-more-info-manufacturer"@) && 0 < "printer-more-info-manufacturer"@.len() <= 36) by {
                reveal_strlit("printer-more-info-manufacturer");
            }
            vstd::utf8::is_ascii_chars_encode_utf8("printer-more-info-manufacturer"@);
            assert(OperationAttribute::spec_from_keyword("printer-more-info-manufacturer"@) is None) by {
                reveal_strlit("printer-more-info-manufacturer");
                reveal_strlit("requested-attributes");
                reveal_strlit("printer-uri");
                reveal_strlit("attributes-charset");
                reveal_strlit("attributes-natural-language");
            }
            assert(PrinterAttribute::spec_from_keyword("printer-more-info-manufacturer"@) == Some(PrinterAttribute::PrinterMoreInfoManufacturer)) by {
                reveal_strlit("printer-uri-supported");
                reveal_strlit("uri-security-supported");
                reveal_strlit("uri-authentication-supported");
                reveal_strlit("printer-name");
                reveal_strlit("printer-location");
                reveal_strlit("printer-info");
                reveal_strlit("printer-more-info");
                reveal_strlit("printer-driver-installer");
                reveal_strlit("printer-make-and-model");
                reveal_strlit("printer-more-info-manufacturer");
            }
            assert(canonical_name(NameView::Printer(a)));
        },
        PrinterAttribute::PrinterState => {
            assert(vstd::utf8::is_ascii_chars("printer-state"@) && 0 < "printer-state"@.len() <= 36) by {
                reveal_strlit("printer-state");
            }
            vstd::utf8::is_ascii_chars_encode_utf8("printer-state"@);
            assert(OperationAttribute::spec_from_keyword("printer-state"@) is None) by {
                reveal_strlit("printer-state");
                reveal_strlit("requested-attributes");
                reveal_strlit("printer-uri");
                reveal_strlit("attributes-charset");
                reveal_strlit("attributes-natural-language");
            }
            assert(PrinterAttribute::spec_from_keyword("printer-state"@) == Some(PrinterAttribute::PrinterState)) by {
                reveal_strlit("printer-uri-supported");
                reveal_strlit("uri-security-supported");
                reveal_strlit("uri-authentication-supported");
                reveal_strlit("printer-name");
                reveal_strlit("printer-location");
                reveal_strlit("printer-info");
                reveal_strlit("printer-more-info");
                reveal_strlit("printer-driver-installer");
                reveal_strlit("printer-make-and-model");
                reveal_strlit("printer-more-info-manufacturer");
                reveal_strlit("printer-state");
            }
            assert(canonical_name(NameView::Printer(a)));
        },
        PrinterAttribute::PrinterStateReasons => {
            assert(vstd::utf8::is_ascii_chars("printer-state-reasons"@) && 0 < "printer-state-reasons"@.len() <= 36) by {
                reveal_strlit("printer-state-reasons");
            }
            vstd::utf8::is_ascii_chars_encode_utf8("printer-state-reasons"@);
            assert(OperationAttribute::spec_from_keyword("printer-state-reasons"@) is None) by {
                reveal_strlit("printer-state-reasons");
                reveal_strlit("requested-attributes");
                reveal_strlit("printer-uri");
                reveal_strlit("attributes-charset");
                reveal_strlit("attributes-natural-language");
            }
            assert(PrinterAttribute::spec_from_keyword("printer-state-reasons"@) == Some(PrinterAttribute::PrinterStateReasons)) by {
                reveal_strlit("printer-uri-supported");
                reveal_strlit("uri-security-supported");
                reveal_strlit("uri-authentication-supported");
                reveal_strlit("printer-name");
                reveal_strlit("printer-location");
                reveal_strlit("printer-info");
                reveal_strlit("printer-more-info");
                reveal_strlit("printer-driver-installer");
                reveal_strlit("printer-make-and-model");
                reveal_strlit("printer-more-info-manufacturer");
                reveal_strlit("printer-state");
                reveal_strlit("printer-state-reasons");
                assert("printer-state-reasons"@[8] != "printer-uri-supported"@[8]);
            }
            assert(canonical_name(NameView::Printer(a)));
        },
        PrinterAttribute::PrinterStateMessage => {
            assert(vstd::utf8::is_ascii_chars("printer-state-message"@) && 0 < "printer-state-message"@.len() <= 36) by {
                reveal_strlit("printer-state-message");
            }
            vstd::utf8::is_ascii_chars_encode_utf8("printer-state-message"@);
            assert(OperationAttribute::spec_from_keyword("printer-state-message"@) is None) by {
                reveal_strlit("printer-state-message");
                reveal_strlit("requested-attributes");
                reveal_strlit("printer-uri");
                reveal_strlit("attributes-charset");
                reveal_strlit("attributes-natural-language");
            }
            assert(PrinterAttribute::spec_from_keyword("printer-state-message"@) == Some(PrinterAttribute::PrinterStateMessage)) by {
                reveal_strlit("printer-uri-supported");
                reveal_strlit("uri-security-supported");
                reveal_strlit("uri-authentication-supported");
                reveal_strlit("printer-name");
                reveal_strlit("printer-location");
                reveal_strlit("printer-info");
                reveal_strlit("printer-more-info");
                reveal_strlit("printer-driver-installer");
                reveal_strlit("printer-make-and-model");
                reveal_strlit("printer-more-info-manufacturer");
                reveal_strlit("printer-state");
                reveal_strlit("printer-state-reasons");
                reveal_strlit("printer-state-message");
                assert("printer-state-message"@[8] != "printer-uri-supported"@[8]);
                assert("printer-state-message"@[14] != "printer-state-reasons"@[14]);
            }
            assert(canonical_name(NameView::Printer(a)));
        },
        PrinterAttribute::IppVersionsSupported => {
            assert(vstd::utf8::is_ascii_chars("ipp-versions-supported"@) && 0 < "ipp-versions-supported"@.len() <= 36) by {
                reveal_strlit("ipp-versions-supported");
            }
            vstd::utf8::is_ascii_chars_encode_utf8("ipp-versions-supported"@);
            assert(OperationAttribute::spec_from_keyword("ipp-versions-supported"@) is None) by {
                reveal_strlit("ipp-versions-supported");
                reveal_strlit("requested-attributes");
                reveal_strlit("printer-uri");
                reveal_strlit("attributes-charset");
                reveal_strlit("attributes-natural-language");
            }
            assert(PrinterAttribute::spec_from_keyword("ipp-versions-supported"@) == Some(PrinterAttribute::IppVersionsSupported)) by {
                reveal_strlit("printer-uri-supported");
                reveal_strlit("uri-security-supported");
                reveal_strlit("uri-authentication-supported");
                reveal_strlit("printer-name");
                reveal_strlit("printer-location");
                reveal_strlit("printer-info");
                reveal_strlit("printer-more-info");
                reveal_strlit("printer-driver-installer");
                reveal_strlit("printer-make-and-model");
                reveal_strlit("printer-more-info-manufacturer");
                reveal_strlit("printer-state");
                reveal_strlit("printer-state-reasons");
                reveal_strlit("printer-state-message");
                reveal_strlit("ipp-versions-supported");
                assert("ipp-versions-supported"@[0] != "uri-security-supported"@[0]);
                assert("ipp-versions-supported"@[0] != "printer-make-and-model"@[0]);
            }
            assert(canonical_name(NameView::Printer(a)));
        },
        PrinterAttribute::OperationsSupported => {
            assert(vstd::utf8::is_ascii_chars("operations-supported"@) && 0 < "operations-supported"@.len() <= 36) by {
                reveal_strlit("operations-supported");
            }
            vstd::utf8::is_ascii_chars_encode_utf8("operations-supported"@);
            assert(OperationAttribute::spec_from_keyword("operations-supported"@) is None) by {
                reveal_strlit("operations-supported");
                reveal_strlit("requested-attributes");
                reveal_strlit("printer-uri");
                reveal_strlit("attributes-charset");
                reveal_strlit("attributes-natural-language");
                assert("operations-supported"@[0] != "requested-attributes"@[0]);
            }
            assert(PrinterAttribute::spec_from_keyword("operations-supported"@) == Some(PrinterAttribute::OperationsSupported)) by {
                reveal_strlit("printer-uri-supported");
                reveal_strlit("uri-security-supported");
                reveal_strlit("uri-authentication-supported");
                reveal_strlit("printer-name");
                reveal_strlit("printer-location");
                reveal_strlit("printer-info");
                reveal_strlit("printer-more-info");
                reveal_strlit("printer-driver-installer");
                reveal_strlit("printer-make-and-model");
                reveal_strlit("printer-more-info-manufacturer");
                reveal_strlit("printer-state");
                reveal_strlit("printer-state-reasons");
                reveal_strlit("printer-state-message");
                reveal_strlit("ipp-versions-supported");
                reveal_strlit("operations-supported");
            }
            assert(canonical_name(NameView::Printer(a)));
        },
        PrinterAttribute::MultipleDocumentJobsSupported => {
            assert(vstd::utf8::is_ascii_chars("multiple-document-jobs-supported"@) && 0 < "multiple-document-jobs-supported"@.len() <= 36) by {
                reveal_strlit("multiple-document-jobs-supported");
            }
            vstd::utf8::is_ascii_chars_encode_utf8("multiple-document-jobs-supported"@);
            assert(OperationAttribute::spec_from_keyword("multiple-document-jobs-supported"@) is None) by {
                reveal_strlit("multiple-document-jobs-supported");
                reveal_strlit("requested-attributes");
                reveal_strlit("printer-uri");
                reveal_strlit("attributes-charset");
                reveal_strlit("attributes-natural-language");
            }
            assert(PrinterAttribute::spec_from_keyword("multiple-document-jobs-supported"@) == Some(PrinterAttribute::MultipleDocumentJobsSupported)) by {
                reveal_strlit("printer-uri-supported");
                reveal_strlit("uri-security-supported");
                reveal_strlit("uri-authentication-supported");
                reveal_strlit("printer-name");
                reveal_strlit("printer-location");
                reveal_strlit("printer-info");
                reveal_strlit("printer-more-info");
                reveal_strlit("printer-driver-installer");
                reveal_strlit("printer-make-and-model");
                reveal_strlit("printer-more-info-manufacturer");
                reveal_strlit("printer-state");
                reveal_strlit("printer-state-reasons");
                reveal_strlit("printer-state-message");
                reveal_strlit("ipp-versions-supported");
                reveal_strlit("operations-supported");
                reveal_strlit("multiple-document-jobs-supported");
            }
            assert(canonical_name(NameView::Printer(a)));
        },
        PrinterAttribute::CharsetConfigured => {
            assert(vstd::utf8::is_ascii_chars("charset-configured"@) && 0 < "charset-configured"@.len() <= 36) by {
                reveal_strlit("charset-configured");
            }
            vstd::utf8::is_ascii_chars_encode_utf8("charset-configured"@);
            assert(OperationAttribute::spec_from_keyword("charset-configured"@) is None) by {
                reveal_strlit("charset-configured");
                reveal_strlit("requested-attributes");
                reveal_strlit("printer-uri");
                reveal_strlit("attributes-charset");
                reveal_strlit("attributes-natural-language");
                assert("charset-configured"@[0] != "attributes-charset"@[0]);
            }
            assert(PrinterAttribute::spec_from_keyword("charset-configured"@) == Some(PrinterAttribute::CharsetConfigured)) by {
                reveal_strlit("printer-uri-supported");
                reveal_strlit("uri-security-supported");
                reveal_strlit("uri-authentication-supported");
                reveal_strlit("printer-name");
                reveal_strlit("printer-location");
                reveal_strlit("printer-info");
                reveal_strlit("printer-more-info");
                reveal_strlit("printer-driver-installer");
                reveal_strlit("printer-make-and-model");
                reveal_strlit("printer-more-info-manufacturer");
                reveal_strlit("printer-state");
                reveal_strlit("printer-state-reasons");
                reveal_strlit("printer-state-message");
                reveal_strlit("ipp-versions-supported");
                reveal_strlit("operations-supported");
                reveal_strlit("multiple-document-jobs-supported");
                reveal_strlit("charset-configured");
            }
            assert(canonical_name(NameView::Printer(a)));
        },
        PrinterAttribute::CharsetSupported => {
            assert(vstd::utf8::is_ascii_chars("charset-supported"@) && 0 < "charset-supported"@.len() <= 36) by {
                reveal_strlit("charset-supported");
            }
            vstd::utf8::is_ascii_chars_encode_utf8("charset-supported"@);
            assert(OperationAttribute::spec_from_keyword("charset-supported"@) is None) by {
                reveal_strlit("charset-supported");
                reveal_strlit("requested-attributes");
                reveal_strlit("printer-uri");
                reveal_strlit("attributes-charset");
                reveal_strlit("attributes-natural-language");
            }
            assert(PrinterAttribute::spec_from_keyword("charset-supported"@) == Some(PrinterAttribute::CharsetSupported)) by {
                reveal_strlit("printer-uri-supported");
                reveal_strlit("uri-security-supported");
                reveal_strlit("uri-authentication-supported");
                reveal_strlit("printer-name");
                reveal_strlit("printer-location");
                reveal_strlit("printer-info");
                reveal_strlit("printer-more-info");
                reveal_strlit("printer-driver-installer");
                reveal_strlit("printer-make-and-model");
                reveal_strlit("printer-more-info-manufacturer");
                reveal_strlit("printer-state");
                reveal_strlit("printer-state-reasons");
                reveal_strlit("printer-state-message");
                reveal_strlit("ipp-versions-supported");
                reveal_strlit("operations-supported");
                reveal_strlit("multiple-document-jobs-supported");
                reveal_strlit("charset-configured");
                reveal_strlit("charset-supported");
                assert("charset-supported"@[0] != "printer-more-info"@[0]);
            }
            assert(canonical_name(NameView::Printer(a)));
        },
        PrinterAttribute::NaturalLanguageConfigured => {
            assert(vstd::utf8::is_ascii_chars("natural-language-configured"@) && 0 < "natural-language-configured"@.len() <= 36) by {
                reveal_strlit("natural-language-configured");
            }
            vstd::utf8::is_ascii_chars_encode_utf8("natural-language-configured"@);
            assert(OperationAttribute::spec_from_keyword("natural-language-configured"@) is None) by {
                reveal_strlit("natural-language-configured");
                reveal_strlit("requested-attributes");
                reveal_strlit("printer-uri");
                reveal_strlit("attributes-charset");
                reveal_strlit("attributes-natural-language");
                assert("natural-language-configured"@[0] != "attributes-natural-language"@[0]);
            }
            assert(PrinterAttribute::spec_from_keyword("natural-language-configured"@) == Some(PrinterAttribute::NaturalLanguageConfigured)) by {
                reveal_strlit("printer-uri-supported");
                reveal_strlit("uri-security-supported");
                reveal_strlit("uri-authentication-supported");
                reveal_strlit("printer-name");
                reveal_strlit("printer-location");
                reveal_strlit("printer-info");
                reveal_strlit("printer-more-info");
                reveal_strlit("printer-driver-installer");
                reveal_strlit("printer-make-and-model");
                reveal_strlit("printer-more-info-manufacturer");
                reveal_strlit("printer-state");
                reveal_strlit("printer-state-reasons");
                reveal_strlit("printer-state-message");
                reveal_strlit("ipp-versions-supported");
                reveal_strlit("operations-supported");
                reveal_strlit("multiple-document-jobs-supported");
                reveal_strlit("charset-configured");
                reveal_strlit("charset-supported");
                reveal_strlit("natural-language-configured");
            }
            assert(canonical_name(NameView::Printer(a)));
        },
        PrinterAttribute::GeneratedNaturalLanguageSupported => {
            assert(vstd::utf8::is_ascii_chars("generated-natural-language-supported"@) && 0 < "generated-natural-language-supported"@.len() <= 36) by {
                reveal_strlit("generated-natural-language-supported");
            }
            vstd::utf8::is_ascii_chars_encode_utf8("generated-natural-language-supported"@);
            assert(OperationAttribute::spec_from_keyword("generated-natural-language-supported"@) is None) by {
                reveal_strlit("generated-natural-language-supported");
                reveal_strlit("requested-attributes");
                reveal_strlit("printer-uri");
                reveal_strlit("attributes-charset");
                reveal_strlit("attributes-natural-language");
            }
            assert(PrinterAttribute::spec_from_keyword("generated-natural-language-supported"@) == Some(PrinterAttribute::GeneratedNaturalLanguageSupported)) by {
                reveal_strlit("printer-uri-supported");
                reveal_strlit("uri-security-supported");
                reveal_strlit("uri-authentication-supported");
                reveal_strlit("printer-name");
                reveal_strlit("printer-location");
                reveal_strlit("printer-info");
                reveal_strlit("printer-more-info");
                reveal_strlit("printer-driver-installer");
                reveal_strlit("printer-make-and-model");
                reveal_strlit("printer-more-info-manufacturer");
                reveal_strlit("printer-state");
                reveal_strlit("printer-state-reasons");
                reveal_strlit("printer-state-message");
                reveal_strlit("ipp-versions-supported");
                reveal_strlit("operations-supported");
                reveal_strlit("multiple-document-jobs-supported");
                reveal_strlit("charset-configured");
                reveal_strlit("charset-supported");
                reveal_strlit("natural-language-configured");
                reveal_strlit("generated-natural-language-supported");
            }
            assert(canonical_name(NameView::Printer(a)));
        },
        PrinterAttribute::DocumentFormatDefault => {
            assert(vstd::utf8::is_ascii_chars("document-format-default"@) && 0 < "document-format-default"@.len() <= 36) by {
                reveal_strlit("document-format-default");
            }
            vstd::utf8::is_ascii_chars_encode_utf8("document-format-default"@);
            assert(OperationAttribute::spec_from_keyword("document-format-default"@) is None) by {
                reveal_strlit("document-format-default");
                reveal_strlit("requested-attributes");
                reveal_strlit("printer-uri");
                reveal_strlit("attributes-charset");
                reveal_strlit("attributes-natural-language");
            }
            assert(PrinterAttribute::spec_from_keyword("document-format-default"@) == Some(PrinterAttribute::DocumentFormatDefault)) by {
                reveal_strlit("printer-uri-supported");
                reveal_strlit("uri-security-supported");
                reveal_strlit("uri-authentication-supported");
                reveal_strlit("printer-name");
                reveal_strlit("printer-location");
                reveal_strlit("printer-info");
                reveal_strlit("printer-more-info");
                reveal_strlit("printer-driver-installer");
                reveal_strlit("printer-make-and-model");
                reveal_strlit("printer-more-info-manufacturer");
                reveal_strlit("printer-state");
                reveal_strlit("printer-state-reasons");
                reveal_strlit("printer-state-message");
                reveal_strlit("ipp-versions-supported");
                reveal_strlit("operations-supported");
                reveal_strlit("multiple-document-jobs-supported");
                reveal_strlit("charset-configured");
                reveal_strlit("charset-supported");
                reveal_strlit("natural-language-configured");
                reveal_strlit("generated-natural-language-supported");
                reveal_strlit("document-format-default");
            }
            assert(canonical_name(NameView::Printer(a)));
        },
        PrinterAttribute::DocumentFormatSupported => {
            assert(vstd::utf8::is_ascii_chars("document-format-supported"@) && 0 < "document-format-supported"@.len() <= 36) by {
                reveal_strlit("document-format-supported");
            }
            vstd::utf8::is_ascii_chars_encode_utf8("document-format-supported"@);
            assert(OperationAttribute::spec_from_keyword("document-format-supported"@) is None) by {
                reveal_strlit("document-format-supported");
                reveal_strlit("requested-attributes");
                reveal_strlit("printer-uri");
                reveal_strlit("attributes-charset");
                reveal_strlit("attributes-natural-language");
            }
            assert(PrinterAttribute::spec_from_keyword("document-format-supported"@) == Some(PrinterAttribute::DocumentFormatSupported)) by {
                reveal_strlit("printer-uri-supported");
                reveal_strlit("uri-security-supported");
                reveal_strlit("uri-authentication-supported");
                reveal_strlit("printer-name");
                reveal_strlit("printer-location");
                reveal_strlit("printer-info");
                reveal_strlit("printer-more-info");
                reveal_strlit("printer-driver-installer");
                reveal_strlit("printer-make-and-model");
                reveal_strlit("printer-more-info-manufacturer");
                reveal_strlit("printer-state");
                reveal_strlit("printer-state-reasons");
                reveal_strlit("printer-state-message");
                reveal_strlit("ipp-versions-supported");
                reveal_strlit("operations-supported");
                reveal_strlit("multiple-document-jobs-supported");
                reveal_strlit("charset-configured");
                reveal_strlit("charset-supported");
                reveal_strlit("natural-language-configured");
                reveal_strlit("generated-natural-language-supported");
                reveal_strlit("document-format-default");
                reveal_strlit("document-format-supported");
            }
            assert(canonical_name(NameView::Printer(a)));
        },
        PrinterAttribute::PrinterIsAcceptingJobs => {
            assert(vstd::utf8::is_ascii_chars("printer-is-accepting-jobs"@) && 0 < "printer-is-accepting-jobs"@.len() <= 36) by {
                reveal_strlit("printer-is-accepting-jobs");
            }
            vstd::utf8::is_ascii_chars_encode_utf8("printer-is-accepting-jobs"@);
            assert(OperationAttribute::spec_from_keyword("printer-is-accepting-jobs"@) is None) by {
                reveal_strlit("printer-is-accepting-jobs");
                reveal_strlit("requested-attributes");
                reveal_strlit("printer-uri");
                reveal_strlit("attributes-charset");
                reveal_strlit("attributes-natural-language");
            }
            assert(PrinterAttribute::spec_from_keyword("printer-is-accepting-jobs"@) == Some(PrinterAttribute::PrinterIsAcceptingJobs)) by {
                reveal_strlit("printer-uri-supported");
                reveal_strlit("uri-security-supported");
                reveal_strlit("uri-authentication-supported");
                reveal_strlit("printer-name");
                reveal_strlit("printer-location");
                reveal_strlit("printer-info");
                reveal_strlit("printer-more-info");
                reveal_strlit("printer-driver-installer");
                reveal_strlit("printer-make-and-model");
                reveal_strlit("printer-more-info-manufacturer");
                reveal_strlit("printer-state");
                reveal_strlit("printer-state-reasons");
                reveal_strlit("printer-state-message");
                reveal_strlit("ipp-versions-supported");
                reveal_strlit("operations-supported");
                reveal_strlit("multiple-document-jobs-supported");
                reveal_strlit("charset-configured");
                reveal_strlit("charset-supported");
                reveal_strlit("natural-language-configured");
                reveal_strlit("generated-natural-language-supported");
                reveal_strlit("document-format-default");
                reveal_strlit("document-format-supported");
                reveal_strlit("printer-is-accepting-jobs");
                assert("printer-is-accepting-jobs"@[0] != "document-format-supported"@[0]);
            }
            assert(canonical_name(NameView::Printer(a)));
        },
        PrinterAttribute::QueuedJobCount => {
            assert(vstd::utf8::is_ascii_chars("queued-job-count"@) && 0 < "queued-job-count"@.len() <= 36) by {
                reveal_strlit("queued-job-count");
            }
            vstd::utf8::is_ascii_chars_encode_utf8("queued-job-count"@);
            assert(OperationAttribute::spec_from_keyword("queued-job-count"@) is None) by {
                reveal_strlit("queued-job-count");
                reveal_strlit("requested-attributes");
                reveal_strlit("printer-uri");
                reveal_strlit("attributes-charset");
                reveal_strlit("attributes-natural-language");
            }
            assert(PrinterAttribute::spec_from_keyword("queued-job-count"@) == Some(PrinterAttribute::QueuedJobCount)) by {
                reveal_strlit("printer-uri-supported");
                reveal_strlit("uri-security-supported");
                reveal_strlit("uri-authentication-supported");
                reveal_strlit("printer-name");
                reveal_strlit("printer-location");
                reveal_strlit("printer-info");
                reveal_strlit("printer-more-info");
                reveal_strlit("printer-driver-installer");
                reveal_strlit("printer-make-and-model");
                reveal_strlit("printer-more-info-manufacturer");
                reveal_strlit("printer-state");
                reveal_strlit("printer-state-reasons");
                reveal_strlit("printer-state-message");
                reveal_strlit("ipp-versions-supported");
                reveal_strlit("operations-supported");
                reveal_strlit("multiple-document-jobs-supported");
                reveal_strlit("charset-configured");
                reveal_strlit("charset-supported");
                reveal_strlit("natural-language-configured");
                reveal_strlit("generated-natural-language-supported");
                reveal_strlit("document-format-default");
                reveal_strlit("document-format-supported");
                reveal_strlit("printer-is-accepting-jobs");
                reveal_strlit("queued-job-count");
                assert("queued-job-count"@[0] != "printer-location"@[0]);
            }
            assert(canonical_name(NameView::Printer(a)));
        },
        PrinterAttribute::PrinterMessageFromOperator => {
            assert(vstd::utf8::is_ascii_chars("printer-message-from-operator"@) && 0 < "printer-message-from-operator"@.len() <= 36) by {
                reveal_strlit("printer-message-from-operator");
            }
            vstd::utf8::is_ascii_chars_encode_utf8("printer-message-from-operator"@);
            assert(OperationAttribute::spec_from_keyword("printer-message-from-operator"@) is None) by {
                reveal_strlit("printer-message-from-operator");
                reveal_strlit("requested-attributes");
                reveal_strlit("printer-uri");
                reveal_strlit("attributes-charset");
                reveal_strlit("attributes-natural-language");
            }
            assert(PrinterAttribute::spec_from_keyword("printer-message-from-operator"@) == Some(PrinterAttribute::PrinterMessageFromOperator)) by {
                reveal_strlit("printer-uri-supported");
                reveal_strlit("uri-security-supported");
                reveal_strlit("uri-authentication-supported");
                reveal_strlit("printer-name");
                reveal_strlit("printer-location");
                reveal_strlit("printer-info");
                reveal_strlit("printer-more-info");
                reveal_strlit("printer-driver-installer");
                reveal_strlit("printer-make-and-model");
                reveal_strlit("printer-more-info-manufacturer");
                reveal_strlit("printer-state");
                reveal_strlit("printer-state-reasons");
                reveal_strlit("printer-state-message");
                reveal_strlit("ipp-versions-supported");
                reveal_strlit("operations-supported");
                reveal_strlit("multiple-document-jobs-supported");
                reveal_strlit("charset-configured");
                reveal_strlit("charset-supported");
                reveal_strlit("natural-language-configured");
                reveal_strlit("generated-natural-language-supported");
                reveal_strlit("document-format-default");
                reveal_strlit("document-format-supported");
                reveal_strlit("printer-is-accepting-jobs");
                reveal_strlit("queued-job-count");
                reveal_strlit("printer-message-from-operator");
            }
            assert(canonical_name(NameView::Printer(a)));
        },
        PrinterAttribute::ColorSupported => {
            assert(vstd::utf8::is_ascii_chars("color-supported"@) && 0 < "color-supported"@.len() <= 36) by {
                reveal_strlit("color-supported");
            }
            vstd::utf8::is_ascii_chars_encode_utf8("color-supported"@);
            assert(OperationAttribute::spec_from_keyword("color-supported"@) is None) by {
                reveal_strlit("color-supported");
                reveal_strlit("requested-attributes");
                reveal_strlit("printer-uri");
                reveal_strlit("attributes-charset");
                reveal_strlit("attributes-natural-language");
            }
            assert(PrinterAttribute::spec_from_keyword("color-supported"@) == Some(PrinterAttribute::ColorSupported)) by {
                reveal_strlit("printer-uri-supported");
                reveal_strlit("uri-security-supported");
                reveal_strlit("uri-authentication-supported");
                reveal_strlit("printer-name");
                reveal_strlit("printer-location");
                reveal_strlit("printer-info");
                reveal_strlit("printer-more-info");
                reveal_strlit("printer-driver-installer");
                reveal_strlit("printer-make-and-model");
                reveal_strlit("printer-more-info-manufacturer");
                reveal_strlit("printer-state");
                reveal_strlit("printer-state-reasons");
                reveal_strlit("printer-state-message");
                reveal_strlit("ipp-versions-supported");
                reveal_strlit("operations-supported");
                reveal_strlit("multiple-document-jobs-supported");
                reveal_strlit("charset-configured");
                reveal_strlit("charset-supported");
                reveal_strlit("natural-language-configured");
                reveal_strlit("generated-natural-language-supported");
                reveal_strlit("document-format-default");
                reveal_strlit("document-format-supported");
                reveal_strlit("printer-is-accepting-jobs");
                reveal_strlit("queued-job-count");
                reveal_strlit("printer-message-from-operator");
                reveal_strlit("color-supported");
            }
            assert(canonical_name(NameView::Printer(a)));
        },
        PrinterAttribute::ReferenceUriSchemesSupported => {
            assert(vstd::utf8::is_ascii_chars("reference-uri-schemes-supported"@) && 0 < "reference-uri-schemes-supported"@.len() <= 36) by {
                reveal_strlit("reference-uri-schemes-supported");
            }
            vstd::utf8::is_ascii_chars_encode_utf8("reference-uri-schemes-supported"@);
            assert(OperationAttribute::spec_from_keyword("reference-uri-schemes-supported"@) is None) by {
                reveal_strlit("reference-uri-schemes-supported");
                reveal_strlit("requested-attributes");
                reveal_strlit("printer-uri");
                reveal_strlit("attributes-charset");
                reveal_strlit("attributes-natural-language");
            }
            assert(PrinterAttribute::spec_from_keyword("reference-uri-schemes-supported"@) == Some(PrinterAttribute::ReferenceUriSchemesSupported)) by {
                reveal_strlit("printer-uri-supported");
                reveal_strlit("uri-security-supported");
                reveal_strlit("uri-authentication-supported");
                reveal_strlit("printer-name");
                reveal_strlit("printer-location");
                reveal_strlit("printer-info");
                reveal_strlit("printer-more-info");
                reveal_strlit("printer-driver-installer");
                reveal_strlit("printer-make-and-model");
                reveal_strlit("printer-more-info-manufacturer");
                reveal_strlit("printer-state");
                reveal_strlit("printer-state-reasons");
                reveal_strlit("printer-state-message");
                reveal_strlit("ipp-versions-supported");
                reveal_strlit("operations-supported");
                reveal_strlit("multiple-document-jobs-supported");
                reveal_strlit("charset-configured");
                reveal_strlit("charset-supported");
                reveal_strlit("natural-language-configured");
                reveal_strlit("generated-natural-language-supported");
                reveal_strlit("document-format-default");
                reveal_strlit("document-format-supported");
                reveal_strlit("printer-is-accepting-jobs");
                reveal_strlit("queued-job-count");
                reveal_strlit("printer-message-from-operator");
                reveal_strlit("color-supported");
                reveal_strlit("reference-uri-schemes-supported");
            }
            assert(canonical_name(NameView::Printer(a)));
        },
        PrinterAttribute::PdlOverrideSupported => {
            assert(vstd::utf8::is_ascii_chars("pdl-override-supported"@) && 0 < "pdl-override-supported"@.len() <= 36) by {
                reveal_strlit("pdl-override-supported");
            }
            vstd::utf8::is_ascii_chars_encode_utf8("pdl-override-supported"@);
            assert(OperationAttribute::spec_from_keyword("pdl-override-supported"@) is None) by {
                reveal_strlit("pdl-override-supported");
                reveal_strlit("requested-attributes");
                reveal_strlit("printer-uri");
                reveal_strlit("attributes-charset");
                reveal_strlit("attributes-natural-language");
            }
            assert(PrinterAttribute::spec_from_keyword("pdl-override-supported"@) == Some(PrinterAttribute::PdlOverrideSupported)) by {
                reveal_strlit("printer-uri-supported");
                reveal_strlit("uri-security-supported");
                reveal_strlit("uri-authentication-supported");
                reveal_strlit("printer-name");
                reveal_strlit("printer-location");
                reveal_strlit("printer-info");
                reveal_strlit("printer-more-info");
                reveal_strlit("printer-driver-installer");
                reveal_strlit("printer-make-and-model");
                reveal_strlit("printer-more-info-manufacturer");
                reveal_strlit("printer-state");
                reveal_strlit("printer-state-reasons");
                reveal_strlit("printer-state-message");
                reveal_strlit("ipp-versions-supported");
                reveal_strlit("operations-supported");
                reveal_strlit("multiple-document-jobs-supported");
                reveal_strlit("charset-configured");
                reveal_strlit("charset-supported");
                reveal_strlit("natural-language-configured");
                reveal_strlit("generated-natural-language-supported");
                reveal_strlit("document-format-default");
                reveal_strlit("document-format-supported");
                reveal_strlit("printer-is-accepting-jobs");
                reveal_strlit("queued-job-count");
                reveal_strlit("printer-message-from-operator");
                reveal_strlit("color-supported");
                reveal_strlit("reference-uri-schemes-supported");
                reveal_strlit("pdl-override-supported");
                assert("pdl-override-supported"@[0] != "uri-security-supported"@[0]);
                assert("pdl-override-supported"@[1] != "printer-make-and-model"@[1]);
                assert("pdl-override-supported"@[0] != "ipp-versions-supported"@[0]);
            }
            assert(canonical_name(NameView::Printer(a)));
        },
        PrinterAttribute::PrinterUpTime => {
            assert(vstd::utf8::is_ascii_chars("printer-up-time"@) && 0 < "printer-up-time"@.len() <= 36) by {
                reveal_strlit("printer-up-time");
            }
            vstd::utf8::is_ascii_chars_encode_utf8("printer-up-time"@);
            assert(OperationAttribute::spec_from_keyword("printer-up-time"@) is None) by {
                reveal_strlit("printer-up-time");
                reveal_strlit("requested-attributes");
                reveal_strlit("printer-uri");
                reveal_strlit("attributes-charset");
                reveal_strlit("attributes-natural-language");
            }
            assert(PrinterAttribute::spec_from_keyword("printer-up-time"@) == Some(PrinterAttribute::PrinterUpTime)) by {
                reveal_strlit("printer-uri-supported");
                reveal_strlit("uri-security-supported");
                reveal_strlit("uri-authentication-supported");
                reveal_strlit("printer-name");
                reveal_strlit("printer-location");
                reveal_strlit("printer-info");
                reveal_strlit("printer-more-info");
                reveal_strlit("printer-driver-installer");
                reveal_strlit("printer-make-and-model");
                reveal_strlit("printer-more-info-manufacturer");
                reveal_strlit("printer-state");
                reveal_strlit("printer-state-reasons");
                reveal_strlit("printer-state-message");
                reveal_strlit("ipp-versions-supported");
                reveal_strlit("operations-supported");
                reveal_strlit("multiple-document-jobs-supported");
                reveal_strlit("charset-configured");
                reveal_strlit("charset-supported");
                reveal_strlit("natural-language-configured");
                reveal_strlit("generated-natural-language-supported");
                reveal_strlit("document-format-default");
                reveal_strlit("document-format-supported");
                reveal_strlit("printer-is-accepting-jobs");
                reveal_strlit("queued-job-count");
                reveal_strlit("printer-message-from-operator");
                reveal_strlit("color-supported");
                reveal_strlit("reference-uri-schemes-supported");
                reveal_strlit("pdl-override-supported");
                reveal_strlit("printer-up-time");
                assert("printer-up-time"@[0] != "color-supported"@[0]);
            }
            assert(canonical_name(NameView::Printer(a)));
        },
        PrinterAttribute::PrinterCurrentTime => {
            assert(vstd::utf8::is_ascii_chars("printer-current-time"@) && 0 < "printer-current-time"@.len() <= 36) by {
                reveal_strlit("printer-current-time");
            }
            vstd::utf8::is_ascii_chars_encode_utf8("printer-current-time"@);
            assert(OperationAttribute::spec_from_keyword("printer-current-time"@) is None) by {
                reveal_strlit("printer-current-time");
                reveal_strlit("requested-attributes");
                reveal_strlit("printer-uri");
                reveal_strlit("attributes-charset");
                reveal_strlit("attributes-natural-language");
                assert("printer-current-time"@[0] != "requested-attributes"@[0]);
            }
            assert(PrinterAttribute::spec_from_keyword("printer-current-time"@) == Some(PrinterAttribute::PrinterCurrentTime)) by {
                reveal_strlit("printer-uri-supported");
                reveal_strlit("uri-security-supported");
                reveal_strlit("uri-authentication-supported");
                reveal_strlit("printer-name");
                reveal_strlit("printer-location");
                reveal_strlit("printer-info");
                reveal_strlit("printer-more-info");
                reveal_strlit("printer-driver-installer");
                reveal_strlit("printer-make-and-model");
                reveal_strlit("printer-more-info-manufacturer");
                reveal_strlit("printer-state");
                reveal_strlit("printer-state-reasons");
                reveal_strlit("printer-state-message");
                reveal_strlit("ipp-versions-supported");
                reveal_strlit("operations-supported");
                reveal_strlit("multiple-document-jobs-supported");
                reveal_strlit("charset-configured");
                reveal_strlit("charset-supported");
                reveal_strlit("natural-language-configured");
                reveal_strlit("generated-natural-language-supported");
                reveal_strlit("document-format-default");
                reveal_strlit("document-format-supported");
                reveal_strlit("printer-is-accepting-jobs");
                reveal_strlit("queued-job-count");
                reveal_strlit("printer-message-from-operator");
                reveal_strlit("color-supported");
                reveal_strlit("reference-uri-schemes-supported");
                reveal_strlit("pdl-override-supported");
                reveal_strlit("printer-up-time");
                reveal_strlit("printer-current-time");
                assert("printer-current-time"@[0] != "operations-supported"@[0]);
            }
            assert(canonical_name(NameView::Printer(a)));
        },
        PrinterAttribute::MultipleOperationTimeOut => {
            assert(vstd::utf8::is_ascii_chars("multiple-operation-time-out"@) && 0 < "multiple-operation-time-out"@.len() <= 36) by {
                reveal_strlit("multiple-operation-time-out");
            }
            vstd::utf8::is_ascii_chars_encode_utf8("multiple-operation-time-out"@);
            assert(OperationAttribute::spec_from_keyword("multiple-operation-time-out"@) is None) by {
                reveal_strlit("multiple-operation-time-out");
                reveal_strlit("requested-attributes");
                reveal_strlit("printer-uri");
                reveal_strlit("attributes-charset");
                reveal_strlit("attributes-natural-language");
                assert("multiple-operation-time-out"@[0] != "attributes-natural-language"@[0]);
            }
            assert(PrinterAttribute::spec_from_keyword("multiple-operation-time-out"@) == Some(PrinterAttribute::MultipleOperationTimeOut)) by {
                reveal_strlit("printer-uri-supported");
                reveal_strlit("uri-security-supported");
                reveal_strlit("uri-authentication-supported");
                reveal_strlit("printer-name");
                reveal_strlit("printer-location");
                reveal_strlit("printer-info");
                reveal_strlit("printer-more-info");
                reveal_strlit("printer-driver-installer");
                reveal_strlit("printer-make-and-model");
                reveal_strlit("printer-more-info-manufacturer");
                reveal_strlit("printer-state");
                reveal_strlit("printer-state-reasons");
                reveal_strlit("printer-state-message");
                reveal_strlit("ipp-versions-supported");
                reveal_strlit("operations-supported");
                reveal_strlit("multiple-document-jobs-supported");
                reveal_strlit("charset-configured");
                reveal_strlit("charset-supported");
                reveal_strlit("natural-language-configured");
                reveal_strlit("generated-natural-language-supported");
                reveal_strlit("document-format-default");
                reveal_strlit("document-format-supported");
                reveal_strlit("printer-is-accepting-jobs");
                reveal_strlit("queued-job-count");
                reveal_strlit("printer-message-from-operator");
                reveal_strlit("color-supported");
                reveal_strlit("reference-uri-schemes-supported");
                reveal_strlit("pdl-override-supported");
                reveal_strlit("printer-up-time");
                reveal_strlit("printer-current-time");
                reveal_strlit("multiple-operation-time-out");
                assert("multiple-operation-time-out"@[0] != "natural-language-configured"@[0]);
            }
            assert(canonical_name(NameView::Printer(a)));
        },
        PrinterAttribute::CompressionSupported => {
            assert(vstd::utf8::is_ascii_chars("compression-supported"@) && 0 < "compression-supported"@.len() <= 36) by {
                reveal_strlit("compression-supported");
            }
            vstd::utf8::is_ascii_chars_encode_utf8("compression-supported"@);
            assert(OperationAttribute::spec_from_keyword("compression-supported"@) is None) by {
                reveal_strlit("compression-supported");
                reveal_strlit("requested-attributes");
                reveal_strlit("printer-uri");
                reveal_strlit("attributes-charset");
                reveal_strlit("attributes-natural-language");
            }
            assert(PrinterAttribute::spec_from_keyword("compression-supported"@) == Some(PrinterAttribute::CompressionSupported)) by {
                reveal_strlit("printer-uri-supported");
                reveal_strlit("uri-security-supported");
                reveal_strlit("uri-authentication-supported");
                reveal_strlit("printer-name");
                reveal_strlit("printer-location");
                reveal_strlit("printer-info");
                reveal_strlit("printer-more-info");
                reveal_strlit("printer-driver-installer");
                reveal_strlit("printer-make-and-model");
                reveal_strlit("printer-more-info-manufacturer");
                reveal_strlit("printer-state");
                reveal_strlit("printer-state-reasons");
                reveal_strlit("printer-state-message");
                reveal_strlit("ipp-versions-supported");
                reveal_strlit("operations-supported");
                reveal_strlit("multiple-document-jobs-supported");
                reveal_strlit("charset-configured");
                reveal_strlit("charset-supported");
                reveal_strlit("natural-language-configured");
                reveal_strlit("generated-natural-language-supported");
                reveal_strlit("document-format-default");
                reveal_strlit("document-format-supported");
                reveal_strlit("printer-is-accepting-jobs");
                reveal_strlit("queued-job-count");
                reveal_strlit("printer-message-from-operator");
                reveal_strlit("color-supported");
                reveal_strlit("reference-uri-schemes-supported");
                reveal_strlit("pdl-override-supported");
                reveal_strlit("printer-up-time");
                reveal_strlit("printer-current-time");
                reveal_strlit("multiple-operation-time-out");
                reveal_strlit("compression-supported");
                assert("compression-supported"@[0] != "printer-uri-supported"@[0]);
                assert("compression-supported"@[0] != "printer-state-reasons"@[0]);
                assert("compression-supported"@[0] != "printer-state-message"@[0]);
            }
            assert(canonical_name(NameView::Printer(a)));
        },
        PrinterAttribute::JobKOctetsSupported => {
            assert(vstd::utf8::is_ascii_chars("job-k-octets-supported"@) && 0 < "job-k-octets-supported"@.len() <= 36) by {
                reveal_strlit("job-k-octets-supported");
            }
            vstd::utf8::is_ascii_chars_encode_utf8("job-k-octets-supported"@);
            assert(OperationAttribute::spec_from_keyword("job-k-octets-supported"@) is None) by {
                reveal_strlit("job-k-octets-supported");
                reveal_strlit("requested-attributes");
                reveal_strlit("printer-uri");
                reveal_strlit("attributes-charset");
                reveal_strlit("attributes-natural-language");
            }
            assert(PrinterAttribute::spec_from_keyword("job-k-octets-supported"@) == Some(PrinterAttribute::JobKOctetsSupported)) by {
                reveal_strlit("printer-uri-supported");
                reveal_strlit("uri-security-supported");
                reveal_strlit("uri-authentication-supported");
                reveal_strlit("printer-name");
                reveal_strlit("printer-location");
                reveal_strlit("printer-info");
                reveal_strlit("printer-more-info");
                reveal_strlit("printer-driver-installer");
                reveal_strlit("printer-make-and-model");
                reveal_strlit("printer-more-info-manufacturer");
                reveal_strlit("printer-state");
                reveal_strlit("printer-state-reasons");
                reveal_strlit("printer-state-message");
                reveal_strlit("ipp-versions-supported");
                reveal_strlit("operations-supported");
                reveal_strlit("multiple-document-jobs-supported");
                reveal_strlit("charset-configured");
                reveal_strlit("charset-supported");
                reveal_strlit("natural-language-configured");
                reveal_strlit("generated-natural-language-supported");
                reveal_strlit("document-format-default");
                reveal_strlit("document-format-supported");
                reveal_strlit("printer-is-accepting-jobs");
                reveal_strlit("queued-job-count");
                reveal_strlit("printer-message-from-operator");
                reveal_strlit("color-supported");
                reveal_strlit("reference-uri-schemes-supported");
                reveal_strlit("pdl-override-supported");
                reveal_strlit("printer-up-time");
                reveal_strlit("printer-current-time");
                reveal_strlit("multiple-operation-time-out");
                reveal_strlit("compression-supported");
                reveal_strlit("job-k-octets-supported");
                assert("job-k-octets-supported"@[0] != "uri-security-supported"@[0]);
                assert("job-k-octets-supported"@[0] != "printer-make-and-model"@[0]);
                assert("job-k-octets-supported"@[0] != "ipp-versions-supported"@[0]);
                assert("job-k-octets-supported"@[0] != "pdl-override-supported"@[0]);
            }
            assert(canonical_name(NameView::Printer(a)));
        },
        PrinterAttribute::JobImpressionsSupported => {
            assert(vstd::utf8::is_ascii_chars("job-impressions-supported"@) && 0 < "job-impressions-supported"@.len() <= 36) by {
                reveal_strlit("job-impressions-supported");
            }
            vstd::utf8::is_ascii_chars_encode_utf8("job-impressions-supported"@);
            assert(OperationAttribute::spec_from_keyword("job-impressions-supported"@) is None) by {
                reveal_strlit("job-impressions-supported");
                reveal_strlit("requested-attributes");
                reveal_strlit("printer-uri");
                reveal_strlit("attributes-charset");
                reveal_strlit("attributes-natural-language");
            }
            assert(PrinterAttribute::spec_from_keyword("job-impressions-supported"@) == Some(PrinterAttribute::JobImpressionsSupported)) by {
                reveal_strlit("printer-uri-supported");
                reveal_strlit("uri-security-supported");
                reveal_strlit("uri-authentication-supported");
                reveal_strlit("printer-name");
                reveal_strlit("printer-location");
                reveal_strlit("printer-info");
                reveal_strlit("printer-more-info");
                reveal_strlit("printer-driver-installer");
                reveal_strlit("printer-make-and-model");
                reveal_strlit("printer-more-info-manufacturer");
                reveal_strlit("printer-state");
                reveal_strlit("printer-state-reasons");
                reveal_strlit("printer-state-message");
                reveal_strlit("ipp-versions-supported");
                reveal_strlit("operations-supported");
                reveal_strlit("multiple-document-jobs-supported");
                reveal_strlit("charset-configured");
                reveal_strlit("charset-supported");
                reveal_strlit("natural-language-configured");
                reveal_strlit("generated-natural-language-supported");
                reveal_strlit("document-format-default");
                reveal_strlit("document-format-supported");
                reveal_strlit("printer-is-accepting-jobs");
                reveal_strlit("queued-job-count");
                reveal_strlit("printer-message-from-operator");
                reveal_strlit("color-supported");
                reveal_strlit("reference-uri-schemes-supported");
                reveal_strlit("pdl-override-supported");
                reveal_strlit("printer-up-time");
                reveal_strlit("printer-current-time");
                reveal_strlit("multiple-operation-time-out");
                reveal_strlit("compression-supported");
                reveal_strlit("job-k-octets-supported");
                reveal_strlit("job-impressions-supported");
                assert("job-impressions-supported"@[0] != "document-format-supported"@[0]);
                assert("job-impressions-supported"@[0] != "printer-is-accepting-jobs"@[0]);
            }
            assert(canonical_name(NameView::Printer(a)));
        },
        PrinterAttribute::JobMediaSheetsSupported => {
            assert(vstd::utf8::is_ascii_chars("job-media-sheets-supported"@) && 0 < "job-media-sheets-supported"@.len() <= 36) by {
                reveal_strlit("job-media-sheets-supported");
            }
            vstd::utf8::is_ascii_chars_encode_utf8("job-media-sheets-supported"@);
            assert(OperationAttribute::spec_from_keyword("job-media-sheets-supported"@) is None) by {
                reveal_strlit("job-media-sheets-supported");
                reveal_strlit("requested-attributes");
                reveal_strlit("printer-uri");
                reveal_strlit("attributes-charset");
                reveal_strlit("attributes-natural-language");
            }
            assert(PrinterAttribute::spec_from_keyword("job-media-sheets-supported"@) == Some(PrinterAttribute::JobMediaSheetsSupported)) by {
                reveal_strlit("printer-uri-supported");
                reveal_strlit("uri-security-supported");
                reveal_strlit("uri-authentication-supported");
                reveal_strlit("printer-name");
                reveal_strlit("printer-location");
                reveal_strlit("printer-info");
                reveal_strlit("printer-more-info");
                reveal_strlit("printer-driver-installer");
                reveal_strlit("printer-make-and-model");
                reveal_strlit("printer-more-info-manufacturer");
                reveal_strlit("printer-state");
                reveal_strlit("printer-state-reasons");
                reveal_strlit("printer-state-message");
                reveal_strlit("ipp-versions-supported");
                reveal_strlit("operations-supported");
                reveal_strlit("multiple-document-jobs-supported");
                reveal_strlit("charset-configured");
                reveal_strlit("charset-supported");
                reveal_strlit("natural-language-configured");
                reveal_strlit("generated-natural-language-supported");
                reveal_strlit("document-format-default");
                reveal_strlit("document-format-supported");
                reveal_strlit("printer-is-accepting-jobs");
                reveal_strlit("queued-job-count");
                reveal_strlit("printer-message-from-operator");
                reveal_strlit("color-supported");
                reveal_strlit("reference-uri-schemes-supported");
                reveal_strlit("pdl-override-supported");
                reveal_strlit("printer-up-time");
                reveal_strlit("printer-current-time");
                reveal_strlit("multiple-operation-time-out");
                reveal_strlit("compression-supported");
                reveal_strlit("job-k-octets-supported");
                reveal_strlit("job-impressions-supported");
                reveal_strlit("job-media-sheets-supported");
            }
            assert(canonical_name(NameView::Printer(a)));
        },
        PrinterAttribute::PagesPerMinute => {
            assert(vstd::utf8::is_ascii_chars("pages-per-minute"@) && 0 < "pages-per-minute"@.len() <= 36) by {
                reveal_strlit("pages-per-minute");
            }
            vstd::utf8::is_ascii_chars_encode_utf8("pages-per-minute"@);
            assert(OperationAttribute::spec_from_keyword("pages-per-minute"@) is None) by {
                reveal_strlit("pages-per-minute");
                reveal_strlit("requested-attributes");
                reveal_strlit("printer-uri");
                reveal_strlit("attributes-charset");
                reveal_strlit("attributes-natural-language");
            }
            assert(PrinterAttribute::spec_from_keyword("pages-per-minute"@) == Some(PrinterAttribute::PagesPerMinute)) by {
                reveal_strlit("printer-uri-supported");
                reveal_strlit("uri-security-supported");
                reveal_strlit("uri-authentication-supported");
                reveal_strlit("printer-name");
                reveal_strlit("printer-location");
                reveal_strlit("printer-info");
                reveal_strlit("printer-more-info");
                reveal_strlit("printer-driver-installer");
                reveal_strlit("printer-make-and-model");
                reveal_strlit("printer-more-info-manufacturer");
                reveal_strlit("printer-state");
                reveal_strlit("printer-state-reasons");
                reveal_strlit("printer-state-message");
                reveal_strlit("ipp-versions-supported");
                reveal_strlit("operations-supported");
                reveal_strlit("multiple-document-jobs-supported");
                reveal_strlit("charset-configured");
                reveal_strlit("charset-supported");
                reveal_strlit("natural-language-configured");
                reveal_strlit("generated-natural-language-supported");
                reveal_strlit("document-format-default");
                reveal_strlit("document-format-supported");
                reveal_strlit("printer-is-accepting-jobs");
                reveal_strlit("queued-job-count");
                reveal_strlit("printer-message-from-operator");
                reveal_strlit("color-supported");
                reveal_strlit("reference-uri-schemes-supported");
                reveal_strlit("pdl-override-supported");
                reveal_strlit("printer-up-time");
                reveal_strlit("printer-current-time");
                reveal_strlit("multiple-operation-time-out");
                reveal_strlit("compression-supported");
                reveal_strlit("job-k-octets-supported");
                reveal_strlit("job-impressions-supported");
                reveal_strlit("job-media-sheets-supported");
                reveal_strlit("pages-per-minute");
                assert("pages-per-minute"@[1] != "printer-location"@[1]);
                assert("pages-per-minute"@[0] != "queued-job-count"@[0]);
            }
            assert(canonical_name(NameView::Printer(a)));
        },
        PrinterAttribute::PagesPerMinuteColor => {
            assert(vstd::utf8::is_ascii_chars("pages-per-minute-color"@) && 0 < "pages-per-minute-color"@.len() <= 36) by {
                reveal_strlit("pages-per-minute-color");
            }
            vstd::utf8::is_ascii_chars_encode_utf8("pages-per-minute-color"@);
            assert(OperationAttribute::spec_from_keyword("pages-per-minute-color"@) is None) by {
                reveal_strlit("pages-per-minute-color");
                reveal_strlit("requested-attributes");
                reveal_strlit("printer-uri");
                reveal_strlit("attributes-charset");
                reveal_strlit("attributes-natural-language");
            }
            assert(PrinterAttribute::spec_from_keyword("pages-per-minute-color"@) == Some(PrinterAttribute::PagesPerMinuteColor)) by {
                reveal_strlit("printer-uri-supported");
                reveal_strlit("uri-security-supported");
                reveal_strlit("uri-authentication-supported");
                reveal_strlit("printer-name");
                reveal_strlit("printer-location");
                reveal_strlit("printer-info");
                reveal_strlit("printer-more-info");
                reveal_strlit("printer-driver-installer");
                reveal_strlit("printer-make-and-model");
                reveal_strlit("printer-more-info-manufacturer");
                reveal_strlit("printer-state");
                reveal_strlit("printer-state-reasons");
                reveal_strlit("printer-state-message");
                reveal_strlit("ipp-versions-supported");
                reveal_strlit("operations-supported");
                reveal_strlit("multiple-document-jobs-supported");
                reveal_strlit("charset-configured");
                reveal_strlit("charset-supported");
                reveal_strlit("natural-language-configured");
                reveal_strlit("generated-natural-language-supported");
                reveal_strlit("document-format-default");
                reveal_strlit("document-format-supported");
                reveal_strlit("printer-is-accepting-jobs");
                reveal_strlit("queued-job-count");
                reveal_strlit("printer-message-from-operator");
                reveal_strlit("color-supported");
                reveal_strlit("reference-uri-schemes-supported");
                reveal_strlit("pdl-override-supported");
                reveal_strlit("printer-up-time");
                reveal_strlit("printer-current-time");
                reveal_strlit("multiple-operation-time-out");
                reveal_strlit("compression-supported");
                reveal_strlit("job-k-octets-supported");
                reveal_strlit("job-impressions-supported");
                reveal_strlit("job-media-sheets-supported");
                reveal_strlit("pages-per-minute");
                reveal_strlit("pages-per-minute-color");
                assert("pages-per-minute-color"@[0] != "uri-security-supported"@[0]);
                assert("pages-per-minute-color"@[1] != "printer-make-and-model"@[1]);
                assert("pages-per-minute-color"@[0] != "ipp-versions-supported"@[0]);
                assert("pages-per-minute-color"@[1] != "pdl-override-supported"@[1]);
                assert("pages-per-minute-color"@[0] != "job-k-octets-supported"@[0]);
            }
            assert(canonical_name(NameView::Printer(a)));
        },
    }
}

/// A `JobTemplate` keyword name is canonical: no earlier vocabulary claims
/// its keyword.
pub proof fn lemma_jobtemplate_name_canonical(a: JobTemplateAttribute)
    ensures
        canonical_name(NameView::JobTemplate(a)),
        wf_name(NameView::JobTemplate(a)),
        0 < name_text(NameView::JobTemplate(a)).len() <= 36,
        vstd::utf8::is_ascii_chars(name_text(NameView::JobTemplate(a))),
{
    match a {
        JobTemplateAttribute::JobPriority => {
            assert(vstd::utf8::is_ascii_chars("job-priority"@) && 0 < "job-priority"@.len() <= 36) by {
                reveal_strlit("job-priority");
            }
            vstd::utf8::is_ascii_chars_encode_utf8("job-priority"@);
            assert(OperationAttribute::spec_from_keyword("job-priority"@) is None) by {
                reveal_strlit("job-priority");
                reveal_strlit("requested-attributes");
                reveal_strlit("printer-uri");
                reveal_strlit("attributes-charset");
                reveal_strlit("attributes-natural-language");
            }
            assert(PrinterAttribute::spec_from_keyword("job-priority"@) is None) by {
                reveal_strlit("job-priority");
                reveal_strlit("printer-uri-supported");
                reveal_strlit("uri-security-supported");
                reveal_strlit("uri-authentication-supported");
                reveal_strlit("printer-name");
                reveal_strlit("printer-location");
                reveal_strlit("printer-info");
                reveal_strlit("printer-more-info");
                reveal_strlit("printer-driver-installer");
                reveal_strlit("printer-make-and-model");
                reveal_strlit("printer-more-info-manufacturer");
                reveal_strlit("printer-state");
                reveal_strlit("printer-state-reasons");
                reveal_strlit("printer-state-message");
                reveal_strlit("ipp-versions-supported");
                reveal_strlit("operations-supported");
                reveal_strlit("multiple-document-jobs-supported");
                reveal_strlit("charset-configured");
                reveal_strlit("charset-supported");
                reveal_strlit("natural-language-configured");
                reveal_strlit("generated-natural-language-supported");
                reveal_strlit("document-format-default");
                reveal_strlit("document-format-supported");
                reveal_strlit("printer-is-accepting-jobs");
                reveal_strlit("queued-job-count");
                reveal_strlit("printer-message-from-operator");
                reveal_strlit("color-supported");
                reveal_strlit("reference-uri-schemes-supported");
                reveal_strlit("pdl-override-supported");
                reveal_strlit("printer-up-time");
                reveal_strlit("printer-current-time");
                reveal_strlit("multiple-operation-time-out");
                reveal_strlit("compression-supported");
                reveal_strlit("job-k-octets-supported");
                reveal_strlit("job-impressions-supported");
                reveal_strlit("job-media-sheets-supported");
                reveal_strlit("pages-per-minute");
                reveal_strlit("pages-per-minute-color");
                assert("job-priority"@[0] != "printer-name"@[0]);
                assert("job-priority"@[0] != "printer-info"@[0]);
            }
            assert(JobTemplateAttribute::spec_from_keyword("job-priority"@) == Some(JobTemplateAttribute::JobPriority)) by {
                reveal_strlit("job-priority");
            }
            assert(canonical_name(NameView::JobTemplate(a)));
        },
        JobTemplateAttribute::JobHoldUntil => {
            assert(vstd::utf8::is_ascii_chars("job-hold-until"@) && 0 < "job-hold-until"@.len() <= 36) by {
                reveal_strlit("job-hold-until");
            }
            vstd::utf8::is_ascii_chars_encode_utf8("job-hold-until"@);
            assert(OperationAttribute::spec_from_keyword("job-hold-until"@) is None) by {
                reveal_strlit("job-hold-until");
                reveal_strlit("requested-attributes");
                reveal_strlit("printer-uri");
                reveal_strlit("attributes-charset");
                reveal_strlit("attributes-natural-language");
            }
            assert(PrinterAttribute::spec_from_keyword("job-hold-until"@) is None) by {
                reveal_strlit("job-hold-until");
                reveal_strlit("printer-uri-supported");
                reveal_strlit("uri-security-supported");
                reveal_strlit("uri-authentication-supported");
                reveal_strlit("printer-name");
                reveal_strlit("printer-location");
                reveal_strlit("printer-info");
                reveal_strlit("printer-more-info");
                reveal_strlit("printer-driver-installer");
                reveal_strlit("printer-make-and-model");
                reveal_strlit("printer-more-info-manufacturer");
                reveal_strlit("printer-state");
                reveal_strlit("printer-state-reasons");
                reveal_strlit("printer-state-message");
                reveal_strlit("ipp-versions-supported");
                reveal_strlit("operations-supported");
                reveal_strlit("multiple-document-jobs-supported");
                reveal_strlit("charset-configured");
                reveal_strlit("charset-supported");
                reveal_strlit("natural-language-configured");
                reveal_strlit("generated-natural-language-supported");
                reveal_strlit("document-format-default");
                reveal_strlit("document-format-supported");
                reveal_strlit("printer-is-accepting-jobs");
                reveal_strlit("queued-job-count");
                reveal_strlit("printer-message-from-operator");
                reveal_strlit("color-supported");
                reveal_strlit("reference-uri-schemes-supported");
                reveal_strlit("pdl-override-supported");
                reveal_strlit("printer-up-time");
                reveal_strlit("printer-current-time");
                reveal_strlit("multiple-operation-time-out");
                reveal_strlit("compression-supported");
                reveal_strlit("job-k-octets-supported");
                reveal_strlit("job-impressions-supported");
                reveal_strlit("job-media-sheets-supported");
                reveal_strlit("pages-per-minute");
                reveal_strlit("pages-per-minute-color");
            }
            assert(JobTemplateAttribute::spec_from_keyword("job-hold-until"@) == Some(JobTemplateAttribute::JobHoldUntil)) by {
                reveal_strlit("job-priority");
                reveal_strlit("job-hold-until");
            }
            assert(canonical_name(NameView::JobTemplate(a)));
        },
        JobTemplateAttribute::JobSheets => {
            assert(vstd::utf8::is_ascii_chars("job-sheets"@) && 0 < "job-sheets"@.len() <= 36) by {
                reveal_strlit("job-sheets");
            }
            vstd::utf8::is_ascii_chars_encode_utf8("job-sheets"@);
            assert(OperationAttribute::spec_from_keyword("job-sheets"@) is None) by {
                reveal_strlit("job-sheets");
                reveal_strlit("requested-attributes");
                reveal_strlit("printer-uri");
                reveal_strlit("attributes-charset");
                reveal_strlit("attributes-natural-language");
            }
            assert(PrinterAttribute::spec_from_keyword("job-sheets"@) is None) by {
                reveal_strlit("job-sheets");
                reveal_strlit("printer-uri-supported");
                reveal_strlit("uri-security-supported");
                reveal_strlit("uri-authentication-supported");
                reveal_strlit("printer-name");
                reveal_strlit("printer-location");
                reveal_strlit("printer-info");
                reveal_strlit("printer-more-info");
                reveal_strlit("printer-driver-installer");
                reveal_strlit("printer-make-and-model");
                reveal_strlit("printer-more-info-manufacturer");
                reveal_strlit("printer-state");
                reveal_strlit("printer-state-reasons");
                reveal_strlit("printer-state-message");
                reveal_strlit("ipp-versions-supported");
                reveal_strlit("operations-supported");
                reveal_strlit("multiple-document-jobs-supported");
                reveal_strlit("charset-configured");
                reveal_strlit("charset-supported");
                reveal_strlit("natural-language-configured");
                reveal_strlit("generated-natural-language-supported");
                reveal_strlit("document-format-default");
                reveal_strlit("document-format-supported");
                reveal_strlit("printer-is-accepting-jobs");
                reveal_strlit("queued-job-count");
                reveal_strlit("printer-message-from-operator");
                reveal_strlit("color-supported");
                reveal_strlit("reference-uri-schemes-supported");
                reveal_strlit("pdl-override-supported");
                reveal_strlit("printer-up-time");
                reveal_strlit("printer-current-time");
                reveal_strlit("multiple-operation-time-out");
                reveal_strlit("compression-supported");
                reveal_strlit("job-k-octets-supported");
                reveal_strlit("job-impressions-supported");
                reveal_strlit("job-media-sheets-supported");
                reveal_strlit("pages-per-minute");
                reveal_strlit("pages-per-minute-color");
            }
            assert(JobTemplateAttribute::spec_from_keyword("job-sheets"@) == Some(JobTemplateAttribute::JobSheets)) by {
                reveal_strlit("job-priority");
                reveal_strlit("job-hold-until");
                reveal_strlit("job-sheets");
            }
            assert(canonical_name(NameView::JobTemplate(a)));
        },
        JobTemplateAttribute::MultipleDocumentHandling => {
            assert(vstd::utf8::is_ascii_chars("multiple-document-handling"@) && 0 < "multiple-document-handling"@.len() <= 36) by {
                reveal_strlit("multiple-document-handling");
            }
            vstd::utf8::is_ascii_chars_encode_utf8("multiple-document-handling"@);
            assert(OperationAttribute::spec_from_keyword("multiple-document-handling"@) is None) by {
                reveal_strlit("multiple-document-handling");
                reveal_strlit("requested-attributes");
                reveal_strlit("printer-uri");
                reveal_strlit("attributes-charset");
                reveal_strlit("attributes-natural-language");
            }
            assert(PrinterAttribute::spec_from_keyword("multiple-document-handling"@) is None) by {
                reveal_strlit("multiple-document-handling");
                reveal_strlit("printer-uri-supported");
                reveal_strlit("uri-security-supported");
                reveal_strlit("uri-authentication-supported");
                reveal_strlit("printer-name");
                reveal_strlit("printer-location");
                reveal_strlit("printer-info");
                reveal_strlit("printer-more-info");
                reveal_strlit("printer-driver-installer");
                reveal_strlit("printer-make-and-model");
                reveal_strlit("printer-more-info-manufacturer");
                reveal_strlit("printer-state");
                reveal_strlit("printer-state-reasons");
                reveal_strlit("printer-state-message");
                reveal_strlit("ipp-versions-supported");
                reveal_strlit("operations-supported");
                reveal_strlit("multiple-document-jobs-supported");
                reveal_strlit("charset-configured");
                reveal_strlit("charset-supported");
                reveal_strlit("natural-language-configured");
                reveal_strlit("generated-natural-language-supported");
                reveal_strlit("document-format-default");
                reveal_strlit("document-format-supported");
                reveal_strlit("printer-is-accepting-jobs");
                reveal_strlit("queued-job-count");
                reveal_strlit("printer-message-from-operator");
                reveal_strlit("color-supported");
                reveal_strlit("reference-uri-schemes-supported");
                reveal_strlit("pdl-override-supported");
                reveal_strlit("printer-up-time");
                reveal_strlit("printer-current-time");
                reveal_strlit("multiple-operation-time-out");
                reveal_strlit("compression-supported");
                reveal_strlit("job-k-octets-supported");
                reveal_strlit("job-impressions-supported");
                reveal_strlit("job-media-sheets-supported");
                reveal_strlit("pages-per-minute");
                reveal_strlit("pages-per-minute-color");
                assert("multiple-document-handling"@[0] != "job-media-sheets-supported"@[0]);
            }
            assert(JobTemplateAttribute::spec_from_keyword("multiple-document-handling"@) == Some(JobTemplateAttribute::MultipleDocumentHandling)) by {
                reveal_strlit("job-priority");
                reveal_strlit("job-hold-until");
                reveal_strlit("job-sheets");
                reveal_strlit("multiple-document-handling");
            }
            assert(canonical_name(NameView::JobTemplate(a)));
        },
        JobTemplateAttribute::Copies => {
            assert(vstd::utf8::is_ascii_chars("copies"@) && 0 < "copies"@.len() <= 36) by {
                reveal_strlit("copies");
            }
            vstd::utf8::is_ascii_chars_encode_utf8("copies"@);
            assert(OperationAttribute::spec_from_keyword("copies"@) is None) by {
                reveal_strlit("copies");
                reveal_strlit("requested-attributes");
                reveal_strlit("printer-uri");
                reveal_strlit("attributes-charset");
                reveal_strlit("attributes-natural-language");
            }
            assert(PrinterAttribute::spec_from_keyword("copies"@) is None) by {
                reveal_strlit("copies");
                reveal_strlit("printer-uri-supported");
                reveal_strlit("uri-security-supported");
                reveal_strlit("uri-authentication-supported");
                reveal_strlit("printer-name");
                reveal_strlit("printer-location");
                reveal_strlit("printer-info");
                reveal_strlit("printer-more-info");
                reveal_strlit("printer-driver-installer");
                reveal_strlit("printer-make-and-model");
                reveal_strlit("printer-more-info-manufacturer");
                reveal_strlit("printer-state");
                reveal_strlit("printer-state-reasons");
                reveal_strlit("printer-state-message");
                reveal_strlit("ipp-versions-supported");
                reveal_strlit("operations-supported");
                reveal_strlit("multiple-document-jobs-supported");
                reveal_strlit("charset-configured");
                reveal_strlit("charset-supported");
                reveal_strlit("natural-language-configured");
                reveal_strlit("generated-natural-language-supported");
                reveal_strlit("document-format-default");
                reveal_strlit("document-format-supported");
                reveal_strlit("printer-is-accepting-jobs");
                reveal_strlit("queued-job-count");
                reveal_strlit("printer-message-from-operator");
                reveal_strlit("color-supported");
                reveal_strlit("reference-uri-schemes-supported");
                reveal_strlit("pdl-override-supported");
                reveal_strlit("printer-up-time");
                reveal_strlit("printer-current-time");
                reveal_strlit("multiple-operation-time-out");
                reveal_strlit("compression-supported");
                reveal_strlit("job-k-octets-supported");
                reveal_strlit("job-impressions-supported");
                reveal_strlit("job-media-sheets-supported");
                reveal_strlit("pages-per-minute");
                reveal_strlit("pages-per-minute-color");
            }
            assert(JobTemplateAttribute::spec_from_keyword("copies"@) == Some(JobTemplateAttribute::Copies)) by {
                reveal_strlit("job-priority");
                reveal_strlit("job-hold-until");
                reveal_strlit("job-sheets");
                reveal_strlit("multiple-document-handling");
                reveal_strlit("copies");
            }
            assert(canonical_name(NameView::JobTemplate(a)));
        },
        JobTemplateAttribute::Finishings => {
            assert(vstd::utf8::is_ascii_chars("finishings"@) && 0 < "finishings"@.len() <= 36) by {
                reveal_strlit("finishings");
            }
            vstd::utf8::is_ascii_chars_encode_utf8("finishings"@);
            assert(OperationAttribute::spec_from_keyword("finishings"@) is None) by {
                reveal_strlit("finishings");
                reveal_strlit("requested-attributes");
                reveal_strlit("printer-uri");
                reveal_strlit("attributes-charset");
                reveal_strlit("attributes-natural-language");
            }
            assert(PrinterAttribute::spec_from_keyword("finishings"@) is None) by {
                reveal_strlit("finishings");
                reveal_strlit("printer-uri-supported");
                reveal_strlit("uri-security-supported");
                reveal_strlit("uri-authentication-supported");
                reveal_strlit("printer-name");
                reveal_strlit("printer-location");
                reveal_strlit("printer-info");
                reveal_strlit("printer-more-info");
                reveal_strlit("printer-driver-installer");
                reveal_strlit("printer-make-and-model");
                reveal_strlit("printer-more-info-manufacturer");
                reveal_strlit("printer-state");
                reveal_strlit("printer-state-reasons");
                reveal_strlit("printer-state-message");
                reveal_strlit("ipp-versions-supported");
                reveal_strlit("operations-supported");
                reveal_strlit("multiple-document-jobs-supported");
                reveal_strlit("charset-configured");
                reveal_strlit("charset-supported");
                reveal_strlit("natural-language-configured");
                reveal_strlit("generated-natural-language-supported");
                reveal_strlit("document-format-default");
                reveal_strlit("document-format-supported");
                reveal_strlit("printer-is-accepting-jobs");
                reveal_strlit("queued-job-count");
                reveal_strlit("printer-message-from-operator");
                reveal_strlit("color-supported");
                reveal_strlit("reference-uri-schemes-supported");
                reveal_strlit("pdl-override-supported");
                reveal_strlit("printer-up-time");
                reveal_strlit("printer-current-time");
                reveal_strlit("multiple-operation-time-out");
                reveal_strlit("compression-supported");
                reveal_strlit("job-k-octets-supported");
                reveal_strlit("job-impressions-supported");
                reveal_strlit("job-media-sheets-supported");
                reveal_strlit("pages-per-minute");
                reveal_strlit("pages-per-minute-color");
            }
            assert(JobTemplateAttribute::spec_from_keyword("finishings"@) == Some(JobTemplateAttribute::Finishings)) by {
                reveal_strlit("job-priority");
                reveal_strlit("job-hold-until");
                reveal_strlit("job-sheets");
                reveal_strlit("multiple-document-handling");
                reveal_strlit("copies");
                reveal_strlit("finishings");
                assert("finishings"@[0] != "job-sheets"@[0]);
            }
            assert(canonical_name(NameView::JobTemplate(a)));
        },
        JobTemplateAttribute::PageRanges => {
            assert(vstd::utf8::is_ascii_chars("page-ranges"@) && 0 < "page-ranges"@.len() <= 36) by {
                reveal_strlit("page-ranges");
            }
            vstd::utf8::is_ascii_chars_encode_utf8("page-ranges"@);
            assert(OperationAttribute::spec_from_keyword("page-ranges"@) is None) by {
                reveal_strlit("page-ranges");
                reveal_strlit("requested-attributes");
                reveal_strlit("printer-uri");
                reveal_strlit("attributes-charset");
                reveal_strlit("attributes-natural-language");
                assert("page-ranges"@[1] != "printer-uri"@[1]);
            }
            assert(PrinterAttribute::spec_from_keyword("page-ranges"@) is None) by {
                reveal_strlit("page-ranges");
                reveal_strlit("printer-uri-supported");
                reveal_strlit("uri-security-supported");
                reveal_strlit("uri-authentication-supported");
                reveal_strlit("printer-name");
                reveal_strlit("printer-location");
                reveal_strlit("printer-info");
                reveal_strlit("printer-more-info");
                reveal_strlit("printer-driver-installer");
                reveal_strlit("printer-make-and-model");
                reveal_strlit("printer-more-info-manufacturer");
                reveal_strlit("printer-state");
                reveal_strlit("printer-state-reasons");
                reveal_strlit("printer-state-message");
                reveal_strlit("ipp-versions-supported");
                reveal_strlit("operations-supported");
                reveal_strlit("multiple-document-jobs-supported");
                reveal_strlit("charset-configured");
                reveal_strlit("charset-supported");
                reveal_strlit("natural-language-configured");
                reveal_strlit("generated-natural-language-supported");
                reveal_strlit("document-format-default");
                reveal_strlit("document-format-supported");
                reveal_strlit("printer-is-accepting-jobs");
                reveal_strlit("queued-job-count");
                reveal_strlit("printer-message-from-operator");
                reveal_strlit("color-supported");
                reveal_strlit("reference-uri-schemes-supported");
                reveal_strlit("pdl-override-supported");
                reveal_strlit("printer-up-time");
                reveal_strlit("printer-current-time");
                reveal_strlit("multiple-operation-time-out");
                reveal_strlit("compression-supported");
                reveal_strlit("job-k-octets-supported");
                reveal_strlit("job-impressions-supported");
                reveal_strlit("job-media-sheets-supported");
                reveal_strlit("pages-per-minute");
                reveal_strlit("pages-per-minute-color");
            }
            assert(JobTemplateAttribute::spec_from_keyword("page-ranges"@) == Some(JobTemplateAttribute::PageRanges)) by {
                reveal_strlit("job-priority");
                reveal_strlit("job-hold-until");
                reveal_strlit("job-sheets");
                reveal_strlit("multiple-document-handling");
                reveal_strlit("copies");
                reveal_strlit("finishings");
                reveal_strlit("page-ranges");
            }
            assert(canonical_name(NameView::JobTemplate(a)));
        },
        JobTemplateAttribute::Sides => {
            assert(vstd::utf8::is_ascii_chars("sides"@) && 0 < "sides"@.len() <= 36) by {
                reveal_strlit("sides");
            }
            vstd::utf8::is_ascii_chars_encode_utf8("sides"@);
            assert(OperationAttribute::spec_from_keyword("sides"@) is None) by {
                reveal_strlit("sides");
                reveal_strlit("requested-attributes");
                reveal_strlit("printer-uri");
                reveal_strlit("attributes-charset");
                reveal_strlit("attributes-natural-language");
            }
            assert(PrinterAttribute::spec_from_keyword("sides"@) is None) by {
                reveal_strlit("sides");
                reveal_strlit("printer-uri-supported");
                reveal_strlit("uri-security-supported");
                reveal_strlit("uri-authentication-supported");
                reveal_strlit("printer-name");
                reveal_strlit("printer-location");
                reveal_strlit("printer-info");
                reveal_strlit("printer-more-info");
                reveal_strlit("printer-driver-installer");
                reveal_strlit("printer-make-and-model");
                reveal_strlit("printer-more-info-manufacturer");
                reveal_strlit("printer-state");
                reveal_strlit("printer-state-reasons");
                reveal_strlit("printer-state-message");
                reveal_strlit("ipp-versions-supported");
                reveal_strlit("operations-supported");
                reveal_strlit("multiple-document-jobs-supported");
                reveal_strlit("charset-configured");
                reveal_strlit("charset-supported");
                reveal_strlit("natural-language-configured");
                reveal_strlit("generated-natural-language-supported");
                reveal_strlit("document-format-default");
                reveal_strlit("document-format-supported");
                reveal_strlit("printer-is-accepting-jobs");
                reveal_strlit("queued-job-count");
                reveal_strlit("printer-message-from-operator");
                reveal_strlit("color-supported");
                reveal_strlit("reference-uri-schemes-supported");
                reveal_strlit("pdl-override-supported");
                reveal_strlit("printer-up-time");
                reveal_strlit("printer-current-time");
                reveal_strlit("multiple-operation-time-out");
                reveal_strlit("compression-supported");
                reveal_strlit("job-k-octets-supported");
                reveal_strlit("job-impressions-supported");
                reveal_strlit("job-media-sheets-supported");
                reveal_strlit("pages-per-minute");
                reveal_strlit("pages-per-minute-color");
            }
            assert(JobTemplateAttribute::spec_from_keyword("sides"@) == Some(JobTemplateAttribute::Sides)) by {
                reveal_strlit("job-priority");
                reveal_strlit("job-hold-until");
                reveal_strlit("job-sheets");
                reveal_strlit("multiple-document-handling");
                reveal_strlit("copies");
                reveal_strlit("finishings");
                reveal_strlit("page-ranges");
                reveal_strlit("sides");
            }
            assert(canonical_name(NameView::JobTemplate(a)));
        },
        JobTemplateAttribute::NumberUp => {
            assert(vstd::utf8::is_ascii_chars("number-up"@) && 0 < "number-up"@.len() <= 36) by {
                reveal_strlit("number-up");
            }
            vstd::utf8::is_ascii_chars_encode_utf8("number-up"@);
            assert(OperationAttribute::spec_from_keyword("number-up"@) is None) by {
                reveal_strlit("number-up");
                reveal_strlit("requested-attributes");
                reveal_strlit("printer-uri");
                reveal_strlit("attributes-charset");
                reveal_strlit("attributes-natural-language");
            }
            assert(PrinterAttribute::spec_from_keyword("number-up"@) is None) by {
                reveal_strlit("number-up");
                reveal_strlit("printer-uri-supported");
                reveal_strlit("uri-security-supported");
                reveal_strlit("uri-authentication-supported");
                reveal_strlit("printer-name");
                reveal_strlit("printer-location");
                reveal_strlit("printer-info");
                reveal_strlit("printer-more-info");
                reveal_strlit("printer-driver-installer");
                reveal_strlit("printer-make-and-model");
                reveal_strlit("printer-more-info-manufacturer");
                reveal_strlit("printer-state");
                reveal_strlit("printer-state-reasons");
                reveal_strlit("printer-state-message");
                reveal_strlit("ipp-versions-supported");
                reveal_strlit("operations-supported");
                reveal_strlit("multiple-document-jobs-supported");
                reveal_strlit("charset-configured");
                reveal_strlit("charset-supported");
                reveal_strlit("natural-language-configured");
                reveal_strlit("generated-natural-language-supported");
                reveal_strlit("document-format-default");
                reveal_strlit("document-format-supported");
                reveal_strlit("printer-is-accepting-jobs");
                reveal_strlit("queued-job-count");
                reveal_strlit("printer-message-from-operator");
                reveal_strlit("color-supported");
                reveal_strlit("reference-uri-schemes-supported");
                reveal_strlit("pdl-override-supported");
                reveal_strlit("printer-up-time");
                reveal_strlit("printer-current-time");
                reveal_strlit("multiple-operation-time-out");
                reveal_strlit("compression-supported");
                reveal_strlit("job-k-octets-supported");
                reveal_strlit("job-impressions-supported");
                reveal_strlit("job-media-sheets-supported");
                reveal_strlit("pages-per-minute");
                reveal_strlit("pages-per-minute-color");
            }
            assert(JobTemplateAttribute::spec_from_keyword("number-up"@) == Some(JobTemplateAttribute::NumberUp)) by {
                reveal_strlit("job-priority");
                reveal_strlit("job-hold-until");
                reveal_strlit("job-sheets");
                reveal_strlit("multiple-document-handling");
                reveal_strlit("copies");
                reveal_strlit("finishings");
                reveal_strlit("page-ranges");
                reveal_strlit("sides");
                reveal_strlit("number-up");
            }
            assert(canonical_name(NameView::JobTemplate(a)));
        },
        JobTemplateAttribute::OrientationRequested => {
            assert(vstd::utf8::is_ascii_chars("orientation-requested"@) && 0 < "orientation-requested"@.len() <= 36) by {
                reveal_strlit("orientation-requested");
            }
            vstd::utf8::is_ascii_chars_encode_utf8("orientation-requested"@);
            assert(OperationAttribute::spec_from_keyword("orientation-requested"@) is None) by {
                reveal_strlit("orientation-requested");
                reveal_strlit("requested-attributes");
                reveal_strlit("printer-uri");
                reveal_strlit("attributes-charset");
                reveal_strlit("attributes-natural-language");
            }
            assert(PrinterAttribute::spec_from_keyword("orientation-requested"@) is None) by {
                reveal_strlit("orientation-requested");
                reveal_strlit("printer-uri-supported");
                reveal_strlit("uri-security-supported");
                reveal_strlit("uri-authentication-supported");
                reveal_strlit("printer-name");
                reveal_strlit("printer-location");
                reveal_strlit("printer-info");
                reveal_strlit("printer-more-info");
                reveal_strlit("printer-driver-installer");
                reveal_strlit("printer-make-and-model");
                reveal_strlit("printer-more-info-manufacturer");
                reveal_strlit("printer-state");
                reveal_strlit("printer-state-reasons");
                reveal_strlit("printer-state-message");
                reveal_strlit("ipp-versions-supported");
                reveal_strlit("operations-supported");
                reveal_strlit("multiple-document-jobs-supported");
                reveal_strlit("charset-configured");
                reveal_strlit("charset-supported");
                reveal_strlit("natural-language-configured");
                reveal_strlit("generated-natural-language-supported");
                reveal_strlit("document-format-default");
                reveal_strlit("document-format-supported");
                reveal_strlit("printer-is-accepting-jobs");
                reveal_strlit("queued-job-count");
                reveal_strlit("printer-message-from-operator");
                reveal_strlit("color-supported");
                reveal_strlit("reference-uri-schemes-supported");
                reveal_strlit("pdl-override-supported");
                reveal_strlit("printer-up-time");
                reveal_strlit("printer-current-time");
                reveal_strlit("multiple-operation-time-out");
                reveal_strlit("compression-supported");
                reveal_strlit("job-k-octets-supported");
                reveal_strlit("job-impressions-supported");
                reveal_strlit("job-media-sheets-supported");
                reveal_strlit("pages-per-minute");
                reveal_strlit("pages-per-minute-color");
                assert("orientation-requested"@[0] != "printer-uri-supported"@[0]);
                assert("orientation-requested"@[0] != "printer-state-reasons"@[0]);
                assert("orientation-requested"@[0] != "printer-state-message"@[0]);
                assert("orientation-requested"@[0] != "compression-supported"@[0]);
            }
            assert(JobTemplateAttribute::spec_from_keyword("orientation-requested"@) == Some(JobTemplateAttribute::OrientationRequested)) by {
                reveal_strlit("job-priority");
                reveal_strlit("job-hold-until");
                reveal_strlit("job-sheets");
                reveal_strlit("multiple-document-handling");
                reveal_strlit("copies");
                reveal_strlit("finishings");
                reveal_strlit("page-ranges");
                reveal_strlit("sides");
                reveal_strlit("number-up");
                reveal_strlit("orientation-requested");
            }
            assert(canonical_name(NameView::JobTemplate(a)));
        },
        JobTemplateAttribute::Media => {
            assert(vstd::utf8::is_ascii_chars("media"@) && 0 < "media"@.len() <= 36) by {
                reveal_strlit("media");
            }
            vstd::utf8::is_ascii_chars_encode_utf8("media"@);
            assert(OperationAttribute::spec_from_keyword("media"@) is None) by {
                reveal_strlit("media");
                reveal_strlit("requested-attributes");
                reveal_strlit("printer-uri");
                reveal_strlit("attributes-charset");
                reveal_strlit("attributes-natural-language");
            }
            assert(PrinterAttribute::spec_from_keyword("media"@) is None) by {
                reveal_strlit("media");
                reveal_strlit("printer-uri-supported");
                reveal_strlit("uri-security-supported");
                reveal_strlit("uri-authentication-supported");
                reveal_strlit("printer-name");
                reveal_strlit("printer-location");
                reveal_strlit("printer-info");
                reveal_strlit("printer-more-info");
                reveal_strlit("printer-driver-installer");
                reveal_strlit("printer-make-and-model");
                reveal_strlit("printer-more-info-manufacturer");
                reveal_strlit("printer-state");
                reveal_strlit("printer-state-reasons");
                reveal_strlit("printer-state-message");
                reveal_strlit("ipp-versions-supported");
                reveal_strlit("operations-supported");
                reveal_strlit("multiple-document-jobs-supported");
                reveal_strlit("charset-configured");
                reveal_strlit("charset-supported");
                reveal_strlit("natural-language-configured");
                reveal_strlit("generated-natural-language-supported");
                reveal_strlit("document-format-default");
                reveal_strlit("document-format-supported");
                reveal_strlit("printer-is-accepting-jobs");
                reveal_strlit("queued-job-count");
                reveal_strlit("printer-message-from-operator");
                reveal_strlit("color-supported");
                reveal_strlit("reference-uri-schemes-supported");
                reveal_strlit("pdl-override-supported");
                reveal_strlit("printer-up-time");
                reveal_strlit("printer-current-time");
                reveal_strlit("multiple-operation-time-out");
                reveal_strlit("compression-supported");
                reveal_strlit("job-k-octets-supported");
                reveal_strlit("job-impressions-supported");
                reveal_strlit("job-media-sheets-supported");
                reveal_strlit("pages-per-minute");
                reveal_strlit("pages-per-minute-color");
            }
            assert(JobTemplateAttribute::spec_from_keyword("media"@) == Some(JobTemplateAttribute::Media)) by {
                reveal_strlit("job-priority");
                reveal_strlit("job-hold-until");
                reveal_strlit("job-sheets");
                reveal_strlit("multiple-document-handling");
                reveal_strlit("copies");
                reveal_strlit("finishings");
                reveal_strlit("page-ranges");
                reveal_strlit("sides");
                reveal_strlit("number-up");
                reveal_strlit("orientation-requested");
                reveal_strlit("media");
                assert("media"@[0] != "sides"@[0]);
            }
            assert(canonical_name(NameView::JobTemplate(a)));
        },
        JobTemplateAttribute::PrinterResolution => {
            assert(vstd::utf8::is_ascii_chars("printer-resolution"@) && 0 < "printer-resolution"@.len() <= 36) by {
                reveal_strlit("printer-resolution");
            }
            vstd::utf8::is_ascii_chars_encode_utf8("printer-resolution"@);
            assert(OperationAttribute::spec_from_keyword("printer-resolution"@) is None) by {
                reveal_strlit("printer-resolution");
                reveal_strlit("requested-attributes");
                reveal_strlit("printer-uri");
                reveal_strlit("attributes-charset");
                reveal_strlit("attributes-natural-language");
                assert("printer-resolution"@[0] != "attributes-charset"@[0]);
            }
            assert(PrinterAttribute::spec_from_keyword("printer-resolution"@) is None) by {
                reveal_strlit("printer-resolution");
                reveal_strlit("printer-uri-supported");
                reveal_strlit("uri-security-supported");
                reveal_strlit("uri-authentication-supported");
                reveal_strlit("printer-name");
                reveal_strlit("printer-location");
                reveal_strlit("printer-info");
                reveal_strlit("printer-more-info");
                reveal_strlit("printer-driver-installer");
                reveal_strlit("printer-make-and-model");
                reveal_strlit("printer-more-info-manufacturer");
                reveal_strlit("printer-state");
                reveal_strlit("printer-state-reasons");
                reveal_strlit("printer-state-message");
                reveal_strlit("ipp-versions-supported");
                reveal_strlit("operations-supported");
                reveal_strlit("multiple-document-jobs-supported");
                reveal_strlit("charset-configured");
                reveal_strlit("charset-supported");
                reveal_strlit("natural-language-configured");
                reveal_strlit("generated-natural-language-supported");
                reveal_strlit("document-format-default");
                reveal_strlit("document-format-supported");
                reveal_strlit("printer-is-accepting-jobs");
                reveal_strlit("queued-job-count");
                reveal_strlit("printer-message-from-operator");
                reveal_strlit("color-supported");
                reveal_strlit("reference-uri-schemes-supported");
                reveal_strlit("pdl-override-supported");
                reveal_strlit("printer-up-time");
                reveal_strlit("printer-current-time");
                reveal_strlit("multiple-operation-time-out");
                reveal_strlit("compression-supported");
                reveal_strlit("job-k-octets-supported");
                reveal_strlit("job-impressions-supported");
                reveal_strlit("job-media-sheets-supported");
                reveal_strlit("pages-per-minute");
                reveal_strlit("pages-per-minute-color");
                assert("printer-resolution"@[0] != "charset-configured"@[0]);
            }
            assert(JobTemplateAttribute::spec_from_keyword("printer-resolution"@) == Some(JobTemplateAttribute::PrinterResolution)) by {
                reveal_strlit("job-priority");
                reveal_strlit("job-hold-until");
                reveal_strlit("job-sheets");
                reveal_strlit("multiple-document-handling");
                reveal_strlit("copies");
                reveal_strlit("finishings");
                reveal_strlit("page-ranges");
                reveal_strlit("sides");
                reveal_strlit("number-up");
                reveal_strlit("orientation-requested");
                reveal_strlit("media");
                reveal_strlit("printer-resolution");
            }
            assert(canonical_name(NameView::JobTemplate(a)));
        },
        JobTemplateAttribute::PrintQuality => {
            assert(vstd::utf8::is_ascii_chars("print-quality"@) && 0 < "print-quality"@.len() <= 36) by {
                reveal_strlit("print-quality");
            }
            vstd::utf8::is_ascii_chars_encode_utf8("print-quality"@);
            assert(OperationAttribute::spec_from_keyword("print-quality"@) is None) by {
                reveal_strlit("print-quality");
                reveal_strlit("requested-attributes");
                reveal_strlit("printer-uri");
                reveal_strlit("attributes-charset");
                reveal_strlit("attributes-natural-language");
            }
            assert(PrinterAttribute::spec_from_keyword("print-quality"@) is None) by {
                reveal_strlit("print-quality");
                reveal_strlit("printer-uri-supported");
                reveal_strlit("uri-security-supported");
                reveal_strlit("uri-authentication-supported");
                reveal_strlit("printer-name");
                reveal_strlit("printer-location");
                reveal_strlit("printer-info");
                reveal_strlit("printer-more-info");
                reveal_strlit("printer-driver-installer");
                reveal_strlit("printer-make-and-model");
                reveal_strlit("printer-more-info-manufacturer");
                reveal_strlit("printer-state");
                reveal_strlit("printer-state-reasons");
                reveal_strlit("printer-state-message");
                reveal_strlit("ipp-versions-supported");
                reveal_strlit("operations-supported");
                reveal_strlit("multiple-document-jobs-supported");
                reveal_strlit("charset-configured");
                reveal_strlit("charset-supported");
                reveal_strlit("natural-language-configured");
                reveal_strlit("generated-natural-language-supported");
                reveal_strlit("document-format-default");
                reveal_strlit("document-format-supported");
                reveal_strlit("printer-is-accepting-jobs");
                reveal_strlit("queued-job-count");
                reveal_strlit("printer-message-from-operator");
                reveal_strlit("color-supported");
                reveal_strlit("reference-uri-schemes-supported");
                reveal_strlit("pdl-override-supported");
                reveal_strlit("printer-up-time");
                reveal_strlit("printer-current-time");
                reveal_strlit("multiple-operation-time-out");
                reveal_strlit("compression-supported");
                reveal_strlit("job-k-octets-supported");
                reveal_strlit("job-impressions-supported");
                reveal_strlit("job-media-sheets-supported");
                reveal_strlit("pages-per-minute");
                reveal_strlit("pages-per-minute-color");
                assert("print-quality"@[5] != "printer-state"@[5]);
            }
            assert(JobTemplateAttribute::spec_from_keyword("print-quality"@) == Some(JobTemplateAttribute::PrintQuality)) by {
                reveal_strlit("job-priority");
                reveal_strlit("job-hold-until");
                reveal_strlit("job-sheets");
                reveal_strlit("multiple-document-handling");
                reveal_strlit("copies");
                reveal_strlit("finishings");
                reveal_strlit("page-ranges");
                reveal_strlit("sides");
                reveal_strlit("number-up");
                reveal_strlit("orientation-requested");
                reveal_strlit("media");
                reveal_strlit("printer-resolution");
                reveal_strlit("print-quality");
            }
            assert(canonical_name(NameView::JobTemplate(a)));
        },
    }
}

/// A `Job` keyword name is canonical: no earlier vocabulary claims its
/// keyword.
pub proof fn lemma_job_name_canonical(a: JobAttribute)
    ensures
        canonical_name(NameView::Job(a)),
        wf_name(NameView::Job(a)),
        0 < name_text(NameView::Job(a)).len() <= 36,
        vstd::utf8::is_ascii_chars(name_text(NameView::Job(a))),
{
    match a {
        JobAttribute::JobUri => {
            assert(vstd::utf8::is_ascii_chars("job-uri"@) && 0 < "job-uri"@.len() <= 36) by {
                reveal_strlit("job-uri");
            }
            vstd::utf8::is_ascii_chars_encode_utf8("job-uri"@);
            assert(OperationAttribute::spec_from_keyword("job-uri"@) is None) by {
                reveal_strlit("job-uri");
                reveal_strlit("requested-attributes");
                reveal_strlit("printer-uri");
                reveal_strlit("attributes-charset");
                reveal_strlit("attributes-natural-language");
            }
            assert(PrinterAttribute::spec_from_keyword("job-uri"@) is None) by {
                reveal_strlit("job-uri");
                reveal_strlit("printer-uri-supported");
                reveal_strlit("uri-security-supported");
                reveal_strlit("uri-authentication-supported");
                reveal_strlit("printer-name");
                reveal_strlit("printer-location");
                reveal_strlit("printer-info");
                reveal_strlit("printer-more-info");
                reveal_strlit("printer-driver-installer");
                reveal_strlit("printer-make-and-model");
                reveal_strlit("printer-more-info-manufacturer");
                reveal_strlit("printer-state");
                reveal_strlit("printer-state-reasons");
                reveal_strlit("printer-state-message");
                reveal_strlit("ipp-versions-supported");
                reveal_strlit("operations-supported");
                reveal_strlit("multiple-document-jobs-supported");
                reveal_strlit("charset-configured");
                reveal_strlit("charset-supported");
                reveal_strlit("natural-language-configured");
                reveal_strlit("generated-natural-language-supported");
                reveal_strlit("document-format-default");
                reveal_strlit("document-format-supported");
                reveal_strlit("printer-is-accepting-jobs");
                reveal_strlit("queued-job-count");
                reveal_strlit("printer-message-from-operator");
                reveal_strlit("color-supported");
                reveal_strlit("reference-uri-schemes-supported");
                reveal_strlit("pdl-override-supported");
                reveal_strlit("printer-up-time");
                reveal_strlit("printer-current-time");
                reveal_strlit("multiple-operation-time-out");
                reveal_strlit("compression-supported");
                reveal_strlit("job-k-octets-supported");
                reveal_strlit("job-impressions-supported");
                reveal_strlit("job-media-sheets-supported");
                reveal_strlit("pages-per-minute");
                reveal_strlit("pages-per-minute-color");
            }
            assert(JobTemplateAttribute::spec_from_keyword("job-uri"@) is None) by {
                reveal_strlit("job-uri");
                reveal_strlit("job-priority");
                reveal_strlit("job-hold-until");
                reveal_strlit("job-sheets");
                reveal_strlit("multiple-document-handling");
                reveal_strlit("copies");
                reveal_strlit("finishings");
                reveal_strlit("page-ranges");
                reveal_strlit("sides");
                reveal_strlit("number-up");
                reveal_strlit("orientation-requested");
                reveal_strlit("media");
                reveal_strlit("printer-resolution");
                reveal_strlit("print-quality");
            }
            assert(JobAttribute::spec_from_keyword("job-uri"@) == Some(JobAttribute::JobUri)) by {
                reveal_strlit("job-uri");
            }
            assert(canonical_name(NameView::Job(a)));
        },
        JobAttribute::JobId => {
            assert(vstd::utf8::is_ascii_chars("job-id"@) && 0 < "job-id"@.len() <= 36) by {
                reveal_strlit("job-id");
            }
            vstd::utf8::is_ascii_chars_encode_utf8("job-id"@);
            assert(OperationAttribute::spec_from_keyword("job-id"@) is None) by {
                reveal_strlit("job-id");
                reveal_strlit("requested-attributes");
                reveal_strlit("printer-uri");
                reveal_strlit("attributes-charset");
                reveal_strlit("attributes-natural-language");
            }
            assert(PrinterAttribute::spec_from_keyword("job-id"@) is None) by {
                reveal_strlit("job-id");
                reveal_strlit("printer-uri-supported");
                reveal_strlit("uri-security-supported");
                reveal_strlit("uri-authentication-supported");
                reveal_strlit("printer-name");
                reveal_strlit("printer-location");
                reveal_strlit("printer-info");
                reveal_strlit("printer-more-info");
                reveal_strlit("printer-driver-installer");
                reveal_strlit("printer-make-and-model");
                reveal_strlit("printer-more-info-manufacturer");
                reveal_strlit("printer-state");
                reveal_strlit("printer-state-reasons");
                reveal_strlit("printer-state-message");
                reveal_strlit("ipp-versions-supported");
                reveal_strlit("operations-supported");
                reveal_strlit("multiple-document-jobs-supported");
                reveal_strlit("charset-configured");
                reveal_strlit("charset-supported");
                reveal_strlit("natural-language-configured");
                reveal_strlit("generated-natural-language-supported");
                reveal_strlit("document-format-default");
                reveal_strlit("document-format-supported");
                reveal_strlit("printer-is-accepting-jobs");
                reveal_strlit("queued-job-count");
                reveal_strlit("printer-message-from-operator");
                reveal_strlit("color-supported");
                reveal_strlit("reference-uri-schemes-supported");
                reveal_strlit("pdl-override-supported");
                reveal_strlit("printer-up-time");
                reveal_strlit("printer-current-time");
                reveal_strlit("multiple-operation-time-out");
                reveal_strlit("compression-supported");
                reveal_strlit("job-k-octets-supported");
                reveal_strlit("job-impressions-supported");
                reveal_strlit("job-media-sheets-supported");
                reveal_strlit("pages-per-minute");
                reveal_strlit("pages-per-minute-color");
            }
            assert(JobTemplateAttribute::spec_from_keyword("job-id"@) is None) by {
                reveal_strlit("job-id");
                reveal_strlit("job-priority");
                reveal_strlit("job-hold-until");
                reveal_strlit("job-sheets");
                reveal_strlit("multiple-document-handling");
                reveal_strlit("copies");
                reveal_strlit("finishings");
                reveal_strlit("page-ranges");
                reveal_strlit("sides");
                reveal_strlit("number-up");
                reveal_strlit("orientation-requested");
                reveal_strlit("media");
                reveal_strlit("printer-resolution");
                reveal_strlit("print-quality");
                assert("job-id"@[0] != "copies"@[0]);
            }
            assert(JobAttribute::spec_from_keyword("job-id"@) == Some(JobAttribute::JobId)) by {
                reveal_strlit("job-uri");
                reveal_strlit("job-id");
            }
            assert(canonical_name(NameView::Job(a)));
        },
        JobAttribute::JobPrinterUri => {
            assert(vstd::utf8::is_ascii_chars("job-printer-uri"@) && 0 < "job-printer-uri"@.len() <= 36) by {
                reveal_strlit("job-printer-uri");
            }
            vstd::utf8::is_ascii_chars_encode_utf8("job-printer-uri"@);
            assert(OperationAttribute::spec_from_keyword("job-printer-uri"@) is None) by {
                reveal_strlit("job-printer-uri");
                reveal_strlit("requested-attributes");
                reveal_strlit("printer-uri");
                reveal_strlit("attributes-charset");
                reveal_strlit("attributes-natural-language");
            }
            assert(PrinterAttribute::spec_from_keyword("job-printer-uri"@) is None) by {
                reveal_strlit("job-printer-uri");
                reveal_strlit("printer-uri-supported");
                reveal_strlit("uri-security-supported");
                reveal_strlit("uri-authentication-supported");
                reveal_strlit("printer-name");
                reveal_strlit("printer-location");
                reveal_strlit("printer-info");
                reveal_strlit("printer-more-info");
                reveal_strlit("printer-driver-installer");
                reveal_strlit("printer-make-and-model");
                reveal_strlit("printer-more-info-manufacturer");
                reveal_strlit("printer-state");
                reveal_strlit("printer-state-reasons");
                reveal_strlit("printer-state-message");
                reveal_strlit("ipp-versions-supported");
                reveal_strlit("operations-supported");
                reveal_strlit("multiple-document-jobs-supported");
                reveal_strlit("charset-configured");
                reveal_strlit("charset-supported");
                reveal_strlit("natural-language-configured");
                reveal_strlit("generated-natural-language-supported");
                reveal_strlit("document-format-default");
                reveal_strlit("document-format-supported");
                reveal_strlit("printer-is-accepting-jobs");
                reveal_strlit("queued-job-count");
                reveal_strlit("printer-message-from-operator");
                reveal_strlit("color-supported");
                reveal_strlit("reference-uri-schemes-supported");
                reveal_strlit("pdl-override-supported");
                reveal_strlit("printer-up-time");
                reveal_strlit("printer-current-time");
                reveal_strlit("multiple-operation-time-out");
                reveal_strlit("compression-supported");
                reveal_strlit("job-k-octets-supported");
                reveal_strlit("job-impressions-supported");
                reveal_strlit("job-media-sheets-supported");
                reveal_strlit("pages-per-minute");
                reveal_strlit("pages-per-minute-color");
                assert("job-printer-uri"@[0] != "color-supported"@[0]);
                assert("job-printer-uri"@[0] != "printer-up-time"@[0]);
            }
            assert(JobTemplateAttribute::spec_from_keyword("job-printer-uri"@) is None) by {
                reveal_strlit("job-printer-uri");
                reveal_strlit("job-priority");
                reveal_strlit("job-hold-until");
                reveal_strlit("job-sheets");
                reveal_strlit("multiple-document-handling");
                reveal_strlit("copies");
                reveal_strlit("finishings");
                reveal_strlit("page-ranges");
                reveal_strlit("sides");
                reveal_strlit("number-up");
                reveal_strlit("orientation-requested");
                reveal_strlit("media");
                reveal_strlit("printer-resolution");
                reveal_strlit("print-quality");
            }
            assert(JobAttribute::spec_from_keyword("job-printer-uri"@) == Some(JobAttribute::JobPrinterUri)) by {
                reveal_strlit("job-uri");
                reveal_strlit("job-id");
                reveal_strlit("job-printer-uri");
            }
            assert(canonical_name(NameView::Job(a)));
        },
        JobAttribute::JobMoreInfo => {
            assert(vstd::utf8::is_ascii_chars("job-more-info"@) && 0 < "job-more-info"@.len() <= 36) by {
                reveal_strlit("job-more-info");
            }
            vstd::utf8::is_ascii_chars_encode_utf8("job-more-info"@);
            assert(OperationAttribute::spec_from_keyword("job-more-info"@) is None) by {
                reveal_strlit("job-more-info");
                reveal_strlit("requested-attributes");
                reveal_strlit("printer-uri");
                reveal_strlit("attributes-charset");
                reveal_strlit("attributes-natural-language");
            }
            assert(PrinterAttribute::spec_from_keyword("job-more-info"@) is None) by {
                reveal_strlit("job-more-info");
                reveal_strlit("printer-uri-supported");
                reveal_strlit("uri-security-supported");
                reveal_strlit("uri-authentication-supported");
                reveal_strlit("printer-name");
                reveal_strlit("printer-location");
                reveal_strlit("printer-info");
                reveal_strlit("printer-more-info");
                reveal_strlit("printer-driver-installer");
                reveal_strlit("printer-make-and-model");
                reveal_strlit("printer-more-info-manufacturer");
                reveal_strlit("printer-state");
                reveal_strlit("printer-state-reasons");
                reveal_strlit("printer-state-message");
                reveal_strlit("ipp-versions-supported");
                reveal_strlit("operations-supported");
                reveal_strlit("multiple-document-jobs-supported");
                reveal_strlit("charset-configured");
                reveal_strlit("charset-supported");
                reveal_strlit("natural-language-configured");
                reveal_strlit("generated-natural-language-supported");
                reveal_strlit("document-format-default");
                reveal_strlit("document-format-supported");
                reveal_strlit("printer-is-accepting-jobs");
                reveal_strlit("queued-job-count");
                reveal_strlit("printer-message-from-operator");
                reveal_strlit("color-supported");
                reveal_strlit("reference-uri-schemes-supported");
                reveal_strlit("pdl-override-supported");
                reveal_strlit("printer-up-time");
                reveal_strlit("printer-current-time");
                reveal_strlit("multiple-operation-time-out");
                reveal_strlit("compression-supported");
                reveal_strlit("job-k-octets-supported");
                reveal_strlit("job-impressions-supported");
                reveal_strlit("job-media-sheets-supported");
                reveal_strlit("pages-per-minute");
                reveal_strlit("pages-per-minute-color");
                assert("job-more-info"@[0] != "printer-state"@[0]);
            }
            assert(JobTemplateAttribute::spec_from_keyword("job-more-info"@) is None) by {
                reveal_strlit("job-more-info");
                reveal_strlit("job-priority");
                reveal_strlit("job-hold-until");
                reveal_strlit("job-sheets");
                reveal_strlit("multiple-document-handling");
                reveal_strlit("copies");
                reveal_strlit("finishings");
                reveal_strlit("page-ranges");
                reveal_strlit("sides");
                reveal_strlit("number-up");
                reveal_strlit("orientation-requested");
                reveal_strlit("media");
                reveal_strlit("printer-resolution");
                reveal_strlit("print-quality");
                assert("job-more-info"@[0] != "print-quality"@[0]);
            }
            assert(JobAttribute::spec_from_keyword("job-more-info"@) == Some(JobAttribute::JobMoreInfo)) by {
                reveal_strlit("job-uri");
                reveal_strlit("job-id");
                reveal_strlit("job-printer-uri");
                reveal_strlit("job-more-info");
            }
            assert(canonical_name(NameView::Job(a)));
        },
        JobAttribute::JobName => {
            assert(vstd::utf8::is_ascii_chars("job-name"@) && 0 < "job-name"@.len() <= 36) by {
                reveal_strlit("job-name");
            }
            vstd::utf8::is_ascii_chars_encode_utf8("job-name"@);
            assert(OperationAttribute::spec_from_keyword("job-name"@) is None) by {
                reveal_strlit("job-name");
                reveal_strlit("requested-attributes");
                reveal_strlit("printer-uri");
                reveal_strlit("attributes-charset");
                reveal_strlit("attributes-natural-language");
            }
            assert(PrinterAttribute::spec_from_keyword("job-name"@) is None) by {
                reveal_strlit("job-name");
                reveal_strlit("printer-uri-supported");
                reveal_strlit("uri-security-supported");
                reveal_strlit("uri-authentication-supported");
                reveal_strlit("printer-name");
                reveal_strlit("printer-location");
                reveal_strlit("printer-info");
                reveal_strlit("printer-more-info");
                reveal_strlit("printer-driver-installer");
                reveal_strlit("printer-make-and-model");
                reveal_strlit("printer-more-info-manufacturer");
                reveal_strlit("printer-state");
                reveal_strlit("printer-state-reasons");
                reveal_strlit("printer-state-message");
                reveal_strlit("ipp-versions-supported");
                reveal_strlit("operations-supported");
                reveal_strlit("multiple-document-jobs-supported");
                reveal_strlit("charset-configured");
                reveal_strlit("charset-supported");
                reveal_strlit("natural-language-configured");
                reveal_strlit("generated-natural-language-supported");
                reveal_strlit("document-format-default");
                reveal_strlit("document-format-supported");
                reveal_strlit("printer-is-accepting-jobs");
                reveal_strlit("queued-job-count");
                reveal_strlit("printer-message-from-operator");
                reveal_strlit("color-supported");
                reveal_strlit("reference-uri-schemes-supported");
                reveal_strlit("pdl-override-supported");
                reveal_strlit("printer-up-time");
                reveal_strlit("printer-current-time");
                reveal_strlit("multiple-operation-time-out");
                reveal_strlit("compression-supported");
                reveal_strlit("job-k-octets-supported");
                reveal_strlit("job-impressions-supported");
                reveal_strlit("job-media-sheets-supported");
                reveal_strlit("pages-per-minute");
                reveal_strlit("pages-per-minute-color");
            }
            assert(JobTemplateAttribute::spec_from_keyword("job-name"@) is None) by {
                reveal_strlit("job-name");
                reveal_strlit("job-priority");
                reveal_strlit("job-hold-until");
                reveal_strlit("job-sheets");
                reveal_strlit("multiple-document-handling");
                reveal_strlit("copies");
                reveal_strlit("finishings");
                reveal_strlit("page-ranges");
                reveal_strlit("sides");
                reveal_strlit("number-up");
                reveal_strlit("orientation-requested");
                reveal_strlit("media");
                reveal_strlit("printer-resolution");
                reveal_strlit("print-quality");
            }
            assert(JobAttribute::spec_from_keyword("job-name"@) == Some(JobAttribute::JobName)) by {
                reveal_strlit("job-uri");
                reveal_strlit("job-id");
                reveal_strlit("job-printer-uri");
                reveal_strlit("job-more-info");
                reveal_strlit("job-name");
            }
            assert(canonical_name(NameView::Job(a)));
        },
        JobAttribute::JobOriginatingUserName => {
            assert(vstd::utf8::is_ascii_chars("job-originating-user-name"@) && 0 < "job-originating-user-name"@.len() <= 36) by {
                reveal_strlit("job-originating-user-name");
            }
            vstd::utf8::is_ascii_chars_encode_utf8("job-originating-user-name"@);
            assert(OperationAttribute::spec_from_keyword("job-originating-user-name"@) is None) by {
                reveal_strlit("job-originating-user-name");
                reveal_strlit("requested-attributes");
                reveal_strlit("printer-uri");
                reveal_strlit("attributes-charset");
                reveal_strlit("attributes-natural-language");
            }
            assert(PrinterAttribute::spec_from_keyword("job-originating-user-name"@) is None) by {
                reveal_strlit("job-originating-user-name");
                reveal_strlit("printer-uri-supported");
                reveal_strlit("uri-security-supported");
                reveal_strlit("uri-authentication-supported");
                reveal_strlit("printer-name");
                reveal_strlit("printer-location");
                reveal_strlit("printer-info");
                reveal_strlit("printer-more-info");
                reveal_strlit("printer-driver-installer");
                reveal_strlit("printer-make-and-model");
                reveal_strlit("printer-more-info-manufacturer");
                reveal_strlit("printer-state");
                reveal_strlit("printer-state-reasons");
                reveal_strlit("printer-state-message");
                reveal_strlit("ipp-versions-supported");
                reveal_strlit("operations-supported");
                reveal_strlit("multiple-document-jobs-supported");
                reveal_strlit("charset-configured");
                reveal_strlit("charset-supported");
                reveal_strlit("natural-language-configured");
                reveal_strlit("generated-natural-language-supported");
                reveal_strlit("document-format-default");
                reveal_strlit("document-format-supported");
                reveal_strlit("printer-is-accepting-jobs");
                reveal_strlit("queued-job-count");
                reveal_strlit("printer-message-from-operator");
                reveal_strlit("color-supported");
                reveal_strlit("reference-uri-schemes-supported");
                reveal_strlit("pdl-override-supported");
                reveal_strlit("printer-up-time");
                reveal_strlit("printer-current-time");
                reveal_strlit("multiple-operation-time-out");
                reveal_strlit("compression-supported");
                reveal_strlit("job-k-octets-supported");
                reveal_strlit("job-impressions-supported");
                reveal_strlit("job-media-sheets-supported");
                reveal_strlit("pages-per-minute");
                reveal_strlit("pages-per-minute-color");
                assert("job-originating-user-name"@[0] != "document-format-supported"@[0]);
                assert("job-originating-user-name"@[0] != "printer-is-accepting-jobs"@[0]);
                assert("job-originating-user-name"@[4] != "job-impressions-supported"@[4]);
            }
            assert(JobTemplateAttribute::spec_from_keyword("job-originating-user-name"@) is None) by {
                reveal_strlit("job-originating-user-name");
                reveal_strlit("job-priority");
                reveal_strlit("job-hold-until");
                reveal_strlit("job-sheets");
                reveal_strlit("multiple-document-handling");
                reveal_strlit("copies");
                reveal_strlit("finishings");
                reveal_strlit("page-ranges");
                reveal_strlit("sides");
                reveal_strlit("number-up");
                reveal_strlit("orientation-requested");
                reveal_strlit("media");
                reveal_strlit("printer-resolution");
                reveal_strlit("print-quality");
            }
            assert(JobAttribute::spec_from_keyword("job-originating-user-name"@) == Some(JobAttribute::JobOriginatingUserName)) by {
                reveal_strlit("job-uri");
                reveal_strlit("job-id");
                reveal_strlit("job-printer-uri");
                reveal_strlit("job-more-info");
                reveal_strlit("job-name");
                reveal_strlit("job-originating-user-name");
            }
            assert(canonical_name(NameView::Job(a)));
        },
        JobAttribute::JobState => {
            assert(vstd::utf8::is_ascii_chars("job-state"@) && 0 < "job-state"@.len() <= 36) by {
                reveal_strlit("job-state");
            }
            vstd::utf8::is_ascii_chars_encode_utf8("job-state"@);
            assert(OperationAttribute::spec_from_keyword("job-state"@) is None) by {
                reveal_strlit("job-state");
                reveal_strlit("requested-attributes");
                reveal_strlit("printer-uri");
                reveal_strlit("attributes-charset");
                reveal_strlit("attributes-natural-language");
            }
            assert(PrinterAttribute::spec_from_keyword("job-state"@) is None) by {
                reveal_strlit("job-state");
                reveal_strlit("printer-uri-supported");
                reveal_strlit("uri-security-supported");
                reveal_strlit("uri-authentication-supported");
                reveal_strlit("printer-name");
                reveal_strlit("printer-location");
                reveal_strlit("printer-info");
                reveal_strlit("printer-more-info");
                reveal_strlit("printer-driver-installer");
                reveal_strlit("printer-make-and-model");
                reveal_strlit("printer-more-info-manufacturer");
                reveal_strlit("printer-state");
                reveal_strlit("printer-state-reasons");
                reveal_strlit("printer-state-message");
                reveal_strlit("ipp-versions-supported");
                reveal_strlit("operations-supported");
                reveal_strlit("multiple-document-jobs-supported");
                reveal_strlit("charset-configured");
                reveal_strlit("charset-supported");
                reveal_strlit("natural-language-configured");
                reveal_strlit("generated-natural-language-supported");
                reveal_strlit("document-format-default");
                reveal_strlit("document-format-supported");
                reveal_strlit("printer-is-accepting-jobs");
                reveal_strlit("queued-job-count");
                reveal_strlit("printer-message-from-operator");
                reveal_strlit("color-supported");
                reveal_strlit("reference-uri-schemes-supported");
                reveal_strlit("pdl-override-supported");
                reveal_strlit("printer-up-time");
                reveal_strlit("printer-current-time");
                reveal_strlit("multiple-operation-time-out");
                reveal_strlit("compression-supported");
                reveal_strlit("job-k-octets-supported");
                reveal_strlit("job-impressions-supported");
                reveal_strlit("job-media-sheets-supported");
                reveal_strlit("pages-per-minute");
                reveal_strlit("pages-per-minute-color");
            }
            assert(JobTemplateAttribute::spec_from_keyword("job-state"@) is None) by {
                reveal_strlit("job-state");
                reveal_strlit("job-priority");
                reveal_strlit("job-hold-until");
                reveal_strlit("job-sheets");
                reveal_strlit("multiple-document-handling");
                reveal_strlit("copies");
                reveal_strlit("finishings");
                reveal_strlit("page-ranges");
                reveal_strlit("sides");
                reveal_strlit("number-up");
                reveal_strlit("orientation-requested");
                reveal_strlit("media");
                reveal_strlit("printer-resolution");
                reveal_strlit("print-quality");
                assert("job-state"@[0] != "number-up"@[0]);
            }
            assert(JobAttribute::spec_from_keyword("job-state"@) == Some(JobAttribute::JobState)) by {
                reveal_strlit("job-uri");
                reveal_strlit("job-id");
                reveal_strlit("job-printer-uri");
                reveal_strlit("job-more-info");
                reveal_strlit("job-name");
                reveal_strlit("job-originating-user-name");
                reveal_strlit("job-state");
            }
            assert(canonical_name(NameView::Job(a)));
        },
        JobAttribute::JobStateReasons => {
            assert(vstd::utf8::is_ascii_chars("job-state-reasons"@) && 0 < "job-state-reasons"@.len() <= 36) by {
                reveal_strlit("job-state-reasons");
            }
            vstd::utf8::is_ascii_chars_encode_utf8("job-state-reasons"@);
            assert(OperationAttribute::spec_from_keyword("job-state-reasons"@) is None) by {
                reveal_strlit("job-state-reasons");
                reveal_strlit("requested-attributes");
                reveal_strlit("printer-uri");
                reveal_strlit("attributes-charset");
                reveal_strlit("attributes-natural-language");
            }
            assert(PrinterAttribute::spec_from_keyword("job-state-reasons"@) is None) by {
                reveal_strlit("job-state-reasons");
                reveal_strlit("printer-uri-supported");
                reveal_strlit("uri-security-supported");
                reveal_strlit("uri-authentication-supported");
                reveal_strlit("printer-name");
                reveal_strlit("printer-location");
                reveal_strlit("printer-info");
                reveal_strlit("printer-more-info");
                reveal_strlit("printer-driver-installer");
                reveal_strlit("printer-make-and-model");
                reveal_strlit("printer-more-info-manufacturer");
                reveal_strlit("printer-state");
                reveal_strlit("printer-state-reasons");
                reveal_strlit("printer-state-message");
                reveal_strlit("ipp-versions-supported");
                reveal_strlit("operations-supported");
                reveal_strlit("multiple-document-jobs-supported");
                reveal_strlit("charset-configured");
                reveal_strlit("charset-supported");
                reveal_strlit("natural-language-configured");
                reveal_strlit("generated-natural-language-supported");
                reveal_strlit("document-format-default");
                reveal_strlit("document-format-supported");
                reveal_strlit("printer-is-accepting-jobs");
                reveal_strlit("queued-job-count");
                reveal_strlit("printer-message-from-operator");
                reveal_strlit("color-supported");
                reveal_strlit("reference-uri-schemes-supported");
                reveal_strlit("pdl-override-supported");
                reveal_strlit("printer-up-time");
                reveal_strlit("printer-current-time");
                reveal_strlit("multiple-operation-time-out");
                reveal_strlit("compression-supported");
                reveal_strlit("job-k-octets-supported");
                reveal_strlit("job-impressions-supported");
                reveal_strlit("job-media-sheets-supported");
                reveal_strlit("pages-per-minute");
                reveal_strlit("pages-per-minute-color");
                assert("job-state-reasons"@[0] != "printer-more-info"@[0]);
                assert("job-state-reasons"@[0] != "charset-supported"@[0]);
            }
            assert(JobTemplateAttribute::spec_from_keyword("job-state-reasons"@) is None) by {
                reveal_strlit("job-state-reasons");
                reveal_strlit("job-priority");
                reveal_strlit("job-hold-until");
                reveal_strlit("job-sheets");
                reveal_strlit("multiple-document-handling");
                reveal_strlit("copies");
                reveal_strlit("finishings");
                reveal_strlit("page-ranges");
                reveal_strlit("sides");
                reveal_strlit("number-up");
                reveal_strlit("orientation-requested");
                reveal_strlit("media");
                reveal_strlit("printer-resolution");
                reveal_strlit("print-quality");
            }
            assert(JobAttribute::spec_from_keyword("job-state-reasons"@) == Some(JobAttribute::JobStateReasons)) by {
                reveal_strlit("job-uri");
                reveal_strlit("job-id");
                reveal_strlit("job-printer-uri");
                reveal_strlit("job-more-info");
                reveal_strlit("job-name");
                reveal_strlit("job-originating-user-name");
                reveal_strlit("job-state");
                reveal_strlit("job-state-reasons");
            }
            assert(canonical_name(NameView::Job(a)));
        },
        JobAttribute::JobStateMessage => {
            assert(vstd::utf8::is_ascii_chars("job-state-message"@) && 0 < "job-state-message"@.len() <= 36) by {
                reveal_strlit("job-state-message");
            }
            vstd::utf8::is_ascii_chars_encode_utf8("job-state-message"@);
            assert(OperationAttribute::spec_from_keyword("job-state-message"@) is None) by {
                reveal_strlit("job-state-message");
                reveal_strlit("requested-attributes");
                reveal_strlit("printer-uri");
                reveal_strlit("attributes-charset");
                reveal_strlit("attributes-natural-language");
            }
            assert(PrinterAttribute::spec_from_keyword("job-state-message"@) is None) by {
                reveal_strlit("job-state-message");
                reveal_strlit("printer-uri-supported");
                reveal_strlit("uri-security-supported");
                reveal_strlit("uri-authentication-supported");
                reveal_strlit("printer-name");
                reveal_strlit("printer-location");
                reveal_strlit("printer-info");
                reveal_strlit("printer-more-info");
                reveal_strlit("printer-driver-installer");
                reveal_strlit("printer-make-and-model");
                reveal_strlit("printer-more-info-manufacturer");
                reveal_strlit("printer-state");
                reveal_strlit("printer-state-reasons");
                reveal_strlit("printer-state-message");
                reveal_strlit("ipp-versions-supported");
                reveal_strlit("operations-supported");
                reveal_strlit("multiple-document-jobs-supported");
                reveal_strlit("charset-configured");
                reveal_strlit("charset-supported");
                reveal_strlit("natural-language-configured");
                reveal_strlit("generated-natural-language-supported");
                reveal_strlit("document-format-default");
                reveal_strlit("document-format-supported");
                reveal_strlit("printer-is-accepting-jobs");
                reveal_strlit("queued-job-count");
                reveal_strlit("printer-message-from-operator");
                reveal_strlit("color-supported");
                reveal_strlit("reference-uri-schemes-supported");
                reveal_strlit("pdl-override-supported");
                reveal_strlit("printer-up-time");
                reveal_strlit("printer-current-time");
                reveal_strlit("multiple-operation-time-out");
                reveal_strlit("compression-supported");
                reveal_strlit("job-k-octets-supported");
                reveal_strlit("job-impressions-supported");
                reveal_strlit("job-media-sheets-supported");
                reveal_strlit("pages-per-minute");
                reveal_strlit("pages-per-minute-color");
                assert("job-state-message"@[0] != "printer-more-info"@[0]);
                assert("job-state-message"@[0] != "charset-supported"@[0]);
            }
            assert(JobTemplateAttribute::spec_from_keyword("job-state-message"@) is None) by {
                reveal_strlit("job-state-message");
                reveal_strlit("job-priority");
                reveal_strlit("job-hold-until");
                reveal_strlit("job-sheets");
                reveal_strlit("multiple-document-handling");
                reveal_strlit("copies");
                reveal_strlit("finishings");
                reveal_strlit("page-ranges");
                reveal_strlit("sides");
                reveal_strlit("number-up");
                reveal_strlit("orientation-requested");
                reveal_strlit("media");
                reveal_strlit("printer-resolution");
                reveal_strlit("print-quality");
            }
            assert(JobAttribute::spec_from_keyword("job-state-message"@) == Some(JobAttribute::JobStateMessage)) by {
                reveal_strlit("job-uri");
                reveal_strlit("job-id");
                reveal_strlit("job-printer-uri");
                reveal_strlit("job-more-info");
                reveal_strlit("job-name");
                reveal_strlit("job-originating-user-name");
                reveal_strlit("job-state");
                reveal_strlit("job-state-reasons");
                reveal_strlit("job-state-message");
                assert("job-state-message"@[10] != "job-state-reasons"@[10]);
            }
            assert(canonical_name(NameView::Job(a)));
        },
        JobAttribute::JobDetailedStatusMessages => {
            assert(vstd::utf8::is_ascii_chars("job-detailed-status-messages"@) && 0 < "job-detailed-status-messages"@.len() <= 36) by {
                reveal_strlit("job-detailed-status-messages");
            }
            vstd::utf8::is_ascii_chars_encode_utf8("job-detailed-status-messages"@);
            assert(OperationAttribute::spec_from_keyword("job-detailed-status-messages"@) is None) by {
                reveal_strlit("job-detailed-status-messages");
                reveal_strlit("requested-attributes");
                reveal_strlit("printer-uri");
                reveal_strlit("attributes-charset");
                reveal_strlit("attributes-natural-language");
            }
            assert(PrinterAttribute::spec_from_keyword("job-detailed-status-messages"@) is None) by {
                reveal_strlit("job-detailed-status-messages");
                reveal_strlit("printer-uri-supported");
                reveal_strlit("uri-security-supported");
                reveal_strlit("uri-authentication-supported");
                reveal_strlit("printer-name");
                reveal_strlit("printer-location");
                reveal_strlit("printer-info");
                reveal_strlit("printer-more-info");
                reveal_strlit("printer-driver-installer");
                reveal_strlit("printer-make-and-model");
                reveal_strlit("printer-more-info-manufacturer");
                reveal_strlit("printer-state");
                reveal_strlit("printer-state-reasons");
                reveal_strlit("printer-state-message");
                reveal_strlit("ipp-versions-supported");
                reveal_strlit("operations-supported");
                reveal_strlit("multiple-document-jobs-supported");
                reveal_strlit("charset-configured");
                reveal_strlit("charset-supported");
                reveal_strlit("natural-language-configured");
                reveal_strlit("generated-natural-language-supported");
                reveal_strlit("document-format-default");
                reveal_strlit("document-format-supported");
                reveal_strlit("printer-is-accepting-jobs");
                reveal_strlit("queued-job-count");
                reveal_strlit("printer-message-from-operator");
                reveal_strlit("color-supported");
                reveal_strlit("reference-uri-schemes-supported");
                reveal_strlit("pdl-override-supported");
                reveal_strlit("printer-up-time");
                reveal_strlit("printer-current-time");
                reveal_strlit("multiple-operation-time-out");
                reveal_strlit("compression-supported");
                reveal_strlit("job-k-octets-supported");
                reveal_strlit("job-impressions-supported");
                reveal_strlit("job-media-sheets-supported");
                reveal_strlit("pages-per-minute");
                reveal_strlit("pages-per-minute-color");
                assert("job-detailed-status-messages"@[0] != "uri-authentication-supported"@[0]);
            }
            assert(JobTemplateAttribute::spec_from_keyword("job-detailed-status-messages"@) is None) by {
                reveal_strlit("job-detailed-status-messages");
                reveal_strlit("job-priority");
                reveal_strlit("job-hold-until");
                reveal_strlit("job-sheets");
                reveal_strlit("multiple-document-handling");
                reveal_strlit("copies");
                reveal_strlit("finishings");
                reveal_strlit("page-ranges");
                reveal_strlit("sides");
                reveal_strlit("number-up");
                reveal_strlit("orientation-requested");
                reveal_strlit("media");
                reveal_strlit("printer-resolution");
                reveal_strlit("print-quality");
            }
            assert(JobAttribute::spec_from_keyword("job-detailed-status-messages"@) == Some(JobAttribute::JobDetailedStatusMessages)) by {
                reveal_strlit("job-uri");
                reveal_strlit("job-id");
                reveal_strlit("job-printer-uri");
                reveal_strlit("job-more-info");
                reveal_strlit("job-name");
                reveal_strlit("job-originating-user-name");
                reveal_strlit("job-state");
                reveal_strlit("job-state-reasons");
                reveal_strlit("job-state-message");
                reveal_strlit("job-detailed-status-messages");
            }
            assert(canonical_name(NameView::Job(a)));
        },
        JobAttribute::JobDocumentAccessErrors => {
            assert(vstd::utf8::is_ascii_chars("job-document-access-errors"@) && 0 < "job-document-access-errors"@.len() <= 36) by {
                reveal_strlit("job-document-access-errors");
            }
            vstd::utf8::is_ascii_chars_encode_utf8("job-document-access-errors"@);
            assert(OperationAttribute::spec_from_keyword("job-document-access-errors"@) is None) by {
                reveal_strlit("job-document-access-errors");
                reveal_strlit("requested-attributes");
                reveal_strlit("printer-uri");
                reveal_strlit("attributes-charset");
                reveal_strlit("attributes-natural-language");
            }
            assert(PrinterAttribute::spec_from_keyword("job-document-access-errors"@) is None) by {
                reveal_strlit("job-document-access-errors");
                reveal_strlit("printer-uri-supported");
                reveal_strlit("uri-security-supported");
                reveal_strlit("uri-authentication-supported");
                reveal_strlit("printer-name");
                reveal_strlit("printer-location");
                reveal_strlit("printer-info");
                reveal_strlit("printer-more-info");
                reveal_strlit("printer-driver-installer");
                reveal_strlit("printer-make-and-model");
                reveal_strlit("printer-more-info-manufacturer");
                reveal_strlit("printer-state");
                reveal_strlit("printer-state-reasons");
                reveal_strlit("printer-state-message");
                reveal_strlit("ipp-versions-supported");
                reveal_strlit("operations-supported");
                reveal_strlit("multiple-document-jobs-supported");
                reveal_strlit("charset-configured");
                reveal_strlit("charset-supported");
                reveal_strlit("natural-language-configured");
                reveal_strlit("generated-natural-language-supported");
                reveal_strlit("document-format-default");
                reveal_strlit("document-format-supported");
                reveal_strlit("printer-is-accepting-jobs");
                reveal_strlit("queued-job-count");
                reveal_strlit("printer-message-from-operator");
                reveal_strlit("color-supported");
                reveal_strlit("reference-uri-schemes-supported");
                reveal_strlit("pdl-override-supported");
                reveal_strlit("printer-up-time");
                reveal_strlit("printer-current-time");
                reveal_strlit("multiple-operation-time-out");
                reveal_strlit("compression-supported");
                reveal_strlit("job-k-octets-supported");
                reveal_strlit("job-impressions-supported");
                reveal_strlit("job-media-sheets-supported");
                reveal_strlit("pages-per-minute");
                reveal_strlit("pages-per-minute-color");
                assert("job-document-access-errors"@[4] != "job-media-sheets-supported"@[4]);
            }
            assert(JobTemplateAttribute::spec_from_keyword("job-document-access-errors"@) is None) by {
                reveal_strlit("job-document-access-errors");
                reveal_strlit("job-priority");
                reveal_strlit("job-hold-until");
                reveal_strlit("job-sheets");
                reveal_strlit("multiple-document-handling");
                reveal_strlit("copies");
                reveal_strlit("finishings");
                reveal_strlit("page-ranges");
                reveal_strlit("sides");
                reveal_strlit("number-up");
                reveal_strlit("orientation-requested");
                reveal_strlit("media");
                reveal_strlit("printer-resolution");
                reveal_strlit("print-quality");
                assert("job-document-access-errors"@[0] != "multiple-document-handling"@[0]);
            }
            assert(JobAttribute::spec_from_keyword("job-document-access-errors"@) == Some(JobAttribute::JobDocumentAccessErrors)) by {
                reveal_strlit("job-uri");
                reveal_strlit("job-id");
                reveal_strlit("job-printer-uri");
                reveal_strlit("job-more-info");
                reveal_strlit("job-name");
                reveal_strlit("job-originating-user-name");
                reveal_strlit("job-state");
                reveal_strlit("job-state-reasons");
                reveal_strlit("job-state-message");
                reveal_strlit("job-detailed-status-messages");
                reveal_strlit("job-document-access-errors");
            }
            assert(canonical_name(NameView::Job(a)));
        },
        JobAttribute::NumberOfDocuments => {
            assert(vstd::utf8::is_ascii_chars("number-of-documents"@) && 0 < "number-of-documents"@.len() <= 36) by {
                reveal_strlit("number-of-documents");
            }
            vstd::utf8::is_ascii_chars_encode_utf8("number-of-documents"@);
            assert(OperationAttribute::spec_from_keyword("number-of-documents"@) is None) by {
                reveal_strlit("number-of-documents");
                reveal_strlit("requested-attributes");
                reveal_strlit("printer-uri");
                reveal_strlit("attributes-charset");
                reveal_strlit("attributes-natural-language");
            }
            assert(PrinterAttribute::spec_from_keyword("number-of-documents"@) is None) by {
                reveal_strlit("number-of-documents");
                reveal_strlit("printer-uri-supported");
                reveal_strlit("uri-security-supported");
                reveal_strlit("uri-authentication-supported");
                reveal_strlit("printer-name");
                reveal_strlit("printer-location");
                reveal_strlit("printer-info");
                reveal_strlit("printer-more-info");
                reveal_strlit("printer-driver-installer");
                reveal_strlit("printer-make-and-model");
                reveal_strlit("printer-more-info-manufacturer");
                reveal_strlit("printer-state");
                reveal_strlit("printer-state-reasons");
                reveal_strlit("printer-state-message");
                reveal_strlit("ipp-versions-supported");
                reveal_strlit("operations-supported");
                reveal_strlit("multiple-document-jobs-supported");
                reveal_strlit("charset-configured");
                reveal_strlit("charset-supported");
                reveal_strlit("natural-language-configured");
                reveal_strlit("generated-natural-language-supported");
                reveal_strlit("document-format-default");
                reveal_strlit("document-format-supported");
                reveal_strlit("printer-is-accepting-jobs");
                reveal_strlit("queued-job-count");
                reveal_strlit("printer-message-from-operator");
                reveal_strlit("color-supported");
                reveal_strlit("reference-uri-schemes-supported");
                reveal_strlit("pdl-override-supported");
                reveal_strlit("printer-up-time");
                reveal_strlit("printer-current-time");
                reveal_strlit("multiple-operation-time-out");
                reveal_strlit("compression-supported");
                reveal_strlit("job-k-octets-supported");
                reveal_strlit("job-impressions-supported");
                reveal_strlit("job-media-sheets-supported");
                reveal_strlit("pages-per-minute");
                reveal_strlit("pages-per-minute-color");
            }
            assert(JobTemplateAttribute::spec_from_keyword("number-of-documents"@) is None) by {
                reveal_strlit("number-of-documents");
                reveal_strlit("job-priority");
                reveal_strlit("job-hold-until");
                reveal_strlit("job-sheets");
                reveal_strlit("multiple-document-handling");
                reveal_strlit("copies");
                reveal_strlit("finishings");
                reveal_strlit("page-ranges");
                reveal_strlit("sides");
                reveal_strlit("number-up");
                reveal_strlit("orientation-requested");
                reveal_strlit("media");
                reveal_strlit("printer-resolution");
                reveal_strlit("print-quality");
            }
            assert(JobAttribute::spec_from_keyword("number-of-documents"@) == Some(JobAttribute::NumberOfDocuments)) by {
                reveal_strlit("job-uri");
                reveal_strlit("job-id");
                reveal_strlit("job-printer-uri");
                reveal_strlit("job-more-info");
                reveal_strlit("job-name");
                reveal_strlit("job-originating-user-name");
                reveal_strlit("job-state");
                reveal_strlit("job-state-reasons");
                reveal_strlit("job-state-message");
                reveal_strlit("job-detailed-status-messages");
                reveal_strlit("job-document-access-errors");
                reveal_strlit("number-of-documents");
            }
            assert(canonical_name(NameView::Job(a)));
        },
        JobAttribute::OutputDeviceAssigned => {
            assert(vstd::utf8::is_ascii_chars("output-device-assigned"@) && 0 < "output-device-assigned"@.len() <= 36) by {
                reveal_strlit("output-device-assigned");
            }
            vstd::utf8::is_ascii_chars_encode_utf8("output-device-assigned"@);
            assert(OperationAttribute::spec_from_keyword("output-device-assigned"@) is None) by {
                reveal_strlit("output-device-assigned");
                reveal_strlit("requested-attributes");
                reveal_strlit("printer-uri");
                reveal_strlit("attributes-charset");
                reveal_strlit("attributes-natural-language");
            }
            assert(PrinterAttribute::spec_from_keyword("output-device-assigned"@) is None) by {
                reveal_strlit("output-device-assigned");
                reveal_strlit("printer-uri-supported");
                reveal_strlit("uri-security-supported");
                reveal_strlit("uri-authentication-supported");
                reveal_strlit("printer-name");
                reveal_strlit("printer-location");
                reveal_strlit("printer-info");
                reveal_strlit("printer-more-info");
                reveal_strlit("printer-driver-installer");
                reveal_strlit("printer-make-and-model");
                reveal_strlit("printer-more-info-manufacturer");
                reveal_strlit("printer-state");
                reveal_strlit("printer-state-reasons");
                reveal_strlit("printer-state-message");
                reveal_strlit("ipp-versions-supported");
                reveal_strlit("operations-supported");
                reveal_strlit("multiple-document-jobs-supported");
                reveal_strlit("charset-configured");
                reveal_strlit("charset-supported");
                reveal_strlit("natural-language-configured");
                reveal_strlit("generated-natural-language-supported");
                reveal_strlit("document-format-default");
                reveal_strlit("document-format-supported");
                reveal_strlit("printer-is-accepting-jobs");
                reveal_strlit("queued-job-count");
                reveal_strlit("printer-message-from-operator");
                reveal_strlit("color-supported");
                reveal_strlit("reference-uri-schemes-supported");
                reveal_strlit("pdl-override-supported");
                reveal_strlit("printer-up-time");
                reveal_strlit("printer-current-time");
                reveal_strlit("multiple-operation-time-out");
                reveal_strlit("compression-supported");
                reveal_strlit("job-k-octets-supported");
                reveal_strlit("job-impressions-supported");
                reveal_strlit("job-media-sheets-supported");
                reveal_strlit("pages-per-minute");
                reveal_strlit("pages-per-minute-color");
                assert("output-device-assigned"@[0] != "uri-security-supported"@[0]);
                assert("output-device-assigned"@[0] != "printer-make-and-model"@[0]);
                assert("output-device-assigned"@[0] != "ipp-versions-supported"@[0]);
                assert("output-device-assigned"@[0] != "pdl-override-supported"@[0]);
                assert("output-device-assigned"@[0] != "job-k-octets-supported"@[0]);
                assert("output-device-assigned"@[0] != "pages-per-minute-color"@[0]);
            }
            assert(JobTemplateAttribute::spec_from_keyword("output-device-assigned"@) is None) by {
                reveal_strlit("output-device-assigned");
                reveal_strlit("job-priority");
                reveal_strlit("job-hold-until");
                reveal_strlit("job-sheets");
                reveal_strlit("multiple-document-handling");
                reveal_strlit("copies");
                reveal_strlit("finishings");
                reveal_strlit("page-ranges");
                reveal_strlit("sides");
                reveal_strlit("number-up");
                reveal_strlit("orientation-requested");
                reveal_strlit("media");
                reveal_strlit("printer-resolution");
                reveal_strlit("print-quality");
            }
            assert(JobAttribute::spec_from_keyword("output-device-assigned"@) == Some(JobAttribute::OutputDeviceAssigned)) by {
                reveal_strlit("job-uri");
                reveal_strlit("job-id");
                reveal_strlit("job-printer-uri");
                reveal_strlit("job-more-info");
                reveal_strlit("job-name");
                reveal_strlit("job-originating-user-name");
                reveal_strlit("job-state");
                reveal_strlit("job-state-reasons");
                reveal_strlit("job-state-message");
                reveal_strlit("job-detailed-status-messages");
                reveal_strlit("job-document-access-errors");
                reveal_strlit("number-of-documents");
                reveal_strlit("output-device-assigned");
            }
            assert(canonical_name(NameView::Job(a)));
        },
        JobAttribute::TimeAtCreation => {
            assert(vstd::utf8::is_ascii_chars("time-at-creation"@) && 0 < "time-at-creation"@.len() <= 36) by {
                reveal_strlit("time-at-creation");
            }
            vstd::utf8::is_ascii_chars_encode_utf8("time-at-creation"@);
            assert(OperationAttribute::spec_from_keyword("time-at-creation"@) is None) by {
                reveal_strlit("time-at-creation");
                reveal_strlit("requested-attributes");
                reveal_strlit("printer-uri");
                reveal_strlit("attributes-charset");
                reveal_strlit("attributes-natural-language");
            }
            assert(PrinterAttribute::spec_from_keyword("time-at-creation"@) is None) by {
                reveal_strlit("time-at-creation");
                reveal_strlit("printer-uri-supported");
                reveal_strlit("uri-security-supported");
                reveal_strlit("uri-authentication-supported");
                reveal_strlit("printer-name");
                reveal_strlit("printer-location");
                reveal_strlit("printer-info");
                reveal_strlit("printer-more-info");
                reveal_strlit("printer-driver-installer");
                reveal_strlit("printer-make-and-model");
                reveal_strlit("printer-more-info-manufacturer");
                reveal_strlit("printer-state");
                reveal_strlit("printer-state-reasons");
                reveal_strlit("printer-state-message");
                reveal_strlit("ipp-versions-supported");
                reveal_strlit("operations-supported");
                reveal_strlit("multiple-document-jobs-supported");
                reveal_strlit("charset-configured");
                reveal_strlit("charset-supported");
                reveal_strlit("natural-language-configured");
                reveal_strlit("generated-natural-language-supported");
                reveal_strlit("document-format-default");
                reveal_strlit("document-format-supported");
                reveal_strlit("printer-is-accepting-jobs");
                reveal_strlit("queued-job-count");
                reveal_strlit("printer-message-from-operator");
                reveal_strlit("color-supported");
                reveal_strlit("reference-uri-schemes-supported");
                reveal_strlit("pdl-override-supported");
                reveal_strlit("printer-up-time");
                reveal_strlit("printer-current-time");
                reveal_strlit("multiple-operation-time-out");
                reveal_strlit("compression-supported");
                reveal_strlit("job-k-octets-supported");
                reveal_strlit("job-impressions-supported");
                reveal_strlit("job-media-sheets-supported");
                reveal_strlit("pages-per-minute");
                reveal_strlit("pages-per-minute-color");
                assert("time-at-creation"@[0] != "printer-location"@[0]);
                assert("time-at-creation"@[0] != "queued-job-count"@[0]);
                assert("time-at-creation"@[0] != "pages-per-minute"@[0]);
            }
            assert(JobTemplateAttribute::spec_from_keyword("time-at-creation"@) is None) by {
                reveal_strlit("time-at-creation");
                reveal_strlit("job-priority");
                reveal_strlit("job-hold-until");
                reveal_strlit("job-sheets");
                reveal_strlit("multiple-document-handling");
                reveal_strlit("copies");
                reveal_strlit("finishings");
                reveal_strlit("page-ranges");
                reveal_strlit("sides");
                reveal_strlit("number-up");
                reveal_strlit("orientation-requested");
                reveal_strlit("media");
                reveal_strlit("printer-resolution");
                reveal_strlit("print-quality");
            }
            assert(JobAttribute::spec_from_keyword("time-at-creation"@) == Some(JobAttribute::TimeAtCreation)) by {
                reveal_strlit("job-uri");
                reveal_strlit("job-id");
                reveal_strlit("job-printer-uri");
                reveal_strlit("job-more-info");
                reveal_strlit("job-name");
                reveal_strlit("job-originating-user-name");
                reveal_strlit("job-state");
                reveal_strlit("job-state-reasons");
                reveal_strlit("job-state-message");
                reveal_strlit("job-detailed-status-messages");
                reveal_strlit("job-document-access-errors");
                reveal_strlit("number-of-documents");
                reveal_strlit("output-device-assigned");
                reveal_strlit("time-at-creation");
            }
            assert(canonical_name(NameView::Job(a)));
        },
        JobAttribute::TimeAtProcessing => {
            assert(vstd::utf8::is_ascii_chars("time-at-processing"@) && 0 < "time-at-processing"@.len() <= 36) by {
                reveal_strlit("time-at-processing");
            }
            vstd::utf8::is_ascii_chars_encode_utf8("time-at-processing"@);
            assert(OperationAttribute::spec_from_keyword("time-at-processing"@) is None) by {
                reveal_strlit("time-at-processing");
                reveal_strlit("requested-attributes");
                reveal_strlit("printer-uri");
                reveal_strlit("attributes-charset");
                reveal_strlit("attributes-natural-language");
                assert("time-at-processing"@[0] != "attributes-charset"@[0]);
            }
            assert(PrinterAttribute::spec_from_keyword("time-at-processing"@) is None) by {
                reveal_strlit("time-at-processing");
                reveal_strlit("printer-uri-supported");
                reveal_strlit("uri-security-supported");
                reveal_strlit("uri-authentication-supported");
                reveal_strlit("printer-name");
                reveal_strlit("printer-location");
                reveal_strlit("printer-info");
                reveal_strlit("printer-more-info");
                reveal_strlit("printer-driver-installer");
                reveal_strlit("printer-make-and-model");
                reveal_strlit("printer-more-info-manufacturer");
                reveal_strlit("printer-state");
                reveal_strlit("printer-state-reasons");
                reveal_strlit("printer-state-message");
                reveal_strlit("ipp-versions-supported");
                reveal_strlit("operations-supported");
                reveal_strlit("multiple-document-jobs-supported");
                reveal_strlit("charset-configured");
                reveal_strlit("charset-supported");
                reveal_strlit("natural-language-configured");
                reveal_strlit("generated-natural-language-supported");
                reveal_strlit("document-format-default");
                reveal_strlit("document-format-supported");
                reveal_strlit("printer-is-accepting-jobs");
                reveal_strlit("queued-job-count");
                reveal_strlit("printer-message-from-operator");
                reveal_strlit("color-supported");
                reveal_strlit("reference-uri-schemes-supported");
                reveal_strlit("pdl-override-supported");
                reveal_strlit("printer-up-time");
                reveal_strlit("printer-current-time");
                reveal_strlit("multiple-operation-time-out");
                reveal_strlit("compression-supported");
                reveal_strlit("job-k-octets-supported");
                reveal_strlit("job-impressions-supported");
                reveal_strlit("job-media-sheets-supported");
                reveal_strlit("pages-per-minute");
                reveal_strlit("pages-per-minute-color");
                assert("time-at-processing"@[0] != "charset-configured"@[0]);
            }
            assert(JobTemplateAttribute::spec_from_keyword("time-at-processing"@) is None) by {
                reveal_strlit("time-at-processing");
                reveal_strlit("job-priority");
                reveal_strlit("job-hold-until");
                reveal_strlit("job-sheets");
                reveal_strlit("multiple-document-handling");
                reveal_strlit("copies");
                reveal_strlit("finishings");
                reveal_strlit("page-ranges");
                reveal_strlit("sides");
                reveal_strlit("number-up");
                reveal_strlit("orientation-requested");
                reveal_strlit("media");
                reveal_strlit("printer-resolution");
                reveal_strlit("print-quality");
                assert("time-at-processing"@[0] != "printer-resolution"@[0]);
            }
            assert(JobAttribute::spec_from_keyword("time-at-processing"@) == Some(JobAttribute::TimeAtProcessing)) by {
                reveal_strlit("job-uri");
                reveal_strlit("job-id");
                reveal_strlit("job-printer-uri");
                reveal_strlit("job-more-info");
                reveal_strlit("job-name");
                reveal_strlit("job-originating-user-name");
                reveal_strlit("job-state");
                reveal_strlit("job-state-reasons");
                reveal_strlit("job-state-message");
                reveal_strlit("job-detailed-status-messages");
                reveal_strlit("job-document-access-errors");
                reveal_strlit("number-of-documents");
                reveal_strlit("output-device-assigned");
                reveal_strlit("time-at-creation");
                reveal_strlit("time-at-processing");
            }
            assert(canonical_name(NameView::Job(a)));
        },
        JobAttribute::TimeAtCompleted => {
            assert(vstd::utf8::is_ascii_chars("time-at-completed"@) && 0 < "time-at-completed"@.len() <= 36) by {
                reveal_strlit("time-at-completed");
            }
            vstd::utf8::is_ascii_chars_encode_utf8("time-at-completed"@);
            assert(OperationAttribute::spec_from_keyword("time-at-completed"@) is None) by {
                reveal_strlit("time-at-completed");
                reveal_strlit("requested-attributes");
                reveal_strlit("printer-uri");
                reveal_strlit("attributes-charset");
                reveal_strlit("attributes-natural-language");
            }
            assert(PrinterAttribute::spec_from_keyword("time-at-completed"@) is None) by {
                reveal_strlit("time-at-completed");
                reveal_strlit("printer-uri-supported");
                reveal_strlit("uri-security-supported");
                reveal_strlit("uri-authentication-supported");
                reveal_strlit("printer-name");
                reveal_strlit("printer-location");
                reveal_strlit("printer-info");
                reveal_strlit("printer-more-info");
                reveal_strlit("printer-driver-installer");
                reveal_strlit("printer-make-and-model");
                reveal_strlit("printer-more-info-manufacturer");
                reveal_strlit("printer-state");
                reveal_strlit("printer-state-reasons");
                reveal_strlit("printer-state-message");
                reveal_strlit("ipp-versions-supported");
                reveal_strlit("operations-supported");
                reveal_strlit("multiple-document-jobs-supported");
                reveal_strlit("charset-configured");
                reveal_strlit("charset-supported");
                reveal_strlit("natural-language-configured");
                reveal_strlit("generated-natural-language-supported");
                reveal_strlit("document-format-default");
                reveal_strlit("document-format-supported");
                reveal_strlit("printer-is-accepting-jobs");
                reveal_strlit("queued-job-count");
                reveal_strlit("printer-message-from-operator");
                reveal_strlit("color-supported");
                reveal_strlit("reference-uri-schemes-supported");
                reveal_strlit("pdl-override-supported");
                reveal_strlit("printer-up-time");
                reveal_strlit("printer-current-time");
                reveal_strlit("multiple-operation-time-out");
                reveal_strlit("compression-supported");
                reveal_strlit("job-k-octets-supported");
                reveal_strlit("job-impressions-supported");
                reveal_strlit("job-media-sheets-supported");
                reveal_strlit("pages-per-minute");
                reveal_strlit("pages-per-minute-color");
                assert("time-at-completed"@[0] != "printer-more-info"@[0]);
                assert("time-at-completed"@[0] != "charset-supported"@[0]);
            }
            assert(JobTemplateAttribute::spec_from_keyword("time-at-completed"@) is None) by {
                reveal_strlit("time-at-completed");
                reveal_strlit("job-priority");
                reveal_strlit("job-hold-until");
                reveal_strlit("job-sheets");
                reveal_strlit("multiple-document-handling");
                reveal_strlit("copies");
                reveal_strlit("finishings");
                reveal_strlit("page-ranges");
                reveal_strlit("sides");
                reveal_strlit("number-up");
                reveal_strlit("orientation-requested");
                reveal_strlit("media");
                reveal_strlit("printer-resolution");
                reveal_strlit("print-quality");
            }
            assert(JobAttribute::spec_from_keyword("time-at-completed"@) == Some(JobAttribute::TimeAtCompleted)) by {
                reveal_strlit("job-uri");
                reveal_strlit("job-id");
                reveal_strlit("job-printer-uri");
                reveal_strlit("job-more-info");
                reveal_strlit("job-name");
                reveal_strlit("job-originating-user-name");
                reveal_strlit("job-state");
                reveal_strlit("job-state-reasons");
                reveal_strlit("job-state-message");
                reveal_strlit("job-detailed-status-messages");
                reveal_strlit("job-document-access-errors");
                reveal_strlit("number-of-documents");
                reveal_strlit("output-device-assigned");
                reveal_strlit("time-at-creation");
                reveal_strlit("time-at-processing");
                reveal_strlit("time-at-completed");
                assert("time-at-completed"@[0] != "job-state-reasons"@[0]);
                assert("time-at-completed"@[0] != "job-state-message"@[0]);
            }
            assert(canonical_name(NameView::Job(a)));
        },
        JobAttribute::JobPrinterUpTime => {
            assert(vstd::utf8::is_ascii_chars("job-printer-up-time"@) && 0 < "job-printer-up-time"@.len() <= 36) by {
                reveal_strlit("job-printer-up-time");
            }
            vstd::utf8::is_ascii_chars_encode_utf8("job-printer-up-time"@);
            assert(OperationAttribute::spec_from_keyword("job-printer-up-time"@) is None) by {
                reveal_strlit("job-printer-up-time");
                reveal_strlit("requested-attributes");
                reveal_strlit("printer-uri");
                reveal_strlit("attributes-charset");
                reveal_strlit("attributes-natural-language");
            }
            assert(PrinterAttribute::spec_from_keyword("job-printer-up-time"@) is None) by {
                reveal_strlit("job-printer-up-time");
                reveal_strlit("printer-uri-supported");
                reveal_strlit("uri-security-supported");
                reveal_strlit("uri-authentication-supported");
                reveal_strlit("printer-name");
                reveal_strlit("printer-location");
                reveal_strlit("printer-info");
                reveal_strlit("printer-more-info");
                reveal_strlit("printer-driver-installer");
                reveal_strlit("printer-make-and-model");
                reveal_strlit("printer-more-info-manufacturer");
                reveal_strlit("printer-state");
                reveal_strlit("printer-state-reasons");
                reveal_strlit("printer-state-message");
                reveal_strlit("ipp-versions-supported");
                reveal_strlit("operations-supported");
                reveal_strlit("multiple-document-jobs-supported");
                reveal_strlit("charset-configured");
                reveal_strlit("charset-supported");
                reveal_strlit("natural-language-configured");
                reveal_strlit("generated-natural-language-supported");
                reveal_strlit("document-format-default");
                reveal_strlit("document-format-supported");
                reveal_strlit("printer-is-accepting-jobs");
                reveal_strlit("queued-job-count");
                reveal_strlit("printer-message-from-operator");
                reveal_strlit("color-supported");
                reveal_strlit("reference-uri-schemes-supported");
                reveal_strlit("pdl-override-supported");
                reveal_strlit("printer-up-time");
                reveal_strlit("printer-current-time");
                reveal_strlit("multiple-operation-time-out");
                reveal_strlit("compression-supported");
                reveal_strlit("job-k-octets-supported");
                reveal_strlit("job-impressions-supported");
                reveal_strlit("job-media-sheets-supported");
                reveal_strlit("pages-per-minute");
                reveal_strlit("pages-per-minute-color");
            }
            assert(JobTemplateAttribute::spec_from_keyword("job-printer-up-time"@) is None) by {
                reveal_strlit("job-printer-up-time");
                reveal_strlit("job-priority");
                reveal_strlit("job-hold-until");
                reveal_strlit("job-sheets");
                reveal_strlit("multiple-document-handling");
                reveal_strlit("copies");
                reveal_strlit("finishings");
                reveal_strlit("page-ranges");
                reveal_strlit("sides");
                reveal_strlit("number-up");
                reveal_strlit("orientation-requested");
                reveal_strlit("media");
                reveal_strlit("printer-resolution");
                reveal_strlit("print-quality");
            }
            assert(JobAttribute::spec_from_keyword("job-printer-up-time"@) == Some(JobAttribute::JobPrinterUpTime)) by {
                reveal_strlit("job-uri");
                reveal_strlit("job-id");
                reveal_strlit("job-printer-uri");
                reveal_strlit("job-more-info");
                reveal_strlit("job-name");
                reveal_strlit("job-originating-user-name");
                reveal_strlit("job-state");
                reveal_strlit("job-state-reasons");
                reveal_strlit("job-state-message");
                reveal_strlit("job-detailed-status-messages");
                reveal_strlit("job-document-access-errors");
                reveal_strlit("number-of-documents");
                reveal_strlit("output-device-assigned");
                reveal_strlit("time-at-creation");
                reveal_strlit("time-at-processing");
                reveal_strlit("time-at-completed");
                reveal_strlit("job-printer-up-time");
                assert("job-printer-up-time"@[0] != "number-of-documents"@[0]);
            }
            assert(canonical_name(NameView::Job(a)));
        },
        JobAttribute::DateTimeAtCreation => {
            assert(vstd::utf8::is_ascii_chars("date-time-at-creation"@) && 0 < "date-time-at-creation"@.len() <= 36) by {
                reveal_strlit("date-time-at-creation");
            }
            vstd::utf8::is_ascii_chars_encode_utf8("date-time-at-creation"@);
            assert(OperationAttribute::spec_from_keyword("date-time-at-creation"@) is None) by {
                reveal_strlit("date-time-at-creation");
                reveal_strlit("requested-attributes");
                reveal_strlit("printer-uri");
                reveal_strlit("attributes-charset");
                reveal_strlit("attributes-natural-language");
            }
            assert(PrinterAttribute::spec_from_keyword("date-time-at-creation"@) is None) by {
                reveal_strlit("date-time-at-creation");
                reveal_strlit("printer-uri-supported");
                reveal_strlit("uri-security-supported");
                reveal_strlit("uri-authentication-supported");
                reveal_strlit("printer-name");
                reveal_strlit("printer-location");
                reveal_strlit("printer-info");
                reveal_strlit("printer-more-info");
                reveal_strlit("printer-driver-installer");
                reveal_strlit("printer-make-and-model");
                reveal_strlit("printer-more-info-manufacturer");
                reveal_strlit("printer-state");
                reveal_strlit("printer-state-reasons");
                reveal_strlit("printer-state-message");
                reveal_strlit("ipp-versions-supported");
                reveal_strlit("operations-supported");
                reveal_strlit("multiple-document-jobs-supported");
                reveal_strlit("charset-configured");
                reveal_strlit("charset-supported");
                reveal_strlit("natural-language-configured");
                reveal_strlit("generated-natural-language-supported");
                reveal_strlit("document-format-default");
                reveal_strlit("document-format-supported");
                reveal_strlit("printer-is-accepting-jobs");
                reveal_strlit("queued-job-count");
                reveal_strlit("printer-message-from-operator");
                reveal_strlit("color-supported");
                reveal_strlit("reference-uri-schemes-supported");
                reveal_strlit("pdl-override-supported");
                reveal_strlit("printer-up-time");
                reveal_strlit("printer-current-time");
                reveal_strlit("multiple-operation-time-out");
                reveal_strlit("compression-supported");
                reveal_strlit("job-k-octets-supported");
                reveal_strlit("job-impressions-supported");
                reveal_strlit("job-media-sheets-supported");
                reveal_strlit("pages-per-minute");
                reveal_strlit("pages-per-minute-color");
                assert("date-time-at-creation"@[0] != "printer-uri-supported"@[0]);
                assert("date-time-at-creation"@[0] != "printer-state-reasons"@[0]);
                assert("date-time-at-creation"@[0] != "printer-state-message"@[0]);
                assert("date-time-at-creation"@[0] != "compression-supported"@[0]);
            }
            assert(JobTemplateAttribute::spec_from_keyword("date-time-at-creation"@) is None) by {
                reveal_strlit("date-time-at-creation");
                reveal_strlit("job-priority");
                reveal_strlit("job-hold-until");
                reveal_strlit("job-sheets");
                reveal_strlit("multiple-document-handling");
                reveal_strlit("copies");
                reveal_strlit("finishings");
                reveal_strlit("page-ranges");
                reveal_strlit("sides");
                reveal_strlit("number-up");
                reveal_strlit("orientation-requested");
                reveal_strlit("media");
                reveal_strlit("printer-resolution");
                reveal_strlit("print-quality");
                assert("date-time-at-creation"@[0] != "orientation-requested"@[0]);
            }
            assert(JobAttribute::spec_from_keyword("date-time-at-creation"@) == Some(JobAttribute::DateTimeAtCreation)) by {
                reveal_strlit("job-uri");
                reveal_strlit("job-id");
                reveal_strlit("job-printer-uri");
                reveal_strlit("job-more-info");
                reveal_strlit("job-name");
                reveal_strlit("job-originating-user-name");
                reveal_strlit("job-state");
                reveal_strlit("job-state-reasons");
                reveal_strlit("job-state-message");
                reveal_strlit("job-detailed-status-messages");
                reveal_strlit("job-document-access-errors");
                reveal_strlit("number-of-documents");
                reveal_strlit("output-device-assigned");
                reveal_strlit("time-at-creation");
                reveal_strlit("time-at-processing");
                reveal_strlit("time-at-completed");
                reveal_strlit("job-printer-up-time");
                reveal_strlit("date-time-at-creation");
            }
            assert(canonical_name(NameView::Job(a)));
        },
        JobAttribute::DateTimeAtProcessing => {
            assert(vstd::utf8::is_ascii_chars("date-time-at-processing"@) && 0 < "date-time-at-processing"@.len() <= 36) by {
                reveal_strlit("date-time-at-processing");
            }
            vstd::utf8::is_ascii_chars_encode_utf8("date-time-at-processing"@);
            assert(OperationAttribute::spec_from_keyword("date-time-at-processing"@) is None) by {
                reveal_strlit("date-time-at-processing");
                reveal_strlit("requested-attributes");
                reveal_strlit("printer-uri");
                reveal_strlit("attributes-charset");
                reveal_strlit("attributes-natural-language");
            }
            assert(PrinterAttribute::spec_from_keyword("date-time-at-processing"@) is None) by {
                reveal_strlit("date-time-at-processing");
                reveal_strlit("printer-uri-supported");
                reveal_strlit("uri-security-supported");
                reveal_strlit("uri-authentication-supported");
                reveal_strlit("printer-name");
                reveal_strlit("printer-location");
                reveal_strlit("printer-info");
                reveal_strlit("printer-more-info");
                reveal_strlit("printer-driver-installer");
                reveal_strlit("printer-make-and-model");
                reveal_strlit("printer-more-info-manufacturer");
                reveal_strlit("printer-state");
                reveal_strlit("printer-state-reasons");
                reveal_strlit("printer-state-message");
                reveal_strlit("ipp-versions-supported");
                reveal_strlit("operations-supported");
                reveal_strlit("multiple-document-jobs-supported");
                reveal_strlit("charset-configured");
                reveal_strlit("charset-supported");
                reveal_strlit("natural-language-configured");
                reveal_strlit("generated-natural-language-supported");
                reveal_strlit("document-format-default");
                reveal_strlit("document-format-supported");
                reveal_strlit("printer-is-accepting-jobs");
                reveal_strlit("queued-job-count");
                reveal_strlit("printer-message-from-operator");
                reveal_strlit("color-supported");
                reveal_strlit("reference-uri-schemes-supported");
                reveal_strlit("pdl-override-supported");
                reveal_strlit("printer-up-time");
                reveal_strlit("printer-current-time");
                reveal_strlit("multiple-operation-time-out");
                reveal_strlit("compression-supported");
                reveal_strlit("job-k-octets-supported");
                reveal_strlit("job-impressions-supported");
                reveal_strlit("job-media-sheets-supported");
                reveal_strlit("pages-per-minute");
                reveal_strlit("pages-per-minute-color");
                assert("date-time-at-processing"@[1] != "document-format-default"@[1]);
            }
            assert(JobTemplateAttribute::spec_from_keyword("date-time-at-processing"@) is None) by {
                reveal_strlit("date-time-at-processing");
                reveal_strlit("job-priority");
                reveal_strlit("job-hold-until");
                reveal_strlit("job-sheets");
                reveal_strlit("multiple-document-handling");
                reveal_strlit("copies");
                reveal_strlit("finishings");
                reveal_strlit("page-ranges");
                reveal_strlit("sides");
                reveal_strlit("number-up");
                reveal_strlit("orientation-requested");
                reveal_strlit("media");
                reveal_strlit("printer-resolution");
                reveal_strlit("print-quality");
            }
            assert(JobAttribute::spec_from_keyword("date-time-at-processing"@) == Some(JobAttribute::DateTimeAtProcessing)) by {
                reveal_strlit("job-uri");
                reveal_strlit("job-id");
                reveal_strlit("job-printer-uri");
                reveal_strlit("job-more-info");
                reveal_strlit("job-name");
                reveal_strlit("job-originating-user-name");
                reveal_strlit("job-state");
                reveal_strlit("job-state-reasons");
                reveal_strlit("job-state-message");
                reveal_strlit("job-detailed-status-messages");
                reveal_strlit("job-document-access-errors");
                reveal_strlit("number-of-documents");
                reveal_strlit("output-device-assigned");
                reveal_strlit("time-at-creation");
                reveal_strlit("time-at-processing");
                reveal_strlit("time-at-completed");
                reveal_strlit("job-printer-up-time");
                reveal_strlit("date-time-at-creation");
                reveal_strlit("date-time-at-processing");
            }
            assert(canonical_name(NameView::Job(a)));
        },
        JobAttribute::DateTimeAtCompleted => {
            assert(vstd::utf8::is_ascii_chars("date-time-at-completed"@) && 0 < "date-time-at-completed"@.len() <= 36) by {
                reveal_strlit("date-time-at-completed");
            }
            vstd::utf8::is_ascii_chars_encode_utf8("date-time-at-completed"@);
            assert(OperationAttribute::spec_from_keyword("date-time-at-completed"@) is None) by {
                reveal_strlit("date-time-at-completed");
                reveal_strlit("requested-attributes");
                reveal_strlit("printer-uri");
                reveal_strlit("attributes-charset");
                reveal_strlit("attributes-natural-language");
            }
            assert(PrinterAttribute::spec_from_keyword("date-time-at-completed"@) is None) by {
                reveal_strlit("date-time-at-completed");
                reveal_strlit("printer-uri-supported");
                reveal_strlit("uri-security-supported");
                reveal_strlit("uri-authentication-supported");
                reveal_strlit("printer-name");
                reveal_strlit("printer-location");
                reveal_strlit("printer-info");
                reveal_strlit("printer-more-info");
                reveal_strlit("printer-driver-installer");
                reveal_strlit("printer-make-and-model");
                reveal_strlit("printer-more-info-manufacturer");
                reveal_strlit("printer-state");
                reveal_strlit("printer-state-reasons");
                reveal_strlit("printer-state-message");
                reveal_strlit("ipp-versions-supported");
                reveal_strlit("operations-supported");
                reveal_strlit("multiple-document-jobs-supported");
                reveal_strlit("charset-configured");
                reveal_strlit("charset-supported");
                reveal_strlit("natural-language-configured");
                reveal_strlit("generated-natural-language-supported");
                reveal_strlit("document-format-default");
                reveal_strlit("document-format-supported");
                reveal_strlit("printer-is-accepting-jobs");
                reveal_strlit("queued-job-count");
                reveal_strlit("printer-message-from-operator");
                reveal_strlit("color-supported");
                reveal_strlit("reference-uri-schemes-supported");
                reveal_strlit("pdl-override-supported");
                reveal_strlit("printer-up-time");
                reveal_strlit("printer-current-time");
                reveal_strlit("multiple-operation-time-out");
                reveal_strlit("compression-supported");
                reveal_strlit("job-k-octets-supported");
                reveal_strlit("job-impressions-supported");
                reveal_strlit("job-media-sheets-supported");
                reveal_strlit("pages-per-minute");
                reveal_strlit("pages-per-minute-color");
                assert("date-time-at-completed"@[0] != "uri-security-supported"@[0]);
                assert("date-time-at-completed"@[0] != "printer-make-and-model"@[0]);
                assert("date-time-at-completed"@[0] != "ipp-versions-supported"@[0]);
                assert("date-time-at-completed"@[0] != "pdl-override-supported"@[0]);
                assert("date-time-at-completed"@[0] != "job-k-octets-supported"@[0]);
                assert("date-time-at-completed"@[0] != "pages-per-minute-color"@[0]);
            }
            assert(JobTemplateAttribute::spec_from_keyword("date-time-at-completed"@) is None) by {
                reveal_strlit("date-time-at-completed");
                reveal_strlit("job-priority");
                reveal_strlit("job-hold-until");
                reveal_strlit("job-sheets");
                reveal_strlit("multiple-document-handling");
                reveal_strlit("copies");
                reveal_strlit("finishings");
                reveal_strlit("page-ranges");
                reveal_strlit("sides");
                reveal_strlit("number-up");
                reveal_strlit("orientation-requested");
                reveal_strlit("media");
                reveal_strlit("printer-resolution");
                reveal_strlit("print-quality");
            }
            assert(JobAttribute::spec_from_keyword("date-time-at-completed"@) == Some(JobAttribute::DateTimeAtCompleted)) by {
                reveal_strlit("job-uri");
                reveal_strlit("job-id");
                reveal_strlit("job-printer-uri");
                reveal_strlit("job-more-info");
                reveal_strlit("job-name");
                reveal_strlit("job-originating-user-name");
                reveal_strlit("job-state");
                reveal_strlit("job-state-reasons");
                reveal_strlit("job-state-message");
                reveal_strlit("job-detailed-status-messages");
                reveal_strlit("job-document-access-errors");
                reveal_strlit("number-of-documents");
                reveal_strlit("output-device-assigned");
                reveal_strlit("time-at-creation");
                reveal_strlit("time-at-processing");
                reveal_strlit("time-at-completed");
                reveal_strlit("job-printer-up-time");
                reveal_strlit("date-time-at-creation");
                reveal_strlit("date-time-at-processing");
                reveal_strlit("date-time-at-completed");
                assert("date-time-at-completed"@[0] != "output-device-assigned"@[0]);
            }
            assert(canonical_name(NameView::Job(a)));
        },
        JobAttribute::NumberOfInterveningJobs => {
            assert(vstd::utf8::is_ascii_chars("number-of-intervening-jobs"@) && 0 < "number-of-intervening-jobs"@.len() <= 36) by {
                reveal_strlit("number-of-intervening-jobs");
            }
            vstd::utf8::is_ascii_chars_encode_utf8("number-of-intervening-jobs"@);
            assert(OperationAttribute::spec_from_keyword("number-of-intervening-jobs"@) is None) by {
                reveal_strlit("number-of-intervening-jobs");
                reveal_strlit("requested-attributes");
                reveal_strlit("printer-uri");
                reveal_strlit("attributes-charset");
                reveal_strlit("attributes-natural-language");
            }
            assert(PrinterAttribute::spec_from_keyword("number-of-intervening-jobs"@) is None) by {
                reveal_strlit("number-of-intervening-jobs");
                reveal_strlit("printer-uri-supported");
                reveal_strlit("uri-security-supported");
                reveal_strlit("uri-authentication-supported");
                reveal_strlit("printer-name");
                reveal_strlit("printer-location");
                reveal_strlit("printer-info");
                reveal_strlit("printer-more-info");
                reveal_strlit("printer-driver-installer");
                reveal_strlit("printer-make-and-model");
                reveal_strlit("printer-more-info-manufacturer");
                reveal_strlit("printer-state");
                reveal_strlit("printer-state-reasons");
                reveal_strlit("printer-state-message");
                reveal_strlit("ipp-versions-supported");
                reveal_strlit("operations-supported");
                reveal_strlit("multiple-document-jobs-supported");
                reveal_strlit("charset-configured");
                reveal_strlit("charset-supported");
                reveal_strlit("natural-language-configured");
                reveal_strlit("generated-natural-language-supported");
                reveal_strlit("document-format-default");
                reveal_strlit("document-format-supported");
                reveal_strlit("printer-is-accepting-jobs");
                reveal_strlit("queued-job-count");
                reveal_strlit("printer-message-from-operator");
                reveal_strlit("color-supported");
                reveal_strlit("reference-uri-schemes-supported");
                reveal_strlit("pdl-override-supported");
                reveal_strlit("printer-up-time");
                reveal_strlit("printer-current-time");
                reveal_strlit("multiple-operation-time-out");
                reveal_strlit("compression-supported");
                reveal_strlit("job-k-octets-supported");
                reveal_strlit("job-impressions-supported");
                reveal_strlit("job-media-sheets-supported");
                reveal_strlit("pages-per-minute");
                reveal_strlit("pages-per-minute-color");
                assert("number-of-intervening-jobs"@[0] != "job-media-sheets-supported"@[0]);
            }
            assert(JobTemplateAttribute::spec_from_keyword("number-of-intervening-jobs"@) is None) by {
                reveal_strlit("number-of-intervening-jobs");
                reveal_strlit("job-priority");
                reveal_strlit("job-hold-until");
                reveal_strlit("job-sheets");
                reveal_strlit("multiple-document-handling");
                reveal_strlit("copies");
                reveal_strlit("finishings");
                reveal_strlit("page-ranges");
                reveal_strlit("sides");
                reveal_strlit("number-up");
                reveal_strlit("orientation-requested");
                reveal_strlit("media");
                reveal_strlit("printer-resolution");
                reveal_strlit("print-quality");
                assert("number-of-intervening-jobs"@[0] != "multiple-document-handling"@[0]);
            }
            assert(JobAttribute::spec_from_keyword("number-of-intervening-jobs"@) == Some(JobAttribute::NumberOfInterveningJobs)) by {
                reveal_strlit("job-uri");
                reveal_strlit("job-id");
                reveal_strlit("job-printer-uri");
                reveal_strlit("job-more-info");
                reveal_strlit("job-name");
                reveal_strlit("job-originating-user-name");
                reveal_strlit("job-state");
                reveal_strlit("job-state-reasons");
                reveal_strlit("job-state-message");
                reveal_strlit("job-detailed-status-messages");
                reveal_strlit("job-document-access-errors");
                reveal_strlit("number-of-documents");
                reveal_strlit("output-device-assigned");
                reveal_strlit("time-at-creation");
                reveal_strlit("time-at-processing");
                reveal_strlit("time-at-completed");
                reveal_strlit("job-printer-up-time");
                reveal_strlit("date-time-at-creation");
                reveal_strlit("date-time-at-processing");
                reveal_strlit("date-time-at-completed");
                reveal_strlit("number-of-intervening-jobs");
                assert("number-of-intervening-jobs"@[0] != "job-document-access-errors"@[0]);
            }
            assert(canonical_name(NameView::Job(a)));
        },
        JobAttribute::JobMessageFromOperator => {
            assert(vstd::utf8::is_ascii_chars("job-message-from-operator"@) && 0 < "job-message-from-operator"@.len() <= 36) by {
                reveal_strlit("job-message-from-operator");
            }
            vstd::utf8::is_ascii_chars_encode_utf8("job-message-from-operator"@);
            assert(OperationAttribute::spec_from_keyword("job-message-from-operator"@) is None) by {
                reveal_strlit("job-message-from-operator");
                reveal_strlit("requested-attributes");
                reveal_strlit("printer-uri");
                reveal_strlit("attributes-charset");
                reveal_strlit("attributes-natural-language");
            }
            assert(PrinterAttribute::spec_from_keyword("job-message-from-operator"@) is None) by {
                reveal_strlit("job-message-from-operator");
                reveal_strlit("printer-uri-supported");
                reveal_strlit("uri-security-supported");
                reveal_strlit("uri-authentication-supported");
                reveal_strlit("printer-name");
                reveal_strlit("printer-location");
                reveal_strlit("printer-info");
                reveal_strlit("printer-more-info");
                reveal_strlit("printer-driver-installer");
                reveal_strlit("printer-make-and-model");
                reveal_strlit("printer-more-info-manufacturer");
                reveal_strlit("printer-state");
                reveal_strlit("printer-state-reasons");
                reveal_strlit("printer-state-message");
                reveal_strlit("ipp-versions-supported");
                reveal_strlit("operations-supported");
                reveal_strlit("multiple-document-jobs-supported");
                reveal_strlit("charset-configured");
                reveal_strlit("charset-supported");
                reveal_strlit("natural-language-configured");
                reveal_strlit("generated-natural-language-supported");
                reveal_strlit("document-format-default");
                reveal_strlit("document-format-supported");
                reveal_strlit("printer-is-accepting-jobs");
                reveal_strlit("queued-job-count");
                reveal_strlit("printer-message-from-operator");
                reveal_strlit("color-supported");
                reveal_strlit("reference-uri-schemes-supported");
                reveal_strlit("pdl-override-supported");
                reveal_strlit("printer-up-time");
                reveal_strlit("printer-current-time");
                reveal_strlit("multiple-operation-time-out");
                reveal_strlit("compression-supported");
                reveal_strlit("job-k-octets-supported");
                reveal_strlit("job-impressions-supported");
                reveal_strlit("job-media-sheets-supported");
                reveal_strlit("pages-per-minute");
                reveal_strlit("pages-per-minute-color");
                assert("job-message-from-operator"@[0] != "document-format-supported"@[0]);
                assert("job-message-from-operator"@[0] != "printer-is-accepting-jobs"@[0]);
                assert("job-message-from-operator"@[4] != "job-impressions-supported"@[4]);
            }
            assert(JobTemplateAttribute::spec_from_keyword("job-message-from-operator"@) is None) by {
                reveal_strlit("job-message-from-operator");
                reveal_strlit("job-priority");
                reveal_strlit("job-hold-until");
                reveal_strlit("job-sheets");
                reveal_strlit("multiple-document-handling");
                reveal_strlit("copies");
                reveal_strlit("finishings");
                reveal_strlit("page-ranges");
                reveal_strlit("sides");
                reveal_strlit("number-up");
                reveal_strlit("orientation-requested");
                reveal_strlit("media");
                reveal_strlit("printer-resolution");
                reveal_strlit("print-quality");
            }
            assert(JobAttribute::spec_from_keyword("job-message-from-operator"@) == Some(JobAttribute::JobMessageFromOperator)) by {
                reveal_strlit("job-uri");
                reveal_strlit("job-id");
                reveal_strlit("job-printer-uri");
                reveal_strlit("job-more-info");
                reveal_strlit("job-name");
                reveal_strlit("job-originating-user-name");
                reveal_strlit("job-state");
                reveal_strlit("job-state-reasons");
                reveal_strlit("job-state-message");
                reveal_strlit("job-detailed-status-messages");
                reveal_strlit("job-document-access-errors");
                reveal_strlit("number-of-documents");
                reveal_strlit("output-device-assigned");
                reveal_strlit("time-at-creation");
                reveal_strlit("time-at-processing");
                reveal_strlit("time-at-completed");
                reveal_strlit("job-printer-up-time");
                reveal_strlit("date-time-at-creation");
                reveal_strlit("date-time-at-processing");
                reveal_strlit("date-time-at-completed");
                reveal_strlit("number-of-intervening-jobs");
                reveal_strlit("job-message-from-operator");
                assert("job-message-from-operator"@[4] != "job-originating-user-name"@[4]);
            }
            assert(canonical_name(NameView::Job(a)));
        },
        JobAttribute::JobKOctets => {
            assert(vstd::utf8::is_ascii_chars("job-k-octets"@) && 0 < "job-k-octets"@.len() <= 36) by {
                reveal_strlit("job-k-octets");
            }
            vstd::utf8::is_ascii_chars_encode_utf8("job-k-octets"@);
            assert(OperationAttribute::spec_from_keyword("job-k-octets"@) is None) by {
                reveal_strlit("job-k-octets");
                reveal_strlit("requested-attributes");
                reveal_strlit("printer-uri");
                reveal_strlit("attributes-charset");
                reveal_strlit("attributes-natural-language");
            }
            assert(PrinterAttribute::spec_from_keyword("job-k-octets"@) is None) by {
                reveal_strlit("job-k-octets");
                reveal_strlit("printer-uri-supported");
                reveal_strlit("uri-security-supported");
                reveal_strlit("uri-authentication-supported");
                reveal_strlit("printer-name");
                reveal_strlit("printer-location");
                reveal_strlit("printer-info");
                reveal_strlit("printer-more-info");
                reveal_strlit("printer-driver-installer");
                reveal_strlit("printer-make-and-model");
                reveal_strlit("printer-more-info-manufacturer");
                reveal_strlit("printer-state");
                reveal_strlit("printer-state-reasons");
                reveal_strlit("printer-state-message");
                reveal_strlit("ipp-versions-supported");
                reveal_strlit("operations-supported");
                reveal_strlit("multiple-document-jobs-supported");
                reveal_strlit("charset-configured");
                reveal_strlit("charset-supported");
                reveal_strlit("natural-language-configured");
                reveal_strlit("generated-natural-language-supported");
                reveal_strlit("document-format-default");
                reveal_strlit("document-format-supported");
                reveal_strlit("printer-is-accepting-jobs");
                reveal_strlit("queued-job-count");
                reveal_strlit("printer-message-from-operator");
                reveal_strlit("color-supported");
                reveal_strlit("reference-uri-schemes-supported");
                reveal_strlit("pdl-override-supported");
                reveal_strlit("printer-up-time");
                reveal_strlit("printer-current-time");
                reveal_strlit("multiple-operation-time-out");
                reveal_strlit("compression-supported");
                reveal_strlit("job-k-octets-supported");
                reveal_strlit("job-impressions-supported");
                reveal_strlit("job-media-sheets-supported");
                reveal_strlit("pages-per-minute");
                reveal_strlit("pages-per-minute-color");
                assert("job-k-octets"@[0] != "printer-name"@[0]);
                assert("job-k-octets"@[0] != "printer-info"@[0]);
            }
            assert(JobTemplateAttribute::spec_from_keyword("job-k-octets"@) is None) by {
                reveal_strlit("job-k-octets");
                reveal_strlit("job-priority");
                reveal_strlit("job-hold-until");
                reveal_strlit("job-sheets");
                reveal_strlit("multiple-document-handling");
                reveal_strlit("copies");
                reveal_strlit("finishings");
                reveal_strlit("page-ranges");
                reveal_strlit("sides");
                reveal_strlit("number-up");
                reveal_strlit("orientation-requested");
                reveal_strlit("media");
                reveal_strlit("printer-resolution");
                reveal_strlit("print-quality");
                assert("job-k-octets"@[4] != "job-priority"@[4]);
            }
            assert(JobAttribute::spec_from_keyword("job-k-octets"@) == Some(JobAttribute::JobKOctets)) by {
                reveal_strlit("job-uri");
                reveal_strlit("job-id");
                reveal_strlit("job-printer-uri");
                reveal_strlit("job-more-info");
                reveal_strlit("job-name");
                reveal_strlit("job-originating-user-name");
                reveal_strlit("job-state");
                reveal_strlit("job-state-reasons");
                reveal_strlit("job-state-message");
                reveal_strlit("job-detailed-status-messages");
                reveal_strlit("job-document-access-errors");
                reveal_strlit("number-of-documents");
                reveal_strlit("output-device-assigned");
                reveal_strlit("time-at-creation");
                reveal_strlit("time-at-processing");
                reveal_strlit("time-at-completed");
                reveal_strlit("job-printer-up-time");
                reveal_strlit("date-time-at-creation");
                reveal_strlit("date-time-at-processing");
                reveal_strlit("date-time-at-completed");
                reveal_strlit("number-of-intervening-jobs");
                reveal_strlit("job-message-from-operator");
                reveal_strlit("job-k-octets");
            }
            assert(canonical_name(NameView::Job(a)));
        },
        JobAttribute::JobImpressions => {
            assert(vstd::utf8::is_ascii_chars("job-impressions"@) && 0 < "job-impressions"@.len() <= 36) by {
                reveal_strlit("job-impressions");
            }
            vstd::utf8::is_ascii_chars_encode_utf8("job-impressions"@);
            assert(OperationAttribute::spec_from_keyword("job-impressions"@) is None) by {
                reveal_strlit("job-impressions");
                reveal_strlit("requested-attributes");
                reveal_strlit("printer-uri");
                reveal_strlit("attributes-charset");
                reveal_strlit("attributes-natural-language");
            }
            assert(PrinterAttribute::spec_from_keyword("job-impressions"@) is None) by {
                reveal_strlit("job-impressions");
                reveal_strlit("printer-uri-supported");
                reveal_strlit("uri-security-supported");
                reveal_strlit("uri-authentication-supported");
                reveal_strlit("printer-name");
                reveal_strlit("printer-location");
                reveal_strlit("printer-info");
                reveal_strlit("printer-more-info");
                reveal_strlit("printer-driver-installer");
                reveal_strlit("printer-make-and-model");
                reveal_strlit("printer-more-info-manufacturer");
                reveal_strlit("printer-state");
                reveal_strlit("printer-state-reasons");
                reveal_strlit("printer-state-message");
                reveal_strlit("ipp-versions-supported");
                reveal_strlit("operations-supported");
                reveal_strlit("multiple-document-jobs-supported");
                reveal_strlit("charset-configured");
                reveal_strlit("charset-supported");
                reveal_strlit("natural-language-configured");
                reveal_strlit("generated-natural-language-supported");
                reveal_strlit("document-format-default");
                reveal_strlit("document-format-supported");
                reveal_strlit("printer-is-accepting-jobs");
                reveal_strlit("queued-job-count");
                reveal_strlit("printer-message-from-operator");
                reveal_strlit("color-supported");
                reveal_strlit("reference-uri-schemes-supported");
                reveal_strlit("pdl-override-supported");
                reveal_strlit("printer-up-time");
                reveal_strlit("printer-current-time");
                reveal_strlit("multiple-operation-time-out");
                reveal_strlit("compression-supported");
                reveal_strlit("job-k-octets-supported");
                reveal_strlit("job-impressions-supported");
                reveal_strlit("job-media-sheets-supported");
                reveal_strlit("pages-per-minute");
                reveal_strlit("pages-per-minute-color");
                assert("job-impressions"@[0] != "color-supported"@[0]);
                assert("job-impressions"@[0] != "printer-up-time"@[0]);
            }
            assert(JobTemplateAttribute::spec_from_keyword("job-impressions"@) is None) by {
                reveal_strlit("job-impressions");
                reveal_strlit("job-priority");
                reveal_strlit("job-hold-until");
                reveal_strlit("job-sheets");
                reveal_strlit("multiple-document-handling");
                reveal_strlit("copies");
                reveal_strlit("finishings");
                reveal_strlit("page-ranges");
                reveal_strlit("sides");
                reveal_strlit("number-up");
                reveal_strlit("orientation-requested");
                reveal_strlit("media");
                reveal_strlit("printer-resolution");
                reveal_strlit("print-quality");
            }
            assert(JobAttribute::spec_from_keyword("job-impressions"@) == Some(JobAttribute::JobImpressions)) by {
                reveal_strlit("job-uri");
                reveal_strlit("job-id");
                reveal_strlit("job-printer-uri");
                reveal_strlit("job-more-info");
                reveal_strlit("job-name");
                reveal_strlit("job-originating-user-name");
                reveal_strlit("job-state");
                reveal_strlit("job-state-reasons");
                reveal_strlit("job-state-message");
                reveal_strlit("job-detailed-status-messages");
                reveal_strlit("job-document-access-errors");
                reveal_strlit("number-of-documents");
                reveal_strlit("output-device-assigned");
                reveal_strlit("time-at-creation");
                reveal_strlit("time-at-processing");
                reveal_strlit("time-at-completed");
                reveal_strlit("job-printer-up-time");
                reveal_strlit("date-time-at-creation");
                reveal_strlit("date-time-at-processing");
                reveal_strlit("date-time-at-completed");
                reveal_strlit("number-of-intervening-jobs");
                reveal_strlit("job-message-from-operator");
                reveal_strlit("job-k-octets");
                reveal_strlit("job-impressions");
                assert("job-impressions"@[4] != "job-printer-uri"@[4]);
            }
            assert(canonical_name(NameView::Job(a)));
        },
        JobAttribute::JobMediaSheets => {
            assert(vstd::utf8::is_ascii_chars("job-media-sheets"@) && 0 < "job-media-sheets"@.len() <= 36) by {
                reveal_strlit("job-media-sheets");
            }
            vstd::utf8::is_ascii_chars_encode_utf8("job-media-sheets"@);
            assert(OperationAttribute::spec_from_keyword("job-media-sheets"@) is None) by {
                reveal_strlit("job-media-sheets");
                reveal_strlit("requested-attributes");
                reveal_strlit("printer-uri");
                reveal_strlit("attributes-charset");
                reveal_strlit("attributes-natural-language");
            }
            assert(PrinterAttribute::spec_from_keyword("job-media-sheets"@) is None) by {
                reveal_strlit("job-media-sheets");
                reveal_strlit("printer-uri-supported");
                reveal_strlit("uri-security-supported");
                reveal_strlit("uri-authentication-supported");
                reveal_strlit("printer-name");
                reveal_strlit("printer-location");
                reveal_strlit("printer-info");
                reveal_strlit("printer-more-info");
                reveal_strlit("printer-driver-installer");
                reveal_strlit("printer-make-and-model");
                reveal_strlit("printer-more-info-manufacturer");
                reveal_strlit("printer-state");
                reveal_strlit("printer-state-reasons");
                reveal_strlit("printer-state-message");
                reveal_strlit("ipp-versions-supported");
                reveal_strlit("operations-supported");
                reveal_strlit("multiple-document-jobs-supported");
                reveal_strlit("charset-configured");
                reveal_strlit("charset-supported");
                reveal_strlit("natural-language-configured");
                reveal_strlit("generated-natural-language-supported");
                reveal_strlit("document-format-default");
                reveal_strlit("document-format-supported");
                reveal_strlit("printer-is-accepting-jobs");
                reveal_strlit("queued-job-count");
                reveal_strlit("printer-message-from-operator");
                reveal_strlit("color-supported");
                reveal_strlit("reference-uri-schemes-supported");
                reveal_strlit("pdl-override-supported");
                reveal_strlit("printer-up-time");
                reveal_strlit("printer-current-time");
                reveal_strlit("multiple-operation-time-out");
                reveal_strlit("compression-supported");
                reveal_strlit("job-k-octets-supported");
                reveal_strlit("job-impressions-supported");
                reveal_strlit("job-media-sheets-supported");
                reveal_strlit("pages-per-minute");
                reveal_strlit("pages-per-minute-color");
                assert("job-media-sheets"@[0] != "printer-location"@[0]);
                assert("job-media-sheets"@[0] != "queued-job-count"@[0]);
                assert("job-media-sheets"@[0] != "pages-per-minute"@[0]);
            }
            assert(JobTemplateAttribute::spec_from_keyword("job-media-sheets"@) is None) by {
                reveal_strlit("job-media-sheets");
                reveal_strlit("job-priority");
                reveal_strlit("job-hold-until");
                reveal_strlit("job-sheets");
                reveal_strlit("multiple-document-handling");
                reveal_strlit("copies");
                reveal_strlit("finishings");
                reveal_strlit("page-ranges");
                reveal_strlit("sides");
                reveal_strlit("number-up");
                reveal_strlit("orientation-requested");
                reveal_strlit("media");
                reveal_strlit("printer-resolution");
                reveal_strlit("print-quality");
            }
            assert(JobAttribute::spec_from_keyword("job-media-sheets"@) == Some(JobAttribute::JobMediaSheets)) by {
                reveal_strlit("job-uri");
                reveal_strlit("job-id");
                reveal_strlit("job-printer-uri");
                reveal_strlit("job-more-info");
                reveal_strlit("job-name");
                reveal_strlit("job-originating-user-name");
                reveal_strlit("job-state");
                reveal_strlit("job-state-reasons");
                reveal_strlit("job-state-message");
                reveal_strlit("job-detailed-status-messages");
                reveal_strlit("job-document-access-errors");
                reveal_strlit("number-of-documents");
                reveal_strlit("output-device-assigned");
                reveal_strlit("time-at-creation");
                reveal_strlit("time-at-processing");
                reveal_strlit("time-at-completed");
                reveal_strlit("job-printer-up-time");
                reveal_strlit("date-time-at-creation");
                reveal_strlit("date-time-at-processing");
                reveal_strlit("date-time-at-completed");
                reveal_strlit("number-of-intervening-jobs");
                reveal_strlit("job-message-from-operator");
                reveal_strlit("job-k-octets");
                reveal_strlit("job-impressions");
                reveal_strlit("job-media-sheets");
                assert("job-media-sheets"@[0] != "time-at-creation"@[0]);
            }
            assert(canonical_name(NameView::Job(a)));
        },
        JobAttribute::JobKOctetsProcessed => {
            assert(vstd::utf8::is_ascii_chars("job-k-octets-processed"@) && 0 < "job-k-octets-processed"@.len() <= 36) by {
                reveal_strlit("job-k-octets-processed");
            }
            vstd::utf8::is_ascii_chars_encode_utf8("job-k-octets-processed"@);
            assert(OperationAttribute::spec_from_keyword("job-k-octets-processed"@) is None) by {
                reveal_strlit("job-k-octets-processed");
                reveal_strlit("requested-attributes");
                reveal_strlit("printer-uri");
                reveal_strlit("attributes-charset");
                reveal_strlit("attributes-natural-language");
            }
            assert(PrinterAttribute::spec_from_keyword("job-k-octets-processed"@) is None) by {
                reveal_strlit("job-k-octets-processed");
                reveal_strlit("printer-uri-supported");
                reveal_strlit("uri-security-supported");
                reveal_strlit("uri-authentication-supported");
                reveal_strlit("printer-name");
                reveal_strlit("printer-location");
                reveal_strlit("printer-info");
                reveal_strlit("printer-more-info");
                reveal_strlit("printer-driver-installer");
                reveal_strlit("printer-make-and-model");
                reveal_strlit("printer-more-info-manufacturer");
                reveal_strlit("printer-state");
                reveal_strlit("printer-state-reasons");
                reveal_strlit("printer-state-message");
                reveal_strlit("ipp-versions-supported");
                reveal_strlit("operations-supported");
                reveal_strlit("multiple-document-jobs-supported");
                reveal_strlit("charset-configured");
                reveal_strlit("charset-supported");
                reveal_strlit("natural-language-configured");
                reveal_strlit("generated-natural-language-supported");
                reveal_strlit("document-format-default");
                reveal_strlit("document-format-supported");
                reveal_strlit("printer-is-accepting-jobs");
                reveal_strlit("queued-job-count");
                reveal_strlit("printer-message-from-operator");
                reveal_strlit("color-supported");
                reveal_strlit("reference-uri-schemes-supported");
                reveal_strlit("pdl-override-supported");
                reveal_strlit("printer-up-time");
                reveal_strlit("printer-current-time");
                reveal_strlit("multiple-operation-time-out");
                reveal_strlit("compression-supported");
                reveal_strlit("job-k-octets-supported");
                reveal_strlit("job-impressions-supported");
                reveal_strlit("job-media-sheets-supported");
                reveal_strlit("pages-per-minute");
                reveal_strlit("pages-per-minute-color");
                assert("job-k-octets-processed"@[0] != "uri-security-supported"@[0]);
                assert("job-k-octets-processed"@[0] != "printer-make-and-model"@[0]);
                assert("job-k-octets-processed"@[0] != "ipp-versions-supported"@[0]);
                assert("job-k-octets-processed"@[0] != "pdl-override-supported"@[0]);
                assert("job-k-octets-processed"@[13] != "job-k-octets-supported"@[13]);
                assert("job-k-octets-processed"@[0] != "pages-per-minute-color"@[0]);
            }
            assert(JobTemplateAttribute::spec_from_keyword("job-k-octets-processed"@) is None) by {
                reveal_strlit("job-k-octets-processed");
                reveal_strlit("job-priority");
                reveal_strlit("job-hold-until");
                reveal_strlit("job-sheets");
                reveal_strlit("multiple-document-handling");
                reveal_strlit("copies");
                reveal_strlit("finishings");
                reveal_strlit("page-ranges");
                reveal_strlit("sides");
                reveal_strlit("number-up");
                reveal_strlit("orientation-requested");
                reveal_strlit("media");
                reveal_strlit("printer-resolution");
                reveal_strlit("print-quality");
            }
            assert(JobAttribute::spec_from_keyword("job-k-octets-processed"@) == Some(JobAttribute::JobKOctetsProcessed)) by {
                reveal_strlit("job-uri");
                reveal_strlit("job-id");
                reveal_strlit("job-printer-uri");
                reveal_strlit("job-more-info");
                reveal_strlit("job-name");
                reveal_strlit("job-originating-user-name");
                reveal_strlit("job-state");
                reveal_strlit("job-state-reasons");
                reveal_strlit("job-state-message");
                reveal_strlit("job-detailed-status-messages");
                reveal_strlit("job-document-access-errors");
                reveal_strlit("number-of-documents");
                reveal_strlit("output-device-assigned");
                reveal_strlit("time-at-creation");
                reveal_strlit("time-at-processing");
                reveal_strlit("time-at-completed");
                reveal_strlit("job-printer-up-time");
                reveal_strlit("date-time-at-creation");
                reveal_strlit("date-time-at-processing");
                reveal_strlit("date-time-at-completed");
                reveal_strlit("number-of-intervening-jobs");
                reveal_strlit("job-message-from-operator");
                reveal_strlit("job-k-octets");
                reveal_strlit("job-impressions");
                reveal_strlit("job-media-sheets");
                reveal_strlit("job-k-octets-processed");
                assert("job-k-octets-processed"@[0] != "output-device-assigned"@[0]);
                assert("job-k-octets-processed"@[0] != "date-time-at-completed"@[0]);
            }
            assert(canonical_name(NameView::Job(a)));
        },
        JobAttribute::JobImpressionsCompleted => {
            assert(vstd::utf8::is_ascii_chars("job-impressions-completed"@) && 0 < "job-impressions-completed"@.len() <= 36) by {
                reveal_strlit("job-impressions-completed");
            }
            vstd::utf8::is_ascii_chars_encode_utf8("job-impressions-completed"@);
            assert(OperationAttribute::spec_from_keyword("job-impressions-completed"@) is None) by {
                reveal_strlit("job-impressions-completed");
                reveal_strlit("requested-attributes");
                reveal_strlit("printer-uri");
                reveal_strlit("attributes-charset");
                reveal_strlit("attributes-natural-language");
            }
            assert(PrinterAttribute::spec_from_keyword("job-impressions-completed"@) is None) by {
                reveal_strlit("job-impressions-completed");
                reveal_strlit("printer-uri-supported");
                reveal_strlit("uri-security-supported");
                reveal_strlit("uri-authentication-supported");
                reveal_strlit("printer-name");
                reveal_strlit("printer-location");
                reveal_strlit("printer-info");
                reveal_strlit("printer-more-info");
                reveal_strlit("printer-driver-installer");
                reveal_strlit("printer-make-and-model");
                reveal_strlit("printer-more-info-manufacturer");
                reveal_strlit("printer-state");
                reveal_strlit("printer-state-reasons");
                reveal_strlit("printer-state-message");
                reveal_strlit("ipp-versions-supported");
                reveal_strlit("operations-supported");
                reveal_strlit("multiple-document-jobs-supported");
                reveal_strlit("charset-configured");
                reveal_strlit("charset-supported");
                reveal_strlit("natural-language-configured");
                reveal_strlit("generated-natural-language-supported");
                reveal_strlit("document-format-default");
                reveal_strlit("document-format-supported");
                reveal_strlit("printer-is-accepting-jobs");
                reveal_strlit("queued-job-count");
                reveal_strlit("printer-message-from-operator");
                reveal_strlit("color-supported");
                reveal_strlit("reference-uri-schemes-supported");
                reveal_strlit("pdl-override-supported");
                reveal_strlit("printer-up-time");
                reveal_strlit("printer-current-time");
                reveal_strlit("multiple-operation-time-out");
                reveal_strlit("compression-supported");
                reveal_strlit("job-k-octets-supported");
                reveal_strlit("job-impressions-supported");
                reveal_strlit("job-media-sheets-supported");
                reveal_strlit("pages-per-minute");
                reveal_strlit("pages-per-minute-color");
                assert("job-impressions-completed"@[0] != "document-format-supported"@[0]);
                assert("job-impressions-completed"@[0] != "printer-is-accepting-jobs"@[0]);
                assert("job-impressions-completed"@[16] != "job-impressions-supported"@[16]);
            }
            assert(JobTemplateAttribute::spec_from_keyword("job-impressions-completed"@) is None) by {
                reveal_strlit("job-impressions-completed");
                reveal_strlit("job-priority");
                reveal_strlit("job-hold-until");
                reveal_strlit("job-sheets");
                reveal_strlit("multiple-document-handling");
                reveal_strlit("copies");
                reveal_strlit("finishings");
                reveal_strlit("page-ranges");
                reveal_strlit("sides");
                reveal_strlit("number-up");
                reveal_strlit("orientation-requested");
                reveal_strlit("media");
                reveal_strlit("printer-resolution");
                reveal_strlit("print-quality");
            }
            assert(JobAttribute::spec_from_keyword("job-impressions-completed"@) == Some(JobAttribute::JobImpressionsCompleted)) by {
                reveal_strlit("job-uri");
                reveal_strlit("job-id");
                reveal_strlit("job-printer-uri");
                reveal_strlit("job-more-info");
                reveal_strlit("job-name");
                reveal_strlit("job-originating-user-name");
                reveal_strlit("job-state");
                reveal_strlit("job-state-reasons");
                reveal_strlit("job-state-message");
                reveal_strlit("job-detailed-status-messages");
                reveal_strlit("job-document-access-errors");
                reveal_strlit("number-of-documents");
                reveal_strlit("output-device-assigned");
                reveal_strlit("time-at-creation");
                reveal_strlit("time-at-processing");
                reveal_strlit("time-at-completed");
                reveal_strlit("job-printer-up-time");
                reveal_strlit("date-time-at-creation");
                reveal_strlit("date-time-at-processing");
                reveal_strlit("date-time-at-completed");
                reveal_strlit("number-of-intervening-jobs");
                reveal_strlit("job-message-from-operator");
                reveal_strlit("job-k-octets");
                reveal_strlit("job-impressions");
                reveal_strlit("job-media-sheets");
                reveal_strlit("job-k-octets-processed");
                reveal_strlit("job-impressions-completed");
                assert("job-impressions-completed"@[4] != "job-originating-user-name"@[4]);
                assert("job-impressions-completed"@[4] != "job-message-from-operator"@[4]);
            }
            assert(canonical_name(NameView::Job(a)));
        },
        JobAttribute::JobMediaSheetsCompleted => {
            assert(vstd::utf8::is_ascii_chars("job-media-sheets-completed"@) && 0 < "job-media-sheets-completed"@.len() <= 36) by {
                reveal_strlit("job-media-sheets-completed");
            }
            vstd::utf8::is_ascii_chars_encode_utf8("job-media-sheets-completed"@);
            assert(OperationAttribute::spec_from_keyword("job-media-sheets-completed"@) is None) by {
                reveal_strlit("job-media-sheets-completed");
                reveal_strlit("requested-attributes");
                reveal_strlit("printer-uri");
                reveal_strlit("attributes-charset");
                reveal_strlit("attributes-natural-language");
            }
            assert(PrinterAttribute::spec_from_keyword("job-media-sheets-completed"@) is None) by {
                reveal_strlit("job-media-sheets-completed");
                reveal_strlit("printer-uri-supported");
                reveal_strlit("uri-security-supported");
                reveal_strlit("uri-authentication-supported");
                reveal_strlit("printer-name");
                reveal_strlit("printer-location");
                reveal_strlit("printer-info");
                reveal_strlit("printer-more-info");
                reveal_strlit("printer-driver-installer");
                reveal_strlit("printer-make-and-model");
                reveal_strlit("printer-more-info-manufacturer");
                reveal_strlit("printer-state");
                reveal_strlit("printer-state-reasons");
                reveal_strlit("printer-state-message");
                reveal_strlit("ipp-versions-supported");
                reveal_strlit("operations-supported");
                reveal_strlit("multiple-document-jobs-supported");
                reveal_strlit("charset-configured");
                reveal_strlit("charset-supported");
                reveal_strlit("natural-language-configured");
                reveal_strlit("generated-natural-language-supported");
                reveal_strlit("document-format-default");
                reveal_strlit("document-format-supported");
                reveal_strlit("printer-is-accepting-jobs");
                reveal_strlit("queued-job-count");
                reveal_strlit("printer-message-from-operator");
                reveal_strlit("color-supported");
                reveal_strlit("reference-uri-schemes-supported");
                reveal_strlit("pdl-override-supported");
                reveal_strlit("printer-up-time");
                reveal_strlit("printer-current-time");
                reveal_strlit("multiple-operation-time-out");
                reveal_strlit("compression-supported");
                reveal_strlit("job-k-octets-supported");
                reveal_strlit("job-impressions-supported");
                reveal_strlit("job-media-sheets-supported");
                reveal_strlit("pages-per-minute");
                reveal_strlit("pages-per-minute-color");
                assert("job-media-sheets-completed"@[17] != "job-media-sheets-supported"@[17]);
            }
            assert(JobTemplateAttribute::spec_from_keyword("job-media-sheets-completed"@) is None) by {
                reveal_strlit("job-media-sheets-completed");
                reveal_strlit("job-priority");
                reveal_strlit("job-hold-until");
                reveal_strlit("job-sheets");
                reveal_strlit("multiple-document-handling");
                reveal_strlit("copies");
                reveal_strlit("finishings");
                reveal_strlit("page-ranges");
                reveal_strlit("sides");
                reveal_strlit("number-up");
                reveal_strlit("orientation-requested");
                reveal_strlit("media");
                reveal_strlit("printer-resolution");
                reveal_strlit("print-quality");
                assert("job-media-sheets-completed"@[0] != "multiple-document-handling"@[0]);
            }
            assert(JobAttribute::spec_from_keyword("job-media-sheets-completed"@) == Some(JobAttribute::JobMediaSheetsCompleted)) by {
                reveal_strlit("job-uri");
                reveal_strlit("job-id");
                reveal_strlit("job-printer-uri");
                reveal_strlit("job-more-info");
                reveal_strlit("job-name");
                reveal_strlit("job-originating-user-name");
                reveal_strlit("job-state");
                reveal_strlit("job-state-reasons");
                reveal_strlit("job-state-message");
                reveal_strlit("job-detailed-status-messages");
                reveal_strlit("job-document-access-errors");
                reveal_strlit("number-of-documents");
                reveal_strlit("output-device-assigned");
                reveal_strlit("time-at-creation");
                reveal_strlit("time-at-processing");
                reveal_strlit("time-at-completed");
                reveal_strlit("job-printer-up-time");
                reveal_strlit("date-time-at-creation");
                reveal_strlit("date-time-at-processing");
                reveal_strlit("date-time-at-completed");
                reveal_strlit("number-of-intervening-jobs");
                reveal_strlit("job-message-from-operator");
                reveal_strlit("job-k-octets");
                reveal_strlit("job-impressions");
                reveal_strlit("job-media-sheets");
                reveal_strlit("job-k-octets-processed");
                reveal_strlit("job-impressions-completed");
                reveal_strlit("job-media-sheets-completed");
                assert("job-media-sheets-completed"@[4] != "job-document-access-errors"@[4]);
                assert("job-media-sheets-completed"@[0] != "number-of-intervening-jobs"@[0]);
            }
            assert(canonical_name(NameView::Job(a)));
        },
    }
}


impl AttributeName {
    /// The model of this name.
    pub open spec fn model(&self) -> NameView {
        match self {
            AttributeName::Operation(a) => NameView::Operation(*a),
            AttributeName::Printer(a) => NameView::Printer(*a),
            AttributeName::JobTemplate(a) => NameView::JobTemplate(*a),
            AttributeName::Job(a) => NameView::Job(*a),
            AttributeName::Unsupported(s) => NameView::Unsupported(s@),
        }
    }

    /// Resolves a wire text to a name; names outside the vocabularies fall
    /// back to `Unsupported`, so resolution always succeeds.
    pub fn from_str(s: &str) -> (r: Result<AttributeName, AttributeNameParseError>)
        ensures
            r matches Ok(n) && n.model() == name_of(s@),
    {
        if let Some(a) = OperationAttribute::from_keyword(s) {
            Ok(AttributeName::Operation(a))
        } else if let Some(a) = PrinterAttribute::from_keyword(s) {
            Ok(AttributeName::Printer(a))
        } else if let Some(a) = JobTemplateAttribute::from_keyword(s) {
            Ok(AttributeName::JobTemplate(a))
        } else if let Some(a) = JobAttribute::from_keyword(s) {
            Ok(AttributeName::Job(a))
        } else {
            Ok(AttributeName::Unsupported(s.to_owned()))
        }
    }

    /// The wire text of this name as an owned string.
    pub fn text(&self) -> (r: String)
        ensures
            r@ == name_text(self.model()),
    {
        match self {
            AttributeName::Operation(a) => a.keyword().to_owned(),
            AttributeName::Printer(a) => a.keyword().to_owned(),
            AttributeName::JobTemplate(a) => a.keyword().to_owned(),
            AttributeName::Job(a) => a.keyword().to_owned(),
            AttributeName::Unsupported(s) => s.clone(),
        }
    }

    /// Whether this is the empty unsupported name, the sentinel that marks
    /// an additional-value record on the wire.
    pub fn is_empty(&self) -> (r: bool)
        ensures
            r == (self.model() matches NameView::Unsupported(t) && t.len() == 0),
    {
        if let AttributeName::Unsupported(s) = self {
            s.as_str().is_empty()
        } else {
            false
        }
    }
}

impl PartialEq for AttributeName {
    /// Names are equal when their models are: same vocabulary entry, or
    /// unsupported names with the same characters.
    fn eq(&self, other: &AttributeName) -> (r: bool) {
        match (self, other) {
            (AttributeName::Operation(a), AttributeName::Operation(b)) => a == b,
            (AttributeName::Printer(a), AttributeName::Printer(b)) => a == b,
            (AttributeName::JobTemplate(a), AttributeName::JobTemplate(b)) => a == b,
            (AttributeName::Job(a), AttributeName::Job(b)) => a == b,
            (AttributeName::Unsupported(a), AttributeName::Unsupported(b)) => str_eq(
                a.as_str(),
                b.as_str(),
            ),
            _ => false,
        }
    }
}

impl vstd::std_specs::cmp::PartialEqSpecImpl for AttributeName {
    open spec fn obeys_eq_spec() -> bool {
        true
    }

    open spec fn eq_spec(&self, other: &AttributeName) -> bool {
        self.model() == other.model()
    }
}

/// The wire form of a name is the wire form of its text string.
pub open spec fn enc_name(n: NameView) -> Seq<u8> {
    enc_string(name_text(n))
}

/// Decoding a name: a string is read and resolved; the vocabulary fallback
/// means resolution itself never fails.
pub open spec fn dec_name(b: Seq<u8>, off: int) -> Result<(int, NameView), IppError> {
    match dec_string(b, off) {
        Ok((n, s)) => Ok((n, name_of(s))),
        Err(e) => Err(e),
    }
}

impl IppEncode for AttributeName {
    type Model = NameView;

    open spec fn model(&self) -> NameView {
        AttributeName::model(self)
    }

    open spec fn wf(&self) -> bool {
        wf_name(AttributeName::model(self))
    }

    open spec fn wire(&self) -> Seq<u8> {
        enc_name(AttributeName::model(self))
    }

    open spec fn dec(b: Seq<u8>, off: int) -> Result<(int, NameView), IppError> {
        dec_name(b, off)
    }

    fn from_ipp(bytes: &[u8], offset: usize) -> (r: Result<(usize, AttributeName), IppError>) {
        let (n, raw) = match String::from_ipp(bytes, offset) {
            Ok(p) => p,
            Err(e) => {
                return Err(e);
            },
        };
        match AttributeName::from_str(raw.as_str()) {
            Ok(name) => Ok((n, name)),
            Err(_) => Err(IppError::InvalidEncoding),
        }
    }

    fn to_ipp(&self) -> (r: Vec<u8>) {
        self.text().to_ipp()
    }

    fn ipp_len(&self) -> (r: usize) {
        self.text().ipp_len()
    }
}

/// Decoding the encoding of a canonical name recovers it.
pub proof fn lemma_name_round_trip(n: NameView, b: Seq<u8>, off: int)
    requires
        wf_name(n),
        canonical_name(n),
        0 <= off,
        off + enc_name(n).len() <= b.len(),
        b.subrange(off, off + enc_name(n).len()) == enc_name(n),
    ensures
        dec_name(b, off) == Ok::<(int, NameView), IppError>((enc_name(n).len() as int, n)),
{
    crate::primitives::lemma_string_round_trip(name_text(n), b, off);
}


} // verus!

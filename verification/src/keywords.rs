//! Keyword vocabularies for a handful of printer description attributes:
//! the values those attributes carry on the wire as keyword strings.

use vstd::prelude::*;

verus! {

/// Keywords of uri-security-supported, RFC 8011 section 5.4.3.
#[derive(Debug, Clone, Copy, PartialEq, Eq, Structural, Hash)]
pub enum UriSecuritySupportedKeyword {
    NoSecurity,
    TLS,
}

impl UriSecuritySupportedKeyword {
    /// The wire keyword of this value.
    pub open spec fn spec_keyword(self) -> Seq<char> {
        match self {
            UriSecuritySupportedKeyword::NoSecurity => "none"@,
            UriSecuritySupportedKeyword::TLS => "tls"@,
        }
    }

    pub fn keyword(self) -> (r: &'static str)
        ensures
            r@ == self.spec_keyword(),
    {
        match self {
            UriSecuritySupportedKeyword::NoSecurity => "none",
            UriSecuritySupportedKeyword::TLS => "tls",
        }
    }
}

/// Keywords of uri-authentication-supported, RFC 8011 section 5.4.2.
#[derive(Debug, Clone, Copy, PartialEq, Eq, Structural, Hash)]
pub enum UriAuthenticationSupportedKeyword {
    NoAuthentication,
    RequestingUserName,
    Basic,
    Digest,
    Certificate,
}

impl UriAuthenticationSupportedKeyword {
    /// The wire keyword of this value.
    pub open spec fn spec_keyword(self) -> Seq<char> {
        match self {
            UriAuthenticationSupportedKeyword::NoAuthentication => "none"@,
            UriAuthenticationSupportedKeyword::RequestingUserName => "requesting-user-name"@,
            UriAuthenticationSupportedKeyword::Basic => "basic"@,
            UriAuthenticationSupportedKeyword::Digest => "digest"@,
            UriAuthenticationSupportedKeyword::Certificate => "certificate"@,
        }
    }

    pub fn keyword(self) -> (r: &'static str)
        ensures
            r@ == self.spec_keyword(),
    {
        match self {
            UriAuthenticationSupportedKeyword::NoAuthentication => "none",
            UriAuthenticationSupportedKeyword::RequestingUserName => "requesting-user-name",
            UriAuthenticationSupportedKeyword::Basic => "basic",
            UriAuthenticationSupportedKeyword::Digest => "digest",
            UriAuthenticationSupportedKeyword::Certificate => "certificate",
        }
    }
}

/// Keywords of printer-state-reasons, RFC 8011 section 5.4.12.
#[derive(Debug, Clone, Copy, PartialEq, Eq, Structural, Hash)]
pub enum PrinterStateReasonKeyword {
    NoReasons,
}

impl PrinterStateReasonKeyword {
    /// The wire keyword of this value.
    pub open spec fn spec_keyword(self) -> Seq<char> {
        match self {
            PrinterStateReasonKeyword::NoReasons => "none"@,
        }
    }

    pub fn keyword(self) -> (r: &'static str)
        ensures
            r@ == self.spec_keyword(),
    {
        match self {
            PrinterStateReasonKeyword::NoReasons => "none",
        }
    }
}

/// Keywords of pdl-override-supported, RFC 8011 section 5.4.32.
#[derive(Debug, Clone, Copy, PartialEq, Eq, Structural, Hash)]
pub enum PdlOverrideSupportedKeyword {
    Attempted,
    NotAttempted,
}

impl PdlOverrideSupportedKeyword {
    /// The wire keyword of this value.
    pub open spec fn spec_keyword(self) -> Seq<char> {
        match self {
            PdlOverrideSupportedKeyword::Attempted => "attempted"@,
            PdlOverrideSupportedKeyword::NotAttempted => "not-attempted"@,
        }
    }

    pub fn keyword(self) -> (r: &'static str)
        ensures
            r@ == self.spec_keyword(),
    {
        match self {
            PdlOverrideSupportedKeyword::Attempted => "attempted",
            PdlOverrideSupportedKeyword::NotAttempted => "not-attempted",
        }
    }
}

/// Keywords of compression-supported, RFC 8011 section 5.4.32.
#[derive(Debug, Clone, Copy, PartialEq, Eq, Structural, Hash)]
pub enum CompressionSupportedKeyword {
    NoCompression,
    Deflate,
    Gzip,
    Compress,
}

impl CompressionSupportedKeyword {
    /// The wire keyword of this value.
    pub open spec fn spec_keyword(self) -> Seq<char> {
        match self {
            CompressionSupportedKeyword::NoCompression => "none"@,
            CompressionSupportedKeyword::Deflate => "deflate"@,
            CompressionSupportedKeyword::Gzip => "gzip"@,
            CompressionSupportedKeyword::Compress => "compress"@,
        }
    }

    pub fn keyword(self) -> (r: &'static str)
        ensures
            r@ == self.spec_keyword(),
    {
        match self {
            CompressionSupportedKeyword::NoCompression => "none",
            CompressionSupportedKeyword::Deflate => "deflate",
            CompressionSupportedKeyword::Gzip => "gzip",
            CompressionSupportedKeyword::Compress => "compress",
        }
    }
}

} // verus!

//! TLS strategy for the SMTP connection: derived from an explicit,
//! case-insensitive mode string, or inferred from the port number.

use crate::strutil::ci_eq;
use vstd::prelude::*;

verus! {

/// TLS mode for the SMTP connection.
#[derive(Debug, Clone, Copy, PartialEq, Eq, Structural)]
pub enum TlsMode {
    /// Opportunistic upgrade after connecting; typically port 587.
    StartTls,
    /// TLS from the first byte; typically port 465.
    ImplicitTls,
    /// Unencrypted; typically port 25, development only.
    NoTls,
}

/// The mode inferred from a port number. Unknown ports get implicit TLS,
/// the safe default.
pub open spec fn spec_from_port(port: u16) -> TlsMode {
    if port == 587 {
        TlsMode::StartTls
    } else if port == 465 {
        TlsMode::ImplicitTls
    } else if port == 25 {
        TlsMode::NoTls
    } else {
        TlsMode::ImplicitTls
    }
}

/// The mode named by a string, matched ASCII-case-insensitively over the
/// accepted alias sets; `None` for any other string.
pub open spec fn spec_from_str(s: Seq<char>) -> Option<TlsMode> {
    if ci_eq(s, "starttls"@) || ci_eq(s, "start_tls"@) {
        Some(TlsMode::StartTls)
    } else if ci_eq(s, "implicit"@) || ci_eq(s, "tls"@) || ci_eq(s, "ssl"@) {
        Some(TlsMode::ImplicitTls)
    } else if ci_eq(s, "none"@) || ci_eq(s, "plain"@) {
        Some(TlsMode::NoTls)
    } else {
        Option::None
    }
}

/// The lowercase label of a mode, as used in configuration warnings.
pub open spec fn spec_label(m: TlsMode) -> Seq<char> {
    match m {
        TlsMode::StartTls => "starttls"@,
        TlsMode::ImplicitTls => "implicit"@,
        TlsMode::NoTls => "none"@,
    }
}

impl TlsMode {
    /// Auto-detect the TLS mode from the port: 587 is STARTTLS, 465 is
    /// implicit TLS, 25 is unencrypted, and every other port defaults to
    /// implicit TLS.
    pub fn from_port(port: u16) -> (r: TlsMode)
        ensures
            r == spec_from_port(port),
            port != 587 && port != 465 && port != 25 ==> r == TlsMode::ImplicitTls,
    {
        if port == 587 {
            TlsMode::StartTls
        } else if port == 465 {
            TlsMode::ImplicitTls
        } else if port == 25 {
            TlsMode::NoTls
        } else {
            TlsMode::ImplicitTls
        }
    }

    /// Parse a TLS mode string, case-insensitively: "starttls"/"start_tls",
    /// "implicit"/"tls"/"ssl", "none"/"plain". Any other string gives no
    /// match.
    pub fn from_str(s: &str) -> (r: Option<TlsMode>)
        ensures
            r == spec_from_str(s@),
    {
        if crate::strutil::str_ci_eq(s, "starttls") || crate::strutil::str_ci_eq(s, "start_tls") {
            Some(TlsMode::StartTls)
        } else if crate::strutil::str_ci_eq(s, "implicit") || crate::strutil::str_ci_eq(s, "tls")
            || crate::strutil::str_ci_eq(s, "ssl") {
            Some(TlsMode::ImplicitTls)
        } else if crate::strutil::str_ci_eq(s, "none") || crate::strutil::str_ci_eq(s, "plain") {
            Some(TlsMode::NoTls)
        } else {
            Option::None
        }
    }

    /// The lowercase label of this mode.
    pub fn label(&self) -> (r: &'static str)
        ensures
            r@ == spec_label(*self),
    {
        match self {
            TlsMode::StartTls => "starttls",
            TlsMode::ImplicitTls => "implicit",
            TlsMode::NoTls => "none",
        }
    }
}

} // verus!

//! Configuration resolution: turn a snapshot of the environment variables
//! into a validated SMTP configuration, or a disabled state, together with
//! the operator warnings the resolution produced.
//!
//! Required variables that are missing (or an unparseable port) are
//! aggregated into one error; warnings never abort and are only reported
//! when resolution succeeds.

use crate::mailbox::is_mailbox;
use crate::strutil::{dec_str, parse_u16_spec};
use crate::tls::{spec_from_port, spec_from_str, spec_label, TlsMode};
use vstd::prelude::*;

verus! {

/// A snapshot of the environment variables that drive email configuration.
/// A field is `None` where the variable is unset.
#[derive(Debug, Clone)]
pub struct EnvSource {
    /// MAILER_TYPE: must equal "smtp" to enable email.
    pub mailer_type: Option<String>,
    /// SMTP_ADDRESS: required when email is enabled.
    pub address: Option<String>,
    /// SMTP_USERNAME: required when email is enabled.
    pub username: Option<String>,
    /// SMTP_PASSWORD: required when email is enabled.
    pub password: Option<String>,
    /// SMTP_PORT: optional, defaults to 465.
    pub port: Option<String>,
    /// SMTP_TLS_MODE: optional, inferred from the port when absent.
    pub tls_mode: Option<String>,
    /// SMTP_DEFAULT_FROM_EMAIL: preferred from-address field.
    pub from_email: Option<String>,
    /// SMTP_DEFAULT_FROM_NAME: preferred display-name field.
    pub from_name: Option<String>,
    /// SMTP_DEFAULT_FROM: deprecated combined from-address field.
    pub legacy_from: Option<String>,
}

/// The aggregated configuration error: the names of every required
/// variable that was missing or invalid.
#[derive(Debug, Clone)]
pub struct ConfigError {
    pub missing: Vec<String>,
}

/// Validated SMTP credentials, immutable once resolved.
#[derive(Debug, Clone)]
pub struct SmtpCredentials {
    pub address: String,
    pub username: String,
    pub password: String,
    pub port: u16,
    pub default_from: String,
    pub tls_mode: TlsMode,
}

/// Email configuration: SMTP credentials, or email disabled.
#[derive(Debug, Clone)]
pub enum EmailConfig {
    Smtp(SmtpCredentials),
    Disabled,
}

/// Is email enabled: MAILER_TYPE set and equal to the literal "smtp"?
pub open spec fn spec_smtp_enabled(env: EnvSource) -> bool {
    env.mailer_type is Some && env.mailer_type->0@ == "smtp"@
}

/// Does the port variable hold a usable value: absent, or a decimal
/// 16-bit number?
pub open spec fn spec_port_ok(env: EnvSource) -> bool {
    env.port is None || parse_u16_spec(env.port->0@) is Some
}

/// The resolved port: the parsed value, or 465 when the variable is
/// absent. Unused when the port is invalid, which aborts resolution.
pub open spec fn spec_port(env: EnvSource) -> u16 {
    if env.port is Some && parse_u16_spec(env.port->0@) is Some {
        parse_u16_spec(env.port->0@)->0
    } else {
        465
    }
}

/// The names of the required variables that are missing, plus SMTP_PORT
/// when it is set but unparseable, in the order they are read.
pub open spec fn spec_missing(env: EnvSource) -> Seq<Seq<char>> {
    (if env.address is None {
        seq!["SMTP_ADDRESS"@]
    } else {
        Seq::empty()
    }) + (if env.username is None {
        seq!["SMTP_USERNAME"@]
    } else {
        Seq::empty()
    }) + (if env.password is None {
        seq!["SMTP_PASSWORD"@]
    } else {
        Seq::empty()
    }) + (if !spec_port_ok(env) {
        seq!["SMTP_PORT"@]
    } else {
        Seq::empty()
    })
}

/// Was a TLS mode string given (set and non-empty)?
pub open spec fn spec_tls_explicit(env: EnvSource) -> bool {
    env.tls_mode is Some && env.tls_mode->0@.len() > 0
}

/// Is the given TLS mode string invalid, so that the mode falls back to
/// port inference with a warning?
pub open spec fn spec_tls_warned(env: EnvSource) -> bool {
    spec_tls_explicit(env) && spec_from_str(env.tls_mode->0@) is None
}

/// The resolved TLS mode: the parsed mode string when it is given and
/// valid, otherwise the mode inferred from the resolved port.
pub open spec fn spec_tls_mode(env: EnvSource) -> TlsMode {
    if spec_tls_explicit(env) && spec_from_str(env.tls_mode->0@) is Some {
        spec_from_str(env.tls_mode->0@)->0
    } else {
        spec_from_port(spec_port(env))
    }
}

/// The warning recorded for an invalid TLS mode string: it cites the
/// invalid value, the valid options, and the inferred fallback.
pub open spec fn spec_tls_warning(value: Seq<char>, fallback: TlsMode, port: u16) -> Seq<char> {
    "Invalid SMTP_TLS_MODE '"@ + value
        + "'. Valid values are: starttls, implicit, none. Auto-detected '"@ + spec_label(fallback)
        + "' from port "@ + dec_str(port as int)
}

/// The warning recorded when the deprecated SMTP_DEFAULT_FROM supplies the
/// from-address.
pub open spec fn spec_legacy_warning() -> Seq<char> {
    "SMTP_DEFAULT_FROM is deprecated and will be removed in a future version. Please use SMTP_DEFAULT_FROM_EMAIL and SMTP_DEFAULT_FROM_NAME instead."@
}

/// Does the deprecated combined field supply the from-address: the
/// preferred email field is absent or empty, and the deprecated field is
/// set and non-empty?
pub open spec fn spec_uses_legacy(env: EnvSource) -> bool {
    !(env.from_email is Some && env.from_email->0@.len() > 0) && env.legacy_from is Some
        && env.legacy_from->0@.len() > 0
}

/// The resolved default from-mailbox, by strict precedence: name and email
/// give `Name <email>`; email alone gets the fixed application label;
/// otherwise the deprecated field is used verbatim; otherwise empty, which
/// defers the failure to sender construction.
pub open spec fn spec_default_from(env: EnvSource) -> Seq<char> {
    if env.from_email is Some && env.from_email->0@.len() > 0 {
        if env.from_name is Some && env.from_name->0@.len() > 0 {
            env.from_name->0@ + " <"@ + env.from_email->0@ + ">"@
        } else {
            "Hoodik <"@ + env.from_email->0@ + ">"@
        }
    } else if env.legacy_from is Some && env.legacy_from->0@.len() > 0 {
        env.legacy_from->0@
    } else {
        Seq::empty()
    }
}

/// The warnings reported by a successful resolution, in order: the invalid
/// TLS mode warning, then the deprecated from-address warning.
pub open spec fn spec_warnings(env: EnvSource) -> Seq<Seq<char>> {
    (if spec_tls_warned(env) {
        seq![
            spec_tls_warning(
                env.tls_mode->0@,
                spec_from_port(spec_port(env)),
                spec_port(env),
            ),
        ]
    } else {
        Seq::empty()
    }) + (if spec_uses_legacy(env) {
        seq![spec_legacy_warning()]
    } else {
        Seq::empty()
    })
}

/// Do resolved credentials agree with the environment snapshot?
pub open spec fn spec_credentials_match(c: SmtpCredentials, env: EnvSource) -> bool {
    &&& c.address@ == env.address->0@
    &&& c.username@ == env.username->0@
    &&& c.password@ == env.password->0@
    &&& c.port == spec_port(env)
    &&& c.tls_mode == spec_tls_mode(env)
    &&& c.default_from@ == spec_default_from(env)
}

impl SmtpCredentials {
    /// Resolve the SMTP variables of `env` into credentials, or the
    /// aggregated error naming every missing or invalid required variable.
    /// Warnings are reported only when resolution succeeds.
    pub fn new(env: &EnvSource) -> (r: (Result<SmtpCredentials, ConfigError>, Vec<String>))
        ensures
            r.0 is Err <==> spec_missing(*env).len() != 0,
            r.0 matches Err(e) ==> e.missing.deep_view() == spec_missing(*env) && r.1@.len() == 0,
            r.0 matches Ok(c) ==> spec_credentials_match(c, *env) && r.1.deep_view()
                == spec_warnings(*env),
    {
        let mut missing: Vec<String> = Vec::new();
        if env.address.is_none() {
            missing.push(String::from_str("SMTP_ADDRESS"));
        }
        if env.username.is_none() {
            missing.push(String::from_str("SMTP_USERNAME"));
        }
        if env.password.is_none() {
            missing.push(String::from_str("SMTP_PASSWORD"));
        }
        let port: u16 = match &env.port {
            Option::None => 465,
            Option::Some(p) => {
                match crate::strutil::parse_u16(p.as_str()) {
                    Option::Some(v) => v,
                    Option::None => {
                        missing.push(String::from_str("SMTP_PORT"));
                        465
                    },
                }
            },
        };
        proof {
            assert(missing.deep_view() =~= spec_missing(*env));
        }
        if missing.len() > 0 {
            return (Err(ConfigError { missing }), Vec::new());
        }

        let mut warnings: Vec<String> = Vec::new();
        let tls_mode: TlsMode = match &env.tls_mode {
            Option::Some(t) => {
                if t.as_str().is_empty() {
                    TlsMode::from_port(port)
                } else {
                    match TlsMode::from_str(t.as_str()) {
                        Option::Some(m) => m,
                        Option::None => {
                            let fallback = TlsMode::from_port(port);
                            let mut w = String::from_str("Invalid SMTP_TLS_MODE '");
                            w.append(t.as_str());
                            w.append(
                                "'. Valid values are: starttls, implicit, none. Auto-detected '",
                            );
                            w.append(fallback.label());
                            w.append("' from port ");
                            crate::strutil::append_u16(&mut w, port);
                            proof {
                                assert(w@ =~= spec_tls_warning(env.tls_mode->0@, fallback, port));
                            }
                            warnings.push(w);
                            fallback
                        },
                    }
                }
            },
            Option::None => TlsMode::from_port(port),
        };

        let default_from: String = {
            let email_set = match &env.from_email {
                Option::Some(e) => !e.as_str().is_empty(),
                Option::None => false,
            };
            if email_set {
                let email: &String = match &env.from_email {
                    Option::Some(e) => e,
                    Option::None => unreached(),
                };
                let name_set = match &env.from_name {
                    Option::Some(n) => !n.as_str().is_empty(),
                    Option::None => false,
                };
                if name_set {
                    let name: &String = match &env.from_name {
                        Option::Some(n) => n,
                        Option::None => unreached(),
                    };
                    let d = String::from_str(name.as_str()).concat(" <").concat(
                        email.as_str(),
                    ).concat(">");
                    proof {
                        assert(d@ =~= spec_default_from(*env));
                    }
                    d
                } else {
                    let d = String::from_str("Hoodik <").concat(email.as_str()).concat(">");
                    proof {
                        assert(d@ =~= spec_default_from(*env));
                    }
                    d
                }
            } else {
                let legacy_set = match &env.legacy_from {
                    Option::Some(l) => !l.as_str().is_empty(),
                    Option::None => false,
                };
                if legacy_set {
                    let legacy: &String = match &env.legacy_from {
                        Option::Some(l) => l,
                        Option::None => unreached(),
                    };
                    let w = String::from_str(
                        "SMTP_DEFAULT_FROM is deprecated and will be removed in a future version. Please use SMTP_DEFAULT_FROM_EMAIL and SMTP_DEFAULT_FROM_NAME instead.",
                    );
                    warnings.push(w);
                    legacy.clone()
                } else {
                    String::new()
                }
            }
        };
        proof {
            assert(warnings.deep_view() =~= spec_warnings(*env));
        }

        let address: String = match &env.address {
            Option::Some(a) => a.clone(),
            Option::None => unreached(),
        };
        let username: String = match &env.username {
            Option::Some(u) => u.clone(),
            Option::None => unreached(),
        };
        let password: String = match &env.password {
            Option::Some(p) => p.clone(),
            Option::None => unreached(),
        };
        (
            Ok(
                SmtpCredentials {
                    address,
                    username,
                    password,
                    port,
                    default_from,
                    tls_mode,
                },
            ),
            warnings,
        )
    }

    /// Does the resolved default from-address parse as a mailbox? Sender
    /// construction must fail when it does not.
    pub fn default_from_parses(&self) -> (b: bool)
        ensures
            b == is_mailbox(self.default_from@),
    {
        crate::mailbox::mailbox_is_valid(self.default_from.as_str())
    }
}

impl EmailConfig {
    /// Resolve the environment snapshot into an email configuration.
    /// Unless MAILER_TYPE equals "smtp", email is disabled and no other
    /// variable is read or validated.
    pub fn new(env: &EnvSource) -> (r: (Result<EmailConfig, ConfigError>, Vec<String>))
        ensures
            !spec_smtp_enabled(*env) ==> (r.0 matches Ok(c) && c is Disabled && r.1@.len() == 0),
            spec_smtp_enabled(*env) ==> {
                &&& (r.0 is Err <==> spec_missing(*env).len() != 0)
                &&& (r.0 matches Err(e) ==> e.missing.deep_view() == spec_missing(*env)
                    && r.1@.len() == 0)
                &&& (r.0 matches Ok(c) ==> c matches EmailConfig::Smtp(creds)
                    && spec_credentials_match(creds, *env) && r.1.deep_view()
                    == spec_warnings(*env))
            },
    {
        let enabled = match &env.mailer_type {
            Option::Some(m) => crate::strutil::str_eq(m.as_str(), "smtp"),
            Option::None => false,
        };
        if !enabled {
            return (Ok(EmailConfig::Disabled), Vec::new());
        }
        let (res, warnings) = SmtpCredentials::new(env);
        match res {
            Ok(creds) => (Ok(EmailConfig::Smtp(creds)), warnings),
            Err(e) => (Err(e), warnings),
        }
    }
}

} // verus!

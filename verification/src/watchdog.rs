//! The composition root: configuration validation and the cancellation
//! channel the loops and the external trigger share.
//!
//! Validation happens before anything is spawned: an endpoint that is no
//! URL, has no host to probe, or carries a scheme other than http or
//! https fails construction, and no loop ever starts.

use vstd::prelude::*;

use std::sync::mpsc::Receiver;
use std::sync::mpsc::SyncSender;

use crate::args::Args;
use crate::endpoint::parse_url_parts;
use crate::endpoint::scheme_allowed;
use crate::endpoint::url_parts_of;
use crate::reporter::GRACE_MS;
use crate::shutdown::create_shutdown_chanel;

verus! {

/// Why a configuration was rejected.
#[derive(Debug)]
pub enum ConfigError {
    /// The endpoint text is not a URL.
    InvalidUrl,
    /// The endpoint has no host to probe.
    MissingHost,
    /// The endpoint's scheme is neither http nor https.
    SchemeNotAllowed(String),
}

/// The diagnostic text of a rejection.
pub open spec fn config_error_text(e: &ConfigError) -> Seq<char> {
    match *e {
        ConfigError::InvalidUrl => "parse url"@,
        ConfigError::MissingHost => "no host in url"@,
        ConfigError::SchemeNotAllowed(s) => "URL scheme is not allowed: "@ + s@,
    }
}

impl ConfigError {
    /// The diagnostic shown to the operator when startup is aborted.
    pub fn message(&self) -> (r: String)
        ensures
            r@ == config_error_text(self),
    {
        match self {
            ConfigError::InvalidUrl => String::from_str("parse url"),
            ConfigError::MissingHost => String::from_str("no host in url"),
            ConfigError::SchemeNotAllowed(s) => String::from_str(
                "URL scheme is not allowed: ",
            ).concat(s.as_str()),
        }
    }
}

/// Spec-level image of a validated configuration.
pub struct WatchdogModel {
    pub url_text: Seq<char>,
    pub scheme: Seq<char>,
    pub host: Seq<char>,
    pub method: Seq<char>,
    pub interval_ms: int,
    pub ignore_cert_errors: bool,
    pub local_address: Option<Seq<char>>,
}

/// The composition root: a validated configuration plus the cancellation
/// channel it lends to the loops and to the external trigger.
pub struct Watchdog {
    url_text: String,
    scheme: String,
    host: String,
    method: String,
    interval_ms: u64,
    ignore_cert_errors: bool,
    local_address: Option<String>,
    shutdown_tx: Option<SyncSender<()>>,
    shutdown_rx: Receiver<()>,
}

impl View for Watchdog {
    type V = WatchdogModel;

    closed spec fn view(&self) -> WatchdogModel {
        WatchdogModel {
            url_text: self.url_text@,
            scheme: self.scheme@,
            host: self.host@,
            method: self.method@,
            interval_ms: self.interval_ms as int,
            ignore_cert_errors: self.ignore_cert_errors,
            local_address: self.local_address.deep_view(),
        }
    }
}

impl Watchdog {
    /// A validated watchdog: its scheme passed validation and its interval
    /// fits both loops' wait arithmetic.
    pub open spec fn wf(&self) -> bool {
        &&& scheme_allowed(self@.scheme)
        &&& 1 <= self@.interval_ms
        &&& self@.interval_ms + GRACE_MS <= u64::MAX
    }

    /// The cancellation trigger, as long as nobody has taken it.
    pub closed spec fn spec_shutdown_tx(&self) -> Option<SyncSender<()>> {
        self.shutdown_tx
    }

    /// Validates a configuration and builds the watchdog. It fails fast,
    /// with nothing spawned, when the endpoint is no URL, has no host, or
    /// has a scheme other than http or https.
    pub fn try_new(args: Args) -> (r: Result<Watchdog, ConfigError>)
        requires
            1 <= args.interval_ms,
            args.interval_ms + GRACE_MS <= u64::MAX,
        ensures
            match r {
                Ok(w) => {
                    &&& w.wf()
                    &&& url_parts_of(args.url@) matches Some(p)
                    &&& w@.url_text == p.0
                    &&& w@.scheme == p.1
                    &&& p.2 matches Some(h) && w@.host == h
                    &&& w@.method == args.method@
                    &&& w@.interval_ms == args.interval_ms as int
                    &&& w@.ignore_cert_errors == args.insecure
                    &&& w@.local_address == args.local_address.deep_view()
                    &&& w.spec_shutdown_tx() is Some
                },
                Err(ConfigError::InvalidUrl) => url_parts_of(args.url@) is None,
                Err(ConfigError::MissingHost) => url_parts_of(args.url@) matches Some(p)
                    && p.2 is None,
                Err(ConfigError::SchemeNotAllowed(sc)) => url_parts_of(args.url@) matches Some(p)
                    && p.2 is Some && !scheme_allowed(p.1) && sc@ == p.1,
            },
    {
        let parts = parse_url_parts(args.url.as_str());
        match parts {
            None => Err(ConfigError::InvalidUrl),
            Some((text, scheme, host_opt)) => match host_opt {
                None => Err(ConfigError::MissingHost),
                Some(host) => {
                    let allowed = scheme == String::from_str("http") || scheme
                        == String::from_str("https");
                    if !allowed {
                        Err(ConfigError::SchemeNotAllowed(scheme))
                    } else {
                        let (tx, rx) = create_shutdown_chanel();
                        Ok(
                            Watchdog {
                                url_text: text,
                                scheme,
                                host,
                                method: args.method,
                                interval_ms: args.interval_ms,
                                ignore_cert_errors: args.insecure,
                                local_address: args.local_address,
                                shutdown_tx: Some(tx),
                                shutdown_rx: rx,
                            },
                        )
                    }
                },
            },
        }
    }

    /// The host the prober measures.
    pub fn host(&self) -> (r: &String)
        ensures
            r@ == self@.host,
    {
        &self.host
    }

    /// The endpoint's normalized text.
    pub fn url_text(&self) -> (r: &String)
        ensures
            r@ == self@.url_text,
    {
        &self.url_text
    }

    /// The endpoint's scheme.
    pub fn scheme(&self) -> (r: &String)
        ensures
            r@ == self@.scheme,
    {
        &self.scheme
    }

    /// The report's HTTP method.
    pub fn method(&self) -> (r: &String)
        ensures
            r@ == self@.method,
    {
        &self.method
    }

    /// The heartbeat interval, in milliseconds.
    pub fn interval_ms(&self) -> (r: u64)
        ensures
            r == self@.interval_ms,
    {
        self.interval_ms
    }

    /// Whether certificate errors are ignored when reporting.
    pub fn ignore_cert_errors(&self) -> (r: bool)
        ensures
            r == self@.ignore_cert_errors,
    {
        self.ignore_cert_errors
    }

    /// The optional local address reports are sent from.
    pub fn local_address(&self) -> (r: &Option<String>)
        ensures
            r.deep_view() == self@.local_address,
    {
        &self.local_address
    }

    /// Hands out the cancellation trigger: the first caller gets it, later
    /// calls get nothing.
    pub fn take_shutdown_tx(&mut self) -> (r: Option<SyncSender<()>>)
        ensures
            r == old(self).spec_shutdown_tx(),
            final(self).spec_shutdown_tx() is None,
            final(self)@ == old(self)@,
    {
        self.shutdown_tx.take()
    }

    /// Surrenders the cancellation receiver to the loop that waits on it.
    pub fn into_shutdown_rx(self) -> Receiver<()> {
        self.shutdown_rx
    }
}

} // verus!

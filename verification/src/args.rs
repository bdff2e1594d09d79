//! The watchdog's configuration and its rendering back into command-line
//! form, used when the process re-registers itself as a background
//! service.

use vstd::prelude::*;

use crate::logger::log_config_text;
use crate::logger::LogConfig;
use crate::probe::human_duration_of;
use crate::text::lower;
use crate::text::to_ascii_lower;

verus! {

/// A service lifecycle command.
#[derive(Clone, Copy, Debug, PartialEq, Eq, Structural)]
pub enum ServiceCommand {
    /// Register the program with the service manager.
    Install,
    /// Remove the registration.
    Uninstall,
    /// Ask the service manager to start the service.
    Start,
    /// Ask the service manager to stop the service.
    Stop,
    /// Run as the service entry point, invoked by the service manager.
    Run,
}

/// A service command text that names no command.
#[derive(Clone, Copy, Debug, PartialEq, Eq, Structural)]
pub struct UnknownServiceCommand;

/// The command a text names, regardless of ASCII case; None when it names
/// none.
pub open spec fn service_command_of(s: Seq<char>) -> Option<ServiceCommand> {
    let low = lower(s);
    if low == "install"@ {
        Some(ServiceCommand::Install)
    } else if low == "uninstall"@ {
        Some(ServiceCommand::Uninstall)
    } else if low == "start"@ {
        Some(ServiceCommand::Start)
    } else if low == "stop"@ {
        Some(ServiceCommand::Stop)
    } else if low == "run"@ {
        Some(ServiceCommand::Run)
    } else {
        None
    }
}

/// The canonical text of a command.
pub open spec fn service_command_text(c: ServiceCommand) -> Seq<char> {
    match c {
        ServiceCommand::Install => "install"@,
        ServiceCommand::Uninstall => "uninstall"@,
        ServiceCommand::Start => "start"@,
        ServiceCommand::Stop => "stop"@,
        ServiceCommand::Run => "run"@,
    }
}

impl ServiceCommand {
    /// Parses a command name without regard to ASCII case.
    pub fn from_str(s: &str) -> (r: Result<ServiceCommand, UnknownServiceCommand>)
        ensures
            match r {
                Ok(c) => service_command_of(s@) == Some(c),
                Err(_) => service_command_of(s@) is None,
            },
    {
        let low = to_ascii_lower(s);
        if low == String::from_str("install") {
            Ok(ServiceCommand::Install)
        } else if low == String::from_str("uninstall") {
            Ok(ServiceCommand::Uninstall)
        } else if low == String::from_str("start") {
            Ok(ServiceCommand::Start)
        } else if low == String::from_str("stop") {
            Ok(ServiceCommand::Stop)
        } else if low == String::from_str("run") {
            Ok(ServiceCommand::Run)
        } else {
            Err(UnknownServiceCommand)
        }
    }

    /// The canonical text of the command.
    pub fn as_text(&self) -> (r: String)
        ensures
            r@ == service_command_text(*self),
    {
        match self {
            ServiceCommand::Install => String::from_str("install"),
            ServiceCommand::Uninstall => String::from_str("uninstall"),
            ServiceCommand::Start => String::from_str("start"),
            ServiceCommand::Stop => String::from_str("stop"),
            ServiceCommand::Run => String::from_str("run"),
        }
    }
}

/// The default heartbeat interval, in milliseconds, left out when the
/// configuration is rendered back to command-line form.
pub const DEFAULT_INTERVAL_MS: u64 = 60000;

/// The watchdog's configuration, as plain values.
pub struct Args {
    /// The report endpoint.
    pub url: String,
    /// The HTTP method of the report.
    pub method: String,
    /// The heartbeat interval, in milliseconds.
    pub interval_ms: u64,
    /// Whether to ignore certificate errors.
    pub insecure: bool,
    /// An optional local address to send from.
    pub local_address: Option<String>,
    /// Whether to duplicate verbose messages to the console.
    pub verbose: bool,
    /// An optional log destination.
    pub log: Option<LogConfig>,
    /// An optional service lifecycle command.
    pub service: Option<ServiceCommand>,
}

/// The command line equivalent to a configuration: every flag whose value
/// differs from its default, in a fixed order.
pub open spec fn rendered_args(a: &Args) -> Seq<Seq<char>> {
    seq!["--url"@, a.url@] + (if a.method@ != "GET"@ {
        seq!["--method"@, a.method@]
    } else {
        Seq::empty()
    }) + (if a.interval_ms != DEFAULT_INTERVAL_MS {
        seq![
            "--interval"@,
            human_duration_of(
                (a.interval_ms / 1000) as u64,
                ((a.interval_ms % 1000) * 1000000) as u32,
            ),
        ]
    } else {
        Seq::empty()
    }) + (if a.insecure {
        seq!["--insecure"@]
    } else {
        Seq::empty()
    }) + (match a.local_address {
        Some(addr) => seq!["--from"@, addr@],
        None => Seq::empty(),
    }) + (if a.verbose {
        seq!["--verbose"@]
    } else {
        Seq::empty()
    }) + (match a.log {
        Some(cfg) => seq!["--log"@, log_config_text(&cfg)],
        None => Seq::empty(),
    }) + (match a.service {
        Some(c) => seq!["--service"@, service_command_text(c)],
        None => Seq::empty(),
    })
}

impl Args {
    /// Renders the configuration back into command-line arguments,
    /// omitting every flag still at its default.
    #[verifier::rlimit(50)]
    pub fn render(&self) -> (r: Vec<String>)
        ensures
            r.deep_view() == rendered_args(self),
    {
        let mut result: Vec<String> = Vec::new();
        result.push(String::from_str("--url"));
        result.push(self.url.clone());
        if !(self.method == String::from_str("GET")) {
            result.push(String::from_str("--method"));
            result.push(self.method.clone());
        }
        if self.interval_ms != DEFAULT_INTERVAL_MS {
            let secs = self.interval_ms / 1000;
            let sub_ms = self.interval_ms % 1000;
            let nanos = (sub_ms * 1000000) as u32;
            result.push(String::from_str("--interval"));
            result.push(crate::probe::format_duration_text(secs, nanos));
        }
        if self.insecure {
            result.push(String::from_str("--insecure"));
        }
        match &self.local_address {
            Some(addr) => {
                result.push(String::from_str("--from"));
                result.push(addr.clone());
            },
            None => {},
        }
        if self.verbose {
            result.push(String::from_str("--verbose"));
        }
        match &self.log {
            Some(cfg) => {
                result.push(String::from_str("--log"));
                result.push(cfg.as_text());
            },
            None => {},
        }
        match &self.service {
            Some(c) => {
                result.push(String::from_str("--service"));
                result.push(c.as_text());
            },
            None => {},
        }
        proof {
            assert(result.deep_view() =~~= rendered_args(self));
        }
        result
    }
}

} // verus!

//! The command line: its subcommands, how a size argument is read, and what
//! each subcommand asks of the daemon.
use vstd::prelude::*;
use crate::ipc::{parse_size_value, size_value_spec, Command, Response};
use crate::text::{lowercase, lowercase_spec, parse_u32, parse_u32_spec, str_eq};

verus! {

/// The parsed command line.
#[derive(Debug)]
pub struct Cli {
    pub command: Commands,
}

/// The subcommands.
#[derive(Debug)]
pub enum Commands {
    /// Start the daemon and show the camera overlay.
    Start { device: Option<String>, size: String, foreground: bool },
    /// Stop the daemon.
    Stop,
    /// Toggle camera overlay visibility.
    Toggle,
    /// Print the daemon's status as JSON.
    Status,
    /// Set the size of the camera overlay.
    Size { value: String },
    /// List the webcams as JSON.
    Devices,
    /// Open the webcam selection dialog.
    Select,
    /// Install to ~/.local (binary, icon, desktop entry).
    Install,
}

/// The side length that a `--size` argument names, given its lowercase form:
/// `small` is 128, `medium` 200 and `large` 300 pixels; anything else must be
/// a pixel count as written.
pub open spec fn size_px_spec(lowered: Seq<char>, s: Seq<char>) -> Option<u32> {
    if lowered == "small"@ {
        Some(128)
    } else if lowered == "medium"@ {
        Some(200)
    } else if lowered == "large"@ {
        Some(300)
    } else {
        parse_u32_spec(s)
    }
}

/// The message for a `--size` argument that names no size.
pub open spec fn invalid_size_message(s: Seq<char>) -> Seq<char> {
    "Invalid size '"@ + s + "': use small/medium/large or a pixel count"@
}

/// The message for a `size` argument that names no size.
pub open spec fn invalid_size_value_message(s: Seq<char>) -> Seq<char> {
    "invalid size '"@ + s + "': use small/medium/large or pixels"@
}

/// The message when `start` finds a daemon running.
pub open spec fn already_running_message() -> Seq<char> {
    "daemon is already running"@
}

/// The request that a subcommand sends to the running daemon, or the error
/// that stops it before; `None` for the subcommands that do not talk to it.
pub open spec fn request_spec(cmd: Commands) -> Option<Result<Command, Seq<char>>> {
    match cmd {
        Commands::Stop => Some(Ok(Command::Stop)),
        Commands::Toggle => Some(Ok(Command::Toggle)),
        Commands::Status => Some(Ok(Command::Status)),
        Commands::Select => Some(Ok(Command::Select)),
        Commands::Size { value } => match size_value_spec(lowercase_spec(value@), value@) {
            Some(v) => Some(Ok(Command::Size(v))),
            None => Some(Err(invalid_size_value_message(value@))),
        },
        _ => None,
    }
}

fn concat3(a: &str, b: &str, c: &str) -> (r: String)
    ensures
        r@ == a@ + b@ + c@,
{
    let mut r = String::from_str(a);
    r.append(b);
    r.append(c);
    r
}

impl Commands {
    /// The side length that `s` names, where `lowered` is `s` in lowercase.
    pub fn size_from_lowered(lowered: &str, s: &str) -> (r: Result<u32, String>)
        ensures
            match r {
                Ok(px) => size_px_spec(lowered@, s@) == Some(px),
                Err(m) => size_px_spec(lowered@, s@) is None && m@ == invalid_size_message(s@),
            },
    {
        if str_eq(lowered, "small") {
            Ok(128)
        } else if str_eq(lowered, "medium") {
            Ok(200)
        } else if str_eq(lowered, "large") {
            Ok(300)
        } else {
            match parse_u32(s) {
                Some(px) => Ok(px),
                None => Err(
                    concat3("Invalid size '", s, "': use small/medium/large or a pixel count"),
                ),
            }
        }
    }

    /// Parse a size string into pixels: `small`, `medium` and `large` in any
    /// case, or a pixel count.
    pub fn parse_size(s: &str) -> (r: Result<u32, String>)
        ensures
            match r {
                Ok(px) => size_px_spec(lowercase_spec(s@), s@) == Some(px),
                Err(m) => size_px_spec(lowercase_spec(s@), s@) is None && m@
                    == invalid_size_message(s@),
            },
    {
        let lowered = lowercase(s);
        Self::size_from_lowered(lowered.as_str(), s)
    }

    /// The request this subcommand sends to the daemon (`stop`, `toggle`,
    /// `status`, `size`, `select`), or the error that stops it first;
    /// `None` for `start`, `devices` and `install`.
    pub fn request(&self) -> (r: Option<Result<Command, String>>)
        ensures
            match (r, request_spec(*self)) {
                (None, None) => true,
                (Some(Ok(c)), Some(Ok(d))) => c == d,
                (Some(Err(e)), Some(Err(m))) => e@ == m,
                _ => false,
            },
    {
        match self {
            Commands::Stop => Some(Ok(Command::Stop)),
            Commands::Toggle => Some(Ok(Command::Toggle)),
            Commands::Status => Some(Ok(Command::Status)),
            Commands::Select => Some(Ok(Command::Select)),
            Commands::Size { value } => match parse_size_value(value.as_str()) {
                Some(v) => Some(Ok(Command::Size(v))),
                None => Some(
                    Err(
                        concat3(
                            "invalid size '",
                            value.as_str(),
                            "': use small/medium/large or pixels",
                        ),
                    ),
                ),
            },
            Commands::Start { .. } => None,
            Commands::Devices => None,
            Commands::Install => None,
        }
    }
}

/// The overlay size that `start` begins with: refused while a daemon runs,
/// otherwise the side length that `size` names.
pub fn start_size(already_running: bool, size: &str) -> (r: Result<u32, String>)
    ensures
        already_running ==> (r matches Err(m) && m@ == already_running_message()),
        !already_running ==> match r {
            Ok(px) => size_px_spec(lowercase_spec(size@), size@) == Some(px),
            Err(m) => size_px_spec(lowercase_spec(size@), size@) is None && m@
                == invalid_size_message(size@),
        },
{
    if already_running {
        Err(String::from_str("daemon is already running"))
    } else {
        Commands::parse_size(size)
    }
}

/// How a request that expects no data ended: the daemon's answer (or the
/// failure to get one) as `Ok` or the message to report.
pub fn reply_outcome<D>(reply: &Result<Response<D>, String>) -> (r: Result<(), String>)
    ensures
        match reply {
            Ok(Response::Done) => r is Ok,
            Ok(Response::OkData(_)) => r is Ok,
            Ok(Response::Error(e)) => r matches Err(m) && m@ == "daemon error: "@ + e@,
            Err(e) => r matches Err(m) && m@ == e@,
        },
{
    match reply {
        Ok(Response::Done) => Ok(()),
        Ok(Response::OkData(_)) => Ok(()),
        Ok(Response::Error(e)) => {
            let mut m = String::from_str("daemon error: ");
            m.append(e.as_str());
            Err(m)
        },
        Err(e) => Err(e.clone()),
    }
}

} // verus!

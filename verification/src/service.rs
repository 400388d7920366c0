//! How the services are reached, and how their log lines read.

use vstd::prelude::*;
use crate::number::{decimal, decimal_text};
use crate::text::{lowered, same_lowered, strip_prefix, unprefixed, unprefixed_rejoins};

verus! {

/// How many log lines wait at most to be written.
pub const LOG_CHANNEL_CAPACITY: usize = 1000;

/// How grave a log line is.
#[derive(Clone, Copy, Debug, PartialEq, Eq, Structural)]
pub enum LogLevel {
    Error,
    Warn,
    Info,
    Debug,
    Trace,
}

/// Whether certificates are acquired by ACME: they are unless the setting, in whatever case,
/// says something else than "true".
pub fn acme_enabled(setting: Option<String>) -> (r: bool)
    ensures
        r == match setting {
            Some(text) => text@.map_values(|c: char| lowered(c)) == "true"@,
            None => true,
        },
{
    match setting {
        Some(text) => same_lowered(text.as_str(), "true"),
        None => true,
    }
}

/// The address to listen on: all interfaces, at the port that is set or the default one.
pub fn listen_address(port: Option<String>, default_port: &str) -> (r: String)
    ensures
        r@ == "0.0.0.0:"@ + match port {
            Some(port) => port@,
            None => default_port@,
        },
{
    let mut address: String = "0.0.0.0:".to_owned();
    match port {
        Some(port) => {
            address.append(port.as_str());
        },
        None => {
            address.append(default_port);
        },
    }
    address
}

/// The contact address as ACME wants it.
pub fn contact_address(email: &str) -> (r: String)
    ensures
        r@ == "mailto:"@ + email@,
{
    let mut address: String = "mailto:".to_owned();
    address.append(email);
    address
}

/// The names on a certificate that the service signs itself.
pub fn certificate_names(domain: String) -> (r: Vec<String>)
    ensures
        r@.len() == 3,
        r@[0] == domain,
        r@[1]@ == "localhost"@,
        r@[2]@ == "127.0.0.1"@,
{
    let mut names: Vec<String> = Vec::new();
    names.push(domain);
    names.push("localhost".to_owned());
    names.push("127.0.0.1".to_owned());
    names
}

/// Whether a log line of that level is written.
pub fn log_enabled(level: LogLevel) -> (r: bool)
    ensures
        r == (level == LogLevel::Error || level == LogLevel::Warn || level == LogLevel::Info),
{
    match level {
        LogLevel::Error => true,
        LogLevel::Warn => true,
        LogLevel::Info => true,
        LogLevel::Debug => false,
        LogLevel::Trace => false,
    }
}

/// The file that a log line names: without the source directory of its target, if it stands
/// there.
pub open spec fn named_file(file: Option<Seq<char>>, target: Seq<char>) -> Seq<char> {
    match file {
        Some(path) => match unprefixed(path, target + "/src/"@) {
            Some(name) => name,
            None => path,
        },
        None => "Unknown"@,
    }
}

/// The line that a log line names.
pub open spec fn named_line(line: Option<u32>) -> Seq<char> {
    match line {
        Some(number) => decimal(number as nat),
        None => "Unknown"@,
    }
}

/// The place that a log line names: its file and line.
pub fn log_locator(file: Option<&str>, line: Option<u32>, target: &str) -> (r: String)
    ensures
        r@ == "("@ + named_file(
            match file {
                Some(path) => Some(path@),
                None => None,
            },
            target@,
        ) + " : "@ + named_line(line) + ")"@,
{
    let mut source: String = target.to_owned();
    source.append("/src/");
    let mut locator: String = "(".to_owned();
    match file {
        Some(path) => match strip_prefix(path, source.as_str()) {
            Some(name) => {
                locator.append(name);
            },
            None => {
                locator.append(path);
            },
        },
        None => {
            locator.append("Unknown");
        },
    }
    locator.append(" : ");
    match line {
        Some(number) => {
            locator.append(decimal_text(number as u64).as_str());
        },
        None => {
            locator.append("Unknown");
        },
    }
    locator.append(")");
    locator
}

/// A log line: the time, the level, the target, the place and the message.
pub fn log_entry(time: &str, level: &str, target: &str, locator: &str, message: &str) -> (r: String)
    ensures
        r@ == "["@ + time@ + "] "@ + level@ + " "@ + target@ + " "@ + locator@ + " - "@ + message@
            + "\n"@,
{
    let mut entry: String = "[".to_owned();
    entry.append(time);
    entry.append("] ");
    entry.append(level);
    entry.append(" ");
    entry.append(target);
    entry.append(" ");
    entry.append(locator);
    entry.append(" - ");
    entry.append(message);
    entry.append("\n");
    entry
}

/// The file that log lines go to.
pub fn log_file(directory: &str, service: &str) -> (r: String)
    ensures
        r@ == directory@ + "/"@ + service@ + ".log"@,
{
    let mut path: String = directory.to_owned();
    path.append("/");
    path.append(service);
    path.append(".log");
    path
}

/// A log line names a file in the source directory of its target by what follows that directory, any
/// other file by its whole path, and its line by the number.
pub proof fn log_line_names_file_and_line(path: Seq<char>, target: Seq<char>, line: u32)
    ensures
        named_file(Some(target + "/src/"@ + path), target) == path,
        (forall|rest: Seq<char>| path != (target + "/src/"@) + rest) ==> named_file(
            Some(path),
            target,
        ) == path,
        named_file(None, target) == "Unknown"@,
        named_line(Some(line)) == decimal(line as nat),
        named_line(None) == "Unknown"@,
{
    unprefixed_rejoins(path, target + "/src/"@);
}

} // verus!

use vstd::prelude::*;

use crate::error::Error;

verus! {

/// The part a process plays in a call scenario.
#[derive(Debug, Clone, Copy, PartialEq, Eq, Structural)]
pub enum RoleKind {
    Orchestrator,
    Source,
    Sink,
    Mixer,
}

/// Log output format handed to child processes.
#[derive(Debug, Clone, Copy, PartialEq, Eq, Structural)]
pub enum LogFormat {
    Text,
    Json,
}

/// Color choice for console output.
#[derive(Debug, Clone, Copy, PartialEq, Eq, Structural)]
pub enum ColorChoice {
    Auto,
    Always,
    Never,
}

/// A role that can be run to completion.
pub trait RoleRun {
    fn run(&self) -> Result<(), Error>;
}

/// The lower-case name of a role, as used on command lines and in readiness
/// lines.
pub open spec fn role_name(r: RoleKind) -> Seq<char> {
    match r {
        RoleKind::Orchestrator => "orchestrator"@,
        RoleKind::Source => "source"@,
        RoleKind::Sink => "sink"@,
        RoleKind::Mixer => "mixer"@,
    }
}

/// The name of a role as its variant is spelled, used in log messages.
pub open spec fn role_label(r: RoleKind) -> Seq<char> {
    match r {
        RoleKind::Orchestrator => "Orchestrator"@,
        RoleKind::Source => "Source"@,
        RoleKind::Sink => "Sink"@,
        RoleKind::Mixer => "Mixer"@,
    }
}

/// Command-line value of a log format.
pub open spec fn log_format_name(f: LogFormat) -> Seq<char> {
    match f {
        LogFormat::Text => "text"@,
        LogFormat::Json => "json"@,
    }
}

/// Command-line value of a color choice.
pub open spec fn color_name(c: ColorChoice) -> Seq<char> {
    match c {
        ColorChoice::Auto => "auto"@,
        ColorChoice::Always => "always"@,
        ColorChoice::Never => "never"@,
    }
}

/// The lower-case name of a role.
pub fn role_str(r: RoleKind) -> (s: &'static str)
    ensures
        s@ == role_name(r),
{
    match r {
        RoleKind::Orchestrator => "orchestrator",
        RoleKind::Source => "source",
        RoleKind::Sink => "sink",
        RoleKind::Mixer => "mixer",
    }
}

/// The name of a role as its variant is spelled.
pub fn role_label_str(r: RoleKind) -> (s: &'static str)
    ensures
        s@ == role_label(r),
{
    match r {
        RoleKind::Orchestrator => "Orchestrator",
        RoleKind::Source => "Source",
        RoleKind::Sink => "Sink",
        RoleKind::Mixer => "Mixer",
    }
}

/// Command-line value of a log format.
pub fn log_format_str(f: LogFormat) -> (s: &'static str)
    ensures
        s@ == log_format_name(f),
{
    match f {
        LogFormat::Text => "text",
        LogFormat::Json => "json",
    }
}

/// Command-line value of a color choice.
pub fn color_str(c: ColorChoice) -> (s: &'static str)
    ensures
        s@ == color_name(c),
{
    match c {
        ColorChoice::Auto => "auto",
        ColorChoice::Always => "always",
        ColorChoice::Never => "never",
    }
}

} // verus!

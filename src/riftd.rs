use vstd::prelude::*;

verus! {

/// How reading the daemon's command line ended.
#[derive(Clone, Copy, Debug, PartialEq, Eq, Structural)]
pub enum Startup {
    /// The configuration was read; the daemon runs.
    Configured,
    /// Help or version text was asked for and shown.
    InfoShown,
    /// The command line or environment held an invalid setting.
    Invalid,
}

/// Relies on `exitcode::OK`: the status of a successful run, 0.
#[verifier::external_body]
fn status_ok() -> (r: i32)
    ensures
        r == 0,
{
    exitcode::OK
}

/// Relies on `exitcode::USAGE`: the status of a command used incorrectly, 64.
#[verifier::external_body]
fn status_usage() -> (r: i32)
    ensures
        r == 64,
{
    exitcode::USAGE
}

/// Relies on `exitcode::CONFIG`: the status of a misconfiguration, 78.
#[verifier::external_body]
fn status_config() -> (r: i32)
    ensures
        r == 78,
{
    exitcode::CONFIG
}

/// The process status for how startup ended: success once configured, the
/// usage status after help or version text, the configuration status for an
/// invalid setting.
pub fn exit_status(s: Startup) -> (r: i32)
    ensures
        s == Startup::Configured ==> r == 0,
        s == Startup::InfoShown ==> r == 64,
        s == Startup::Invalid ==> r == 78,
{
    match s {
        Startup::Configured => status_ok(),
        Startup::InfoShown => status_usage(),
        Startup::Invalid => status_config(),
    }
}

} // verus!

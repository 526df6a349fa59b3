//! Startup decisions: which front end runs, how the wallet is opened, and
//! validation of the command-line inputs that govern both.
//!
//! The unverified shell parses the flags and performs the wallet and
//! network I/O; the decisions about what those inputs mean are taken here.

use vstd::prelude::*;

use crate::command::Command;
use crate::numeral::parse_u64;
use crate::numeral::parse_u64_spec;

verus! {

/// The parts of the server address that matter at startup: scheme, host
/// and port, each present or absent as parsing found them.
pub struct ServerAddress {
    pub scheme: Option<String>,
    pub host: Option<String>,
    pub port: Option<u16>,
}

impl ServerAddress {
    /// Whether the address names all of scheme, host and port.
    pub open spec fn is_complete_spec(self) -> bool {
        self.scheme is Some && self.host is Some && self.port is Some
    }

    /// A server address is usable only when scheme, host and port are all
    /// present; startup refuses anything less.
    pub fn is_complete(&self) -> (r: bool)
        ensures
            r == self.is_complete_spec(),
    {
        self.scheme.is_some() && self.host.is_some() && self.port.is_some()
    }
}

/// Which front end runs.
pub enum FrontEnd {
    /// No command on the command line: run the read-eval-print loop.
    Interactive,
    /// A command was given: run it, then save and exit.
    OneShot(Command),
}

/// Decides the front end from the command-line positionals: a given command
/// name with its parameters becomes the one-shot command; none means
/// interactive mode.
pub fn choose_front_end(command: Option<String>, params: Vec<String>) -> (r: FrontEnd)
    ensures
        command is None ==> r is Interactive,
        command matches Some(name) ==> {
            &&& r matches FrontEnd::OneShot(cmd)
            &&& cmd@.name == name@
            &&& cmd@.args == params@.map_values(|s: String| s@)
        },
{
    match command {
        None => FrontEnd::Interactive,
        Some(name) => FrontEnd::OneShot(Command { name, args: params }),
    }
}

/// How the wallet is opened at startup.
pub enum WalletOpenPlan {
    /// A seed phrase was given: create a fresh wallet from it.
    FromPhrase,
    /// No phrase, and a wallet file exists: read it from disk.
    ReadDisk,
    /// No phrase and no wallet file: create a brand-new wallet.
    CreateNew,
}

/// Decides how the wallet is opened: a given seed phrase wins, an existing
/// wallet file is read, and otherwise a new wallet is created.
pub fn wallet_open_plan(seed: &Option<String>, wallet_exists: bool) -> (r: WalletOpenPlan)
    ensures
        seed is Some ==> r is FromPhrase,
        seed is None && wallet_exists ==> r is ReadDisk,
        seed is None && !wallet_exists ==> r is CreateNew,
{
    match seed {
        Some(_) => WalletOpenPlan::FromPhrase,
        None => if wallet_exists {
            WalletOpenPlan::ReadDisk
        } else {
            WalletOpenPlan::CreateNew
        },
    }
}

/// Restoring from a seed phrase requires an explicit wallet birthday;
/// startup must refuse a phrase given without one.
pub fn seed_needs_birthday(seed: &Option<String>, birthday: &Option<String>) -> (r: bool)
    ensures
        r == (seed is Some && birthday is None),
{
    seed.is_some() && birthday.is_none()
}

/// The wallet birthday from its optional argument: absent means block
/// zero; present, it must be a decimal block number.
pub fn birthday_from_arg(arg: &Option<String>) -> (r: Option<u64>)
    ensures
        arg is None ==> r == Some(0u64),
        arg matches Some(s) ==> r == parse_u64_spec(s@),
{
    match arg {
        None => Some(0),
        Some(s) => parse_u64(s.as_str()),
    }
}

} // verus!

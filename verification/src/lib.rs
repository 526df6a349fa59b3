//! Command-dispatch core of a light-wallet command-line client.
//!
//! A single background worker owns the wallet engine, receives commands over
//! a FIFO channel, executes them one at a time, and answers each with exactly
//! one response over a second FIFO channel.  When no command arrives within
//! an idle window the worker triggers a background synchronization instead.
//! This crate holds the verified decision logic of that worker and of its two
//! front ends (one-shot and interactive); the unverified shell around it does
//! the actual thread, channel, and terminal work.

use vstd::prelude::*;

pub mod command;
pub mod numeral;
pub mod recover;
pub mod repl;
pub mod session;
pub mod startup;
pub mod worker;

pub use command::Command;
pub use command::CommandView;
pub use command::oneshot_plan;
pub use command::save_command;
pub use numeral::i64_to_decimal;
pub use numeral::parse_u64;
pub use numeral::u64_to_decimal;
pub use recover::RecoverError;
pub use recover::RecoveredSeed;
pub use recover::le_u64;
pub use recover::recover_seed;
pub use repl::ReadEvent;
pub use repl::ReplAction;
pub use repl::chain_name_from_info;
pub use repl::command_from_tokens;
pub use repl::height_from_response;
pub use repl::render_prompt;
pub use repl::repl_step;
pub use session::DispatchError;
pub use session::Session;
pub use startup::FrontEnd;
pub use startup::ServerAddress;
pub use startup::WalletOpenPlan;
pub use startup::birthday_from_arg;
pub use startup::choose_front_end;
pub use startup::seed_needs_birthday;
pub use startup::wallet_open_plan;
pub use worker::Phase;
pub use worker::WorkerAction;
pub use worker::WorkerEvent;
pub use worker::worker_step;

verus! {

/// Marker for the bundled Sapling parameter files the wallet engine loads.
pub struct SaplingParams;

} // verus!

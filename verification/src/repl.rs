//! Decision logic of the interactive front end.
//!
//! The read loop shows a prompt carrying live chain state (chain name and
//! block height, fetched by sending `("info", [])` and `("height", [])`
//! commands), reads one line, tokenizes it with shell quoting rules, and
//! turns it into at most one command for the worker.  Interrupt and
//! end-of-input both ask for a graceful save before leaving; any other read
//! failure leaves at once.  The unverified shell does the terminal work and
//! the channel sends; every decision about a read outcome is taken here.

use vstd::prelude::*;

use crate::command::Command;
use crate::numeral::decimal_of;
use crate::numeral::i64_to_decimal;

verus! {

/// What tokenizing a line by Bourne-shell quoting rules yields: the words,
/// in order, or nothing when a quote is left unmatched.
pub uninterp spec fn shell_tokens(line: Seq<char>) -> Option<Seq<Seq<char>>>;

/// Relies on shellwords::split: the tokenization is a function of the line
/// alone, and it fails exactly on mismatched quotes.
#[verifier::external_body]
fn split_line(line: &str) -> (r: Option<Vec<String>>)
    ensures
        match r {
            Some(toks) => shell_tokens(line@) == Some(toks@.map_values(|s: String| s@)),
            None => shell_tokens(line@) is None,
        },
{
    shellwords::split(line).ok()
}

/// Builds the command a token list stands for: the first token names the
/// command, the rest are its arguments, and an empty list means nothing is
/// sent.
pub fn command_from_tokens(tokens: Vec<String>) -> (r: Option<Command>)
    ensures
        tokens@.len() == 0 ==> r is None,
        tokens@.len() > 0 ==> {
            &&& r matches Some(cmd)
            &&& cmd@.name == tokens@[0]@
            &&& cmd@.args == tokens@.drop_first().map_values(|s: String| s@)
        },
{
    if tokens.len() == 0 {
        None
    } else {
        let mut toks = tokens;
        let name = toks.remove(0);
        let r = Command { name, args: toks };
        proof {
            assert(toks@ =~= tokens@.drop_first());
            assert(r@.args =~= tokens@.drop_first().map_values(|s: String| s@));
        }
        Some(r)
    }
}

/// One outcome of reading a line from the user.
pub enum ReadEvent {
    /// A line was read.
    Line(String),
    /// The user interrupted the read (an explicit break).
    Interrupted,
    /// Input ended.
    EndOfInput,
    /// The read failed in any other way.
    Failed,
}

/// What the interactive loop does with one read outcome.
pub enum ReplAction {
    /// Report the mismatched quotes; send nothing; keep reading.
    ReportMismatchedQuotes,
    /// An empty token list: send nothing; keep reading.
    Ignore,
    /// Send the command, print its response, and leave the loop afterwards
    /// exactly when `quit_after` holds.
    Send { cmd: Command, quit_after: bool },
    /// Send `("save", [])`, print its response, and leave the loop.
    SaveAndExit,
    /// Leave the loop at once, sending nothing.
    Abort,
}

/// Decides one iteration of the interactive loop.  A line is tokenized by
/// shell quoting rules: mismatched quotes are reported and nothing is sent;
/// an empty token list is ignored; otherwise the first token names the
/// command and the rest are its arguments, and the loop ends after the
/// response exactly when the whole line is the word `quit`.  An interrupt
/// or end of input asks for a graceful save; any other read failure leaves
/// at once.
pub fn repl_step(event: ReadEvent) -> (r: ReplAction)
    ensures
        match event {
            ReadEvent::Line(line) => match shell_tokens(line@) {
                None => r is ReportMismatchedQuotes,
                Some(toks) => if toks.len() == 0 {
                    r is Ignore
                } else {
                    r matches ReplAction::Send { cmd, quit_after } && cmd@.name == toks[0]
                        && cmd@.args == toks.drop_first() && quit_after == (line@ == "quit"@)
                },
            },
            ReadEvent::Interrupted => r is SaveAndExit,
            ReadEvent::EndOfInput => r is SaveAndExit,
            ReadEvent::Failed => r is Abort,
        },
{
    match event {
        ReadEvent::Line(line) => {
            match split_line(line.as_str()) {
                None => ReplAction::ReportMismatchedQuotes,
                Some(v) => {
                    let ghost vv = v@;
                    match command_from_tokens(v) {
                        None => ReplAction::Ignore,
                        Some(cmd) => {
                            proof {
                                let toks = vv.map_values(|s: String| s@);
                                assert(cmd@.name == toks[0]);
                                assert(cmd@.args =~= toks.drop_first());
                            }
                            let quit: String = "quit".to_owned();
                            let quit_after = line == quit;
                            ReplAction::Send { cmd, quit_after }
                        },
                    }
                },
            }
        },
        ReadEvent::Interrupted => ReplAction::SaveAndExit,
        ReadEvent::EndOfInput => ReplAction::SaveAndExit,
        ReadEvent::Failed => ReplAction::Abort,
    }
}

/// Which integer a named field of a JSON document holds, when the document
/// parses and the field holds one.
pub uninterp spec fn json_int_field(text: Seq<char>, key: Seq<char>) -> Option<int>;

/// Which text a named field of a JSON document holds, when the document
/// parses and the field holds some.
pub uninterp spec fn json_text_field(text: Seq<char>, key: Seq<char>) -> Option<Seq<char>>;

/// Relies on json::parse, json::JsonValue's `&str` index, and
/// JsonValue::as_i64: which integer a named field of a JSON document holds
/// is a function of the document text and the key alone.
#[verifier::external_body]
fn int_field(text: &str, key: &str) -> (r: Option<i64>)
    ensures
        match r {
            Some(v) => json_int_field(text@, key@) == Some(v as int),
            None => json_int_field(text@, key@) is None,
        },
{
    match json::parse(text) {
        Ok(doc) => doc[key].as_i64(),
        Err(_) => None,
    }
}

/// Relies on json::parse, json::JsonValue's `&str` index, and
/// JsonValue::as_str: which text a named field of a JSON document holds is
/// a function of the document text and the key alone.
#[verifier::external_body]
fn text_field(text: &str, key: &str) -> (r: Option<String>)
    ensures
        match r {
            Some(v) => json_text_field(text@, key@) == Some(v@),
            None => json_text_field(text@, key@) is None,
        },
{
    match json::parse(text) {
        Ok(doc) => doc[key].as_str().map(|s| s.to_string()),
        Err(_) => None,
    }
}

/// The chain name carried by the response to an `("info", [])` command.
pub fn chain_name_from_info(info: &str) -> (r: Option<String>)
    ensures
        match r {
            Some(v) => json_text_field(info@, "chain_name"@) == Some(v@),
            None => json_text_field(info@, "chain_name"@) is None,
        },
{
    text_field(info, "chain_name")
}

/// The block height carried by the response to a `("height", [])` command.
pub fn height_from_response(resp: &str) -> (r: Option<i64>)
    ensures
        match r {
            Some(v) => json_int_field(resp@, "height"@) == Some(v as int),
            None => json_int_field(resp@, "height"@) is None,
        },
{
    int_field(resp, "height")
}

/// The interactive prompt for a chain name and a block height.
pub open spec fn prompt_text(chain: Seq<char>, height: int) -> Seq<char> {
    "("@ + chain + ") Block:"@ + decimal_of(height) + " (type 'help') >> "@
}

/// Renders the interactive prompt, embedding the live chain state.
pub fn render_prompt(chain: &str, height: i64) -> (r: String)
    ensures
        r@ == prompt_text(chain@, height as int),
{
    let mut s: String = "(".to_owned();
    s.append(chain);
    s.append(") Block:");
    let h = i64_to_decimal(height);
    s.append(h.as_str());
    s.append(" (type 'help') >> ");
    proof {
        assert(s@ =~= prompt_text(chain@, height as int));
    }
    s
}

} // verus!

use vstd::prelude::*;

use crate::config::opt_text;
use crate::text::{alnum_char, chars_of, is_alnum, string_of};

verus! {

/// The game name used when none was detected.
pub open spec fn unknown_game() -> Seq<char> {
    "Unknown"@
}

pub open spec fn slug_char(c: char) -> char {
    if c == ' ' {
        '-'
    } else {
        c
    }
}

/// File-name form of a game name: spaces become hyphens, then everything but
/// letters, digits and hyphens is dropped.
pub open spec fn slug_of(name: Seq<char>) -> Seq<char>
    decreases name.len(),
{
    if name.len() == 0 {
        Seq::empty()
    } else {
        let c = slug_char(name.last());
        if alnum_char(c) || c == '-' {
            slug_of(name.drop_last()).push(c)
        } else {
            slug_of(name.drop_last())
        }
    }
}

pub open spec fn name_or_unknown(game_name: Option<Seq<char>>) -> Seq<char> {
    match game_name {
        Some(n) => n,
        None => unknown_game(),
    }
}

fn name_or_unknown_text(game_name: &Option<String>) -> (r: String)
    ensures
        r@ == name_or_unknown(opt_text(*game_name)),
{
    match game_name {
        Some(n) => n.clone(),
        None => String::from_str("Unknown"),
    }
}

/// The slug of the detected game name, or of `Unknown`.
pub fn log_slug(game_name: &Option<String>) -> (r: String)
    ensures
        r@ == slug_of(name_or_unknown(opt_text(*game_name))),
{
    let name = name_or_unknown_text(game_name);
    let cs = chars_of(name.as_str());
    let mut out: Vec<char> = Vec::new();
    let mut i: usize = 0;
    while i < cs.len()
        invariant
            i <= cs@.len(),
            out@ == slug_of(cs@.subrange(0, i as int)),
        decreases cs@.len() - i,
    {
        proof {
            assert(cs@.subrange(0, i + 1).drop_last() =~= cs@.subrange(0, i as int));
        }
        let c = if cs[i] == ' ' {
            '-'
        } else {
            cs[i]
        };
        if c == '-' || is_alnum(c) {
            out.push(c);
        }
        i = i + 1;
    }
    assert(cs@.subrange(0, cs@.len() as int) =~= cs@);
    string_of(out.as_slice())
}

pub open spec fn log_file_name_of(slug: Seq<char>, timestamp: Seq<char>) -> Seq<char> {
    slug + "_"@ + timestamp + ".txt"@
}

/// The session log's file name, `{slug}_{timestamp}.txt`; the timestamp is
/// written `YYYY-MM-DD_HH-MM-SS`.
pub fn log_file_name(slug: &str, timestamp: &str) -> (r: String)
    ensures
        r@ == log_file_name_of(slug@, timestamp@),
{
    String::from_str(slug).concat("_").concat(timestamp).concat(".txt")
}

pub open spec fn log_header_of(game: Seq<char>, date: Seq<char>) -> Seq<char> {
    "=== AI Game Companion - Session Log ===\nGame: "@ + game + "\nDate: "@ + date
        + "\n========================================\n\n"@
}

/// The four header lines (and a blank line) at the top of a session log.
pub fn log_header(game_name: &Option<String>, date: &str) -> (r: String)
    ensures
        r@ == log_header_of(name_or_unknown(opt_text(*game_name)), date@),
{
    let game = name_or_unknown_text(game_name);
    String::from_str("=== AI Game Companion - Session Log ===\nGame: ").concat(game.as_str()).concat(
        "\nDate: ",
    ).concat(date).concat("\n========================================\n\n")
}

pub open spec fn exchange_entry_of(time: Seq<char>, user: Seq<char>, reply: Seq<char>) -> Seq<char> {
    "["@ + time + "] You:\n"@ + user + "\n\n["@ + time + "] Sage:\n"@ + reply + "\n\n"@
}

/// One logged exchange: the user's block, then the assistant's, each headed
/// by `[HH:MM:SS] speaker:`.
pub fn exchange_entry(time: &str, user_msg: &str, assistant_msg: &str) -> (r: String)
    ensures
        r@ == exchange_entry_of(time@, user_msg@, assistant_msg@),
{
    String::from_str("[").concat(time).concat("] You:\n").concat(user_msg).concat("\n\n[").concat(
        time,
    ).concat("] Sage:\n").concat(assistant_msg).concat("\n\n")
}

/// Where session logs go.
pub enum LogDirectory {
    /// The directory configured under `[logging]`.
    Configured(String),
    /// `logs` next to the library image.
    BesideLibrary,
}

/// The configured log directory, or `logs` beside the library.
pub fn log_directory(configured: &Option<String>) -> (r: LogDirectory)
    ensures
        match r {
            LogDirectory::Configured(d) => opt_text(*configured) == Some(d@),
            LogDirectory::BesideLibrary => configured.is_none(),
        },
{
    match configured {
        Some(d) => LogDirectory::Configured(d.clone()),
        None => LogDirectory::BesideLibrary,
    }
}

} // verus!

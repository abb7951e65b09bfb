//! The interactive command line: reading commands, and the unit a trading
//! volume is shown in.

use vstd::prelude::*;
use crate::text::{split_char, split_whitespace, str_eq, trim, trimmed, views, words};

verus! {

/// The upper-case form of a text, as `str::to_uppercase` gives it (Unicode
/// case mapping).
pub uninterp spec fn uppercase(s: Seq<char>) -> Seq<char>;

/// Calls `str::to_uppercase`. The contract names its result.
#[verifier::external_body]
fn to_uppercase(s: &str) -> (r: String)
    ensures
        r@ == uppercase(s@),
{
    s.to_uppercase()
}

/// A command of the interactive shell.
#[derive(Debug)]
pub enum Command {
    /// A blank line.
    Empty,
    Help,
    Quit,
    /// Historical data for a ticker over a range.
    Hist { ticker: String, range: String },
    /// The option chain of a ticker.
    Options { ticker: String },
    /// A quote for a ticker.
    Quote { ticker: String },
    /// The market summary.
    Market,
    /// A command given without its argument: the usage line to show.
    Usage(String),
    /// Any other word.
    Unknown(String),
}

/// The command of a line: the first word selects it and the second is the
/// ticker (in upper case); `hist` takes an optional range (`1mo` by default).
pub open spec fn command_matches(c: Command, line: Seq<char>) -> bool {
    let w = words(line);
    if w.len() == 0 {
        c is Empty
    } else if w[0] == "help"@ {
        c is Help
    } else if w[0] == "quit"@ || w[0] == "exit"@ {
        c is Quit
    } else if w[0] == "hist"@ {
        if w.len() < 2 {
            c matches Command::Usage(u) && u@ == "Usage: hist <ticker> [range]"@
        } else {
            c matches Command::Hist { ticker, range } && ticker@ == uppercase(w[1])
                && range@ == (if w.len() > 2 { w[2] } else { "1mo"@ })
        }
    } else if w[0] == "options"@ {
        if w.len() < 2 {
            c matches Command::Usage(u) && u@ == "Usage: options <ticker>"@
        } else {
            c matches Command::Options { ticker } && ticker@ == uppercase(w[1])
        }
    } else if w[0] == "quote"@ {
        if w.len() < 2 {
            c matches Command::Usage(u) && u@ == "Usage: quote <ticker>"@
        } else {
            c matches Command::Quote { ticker } && ticker@ == uppercase(w[1])
        }
    } else if w[0] == "market"@ {
        c is Market
    } else {
        c matches Command::Unknown(word) && word@ == w[0]
    }
}

/// The word that names each command of the shell (`quit` also answers to
/// `exit`).
pub open spec fn command_word(c: Command) -> Option<Seq<char>> {
    match c {
        Command::Help => Some("help"@),
        Command::Quit => Some("quit"@),
        Command::Hist { .. } => Some("hist"@),
        Command::Options { .. } => Some("options"@),
        Command::Quote { .. } => Some("quote"@),
        Command::Market => Some("market"@),
        _ => None,
    }
}

/// A line runs the command named by its first word: a named command only
/// when the line starts with its name (or `exit` for `quit`); a command that
/// needs a ticker gets the second word; a usage line only for a command
/// word given alone; and an unknown word only when it names no command.
pub proof fn lemma_command_named_by_first_word(c: Command, line: Seq<char>, other: Command)
    requires
        command_matches(c, line),
    ensures
        command_word(c) matches Some(name) ==> words(line).len() > 0 && (words(line)[0] == name || (c is Quit
            && words(line)[0] == "exit"@)),
        (c is Hist || c is Options || c is Quote) ==> words(line).len() >= 2,
        c is Usage ==> words(line).len() == 1 && (words(line)[0] == "hist"@ || words(line)[0] == "options"@
            || words(line)[0] == "quote"@),
        c is Unknown ==> words(line).len() > 0 && words(line)[0] != "exit"@ && (command_word(other) matches Some(
            name,
        ) ==> words(line)[0] != name),
        c is Empty <==> words(line).len() == 0,
{
}

/// Reads one line of shell input.
pub fn parse_command(line: &str) -> (r: Command)
    ensures
        command_matches(r, line@),
{
    let parts = split_whitespace(line);
    proof {
        assert(views(parts@).len() == parts@.len());
        if parts@.len() > 0 {
            assert(views(parts@)[0] == parts@[0]@);
        }
        if parts@.len() > 1 {
            assert(views(parts@)[1] == parts@[1]@);
        }
        if parts@.len() > 2 {
            assert(views(parts@)[2] == parts@[2]@);
        }
    }
    if parts.len() == 0 {
        return Command::Empty;
    }
    let word = parts[0].as_str();
    if str_eq(word, "help") {
        Command::Help
    } else if str_eq(word, "quit") || str_eq(word, "exit") {
        Command::Quit
    } else if str_eq(word, "hist") {
        if parts.len() < 2 {
            Command::Usage("Usage: hist <ticker> [range]".to_owned())
        } else {
            let ticker = to_uppercase(parts[1].as_str());
            let range = if parts.len() > 2 { parts[2].clone() } else { "1mo".to_owned() };
            Command::Hist { ticker, range }
        }
    } else if str_eq(word, "options") {
        if parts.len() < 2 {
            Command::Usage("Usage: options <ticker>".to_owned())
        } else {
            Command::Options { ticker: to_uppercase(parts[1].as_str()) }
        }
    } else if str_eq(word, "quote") {
        if parts.len() < 2 {
            Command::Usage("Usage: quote <ticker>".to_owned())
        } else {
            Command::Quote { ticker: to_uppercase(parts[1].as_str()) }
        }
    } else if str_eq(word, "market") {
        Command::Market
    } else {
        Command::Unknown(parts[0].clone())
    }
}

/// A command of the enhanced shell.
#[derive(Debug)]
pub enum EnhancedCommand {
    Empty,
    Help,
    Quit,
    /// A quote for one symbol.
    Quote { symbol: String },
    /// Quotes for a comma-separated list of symbols.
    Quotes { symbols: Vec<String> },
    /// Daily bars for a symbol over a range.
    Hist { symbol: String, range: String },
    Market,
    Screen,
    Health,
    Portfolio,
    Usage(String),
    Unknown(String),
}

/// The symbols of a comma-separated list, each trimmed and in upper case.
pub open spec fn symbol_list(list: Seq<char>) -> Seq<Seq<char>> {
    split_on_views(list).map_values(|s: Seq<char>| uppercase(trimmed(s)))
}

/// The pieces of a comma-separated list.
pub open spec fn split_on_views(list: Seq<char>) -> Seq<Seq<char>> {
    crate::text::split_on(list, ',')
}

/// The command of a line for the enhanced shell.
pub open spec fn enhanced_command_matches(c: EnhancedCommand, line: Seq<char>) -> bool {
    let w = words(line);
    if w.len() == 0 {
        c is Empty
    } else if w[0] == "help"@ {
        c is Help
    } else if w[0] == "quit"@ || w[0] == "exit"@ {
        c is Quit
    } else if w[0] == "quote"@ {
        if w.len() < 2 {
            c matches EnhancedCommand::Usage(u) && u@ == "Usage: quote <symbol>"@
        } else {
            c matches EnhancedCommand::Quote { symbol } && symbol@ == uppercase(w[1])
        }
    } else if w[0] == "quotes"@ {
        if w.len() < 2 {
            c matches EnhancedCommand::Usage(u) && u@ == "Usage: quotes <symbol1,symbol2,...>"@
        } else {
            c matches EnhancedCommand::Quotes { symbols } && views(symbols@) == symbol_list(w[1])
        }
    } else if w[0] == "hist"@ {
        if w.len() < 2 {
            c matches EnhancedCommand::Usage(u) && u@ == "Usage: hist <symbol> [range]"@
        } else {
            c matches EnhancedCommand::Hist { symbol, range } && symbol@ == uppercase(w[1])
                && range@ == (if w.len() > 2 { w[2] } else { "1mo"@ })
        }
    } else if w[0] == "market"@ {
        c is Market
    } else if w[0] == "screen"@ {
        c is Screen
    } else if w[0] == "health"@ {
        c is Health
    } else if w[0] == "portfolio"@ {
        c is Portfolio
    } else {
        c matches EnhancedCommand::Unknown(word) && word@ == w[0]
    }
}

/// The word that names each command of the enhanced shell (`quit` also
/// answers to `exit`).
pub open spec fn enhanced_command_word(c: EnhancedCommand) -> Option<Seq<char>> {
    match c {
        EnhancedCommand::Help => Some("help"@),
        EnhancedCommand::Quit => Some("quit"@),
        EnhancedCommand::Quote { .. } => Some("quote"@),
        EnhancedCommand::Quotes { .. } => Some("quotes"@),
        EnhancedCommand::Hist { .. } => Some("hist"@),
        EnhancedCommand::Market => Some("market"@),
        EnhancedCommand::Screen => Some("screen"@),
        EnhancedCommand::Health => Some("health"@),
        EnhancedCommand::Portfolio => Some("portfolio"@),
        _ => None,
    }
}

/// A line runs the enhanced command named by its first word, and an unknown
/// word is one that names no command.
pub proof fn lemma_enhanced_command_named_by_first_word(c: EnhancedCommand, line: Seq<char>, other: EnhancedCommand)
    requires
        enhanced_command_matches(c, line),
    ensures
        enhanced_command_word(c) matches Some(name) ==> words(line).len() > 0 && (words(line)[0] == name || (
        c is Quit && words(line)[0] == "exit"@)),
        (c is Quote || c is Quotes || c is Hist) ==> words(line).len() >= 2,
        c is Unknown ==> words(line).len() > 0 && words(line)[0] != "exit"@ && (enhanced_command_word(
            other,
        ) matches Some(name) ==> words(line)[0] != name),
        c is Empty <==> words(line).len() == 0,
{
}

fn symbols_from(list: &str) -> (r: Vec<String>)
    ensures
        views(r@) == symbol_list(list@),
{
    let pieces = split_char(list, ',');
    let mut out: Vec<String> = Vec::new();
    let mut i: usize = 0;
    while i < pieces.len()
        invariant
            i <= pieces@.len(),
            views(pieces@) == split_on_views(list@),
            out@.len() == i,
            forall|k: int| 0 <= k < i ==> out@[k]@ == uppercase(trimmed(pieces@[k]@)),
        decreases pieces@.len() - i,
    {
        let t = trim(pieces[i].as_str());
        out.push(to_uppercase(t.as_str()));
        i = i + 1;
    }
    proof {
        assert(views(out@) =~= symbol_list(list@));
    }
    out
}

/// Reads one line of input for the enhanced shell.
pub fn parse_enhanced_command(line: &str) -> (r: EnhancedCommand)
    ensures
        enhanced_command_matches(r, line@),
{
    let parts = split_whitespace(line);
    proof {
        if parts@.len() > 0 {
            assert(views(parts@)[0] == parts@[0]@);
        }
        if parts@.len() > 1 {
            assert(views(parts@)[1] == parts@[1]@);
        }
        if parts@.len() > 2 {
            assert(views(parts@)[2] == parts@[2]@);
        }
    }
    if parts.len() == 0 {
        return EnhancedCommand::Empty;
    }
    let word = parts[0].as_str();
    if str_eq(word, "help") {
        EnhancedCommand::Help
    } else if str_eq(word, "quit") || str_eq(word, "exit") {
        EnhancedCommand::Quit
    } else if str_eq(word, "quote") {
        if parts.len() < 2 {
            EnhancedCommand::Usage("Usage: quote <symbol>".to_owned())
        } else {
            EnhancedCommand::Quote { symbol: to_uppercase(parts[1].as_str()) }
        }
    } else if str_eq(word, "quotes") {
        if parts.len() < 2 {
            EnhancedCommand::Usage("Usage: quotes <symbol1,symbol2,...>".to_owned())
        } else {
            EnhancedCommand::Quotes { symbols: symbols_from(parts[1].as_str()) }
        }
    } else if str_eq(word, "hist") {
        if parts.len() < 2 {
            EnhancedCommand::Usage("Usage: hist <symbol> [range]".to_owned())
        } else {
            let symbol = to_uppercase(parts[1].as_str());
            let range = if parts.len() > 2 { parts[2].clone() } else { "1mo".to_owned() };
            EnhancedCommand::Hist { symbol, range }
        }
    } else if str_eq(word, "market") {
        EnhancedCommand::Market
    } else if str_eq(word, "screen") {
        EnhancedCommand::Screen
    } else if str_eq(word, "health") {
        EnhancedCommand::Health
    } else if str_eq(word, "portfolio") {
        EnhancedCommand::Portfolio
    } else {
        EnhancedCommand::Unknown(parts[0].clone())
    }
}

/// The unit a trading volume is shown in.
#[derive(Debug, Clone, Copy, PartialEq, Eq, Structural)]
pub enum VolumeUnit {
    /// Whole shares, written as they are.
    Shares,
    /// Thousands, suffix `K`.
    Thousands,
    /// Millions, suffix `M`.
    Millions,
    /// Billions, suffix `B`.
    Billions,
}

/// The largest unit that the volume reaches.
pub open spec fn unit_of(volume: u64) -> VolumeUnit {
    if volume >= 1_000_000_000 {
        VolumeUnit::Billions
    } else if volume >= 1_000_000 {
        VolumeUnit::Millions
    } else if volume >= 1_000 {
        VolumeUnit::Thousands
    } else {
        VolumeUnit::Shares
    }
}

/// Chooses the unit to show a volume in.
pub fn volume_unit(volume: u64) -> (r: VolumeUnit)
    ensures
        r == unit_of(volume),
{
    if volume >= 1_000_000_000 {
        VolumeUnit::Billions
    } else if volume >= 1_000_000 {
        VolumeUnit::Millions
    } else if volume >= 1_000 {
        VolumeUnit::Thousands
    } else {
        VolumeUnit::Shares
    }
}

impl VolumeUnit {
    /// How many shares one unit stands for.
    pub fn divisor(&self) -> (r: u64)
        ensures
            r == (match *self {
                VolumeUnit::Shares => 1u64,
                VolumeUnit::Thousands => 1_000u64,
                VolumeUnit::Millions => 1_000_000u64,
                VolumeUnit::Billions => 1_000_000_000u64,
            }),
    {
        match self {
            VolumeUnit::Shares => 1,
            VolumeUnit::Thousands => 1_000,
            VolumeUnit::Millions => 1_000_000,
            VolumeUnit::Billions => 1_000_000_000,
        }
    }

    /// The suffix written after a scaled volume (none for whole shares).
    pub fn suffix(&self) -> (r: &'static str)
        ensures
            r@ == (match *self {
                VolumeUnit::Shares => ""@,
                VolumeUnit::Thousands => "K"@,
                VolumeUnit::Millions => "M"@,
                VolumeUnit::Billions => "B"@,
            }),
    {
        match self {
            VolumeUnit::Shares => "",
            VolumeUnit::Thousands => "K",
            VolumeUnit::Millions => "M",
            VolumeUnit::Billions => "B",
        }
    }
}

/// A volume shown in a unit is at least one unit, and below a thousand units
/// unless it is in billions.
pub proof fn lemma_unit_range(volume: u64)
    ensures
        unit_of(volume) is Billions ==> volume >= 1_000_000_000,
        unit_of(volume) is Millions ==> 1_000_000 <= volume < 1_000_000_000,
        unit_of(volume) is Thousands ==> 1_000 <= volume < 1_000_000,
        unit_of(volume) is Shares ==> volume < 1_000,
{
}

} // verus!

use vstd::prelude::*;

verus! {

/// The value of a string of decimal digits.
pub open spec fn digits_value(s: Seq<char>) -> int
    decreases s.len(),
{
    if s.len() == 0 {
        0
    } else {
        digits_value(s.drop_last()) * 10 + (s.last() as int - '0' as int)
    }
}

pub open spec fn all_digits(s: Seq<char>) -> bool {
    forall|i: int| 0 <= i < s.len() ==> '0' <= #[trigger] s[i] <= '9'
}

/// The `u8` written by `s`: an optional `+` and one or more decimal digits
/// whose value is at most 255.
pub open spec fn u8_of(s: Seq<char>) -> Option<u8> {
    let d = if s.len() > 0 && s[0] == '+' { s.drop_first() } else { s };
    if d.len() > 0 && all_digits(d) && digits_value(d) <= 255 {
        Some(digits_value(d) as u8)
    } else {
        None
    }
}

/// The whitespace-separated words of a line.
pub uninterp spec fn words_of(line: Seq<char>) -> Seq<Seq<char>>;

/// Relies on u8's FromStr (str::parse): an optional `+` followed by decimal
/// digits whose value fits in a `u8`; anything else is an error.
#[verifier::external_body]
fn parse_u8(s: &str) -> (r: Option<u8>)
    ensures
        r == u8_of(s@),
{
    s.parse::<u8>().ok()
}

/// Relies on str::split_whitespace: the words of `line`, in order.
#[verifier::external_body]
fn split_words(line: &str) -> (r: Vec<String>)
    ensures
        r@.len() == words_of(line@).len(),
        forall|i: int| 0 <= i < r@.len() ==> (#[trigger] r@[i])@ == words_of(line@)[i],
{
    line.split_whitespace().map(String::from).collect()
}

/// The field of a command whose number could not be read.
#[derive(Clone, Copy, Debug, PartialEq, Eq, Structural)]
pub enum Field {
    Id,
    Bri,
    Red,
    Green,
    Blue,
}

/// Why a line is not a command.
#[derive(Clone, Copy, Debug, PartialEq, Eq, Structural)]
pub enum CommandError {
    /// The number of this field is not a `u8`.
    BadNumber(Field),
    /// The words match no command.
    Unknown,
}

/// A command of the interactive shell.
#[derive(Clone, Debug, PartialEq, Eq)]
pub enum Command {
    /// List the lights and their state.
    ListLights,
    /// Switch all lights on or off.
    AllOn(bool),
    /// Switch one light on or off.
    SetOn { id: u8, on: bool },
    /// Set the brightness of one light.
    SetBri { id: u8, bri: u8 },
    /// Set the colour of one light from red, green and blue.
    SetColor { id: u8, r: u8, g: u8, b: u8 },
    /// Play the loop of this name.
    Play(String),
    /// List the loops that can be played.
    ListLoops,
}

/// A command with its loop name as a sequence of characters.
pub enum CommandView {
    ListLights,
    AllOn(bool),
    SetOn { id: u8, on: bool },
    SetBri { id: u8, bri: u8 },
    SetColor { id: u8, r: u8, g: u8, b: u8 },
    Play(Seq<char>),
    ListLoops,
}

impl View for Command {
    type V = CommandView;

    open spec fn view(&self) -> CommandView {
        match self {
            Command::ListLights => CommandView::ListLights,
            Command::AllOn(on) => CommandView::AllOn(*on),
            Command::SetOn { id, on } => CommandView::SetOn { id: *id, on: *on },
            Command::SetBri { id, bri } => CommandView::SetBri { id: *id, bri: *bri },
            Command::SetColor { id, r, g, b } => CommandView::SetColor { id: *id, r: *r, g: *g, b: *b },
            Command::Play(name) => CommandView::Play(name@),
            Command::ListLoops => CommandView::ListLoops,
        }
    }
}

/// A number of field `f` read from `s`.
pub open spec fn number_of(s: Seq<char>, f: Field) -> Result<u8, CommandError> {
    match u8_of(s) {
        Some(v) => Ok(v),
        None => Err(CommandError::BadNumber(f)),
    }
}

/// The command that `words` stand for; the first pattern that fits decides,
/// and the numbers are read from left to right.
pub open spec fn command_of(w: Seq<Seq<char>>) -> Result<CommandView, CommandError> {
    if w == seq!["ls"@] {
        Ok(CommandView::ListLights)
    } else if w == seq!["all"@, "on"@] {
        Ok(CommandView::AllOn(true))
    } else if w == seq!["all"@, "off"@] {
        Ok(CommandView::AllOn(false))
    } else if w.len() == 2 && (w[0] == "on"@ || w[0] == "off"@) {
        match number_of(w[1], Field::Id) {
            Ok(id) => Ok(CommandView::SetOn { id, on: w[0] == "on"@ }),
            Err(e) => Err(e),
        }
    } else if w.len() == 3 && w[0] == "bri"@ {
        match (number_of(w[1], Field::Id), number_of(w[2], Field::Bri)) {
            (Err(e), _) => Err(e),
            (Ok(_), Err(e)) => Err(e),
            (Ok(id), Ok(bri)) => Ok(CommandView::SetBri { id, bri }),
        }
    } else if w.len() == 5 && w[0] == "rgb"@ {
        match (
            number_of(w[1], Field::Id),
            number_of(w[2], Field::Red),
            number_of(w[3], Field::Green),
            number_of(w[4], Field::Blue),
        ) {
            (Err(e), _, _, _) => Err(e),
            (Ok(_), Err(e), _, _) => Err(e),
            (Ok(_), Ok(_), Err(e), _) => Err(e),
            (Ok(_), Ok(_), Ok(_), Err(e)) => Err(e),
            (Ok(id), Ok(r), Ok(g), Ok(b)) => Ok(CommandView::SetColor { id, r, g, b }),
        }
    } else if w == seq!["play"@] {
        Ok(CommandView::Play("random-hue"@))
    } else if w.len() == 2 && w[0] == "play"@ {
        Ok(CommandView::Play(w[1]))
    } else if w == seq!["ls"@, "loops"@] {
        Ok(CommandView::ListLoops)
    } else {
        Err(CommandError::Unknown)
    }
}

/// Whether word `w` is `lit`.
fn word_is(w: &String, lit: &str) -> (r: bool)
    ensures
        r == (w@ == lit@),
{
    let l = lit.to_owned();
    *w == l
}

/// Reads a number of field `f` from `s`.
fn number(s: &String, f: Field) -> (r: Result<u8, CommandError>)
    ensures
        r == number_of(s@, f),
{
    match parse_u8(s.as_str()) {
        Some(v) => Ok(v),
        None => Err(CommandError::BadNumber(f)),
    }
}

/// The command that the words stand for.
pub fn parse_words(words: &Vec<String>) -> (r: Result<Command, CommandError>)
    ensures
        match r {
            Ok(c) => command_of(words@.map_values(|s: String| s@)) == Ok::<CommandView, CommandError>(c@),
            Err(e) => command_of(words@.map_values(|s: String| s@)) == Err::<CommandView, CommandError>(e),
        },
{
    let ghost w = words@.map_values(|s: String| s@);
    let n = words.len();
    if n == 1 && word_is(&words[0], "ls") {
        assert(w =~= seq!["ls"@]);
        return Ok(Command::ListLights);
    }
    if n == 2 && word_is(&words[0], "all") && word_is(&words[1], "on") {
        assert(w =~= seq!["all"@, "on"@]);
        return Ok(Command::AllOn(true));
    }
    if n == 2 && word_is(&words[0], "all") && word_is(&words[1], "off") {
        assert(w =~= seq!["all"@, "off"@]);
        return Ok(Command::AllOn(false));
    }
    assert(n == 1 ==> w != seq!["ls"@] ==> !(w[0] == "ls"@));
    assert(n == 2 ==> (w != seq!["all"@, "on"@] ==> !(w[0] == "all"@ && w[1] == "on"@)));
    assert(n == 2 ==> (w != seq!["all"@, "off"@] ==> !(w[0] == "all"@ && w[1] == "off"@)));
    if n == 2 && (word_is(&words[0], "on") || word_is(&words[0], "off")) {
        let on = word_is(&words[0], "on");
        return match number(&words[1], Field::Id) {
            Ok(id) => Ok(Command::SetOn { id, on }),
            Err(e) => Err(e),
        };
    }
    if n == 3 && word_is(&words[0], "bri") {
        let id = match number(&words[1], Field::Id) {
            Ok(v) => v,
            Err(e) => { return Err(e); },
        };
        return match number(&words[2], Field::Bri) {
            Ok(bri) => Ok(Command::SetBri { id, bri }),
            Err(e) => Err(e),
        };
    }
    if n == 5 && word_is(&words[0], "rgb") {
        let id = match number(&words[1], Field::Id) {
            Ok(v) => v,
            Err(e) => { return Err(e); },
        };
        let r = match number(&words[2], Field::Red) {
            Ok(v) => v,
            Err(e) => { return Err(e); },
        };
        let g = match number(&words[3], Field::Green) {
            Ok(v) => v,
            Err(e) => { return Err(e); },
        };
        return match number(&words[4], Field::Blue) {
            Ok(b) => Ok(Command::SetColor { id, r, g, b }),
            Err(e) => Err(e),
        };
    }
    if n == 1 && word_is(&words[0], "play") {
        assert(w =~= seq!["play"@]);
        let name = "random-hue".to_owned();
        return Ok(Command::Play(name));
    }
    assert(n == 1 ==> w != seq!["play"@] ==> !(w[0] == "play"@));
    if n == 2 && word_is(&words[0], "play") {
        return Ok(Command::Play(words[1].clone()));
    }
    if n == 2 && word_is(&words[0], "ls") && word_is(&words[1], "loops") {
        assert(w =~= seq!["ls"@, "loops"@]);
        return Ok(Command::ListLoops);
    }
    assert(n == 2 ==> (w != seq!["ls"@, "loops"@] ==> !(w[0] == "ls"@ && w[1] == "loops"@)));
    Err(CommandError::Unknown)
}

/// The command that the line stands for, read word by word.
pub fn parse_line(line: &str) -> (r: Result<Command, CommandError>)
    ensures
        match r {
            Ok(c) => command_of(words_of(line@)) == Ok::<CommandView, CommandError>(c@),
            Err(e) => command_of(words_of(line@)) == Err::<CommandView, CommandError>(e),
        },
{
    let words = split_words(line);
    assert(words@.map_values(|s: String| s@) =~= words_of(line@));
    parse_words(&words)
}

} // verus!

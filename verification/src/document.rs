//! Theme documents: text in lines, where a heading in brackets opens the
//! gradient of one state of charge and every other line that is not blank is
//! a stop of the gradient that is open.
//!
//! The colour values of a stop are read and converted outside this library;
//! a line comes with what was made of them.

use vstd::prelude::*;
use crate::color::{darken, Color};
use crate::gradient::{values, GradientStop, StopValue};
use crate::level::{Level, FULL};
use crate::text::{chars_of, spells, spells_word, trim, trim_bounds};
use crate::theme::{assemble, ChargeState, Theme, ThemeError, ThemeValue};

verus! {

/// The name of the theme that is used where none is asked for.
pub const DEFAULT_THEME_NAME: &'static str = "default";

/// The document of the default theme: blue while charging or idle, and from
/// red to green as the battery fills while it discharges.
pub const DEFAULT_THEME: &'static str = "[charging]\n0% color(srgb 0 0.5 1)\n\n[nocharge]\n0% color(srgb 0 0.5 1)\n\n[discharging]\n0% color(srgb-linear 1 0 0)\n100% color(srgb-linear 0 1 0)\n";

/// What a line of a theme document is.
#[derive(Copy, Clone, Debug, PartialEq, Eq, Structural)]
pub enum LineKind {
    /// Nothing but white space.
    Blank,
    /// The heading of a state of charge.
    Section(ChargeState),
    /// Brackets around anything else.
    UnknownSection,
    /// Any other line: it has to be a stop.
    Stop,
}

/// Why a line is no stop.
#[derive(Copy, Clone, Debug, PartialEq, Eq, Structural)]
pub enum CssParseError {
    /// The line is no percentage followed by one or two colour values.
    InternalError,
    /// A colour value of the line cannot be used.
    Unsupported,
}

/// What became of one colour value.
#[derive(Copy, Clone, Debug, PartialEq, Eq)]
pub enum Converted {
    /// It cannot be used.
    Unsupported,
    /// It is this colour.
    Color(Color),
}

/// What was read from a line that should be a stop. A percentage that is
/// less than nothing or more than a hundred is no level, and a line that
/// begins with one is no stop.
#[derive(Copy, Clone, Debug, PartialEq, Eq)]
pub enum StopTokens {
    /// No percentage between nothing and a hundred, followed by one or two
    /// colour values.
    Malformed,
    /// A level, a foreground, and a background where one was written.
    Stop { level: Level, fg: Converted, bg: Option<Converted> },
}

/// A line of a theme document: its text, and what was read from it as a stop.
/// The latter counts only where the text is neither blank nor a heading.
#[derive(Debug)]
pub struct SourceLine {
    pub text: String,
    pub tokens: StopTokens,
}

/// The mathematical value of a line: what kind of line its text is, and the
/// stop that was read from it.
pub struct LineValue {
    pub kind: LineKind,
    pub stop: Result<StopValue, CssParseError>,
}

impl View for SourceLine {
    type V = LineValue;

    open spec fn view(&self) -> LineValue {
        LineValue { kind: line_kind(self.text@), stop: stop_of(self.tokens) }
    }
}

/// The values of the lines of a document.
pub open spec fn line_values(lines: Seq<SourceLine>) -> Seq<LineValue> {
    lines.map_values(|line: SourceLine| line@)
}

/// The state of charge that `name` names, in either case of its letters.
pub open spec fn section_named(name: Seq<char>) -> Option<ChargeState> {
    if spells(name, "charging"@) {
        Some(ChargeState::Charging)
    } else if spells(name, "nocharge"@) {
        Some(ChargeState::NoCharge)
    } else if spells(name, "discharging"@) {
        Some(ChargeState::Discharging)
    } else {
        None
    }
}

/// What kind of line `text` is. White space around the line, and around the
/// name between the brackets of a heading, does not count.
pub open spec fn line_kind(text: Seq<char>) -> LineKind {
    let line = trim(text);
    if line.len() == 0 {
        LineKind::Blank
    } else if line.len() >= 2 && line[0] == '[' && line.last() == ']' {
        match section_named(trim(line.subrange(1, line.len() - 1))) {
            Some(state) => LineKind::Section(state),
            None => LineKind::UnknownSection,
        }
    } else {
        LineKind::Stop
    }
}

/// The stop that `tokens` stand for. A background that was not written is the
/// foreground at half its lightness.
pub open spec fn stop_of(tokens: StopTokens) -> Result<StopValue, CssParseError> {
    match tokens {
        StopTokens::Malformed => Err(CssParseError::InternalError),
        StopTokens::Stop { level, fg: Converted::Unsupported, bg } => Err(
            CssParseError::Unsupported,
        ),
        StopTokens::Stop { level, fg: Converted::Color(fg), bg: Some(Converted::Unsupported) } => Err(
            CssParseError::Unsupported,
        ),
        StopTokens::Stop { level, fg: Converted::Color(fg), bg: Some(Converted::Color(bg)) } => Ok(
            StopValue { level: level@, fg: fg@, bg: bg@ },
        ),
        StopTokens::Stop { level, fg: Converted::Color(fg), bg: None } => Ok(
            StopValue { level: level@, fg: fg@, bg: darken(fg@) },
        ),
    }
}

/// The state of charge whose gradient is open after the first `n` lines: that
/// of the last heading among them.
pub open spec fn section_before(lines: Seq<LineValue>, n: int) -> Option<ChargeState>
    decreases n,
{
    if n <= 0 {
        None
    } else {
        match lines[n - 1].kind {
            LineKind::Section(state) => Some(state),
            _ => section_before(lines, n - 1),
        }
    }
}

/// What is wrong with line `i`, counted from nought, if anything is.
pub open spec fn fault_at(lines: Seq<LineValue>, i: int) -> Option<ThemeError> {
    let line = (i + 1) as usize;
    match lines[i].kind {
        LineKind::Blank => None,
        LineKind::Section(_) => None,
        LineKind::UnknownSection => Some(ThemeError::InvalidSection { line }),
        LineKind::Stop => if section_before(lines, i) is None {
            Some(ThemeError::StopOutsideSection { line })
        } else {
            match lines[i].stop {
                Err(CssParseError::InternalError) => Some(ThemeError::InvalidStop { line }),
                Err(CssParseError::Unsupported) => Some(ThemeError::UnsupportedColor { line }),
                Ok(_) => None,
            }
        },
    }
}

/// What is wrong with the first of the first `n` lines that has a fault.
pub open spec fn first_fault(lines: Seq<LineValue>, n: int) -> Option<ThemeError>
    decreases n,
{
    if n <= 0 {
        None
    } else {
        match first_fault(lines, n - 1) {
            Some(e) => Some(e),
            None => fault_at(lines, n - 1),
        }
    }
}

/// The stops that the first `n` lines give to the gradient of `state`, in the
/// order of the lines.
pub open spec fn stops_in(lines: Seq<LineValue>, n: int, state: ChargeState) -> Seq<StopValue>
    decreases n,
{
    if n <= 0 {
        Seq::empty()
    } else {
        let before = stops_in(lines, n - 1, state);
        if lines[n - 1].kind == LineKind::Stop && section_before(lines, n - 1) == Some(state)
            && lines[n - 1].stop is Ok {
            before.push(lines[n - 1].stop->Ok_0)
        } else {
            before
        }
    }
}

/// The theme of a document, or what is wrong with it: the fault of the first
/// line that has one, and else the first state of charge that was given no
/// stop.
pub open spec fn loaded(lines: Seq<LineValue>) -> Result<ThemeValue, ThemeError> {
    let n = lines.len() as int;
    match first_fault(lines, n) {
        Some(e) => Err(e),
        None => assemble(
            stops_in(lines, n, ChargeState::Charging),
            stops_in(lines, n, ChargeState::NoCharge),
            stops_in(lines, n, ChargeState::Discharging),
        ),
    }
}

/// The fault that a document is refused for is the fault of a line, names
/// that line by its number counted from one, and no line before it has a
/// fault. Where no fault is reported, no line has one.
pub proof fn lemma_first_fault(lines: Seq<LineValue>, n: int)
    requires
        0 <= n <= lines.len() <= usize::MAX,
    ensures
        match first_fault(lines, n) {
            Some(e) => {
                &&& e.line() matches Some(line)
                &&& 1 <= line <= n
                &&& fault_at(lines, line - 1) == Some(e)
                &&& forall|j: int| 0 <= j < line - 1 ==> fault_at(lines, j) is None
            },
            None => forall|j: int| 0 <= j < n ==> fault_at(lines, j) is None,
        },
    decreases n,
{
    if n > 0 {
        lemma_first_fault(lines, n - 1);
    }
}

/// A fault among the first lines stays the fault of the document, whatever
/// follows.
pub proof fn lemma_fault_stays(lines: Seq<LineValue>, n: int, m: int)
    requires
        0 <= n <= m,
        first_fault(lines, n) is Some,
    ensures
        first_fault(lines, m) == first_fault(lines, n),
    decreases m - n,
{
    if n < m {
        lemma_fault_stays(lines, n, m - 1);
    }
}

/// What kind of line `text` is.
pub fn classify_line(text: &str) -> (kind: LineKind)
    ensures
        kind == line_kind(text@),
{
    let v = chars_of(text);
    assert(v@.subrange(0, v.len() as int) =~= text@);
    let (from, to) = trim_bounds(&v, 0, v.len());
    if from == to {
        return LineKind::Blank;
    }
    let ghost line = v@.subrange(from as int, to as int);
    assert(line[0] == v@[from as int]);
    assert(line.last() == v@[to - 1]);
    if to - from >= 2 && v[from] == '[' && v[to - 1] == ']' {
        let (a, b) = trim_bounds(&v, from + 1, to - 1);
        assert(line.subrange(1, line.len() - 1) =~= v@.subrange(from + 1, to - 1));
        if spells_word(&v, a, b, "charging") {
            LineKind::Section(ChargeState::Charging)
        } else if spells_word(&v, a, b, "nocharge") {
            LineKind::Section(ChargeState::NoCharge)
        } else if spells_word(&v, a, b, "discharging") {
            LineKind::Section(ChargeState::Discharging)
        } else {
            LineKind::UnknownSection
        }
    } else {
        LineKind::Stop
    }
}

impl StopTokens {
    /// The tokens of a line that reads as a percentage of `millionths` of
    /// the whole and one or two colour values: a stop where the percentage
    /// is a level, and malformed where it is not.
    pub fn new(millionths: i64, fg: Converted, bg: Option<Converted>) -> (tokens: StopTokens)
        ensures
            match tokens {
                StopTokens::Stop { level, fg: first, bg: second } => {
                    &&& 0 <= millionths <= FULL
                    &&& level@ == millionths
                    &&& first == fg
                    &&& second == bg
                },
                StopTokens::Malformed => millionths < 0 || millionths > FULL,
            },
    {
        match Level::from_millionths(millionths) {
            Some(level) => StopTokens::Stop { level, fg, bg },
            None => StopTokens::Malformed,
        }
    }
}

impl GradientStop {
    /// The stop that `tokens` stand for, or why they stand for none.
    pub fn parse_stop(tokens: &StopTokens) -> (r: Result<GradientStop, CssParseError>)
        ensures
            match r {
                Ok(stop) => stop_of(*tokens) == Ok::<StopValue, CssParseError>(stop@),
                Err(e) => stop_of(*tokens) == Err::<StopValue, CssParseError>(e),
            },
    {
        match *tokens {
            StopTokens::Malformed => Err(CssParseError::InternalError),
            StopTokens::Stop { level, fg, bg } => match fg {
                Converted::Unsupported => Err(CssParseError::Unsupported),
                Converted::Color(fg) => match bg {
                    None => Ok(GradientStop::new(level, fg, None)),
                    Some(Converted::Unsupported) => Err(CssParseError::Unsupported),
                    Some(Converted::Color(bg)) => Ok(GradientStop::new(level, fg, Some(bg))),
                },
            },
        }
    }
}

impl Theme {
    /// The theme that the lines of a document describe, or what is wrong with
    /// the document.
    pub fn load(lines: &Vec<SourceLine>) -> (r: Result<Theme, ThemeError>)
        ensures
            match r {
                Ok(theme) => theme@.wf() && loaded(line_values(lines@)) == Ok::<
                    ThemeValue,
                    ThemeError,
                >(theme@),
                Err(e) => loaded(line_values(lines@)) == Err::<ThemeValue, ThemeError>(e),
            },
    {
        let ghost all = line_values(lines@);
        let n = lines.len();
        let mut charging: Vec<GradientStop> = Vec::new();
        let mut no_charge: Vec<GradientStop> = Vec::new();
        let mut discharging: Vec<GradientStop> = Vec::new();
        let mut section: Option<ChargeState> = None;
        for i in 0..n
            invariant
                n == lines.len(),
                all == line_values(lines@),
                first_fault(all, i as int) is None,
                section == section_before(all, i as int),
                values(charging@) =~= stops_in(all, i as int, ChargeState::Charging),
                values(no_charge@) =~= stops_in(all, i as int, ChargeState::NoCharge),
                values(discharging@) =~= stops_in(all, i as int, ChargeState::Discharging),
        {
            let line = &lines[i];
            assert(all[i as int] == line@);
            let fault: Option<ThemeError> = match classify_line(line.text.as_str()) {
                LineKind::Blank => None,
                LineKind::Section(state) => {
                    section = Some(state);
                    None
                },
                LineKind::UnknownSection => Some(ThemeError::InvalidSection { line: i + 1 }),
                LineKind::Stop => match section {
                    None => Some(ThemeError::StopOutsideSection { line: i + 1 }),
                    Some(state) => match GradientStop::parse_stop(&line.tokens) {
                        Err(CssParseError::InternalError) => Some(
                            ThemeError::InvalidStop { line: i + 1 },
                        ),
                        Err(CssParseError::Unsupported) => Some(
                            ThemeError::UnsupportedColor { line: i + 1 },
                        ),
                        Ok(stop) => {
                            match state {
                                ChargeState::Charging => charging.push(stop),
                                ChargeState::NoCharge => no_charge.push(stop),
                                ChargeState::Discharging => discharging.push(stop),
                            }
                            None
                        },
                    },
                },
            };
            assert(fault == fault_at(all, i as int));
            if let Some(e) = fault {
                proof {
                    lemma_fault_stays(all, i + 1, n as int);
                }
                return Err(e);
            }
        }
        Theme::from_sections(charging, no_charge, discharging)
    }
}

} // verus!

//! Input lines: what of a line is read as a command, and which lines are
//! passed over.

use vstd::prelude::*;
use vstd::string::*;

use crate::text::opt_view;
use crate::text::trim;
use crate::text::trimmed;

verus! {

/// The text of a line that is read as a command: the line without the white
/// space around it, or nothing where that leaves it empty.
pub open spec fn line_text(raw: Seq<char>) -> Option<Seq<char>> {
    if trimmed(raw).len() == 0 {
        None
    } else {
        Some(trimmed(raw))
    }
}

/// Takes a line as it was read. A blank line gives `None`: it is passed over
/// and nothing is written for it. Any other line gives the text to read as a
/// command.
pub fn read_line(raw: &str) -> (r: Option<String>)
    ensures
        opt_view(r) == line_text(raw@),
{
    let text = trim(raw);
    if text.as_str().is_empty() {
        None
    } else {
        Some(text)
    }
}

/// What reading the next line of the input gave: a line, a failure to
/// read one, or the end of the input.
#[derive(Debug, PartialEq, Eq)]
pub enum Reading {
    Line { raw: String },
    Unreadable { error: String },
    End,
}

/// What the loop does about it: pass the line over, read it as a command,
/// or finish.
#[derive(Debug, PartialEq, Eq)]
pub enum Turn {
    Skip,
    Parse { text: String },
    Finish,
}

pub ghost enum TurnView {
    Skip,
    Parse { text: Seq<char> },
    Finish,
}

impl View for Turn {
    type V = TurnView;

    open spec fn view(&self) -> TurnView {
        match self {
            Turn::Skip => TurnView::Skip,
            Turn::Parse { text } => TurnView::Parse { text: text@ },
            Turn::Finish => TurnView::Finish,
        }
    }
}

/// The turn that a reading calls for. The loop finishes at the end of the
/// input only: a line that cannot be read is passed over like a blank one,
/// and every other line is read as a command.
pub open spec fn turn_for(reading: Reading) -> TurnView {
    match reading {
        Reading::Line { raw } => match line_text(raw@) {
            Some(text) => TurnView::Parse { text },
            None => TurnView::Skip,
        },
        Reading::Unreadable { .. } => TurnView::Skip,
        Reading::End => TurnView::Finish,
    }
}

/// Decides what the loop does about a reading.
pub fn take_reading(reading: Reading) -> (turn: Turn)
    ensures
        turn@ == turn_for(reading),
{
    match reading {
        Reading::Line { raw } => match read_line(raw.as_str()) {
            Some(text) => Turn::Parse { text },
            None => Turn::Skip,
        },
        Reading::Unreadable { .. } => Turn::Skip,
        Reading::End => Turn::Finish,
    }
}

} // verus!

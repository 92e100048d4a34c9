//! A check-in as a few lines of plain text, for a desk without a printer.

use vstd::prelude::*;

use crate::checkin_output::CheckinPrintable;
use crate::text::{center, centered};

verus! {

/// Shows check-ins as lines for the terminal. Made for trying things out.
#[derive(Debug, Clone, Copy, PartialEq, Eq)]
pub struct StdOutCheckinOutput;

/// How wide the lines are.
pub const WIDTH: usize = 40;

/// The lines for a badge: the event's name, its logo, then the attendee's
/// name and reference, each centred in `WIDTH` characters.
pub open spec fn banner(name: Seq<char>, reference: Seq<char>) -> Seq<Seq<char>> {
    seq![
        centered("HackNotts 24"@, WIDTH as nat),
        centered(" __   __   __     "@, WIDTH as nat),
        centered("|  |_|  |_|  |    "@, WIDTH as nat),
        centered("|            |    "@, WIDTH as nat),
        centered("'-----,      |    "@, WIDTH as nat),
        centered("      |      |    "@, WIDTH as nat),
        centered("   /  |  \\   |    "@, WIDTH as nat),
        centered("   \\  |  /   |    "@, WIDTH as nat),
        centered("      |      |    "@, WIDTH as nat),
        centered("      '------' "@, WIDTH as nat),
        centered(name, WIDTH as nat),
        centered(reference, WIDTH as nat),
    ]
}

/// The text of each line.
pub open spec fn texts(lines: Seq<String>) -> Seq<Seq<char>> {
    lines.map_values(|line: String| line@)
}

impl StdOutCheckinOutput {
    /// The lines to show for `checkin`, from the top.
    pub fn lines<P: CheckinPrintable>(&self, checkin: &P) -> (out: Vec<String>)
        ensures
            texts(out@) == banner(checkin.projection().name, checkin.projection().reference),
    {
        let name = checkin.name();
        let reference = checkin.reference();
        let mut out: Vec<String> = Vec::new();
        out.push(center("HackNotts 24", WIDTH));
        out.push(center(" __   __   __     ", WIDTH));
        out.push(center("|  |_|  |_|  |    ", WIDTH));
        out.push(center("|            |    ", WIDTH));
        out.push(center("'-----,      |    ", WIDTH));
        out.push(center("      |      |    ", WIDTH));
        out.push(center("   /  |  \\   |    ", WIDTH));
        out.push(center("   \\  |  /   |    ", WIDTH));
        out.push(center("      |      |    ", WIDTH));
        out.push(center("      '------' ", WIDTH));
        out.push(center(name.as_str(), WIDTH));
        out.push(center(reference.as_str(), WIDTH));
        assert(texts(out@) =~= banner(
            checkin.projection().name,
            checkin.projection().reference,
        ));
        out
    }
}

} // verus!

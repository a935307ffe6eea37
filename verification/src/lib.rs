use vstd::prelude::*;

pub mod command;
pub mod compass_direction;
pub mod table;
mod text;

verus! {

use crate::command::Command;
use crate::compass_direction::CompassDirection;
use crate::table::Table;

/// The mobile agent. It starts unplaced, at the sentinel position
/// `(-1, -1)`, and is bound for its whole life to one table, which it only
/// reads. Every command is applied candidate-then-commit: the full
/// prospective state is computed first and committed only if its position
/// lies on the table, so a rejected command changes nothing at all.
pub struct Robot<'t> {
    pub table: &'t Table,
    pub x: i64,
    pub y: i64,
    pub heading: CompassDirection,
}

impl<'t> Robot<'t> {
    /// The robot is placed once both coordinates are non-negative; before
    /// the first successful `Place` they sit at the sentinel `(-1, -1)`.
    pub open spec fn spec_placed(self) -> bool {
        self.x >= 0 && self.y >= 0
    }

    /// A placed robot stands on its table. `new` establishes this and
    /// `perform` preserves it; the sequence-level statement is
    /// `lemma_run_stays_on_table`.
    pub open spec fn spec_on_table(self) -> bool {
        self.spec_placed() ==> self.table.spec_contains(self.x as int, self.y as int)
    }

    /// The prospective next state for a command, before the boundary check:
    /// `Place` proposes its arguments, `Move` one step along the heading,
    /// `Left` and `Right` a quarter-turn in place, `Report` the state
    /// unchanged.
    pub open spec fn spec_candidate(self, c: Command) -> (int, int, CompassDirection) {
        match c {
            Command::Place(px, py, pd) => (px as int, py as int, pd),
            Command::Move => match self.heading {
                CompassDirection::North => (self.x as int, self.y as int + 1, self.heading),
                CompassDirection::East => (self.x as int + 1, self.y as int, self.heading),
                CompassDirection::South => (self.x as int, self.y as int - 1, self.heading),
                CompassDirection::West => (self.x as int - 1, self.y as int, self.heading),
            },
            Command::Left => (self.x as int, self.y as int, self.heading.spec_left()),
            Command::Right => (self.x as int, self.y as int, self.heading.spec_right()),
            Command::Report => (self.x as int, self.y as int, self.heading),
        }
    }

    /// The transition relation of the state machine: an unplaced robot
    /// ignores everything but `Place`; otherwise the candidate state is
    /// committed whole iff its position lies on the table, and discarded
    /// whole otherwise (a blocked `Move` does not even rotate).
    pub open spec fn spec_next(self, c: Command) -> Robot<'t> {
        if !self.spec_placed() && !(c is Place) {
            self
        } else {
            let (nx, ny, nh) = self.spec_candidate(c);
            if self.table.spec_contains(nx, ny) {
                Robot { x: nx as i64, y: ny as i64, heading: nh, ..self }
            } else {
                self
            }
        }
    }

    /// The text a `Report` emits: `X,Y,F` with the coordinates in base ten
    /// and the uppercase direction name, nothing else.
    pub open spec fn spec_report_line(self) -> Seq<char>
        recommends
            self.spec_placed(),
    {
        text::dec_rep(self.x as nat) + ","@ + text::dec_rep(self.y as nat) + ","@
            + self.heading.spec_name()
    }

    /// A new robot is unplaced, faces North and sits at the sentinel.
    pub fn new(table: &'t Table) -> (r: Robot<'t>)
        ensures
            r.table == table,
            r.x == -1,
            r.y == -1,
            r.heading == CompassDirection::North,
            !r.spec_placed(),
    {
        Robot { table, x: -1, y: -1, heading: CompassDirection::North }
    }

    pub fn is_placed(&self) -> (r: bool)
        ensures
            r == self.spec_placed(),
    {
        self.x >= 0 && self.y >= 0
    }

    pub fn get_x(&self) -> (r: i64)
        ensures
            r == self.x,
    {
        self.x
    }

    pub fn get_y(&self) -> (r: i64)
        ensures
            r == self.y,
    {
        self.y
    }

    pub fn get_heading(&self) -> (r: CompassDirection)
        ensures
            r == self.heading,
    {
        self.heading
    }

    /// The current state as report text. Only a placed robot reports, so
    /// both coordinates are non-negative here.
    pub fn report_line(&self) -> (r: String)
        requires
            self.spec_placed(),
        ensures
            r@ == self.spec_report_line(),
    {
        let mut out = text::to_decimal(self.x as u64);
        out.append(",");
        let y_digits = text::to_decimal(self.y as u64);
        out.append(y_digits.as_str());
        out.append(",");
        out.append(self.heading.name());
        out
    }

    /// Applies one command, as `spec_next` describes, and returns the text
    /// a `Report` emits; every other command, and a `Report` before the
    /// first successful `Place`, returns `None`. Total: no command ever
    /// fails or panics.
    pub fn perform(&mut self, command: Command) -> (output: Option<String>)
        ensures
            *final(self) == old(self).spec_next(command),
            (match output {
                Some(line) => command is Report && old(self).spec_placed() && line@ == old(
                    self,
                ).spec_report_line(),
                None => !(command is Report && old(self).spec_placed()),
            }),
    {
        if !self.is_placed() && !command.is_place() {
            return None;
        }
        let (cand, out): (Option<(i64, i64, CompassDirection)>, Option<String>) = match command {
            Command::Place(px, py, pd) => (Some((px, py, pd)), None),
            Command::Move => {
                let c = match self.heading {
                    CompassDirection::North => match self.y.checked_add(1) {
                        Some(ny) => Some((self.x, ny, self.heading)),
                        None => None,
                    },
                    CompassDirection::East => match self.x.checked_add(1) {
                        Some(nx) => Some((nx, self.y, self.heading)),
                        None => None,
                    },
                    CompassDirection::South => match self.y.checked_sub(1) {
                        Some(ny) => Some((self.x, ny, self.heading)),
                        None => None,
                    },
                    CompassDirection::West => match self.x.checked_sub(1) {
                        Some(nx) => Some((nx, self.y, self.heading)),
                        None => None,
                    },
                };
                (c, None)
            },
            Command::Left => (Some((self.x, self.y, self.heading.turned_left())), None),
            Command::Right => (Some((self.x, self.y, self.heading.turned_right())), None),
            Command::Report => (
                Some((self.x, self.y, self.heading)),
                Some(self.report_line()),
            ),
        };
        if let Some((nx, ny, nh)) = cand {
            if self.table.check_position(nx, ny) {
                self.x = nx;
                self.y = ny;
                self.heading = nh;
            }
        }
        out
    }
}

/// The state after a whole sequence of commands, applied in order.
pub open spec fn spec_run<'t>(r: Robot<'t>, cmds: Seq<Command>) -> Robot<'t>
    decreases cmds.len(),
{
    if cmds.len() == 0 {
        r
    } else {
        spec_run(r.spec_next(cmds[0]), cmds.subrange(1, cmds.len() as int))
    }
}

/// One step keeps a placed robot on its table: the candidate is committed
/// only after the boundary check.
pub proof fn lemma_next_stays_on_table<'t>(r: Robot<'t>, c: Command)
    requires
        r.spec_on_table(),
    ensures
        r.spec_next(c).spec_on_table(),
{
}

/// For every table and every command sequence, a robot that starts on its
/// table (a fresh one does) is never observed off it: once placed, its
/// position always satisfies the table's containment check.
pub proof fn lemma_run_stays_on_table<'t>(r: Robot<'t>, cmds: Seq<Command>)
    requires
        r.spec_on_table(),
    ensures
        spec_run(r, cmds).spec_on_table(),
    decreases cmds.len(),
{
    if cmds.len() > 0 {
        lemma_next_stays_on_table(r, cmds[0]);
        lemma_run_stays_on_table(r.spec_next(cmds[0]), cmds.subrange(1, cmds.len() as int));
    }
}

/// A step makes the robot placed exactly when it was placed already or the
/// command is a `Place` whose target lies on the table. In particular a
/// robot never reverts to unplaced, and stays unplaced until the first
/// successful `Place`.
pub proof fn lemma_next_placed_iff<'t>(r: Robot<'t>, c: Command)
    ensures
        r.spec_next(c).spec_placed() == (r.spec_placed() || (c matches Command::Place(px, py, _)
            && r.table.spec_contains(px as int, py as int))),
{
}

/// Once placed, placed forever, whatever commands follow.
pub proof fn lemma_run_placed_is_monotone<'t>(r: Robot<'t>, cmds: Seq<Command>)
    requires
        r.spec_placed(),
    ensures
        spec_run(r, cmds).spec_placed(),
    decreases cmds.len(),
{
    if cmds.len() > 0 {
        lemma_next_placed_iff(r, cmds[0]);
        lemma_run_placed_is_monotone(r.spec_next(cmds[0]), cmds.subrange(1, cmds.len() as int));
    }
}

/// A sequence without any `Place` command leaves an unplaced robot
/// unplaced (and, by `spec_next`, entirely unchanged).
pub proof fn lemma_run_unplaced_without_place<'t>(r: Robot<'t>, cmds: Seq<Command>)
    requires
        !r.spec_placed(),
        forall|i: int| 0 <= i < cmds.len() ==> !(cmds[i] is Place),
    ensures
        spec_run(r, cmds) == r,
    decreases cmds.len(),
{
    if cmds.len() > 0 {
        lemma_run_unplaced_without_place(r, cmds.subrange(1, cmds.len() as int));
    }
}

/// Four quarter-turns to the left restore the robot exactly, heading and
/// position alike, from any state.
pub proof fn lemma_four_lefts_restore<'t>(r: Robot<'t>)
    ensures
        spec_run(r, seq![Command::Left, Command::Left, Command::Left, Command::Left]) == r,
{
    let cmds = seq![Command::Left, Command::Left, Command::Left, Command::Left];
    lemma_four_turns_unfold(r, cmds);
}

/// Four quarter-turns to the right restore the robot exactly, heading and
/// position alike, from any state.
pub proof fn lemma_four_rights_restore<'t>(r: Robot<'t>)
    ensures
        spec_run(r, seq![Command::Right, Command::Right, Command::Right, Command::Right]) == r,
{
    let cmds = seq![Command::Right, Command::Right, Command::Right, Command::Right];
    lemma_four_turns_unfold(r, cmds);
}

proof fn lemma_four_turns_unfold<'t>(r: Robot<'t>, cmds: Seq<Command>)
    requires
        cmds.len() == 4,
    ensures
        spec_run(r, cmds) == r.spec_next(cmds[0]).spec_next(cmds[1]).spec_next(cmds[2]).spec_next(
            cmds[3],
        ),
{
    reveal_with_fuel(spec_run, 5);
    let c1 = cmds.subrange(1, 4);
    let c2 = c1.subrange(1, 3);
    let c3 = c2.subrange(1, 2);
    let c4 = c3.subrange(1, 1);
    assert(c4 =~= Seq::<Command>::empty());
    assert(c1.subrange(1, 3) == c2 && c2.subrange(1, 2) == c3 && c3.subrange(1, 1) == c4);
    assert(c1[0] == cmds[1] && c2[0] == cmds[2] && c3[0] == cmds[3]);
}

/// `Report` never mutates state: it is a stutter step of the machine.
pub proof fn lemma_report_is_stutter<'t>(r: Robot<'t>)
    ensures
        r.spec_next(Command::Report) == r,
{
}

/// Any number of `Report`s slipped in front of a sequence leaves the
/// outcome of the sequence identical.
pub proof fn lemma_report_leaves_run_unchanged<'t>(r: Robot<'t>, cmds: Seq<Command>)
    ensures
        spec_run(r, seq![Command::Report] + cmds) == spec_run(r, cmds),
{
    let with_report = seq![Command::Report] + cmds;
    assert(with_report.subrange(1, with_report.len() as int) =~= cmds);
    lemma_report_is_stutter(r);
}

/// Boundary rejection: a command whose candidate position is off the table
/// leaves the state exactly as it was, heading included.
pub proof fn lemma_off_table_candidate_rejected<'t>(r: Robot<'t>, c: Command)
    requires
        ({
            let (nx, ny, nh) = r.spec_candidate(c);
            !r.table.spec_contains(nx, ny)
        }),
    ensures
        r.spec_next(c) == r,
{
}

} // verus!


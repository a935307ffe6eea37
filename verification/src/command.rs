use vstd::prelude::*;

verus! {

use crate::compass_direction::CompassDirection;
use crate::text;

/// The closed vocabulary of instructions the robot understands. Values are
/// produced only by parsing an input line and are immutable afterwards.
#[derive(Clone, Copy, PartialEq, Eq, Structural, Debug)]
pub enum Command {
    Place(i64, i64, CompassDirection),
    Move,
    Left,
    Right,
    Report,
}

impl Command {
    pub fn is_place(&self) -> (r: bool)
        ensures
            r == (*self is Place),
    {
        match *self {
            Command::Place(_, _, _) => true,
            _ => false,
        }
    }

    /// The argument list of a `PLACE` command: exactly three comma-separated
    /// fields, a signed integer X, a signed integer Y and a direction name,
    /// each parsed exactly. If any field fails, the whole command fails.
    pub open spec fn spec_parse_place_args(args: Seq<char>) -> Option<Command> {
        let c1 = text::find_first(args, ',');
        if c1 < 0 {
            None
        } else {
            let f1 = args.subrange(0, c1);
            let rest = args.subrange(c1 + 1, args.len() as int);
            let c2 = text::find_first(rest, ',');
            if c2 < 0 {
                None
            } else {
                let f2 = rest.subrange(0, c2);
                let f3 = rest.subrange(c2 + 1, rest.len() as int);
                if text::find_first(f3, ',') >= 0 {
                    None
                } else {
                    match (
                        text::parse_i64_spec(f1),
                        text::parse_i64_spec(f2),
                        CompassDirection::spec_parse(f3),
                    ) {
                        (Some(x), Some(y), Some(d)) => Some(Command::Place(x, y, d)),
                        _ => None,
                    }
                }
            }
        }
    }

    /// A trimmed line split into a verb and an optional remainder. `PLACE`
    /// needs the remainder as its argument list; the four bare verbs ignore
    /// it; any other verb fails.
    pub open spec fn spec_parse_verb(verb: Seq<char>, rest: Option<Seq<char>>) -> Option<Command> {
        if verb == "PLACE"@ {
            match rest {
                Some(args) => Command::spec_parse_place_args(args),
                None => None,
            }
        } else if verb == "MOVE"@ {
            Some(Command::Move)
        } else if verb == "LEFT"@ {
            Some(Command::Left)
        } else if verb == "RIGHT"@ {
            Some(Command::Right)
        } else if verb == "REPORT"@ {
            Some(Command::Report)
        } else {
            None
        }
    }

    /// The command grammar: trim the line, split it at the first blank into
    /// a verb and an optional remainder, then read the verb. Parsing is
    /// case-sensitive and exact.
    pub open spec fn spec_parse(line: Seq<char>) -> Option<Command> {
        let t = text::trim_spec(line);
        let i = text::find_first(t, ' ');
        if i < 0 {
            Command::spec_parse_verb(t, None)
        } else {
            Command::spec_parse_verb(
                t.subrange(0, i),
                Some(t.subrange(i + 1, t.len() as int)),
            )
        }
    }

    /// Parses one input line into a command, exactly as `spec_parse`
    /// describes; `None` is the parse failure the caller reports.
    pub fn parse(line: &str) -> (r: Option<Command>)
        ensures
            r == Command::spec_parse(line@),
    {
        let t = text::trim(line);
        let n = t.unicode_len();
        let (verb, rest): (&str, Option<&str>) = match text::find_char(t, ' ') {
            Some(i) => (t.substring_char(0, i), Some(t.substring_char(i + 1, n))),
            None => (t, None),
        };
        if text::str_eq(verb, "PLACE") {
            match rest {
                Some(args) => Self::parse_place_args(args),
                None => None,
            }
        } else if text::str_eq(verb, "MOVE") {
            Some(Command::Move)
        } else if text::str_eq(verb, "LEFT") {
            Some(Command::Left)
        } else if text::str_eq(verb, "RIGHT") {
            Some(Command::Right)
        } else if text::str_eq(verb, "REPORT") {
            Some(Command::Report)
        } else {
            None
        }
    }

    fn parse_place_args(args: &str) -> (r: Option<Command>)
        ensures
            r == Command::spec_parse_place_args(args@),
    {
        let n = args.unicode_len();
        let c1 = match text::find_char(args, ',') {
            Some(i) => i,
            None => {
                return None;
            },
        };
        let f1 = args.substring_char(0, c1);
        let rest = args.substring_char(c1 + 1, n);
        let m = rest.unicode_len();
        let c2 = match text::find_char(rest, ',') {
            Some(i) => i,
            None => {
                return None;
            },
        };
        let f2 = rest.substring_char(0, c2);
        let f3 = rest.substring_char(c2 + 1, m);
        if text::find_char(f3, ',').is_some() {
            return None;
        }
        let x = match text::parse_i64(f1) {
            Some(v) => v,
            None => {
                return None;
            },
        };
        let y = match text::parse_i64(f2) {
            Some(v) => v,
            None => {
                return None;
            },
        };
        match CompassDirection::parse(f3) {
            Some(d) => Some(Command::Place(x, y, d)),
            None => None,
        }
    }
}

} // verus!

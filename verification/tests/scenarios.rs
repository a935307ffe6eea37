use robot_with_rust::Robot;
use robot_with_rust::command::Command;
use robot_with_rust::compass_direction::CompassDirection;
use robot_with_rust::table::Table;

fn feed(robot: &mut Robot, line: &str) -> Option<String> {
    match Command::parse(line) {
        Some(command) => robot.perform(command),
        None => panic!("line did not parse: {}", line),
    }
}

#[test]
fn scenario_place_move_report() {
    let table = Table::new(5, 5);
    let mut robot = Robot::new(&table);
    assert_eq!(feed(&mut robot, "PLACE 0,0,NORTH"), None);
    assert_eq!(feed(&mut robot, "MOVE"), None);
    assert_eq!(feed(&mut robot, "REPORT"), Some(String::from("0,1,NORTH")));
}

#[test]
fn scenario_move_before_place_is_ignored() {
    let table = Table::new(5, 5);
    let mut robot = Robot::new(&table);
    assert_eq!(feed(&mut robot, "MOVE"), None);
    assert!(!robot.is_placed());
    // A report before the first successful place emits nothing either.
    assert_eq!(feed(&mut robot, "REPORT"), None);
}

#[test]
fn scenario_place_left_report() {
    let table = Table::new(5, 5);
    let mut robot = Robot::new(&table);
    assert_eq!(feed(&mut robot, "PLACE 1,2,EAST"), None);
    assert_eq!(feed(&mut robot, "LEFT"), None);
    assert_eq!(feed(&mut robot, "REPORT"), Some(String::from("1,2,NORTH")));
}

#[test]
fn scenario_move_off_bottom_edge_blocked() {
    let table = Table::new(5, 5);
    let mut robot = Robot::new(&table);
    assert_eq!(feed(&mut robot, "PLACE 0,0,SOUTH"), None);
    assert_eq!(feed(&mut robot, "MOVE"), None);
    assert_eq!(feed(&mut robot, "REPORT"), Some(String::from("0,0,SOUTH")));
}

#[test]
fn scenario_unrecognized_line_then_valid_commands() {
    let table = Table::new(5, 5);
    let mut robot = Robot::new(&table);
    // The driver reports "No command" on a parse failure; the library
    // signals it with None, and the robot is untouched.
    assert_eq!(Command::parse("JUMP"), None);
    assert!(!robot.is_placed());
    assert_eq!(feed(&mut robot, "PLACE 2,2,EAST"), None);
    assert_eq!(feed(&mut robot, "MOVE"), None);
    assert_eq!(feed(&mut robot, "REPORT"), Some(String::from("3,2,EAST")));
}

#[test]
fn scenario_place_then_report() {
    let table = Table::new(5, 5);
    let mut robot = Robot::new(&table);
    assert_eq!(feed(&mut robot, "PLACE 3,4,WEST"), None);
    assert_eq!(feed(&mut robot, "REPORT"), Some(String::from("3,4,WEST")));
}

#[test]
fn report_is_idempotent() {
    let table = Table::new(5, 5);
    let mut robot = Robot::new(&table);
    feed(&mut robot, "PLACE 2,3,EAST");
    let first = robot.perform(Command::Report);
    let second = robot.perform(Command::Report);
    let third = robot.perform(Command::Report);
    assert_eq!(first, Some(String::from("2,3,EAST")));
    assert_eq!(second, first);
    assert_eq!(third, first);
    robot.perform(Command::Move);
    assert_eq!(robot.perform(Command::Report), Some(String::from("3,3,EAST")));
}

#[test]
fn four_left_turns_restore_the_state() {
    let table = Table::new(5, 5);
    let mut robot = Robot::new(&table);
    robot.perform(Command::Place(2, 2, CompassDirection::East));
    for _ in 0..4 {
        robot.perform(Command::Left);
    }
    assert_eq!(robot.x, 2);
    assert_eq!(robot.y, 2);
    assert_eq!(robot.heading, CompassDirection::East);
}

#[test]
fn four_right_turns_restore_the_state() {
    let table = Table::new(5, 5);
    let mut robot = Robot::new(&table);
    robot.perform(Command::Place(2, 2, CompassDirection::South));
    for _ in 0..4 {
        robot.perform(Command::Right);
    }
    assert_eq!(robot.x, 2);
    assert_eq!(robot.y, 2);
    assert_eq!(robot.heading, CompassDirection::South);
}

#[test]
fn place_off_table_keeps_prior_placement() {
    let table = Table::new(5, 5);
    let mut robot = Robot::new(&table);
    robot.perform(Command::Place(1, 1, CompassDirection::North));
    robot.perform(Command::Place(9, 9, CompassDirection::South));
    assert_eq!(robot.x, 1);
    assert_eq!(robot.y, 1);
    assert_eq!(robot.heading, CompassDirection::North);
}

#[test]
fn place_off_table_keeps_robot_unplaced() {
    let table = Table::new(5, 5);
    let mut robot = Robot::new(&table);
    robot.perform(Command::Place(5, 5, CompassDirection::North));
    assert!(!robot.is_placed());
    robot.perform(Command::Place(-1, 0, CompassDirection::North));
    assert!(!robot.is_placed());
}

#[test]
fn report_renders_multidigit_coordinates() {
    let table = Table::new(100, 50);
    let mut robot = Robot::new(&table);
    robot.perform(Command::Place(34, 9, CompassDirection::East));
    let output = robot.perform(Command::Report);
    assert_eq!(output, Some(String::from("34,9,EAST")));
}

#[test]
fn parse_empty_line_fails() {
    assert_eq!(Command::parse(""), None);
    assert_eq!(Command::parse("   \n"), None);
}

#[test]
fn parse_is_case_sensitive_and_exact() {
    assert_eq!(Command::parse("move"), None);
    assert_eq!(Command::parse("MOVEX"), None);
    assert_eq!(Command::parse("PLACE 1,2,north"), None);
    assert_eq!(Command::parse("Report"), None);
}

#[test]
fn parse_bare_verbs_ignore_the_remainder() {
    assert_eq!(Command::parse("MOVE anything"), Some(Command::Move));
    assert_eq!(Command::parse("LEFT 1,2,NORTH"), Some(Command::Left));
    assert_eq!(Command::parse("REPORT please"), Some(Command::Report));
}

#[test]
fn parse_place_needs_exactly_three_fields() {
    assert_eq!(Command::parse("PLACE"), None);
    assert_eq!(Command::parse("PLACE "), None);
    assert_eq!(Command::parse("PLACE 1,2"), None);
    assert_eq!(Command::parse("PLACE 1,2,NORTH,EXTRA"), None);
    assert_eq!(Command::parse("PLACE 1,2,"), None);
    assert_eq!(Command::parse("PLACE ,2,NORTH"), None);
}

#[test]
fn parse_place_fields_are_parsed_exactly() {
    assert_eq!(Command::parse("PLACE a,2,NORTH"), None);
    assert_eq!(Command::parse("PLACE 1, 2,NORTH"), None);
    assert_eq!(Command::parse("PLACE  1,2,NORTH"), None);
    assert_eq!(Command::parse("PLACE +1,2,NORTH"), None);
    assert_eq!(Command::parse("PLACE 1,2,NORTH EXTRA"), None);
}

#[test]
fn parse_place_accepts_signed_integers() {
    assert_eq!(
        Command::parse("PLACE -1,2,NORTH"),
        Some(Command::Place(-1, 2, CompassDirection::North))
    );
    assert_eq!(
        Command::parse("PLACE 007,0,WEST"),
        Some(Command::Place(7, 0, CompassDirection::West))
    );
}

#[test]
fn parse_place_integer_range_is_i64() {
    assert_eq!(
        Command::parse("PLACE 9223372036854775807,0,NORTH"),
        Some(Command::Place(i64::MAX, 0, CompassDirection::North))
    );
    assert_eq!(Command::parse("PLACE 9223372036854775808,0,NORTH"), None);
    assert_eq!(
        Command::parse("PLACE -9223372036854775808,0,NORTH"),
        Some(Command::Place(i64::MIN, 0, CompassDirection::North))
    );
    assert_eq!(Command::parse("PLACE -9223372036854775809,0,NORTH"), None);
    assert_eq!(Command::parse("PLACE 99999999999999999999999,0,NORTH"), None);
}

#[test]
fn blocked_move_does_not_rotate() {
    let table = Table::new(5, 5);
    let mut robot = Robot::new(&table);
    robot.perform(Command::Place(0, 0, CompassDirection::West));
    robot.perform(Command::Move);
    assert_eq!(robot.heading, CompassDirection::West);
    assert_eq!((robot.x, robot.y), (0, 0));
}

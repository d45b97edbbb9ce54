use render_hex::artist::{Artist, Orientation};
use render_hex::decode::{parse, parse_byte, Operation};
use render_hex::interpret::{convert, interpret, Point};
use render_hex::{HEIGHT, HOME_X, HOME_Y};

fn points_of(input: &[u8]) -> Vec<Point> {
    interpret(input).points
}

#[test]
fn decode_digits_forward_distance() {
    for d in 1u8..=9 {
        let byte = b'0' + d;
        let expected = (d as isize) * (HEIGHT / 10);
        assert_eq!(parse_byte(byte), Operation::Forward(expected));
    }
    assert_eq!(parse_byte(b'1'), Operation::Forward(40));
    assert_eq!(parse_byte(b'9'), Operation::Forward(360));
}

#[test]
fn decode_home_and_turns() {
    assert_eq!(parse_byte(b'0'), Operation::Home);
    for byte in [b'a', b'b', b'c'] {
        assert_eq!(parse_byte(byte), Operation::TurnLeft);
    }
    for byte in [b'd', b'e', b'f'] {
        assert_eq!(parse_byte(byte), Operation::TurnRight);
    }
}

#[test]
fn decode_is_total_everything_else_is_noop() {
    assert_eq!(parse_byte(b'z'), Operation::Noop(b'z'));
    assert_eq!(parse_byte(b'g'), Operation::Noop(b'g'));
    assert_eq!(parse_byte(b'A'), Operation::Noop(b'A'));
    assert_eq!(parse_byte(0), Operation::Noop(0));
    assert_eq!(parse_byte(255), Operation::Noop(255));
    // every byte decodes to something; none panics
    for byte in 0u8..=255 {
        let _ = parse_byte(byte);
    }
}

#[test]
fn forward_follows_the_heading_axis_mapping() {
    // North increases y, South decreases y, West increases x, East decreases x
    let mut a = Artist::new();
    a.forward(10);
    assert_eq!((a.x, a.y), (200, 210));

    let mut a = Artist::new();
    a.turn_left(); // West
    a.forward(10);
    assert_eq!((a.x, a.y), (210, 200));

    let mut a = Artist::new();
    a.turn_right(); // East
    a.forward(10);
    assert_eq!((a.x, a.y), (190, 200));

    let mut a = Artist::new();
    a.turn_left();
    a.turn_left(); // South
    a.forward(10);
    assert_eq!((a.x, a.y), (200, 190));
}

#[test]
fn home_resets_position_and_keeps_heading() {
    let mut a = Artist::new();
    a.turn_right();
    a.forward(37);
    a.home();
    assert_eq!((a.x, a.y), (HOME_X, HOME_Y));
    assert_eq!(a.heading, Orientation::East);
}

#[test]
fn four_left_turns_close_the_cycle() {
    let mut a = Artist::new();
    let start = a.heading;
    a.turn_left();
    assert_eq!(a.heading, Orientation::West);
    a.turn_left();
    a.turn_left();
    a.turn_left();
    assert_eq!(a.heading, start);
}

#[test]
fn four_right_turns_close_the_cycle() {
    let mut a = Artist::new();
    a.turn_right(); // start the cycle away from North
    let start = a.heading;
    a.turn_right();
    a.turn_right();
    a.turn_right();
    a.turn_right();
    assert_eq!(a.heading, start);
}

#[test]
fn wrap_snaps_x_back_and_forces_heading() {
    let mut a = Artist::new();
    a.x = -5;
    a.wrap();
    assert_eq!((a.x, a.y), (HOME_X, HOME_Y));
    assert_eq!(a.heading, Orientation::West);

    let mut a = Artist::new();
    a.x = 405;
    a.wrap();
    assert_eq!(a.x, HOME_X);
    assert_eq!(a.heading, Orientation::East);
}

#[test]
fn wrap_snaps_y_back_and_forces_heading() {
    let mut a = Artist::new();
    a.y = -1;
    a.wrap();
    assert_eq!((a.x, a.y), (HOME_X, HOME_Y));
    assert_eq!(a.heading, Orientation::North);

    let mut a = Artist::new();
    a.y = 500;
    a.wrap();
    assert_eq!(a.y, HOME_Y);
    assert_eq!(a.heading, Orientation::South);
}

#[test]
fn wrap_y_check_decides_heading_when_both_axes_fire() {
    // the documented quirk: the y check runs after the x check
    let mut a = Artist::new();
    a.x = -5;
    a.y = 500;
    a.wrap();
    assert_eq!((a.x, a.y), (HOME_X, HOME_Y));
    assert_eq!(a.heading, Orientation::South);
}

#[test]
fn wrap_leaves_in_bounds_state_alone() {
    let mut a = Artist::new();
    a.x = 0;
    a.y = 400;
    a.turn_left();
    a.wrap();
    assert_eq!((a.x, a.y), (0, 400));
    assert_eq!(a.heading, Orientation::West);
}

#[test]
fn interpreter_emits_one_point_per_byte_plus_home() {
    assert_eq!(points_of(b"").len(), 1);
    assert_eq!(points_of(b"1").len(), 2);
    assert_eq!(points_of(b"0123456789abcdefz").len(), 18);
    assert_eq!(points_of(b"zzzz").len(), 5);
}

#[test]
fn empty_input_draws_only_the_home_point() {
    assert_eq!(points_of(b""), vec![Point { x: 200, y: 200 }]);
}

#[test]
fn partitioned_decoding_reassembled_by_index_matches_sequential() {
    // two "workers", one taking even indices and one taking odd ones,
    // reassembled by original index: same operations as one worker
    let input = b"0123456789abcdefzxy!";
    let sequential = parse(input);

    let mut reassembled = vec![Operation::Noop(0); input.len()];
    for (i, &byte) in input.iter().enumerate().filter(|(i, _)| i % 2 == 0) {
        reassembled[i] = parse_byte(byte);
    }
    for (i, &byte) in input.iter().enumerate().filter(|(i, _)| i % 2 == 1) {
        reassembled[i] = parse_byte(byte);
    }
    assert_eq!(sequential, reassembled);
}

#[test]
fn end_to_end_digit_one() {
    // "1" decodes to Forward(40); heading North increases y
    assert_eq!(parse(b"1"), vec![Operation::Forward(40)]);
    assert_eq!(
        points_of(b"1"),
        vec![Point { x: 200, y: 200 }, Point { x: 200, y: 240 }]
    );
}

#[test]
fn end_to_end_turn_left_keeps_position() {
    assert_eq!(parse(b"a"), vec![Operation::TurnLeft]);
    assert_eq!(
        points_of(b"a"),
        vec![Point { x: 200, y: 200 }, Point { x: 200, y: 200 }]
    );
    // the heading change itself, at the state machine level
    let mut a = Artist::new();
    assert_eq!(a.heading, Orientation::North);
    a.turn_left();
    assert_eq!(a.heading, Orientation::West);
}

#[test]
fn end_to_end_repeated_nines_trigger_wraparound() {
    let points = points_of(b"9999999999");
    assert_eq!(points.len(), 11);
    // 200 + 360 leaves the canvas: the recorded point is out of bounds,
    // then the wraparound snaps y home and flips the heading, so the
    // points alternate between the two overshoots
    assert_eq!(points[0], Point { x: 200, y: 200 });
    for i in 0..10 {
        let expected = if i % 2 == 0 {
            Point { x: 200, y: 560 }
        } else {
            Point { x: 200, y: -160 }
        };
        assert_eq!(points[i + 1], expected);
    }
}

#[test]
fn end_to_end_noop_emits_one_diagnostic_and_holds_position() {
    let sketch = convert(parse(b"z"));
    assert_eq!(
        sketch.points,
        vec![Point { x: 200, y: 200 }, Point { x: 200, y: 200 }]
    );
    assert_eq!(sketch.illegal, vec![b'z']);
}

#[test]
fn diagnostics_keep_input_order() {
    let sketch = convert(parse(b"x1y2z"));
    assert_eq!(sketch.illegal, vec![b'x', b'y', b'z']);
    assert_eq!(sketch.points.len(), 6);
}

#[test]
fn interpret_matches_decode_then_convert() {
    let input = b"0123456789abcdefzxy!";
    let piped = interpret(input);
    let staged = convert(parse(input));
    assert_eq!(piped.points, staged.points);
    assert_eq!(piped.illegal, staged.illegal);
}

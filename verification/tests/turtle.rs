use byte_turtle::canvas::Canvas;
use byte_turtle::decode::decode;
use byte_turtle::decode::decode_byte;
use byte_turtle::decode::unrecognized_bytes;
use byte_turtle::ops::Operation;
use byte_turtle::ops::Orientation;
use byte_turtle::pen::Pen;
use byte_turtle::sim::simulate;
use byte_turtle::sim::PathKind;
use byte_turtle::sim::PathPoint;

fn canvas400() -> Canvas {
    Canvas::new(400, 400)
}

fn mv(x: i64, y: i64) -> PathPoint {
    PathPoint { kind: PathKind::MoveTo, x, y }
}

fn ln(x: i64, y: i64) -> PathPoint {
    PathPoint { kind: PathKind::LineTo, x, y }
}

#[test]
fn decode_digit_distances() {
    let c = canvas400();
    for digit in 1u8..=9u8 {
        let expected = Operation::Advance(digit as i64 * 40);
        assert_eq!(decode_byte(&c, b'0' + digit), expected);
    }
}

#[test]
fn decode_full_table() {
    let c = canvas400();
    assert_eq!(decode_byte(&c, b'0'), Operation::Recenter);
    assert_eq!(decode_byte(&c, b'a'), Operation::TurnLeft);
    assert_eq!(decode_byte(&c, b'b'), Operation::TurnLeft);
    assert_eq!(decode_byte(&c, b'c'), Operation::TurnLeft);
    assert_eq!(decode_byte(&c, b'd'), Operation::TurnRight);
    assert_eq!(decode_byte(&c, b'e'), Operation::TurnRight);
    assert_eq!(decode_byte(&c, b'f'), Operation::TurnRight);
    assert_eq!(decode_byte(&c, b' '), Operation::Unrecognized(0x20));
    assert_eq!(decode_byte(&c, b'g'), Operation::Unrecognized(b'g'));
    assert_eq!(decode_byte(&c, 0xff), Operation::Unrecognized(0xff));
}

#[test]
fn decode_preserves_length_and_order() {
    let c = canvas400();
    let ops = decode(&c, b"1a2b3c");
    assert_eq!(
        ops,
        vec![
            Operation::Advance(40),
            Operation::TurnLeft,
            Operation::Advance(80),
            Operation::TurnLeft,
            Operation::Advance(120),
            Operation::TurnLeft,
        ]
    );
}

#[test]
fn decode_order_on_long_input() {
    // A longer input exercises the parallel workers; the result must still
    // be in input order, index by index.
    let c = canvas400();
    let mut input: Vec<u8> = Vec::new();
    for i in 0..10_000u64 {
        input.push(b'1' + (i % 9) as u8);
    }
    let ops = decode(&c, &input);
    assert_eq!(ops.len(), input.len());
    for i in 0..input.len() {
        let digit = (input[i] - b'0') as i64;
        assert_eq!(ops[i], Operation::Advance(digit * 40));
    }
}

#[test]
fn decode_scales_with_canvas_height() {
    let c = Canvas::new(100, 200);
    assert_eq!(decode_byte(&c, b'5'), Operation::Advance(100));
    let small = Canvas::new(5, 5);
    assert_eq!(decode_byte(&small, b'9'), Operation::Advance(0));
}

#[test]
fn simulate_example_159() {
    let c = canvas400();
    let ops = decode(&c, b"159");
    let points = simulate(&c, &ops);
    assert_eq!(points, vec![mv(200, 200), ln(200, 240), ln(200, 200), ln(200, 200)]);
}

#[test]
fn simulate_single_turn_left() {
    let c = canvas400();
    let ops = decode(&c, b"a");
    let points = simulate(&c, &ops);
    assert_eq!(points, vec![mv(200, 200), ln(200, 200)]);
    let mut pen = Pen::new(&c);
    assert_eq!(pen.heading, Orientation::North);
    pen.turn_left();
    assert_eq!(pen.heading, Orientation::West);
    assert_eq!((pen.x, pen.y), (200, 200));
}

#[test]
fn simulate_space_byte() {
    let c = canvas400();
    let ops = decode(&c, b" ");
    assert_eq!(ops, vec![Operation::Unrecognized(0x20)]);
    assert_eq!(unrecognized_bytes(&ops), vec![0x20]);
    let points = simulate(&c, &ops);
    assert_eq!(points, vec![mv(200, 200), ln(200, 200)]);
}

#[test]
fn unrecognized_bytes_in_order() {
    let c = canvas400();
    let ops = decode(&c, b"1 2\n3!");
    assert_eq!(unrecognized_bytes(&ops), vec![b' ', b'\n', b'!']);
    assert_eq!(unrecognized_bytes(&decode(&c, b"1234")), Vec::<u8>::new());
}

#[test]
fn simulate_all_zeros_stays_home() {
    let c = canvas400();
    let ops = decode(&c, b"0000");
    let points = simulate(&c, &ops);
    assert_eq!(points.len(), 5);
    for p in &points {
        assert_eq!((p.x, p.y), (200, 200));
    }
}

#[test]
fn simulate_length_is_input_plus_one() {
    let c = canvas400();
    for input in [&b""[..], b"1", b"159", b"abcdef", b"hello world", b"00112233"] {
        let ops = decode(&c, input);
        let points = simulate(&c, &ops);
        assert_eq!(points.len(), input.len() + 1);
    }
}

#[test]
fn simulate_empty_input() {
    let c = canvas400();
    let ops = decode(&c, b"");
    assert_eq!(simulate(&c, &ops), vec![mv(200, 200)]);
}

#[test]
fn turn_cycles_close() {
    let c = canvas400();
    let mut pen = Pen::new(&c);
    for _ in 0..4 {
        pen.turn_left();
    }
    assert_eq!(pen.heading, Orientation::North);
    for _ in 0..4 {
        pen.turn_right();
    }
    assert_eq!(pen.heading, Orientation::North);
    pen.turn_right();
    assert_eq!(pen.heading, Orientation::East);
}

#[test]
fn forward_axis_convention() {
    let c = canvas400();
    let mut pen = Pen::new(&c);
    pen.forward(10);
    assert_eq!((pen.x, pen.y), (200, 210)); // North increases y
    pen.heading = Orientation::South;
    pen.forward(10);
    assert_eq!((pen.x, pen.y), (200, 200)); // South decreases y
    pen.heading = Orientation::West;
    pen.forward(10);
    assert_eq!((pen.x, pen.y), (210, 200)); // West increases x
    pen.heading = Orientation::East;
    pen.forward(10);
    assert_eq!((pen.x, pen.y), (200, 200)); // East decreases x
}

#[test]
fn recenter_returns_home() {
    let c = canvas400();
    let ops = decode(&c, b"10");
    let points = simulate(&c, &ops);
    assert_eq!(points, vec![mv(200, 200), ln(200, 240), ln(200, 200)]);
}

#[test]
fn wrap_x_low() {
    let c = canvas400();
    let mut pen = Pen { x: -1, y: 100, heading: Orientation::East };
    pen.wrap(&c);
    assert_eq!(pen, Pen { x: 200, y: 100, heading: Orientation::West });
}

#[test]
fn wrap_x_high() {
    let c = canvas400();
    let mut pen = Pen { x: 401, y: 100, heading: Orientation::West };
    pen.wrap(&c);
    assert_eq!(pen, Pen { x: 200, y: 100, heading: Orientation::East });
}

#[test]
fn wrap_y_low() {
    let c = canvas400();
    let mut pen = Pen { x: 100, y: -5, heading: Orientation::South };
    pen.wrap(&c);
    assert_eq!(pen, Pen { x: 100, y: 200, heading: Orientation::North });
}

#[test]
fn wrap_y_high() {
    let c = canvas400();
    let mut pen = Pen { x: 100, y: 440, heading: Orientation::North };
    pen.wrap(&c);
    assert_eq!(pen, Pen { x: 100, y: 200, heading: Orientation::South });
}

#[test]
fn wrap_diagonal_y_overrides_x_heading() {
    // Both axes out of bounds in one step: the x-check assigns East, the
    // later y-check overrides it with North.
    let c = canvas400();
    let mut pen = Pen { x: 500, y: -3, heading: Orientation::South };
    pen.wrap(&c);
    assert_eq!(pen, Pen { x: 200, y: 200, heading: Orientation::North });
}

#[test]
fn wrap_boundary_values_stay_put() {
    let c = canvas400();
    let mut pen = Pen { x: 0, y: 400, heading: Orientation::West };
    pen.wrap(&c);
    assert_eq!(pen, Pen { x: 0, y: 400, heading: Orientation::West });
    let mut pen2 = Pen { x: 400, y: 0, heading: Orientation::East };
    pen2.wrap(&c);
    assert_eq!(pen2, Pen { x: 400, y: 0, heading: Orientation::East });
}

#[test]
fn simulate_wrap_emits_post_wrap_point() {
    // '9' advances 360 from home: y reaches 560, beyond the canvas, so the
    // emitted point is the wrapped one and the heading flips to South.
    let c = canvas400();
    let ops = decode(&c, b"99");
    let points = simulate(&c, &ops);
    // Second '9' then runs south from home down to y == -160, wrapping back.
    assert_eq!(points, vec![mv(200, 200), ln(200, 200), ln(200, 200)]);
}

#[test]
fn simulate_unrecognized_keeps_position() {
    let c = canvas400();
    let ops = decode(&c, b"1 1");
    let points = simulate(&c, &ops);
    assert_eq!(points, vec![mv(200, 200), ln(200, 240), ln(200, 240), ln(200, 280)]);
}

#[test]
fn odd_canvas_home_floors() {
    let c = Canvas::new(5, 7);
    let pen = Pen::new(&c);
    assert_eq!((pen.x, pen.y), (2, 3));
}

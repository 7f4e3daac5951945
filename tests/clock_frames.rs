use unix_clock::{frame_at, hand_angle, Clock, ClockFace, ClockHand, HandLine, Label, Rect, TimeDigits, WindowSize};

fn digits(s: &str) -> TimeDigits {
    TimeDigits::from_bytes(s.as_bytes()).expect("decimal digits")
}

fn size(width: u32, height: u32) -> WindowSize {
    WindowSize { width, height }
}

#[test]
fn end_to_end_hand_zero_in_square_window() {
    let d = digits("1234567890");
    let s = size(500, 500);
    let line = ClockHand::new(0).draw(&s, &d).expect("hand is drawn");
    assert_eq!(line, HandLine { position: 0, from_x: 250, from_y: 250, angle: 4428, length: 50 });
    let theta = (line.angle as f64 / 100.0).to_radians();
    let x = line.from_x as f64 + line.length as f64 * theta.sin();
    let y = line.from_y as f64 - line.length as f64 * theta.cos();
    assert!((x - 284.9).abs() < 0.05, "x = {}", x);
    assert!((y - 214.2).abs() < 0.05, "y = {}", y);
}

#[test]
fn refining_digit_past_the_end_counts_as_zero() {
    let d = digits("1234567890");
    assert_eq!(d.len(), 10);
    assert_eq!(hand_angle(&d, 8), Some(3600 * 9));
    assert_eq!(hand_angle(&d, 9), Some(0));
    assert_eq!(hand_angle(&d, 10), None);
    let frame = Clock::new(&size(500, 500)).draw(&size(500, 500), &d);
    assert_eq!(frame.hands.len(), 10);
    assert_eq!(frame.hands[8].angle, 32400);
    assert_eq!(frame.hands[8].length, 210);
}

#[test]
fn hand_past_a_short_snapshot_is_skipped() {
    let d = digits("123");
    let frame = Clock::new(&size(500, 500)).draw(&size(500, 500), &d);
    let positions: Vec<u8> = frame.hands.iter().map(|h| h.position).collect();
    assert_eq!(positions, vec![0, 1, 2]);
    assert_eq!(frame.hands[1].angle, 3600 * 2 + 360 * 3);
}

#[test]
fn face_fills_window_and_labels_fit() {
    for (w, h) in [(41u32, 41u32), (500, 500), (640, 480), (100, 900)] {
        let s = size(w, h);
        let face = ClockFace::new(&s);
        let drawing = face.draw(&s);
        assert_eq!(drawing.ring, Rect { x: 0, y: 0, width: w, height: h });
        assert_eq!(drawing.labels.len(), 10);
        let r = drawing.label_radius as f64;
        for label in &drawing.labels {
            let theta = (label.angle as f64 / 100.0).to_radians();
            let x = drawing.center_x as f64 + r * theta.sin();
            let y = drawing.center_y as f64 - r * theta.cos();
            assert!(x >= 0.0 && x <= w as f64 && y >= 0.0 && y <= h as f64);
        }
    }
}

#[test]
fn labels_go_clockwise_from_twelve() {
    let drawing = ClockFace::new(&size(500, 500)).draw(&size(500, 500));
    assert_eq!(drawing.label_radius, 230);
    assert_eq!((drawing.center_x, drawing.center_y), (250, 250));
    assert_eq!(drawing.labels[0], Label { digit: 0, angle: 0 });
    assert_eq!(drawing.labels[3], Label { digit: 3, angle: 10800 });
    assert_eq!(drawing.labels[9], Label { digit: 9, angle: 32400 });
}

#[test]
fn label_radius_uses_shorter_side_and_stops_at_zero() {
    assert_eq!(ClockFace::label_radius(&size(640, 480)), 220);
    assert_eq!(ClockFace::label_radius(&size(30, 500)), 0);
    assert_eq!(ClockFace::label_radius(&size(40, 40)), 0);
}

#[test]
fn all_zero_digits_point_up() {
    let d = digits("000");
    assert_eq!(hand_angle(&d, 0), Some(0));
    let d = digits("1000");
    assert_eq!(hand_angle(&d, 1), Some(0));
}

#[test]
fn angles_stay_below_a_full_turn() {
    let d = digits("99999");
    assert_eq!(hand_angle(&d, 0), Some(35964));
    for p in 0..5usize {
        assert!(hand_angle(&d, p).unwrap() < 36000);
    }
}

#[test]
fn second_digit_sweeps_forward_within_one_step() {
    let base = hand_angle(&digits("307"), 0).unwrap();
    let mut last = base;
    for second in 0..10u8 {
        let s = format!("3{}7", second);
        let a = hand_angle(&digits(&s), 0).unwrap();
        assert!(a >= last);
        assert!(a - base <= 3600);
        assert_eq!(a - base, 360 * second as u32);
        last = a;
    }
}

#[test]
fn drawing_twice_gives_the_same_frame() {
    let s = size(500, 500);
    let d = digits("1760000000123");
    let clock = Clock::new(&s);
    let first = clock.draw(&s, &d);
    let second = clock.draw(&s, &d);
    assert_eq!(first, second);
    assert_eq!(frame_at(&s, 1760000000123), frame_at(&s, 1760000000123));
    assert_eq!(frame_at(&s, 1760000000123), first);
}

#[test]
fn count_is_written_in_decimal() {
    assert_eq!(TimeDigits::from_count(0).len(), 1);
    let d = TimeDigits::from_count(1234567890);
    assert_eq!(d.len(), 10);
    assert_eq!(d.digit_or_zero(0), 1);
    assert_eq!(d.digit_or_zero(9), 0);
    assert_eq!(d.digit_or_zero(10), 0);
    assert_eq!(hand_angle(&d, 0), Some(4428));
    assert_eq!(TimeDigits::from_count(u64::MAX).len(), 20);
}

#[test]
fn non_digit_bytes_are_refused() {
    assert!(TimeDigits::from_bytes(b"12a4").is_none());
    assert!(TimeDigits::from_bytes(b"-1").is_none());
    assert!(TimeDigits::from_bytes(b"").is_some());
    assert_eq!(hand_angle(&digits(""), 0), None);
}

#[test]
fn clock_has_ten_hands_in_order() {
    let clock = Clock::new(&size(300, 200));
    assert_eq!(clock.clock_face.clock_circle_coords, Rect { x: 0, y: 0, width: 300, height: 200 });
    let positions: Vec<u8> = clock.clock_hands.iter().map(|h| h.position).collect();
    assert_eq!(positions, (0..10).collect::<Vec<u8>>());
    assert_eq!(ClockHand::new(4).length(), 130);
}

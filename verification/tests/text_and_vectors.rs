use kik_pok::text::{char_is_whitespace, to_decimal, trim};
use kik_pok::utils::converter::{Direction, PlayerState, Positioning, FULL_AXIS};
use kik_pok::vector::{clamp_to_i32, product_over, DbVector2, Vector2, UNITS_PER_PIXEL};

#[test]
fn trim_agrees_with_the_standard_library() {
    let samples = [
        "",
        " ",
        "a",
        "  a",
        "a  ",
        "  a b  ",
        "\t\n\r\u{b}\u{c} x \u{85}\u{a0}",
        "\u{1680}\u{2000}\u{2001}\u{2002}\u{2003}\u{2004}\u{2005}mid\u{2006}\u{2007}\u{2008}\u{2009}\u{200a}",
        "\u{2028}\u{2029}\u{202f}\u{205f}\u{3000}z\u{3000}",
        "\u{200b}not white\u{200b}",
        "\u{180e}neither\u{feff}",
        "   \u{e4}\u{f6}\u{fc}  ",
        " \u{1f600} ",
    ];
    for sample in samples {
        assert_eq!(trim(sample), sample.trim(), "for {:?}", sample);
    }
}

#[test]
fn white_space_is_what_the_standard_library_calls_white_space() {
    for code in 0..=0x3100u32 {
        if let Some(c) = char::from_u32(code) {
            assert_eq!(char_is_whitespace(c), c.is_whitespace(), "for U+{:04X}", code);
        }
    }
    assert!(!char_is_whitespace('\u{feff}'));
    assert!(!char_is_whitespace('\u{10ffff}'));
}

#[test]
fn numbers_are_written_in_decimal() {
    for n in [0u64, 1, 9, 10, 11, 99, 100, 101, 12_345, 1_000_000, u64::MAX - 1, u64::MAX] {
        assert_eq!(to_decimal(n), n.to_string());
    }
    assert_eq!(to_decimal(18_446_744_073_709_551_615), "18446744073709551615");
}

#[test]
fn a_pixel_has_a_thousand_steps() {
    assert_eq!(UNITS_PER_PIXEL, 1000);
}

#[test]
fn squared_distance_is_exact() {
    let origin = Vector2::new(0, 0);
    assert_eq!(origin.distance_squared_to(Vector2::new(3_000, -4_000)), 25_000_000);
    assert_eq!(Vector2::new(5, 5).distance_squared_to(Vector2::new(5, 5)), 0);
    let corner = Vector2::new(i32::MIN, i32::MIN);
    let opposite = Vector2::new(i32::MAX, i32::MAX);
    let side: i128 = (1i128 << 32) - 1;
    assert_eq!(corner.distance_squared_to(opposite), 2 * side * side);
    assert_eq!(opposite.distance_squared_to(corner), 2 * side * side);
}

#[test]
fn vertical_distance_is_the_gap_in_height() {
    assert_eq!(Vector2::new(9, 10).vertical_distance_to(Vector2::new(-9, 4)), 6);
    assert_eq!(Vector2::new(9, -10).vertical_distance_to(Vector2::new(-9, 4)), 14);
    assert_eq!(
        Vector2::new(0, i32::MIN).vertical_distance_to(Vector2::new(0, i32::MAX)),
        (1i64 << 32) - 1
    );
}

#[test]
fn products_are_rounded_toward_zero() {
    assert_eq!(product_over(7, 50, 1000), 0);
    assert_eq!(product_over(-7, 50, 1000), 0);
    assert_eq!(product_over(1999, 50, 1000), 99);
    assert_eq!(product_over(-1999, 50, 1000), -99);
    assert_eq!(product_over(-3, -500, 1000), 1);
    assert_eq!(product_over(i64::MIN, i64::MIN, 1), 1i128 << 126);
}

#[test]
fn clamping_keeps_what_fits() {
    assert_eq!(clamp_to_i32(0), 0);
    assert_eq!(clamp_to_i32(-5), -5);
    assert_eq!(clamp_to_i32(i32::MAX as i128), i32::MAX);
    assert_eq!(clamp_to_i32(i32::MAX as i128 + 1), i32::MAX);
    assert_eq!(clamp_to_i32(i32::MIN as i128 - 1), i32::MIN);
    assert_eq!(clamp_to_i32(i128::MIN), i32::MIN);
}

#[test]
fn vectors_convert_between_their_two_shapes() {
    assert_eq!(DbVector2::from(Vector2::new(1, -2)), DbVector2::new(1, -2));
    assert_eq!(Vector2::from(DbVector2::new(-3, 4)), Vector2::new(-3, 4));
    let there_and_back: Vector2 = DbVector2::from(Vector2::new(7, 8)).into();
    assert_eq!(there_and_back, Vector2::new(7, 8));
}

#[test]
fn a_pose_is_sent_with_the_side_of_its_axis() {
    let state = |direction: i32| PlayerState {
        position: Vector2::new(1_500, -2_500),
        direction,
        is_on_floor: true,
    };
    assert_eq!(
        state(300).to_positioning(),
        Positioning {
            coordinates: DbVector2::new(1_500, -2_500),
            direction: Direction::Right,
            in_on_floor: true
        }
    );
    assert_eq!(state(-1).to_positioning().direction, Direction::Left);
    assert_eq!(state(0).to_positioning().direction, Direction::Neutral);
    assert_eq!(Positioning::from_player_state(&state(-1000)), state(-1000).to_positioning());
}

#[test]
fn a_received_pose_pushes_the_axis_all_the_way() {
    let positioning = |direction: Direction| Positioning {
        coordinates: DbVector2::new(4, 5),
        direction,
        in_on_floor: false,
    };
    assert_eq!(FULL_AXIS, 1000);
    assert_eq!(
        PlayerState::from_positioning(&positioning(Direction::Left)),
        PlayerState { position: Vector2::new(4, 5), direction: -1000, is_on_floor: false }
    );
    assert_eq!(positioning(Direction::Right).to_player_state().direction, 1000);
    assert_eq!(positioning(Direction::Neutral).to_player_state().direction, 0);
    for direction in [Direction::Left, Direction::Right, Direction::Neutral] {
        let sent_on = positioning(direction).to_player_state().to_positioning();
        assert_eq!(sent_on, positioning(direction));
    }
}

use kik_pok::characters::basic_player::{BasicPlayer, BodyState};
use kik_pok::characters::player_animation::{PlayerAnimation, SpriteUpdate};
use kik_pok::characters::remote_player::{
    RemotePlayerNode, RemoteState, CORRECTION_DEADBAND, DEADBAND_FRAME_THRESHOLD,
    MAX_CORRECTION_DISTANCE, PLAYER_SCENE_PATH, POSITION_CORRECTION_STRENGTH,
    VERTICAL_DIFF_FRAME_THRESHOLD, VERTICAL_DIFF_THRESHOLD,
};
use kik_pok::identity::Identity;
use kik_pok::server::elements::{DBPlayerState, DbPlayer};
use kik_pok::vector::{DbVector2, Vector2};

fn report_at(x: i32, y: i32) -> RemoteState {
    RemoteState { position: Vector2::new(x, y), direction: 0, is_jumping: false }
}

fn walking_report_at(x: i32, y: i32) -> RemoteState {
    RemoteState { position: Vector2::new(x, y), direction: 1, is_jumping: false }
}

fn resting_body(position: Vector2) -> BodyState {
    BodyState {
        position,
        velocity: Vector2::new(0, 0),
        is_on_floor: true,
        gravity: Vector2::new(0, 980_000),
        platform_velocity: Vector2::new(0, 0),
    }
}

#[test]
fn the_constants_are_those_of_the_game() {
    assert_eq!(POSITION_CORRECTION_STRENGTH, 50);
    assert_eq!(MAX_CORRECTION_DISTANCE, 100_000);
    assert_eq!(CORRECTION_DEADBAND, 1_000);
    assert_eq!(VERTICAL_DIFF_FRAME_THRESHOLD, 10);
    assert_eq!(DEADBAND_FRAME_THRESHOLD, 60);
    assert_eq!(VERTICAL_DIFF_THRESHOLD, 3_000);
    assert_eq!(PLAYER_SCENE_PATH, "res://scenes/characters/remote_player.tscn");
}

#[test]
fn an_avatar_far_from_the_report_snaps_in_one_tick() {
    let mut node = RemotePlayerNode::new();
    let corrected =
        node.apply_position_correction(Vector2::new(0, 0), &report_at(200_000, 0), false);
    assert_eq!(corrected, Vector2::new(200_000, 0));
}

#[test]
fn a_far_snap_resets_both_counters() {
    let mut node = RemotePlayerNode::new();
    node.vertical_diff_frame_count = 4;
    node.deadband_frame_count = 33;
    let corrected =
        node.apply_position_correction(Vector2::new(0, 0), &walking_report_at(0, -100_001), true);
    assert_eq!(corrected, Vector2::new(0, -100_001));
    assert_eq!(node.vertical_diff_frame_count, 0);
    assert_eq!(node.deadband_frame_count, 0);
}

#[test]
fn the_greatest_corrected_distance_is_still_blended() {
    let mut node = RemotePlayerNode::new();
    // Exactly 100 units away: not beyond the limit.
    let corrected =
        node.apply_position_correction(Vector2::new(0, 0), &report_at(60_000, 80_000), false);
    assert_eq!(corrected, Vector2::new(3_000, 4_000));
    assert_eq!(node.deadband_frame_count, 1);
    // One step farther is beyond it.
    let mut other = RemotePlayerNode::new();
    let snapped =
        other.apply_position_correction(Vector2::new(0, 0), &report_at(60_000, 80_001), false);
    assert_eq!(snapped, Vector2::new(60_000, 80_001));
}

#[test]
fn one_tick_of_blending_moves_a_twentieth_of_the_way() {
    let mut node = RemotePlayerNode::new();
    let corrected =
        node.apply_position_correction(Vector2::new(0, 0), &report_at(10_000, 0), false);
    assert_eq!(corrected, Vector2::new(500, 0));
    assert_eq!(node.deadband_frame_count, 1);
    assert_eq!(node.vertical_diff_frame_count, 0);
}

#[test]
fn blending_rounds_toward_the_avatar() {
    let mut node = RemotePlayerNode::new();
    let right = node.apply_position_correction(Vector2::new(0, 0), &report_at(1_010, 0), false);
    assert_eq!(right, Vector2::new(50, 0));
    let left = node.apply_position_correction(Vector2::new(0, 0), &report_at(-1_010, 0), false);
    assert_eq!(left, Vector2::new(-50, 0));
    let both =
        node.apply_position_correction(Vector2::new(100, -100), &report_at(-1_939, 1_939), false);
    assert_eq!(both, Vector2::new(-1, 1));
}

#[test]
fn blending_stops_inside_the_deadband() {
    let mut node = RemotePlayerNode::new();
    let server = report_at(10_000, 0);
    let mut position = Vector2::new(0, 0);
    let mut first_tick_inside: Option<u32> = None;
    for tick in 1..=60u32 {
        position = node.apply_position_correction(position, &server, false);
        if first_tick_inside.is_none() && 10_000 - position.x <= 1_000 {
            first_tick_inside = Some(tick);
        }
    }
    // The offset shrinks by a twentieth a tick until it is within the deadband, where it stays.
    assert_eq!(first_tick_inside, Some(46));
    assert_eq!(position, Vector2::new(9_048, 0));
    assert!((10_000 - position.x) as i64 <= CORRECTION_DEADBAND);
    assert_eq!(node.deadband_frame_count, 0);
    for _ in 0..200 {
        position = node.apply_position_correction(position, &server, false);
    }
    assert_eq!(position, Vector2::new(9_048, 0));
}

#[test]
fn the_offset_decays_by_the_correction_strength() {
    let mut node = RemotePlayerNode::new();
    let server = report_at(90_000, 0);
    let mut position = Vector2::new(0, 0);
    let mut bound: f64 = 90_000.0;
    for _ in 0..40 {
        let before = 90_000 - position.x;
        position = node.apply_position_correction(position, &server, false);
        let after = 90_000 - position.x;
        bound *= 0.95;
        assert!(after < before);
        assert!(after as f64 <= bound + 20.0);
        assert!(1000 * after as i64 <= 950 * before as i64 + 999);
    }
}

#[test]
fn inside_the_deadband_nothing_moves() {
    let mut node = RemotePlayerNode::new();
    node.deadband_frame_count = 17;
    node.vertical_diff_frame_count = 3;
    let server = walking_report_at(600, -800);
    for _ in 0..100 {
        let corrected = node.apply_position_correction(Vector2::new(0, 0), &server, true);
        assert_eq!(corrected, Vector2::new(0, 0));
        assert_eq!(node.deadband_frame_count, 0);
        assert_eq!(node.vertical_diff_frame_count, 0);
    }
}

#[test]
fn the_edge_of_the_deadband_is_inside() {
    let mut node = RemotePlayerNode::new();
    let on_edge = node.apply_position_correction(Vector2::new(0, 0), &report_at(1_000, 0), false);
    assert_eq!(on_edge, Vector2::new(0, 0));
    assert_eq!(node.deadband_frame_count, 0);
    let outside = node.apply_position_correction(Vector2::new(0, 0), &report_at(1_000, 1), false);
    assert_eq!(outside, Vector2::new(50, 0));
    assert_eq!(node.deadband_frame_count, 1);
}

#[test]
fn drift_that_lasts_is_ended_by_a_snap() {
    let mut node = RemotePlayerNode::new();
    let server = report_at(2_000, 0);
    // Something keeps the avatar two units off, tick after tick.
    for tick in 1..=DEADBAND_FRAME_THRESHOLD {
        let corrected = node.apply_position_correction(Vector2::new(0, 0), &server, false);
        assert_eq!(corrected, Vector2::new(100, 0));
        assert_eq!(node.deadband_frame_count, tick);
    }
    let corrected = node.apply_position_correction(Vector2::new(0, 0), &server, false);
    assert_eq!(corrected, Vector2::new(2_000, 0));
    assert_eq!(node.deadband_frame_count, DEADBAND_FRAME_THRESHOLD + 1);
    // The drift is still there on the next tick, and is ended again.
    let again = node.apply_position_correction(Vector2::new(0, 0), &server, false);
    assert_eq!(again, Vector2::new(2_000, 0));
    // Once the avatar is close the count starts over.
    let close = node.apply_position_correction(Vector2::new(2_000, 0), &server, false);
    assert_eq!(close, Vector2::new(2_000, 0));
    assert_eq!(node.deadband_frame_count, 0);
}

#[test]
fn the_drift_counter_stops_at_its_largest_value() {
    let mut node = RemotePlayerNode::new();
    node.deadband_frame_count = u32::MAX;
    let corrected =
        node.apply_position_correction(Vector2::new(0, 0), &report_at(5_000, 0), false);
    assert_eq!(corrected, Vector2::new(5_000, 0));
    assert_eq!(node.deadband_frame_count, u32::MAX);
}

#[test]
fn a_vertical_mismatch_is_tolerated_for_ten_ticks() {
    let mut node = RemotePlayerNode::new();
    node.deadband_frame_count = 5;
    let server = walking_report_at(20_000, -3_001);
    for tick in 1..=VERTICAL_DIFF_FRAME_THRESHOLD {
        let corrected = node.apply_position_correction(Vector2::new(0, 0), &server, true);
        assert_eq!(corrected, Vector2::new(0, 0));
        assert_eq!(node.vertical_diff_frame_count, tick);
    }
    let corrected = node.apply_position_correction(Vector2::new(0, 0), &server, true);
    assert_eq!(corrected, Vector2::new(20_000, -3_001));
    assert_eq!(node.vertical_diff_frame_count, 0);
    // The rule leaves the drift counter alone.
    assert_eq!(node.deadband_frame_count, 5);
}

#[test]
fn the_vertical_rule_needs_a_standing_avatar_and_a_walking_report() {
    let gap = Vector2::new(20_000, -3_001);
    let blended = Vector2::new(1_000, -150);
    let mut in_the_air = RemotePlayerNode::new();
    let walking = walking_report_at(gap.x, gap.y);
    assert_eq!(in_the_air.apply_position_correction(Vector2::new(0, 0), &walking, false), blended);
    let mut resting = RemotePlayerNode::new();
    let idle = report_at(gap.x, gap.y);
    assert_eq!(resting.apply_position_correction(Vector2::new(0, 0), &idle, true), blended);
    let mut jumping = RemotePlayerNode::new();
    let leaping = RemoteState { position: gap, direction: -1, is_jumping: true };
    assert_eq!(jumping.apply_position_correction(Vector2::new(0, 0), &leaping, true), blended);
    let mut level = RemotePlayerNode::new();
    let same_height = walking_report_at(20_000, -3_000);
    assert_eq!(
        level.apply_position_correction(Vector2::new(0, 0), &same_height, true),
        Vector2::new(1_000, -150)
    );
    assert_eq!(level.vertical_diff_frame_count, 0);
}

#[test]
fn a_tick_without_vertical_mismatch_resets_its_counter() {
    let mut node = RemotePlayerNode::new();
    let mismatch = walking_report_at(0, 5_000);
    for _ in 0..7 {
        node.apply_position_correction(Vector2::new(0, 0), &mismatch, true);
    }
    assert_eq!(node.vertical_diff_frame_count, 7);
    node.apply_position_correction(Vector2::new(0, 0), &mismatch, false);
    assert_eq!(node.vertical_diff_frame_count, 0);
    assert_eq!(node.deadband_frame_count, 1);
}

#[test]
fn a_new_node_knows_no_report() {
    let node = RemotePlayerNode::new();
    assert_eq!(node.basic_player, BasicPlayer::new());
    assert_eq!(node.last_server_state, None);
    assert_eq!(node.current_direction, 0);
    assert!(!node.current_jumping);
    assert!(!node.was_jumping);
    assert_eq!(node.vertical_diff_frame_count, 0);
    assert_eq!(node.deadband_frame_count, 0);
    assert_eq!(RemotePlayerNode::default(), node);
}

#[test]
fn a_report_replaces_the_one_before() {
    let mut node = RemotePlayerNode::new();
    node.deadband_frame_count = 9;
    node.set_player_position(1, true, Vector2::new(10, 20));
    node.set_player_position(-1, false, Vector2::new(5, 6));
    assert_eq!(
        node.last_server_state,
        Some(RemoteState { position: Vector2::new(5, 6), direction: -1, is_jumping: false })
    );
    assert_eq!(node.current_direction, -1);
    assert!(!node.current_jumping);
    assert_eq!(node.deadband_frame_count, 9);
}

#[test]
fn without_a_report_the_position_is_not_corrected() {
    let mut node = RemotePlayerNode::new();
    let body = resting_body(Vector2::new(321_000, -7_000));
    let step = node.physics_process(&body, 16_667);
    assert_eq!(step.position, Vector2::new(321_000, -7_000));
    assert_eq!(step.velocity, Vector2::new(0, 0));
    assert_eq!(step.sprite, SpriteUpdate { flip_h: None, animation: PlayerAnimation::Idle });
    assert_eq!(node.deadband_frame_count, 0);
}

#[test]
fn a_tick_corrects_against_the_report() {
    let mut node = RemotePlayerNode::new();
    node.set_player_position(0, false, Vector2::new(200_000, 0));
    let step = node.physics_process(&resting_body(Vector2::new(0, 0)), 16_667);
    assert_eq!(step.position, Vector2::new(200_000, 0));
    node.set_player_position(0, false, Vector2::new(10_000, 0));
    let step = node.physics_process(&resting_body(Vector2::new(0, 0)), 16_667);
    assert_eq!(step.position, Vector2::new(500, 0));
    assert_eq!(node.deadband_frame_count, 1);
}

#[test]
fn a_remote_jump_starts_on_the_rising_edge_only() {
    let mut node = RemotePlayerNode::new();
    node.set_player_position(0, true, Vector2::new(0, 0));
    let body = resting_body(Vector2::new(0, 0));
    let first = node.physics_process(&body, 16_667);
    assert_eq!(first.velocity.y, -300_000);
    assert!(node.was_jumping);
    // The flag is still up: no second take-off.
    let second = node.physics_process(&body, 16_667);
    assert_eq!(second.velocity.y, 0);
    // It goes down and up again: the next jump.
    node.set_player_position(0, false, Vector2::new(0, 0));
    node.physics_process(&body, 16_667);
    assert!(!node.was_jumping);
    node.set_player_position(0, true, Vector2::new(0, 0));
    let third = node.physics_process(&body, 16_667);
    assert_eq!(third.velocity.y, -300_000);
}

#[test]
fn a_remote_jump_needs_the_floor() {
    let mut node = RemotePlayerNode::new();
    node.set_player_position(0, true, Vector2::new(0, 0));
    let mut body = resting_body(Vector2::new(0, 0));
    body.is_on_floor = false;
    let step = node.physics_process(&body, 16_667);
    // Gravity only: 980 units a second squared for a sixtieth of a second.
    assert_eq!(step.velocity.y, 16_333);
    assert_eq!(step.sprite.animation, PlayerAnimation::Jump);
    // The edge has passed all the same.
    assert!(node.was_jumping);
    body.is_on_floor = true;
    let next = node.physics_process(&body, 16_667);
    assert_eq!(next.velocity.y, 0);
}

#[test]
fn the_reported_direction_drives_the_remote_avatar() {
    let mut node = RemotePlayerNode::new();
    node.set_player_position(-1, false, Vector2::new(0, 0));
    let step = node.physics_process(&resting_body(Vector2::new(0, 0)), 16_667);
    assert_eq!(step.velocity, Vector2::new(-100_000, 0));
    assert_eq!(step.sprite, SpriteUpdate { flip_h: Some(true), animation: PlayerAnimation::Run });
    node.set_player_position(0, false, Vector2::new(0, 0));
    let mut body = resting_body(Vector2::new(0, 0));
    body.velocity = Vector2::new(-100_000, 0);
    let eased = node.physics_process(&body, 16_667);
    assert_eq!(eased.velocity, Vector2::new(-98_334, 0));
}

#[test]
fn a_remote_avatar_appears_where_the_store_saw_it() {
    let player = DbPlayer {
        identity: Identity::new(1, 2),
        player_id: 3,
        name: "Dora".to_string(),
        state: DBPlayerState {
            position: DbVector2::new(44_000, -55_000),
            direction: 1,
            is_jumping: true,
        },
    };
    let spawn = RemotePlayerNode::spawn_object(&player);
    assert_eq!(spawn.position, Vector2::new(44_000, -55_000));
    assert_eq!(spawn.name, "Dora");
    assert_eq!(spawn.node, RemotePlayerNode::new());
}

//! What holds of the position correction, tick by tick and over runs of
//! ticks.

use crate::characters::basic_player::FACTOR_SCALE;
use crate::characters::remote_player::{
    beyond_max_correction, blend, blend_coordinate, correct_position,
    lemma_blend_coordinate_between, vertical_mismatch, within_deadband, Correction, RemoteState,
    DEADBAND_FRAME_THRESHOLD, POSITION_CORRECTION_STRENGTH, VERTICAL_DIFF_THRESHOLD,
};
use crate::vector::{abs_diff, Vector2};
use vstd::arithmetic::power::pow;
use vstd::prelude::*;

verus! {

/// What one tick's correction is given: where the avatar is, the reported
/// pose, and whether the avatar stands.
pub struct Tick {
    pub current: Vector2,
    pub server: RemoteState,
    pub is_on_floor: bool,
}

/// The two counters, vertical first, after the corrections of `ticks` were
/// made in order, starting from the given counters.
pub open spec fn counters_after(
    vertical_diff_frame_count: u32,
    deadband_frame_count: u32,
    ticks: Seq<Tick>,
) -> (u32, u32)
    decreases ticks.len(),
{
    if ticks.len() == 0 {
        (vertical_diff_frame_count, deadband_frame_count)
    } else {
        let before = counters_after(
            vertical_diff_frame_count,
            deadband_frame_count,
            ticks.drop_last(),
        );
        let last = correct_position(
            ticks.last().current,
            ticks.last().server,
            ticks.last().is_on_floor,
            before.0,
            before.1,
        );
        (last.vertical_diff_frame_count, last.deadband_frame_count)
    }
}

/// The correction made at tick `at` of a run (counting from 0), after the
/// corrections of the ticks before it.
pub open spec fn correction_at(
    vertical_diff_frame_count: u32,
    deadband_frame_count: u32,
    ticks: Seq<Tick>,
    at: int,
) -> Correction {
    let before = counters_after(vertical_diff_frame_count, deadband_frame_count, ticks.take(at));
    correct_position(ticks[at].current, ticks[at].server, ticks[at].is_on_floor, before.0, before.1)
}

/// A tick on which the avatar drifts: it is farther from the reported
/// position than the deadband, not farther than the greatest distance that
/// is corrected by blending, and the vertical rule does not hold.
pub open spec fn drifts(tick: Tick) -> bool {
    &&& !within_deadband(tick.current, tick.server.position)
    &&& !beyond_max_correction(tick.current, tick.server.position)
    &&& !vertical_mismatch(tick.current, tick.server, tick.is_on_floor)
}

/// Within the deadband the vertical gap is too small for the vertical rule.
pub proof fn lemma_deadband_excludes_vertical_mismatch(
    current: Vector2,
    server: RemoteState,
    is_on_floor: bool,
)
    requires
        within_deadband(current, server.position),
    ensures
        !vertical_mismatch(current, server, is_on_floor),
        !beyond_max_correction(current, server.position),
{
    let dx = current.x - server.position.x;
    let dy = current.y - server.position.y;
    assert(dx * dx >= 0) by (nonlinear_arith);
    if abs_diff(server.position.y as int, current.y as int) > VERTICAL_DIFF_THRESHOLD {
        assert(dy * dy > 3000 * 3000) by (nonlinear_arith)
            requires
                dy > 3000 || dy < -3000,
        ;
    }
}

/// Within the deadband nothing moves: an avatar that is no farther from the
/// reported position than the deadband stays where it is, and its deadband
/// counter is 0 after the tick, whatever the counters were.
pub proof fn law_deadband_keeps_position(
    current: Vector2,
    server: RemoteState,
    is_on_floor: bool,
    vertical_diff_frame_count: u32,
    deadband_frame_count: u32,
)
    requires
        within_deadband(current, server.position),
    ensures
        correct_position(
            current,
            server,
            is_on_floor,
            vertical_diff_frame_count,
            deadband_frame_count,
        ) == (Correction { position: current, vertical_diff_frame_count: 0, deadband_frame_count: 0 }),
{
    lemma_deadband_excludes_vertical_mismatch(current, server, is_on_floor);
}

/// Over a run of ticks that are all within the deadband, every tick leaves
/// the avatar where it is, and the deadband counter is 0 after each of them.
pub proof fn law_deadband_keeps_position_over_ticks(
    vertical_diff_frame_count: u32,
    deadband_frame_count: u32,
    ticks: Seq<Tick>,
    at: int,
)
    requires
        0 <= at < ticks.len(),
        forall|k: int|
            0 <= k < ticks.len() ==> within_deadband(
                (#[trigger] ticks[k]).current,
                ticks[k].server.position,
            ),
    ensures
        correction_at(vertical_diff_frame_count, deadband_frame_count, ticks, at).position
            == ticks[at].current,
        correction_at(
            vertical_diff_frame_count,
            deadband_frame_count,
            ticks,
            at,
        ).deadband_frame_count == 0,
        counters_after(vertical_diff_frame_count, deadband_frame_count, ticks).1 == 0,
{
    let before = counters_after(vertical_diff_frame_count, deadband_frame_count, ticks.take(at));
    law_deadband_keeps_position(
        ticks[at].current,
        ticks[at].server,
        ticks[at].is_on_floor,
        before.0,
        before.1,
    );
    let earlier = counters_after(
        vertical_diff_frame_count,
        deadband_frame_count,
        ticks.drop_last(),
    );
    law_deadband_keeps_position(
        ticks.last().current,
        ticks.last().server,
        ticks.last().is_on_floor,
        earlier.0,
        earlier.1,
    );
}

/// Beyond the greatest corrected distance one tick is enough: the avatar is
/// at the reported position after it, and both counters are 0.
pub proof fn law_far_avatar_snaps(
    current: Vector2,
    server: RemoteState,
    is_on_floor: bool,
    vertical_diff_frame_count: u32,
    deadband_frame_count: u32,
)
    requires
        beyond_max_correction(current, server.position),
    ensures
        correct_position(
            current,
            server,
            is_on_floor,
            vertical_diff_frame_count,
            deadband_frame_count,
        ) == (Correction {
            position: server.position,
            vertical_diff_frame_count: 0,
            deadband_frame_count: 0,
        }),
{
}

/// After a run of drifting ticks the deadband counter has counted each of
/// them, as far as it can count.
pub proof fn lemma_drift_is_counted(
    vertical_diff_frame_count: u32,
    deadband_frame_count: u32,
    ticks: Seq<Tick>,
)
    requires
        forall|k: int| 0 <= k < ticks.len() ==> drifts(#[trigger] ticks[k]),
    ensures
        counters_after(vertical_diff_frame_count, deadband_frame_count, ticks).1 == if deadband_frame_count
            + ticks.len() <= u32::MAX {
            (deadband_frame_count + ticks.len()) as u32
        } else {
            u32::MAX
        },
    decreases ticks.len(),
{
    if ticks.len() > 0 {
        assert(drifts(ticks[ticks.len() - 1]));
        assert forall|k: int| 0 <= k < ticks.drop_last().len() implies drifts(
            #[trigger] ticks.drop_last()[k],
        ) by {
            assert(ticks.drop_last()[k] == ticks[k]);
        }
        lemma_drift_is_counted(vertical_diff_frame_count, deadband_frame_count, ticks.drop_last());
    }
}

/// Drift does not last: when an avatar drifts on each tick of a run that is
/// longer than the tolerated number of ticks, the tick after the tolerated
/// ones puts it at the reported position.
pub proof fn law_lasting_drift_snaps(
    vertical_diff_frame_count: u32,
    deadband_frame_count: u32,
    ticks: Seq<Tick>,
)
    requires
        ticks.len() > DEADBAND_FRAME_THRESHOLD,
        forall|k: int| 0 <= k <= DEADBAND_FRAME_THRESHOLD ==> drifts(#[trigger] ticks[k]),
    ensures
        correction_at(
            vertical_diff_frame_count,
            deadband_frame_count,
            ticks,
            DEADBAND_FRAME_THRESHOLD as int,
        ).position == ticks[DEADBAND_FRAME_THRESHOLD as int].server.position,
{
    let tolerated = ticks.take(DEADBAND_FRAME_THRESHOLD as int);
    assert forall|k: int| 0 <= k < tolerated.len() implies drifts(#[trigger] tolerated[k]) by {
        assert(tolerated[k] == ticks[k]);
    }
    lemma_drift_is_counted(vertical_diff_frame_count, deadband_frame_count, tolerated);
    assert(drifts(ticks[DEADBAND_FRAME_THRESHOLD as int]));
}

/// `current` after `ticks` ticks of blending toward `server`.
pub open spec fn blend_repeatedly(current: Vector2, server: Vector2, ticks: nat) -> Vector2
    decreases ticks,
{
    if ticks == 0 {
        current
    } else {
        blend(blend_repeatedly(current, server, (ticks - 1) as nat), server)
    }
}

/// One coordinate after `ticks` ticks of blending toward `server`.
pub open spec fn blend_coordinate_repeatedly(current: int, server: int, ticks: nat) -> int
    decreases ticks,
{
    if ticks == 0 {
        current
    } else {
        blend_coordinate(blend_coordinate_repeatedly(current, server, (ticks - 1) as nat), server)
    }
}

/// One tick of blending shrinks the offset of a coordinate by the
/// correction strength, up to rounding: a thousand times the new offset is
/// at most 950 times the old one and 999.
pub proof fn lemma_blend_shrinks_offset(current: int, server: int)
    ensures
        FACTOR_SCALE * abs_diff(server, blend_coordinate(current, server)) <= (FACTOR_SCALE
            - POSITION_CORRECTION_STRENGTH) * abs_diff(server, current) + (FACTOR_SCALE - 1),
        abs_diff(server, blend_coordinate(current, server)) <= abs_diff(server, current),
{
    let offset = server - current;
    if offset >= 0 {
        let pull = (offset * 50) / 1000;
        assert(1000 * pull <= offset * 50 && offset * 50 - 999 <= 1000 * pull) by (nonlinear_arith)
            requires
                pull == (offset * 50) / 1000,
                offset >= 0,
        ;
    } else {
        let pull = ((-(offset * 50)) / 1000);
        assert(1000 * pull <= -(offset * 50) && -(offset * 50) - 999 <= 1000 * pull)
            by (nonlinear_arith)
            requires
                pull == (-(offset * 50)) / 1000,
                offset < 0,
        ;
    }
}

/// After `ticks` ticks of blending, a thousand to the power of `ticks`
/// times the offset of a coordinate is at most 950 to that power times the
/// offset at the start, and twenty times the first power; and the offset
/// has not grown.
pub proof fn lemma_blend_coordinate_converges(current: int, server: int, ticks: nat)
    ensures
        pow(FACTOR_SCALE as int, ticks) * abs_diff(
            server,
            blend_coordinate_repeatedly(current, server, ticks),
        ) <= pow((FACTOR_SCALE - POSITION_CORRECTION_STRENGTH) as int, ticks) * abs_diff(
            server,
            current,
        ) + 20 * pow(FACTOR_SCALE as int, ticks),
        abs_diff(server, blend_coordinate_repeatedly(current, server, ticks)) <= abs_diff(
            server,
            current,
        ),
    decreases ticks,
{
    reveal(pow);
    if ticks > 0 {
        let earlier = (ticks - 1) as nat;
        let before = blend_coordinate_repeatedly(current, server, earlier);
        lemma_blend_coordinate_converges(current, server, earlier);
        lemma_blend_shrinks_offset(before, server);
        let e0 = abs_diff(server, current);
        let e1 = abs_diff(server, before);
        let e2 = abs_diff(server, blend_coordinate(before, server));
        let p = pow(1000, earlier);
        let q = pow(950, earlier);
        vstd::arithmetic::power::lemma_pow_positive(1000, earlier);
        assert(pow(1000, ticks) == 1000 * p);
        assert(pow(950, ticks) == 950 * q);
        assert(1000 * p * e2 <= 950 * q * e0 + 20 * (1000 * p)) by (nonlinear_arith)
            requires
                p * e1 <= q * e0 + 20 * p,
                1000 * e2 <= 950 * e1 + 999,
                p > 0,
                e2 >= 0,
                e1 >= 0,
        ;
    }
}

/// Blending a position is blending each of its coordinates.
pub proof fn lemma_blend_repeatedly_by_coordinate(current: Vector2, server: Vector2, ticks: nat)
    ensures
        blend_repeatedly(current, server, ticks).x == blend_coordinate_repeatedly(
            current.x as int,
            server.x as int,
            ticks,
        ),
        blend_repeatedly(current, server, ticks).y == blend_coordinate_repeatedly(
            current.y as int,
            server.y as int,
            ticks,
        ),
    decreases ticks,
{
    if ticks > 0 {
        let earlier = (ticks - 1) as nat;
        lemma_blend_repeatedly_by_coordinate(current, server, earlier);
        let before = blend_repeatedly(current, server, earlier);
        lemma_blend_coordinate_between(before.x as int, server.x as int);
        lemma_blend_coordinate_between(before.y as int, server.y as int);
    }
}

/// How far `from` is from `to` after `ticks` ticks of decay by the
/// correction strength, as a bound: `scale * bound` is the offset at the
/// start times 0.95 to the power of `ticks`, and twenty steps for the
/// rounding, with `scale` a thousand to the power of `ticks`.
pub open spec fn decayed_offset_bound(from: int, to: int, ticks: nat) -> int {
    pow((FACTOR_SCALE - POSITION_CORRECTION_STRENGTH) as int, ticks) * abs_diff(to, from) + 20
        * pow(FACTOR_SCALE as int, ticks)
}

/// Blending converges: under repeated blending toward a fixed position the
/// offset of each coordinate decays geometrically, by the factor 0.95 a
/// tick, down to the rounding of the fixed-point steps.  With `e` the offset
/// of a coordinate at the start and `e'` its offset after `ticks` ticks,
/// `e' <= 0.95^ticks * e + 20`, stated here with both sides multiplied by a
/// thousand to the power of `ticks`; and no offset ever grows.
pub proof fn law_blending_converges(current: Vector2, server: Vector2, ticks: nat)
    ensures
        ({
            let blended = blend_repeatedly(current, server, ticks);
            let scale = pow(FACTOR_SCALE as int, ticks);
            &&& scale * abs_diff(server.x as int, blended.x as int) <= decayed_offset_bound(
                current.x as int,
                server.x as int,
                ticks,
            )
            &&& scale * abs_diff(server.y as int, blended.y as int) <= decayed_offset_bound(
                current.y as int,
                server.y as int,
                ticks,
            )
            &&& abs_diff(server.x as int, blended.x as int) <= abs_diff(
                server.x as int,
                current.x as int,
            )
            &&& abs_diff(server.y as int, blended.y as int) <= abs_diff(
                server.y as int,
                current.y as int,
            )
        }),
{
    lemma_blend_repeatedly_by_coordinate(current, server, ticks);
    lemma_blend_coordinate_converges(current.x as int, server.x as int, ticks);
    lemma_blend_coordinate_converges(current.y as int, server.y as int, ticks);
}

} // verus!

//! Gates: activation sinks with a kinematic motion controller.

use vstd::prelude::*;

use crate::color_code::ColorCode;

verus! {

/// Size of one grid unit on the actuated axis, in world coordinates. A gate
/// travels exactly one grid unit between its closed and its open position.
pub const GRANULARITY: i64 = 16;

/// Coordinates are kept inside this band so that every step of the motion
/// controller stays far from the limits of `i64`.
pub const POS_LIMIT: i64 = 0x1000_0000_0000;

/// A 2D position authored in the level editor, on the integer grid of world
/// coordinates.
#[derive(Clone, Copy, Debug, PartialEq, Eq, Structural)]
pub struct Position {
    pub x: i64,
    pub y: i64,
}

/// State owned by an activation source (a crystal): how many activator
/// entities currently press it. The source is active iff the count is
/// nonzero.
#[derive(Clone, Copy, Debug, PartialEq, Eq, Structural)]
pub struct CrystalState {
    pub num_activators: u32,
}

/// An activation source as the aggregator sees it: its channel and its
/// activator count.
#[derive(Clone, Copy, Debug, PartialEq, Eq, Structural)]
pub struct Crystal {
    pub color_code: ColorCode,
    pub state: CrystalState,
}

/// Sink state owned by a gate: the coordinate of its closed position, fixed
/// at spawn time, and the open/closed target flag, written each tick by the
/// aggregator and read by the motion controller.
#[derive(Clone, Copy, Debug, PartialEq, Eq, Structural)]
pub struct GateState {
    pub y_when_closed: i64,
    pub is_open: bool,
}

/// A gate entity as it exists in the world: its channel, its sink state and
/// the actuated axis of its physical transform. Only `y` moves; the other
/// axis belongs to the physics integration and is not modelled here.
#[derive(Clone, Copy, Debug, PartialEq, Eq, Structural)]
pub struct GateEntity {
    pub color_code: ColorCode,
    pub state: GateState,
    pub y: i64,
}

/// The authored record a gate is spawned from: a placement and a channel.
#[derive(Clone, Copy, Debug, PartialEq, Eq, Structural)]
pub struct Gate {
    pub position: Position,
    pub color_code: ColorCode,
}

impl Gate {
    /// The entity spawned from this record: at rest at its authored
    /// placement, closed until the aggregator opens it.
    pub fn spawn(&self) -> (g: GateEntity)
        ensures
            g.color_code == self.color_code,
            g.state.y_when_closed == self.position.y,
            !g.state.is_open,
            g.y == self.position.y,
    {
        GateEntity {
            color_code: self.color_code,
            state: GateState { y_when_closed: self.position.y, is_open: false },
            y: self.position.y,
        }
    }
}

/// True iff some source on channel `c` currently reports a nonzero
/// activator count.
pub open spec fn color_active(crystals: Seq<Crystal>, c: ColorCode) -> bool {
    exists|i: int|
        0 <= i < crystals.len() && crystals[i].color_code == c && crystals[i].state.num_activators
            > 0
}

/// One gate after aggregation: open iff its channel is active; its channel,
/// rest position and transform are untouched.
pub open spec fn aggregated_gate(g: GateEntity, crystals: Seq<Crystal>) -> GateEntity {
    GateEntity {
        color_code: g.color_code,
        state: GateState {
            y_when_closed: g.state.y_when_closed,
            is_open: color_active(crystals, g.color_code),
        },
        y: g.y,
    }
}

/// The whole sink set after one aggregation pass over `crystals`.
pub open spec fn aggregated_gates(gates: Seq<GateEntity>, crystals: Seq<Crystal>) -> Seq<
    GateEntity,
> {
    Seq::new(gates.len(), |i: int| aggregated_gate(gates[i], crystals))
}

/// Extending the scanned prefix by one source activates exactly the channel
/// of that source, and only if the source is active.
proof fn lemma_color_active_step(crystals: Seq<Crystal>, i: int, c: ColorCode)
    requires
        0 <= i < crystals.len(),
    ensures
        color_active(crystals.take(i + 1), c) == (color_active(crystals.take(i), c) || (
        crystals[i].color_code == c && crystals[i].state.num_activators > 0)),
{
    let pre = crystals.take(i);
    let cur = crystals.take(i + 1);
    assert(cur =~= pre.push(crystals[i]));
    if color_active(cur, c) {
        let j = choose|j: int|
            0 <= j < cur.len() && cur[j].color_code == c && cur[j].state.num_activators > 0;
        if j < i {
            assert(pre[j] == cur[j]);
            assert(color_active(pre, c));
        } else {
            assert(cur[j] == crystals[i]);
        }
    }
    if color_active(pre, c) {
        let j = choose|j: int|
            0 <= j < pre.len() && pre[j].color_code == c && pre[j].state.num_activators > 0;
        assert(cur[j] == pre[j]);
        assert(color_active(cur, c));
    }
    if crystals[i].color_code == c && crystals[i].state.num_activators > 0 {
        assert(cur[i].color_code == c && cur[i].state.num_activators > 0);
        assert(color_active(cur, c));
    }
}

/// One aggregation pass: scan every source, derive one activation flag per
/// channel (true iff at least one source of that channel is active), then
/// write the flag into every gate of the channel. Runs once per simulation
/// tick; recomputed from scratch, with no dependence on earlier ticks.
pub fn update_gates_status(crystals: &Vec<Crystal>, gates: &mut Vec<GateEntity>)
    ensures
        final(gates)@ == aggregated_gates(old(gates)@, crystals@),
{
    let ghost gates0 = gates@;
    let mut colors_activated: Vec<bool> = Vec::new();
    let mut k: usize = 0;
    while k < ColorCode::size()
        invariant
            k <= ColorCode::spec_size(),
            colors_activated@.len() == k,
            forall|t: int| 0 <= t < k ==> !colors_activated@[t],
        decreases ColorCode::spec_size() - k,
    {
        colors_activated.push(false);
        k += 1;
    }
    let mut i: usize = 0;
    while i < crystals.len()
        invariant
            i <= crystals@.len(),
            colors_activated@.len() == ColorCode::spec_size(),
            forall|c: ColorCode| #[trigger]
                colors_activated@[c.spec_ordinal() as int] == color_active(
                    crystals@.take(i as int),
                    c,
                ),
        decreases crystals@.len() - i,
    {
        let crystal = crystals[i];
        if 0 < crystal.state.num_activators {
            let idx = crystal.color_code.ordinal();
            colors_activated[idx] = true;
        }
        proof {
            assert forall|c: ColorCode| #[trigger]
                colors_activated@[c.spec_ordinal() as int] == color_active(
                    crystals@.take(i as int + 1),
                    c,
                ) by {
                lemma_color_active_step(crystals@, i as int, c);
                crate::color_code::lemma_ordinal_injective(c, crystal.color_code);
            }
        }
        i += 1;
    }
    proof {
        assert(crystals@.take(crystals@.len() as int) =~= crystals@);
    }
    let mut j: usize = 0;
    while j < gates.len()
        invariant
            j <= gates0.len(),
            gates@.len() == gates0.len(),
            colors_activated@.len() == ColorCode::spec_size(),
            forall|c: ColorCode| #[trigger]
                colors_activated@[c.spec_ordinal() as int] == color_active(crystals@, c),
            forall|t: int| 0 <= t < j ==> gates@[t] == aggregated_gate(gates0[t], crystals@),
            forall|t: int| j <= t < gates0.len() ==> gates@[t] == gates0[t],
        decreases gates0.len() - j,
    {
        let idx = gates[j].color_code.ordinal();
        let should_be_open = colors_activated[idx];
        gates[j].state.is_open = should_be_open;
        j += 1;
    }
    proof {
        assert(gates@ =~= aggregated_gates(gates0, crystals@));
    }
}

/// If no source on channel `c` is active, every gate of channel `c` is
/// closed after aggregation.
pub proof fn lemma_inactive_channel_closes(
    crystals: Seq<Crystal>,
    gates: Seq<GateEntity>,
    c: ColorCode,
)
    requires
        forall|i: int|
            0 <= i < crystals.len() && crystals[i].color_code == c
                ==> crystals[i].state.num_activators == 0,
    ensures
        forall|j: int|
            0 <= j < gates.len() && gates[j].color_code == c ==> !aggregated_gates(
                gates,
                crystals,
            )[j].state.is_open,
{
    assert forall|j: int|
        0 <= j < gates.len() && gates[j].color_code == c implies !aggregated_gates(
        gates,
        crystals,
    )[j].state.is_open by {
        if color_active(crystals, c) {
            let w = choose|w: int|
                0 <= w < crystals.len() && crystals[w].color_code == c
                    && crystals[w].state.num_activators > 0;
            assert(crystals[w].state.num_activators == 0);
        }
    }
}

/// One active source on channel `c` opens every gate of channel `c` after
/// aggregation, no matter how many other sources of the channel are
/// inactive: activation is a monotone OR, not a threshold.
pub proof fn lemma_active_channel_opens(
    crystals: Seq<Crystal>,
    gates: Seq<GateEntity>,
    c: ColorCode,
    i: int,
)
    requires
        0 <= i < crystals.len(),
        crystals[i].color_code == c,
        crystals[i].state.num_activators > 0,
    ensures
        forall|j: int|
            0 <= j < gates.len() && gates[j].color_code == c ==> aggregated_gates(
                gates,
                crystals,
            )[j].state.is_open,
{
    assert(color_active(crystals, c));
}

/// Aggregation is idempotent: with no source change in between, a second
/// pass leaves every sink exactly as the first pass did.
pub proof fn lemma_aggregation_idempotent(crystals: Seq<Crystal>, gates: Seq<GateEntity>)
    ensures
        aggregated_gates(aggregated_gates(gates, crystals), crystals) == aggregated_gates(
            gates,
            crystals,
        ),
{
    assert(aggregated_gates(aggregated_gates(gates, crystals), crystals) =~= aggregated_gates(
        gates,
        crystals,
    ));
}

/// The magnitude of a signed offset.
pub open spec fn abs_of(d: int) -> int {
    if d >= 0 {
        d
    } else {
        -d
    }
}

/// The direction of travel toward a target: up, down, or in place.
pub open spec fn sign_of(d: int) -> int {
    if d > 0 {
        1
    } else if d < 0 {
        -1
    } else {
        0
    }
}

/// The position a gate is driven toward: its rest position when closed, one
/// grid unit below it when open.
pub open spec fn desired_y(state: GateState) -> int {
    if state.is_open {
        state.y_when_closed - GRANULARITY
    } else {
        state.y_when_closed as int
    }
}

/// One tick of the motion rule: snap exactly onto the target when within
/// twice the per-tick speed of it, otherwise advance by the speed toward it.
pub open spec fn moved_y(current: int, target: int, speed: int) -> int {
    if abs_of(target - current) < 2 * speed {
        target
    } else {
        current + sign_of(target - current) * speed
    }
}

/// One motion tick for a single gate: returns the new coordinate of the
/// actuated axis. `speed` is the distance a gate may travel this tick
/// (the tick duration times its rate constant); the controller keeps
/// no history, so a flag that flips mid-travel simply reverses the motion.
pub fn move_gate_y(current_y: i64, state: &GateState, speed: i64) -> (new_y: i64)
    requires
        0 <= speed <= POS_LIMIT,
        -2 * POS_LIMIT <= current_y <= 2 * POS_LIMIT,
        -POS_LIMIT <= state.y_when_closed <= POS_LIMIT,
    ensures
        new_y == moved_y(current_y as int, desired_y(*state), speed as int),
        -2 * POS_LIMIT <= new_y <= 2 * POS_LIMIT,
{
    let mut desired: i64 = state.y_when_closed;
    if state.is_open {
        desired = desired - GRANULARITY;
    }
    let y_diff = desired - current_y;
    let abs_diff = if y_diff >= 0 {
        y_diff
    } else {
        -y_diff
    };
    if abs_diff < 2 * speed {
        desired
    } else if y_diff > 0 {
        current_y + speed
    } else if y_diff < 0 {
        current_y - speed
    } else {
        current_y
    }
}

/// One motion tick for every gate: each entity's actuated axis moves toward
/// the target its `is_open` flag implies; its channel and sink state are
/// untouched. Runs once per simulation tick while in the `Game` state, after
/// aggregation, so it consumes the flags of the current tick.
pub fn move_gates(gates: &mut Vec<GateEntity>, speed: i64)
    requires
        0 <= speed <= POS_LIMIT,
        forall|i: int|
            0 <= i < old(gates)@.len() ==> -2 * POS_LIMIT <= (#[trigger] old(gates)@[i]).y <= 2
                * POS_LIMIT && -POS_LIMIT <= old(gates)@[i].state.y_when_closed <= POS_LIMIT,
    ensures
        final(gates)@.len() == old(gates)@.len(),
        forall|i: int|
            0 <= i < old(gates)@.len() ==> (#[trigger] final(gates)@[i]).color_code == old(
                gates,
            )@[i].color_code && final(gates)@[i].state == old(gates)@[i].state,
        forall|i: int|
            0 <= i < old(gates)@.len() ==> (#[trigger] final(gates)@[i]).y as int == moved_y(
                old(gates)@[i].y as int,
                desired_y(old(gates)@[i].state),
                speed as int,
            ),
{
    let ghost gates0 = gates@;
    let mut j: usize = 0;
    while j < gates.len()
        invariant
            0 <= speed <= POS_LIMIT,
            j <= gates0.len(),
            gates@.len() == gates0.len(),
            forall|i: int|
                0 <= i < gates0.len() ==> -2 * POS_LIMIT <= (#[trigger] gates0[i]).y <= 2
                    * POS_LIMIT && -POS_LIMIT <= gates0[i].state.y_when_closed <= POS_LIMIT,
            forall|t: int|
                0 <= t < j ==> (#[trigger] gates@[t]).color_code == gates0[t].color_code
                    && gates@[t].state == gates0[t].state && gates@[t].y as int == moved_y(
                    gates0[t].y as int,
                    desired_y(gates0[t].state),
                    speed as int,
                ),
            forall|t: int| j <= t < gates0.len() ==> gates@[t] == gates0[t],
        decreases gates0.len() - j,
    {
        let st = gates[j].state;
        let new_y = move_gate_y(gates[j].y, &st, speed);
        gates[j].y = new_y;
        j += 1;
    }
}

/// Snap boundary: when the remaining distance to the target is below twice
/// the per-tick speed, the very next tick lands exactly on the target — the
/// approach is not asymptotic.
pub proof fn lemma_snap_within_threshold(current: int, target: int, speed: int)
    requires
        abs_of(target - current) < 2 * speed,
    ensures
        moved_y(current, target, speed) == target,
{
}

/// One tick never overshoots: the new position lies between the old one and
/// the target; and with positive speed the distance to a target not yet
/// reached strictly decreases — by exactly the speed, unless the tick snaps.
pub proof fn lemma_move_converges_step(current: int, target: int, speed: int)
    requires
        speed > 0,
        current != target,
    ensures
        abs_of(target - moved_y(current, target, speed)) < abs_of(target - current),
        moved_y(current, target, speed) == target || abs_of(target - moved_y(current, target, speed))
            == abs_of(target - current) - speed,
        current < target ==> current < moved_y(current, target, speed) <= target,
        target < current ==> target <= moved_y(current, target, speed) < current,
{
}

/// The position after `n` motion ticks toward a fixed target.
pub open spec fn moved_y_after(current: int, target: int, speed: int, n: nat) -> int
    decreases n,
{
    if n == 0 {
        current
    } else {
        moved_y_after(moved_y(current, target, speed), target, speed, (n - 1) as nat)
    }
}

/// A gate that has reached its target stays there for as long as the flag
/// does not change.
pub proof fn lemma_target_is_fixed_point(target: int, speed: int, n: nat)
    requires
        speed >= 0,
    ensures
        moved_y_after(target, target, speed, n) == target,
    decreases n,
{
    if n > 0 {
        assert(moved_y(target, target, speed) == target);
        lemma_target_is_fixed_point(target, speed, (n - 1) as nat);
    }
}

/// Convergence: with a fixed flag and any positive per-tick speed, a gate
/// is exactly at the target after at most as many ticks as the initial
/// distance holds the speed.
pub proof fn lemma_move_reaches_target(current: int, target: int, speed: int, n: nat)
    requires
        speed > 0,
        abs_of(target - current) <= n * speed,
    ensures
        moved_y_after(current, target, speed, n) == target,
    decreases n,
{
    if current == target {
        lemma_target_is_fixed_point(target, speed, n);
    } else {
        if n == 0 {
            assert(n * speed == 0) by (nonlinear_arith)
                requires
                    n == 0,
            ;
        }
        let m = moved_y(current, target, speed);
        lemma_move_converges_step(current, target, speed);
        if m == target {
            lemma_target_is_fixed_point(target, speed, (n - 1) as nat);
        } else {
            assert(((n - 1) as nat) * speed == n * speed - speed) by (nonlinear_arith)
                requires
                    n >= 1,
            ;
            lemma_move_reaches_target(m, target, speed, (n - 1) as nat);
        }
    }
}

/// An authored record with no fields set: placed at the origin, on the
/// default channel.
impl Default for Gate {
    fn default() -> (g: Self)
        ensures
            g.position == (Position { x: 0, y: 0 }),
            g.color_code == ColorCode::Red,
    {
        Gate { position: Position { x: 0, y: 0 }, color_code: ColorCode::Red }
    }
}

} // verus!

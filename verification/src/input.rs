//! Input aggregation: folds one tick's raw device readings into a single
//! frame intent — a movement vector whose magnitude never exceeds one unit,
//! accumulated look and scroll deltas, and an edge-triggered jump flag.

use crate::trig::UNIT;
use crate::vector::Vec2I;
use vstd::prelude::*;

verus! {

/// Milli-scale of one diagonal component: the combined vector of two
/// perpendicular full presses is capped to (just under) unit length instead
/// of stretching to sqrt(2).
pub const DIAGONAL: i64 = 707;

/// Contribution of one opposing key pair: +1, 0 or -1.
pub open spec fn axis_value(pos: bool, neg: bool) -> int {
    (if pos {
        1int
    } else {
        0
    }) - (if neg {
        1int
    } else {
        0
    })
}

/// Per-component scale of the movement vector: diagonal presses are capped.
pub open spec fn intent_scale(
    forward_key: bool,
    back_key: bool,
    right_key: bool,
    left_key: bool,
) -> int {
    if axis_value(right_key, left_key) != 0 && axis_value(forward_key, back_key) != 0 {
        DIAGONAL as int
    } else {
        UNIT as int
    }
}

/// Strafe component of the frame's movement intent.
pub open spec fn intent_x(
    forward_key: bool,
    back_key: bool,
    right_key: bool,
    left_key: bool,
) -> int {
    axis_value(right_key, left_key) * intent_scale(forward_key, back_key, right_key, left_key)
}

/// Forward component of the frame's movement intent.
pub open spec fn intent_y(
    forward_key: bool,
    back_key: bool,
    right_key: bool,
    left_key: bool,
) -> int {
    axis_value(forward_key, back_key) * intent_scale(forward_key, back_key, right_key, left_key)
}

/// A wide sum pulled into the `i64` range.
pub open spec fn saturated(v: int) -> int {
    if v < i64::MIN as int {
        i64::MIN as int
    } else if v > i64::MAX as int {
        i64::MAX as int
    } else {
        v
    }
}

/// Sum of the horizontal components of a run of pointer-motion deltas.
pub open spec fn motion_sum_x(s: Seq<Vec2I>) -> int
    decreases s.len(),
{
    if s.len() == 0 {
        0
    } else {
        motion_sum_x(s.drop_last()) + s.last().x
    }
}

/// Sum of the vertical components of a run of pointer-motion deltas.
pub open spec fn motion_sum_y(s: Seq<Vec2I>) -> int
    decreases s.len(),
{
    if s.len() == 0 {
        0
    } else {
        motion_sum_y(s.drop_last()) + s.last().y
    }
}

/// Sum of a run of scroll-wheel deltas.
pub open spec fn wheel_sum(s: Seq<i64>) -> int
    decreases s.len(),
{
    if s.len() == 0 {
        0
    } else {
        wheel_sum(s.drop_last()) + s.last()
    }
}

/// One tick's aggregated intent. Movement components are on the unit scale
/// of 1 000, look deltas in millidegrees (vertical already flipped from
/// screen space), scroll in milli-units (sign flipped from the raw wheel).
#[derive(Clone, Copy, Debug, PartialEq, Eq, Structural)]
pub struct InputBindings {
    pub movement: Vec2I,
    pub look: Vec2I,
    pub do_jump: bool,
    pub scroll: i64,
}

impl InputBindings {
    /// The frame's movement intent.
    pub fn movement(&self) -> (m: Vec2I)
        ensures
            m == self.movement,
    {
        self.movement
    }

    /// The frame's accumulated look delta.
    pub fn look(&self) -> (l: Vec2I)
        ensures
            l == self.look,
    {
        self.look
    }

    /// Whether the jump key went down this very tick.
    pub fn do_jump(&self) -> (j: bool)
        ensures
            j == self.do_jump,
    {
        self.do_jump
    }

    /// The frame's accumulated zoom delta.
    pub fn scroll(&self) -> (s: i64)
        ensures
            s == self.scroll,
    {
        self.scroll
    }
}

/// Builds the frame's movement vector from the four movement keys: opposing
/// keys cancel, a diagonal is capped to stay within unit magnitude.
pub fn movement_vector(
    forward_key: bool,
    back_key: bool,
    right_key: bool,
    left_key: bool,
) -> (m: Vec2I)
    ensures
        m.x == intent_x(forward_key, back_key, right_key, left_key),
        m.y == intent_y(forward_key, back_key, right_key, left_key),
        m.x * m.x + m.y * m.y <= UNIT * UNIT,
        -UNIT <= m.x <= UNIT,
        -UNIT <= m.y <= UNIT,
{
    let xa: i64 = (if right_key {
        1i64
    } else {
        0i64
    }) - (if left_key {
        1i64
    } else {
        0i64
    });
    let ya: i64 = (if forward_key {
        1i64
    } else {
        0i64
    }) - (if back_key {
        1i64
    } else {
        0i64
    });
    let scale: i64 = if xa != 0 && ya != 0 {
        DIAGONAL
    } else {
        UNIT
    };
    proof {
        lemma_movement_capped(forward_key, back_key, right_key, left_key);
        assert(-1000 <= xa * scale <= 1000 && -1000 <= ya * scale <= 1000) by (nonlinear_arith)
            requires
                -1 <= xa <= 1,
                -1 <= ya <= 1,
                0 <= scale <= 1000,
        ;
    }
    Vec2I { x: xa * scale, y: ya * scale }
}

/// The movement vector's squared magnitude never exceeds one squared unit,
/// whatever the four movement keys hold.
pub proof fn lemma_movement_capped(
    forward_key: bool,
    back_key: bool,
    right_key: bool,
    left_key: bool,
)
    ensures
        intent_x(forward_key, back_key, right_key, left_key) * intent_x(
            forward_key,
            back_key,
            right_key,
            left_key,
        ) + intent_y(forward_key, back_key, right_key, left_key) * intent_y(
            forward_key,
            back_key,
            right_key,
            left_key,
        ) <= UNIT * UNIT,
{
    let xa = axis_value(right_key, left_key);
    let ya = axis_value(forward_key, back_key);
    let s = intent_scale(forward_key, back_key, right_key, left_key);
    let x = intent_x(forward_key, back_key, right_key, left_key);
    let y = intent_y(forward_key, back_key, right_key, left_key);
    assert(x * x + y * y <= 1_000_000) by (nonlinear_arith)
        requires
            x == xa * s,
            y == ya * s,
            xa == -1 || xa == 0 || xa == 1,
            ya == -1 || ya == 0 || ya == 1,
            (xa != 0 && ya != 0) ==> s == 707,
            (xa == 0 || ya == 0) ==> s == 1000,
    ;
}

/// Edge-triggered jump: fires only on the tick the key goes down.
pub fn jump_edge(jump_key: bool, jump_key_before: bool) -> (j: bool)
    ensures
        j == (jump_key && !jump_key_before),
{
    jump_key && !jump_key_before
}

/// Whether the jump intent fires at tick `i` of a run of jump-key states,
/// where `before` is the key state on the tick just before the run.
pub open spec fn jump_fires(keys: Seq<bool>, before: bool, i: int) -> bool
    recommends
        0 <= i < keys.len(),
{
    keys[i] && !(if i == 0 {
        before
    } else {
        keys[i - 1]
    })
}

/// The jump intent never fires on two consecutive ticks.
pub proof fn lemma_jump_not_consecutive(keys: Seq<bool>, before: bool, i: int)
    requires
        0 <= i,
        i + 1 < keys.len(),
        jump_fires(keys, before, i),
    ensures
        !jump_fires(keys, before, i + 1),
{
}

/// While the jump key stays held, the intent fires at most once: after the
/// press tick it stays quiet until the key is released.
pub proof fn lemma_jump_once_per_press(keys: Seq<bool>, before: bool, i: int, j: int)
    requires
        0 <= i < j < keys.len(),
        jump_fires(keys, before, i),
        forall|k: int| i <= k <= j ==> keys[k],
    ensures
        !jump_fires(keys, before, j),
{
    assert(keys[j - 1]);
}

fn saturate_to_i64(v: i128) -> (r: i64)
    ensures
        r == saturated(v as int),
{
    if v > i64::MAX as i128 {
        i64::MAX
    } else if v < i64::MIN as i128 {
        i64::MIN
    } else {
        v as i64
    }
}

/// Aggregates one tick's raw readings into a frame intent: movement from the
/// four movement keys (diagonal capped), jump on the key's press edge only,
/// look as the saturated sum of the pointer deltas with the vertical flipped,
/// scroll as the saturated, sign-flipped sum of the wheel deltas.
pub fn update_input(
    forward_key: bool,
    back_key: bool,
    right_key: bool,
    left_key: bool,
    jump_key: bool,
    jump_key_before: bool,
    motion: &Vec<Vec2I>,
    wheel: &Vec<i64>,
) -> (r: InputBindings)
    ensures
        r.movement.x == intent_x(forward_key, back_key, right_key, left_key),
        r.movement.y == intent_y(forward_key, back_key, right_key, left_key),
        r.movement.x * r.movement.x + r.movement.y * r.movement.y <= UNIT * UNIT,
        -UNIT <= r.movement.x <= UNIT,
        -UNIT <= r.movement.y <= UNIT,
        r.do_jump == (jump_key && !jump_key_before),
        r.look.x == saturated(motion_sum_x(motion@)),
        r.look.y == saturated(-motion_sum_y(motion@)),
        r.scroll == saturated(-wheel_sum(wheel@)),
{
    let movement = movement_vector(forward_key, back_key, right_key, left_key);
    let do_jump = jump_edge(jump_key, jump_key_before);

    let mut sum_x: i128 = 0;
    let mut sum_y: i128 = 0;
    let mut i: usize = 0;
    while i < motion.len()
        invariant
            0 <= i <= motion.len(),
            sum_x == motion_sum_x(motion@.take(i as int)),
            sum_y == motion_sum_y(motion@.take(i as int)),
            (i as int) * (i64::MIN as int) <= sum_x <= (i as int) * (i64::MAX as int),
            (i as int) * (i64::MIN as int) <= sum_y <= (i as int) * (i64::MAX as int),
        decreases motion.len() - i,
    {
        let d = motion[i];
        proof {
            assert(motion@.take(i + 1).drop_last() =~= motion@.take(i as int));
            assert(motion@.take(i + 1).last() == motion@[i as int]);
        }
        sum_x = sum_x + d.x as i128;
        sum_y = sum_y + d.y as i128;
        i = i + 1;
    }
    proof {
        assert(motion@.take(motion@.len() as int) =~= motion@);
    }

    let mut sum_w: i128 = 0;
    let mut k: usize = 0;
    while k < wheel.len()
        invariant
            0 <= k <= wheel.len(),
            sum_w == wheel_sum(wheel@.take(k as int)),
            (k as int) * (i64::MIN as int) <= sum_w <= (k as int) * (i64::MAX as int),
        decreases wheel.len() - k,
    {
        let d = wheel[k];
        proof {
            assert(wheel@.take(k + 1).drop_last() =~= wheel@.take(k as int));
            assert(wheel@.take(k + 1).last() == wheel@[k as int]);
        }
        sum_w = sum_w + d as i128;
        k = k + 1;
    }
    proof {
        assert(wheel@.take(wheel@.len() as int) =~= wheel@);
    }

    assert(sum_y > i128::MIN);
    assert(sum_w > i128::MIN);
    let look = Vec2I { x: saturate_to_i64(sum_x), y: saturate_to_i64(-sum_y) };
    let scroll = saturate_to_i64(-sum_w);
    InputBindings { movement, look, do_jump, scroll }
}

} // verus!

use vstd::prelude::*;

verus! {

/// How much holding a direction key changes every body's horizontal
/// acceleration in one frame.
pub const PUSH: i32 = 10;

/// How much a jump takes off a body's vertical velocity for each floor it
/// stands on.  (The vertical axis of velocity points down: the position
/// moves by minus the velocity.)
pub const JUMP_IMPULSE: i32 = 10;

/// The keys that the sandbox reads in one frame.
#[derive(PartialEq, Eq, Structural, Debug, Clone, Copy)]
pub struct KeyState {
    /// The spawn key (E) went down in this frame.
    pub spawn_just_pressed: bool,
    /// The left key (A) is held.
    pub left_held: bool,
    /// The right key (D) is held.
    pub right_held: bool,
    /// The jump key (space) went down in this frame.
    pub jump_just_pressed: bool,
}

/// What the keys ask of the world in one frame.
#[derive(PartialEq, Eq, Debug, Clone)]
pub struct InputActions {
    /// Spawn a new pixel above the ground.
    pub spawn_pixel: bool,
    /// Changes to add, one after the other, to the horizontal acceleration
    /// of every body.
    pub accel_x_steps: Vec<i32>,
    /// Every body that stands on a floor jumps.
    pub jump: bool,
}

/// The acceleration changes that the held keys call for, in the order in
/// which they are applied: left first, then right.  A positive change
/// moves a body to the left, since the position moves by minus the
/// velocity.
pub open spec fn spec_accel_steps(keys: KeyState) -> Seq<i32> {
    (if keys.left_held { seq![PUSH] } else { Seq::empty() }) + (if keys.right_held {
        seq![(-PUSH) as i32]
    } else {
        Seq::empty()
    })
}

/// The sum of a sequence of acceleration changes.
pub open spec fn spec_total(steps: Seq<i32>) -> int
    decreases steps.len(),
{
    if steps.len() == 0 {
        0
    } else {
        spec_total(steps.drop_last()) + steps.last()
    }
}

/// Turns the keys of one frame into what they ask of the world.
pub fn actions_for(keys: KeyState) -> (r: InputActions)
    ensures
        r.spawn_pixel == keys.spawn_just_pressed,
        r.accel_x_steps@ == spec_accel_steps(keys),
        r.jump == keys.jump_just_pressed,
        r.accel_x_steps@.len() == (if keys.left_held { 1nat } else { 0nat }) + (if keys.right_held {
            1nat
        } else {
            0nat
        }),
        forall|i: int|
            0 <= i < r.accel_x_steps@.len() ==> #[trigger] r.accel_x_steps@[i] == PUSH
                || r.accel_x_steps@[i] == -PUSH,
        keys.left_held ==> r.accel_x_steps@[0] == PUSH,
        keys.right_held ==> r.accel_x_steps@.last() == -PUSH,
{
    let mut steps: Vec<i32> = Vec::new();
    if keys.left_held {
        steps.push(PUSH);
    }
    if keys.right_held {
        steps.push(-PUSH);
    }
    proof {
        assert(steps@ =~= spec_accel_steps(keys));
    }
    InputActions {
        spawn_pixel: keys.spawn_just_pressed,
        accel_x_steps: steps,
        jump: keys.jump_just_pressed,
    }
}

/// The acceleration changes follow the direction keys alone: one change
/// per held direction key, each of them `PUSH` or `-PUSH`, the left key's
/// `PUSH` first and the right key's `-PUSH` last; with no direction key
/// held there is no change at all.
pub proof fn lemma_steps_follow_direction_keys(keys: KeyState)
    ensures
        spec_accel_steps(keys).len() == (if keys.left_held { 1nat } else { 0nat }) + (
        if keys.right_held {
            1nat
        } else {
            0nat
        }),
        forall|i: int|
            0 <= i < spec_accel_steps(keys).len() ==> #[trigger] spec_accel_steps(keys)[i] == PUSH
                || spec_accel_steps(keys)[i] == -PUSH,
        keys.left_held ==> spec_accel_steps(keys)[0] == PUSH,
        keys.right_held ==> spec_accel_steps(keys).last() == -PUSH,
        !keys.left_held && !keys.right_held ==> spec_accel_steps(keys).len() == 0,
{
}

/// The spawn and jump keys never change the acceleration changes: two key
/// states that agree on the direction keys ask for the same changes.
pub proof fn lemma_steps_ignore_spawn_and_jump(a: KeyState, b: KeyState)
    requires
        a.left_held == b.left_held,
        a.right_held == b.right_held,
    ensures
        spec_accel_steps(a) == spec_accel_steps(b),
{
}

/// Holding both direction keys pushes a body as much left as right: the
/// changes the keys ask for add up to `PUSH` for the left key alone,
/// `-PUSH` for the right key alone, and nothing otherwise.
pub proof fn lemma_net_push(keys: KeyState)
    ensures
        spec_total(spec_accel_steps(keys)) == (if keys.left_held { PUSH as int } else { 0 }) - (
        if keys.right_held {
            PUSH as int
        } else {
            0
        }),
{
    reveal_with_fuel(spec_total, 3);
    let s = spec_accel_steps(keys);
    if keys.left_held && keys.right_held {
        assert(s =~= seq![PUSH, (-PUSH) as i32]);
        assert(s.drop_last() =~= seq![PUSH]);
        assert(s.drop_last().drop_last() =~= Seq::<i32>::empty());
    } else if keys.left_held {
        assert(s =~= seq![PUSH]);
        assert(s.drop_last() =~= Seq::<i32>::empty());
    } else if keys.right_held {
        assert(s =~= seq![(-PUSH) as i32]);
        assert(s.drop_last() =~= Seq::<i32>::empty());
    } else {
        assert(s =~= Seq::<i32>::empty());
    }
}

} // verus!

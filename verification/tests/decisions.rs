use pixel_sim::collision::{lands_on_floor, Contact};
use pixel_sim::controls::{actions_for, KeyState, JUMP_IMPULSE, PUSH};
use pixel_sim::frame::{frame_action, FrameAction, LoopEvent, FRAME_NANOS};
use pixel_sim::oscillation::{next_increase, TURN_HUNDREDTHS};

fn keys(spawn: bool, left: bool, right: bool, jump: bool) -> KeyState {
    KeyState {
        spawn_just_pressed: spawn,
        left_held: left,
        right_held: right,
        jump_just_pressed: jump,
    }
}

#[test]
fn direction_turns_down_at_upper_bound() {
    assert!(!next_increase(100, true));
    assert!(!next_increase(100, false));
}

#[test]
fn direction_turns_up_at_lower_bound() {
    assert!(next_increase(-100, false));
    assert!(next_increase(-100, true));
}

#[test]
fn direction_holds_inside_the_band() {
    for h in [-99i64, -1, 0, 1, 50, 99] {
        assert!(next_increase(h, true));
        assert!(!next_increase(h, false));
    }
}

#[test]
fn direction_holds_past_the_band() {
    assert!(next_increase(101, true));
    assert!(!next_increase(-101, false));
    assert!(next_increase(i64::MAX, true));
    assert!(!next_increase(i64::MIN, false));
}

#[test]
fn repeated_observation_keeps_direction() {
    let once = next_increase(100, true);
    assert_eq!(next_increase(100, once), once);
    let once = next_increase(-100, false);
    assert_eq!(next_increase(-100, once), once);
}

#[test]
fn triangle_bounces_between_bounds() {
    // The offset in ten-thousandths, stepped by one per frame as the
    // animation does, rounded to hundredths half away from zero.
    fn hundredths(ten_thousandths: i64) -> i64 {
        let q = ten_thousandths.abs();
        let r = (q + 50) / 100;
        if ten_thousandths < 0 { -r } else { r }
    }
    let mut t: i64 = 0;
    let mut increase = true;
    let mut max_t = 0;
    let mut min_t = 0;
    for _ in 0..100_000 {
        increase = next_increase(hundredths(t), increase);
        if increase { t += 1 } else { t -= 1 }
        max_t = max_t.max(t);
        min_t = min_t.min(t);
    }
    assert_eq!(max_t, 9950);
    assert_eq!(min_t, -9950);
    assert_eq!(TURN_HUNDREDTHS, 100);
}

#[test]
fn landing_on_top_or_inside() {
    assert!(lands_on_floor(Some(Contact::Top)));
    assert!(lands_on_floor(Some(Contact::Inside)));
}

#[test]
fn no_landing_on_sides_or_without_contact() {
    assert!(!lands_on_floor(Some(Contact::Left)));
    assert!(!lands_on_floor(Some(Contact::Right)));
    assert!(!lands_on_floor(Some(Contact::Bottom)));
    assert!(!lands_on_floor(None));
}

#[test]
fn close_request_exits() {
    assert_eq!(frame_action(LoopEvent::CloseRequested), FrameAction::Exit);
}

#[test]
fn other_events_wait_one_frame() {
    assert_eq!(
        frame_action(LoopEvent::OtherWindowEvent),
        FrameAction::WaitFor { nanos: 16_666_667 }
    );
    assert_eq!(
        frame_action(LoopEvent::Other),
        FrameAction::WaitFor { nanos: FRAME_NANOS }
    );
}

#[test]
fn no_keys_no_actions() {
    let a = actions_for(keys(false, false, false, false));
    assert!(!a.spawn_pixel);
    assert!(a.accel_x_steps.is_empty());
    assert!(!a.jump);
}

#[test]
fn spawn_and_jump_keys() {
    let a = actions_for(keys(true, false, false, true));
    assert!(a.spawn_pixel);
    assert!(a.jump);
    assert!(a.accel_x_steps.is_empty());
    assert_eq!(JUMP_IMPULSE, 10);
}

#[test]
fn left_key_pushes_positive() {
    let a = actions_for(keys(false, true, false, false));
    assert_eq!(a.accel_x_steps, vec![10]);
}

#[test]
fn right_key_pushes_negative() {
    let a = actions_for(keys(false, false, true, false));
    assert_eq!(a.accel_x_steps, vec![-10]);
}

#[test]
fn both_direction_keys_cancel() {
    let a = actions_for(keys(false, true, true, false));
    assert_eq!(a.accel_x_steps, vec![PUSH, -PUSH]);
    assert_eq!(a.accel_x_steps.iter().sum::<i32>(), 0);
}

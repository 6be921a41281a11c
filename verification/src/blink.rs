//! The decisions of the idle loop that blinks the LED.
use vstd::prelude::*;

verus! {

/// Level of the LED pin. The LED is active low: the pin is driven low to
/// light it.
#[derive(Clone, Copy, Debug, PartialEq, Eq, Structural)]
pub enum PinLevel {
    High,
    Low,
}

/// The pin level for an LED state: zero (off) drives the pin high, any other
/// state drives it low.
pub open spec fn pin_level_of(led_state: u8) -> PinLevel {
    if led_state == 0 {
        PinLevel::High
    } else {
        PinLevel::Low
    }
}

/// The LED state after a toggle: one for an even state, zero for an odd one
/// (the lowest bit flipped, the others dropped).
pub open spec fn toggled(led_state: u8) -> u8 {
    if led_state % 2 == 0 {
        1
    } else {
        0
    }
}

/// Milliseconds from `since` to `now` on the 32-bit clock, which wraps.
pub open spec fn elapsed(now: u32, since: u32) -> int {
    if now >= since {
        now - since
    } else {
        now + 0x1_0000_0000 - since
    }
}

/// Whether the LED is due to change: blinking is on and it has stayed in its
/// state for at least the lit time.
pub open spec fn toggle_due(blink_enable: u8, glow_time: u16, now: u32, led_timer: u32) -> bool {
    blink_enable != 0 && elapsed(now, led_timer) >= glow_time
}

/// What one pass of the idle loop does: the LED state and timer after it,
/// and the pin level to drive, if any.
pub open spec fn blink_outcome(blink_enable: u8, glow_time: u16, now: u32, led_state: u8, led_timer: u32) -> (u8, u32, Option<PinLevel>) {
    if toggle_due(blink_enable, glow_time, now, led_timer) {
        (toggled(led_state), now, Some(pin_level_of(toggled(led_state))))
    } else {
        (led_state, led_timer, None)
    }
}

/// The pin level after a pass: the level driven, or the one it had.
pub open spec fn pin_after(pin: PinLevel, driven: Option<PinLevel>) -> PinLevel {
    match driven {
        Some(level) => level,
        None => pin,
    }
}

/// The LED state, timer and pin level after passes of the idle loop at the
/// clock readings `nows`, in order.
pub open spec fn blink_run(blink_enable: u8, glow_time: u16, nows: Seq<u32>, led_state: u8, led_timer: u32, pin: PinLevel) -> (u8, u32, PinLevel)
    decreases nows.len(),
{
    if nows.len() == 0 {
        (led_state, led_timer, pin)
    } else {
        let (s, t, p) = blink_run(blink_enable, glow_time, nows.drop_last(), led_state, led_timer, pin);
        let (s2, t2, driven) = blink_outcome(blink_enable, glow_time, nows.last(), s, t);
        (s2, t2, pin_after(p, driven))
    }
}

/// Pin level for an LED state (active low).
pub fn led_state_to_pin_state(led_state: u8) -> (r: PinLevel)
    ensures
        r == pin_level_of(led_state),
{
    if led_state == 0 {
        PinLevel::High
    } else {
        PinLevel::Low
    }
}

/// One pass of the idle loop: when the LED is due to change, flips its state,
/// restarts its timer at `now` and returns the new pin level to drive;
/// otherwise leaves both as they are and returns `None`.
pub fn blink_step(blink_enable: u8, glow_time: u16, now: u32, led_state: &mut u8, led_timer: &mut u32) -> (r: Option<PinLevel>)
    ensures
        toggle_due(blink_enable, glow_time, now, *old(led_timer)) ==> {
            &&& *final(led_state) == toggled(*old(led_state))
            &&& *final(led_timer) == now
            &&& r == Some(pin_level_of(*final(led_state)))
        },
        !toggle_due(blink_enable, glow_time, now, *old(led_timer)) ==> {
            &&& *final(led_state) == *old(led_state)
            &&& *final(led_timer) == *old(led_timer)
            &&& r is None
        },
        (*final(led_state), *final(led_timer), r) == blink_outcome(
            blink_enable,
            glow_time,
            now,
            *old(led_state),
            *old(led_timer),
        ),
{
    if blink_enable != 0 {
        let since = *led_timer;
        if now.wrapping_sub(since) >= glow_time as u32 {
            let old_state = *led_state;
            let new_state = !old_state & 1;
            assert(new_state == toggled(old_state)) by {
                assert(!old_state & 1u8 == (if old_state % 2 == 0 { 1u8 } else { 0u8 })) by (bit_vector);
            }
            *led_state = new_state;
            *led_timer = now;
            return Some(led_state_to_pin_state(new_state));
        }
    }
    None
}

/// Toggling the LED keeps its state at zero or one, and toggling twice gives
/// back the state's lowest bit (the state itself, once it is zero or one).
pub proof fn lemma_toggle_twice(led_state: u8)
    ensures
        toggled(led_state) <= 1,
        toggled(toggled(led_state)) == led_state % 2,
        led_state <= 1 ==> toggled(toggled(led_state)) == led_state,
{
}

/// Every toggle changes the pin level: from an LED state of zero or one, the
/// toggled state drives the other level.
pub proof fn lemma_toggle_changes_pin(led_state: u8)
    requires
        led_state <= 1,
    ensures
        pin_level_of(toggled(led_state)) != pin_level_of(led_state),
{
}

/// One pass of the idle loop keeps the pin matching the LED state (high iff
/// the state is zero), and a state it toggled is zero or one.
pub proof fn lemma_blink_keeps_pin(blink_enable: u8, glow_time: u16, now: u32, led_state: u8, led_timer: u32, pin: PinLevel)
    requires
        pin == pin_level_of(led_state),
    ensures
        pin_after(pin, blink_outcome(blink_enable, glow_time, now, led_state, led_timer).2)
            == pin_level_of(blink_outcome(blink_enable, glow_time, now, led_state, led_timer).0),
        blink_outcome(blink_enable, glow_time, now, led_state, led_timer).2 is Some ==> blink_outcome(
            blink_enable,
            glow_time,
            now,
            led_state,
            led_timer,
        ).0 <= 1,
{
}

/// At every head of the idle loop the pin matches the LED state, given that
/// it matched on entry: after any passes, the pin is high iff the state is
/// zero, and the state is zero or one once it has toggled, or else unchanged.
pub proof fn lemma_blink_run_keeps_pin(blink_enable: u8, glow_time: u16, nows: Seq<u32>, led_state: u8, led_timer: u32)
    ensures
        blink_run(blink_enable, glow_time, nows, led_state, led_timer, pin_level_of(led_state)).2
            == pin_level_of(blink_run(blink_enable, glow_time, nows, led_state, led_timer, pin_level_of(led_state)).0),
        blink_run(blink_enable, glow_time, nows, led_state, led_timer, pin_level_of(led_state)).0 <= 1
            || blink_run(blink_enable, glow_time, nows, led_state, led_timer, pin_level_of(led_state)).0
            == led_state,
    decreases nows.len(),
{
    if nows.len() > 0 {
        lemma_blink_run_keeps_pin(blink_enable, glow_time, nows.drop_last(), led_state, led_timer);
        let (s, t, p) = blink_run(blink_enable, glow_time, nows.drop_last(), led_state, led_timer, pin_level_of(led_state));
        lemma_blink_keeps_pin(blink_enable, glow_time, nows.last(), s, t, p);
    }
}

/// The LED is due to change exactly when blinking is on and the time since
/// the last change, on the 32-bit clock that wraps, is at least the full
/// 16-bit lit time.
pub proof fn lemma_toggle_due_full_lit_time(blink_enable: u8, glow_time: u16, now: u32, led_timer: u32)
    ensures
        toggle_due(blink_enable, glow_time, now, led_timer) <==> (blink_enable != 0 && (now as int
            - led_timer as int) % 0x1_0000_0000 >= glow_time as int),
{
    if now >= led_timer {
        assert((now as int - led_timer as int) % 0x1_0000_0000 == now - led_timer);
    } else {
        assert((now as int - led_timer as int) % 0x1_0000_0000 == now + 0x1_0000_0000 - led_timer);
    }
}

/// One pass of the idle loop, in terms of its inputs: when blinking is on and
/// the full lit time has passed on the wrapping clock, the LED state's lowest
/// bit flips (an odd state goes to zero, an even one to one), the timer
/// restarts at `now` and the pin is driven high exactly when the new state is
/// zero (the LED is active low); otherwise nothing changes and nothing is
/// driven.
pub proof fn lemma_blink_outcome(blink_enable: u8, glow_time: u16, now: u32, led_state: u8, led_timer: u32)
    ensures
        blink_outcome(blink_enable, glow_time, now, led_state, led_timer) == (if blink_enable != 0
            && (now as int - led_timer as int) % 0x1_0000_0000 >= glow_time as int {
            (
                (1 - led_state % 2) as u8,
                now,
                Some(
                    if led_state % 2 == 1 {
                        PinLevel::High
                    } else {
                        PinLevel::Low
                    },
                ),
            )
        } else {
            (led_state, led_timer, None)
        }),
{
    lemma_toggle_due_full_lit_time(blink_enable, glow_time, now, led_timer);
}

} // verus!

use eui_board::blink::{blink_step, led_state_to_pin_state, PinLevel};
use eui_board::clock::SystemClock;
use eui_board::serial::{idle_received_len, on_dma_tx_complete, start_dma_tx, TxTransfer, DMA_RX_XFER_SIZE};

#[test]
fn pin_level_is_active_low() {
    assert_eq!(led_state_to_pin_state(0), PinLevel::High);
    assert_eq!(led_state_to_pin_state(1), PinLevel::Low);
    assert_eq!(led_state_to_pin_state(7), PinLevel::Low);
}

#[test]
fn blink_toggles_when_due() {
    let mut state = 0u8;
    let mut timer = 1000u32;
    assert_eq!(blink_step(1, 200, 1199, &mut state, &mut timer), None);
    assert_eq!((state, timer), (0, 1000));
    assert_eq!(blink_step(1, 200, 1200, &mut state, &mut timer), Some(PinLevel::Low));
    assert_eq!((state, timer), (1, 1200));
    assert_eq!(blink_step(1, 200, 1400, &mut state, &mut timer), Some(PinLevel::High));
    assert_eq!((state, timer), (0, 1400));
}

#[test]
fn blink_disabled_keeps_state() {
    let mut state = 1u8;
    let mut timer = 0u32;
    assert_eq!(blink_step(0, 0, 5000, &mut state, &mut timer), None);
    assert_eq!((state, timer), (1, 0));
}

#[test]
fn blink_zero_glow_time_toggles_every_pass() {
    let mut state = 0u8;
    let mut timer = 7u32;
    assert_eq!(blink_step(1, 0, 7, &mut state, &mut timer), Some(PinLevel::Low));
    assert_eq!(blink_step(1, 0, 7, &mut state, &mut timer), Some(PinLevel::High));
}

#[test]
fn blink_across_clock_wrap() {
    let mut state = 0u8;
    let mut timer = u32::MAX - 50;
    // 100 ms have passed across the wrap of the 32-bit clock.
    assert_eq!(blink_step(1, 100, 49, &mut state, &mut timer), Some(PinLevel::Low));
    assert_eq!(timer, 49);
    let mut timer = u32::MAX - 50;
    assert_eq!(blink_step(1, 101, 49, &mut state, &mut timer), None);
}

#[test]
fn toggle_of_odd_state() {
    let mut state = 5u8;
    let mut timer = 0u32;
    assert_eq!(blink_step(1, 0, 0, &mut state, &mut timer), Some(PinLevel::High));
    assert_eq!(state, 0);
    let mut state = 6u8;
    blink_step(1, 0, 0, &mut state, &mut timer);
    assert_eq!(state, 1);
}

#[test]
fn clock_counts_interrupts() {
    let mut clock = SystemClock::new();
    assert_eq!(clock.get_raw(), 0);
    clock.inc_from_interrupt();
    clock.inc_from_interrupt();
    clock.inc_from_interrupt();
    assert_eq!(clock.get_raw(), 3);
}

#[test]
fn idle_line_received_bytes() {
    assert_eq!(idle_received_len(0), DMA_RX_XFER_SIZE);
    assert_eq!(idle_received_len(32), 0);
    assert_eq!(idle_received_len(20), 12);
}

#[test]
fn tx_transfer_states() {
    let t: TxTransfer<u8, u16, u32> = TxTransfer::Empty;
    assert!(!t.is_initialized() && !t.is_uninitialized());
    let t: TxTransfer<u8, u16, u32> = TxTransfer::Uninitialized(1, 2);
    assert!(!t.is_initialized() && t.is_uninitialized());
    let t: TxTransfer<u8, u16, u32> = TxTransfer::Initialized(3);
    assert!(t.is_initialized() && !t.is_uninitialized());
}

#[test]
fn tx_start_and_complete() {
    let mut t: TxTransfer<u8, u16, u32> = TxTransfer::Uninitialized(1, 2);
    // Nothing to send: nothing starts.
    assert!(!start_dma_tx(&mut t, false, |s, p| u32::from(s) + u32::from(p)));
    assert!(t.is_uninitialized());
    assert!(start_dma_tx(&mut t, true, |s, p| u32::from(s) * 100 + u32::from(p)));
    assert!(matches!(t, TxTransfer::Initialized(102)));
    // A transfer under way is not restarted.
    assert!(!start_dma_tx(&mut t, true, |_, _| 7));
    assert!(matches!(t, TxTransfer::Initialized(102)));
    assert!(!on_dma_tx_complete(&mut t, false, |x| (x as u8, 0)));
    assert!(t.is_initialized());
    assert!(on_dma_tx_complete(&mut t, true, |x| ((x / 100) as u8, (x % 100) as u16)));
    assert!(matches!(t, TxTransfer::Uninitialized(1, 2)));
    assert!(!on_dma_tx_complete(&mut t, true, |_| (0, 0)));
    assert!(t.is_uninitialized());
}

#[test]
fn pin_follows_state_over_passes() {
    let mut state = 0u8;
    let mut timer = 0u32;
    let mut pin = led_state_to_pin_state(state);
    for now in [50u32, 100, 150, 200, 260, 300, 420, 420, 1000] {
        if let Some(level) = blink_step(1, 100, now, &mut state, &mut timer) {
            pin = level;
        }
        assert_eq!(pin, led_state_to_pin_state(state));
        assert!(state <= 1);
    }
}

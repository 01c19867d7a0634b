use epd_panel::arbiter::ExclusiveHandle;
use epd_panel::driver::{PanelDriver, PanelState};
use epd_panel::protocol::{
    clear_plan, init_plan, power_on_reset_plan, render_plan, sleep_plan, BusOp,
};
use epd_panel::DriverError;

fn small_panel_handle() -> ExclusiveHandle {
    // A 16 x 2 panel: plane_size = 16 * 2 / 8 = 4 bytes.
    ExclusiveHandle::new(PanelDriver::new(16, 2))
}

fn expected_cycle(plane_size: usize, black: &Vec<u8>, red: &Vec<u8>) -> Vec<BusOp> {
    let mut ops = power_on_reset_plan();
    ops.extend(init_plan());
    ops.extend(render_plan(plane_size, black, red).unwrap());
    ops.extend(sleep_plan());
    ops
}

#[test]
fn a_new_handle_reports_the_plane_size() {
    let handle = small_panel_handle();
    assert_eq!(handle.plane_len(), 4);
}

#[test]
fn the_plane_size_is_one_bit_per_pixel() {
    // The 800 x 480 panel: 800 * 480 / 8 = 48000 bytes per plane.
    let handle = ExclusiveHandle::new(PanelDriver::new(800, 480));
    assert_eq!(handle.plane_len(), 48000);
}

#[test]
fn the_phases_step_through_the_panel_states() {
    let handle = small_panel_handle();
    let mut guard = handle.acquire();
    assert_eq!(guard.current_state(), PanelState::PoweredDown);
    guard.power_on_and_reset();
    assert_eq!(guard.current_state(), PanelState::Resetting);
    guard.initialize();
    assert_eq!(guard.current_state(), PanelState::Initialized);
    let black = vec![1u8, 2, 3, 4];
    let red = vec![5u8, 6, 7, 8];
    guard.render(&black, &red).unwrap();
    assert_eq!(guard.current_state(), PanelState::Rendering);
    guard.complete_render();
    assert_eq!(guard.current_state(), PanelState::Initialized);
    guard.sleep_down();
    assert_eq!(guard.current_state(), PanelState::Asleep);
    guard.complete_sleep();
    assert_eq!(guard.current_state(), PanelState::PoweredDown);
    guard.release();
}

#[test]
fn the_panel_state_persists_across_acquisitions() {
    let handle = small_panel_handle();
    let mut guard = handle.acquire();
    guard.power_on_and_reset();
    guard.release();
    let guard = handle.acquire();
    assert_eq!(guard.current_state(), PanelState::Resetting);
    guard.release();
}

#[test]
fn a_render_cycle_is_the_four_phases_in_order() {
    let handle = small_panel_handle();
    let mut guard = handle.acquire();
    let black = vec![1u8, 2, 3, 4];
    let red = vec![9u8, 8, 7, 6];
    let ops = guard.run_render_cycle(&black, &red).unwrap();
    assert_eq!(ops, expected_cycle(4, &black, &red));
    assert_eq!(guard.current_state(), PanelState::Asleep);
    guard.complete_sleep();
    guard.release();
}

#[test]
fn a_bad_length_is_rejected_before_any_bus_operation() {
    let handle = small_panel_handle();
    let mut guard = handle.acquire();
    let black = vec![1u8, 2, 3];
    let red = vec![9u8, 8, 7, 6];
    assert_eq!(
        guard.run_render_cycle(&black, &red),
        Err(DriverError::SizeMismatch)
    );
    // No phase ran: the panel state did not move.
    assert_eq!(guard.current_state(), PanelState::PoweredDown);
    guard.release();
}

#[test]
fn a_clear_cycle_renders_the_blank_planes() {
    let handle = small_panel_handle();
    let mut guard = handle.acquire();
    let ops = guard.run_clear_cycle();
    let mut expected = power_on_reset_plan();
    expected.extend(init_plan());
    expected.extend(clear_plan(4));
    expected.extend(sleep_plan());
    assert_eq!(ops, expected);
    guard.complete_sleep();
    guard.release();
}

#[test]
fn two_callers_in_turn_each_replay_one_whole_cycle() {
    let handle = small_panel_handle();
    let black_a = vec![0xAAu8; 4];
    let red_a = vec![0x00u8; 4];
    let black_b = vec![0x55u8; 4];
    let red_b = vec![0xFFu8; 4];

    let mut guard = handle.acquire();
    let trace_a = guard.run_render_cycle(&black_a, &red_a).unwrap();
    guard.complete_sleep();
    guard.release();

    let mut guard = handle.acquire();
    let trace_b = guard.run_render_cycle(&black_b, &red_b).unwrap();
    guard.complete_sleep();
    guard.release();

    // Each caller's trace is its own contiguous cycle, nothing of the
    // other's in it.
    assert_eq!(trace_a, expected_cycle(4, &black_a, &red_a));
    assert_eq!(trace_b, expected_cycle(4, &black_b, &red_b));
}

#[test]
fn a_failed_replay_forces_the_panel_back_to_powered_down() {
    let handle = small_panel_handle();
    let mut guard = handle.acquire();
    guard.power_on_and_reset();
    guard.initialize();
    // The runner reports a bus write that failed part-way through a plan.
    guard.mark_failed();
    assert_eq!(guard.current_state(), PanelState::PoweredDown);
    // The next cycle recovers from power-on.
    let black = vec![1u8, 2, 3, 4];
    let red = vec![5u8, 6, 7, 8];
    let ops = guard.run_render_cycle(&black, &red).unwrap();
    assert_eq!(ops, expected_cycle(4, &black, &red));
    guard.complete_sleep();
    guard.release();
}

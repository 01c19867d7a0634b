use epd_panel::protocol::{
    blank_black_plane, blank_red_plane, clear_plan, init_plan, init_table, power_on_reset_plan,
    render_plan, sleep_plan, BusOp, CMD_BLACK_RAM, CMD_BOOSTER_SOFT_START, CMD_DEEP_SLEEP,
    CMD_DRIVER_OUTPUT, CMD_DUAL_SPI, CMD_PANEL_SETTING, CMD_POWER_OFF, CMD_POWER_ON, CMD_RED_RAM,
    CMD_REFRESH, CMD_RESOLUTION, CMD_TCON, CMD_VCOM_INTERVAL, DEEP_SLEEP_CHECK,
};
use epd_panel::DriverError;

#[test]
fn power_on_reset_plan_is_the_fixed_pulse() {
    let ops = power_on_reset_plan();
    assert_eq!(
        ops,
        vec![
            BusOp::PowerLine(true),
            BusOp::ResetLine(true),
            BusOp::SleepMs(200),
            BusOp::ResetLine(false),
            BusOp::SleepMs(4),
            BusOp::ResetLine(true),
            BusOp::SleepMs(200),
        ]
    );
}

#[test]
fn init_table_holds_the_fixed_configuration() {
    let t = init_table();
    assert_eq!(t.len(), 8);
    assert_eq!(t[0].opcode, CMD_DRIVER_OUTPUT);
    assert_eq!(t[0].params, vec![0x07, 0x07, 0x3F, 0x3F]);
    assert!(!t[0].wait_after);
    assert_eq!(t[1].opcode, CMD_BOOSTER_SOFT_START);
    assert_eq!(t[1].params, vec![0x17, 0x17, 0x28, 0x17]);
    assert!(!t[1].wait_after);
    assert_eq!(t[2].opcode, CMD_POWER_ON);
    assert_eq!(t[2].params, Vec::<u8>::new());
    assert!(t[2].wait_after);
    assert_eq!(t[3].opcode, CMD_PANEL_SETTING);
    assert_eq!(t[3].params, vec![0x0F]);
    assert_eq!(t[4].opcode, CMD_RESOLUTION);
    assert_eq!(t[4].params, vec![0x03, 0x20, 0x01, 0xE0]);
    assert_eq!(t[5].opcode, CMD_DUAL_SPI);
    assert_eq!(t[5].params, vec![0x00]);
    assert_eq!(t[6].opcode, CMD_VCOM_INTERVAL);
    assert_eq!(t[6].params, vec![0x11, 0x07]);
    assert_eq!(t[7].opcode, CMD_TCON);
    assert_eq!(t[7].params, vec![0x22]);
    assert!(!t[7].wait_after);
}

#[test]
fn init_plan_flattens_the_table_in_order() {
    let ops = init_plan();
    let expected = vec![
        BusOp::Command(CMD_DRIVER_OUTPUT),
        BusOp::Data(0x07),
        BusOp::Data(0x07),
        BusOp::Data(0x3F),
        BusOp::Data(0x3F),
        BusOp::Command(CMD_BOOSTER_SOFT_START),
        BusOp::Data(0x17),
        BusOp::Data(0x17),
        BusOp::Data(0x28),
        BusOp::Data(0x17),
        BusOp::Command(CMD_POWER_ON),
        BusOp::SleepMs(100),
        BusOp::WaitReady,
        BusOp::Command(CMD_PANEL_SETTING),
        BusOp::Data(0x0F),
        BusOp::Command(CMD_RESOLUTION),
        BusOp::Data(0x03),
        BusOp::Data(0x20),
        BusOp::Data(0x01),
        BusOp::Data(0xE0),
        BusOp::Command(CMD_DUAL_SPI),
        BusOp::Data(0x00),
        BusOp::Command(CMD_VCOM_INTERVAL),
        BusOp::Data(0x11),
        BusOp::Data(0x07),
        BusOp::Command(CMD_TCON),
        BusOp::Data(0x22),
    ];
    assert_eq!(ops, expected);
}

#[test]
fn render_plan_streams_black_then_red_then_refreshes() {
    let black = vec![1u8, 2, 3, 4];
    let red = vec![5u8, 6, 7, 8];
    let ops = render_plan(4, &black, &red).unwrap();
    let expected = vec![
        BusOp::Command(CMD_BLACK_RAM),
        BusOp::Data(1),
        BusOp::Data(2),
        BusOp::Data(3),
        BusOp::Data(4),
        BusOp::Command(CMD_RED_RAM),
        BusOp::Data(5),
        BusOp::Data(6),
        BusOp::Data(7),
        BusOp::Data(8),
        BusOp::Command(CMD_REFRESH),
        BusOp::SleepMs(100),
        BusOp::WaitReady,
    ];
    assert_eq!(ops, expected);
}

#[test]
fn render_plan_rejects_short_black_plane() {
    let black = vec![1u8, 2, 3];
    let red = vec![5u8, 6, 7, 8];
    assert_eq!(render_plan(4, &black, &red), Err(DriverError::SizeMismatch));
}

#[test]
fn render_plan_rejects_long_red_plane() {
    let black = vec![1u8, 2, 3, 4];
    let red = vec![5u8, 6, 7, 8, 9];
    assert_eq!(render_plan(4, &black, &red), Err(DriverError::SizeMismatch));
}

#[test]
fn render_plan_rejects_empty_planes_on_nonzero_panel() {
    let empty: Vec<u8> = Vec::new();
    assert_eq!(render_plan(4, &empty, &empty), Err(DriverError::SizeMismatch));
}

#[test]
fn blank_planes_use_opposite_polarities() {
    assert_eq!(blank_black_plane(3), vec![0xFF, 0xFF, 0xFF]);
    assert_eq!(blank_red_plane(3), vec![0x00, 0x00, 0x00]);
    assert_eq!(blank_black_plane(0), Vec::<u8>::new());
    assert_eq!(blank_red_plane(0), Vec::<u8>::new());
}

#[test]
fn clear_plan_is_render_of_the_blank_planes() {
    let black = blank_black_plane(5);
    let red = blank_red_plane(5);
    let rendered = render_plan(5, &black, &red).unwrap();
    assert_eq!(clear_plan(5), rendered);
}

#[test]
fn clearing_twice_gives_the_identical_trace() {
    assert_eq!(clear_plan(7), clear_plan(7));
}

#[test]
fn sleep_plan_powers_off_then_sleeps_then_drops_lines() {
    let ops = sleep_plan();
    assert_eq!(
        ops,
        vec![
            BusOp::Command(CMD_POWER_OFF),
            BusOp::WaitReady,
            BusOp::Command(CMD_DEEP_SLEEP),
            BusOp::Data(DEEP_SLEEP_CHECK),
            BusOp::SleepMs(2000),
            BusOp::ResetLine(false),
            BusOp::SelectLine(false),
            BusOp::PowerLine(false),
        ]
    );
}

use v5gdb::gdb_target::controller::{
    button_name, buttons_text, controller_report, ControllerReport, CONTROLLER_OFFLINE,
    CONTROLLER_TETHERED, CONTROLLER_VEXNET,
};

#[test]
fn offline_controller_has_no_report() {
    let r = controller_report(CONTROLLER_OFFLINE, [1, 2, 3, 4], 90, &[0; 13]);
    assert!(matches!(r, ControllerReport::Offline));
    assert!(matches!(controller_report(7, [0; 4], 0, &[1; 13]), ControllerReport::Offline));
}

#[test]
fn online_controller_lists_pressed_buttons_in_order() {
    let mut buttons = [0; 13];
    buttons[0] = 1; // L1
    buttons[5] = 1; // Down
    buttons[12] = 1; // SEL
    match controller_report(CONTROLLER_VEXNET, [-127, 5, 0, 127], 80, &buttons) {
        ControllerReport::Online { connection, left_stick, right_stick, battery, pressed } => {
            assert_eq!(connection, "VEXnet");
            assert_eq!(left_stick, (-127, 5));
            assert_eq!(right_stick, (0, 127));
            assert_eq!(battery, 80);
            assert_eq!(pressed, vec!["L1", "Down", "SEL"]);
            assert_eq!(buttons_text(&pressed), " L1 Down SEL");
        }
        ControllerReport::Offline => panic!("controller is online"),
    }
    match controller_report(CONTROLLER_TETHERED, [0; 4], 100, &[0; 13]) {
        ControllerReport::Online { connection, pressed, .. } => {
            assert_eq!(connection, "Tethered");
            assert!(pressed.is_empty());
            assert_eq!(buttons_text(&pressed), " (none)");
        }
        ControllerReport::Offline => panic!("controller is online"),
    }
    assert_eq!(button_name(9), "B");
}

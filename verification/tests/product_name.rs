use dap_probe::product::{is_probe_name, MARKER};

#[test]
fn marker_is_cmsis_dap() {
    assert_eq!(MARKER, "CMSIS-DAP");
}

#[test]
fn name_that_ends_with_marker_is_a_probe() {
    assert!(is_probe_name("Example CMSIS-DAP"));
}

#[test]
fn marker_alone_is_a_probe() {
    assert!(is_probe_name("CMSIS-DAP"));
}

#[test]
fn marker_in_the_middle_is_no_probe() {
    assert!(!is_probe_name("CMSIS-DAP v2"));
    assert!(!is_probe_name("CMSIS-DAP "));
}

#[test]
fn marker_must_match_exactly() {
    assert!(!is_probe_name("Example cmsis-dap"));
    assert!(!is_probe_name("Example CMSIS_DAP"));
    assert!(!is_probe_name("Example CMSIS-DA"));
    assert!(!is_probe_name("MSIS-DAP"));
}

#[test]
fn empty_name_is_no_probe() {
    assert!(!is_probe_name(""));
}

#[test]
fn name_with_wide_characters_is_measured_in_characters() {
    assert!(is_probe_name("Sonde é CMSIS-DAP"));
    assert!(!is_probe_name("ééééééééé"));
    assert!(!is_probe_name("CMSIS-DAPé"));
}

#[test]
fn probe_name_agrees_with_ends_with() {
    let names = ["", "CMSIS-DAP", "xCMSIS-DAP", "CMSIS-DAPx", "DAP", "USB Keyboard", "DAPLink CMSIS-DAP"];
    for name in names {
        assert_eq!(is_probe_name(name), name.ends_with("CMSIS-DAP"));
    }
}

use keytao_ime::ibus_files::{
    address_file_content, display_number, ibus_address_file_names, ibus_address_from_env,
    ibus_address_lookup_names, wayland_display_number,
};

#[test]
fn display_numbers_come_from_the_display_names() {
    assert_eq!(display_number(Some(":1")), 1);
    assert_eq!(display_number(Some(":0.0")), 0);
    assert_eq!(display_number(Some("host:10.2")), 10);
    assert_eq!(display_number(Some("unix:abc")), 0);
    assert_eq!(display_number(Some("7")), 7);
    assert_eq!(display_number(None), 0);
    assert_eq!(wayland_display_number(Some("wayland-1")), Some(1));
    assert_eq!(wayland_display_number(Some("wayland-x")), None);
    assert_eq!(wayland_display_number(Some("3")), Some(3));
    assert_eq!(wayland_display_number(None), None);
}

#[test]
fn address_files_hold_the_address_and_the_pid() {
    assert_eq!(
        address_file_content("unix:path=/run/user/1000/bus", 4242),
        "# This file is created by keytao-ime (IBus compatible)\nIBUS_ADDRESS=unix:path=/run/user/1000/bus\nIBUS_DAEMON_PID=4242\n"
    );
}

#[test]
fn address_file_names_are_sorted_without_repeats() {
    assert_eq!(
        ibus_address_file_names("m", 0, Some(1)),
        ["m-unix-0", "m-unix-wayland-0", "m-unix-wayland-1"]
    );
    assert_eq!(
        ibus_address_file_names("m", 12, Some(3)),
        ["m-unix-12", "m-unix-wayland-0", "m-unix-wayland-1", "m-unix-wayland-3"]
    );
    assert_eq!(
        ibus_address_file_names("m", 1, None),
        ["m-unix-1", "m-unix-wayland-0", "m-unix-wayland-1"]
    );
    let mut expected = vec![
        "id-unix-2".to_string(),
        "id-unix-wayland-0".to_string(),
        "id-unix-wayland-1".to_string(),
        "id-unix-wayland-10".to_string(),
    ];
    expected.sort();
    assert_eq!(ibus_address_file_names("id", 2, Some(10)), expected);
}

#[test]
fn an_engine_looks_in_its_own_display_files_first() {
    assert_eq!(
        ibus_address_lookup_names("m", 0, Some(2)),
        ["m-unix-wayland-2", "m-unix-wayland-0", "m-unix-0"]
    );
    assert_eq!(ibus_address_lookup_names("m", 3, None), ["m-unix-wayland-0", "m-unix-3"]);
    assert_eq!(ibus_address_from_env(Some("  unix:path=/x \n".to_string())).as_deref(), Some("unix:path=/x"));
    assert_eq!(ibus_address_from_env(Some("   ".to_string())), None);
    assert_eq!(ibus_address_from_env(None), None);
}

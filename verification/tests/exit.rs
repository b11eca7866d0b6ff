use rustos::QemuExitCode;

#[test]
fn exit_codes_of_the_emulator() {
    assert_eq!(QemuExitCode::Success.as_u32(), 0x10);
    assert_eq!(QemuExitCode::Failed.as_u32(), 0x11);
    assert_ne!(QemuExitCode::Success, QemuExitCode::Failed);
}

#[test]
fn trivial_assertion() {
    assert_eq!(1, 1);
}

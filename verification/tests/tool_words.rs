use esp32_bench::settings::{
    Settings, BAUD_RATE, EXPORT_SCRIPT, READ_TIMEOUT_SECS, SENTINEL, SERIAL_DEVICE,
};
use esp32_bench::tool::{shell_command, ToolAction};

#[test]
fn build_takes_one_word() {
    assert_eq!(ToolAction::Build.arguments("esp32s3"), "build");
}

#[test]
fn flash_takes_one_word() {
    assert_eq!(ToolAction::Flash.arguments("esp32s3"), "flash");
}

#[test]
fn set_target_names_the_board() {
    assert_eq!(ToolAction::SetTarget.arguments("esp32s3"), "set-target esp32s3");
    assert_eq!(ToolAction::SetTarget.arguments(""), "set-target ");
}

#[test]
fn shell_command_sources_the_script_then_runs_the_tool() {
    let line = shell_command("/opt/esp/export.sh", "/work/boards/esp32s3", "build");
    assert_eq!(line, ". /opt/esp/export.sh && idf.py -C /work/boards/esp32s3 build");
}

#[test]
fn shell_command_for_the_default_bench() {
    let words = ToolAction::SetTarget.arguments("esp32s3");
    let line = shell_command(EXPORT_SCRIPT, "/home/pi/bench/esp32s3", &words);
    assert_eq!(
        line,
        ". /media/pi/pi_external/esp/esp-idf/export.sh && idf.py -C /home/pi/bench/esp32s3 set-target esp32s3"
    );
}

#[test]
fn shell_command_keeps_empty_parts() {
    assert_eq!(shell_command("", "", ""), ".  && idf.py -C  ");
}

#[test]
fn default_settings_are_those_of_the_bench() {
    let settings = Settings::default();
    assert_eq!(settings.export_script, "/media/pi/pi_external/esp/esp-idf/export.sh");
    assert_eq!(settings.serial_device, "/dev/ttyACM0");
    assert_eq!(settings.baud_rate, 115_200);
    assert_eq!(settings.read_timeout_secs, 120);
    assert_eq!(settings.sentinel, "Benchmark Over");
    assert_eq!(settings.export_script, EXPORT_SCRIPT);
    assert_eq!(settings.serial_device, SERIAL_DEVICE);
    assert_eq!(settings.baud_rate, BAUD_RATE);
    assert_eq!(settings.read_timeout_secs, READ_TIMEOUT_SECS);
    assert_eq!(settings.sentinel, SENTINEL);
}

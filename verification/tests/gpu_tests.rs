use sysfetch::gpu::gpu_report;

#[test]
fn filters_vga_and_3d_lines() {
    let out = "00:00.0 Host bridge: Intel Corporation Device\n\
               01:00.0 VGA compatible controller: Example Corp Widget GPU (rev a1)\n\
               02:00.0 3D controller: Accel Co Unit X\n\
               03:00.0 Audio device: Noise Maker\n";
    assert_eq!(
        gpu_report(out, ""),
        "Example Corp Widget GPU (rev a1)\nAccel Co Unit X"
    );
}

#[test]
fn single_vga_line() {
    let out = "01:00.0 VGA compatible controller: Example Corp Widget GPU (rev a1)\n";
    assert_eq!(gpu_report(out, ""), "Example Corp Widget GPU (rev a1)");
}

#[test]
fn no_matching_lines() {
    let out = "00:00.0 Host bridge: Intel Corporation Device\n\
               03:00.0 Audio device: Noise Maker\n";
    assert_eq!(gpu_report(out, ""), "No GPU found.");
}

#[test]
fn empty_output() {
    assert_eq!(gpu_report("", ""), "No GPU found.");
}

#[test]
fn error_stream_takes_precedence() {
    let out = "01:00.0 VGA compatible controller: Example Corp Widget GPU (rev a1)\n";
    assert_eq!(
        gpu_report(out, "pcilib: cannot open bus"),
        "Error: pcilib: cannot open bus"
    );
}

#[test]
fn error_with_empty_output() {
    assert_eq!(gpu_report("", "boom"), "Error: boom");
}

#[test]
fn matching_line_without_third_field() {
    // A line that carries the marker but fewer than three colon-separated
    // fields falls back to the placeholder description.
    let out = "weird VGA line\n";
    assert_eq!(gpu_report(out, ""), "Unknown GPU");
}

#[test]
fn description_is_trimmed() {
    let out = "02:00.0 3D controller:    spaced out device   \n";
    assert_eq!(gpu_report(out, ""), "spaced out device");
}

#[test]
fn description_trim_handles_tabs() {
    let out = "02:00.0 3D controller:\tTabbed Device \t\n";
    assert_eq!(gpu_report(out, ""), "Tabbed Device");
}

#[test]
fn crlf_line_endings() {
    let out = "01:00.0 VGA compatible controller: Widget\r\n02:00.0 Audio device: Noise\r\n";
    assert_eq!(gpu_report(out, ""), "Widget");
}

#[test]
fn no_trailing_newline() {
    let out = "01:00.0 VGA compatible controller: Widget";
    assert_eq!(gpu_report(out, ""), "Widget");
}

#[test]
fn matching_line_with_empty_third_field() {
    // The extracted description is empty, so the joined result is empty
    // and the sentinel is produced.
    let out = "01:00.0 VGA compatible controller:\n";
    assert_eq!(gpu_report(out, ""), "No GPU found.");
}

#[test]
fn extra_colons_keep_third_field_only() {
    let out = "01:00.0 VGA compatible controller: NVIDIA Corporation GA102 [GeForce]: extra\n";
    assert_eq!(gpu_report(out, ""), "NVIDIA Corporation GA102 [GeForce]");
}

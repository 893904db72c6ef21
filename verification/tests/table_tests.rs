use sony_bravia_control::table::resolve;

fn expect_frame(name: &str, bytes: &[u8]) {
    let frame = resolve(name).unwrap_or_else(|| panic!("{} should resolve", name));
    assert_eq!(frame.len(), 24);
    assert_eq!(frame.as_bytes(), bytes);
}

#[test]
fn resolve_returns_documented_frames() {
    expect_frame("powerOff", b"*SCPOWR0000000000000000\n");
    expect_frame("powerOn", b"*SCPOWR0000000000000001\n");
    expect_frame("home", b"*SCIRCC0000000000000006\n");
    expect_frame("netflix", b"*SCIRCC0000000000000056\n");
    expect_frame("up", b"*SCIRCC0000000000000009\n");
    expect_frame("down", b"*SCIRCC0000000000000010\n");
    expect_frame("right", b"*SCIRCC0000000000000011\n");
    expect_frame("left", b"*SCIRCC0000000000000012\n");
    expect_frame("enter", b"*SCIRCC0000000000000013\n");
    expect_frame("return", b"*SCIRCC0000000000000008\n");
    expect_frame("hdmi1", b"*SCINPT0000000100000001\n");
    expect_frame("hdmi2", b"*SCINPT0000000100000002\n");
    expect_frame("hdmi3", b"*SCINPT0000000100000003\n");
    expect_frame("hdmi4", b"*SCINPT0000000100000004\n");
}

#[test]
fn resolve_rejects_unknown_names() {
    assert!(resolve("bogus").is_none());
    assert!(resolve("").is_none());
    assert!(resolve("PowerOn").is_none());
    assert!(resolve("power On").is_none());
    assert!(resolve("hdmi5").is_none());
    assert!(resolve("pöwerOn").is_none());
}

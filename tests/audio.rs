use tenebra::audio::{pulseaudio_monitor_name, MonitorError};

const LISTING: &str = "Source #0\n\tState: SUSPENDED\n\tName: alsa_input.pci-0000_00_1f.3.analog-stereo\n\tDescription: Built-in Audio\nSource #1\n\tState: RUNNING\n\tName: alsa_output.pci-0000_00_1f.3.analog-stereo.monitor\n\tDescription: Monitor of Built-in Audio\n";

#[test]
fn finds_the_monitor_source() {
    assert_eq!(
        pulseaudio_monitor_name(LISTING),
        Ok("alsa_output.pci-0000_00_1f.3.analog-stereo.monitor".to_string())
    );
}

#[test]
fn first_monitor_wins() {
    let listing = "Name: a.monitor\nName: b.monitor\n";
    assert_eq!(pulseaudio_monitor_name(listing), Ok("a.monitor".to_string()));
}

#[test]
fn no_monitor_source() {
    assert_eq!(
        pulseaudio_monitor_name("Source #0\n\tName: alsa_input.analog\n"),
        Err(MonitorError::NotFound)
    );
    assert_eq!(pulseaudio_monitor_name(""), Err(MonitorError::NotFound));
}

#[test]
fn name_line_without_a_name() {
    assert_eq!(pulseaudio_monitor_name("\tName:   \nName: x.monitor\n"), Err(MonitorError::Unparsable));
}

#[test]
fn name_must_lead_its_line() {
    assert_eq!(
        pulseaudio_monitor_name("\tDescription: Name: fake.monitor\n\tName: real.monitor"),
        Ok("real.monitor".to_string())
    );
    // the second word counts even when `Name:` is glued to the first one
    assert_eq!(pulseaudio_monitor_name("Name:x y.monitor\r\n"), Ok("y.monitor".to_string()));
    // unicode white space separates words too
    assert_eq!(pulseaudio_monitor_name("\u{3000}Name:\u{a0}z.monitor"), Ok("z.monitor".to_string()));
}

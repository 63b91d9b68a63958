use ears::audio::{format_device_list, parse_pw_cli_output, AudioDevice};

#[test]
fn test_parse_pw_cli_output() {
    let sample_output = r#"
        id 42, type PipeWire:Interface:Node/3
                object.serial = "42"
                object.path = "alsa:pcm:0:front:0:capture"
                node.name = "alsa_input.usb-HP__Inc_HyperX_Cloud_II_Wireless_0-00.mono-fallback"
                node.description = "HyperX Cloud II Wireless Mono"
                media.class = "Audio/Source"
                node.nick = "HyperX Cloud II Wireless"

        id 43, type PipeWire:Interface:Node/3
                object.serial = "43"
                object.path = "alsa:pcm:1:front:1:capture"
                node.name = "alsa_input.pci-0000_00_1f.3.analog-stereo"
                node.description = "Built-in Audio Analog Stereo"
                media.class = "Audio/Source"
                node.nick = "Built-in Audio"

        id 44, type PipeWire:Interface:Node/3
                object.serial = "44"
                node.name = "some_output_device"
                node.description = "Some Output Device"
                media.class = "Audio/Sink"
        "#;

    let devices = parse_pw_cli_output(sample_output).unwrap();
    assert_eq!(devices.len(), 2);

    assert_eq!(
        devices[0].name,
        "alsa_input.usb-HP__Inc_HyperX_Cloud_II_Wireless_0-00.mono-fallback"
    );
    assert_eq!(devices[0].description, "HyperX Cloud II Wireless Mono");

    assert_eq!(devices[1].name, "alsa_input.pci-0000_00_1f.3.analog-stereo");
    assert_eq!(devices[1].description, "Built-in Audio Analog Stereo");
}

#[test]
fn test_parse_pw_cli_output_empty() {
    let empty_output = "";
    let devices = parse_pw_cli_output(empty_output).unwrap();
    assert_eq!(devices.len(), 0);
}

#[test]
fn test_format_device_list() {
    let devices = vec![
        AudioDevice {
            name: "device1".to_string(),
            description: "Device One".to_string(),
        },
        AudioDevice {
            name: "device2".to_string(),
            description: "Device Two".to_string(),
        },
    ];

    let formatted = format_device_list(&devices);
    assert!(formatted.contains("device1\tDevice One"));
    assert!(formatted.contains("device2\tDevice Two"));
}

#[test]
fn test_format_device_list_empty() {
    let devices = vec![];
    let formatted = format_device_list(&devices);
    assert_eq!(formatted, "No audio input devices found");
}

#[test]
fn sink_nodes_are_not_listed() {
    let out = "id 1, type PipeWire:Interface:Node/3\n node.name = \"speaker\"\n media.class = \"Audio/Sink\"\n";
    assert!(parse_pw_cli_output(out).unwrap().is_empty());
}

#[test]
fn format_device_list_one_line_per_device() {
    let devices = vec![AudioDevice {
        name: "mic".to_string(),
        description: "Microphone".to_string(),
    }];
    assert_eq!(format_device_list(&devices), "mic\tMicrophone");
}

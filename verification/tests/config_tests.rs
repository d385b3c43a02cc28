use arena_sim::config::{DebugConfig, RendererConfig, WindowConfig};

#[test]
fn window_config_clones_field_by_field() {
    let window = WindowConfig {
        title: String::from("Arena"),
        width: 1280,
        height: 720,
        virtual_width: 640,
        virtual_height: 360,
        fullscreen: false,
        vsync: true,
        scaling_quality: String::from("nearest"),
    };
    let copy = window.clone();
    assert_eq!(copy.title, "Arena");
    assert_eq!(copy.width, 1280);
    assert_eq!(copy.height, 720);
    assert_eq!(copy.virtual_width, 640);
    assert_eq!(copy.virtual_height, 360);
    assert!(!copy.fullscreen);
    assert!(copy.vsync);
    assert_eq!(copy.scaling_quality, "nearest");
}

#[test]
fn renderer_config_holds_two_colours() {
    let renderer = RendererConfig { background_color: [1, 2, 3], object_color: [4, 5, 6] };
    let copy = renderer.clone();
    assert_eq!(copy.background_color, [1, 2, 3]);
    assert_eq!(copy.object_color, [4, 5, 6]);
}

#[test]
fn debug_config_clones_field_by_field() {
    let debug = DebugConfig {
        enable_frame_capture: true,
        output_directory: String::from("out"),
        max_captured_frames: 12,
        frame_capture_interval: 30,
    };
    let copy = debug.clone();
    assert!(copy.enable_frame_capture);
    assert_eq!(copy.output_directory, "out");
    assert_eq!(copy.max_captured_frames, 12);
    assert_eq!(copy.frame_capture_interval, 30);
}

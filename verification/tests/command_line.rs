use icarus::vk_example_base::{get_asset_path, launch_settings, CommandLineParser};

fn args(list: &[&str]) -> Vec<String> {
    list.iter().map(|s| s.to_string()).collect()
}

#[test]
fn defaults_are_unset() {
    let p = CommandLineParser::new();
    assert!(!p.is_set("help"));
    assert!(!p.is_set("vsync"));
    assert!(!p.is_set("no-such-option"));
    assert_eq!(p.get_value_as_string("width", "1280"), "1280");
    assert_eq!(p.get_value_as_int("height", 720), 720);
}

#[test]
fn switches_set_options_and_take_values() {
    let mut p = CommandLineParser::new();
    p.parse(args(&["app", "--vsync", "-w", "800", "--height", "600", "-s", "hlsl"]));
    assert!(p.is_set("vsync"));
    assert!(p.is_set("width"));
    assert!(p.is_set("height"));
    assert!(!p.is_set("validation"));
    assert!(!p.is_set("help"));
    assert_eq!(p.get_value_as_int("width", 1280), 800);
    assert_eq!(p.get_value_as_int("height", 720), 600);
    assert_eq!(p.get_value_as_string("shaders", "glsl"), "hlsl");
}

#[test]
fn a_missing_value_asks_for_help() {
    let mut p = CommandLineParser::new();
    p.parse(args(&["app", "--width"]));
    assert!(p.is_set("width"));
    assert!(p.is_set("help"));
    assert_eq!(p.get_value_as_int("width", 1280), 1280);
}

#[test]
fn a_value_that_is_not_a_number_reads_as_the_default() {
    let mut p = CommandLineParser::new();
    p.parse(args(&["app", "-g", "first"]));
    assert!(p.is_set("gpuselection"));
    assert_eq!(p.get_value_as_int("gpuselection", 3), 3);
    assert_eq!(p.get_value_as_string("gpuselection", "x"), "first");
}

#[test]
fn added_options_replace_and_extend() {
    let mut p = CommandLineParser::new();
    p.add("scale", vec!["--scale"], true, "Set the scale");
    assert!(!p.is_set("scale"));
    p.parse(args(&["--scale", "-3"]));
    assert_eq!(p.get_value_as_int("scale", 1), -3);
    let mut q = CommandLineParser::default();
    q.add("vsync", vec!["-x"], false, "other");
    q.parse(args(&["--vsync"]));
    assert!(!q.is_set("vsync"));
    q.parse(args(&["-x"]));
    assert!(q.is_set("vsync"));
}

#[test]
fn asset_path_is_the_data_directory() {
    assert_eq!(get_asset_path(), "/home/alex/dev/SaschaWillemsVulkan/data/");
}

#[test]
fn launch_defaults() {
    let mut p = CommandLineParser::new();
    p.parse(args(&["app"]));
    let l = launch_settings(&p, false);
    assert_eq!((l.width, l.height), (1280, 720));
    assert_eq!(l.shader_dir, "glsl");
    assert!(!l.shader_type_rejected);
    assert!(!l.settings.validation && !l.settings.vsync && !l.settings.fullscreen && l.settings.overlay);
    assert_eq!((l.benchmark_warmup, l.benchmark_duration, l.benchmark_output_frames), (0, 0, 0));
    assert_eq!(l.benchmark_filename, "");
    assert!(!l.benchmark_output_frame_times);
    assert!(launch_settings(&p, true).settings.validation);
    let empty = CommandLineParser::default();
    let e = launch_settings(&empty, true);
    assert!(e.settings.validation);
    assert_eq!((e.width, e.height), (1280, 720));
}

#[test]
fn launch_options_override_the_defaults() {
    let mut p = CommandLineParser::new();
    p.parse(args(&["app", "-v", "-vs", "-f", "-w", "800", "-h", "600", "-s", "hlsl", "-br", "30", "-bt", "-bfs", "100"]));
    let l = launch_settings(&p, false);
    assert!(l.settings.validation && l.settings.vsync && l.settings.fullscreen && l.settings.overlay);
    assert_eq!((l.width, l.height), (800, 600));
    assert_eq!(l.shader_dir, "hlsl");
    assert!(!l.shader_type_rejected);
    assert_eq!(l.benchmark_duration, 30);
    assert!(l.benchmark_output_frame_times);
    assert_eq!(l.benchmark_output_frames, 100);
}

#[test]
fn launch_options_that_are_ignored_or_rejected() {
    let mut p = CommandLineParser::new();
    p.parse(args(&["app", "-s", "spirv", "-bw", "5", "-bf", "out.csv", "-w", "-5", "-h", "tall"]));
    let l = launch_settings(&p, false);
    assert_eq!(l.shader_dir, "glsl");
    assert!(l.shader_type_rejected);
    assert_eq!(l.benchmark_warmup, 0);
    assert_eq!(l.benchmark_filename, "");
    assert_eq!(l.width, 4294967291);
    assert_eq!(l.height, 720);
}

#[test]
fn integer_values_parse_as_std_does() {
    for text in ["-2147483648", "2147483647", "2147483648", "-2147483649", "+7", "-0", "+-5", "-+5", "+", "-", "12a", " 1", "007"] {
        let mut p = CommandLineParser::new();
        p.parse(args(&["app", "-w", text]));
        let expected = text.parse::<i32>().unwrap_or(99);
        assert_eq!(p.get_value_as_int("width", 99), expected, "text {:?}", text);
    }
}

#[test]
fn a_width_and_a_switch_leave_help_unset() {
    let mut p = CommandLineParser::new();
    p.parse(args(&["app", "-w", "800", "-v"]));
    assert!(p.is_set("width"));
    assert_eq!(p.get_value_as_string("width", ""), "800");
    assert!(p.is_set("validation"));
    assert_eq!(p.get_value_as_string("validation", ""), "");
    assert!(!p.is_set("help"));
    assert!(!p.is_set("height"));
}

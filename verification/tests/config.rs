use std::time::Duration;
use viu::config::{Arguments, Config, PrinterConfig};
use viu::playback::PlaybackMode;

fn arguments(files: &[&str]) -> Arguments {
    Arguments {
        files: files.iter().map(|f| f.to_string()).collect(),
        width: None,
        height: None,
        x: 0,
        y: 0,
        absolute_offset: false,
        blocks: false,
        transparent: false,
        truecolor: false,
        frame_duration: None,
        once: false,
        static_gif: false,
        name: false,
        recursive: false,
    }
}

#[test]
fn config_from_arguments() {
    let mut args = arguments(&["a.gif"]);
    args.width = Some(40);
    args.height = Some(20);
    args.x = 3;
    args.y = -2;
    args.absolute_offset = true;
    args.transparent = true;
    args.truecolor = true;
    args.frame_duration = Some(Duration::from_millis(40));
    args.name = true;
    args.recursive = true;
    let config = Config::new(args);
    assert_eq!(config.files, vec!["a.gif".to_string()]);
    assert!(config.loop_gif);
    assert!(config.name);
    assert!(config.recursive);
    assert!(!config.static_gif);
    assert_eq!(config.frame_duration, Some(Duration::from_millis(40)));
    assert_eq!(
        config.viuer_config,
        PrinterConfig {
            transparent: true,
            absolute_offset: true,
            x: 3,
            y: -2,
            restore_cursor: false,
            width: Some(40),
            height: Some(20),
            truecolor: true,
            use_kitty: true,
            use_iterm: true,
        }
    );
}

#[test]
fn blocks_turn_the_graphics_protocols_off() {
    let mut args = arguments(&["a.png"]);
    args.blocks = true;
    let config = Config::new(args);
    assert!(!config.viuer_config.use_kitty);
    assert!(!config.viuer_config.use_iterm);
}

#[test]
fn looping_needs_a_single_file_and_no_once() {
    assert!(Config::new(arguments(&[])).loop_gif);
    assert!(Config::new(arguments(&["a"])).loop_gif);
    assert!(!Config::new(arguments(&["a", "b"])).loop_gif);
    let mut args = arguments(&["a"]);
    args.once = true;
    assert!(!Config::new(args).loop_gif);
}

#[test]
fn playback_mode_from_config() {
    let mut config = Config::new(arguments(&["a"]));
    assert_eq!(config.playback_mode(), PlaybackMode::Looping);
    config.enter_directory();
    assert!(!config.loop_gif);
    assert_eq!(config.files, vec!["a".to_string()]);
    assert_eq!(config.playback_mode(), PlaybackMode::PlayOnce);
    config.static_gif = true;
    assert_eq!(config.playback_mode(), PlaybackMode::StaticFirstFrameOnly);
    config.loop_gif = true;
    assert_eq!(config.playback_mode(), PlaybackMode::StaticFirstFrameOnly);
}

#[test]
fn standard_input_is_a_lone_dash() {
    assert!(Config::new(arguments(&["-"])).reads_standard_input());
    assert!(!Config::new(arguments(&["-", "-"])).reads_standard_input());
    assert!(!Config::new(arguments(&["--"])).reads_standard_input());
    assert!(!Config::new(arguments(&["a"])).reads_standard_input());
    assert!(!Config::new(arguments(&[""])).reads_standard_input());
    assert!(!Config::new(arguments(&[])).reads_standard_input());
}

#[test]
fn config_for_trying_things_out() {
    let config = Config::test_config();
    assert!(config.files.is_empty());
    assert!(config.loop_gif);
    assert!(!config.name);
    assert!(!config.recursive);
    assert!(!config.static_gif);
    assert_eq!(config.frame_duration, None);
    assert!(!config.viuer_config.absolute_offset);
    assert!(!config.viuer_config.use_kitty);
    assert!(config.viuer_config.use_iterm);
}

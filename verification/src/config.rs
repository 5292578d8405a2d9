//! What the user asked for, as the viewer needs it.

use crate::playback::PlaybackMode;
use std::time::Duration;
use vstd::prelude::*;

verus! {

/// How a picture is put on the terminal.
#[derive(Clone, Copy, Debug, PartialEq, Eq, Structural)]
pub struct PrinterConfig {
    /// Show transparent pixels as nothing instead of a chess board.
    pub transparent: bool,
    /// Take the offsets from the terminal's top left corner, not from the
    /// cursor.
    pub absolute_offset: bool,
    pub x: u16,
    pub y: i16,
    /// Put the cursor back where it was once the picture is drawn.
    pub restore_cursor: bool,
    pub width: Option<u32>,
    pub height: Option<u32>,
    /// Write 24-bit colors rather than palette indices.
    pub truecolor: bool,
    /// Use the Kitty graphics protocol where the terminal has it.
    pub use_kitty: bool,
    /// Use the iTerm graphics protocol where the terminal has it.
    pub use_iterm: bool,
}

/// The command line, parsed.
pub struct Arguments {
    pub files: Vec<String>,
    pub width: Option<u32>,
    pub height: Option<u32>,
    pub x: u16,
    pub y: i16,
    pub absolute_offset: bool,
    /// Draw with half blocks even where a graphics protocol is at hand.
    pub blocks: bool,
    pub transparent: bool,
    /// Whether the terminal shows 24-bit colors.
    pub truecolor: bool,
    /// How long each frame is shown, where a frame rate was given.
    pub frame_duration: Option<Duration>,
    pub once: bool,
    pub static_gif: bool,
    pub name: bool,
    pub recursive: bool,
}

/// The settings of one run of the viewer.
pub struct Config {
    pub files: Vec<String>,
    pub loop_gif: bool,
    pub name: bool,
    pub recursive: bool,
    pub static_gif: bool,
    pub viuer_config: PrinterConfig,
    pub frame_duration: Option<Duration>,
}

/// The printer settings that follow from the arguments: a graphics protocol
/// is used unless half blocks are asked for.
pub open spec fn printer_config_of(args: Arguments) -> PrinterConfig {
    PrinterConfig {
        transparent: args.transparent,
        absolute_offset: args.absolute_offset,
        x: args.x,
        y: args.y,
        restore_cursor: false,
        width: args.width,
        height: args.height,
        truecolor: args.truecolor,
        use_kitty: !args.blocks,
        use_iterm: !args.blocks,
    }
}

/// How an animation is played under given settings: the first frame alone if
/// asked for, else in a loop if looping is on, else once.
pub open spec fn playback_mode_of(static_gif: bool, loop_gif: bool) -> PlaybackMode {
    if static_gif {
        PlaybackMode::StaticFirstFrameOnly
    } else if loop_gif {
        PlaybackMode::Looping
    } else {
        PlaybackMode::PlayOnce
    }
}

impl Config {
    /// The settings that follow from the arguments. An animation loops if at
    /// most one file is named and a single pass was not asked for.
    pub fn new(args: Arguments) -> (config: Config)
        ensures
            config.files == args.files,
            config.loop_gif == (args.files@.len() <= 1 && !args.once),
            config.name == args.name,
            config.recursive == args.recursive,
            config.static_gif == args.static_gif,
            config.viuer_config == printer_config_of(args),
            config.frame_duration == args.frame_duration,
    {
        let viuer_config = PrinterConfig {
            transparent: args.transparent,
            absolute_offset: args.absolute_offset,
            x: args.x,
            y: args.y,
            restore_cursor: false,
            width: args.width,
            height: args.height,
            truecolor: args.truecolor,
            use_kitty: !args.blocks,
            use_iterm: !args.blocks,
        };
        let loop_gif = args.files.len() <= 1 && !args.once;
        Config {
            files: args.files,
            loop_gif,
            name: args.name,
            recursive: args.recursive,
            static_gif: args.static_gif,
            viuer_config,
            frame_duration: args.frame_duration,
        }
    }

    /// Settings to try things out with: no files, a looping animation, half
    /// blocks or iTerm, offsets from the cursor.
    pub fn test_config() -> (config: Config)
        ensures
            config.files@.len() == 0,
            config.loop_gif,
            !config.name,
            !config.recursive,
            !config.static_gif,
            config.frame_duration is None,
            config.viuer_config == (PrinterConfig {
                transparent: false,
                absolute_offset: false,
                x: 0,
                y: 0,
                restore_cursor: false,
                width: None,
                height: None,
                truecolor: false,
                use_kitty: false,
                use_iterm: true,
            }),
    {
        Config {
            files: Vec::new(),
            loop_gif: true,
            name: false,
            recursive: false,
            static_gif: false,
            viuer_config: PrinterConfig {
                transparent: false,
                absolute_offset: false,
                x: 0,
                y: 0,
                restore_cursor: false,
                width: None,
                height: None,
                truecolor: false,
                use_kitty: false,
                use_iterm: true,
            },
            frame_duration: None,
        }
    }

    /// How an animation is played under these settings.
    pub fn playback_mode(&self) -> (mode: PlaybackMode)
        ensures
            mode == playback_mode_of(self.static_gif, self.loop_gif),
    {
        if self.static_gif {
            PlaybackMode::StaticFirstFrameOnly
        } else if self.loop_gif {
            PlaybackMode::Looping
        } else {
            PlaybackMode::PlayOnce
        }
    }

    /// Whether the picture is read from standard input: the one file named
    /// is `-`.
    pub fn reads_standard_input(&self) -> (standard_input: bool)
        ensures
            standard_input == (self.files@.len() == 1 && self.files@[0]@ == "-"@),
    {
        if self.files.len() == 1 {
            let dash: String = "-".to_owned();
            self.files[0] == dash
        } else {
            false
        }
    }

    /// Turns looping off: a directory is being shown, and more files will
    /// probably follow.
    pub fn enter_directory(&mut self)
        ensures
            !final(self).loop_gif,
            *final(self) == (Config { loop_gif: false, ..*old(self) }),
    {
        self.loop_gif = false;
    }
}

} // verus!

//! The choices made on the way from a file name to a picture on the
//! terminal.

use crate::config::PrinterConfig;
use crate::playback::{Outcome, PlaybackError};
use vstd::prelude::*;

verus! {

/// What is done with an entry of a directory.
#[derive(Clone, Copy, Debug, PartialEq, Eq, Structural)]
pub enum EntryPlan {
    /// The entry is a directory to go down into; a failure in it ends the
    /// listing.
    Descend,
    /// The entry is shown as a file; a failure is passed over.
    View,
}

/// Which way a file is shown.
#[derive(Clone, Copy, Debug, PartialEq, Eq, Structural)]
pub enum Viewer {
    /// The file is handed to iTerm as it is, which plays it itself.
    Native,
    /// The file is read as an animation and played frame by frame; a file
    /// that is no animation is then shown as a still picture.
    Frames,
}

/// A directory entry is gone down into if it is a directory and the listing
/// is recursive; else it is shown as a file.
pub fn plan_entry(recursive: bool, is_directory: bool) -> (plan: EntryPlan)
    ensures
        plan == if recursive && is_directory {
            EntryPlan::Descend
        } else {
            EntryPlan::View
        },
{
    if recursive && is_directory {
        EntryPlan::Descend
    } else {
        EntryPlan::View
    }
}

/// A file is handed to iTerm as it is if the iTerm protocol is wanted and
/// at hand and the file is a GIF.
pub fn choose_viewer(config: &PrinterConfig, iterm_supported: bool, is_gif: bool) -> (viewer:
    Viewer)
    ensures
        viewer == if config.use_iterm && iterm_supported && is_gif {
            Viewer::Native
        } else {
            Viewer::Frames
        },
{
    if config.use_iterm && iterm_supported && is_gif {
        Viewer::Native
    } else {
        Viewer::Frames
    }
}

/// Frames keep their resolution where a graphics protocol that is wanted is
/// at hand; else they are resized to fit the terminal's cells.
pub fn keeps_resolution(config: &PrinterConfig, iterm_supported: bool, kitty_supported: bool) -> (keeps:
    bool)
    ensures
        keeps == ((config.use_iterm && iterm_supported) || (config.use_kitty && kitty_supported)),
{
    (config.use_iterm && iterm_supported) || (config.use_kitty && kitty_supported)
}

/// What is done with a file after the try to play it as an animation.
#[derive(Clone, Copy, Debug, PartialEq, Eq, Structural)]
pub enum AfterFrames {
    /// The animation was played; nothing is left to do.
    Done,
    /// The file is no animation: it is shown as a still picture.
    ShowStill,
    /// The animation was read and its playback failed: the file is not
    /// shown again, and the failure is passed on.
    Fail(PlaybackError),
}

/// A file that could not be read as an animation is shown as a still
/// picture. One that could is done with when its playback has ended, unless
/// that ended with a failure, which is passed on whatever it was.
pub fn after_frames(decoded: bool, outcome: Outcome) -> (next: AfterFrames)
    ensures
        next == if !decoded {
            AfterFrames::ShowStill
        } else {
            match outcome {
                Outcome::Failed(e) => AfterFrames::Fail(e),
                _ => AfterFrames::Done,
            }
        },
{
    if !decoded {
        AfterFrames::ShowStill
    } else {
        match outcome {
            Outcome::Failed(e) => AfterFrames::Fail(e),
            _ => AfterFrames::Done,
        }
    }
}

} // verus!

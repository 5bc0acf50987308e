//! The controls of the window: what is written on them, what is said when the pointer rests on
//! them, and which of them are on screen.
use vstd::prelude::*;
use vstd::string::*;

use crate::ui_model::RecordingStatus;
use crate::ui_settings::{Corner, FileNamingStrategyUi};
use crate::window::AppWindow;

verus! {

#[derive(Debug, Clone, Copy, PartialEq, Eq, Structural)]
pub enum Control {
    RecordSpace,
    Telemetry,
    Settings,
    Diagnostics,
    Status,
    Record,
    Stop,
    CancelPick,
    LiveView,
    HideWhileRecording,
    Reset,
    Folder,
    FolderField,
    Naming,
    FileSize,
    Duration,
    SaveHeading,
    SaveFolder,
    SaveName,
    Browse,
    DefaultFolder,
    Save,
    Cancel,
    /// The button that arms a corner.
    SetCorner(Corner),
}

impl Control {
    /// What is written on the control; empty where it is drawn.
    pub open spec fn name(self) -> Seq<char> {
        match self {
            Control::RecordSpace => "Record space"@,
            Control::Telemetry => "Telemetry"@,
            Control::Settings => "Settings"@,
            Control::Diagnostics => "Diagnostics"@,
            Control::Status => ""@,
            Control::Record => ""@,
            Control::Stop => ""@,
            Control::CancelPick => "Cancel pick"@,
            Control::LiveView => "Live view"@,
            Control::HideWhileRecording => "Hide while recording"@,
            Control::Reset => "Reset"@,
            Control::Folder => "Folder:"@,
            Control::FolderField => ""@,
            Control::Naming => "File naming:"@,
            Control::FileSize => "File:"@,
            Control::Duration => "Duration:"@,
            Control::SaveHeading => "Save a copy of your recording."@,
            Control::SaveFolder => "Folder:"@,
            Control::SaveName => "Filename:"@,
            Control::Browse => "Browse…"@,
            Control::DefaultFolder => "Default folder"@,
            Control::Save => "Save"@,
            Control::Cancel => "Cancel"@,
            Control::SetCorner(Corner::TopLeft) => "Set top-left"@,
            Control::SetCorner(Corner::TopRight) => "Set top-right"@,
            Control::SetCorner(Corner::BottomLeft) => "Set bottom-left"@,
            Control::SetCorner(Corner::BottomRight) => "Set bottom-right"@,
        }
    }

    /// What is written on the control; empty where it is drawn.
    pub fn label(self) -> (r: &'static str)
        ensures
            r@ == self.name(),
    {
        match self {
            Control::RecordSpace => "Record space",
            Control::Telemetry => "Telemetry",
            Control::Settings => "Settings",
            Control::Diagnostics => "Diagnostics",
            Control::Status => "",
            Control::Record => "",
            Control::Stop => "",
            Control::CancelPick => "Cancel pick",
            Control::LiveView => "Live view",
            Control::HideWhileRecording => "Hide while recording",
            Control::Reset => "Reset",
            Control::Folder => "Folder:",
            Control::FolderField => "",
            Control::Naming => "File naming:",
            Control::FileSize => "File:",
            Control::Duration => "Duration:",
            Control::SaveHeading => "Save a copy of your recording.",
            Control::SaveFolder => "Folder:",
            Control::SaveName => "Filename:",
            Control::Browse => "Browse…",
            Control::DefaultFolder => "Default folder",
            Control::Save => "Save",
            Control::Cancel => "Cancel",
            Control::SetCorner(Corner::TopLeft) => "Set top-left",
            Control::SetCorner(Corner::TopRight) => "Set top-right",
            Control::SetCorner(Corner::BottomLeft) => "Set bottom-left",
            Control::SetCorner(Corner::BottomRight) => "Set bottom-right",
        }
    }

    /// What the pointer brings up; empty where that is nothing.
    pub open spec fn hint(self) -> Seq<char> {
        match self {
            Control::RecordSpace => "Choose how much of the screen is recorded."@,
            Control::Telemetry => ""@,
            Control::Settings => "Adjust where recordings are saved and how they are named."@,
            Control::Diagnostics => "Messages about recording activity and system behavior."@,
            Control::Status => "Shows whether the recorder is idle or actively recording."@,
            Control::Record => "Start a new screen recording session."@,
            Control::Stop => "Stop the current recording and save the video."@,
            Control::CancelPick => "Stop waiting for a click."@,
            Control::LiveView => "Show the screen in the Preview pane so corners can be clicked on it."@,
            Control::HideWhileRecording => "Minimise BSR when recording starts so its own window is not in the recording. Stop from the tray icon, or restore the window."@,
            Control::Reset => "Record the whole screen again."@,
            Control::Folder => "This is the folder where your recordings will be saved."@,
            Control::FolderField => "Enter or edit the folder where recordings should be stored."@,
            Control::Naming => "Choose how each recording file will be named."@,
            Control::FileSize => "Current size of the video file being saved."@,
            Control::Duration => "How long the current recording has been running."@,
            Control::SaveHeading => ""@,
            Control::SaveFolder => "Where the copy is written. Type a path, or use Browse."@,
            Control::SaveName => ""@,
            Control::Browse => "Pick a location using the desktop's own file dialog."@,
            Control::DefaultFolder => "Put the folder back to ~/Videos."@,
            Control::Save => ""@,
            Control::Cancel => ""@,
            Control::SetCorner(Corner::TopLeft) => "Then click the desktop: that point becomes the top-left corner."@,
            Control::SetCorner(Corner::TopRight) => "Then click the desktop: that point becomes the top-right corner."@,
            Control::SetCorner(Corner::BottomLeft) => "Then click the desktop: that point becomes the bottom-left corner."@,
            Control::SetCorner(Corner::BottomRight) => "Then click the desktop: that point becomes the bottom-right corner."@,
        }
    }

    /// What the pointer brings up; empty where that is nothing.
    pub fn hover(self) -> (r: &'static str)
        ensures
            r@ == self.hint(),
    {
        match self {
            Control::RecordSpace => "Choose how much of the screen is recorded.",
            Control::Telemetry => "",
            Control::Settings => "Adjust where recordings are saved and how they are named.",
            Control::Diagnostics => "Messages about recording activity and system behavior.",
            Control::Status => "Shows whether the recorder is idle or actively recording.",
            Control::Record => "Start a new screen recording session.",
            Control::Stop => "Stop the current recording and save the video.",
            Control::CancelPick => "Stop waiting for a click.",
            Control::LiveView => "Show the screen in the Preview pane so corners can be clicked on it.",
            Control::HideWhileRecording => "Minimise BSR when recording starts so its own window is not in the recording. Stop from the tray icon, or restore the window.",
            Control::Reset => "Record the whole screen again.",
            Control::Folder => "This is the folder where your recordings will be saved.",
            Control::FolderField => "Enter or edit the folder where recordings should be stored.",
            Control::Naming => "Choose how each recording file will be named.",
            Control::FileSize => "Current size of the video file being saved.",
            Control::Duration => "How long the current recording has been running.",
            Control::SaveHeading => "",
            Control::SaveFolder => "Where the copy is written. Type a path, or use Browse.",
            Control::SaveName => "",
            Control::Browse => "Pick a location using the desktop's own file dialog.",
            Control::DefaultFolder => "Put the folder back to ~/Videos.",
            Control::Save => "",
            Control::Cancel => "",
            Control::SetCorner(Corner::TopLeft) => "Then click the desktop: that point becomes the top-left corner.",
            Control::SetCorner(Corner::TopRight) => "Then click the desktop: that point becomes the top-right corner.",
            Control::SetCorner(Corner::BottomLeft) => "Then click the desktop: that point becomes the bottom-left corner.",
            Control::SetCorner(Corner::BottomRight) => "Then click the desktop: that point becomes the bottom-right corner.",
        }
    }
}

impl FileNamingStrategyUi {
    /// What the pointer brings up over the strategy.
    pub fn hover(self) -> (r: &'static str)
        ensures
            r@ == match self {
                FileNamingStrategyUi::Simple => "Always saves as recording.mp4. Best for quick manual use."@,
                FileNamingStrategyUi::TimestampedFile => "Creates a new file for each recording using the date and time."@,
                FileNamingStrategyUi::TimestampedFolder => "Creates a dated folder and places the recording inside it."@,
            },
    {
        match self {
            FileNamingStrategyUi::Simple => "Always saves as recording.mp4. Best for quick manual use.",
            FileNamingStrategyUi::TimestampedFile => "Creates a new file for each recording using the date and time.",
            FileNamingStrategyUi::TimestampedFolder => "Creates a dated folder and places the recording inside it.",
        }
    }
}

impl AppWindow {
    /// Is the control on screen? The way out of a pick is there while one is armed, the switch
    /// of the idle capture while nothing is recorded, and the save dialog while a recording
    /// waits to be saved.
    pub open spec fn offers(self, c: Control) -> bool {
        match c {
            Control::CancelPick => self.pending_pick is Some,
            Control::LiveView => self.model.status != RecordingStatus::Recording,
            Control::SaveHeading
            | Control::SaveFolder
            | Control::SaveName
            | Control::Browse
            | Control::DefaultFolder
            | Control::Save
            | Control::Cancel => self.pending_local_save is Some,
            _ => true,
        }
    }

    /// Is the control on screen?
    pub fn shows(&self, c: Control) -> (r: bool)
        ensures
            r == self.offers(c),
    {
        match c {
            Control::CancelPick => self.pending_pick.is_some(),
            Control::LiveView => self.model.status != RecordingStatus::Recording,
            Control::SaveHeading
            | Control::SaveFolder
            | Control::SaveName
            | Control::Browse
            | Control::DefaultFolder
            | Control::Save
            | Control::Cancel => self.pending_local_save.is_some(),
            _ => true,
        }
    }
}

/// The controls of the save dialog are there while a recording waits to be saved, the way out of a
/// pick while one is armed, and the switch of the idle capture while nothing is recorded; all
/// others are always there.
pub proof fn controls_are_there_when_they_are_of_use(w: AppWindow, c: Control)
    ensures
        c is CancelPick ==> (w.offers(c) <==> w.pending_pick is Some),
        c is LiveView ==> (w.offers(c) <==> w.model.status != RecordingStatus::Recording),
        c is SaveHeading || c is SaveFolder || c is SaveName || c is Browse || c is DefaultFolder
            || c is Save || c is Cancel ==> (w.offers(c) <==> w.pending_local_save is Some),
        !w.offers(c) ==> c is CancelPick || c is LiveView || c is SaveHeading || c is SaveFolder
            || c is SaveName || c is Browse || c is DefaultFolder || c is Save || c is Cancel,
{
}

} // verus!

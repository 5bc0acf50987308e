//! Saving copies of recordings: the save dialog of the window, the file dialog of the desktop,
//! and copies that others offer.
use vstd::prelude::*;
use vstd::string::*;
use vstd::utf8::encode_utf8;

use crate::config::Environment;
use crate::file_path::{
    a_path_of_text_has_the_name_of_the_text, a_path_of_text_has_the_parent_of_the_text,
    a_path_of_text_shows_as_that_text, joined_bytes, name_text, opt_bytes, parent_bytes,
    paths_of_text_join_as_text, shown_bytes, FilePath,
};
use crate::path::{absolute, file_name, join, joined, last_name, parent_path};
use crate::recording_file::{
    cleaned, default_save_folder, folder_path, normalize_folder_input, save_folder,
};
use crate::text::{copy_opt, is_blank, opt_text, trimmed};
use crate::ui_model::{count, logged};
use crate::window::{logged_if, AppWindow};

verus! {

/// How long the file dialog may stay open, in nanoseconds. People take minutes to browse, so
/// this only catches a request that was lost.
pub const PICK_TIMEOUT_NANOS: u64 = 600_000_000_000;

/// What the desktop's file dialog is asked with.
#[derive(Debug, Clone)]
pub struct PickRequest {
    pub suggested_name: String,
    pub start_dir: String,
}

/// What is known of a file dialog.
#[derive(Debug)]
pub enum PickPoll {
    Waiting,
    /// Whoever asked is gone.
    Gone,
    /// A path, nothing, or what went wrong.
    Answered(Result<Option<FilePath>, String>),
}

/// What is said while the file dialog is open. It can open behind the window.
pub open spec fn browse_line() -> Seq<char> {
    "A save dialog has opened. If you can't see it, check your other windows (Alt-Tab)."@
}

/// What is said when the file dialog does not answer.
pub open spec fn gave_up_line() -> Seq<char> {
    "Gave up waiting for the save dialog. Type or paste a folder above instead."@
}

/// Where a copy goes.
#[derive(Debug, Clone)]
pub struct SaveTarget {
    /// The folder, if what was typed means one.
    pub folder: Option<FilePath>,
    /// The file.
    pub dst: FilePath,
}

/// The file that a copy goes to: in the folder that is meant, or in the current directory.
#[verifier::opaque]
pub open spec fn copy_target(folder: Seq<char>, name: Seq<char>, home: Option<Seq<char>>) -> Seq<
    u8,
> {
    target_in(folder_path(folder, home), name)
}

/// The file of this name in a folder, or in the current directory.
pub open spec fn target_in(folder: Option<Seq<u8>>, name: Seq<char>) -> Seq<u8> {
    match folder {
        Some(dir) => joined_bytes(dir, encode_utf8(name)),
        None => joined_bytes(encode_utf8("."@), encode_utf8(name)),
    }
}

/// Where a copy goes, for what stands in the two fields of the save dialog.
pub fn save_target(folder: &str, name: &str, env: &Environment) -> (r: SaveTarget)
    ensures
        opt_bytes(r.folder) == folder_path(folder@, opt_text(env.home)),
        r.dst@ == copy_target(folder@, name@, opt_text(env.home)),
        r.dst@ == target_in(opt_bytes(r.folder), name@),
{
    reveal(copy_target);
    let dir = normalize_folder_input(folder, &env.home);
    let name = FilePath::from_text(name);
    let dst = match &dir {
        Some(d) => d.join(&name),
        None => FilePath::from_text(".").join(&name),
    };
    SaveTarget { folder: dir, dst }
}

/// Why nothing can be saved, if nothing can.
#[derive(Debug, Clone, Copy, PartialEq, Eq, Structural)]
pub enum Blocked {
    NoRecording,
    NoName,
    /// The target is the recording itself: copying it there would empty it.
    Itself,
    NoFolder,
}

impl Blocked {
    /// What is shown beside the button.
    pub open spec fn reason(self) -> Seq<char> {
        match self {
            Blocked::NoRecording => "there is no recording to copy"@,
            Blocked::NoName => "enter a filename"@,
            Blocked::Itself => "that is the recording itself"@,
            Blocked::NoFolder => "that folder does not exist"@,
        }
    }

    /// What is shown beside the button.
    pub fn text(&self) -> (r: String)
        ensures
            r@ == "Can't save: "@ + self.reason(),
    {
        let reason = match self {
            Blocked::NoRecording => "there is no recording to copy",
            Blocked::NoName => "enter a filename",
            Blocked::Itself => "that is the recording itself",
            Blocked::NoFolder => "that folder does not exist",
        };
        String::from_str("Can't save: ").concat(reason)
    }
}

/// The one thing that is clicked in the save dialog during a frame.
#[derive(Debug, Clone, Copy, PartialEq, Eq, Structural)]
pub enum SaveClick {
    Nothing,
    Browse,
    DefaultFolder,
    CreateFolder,
    Save,
    Cancel,
}

/// What is to be done outside the window after a frame of the save dialog.
#[derive(Debug, Clone)]
pub enum SaveRequest {
    Nothing,
    /// Open the desktop's file dialog.
    Pick(PickRequest),
    /// Create the folder.
    Create(FilePath),
    /// Copy the recording.
    Copy { src: String, dst: FilePath },
}

/// What the save dialog shows below its two fields, and what is to be done.
#[derive(Debug, Clone)]
pub struct SaveFrame {
    /// The folder field after this frame.
    pub folder: String,
    /// How browsing went.
    pub status: Option<String>,
    /// A warning, or where the copy goes.
    pub note: String,
    pub blocked: Option<Blocked>,
    pub request: SaveRequest,
}

/// Whether the target of the save dialog is the recording itself, and whether its folder is
/// missing.
#[derive(Debug, Clone, Copy, PartialEq, Eq, Structural)]
pub struct SaveFacts {
    pub same: bool,
    pub folder_missing: bool,
}

impl AppWindow {
    /// Asks the desktop for a place to save.
    pub fn browse_for_save_location(&mut self, suggested_name: String, now: u64) -> (r: PickRequest)
        requires
            old(self).wf(),
            now + PICK_TIMEOUT_NANOS <= u64::MAX,
        ensures
            final(self).wf(),
            r.suggested_name == suggested_name,
            r.start_dir == old(self).save_dest_folder,
            *final(self) == (AppWindow {
                picking: true,
                pick_deadline: Some((now + PICK_TIMEOUT_NANOS) as u64),
                save_status: final(self).save_status,
                ..*old(self)
            }).relogged(final(self).model.diagnostics),
            opt_text(final(self).save_status) == Some(browse_line()),
            final(self).log() == logged(old(self).log(), browse_line()),
            final(self).timed_since(*old(self), 1),
    {
        self.picking = true;
        self.pick_deadline = Some(now + PICK_TIMEOUT_NANOS);
        let msg = "A save dialog has opened. If you can't see it, check your other windows (Alt-Tab).";
        self.report(msg, msg);
        PickRequest { suggested_name, start_dir: self.save_dest_folder.clone() }
    }

    /// This window once the desktop has answered.
    pub open spec fn picked(
        self,
        answer: Result<Option<FilePath>, String>,
        after: AppWindow,
    ) -> bool {
        &&& after == (AppWindow {
            picking: false,
            pick_deadline: None,
            save_dest_folder: after.save_dest_folder,
            pending_local_save: after.pending_local_save,
            save_status: after.save_status,
            ..self
        }).relogged(after.model.diagnostics)
        &&& after.timed_since(self, 1)
        &&& match answer {
            Ok(Some(path)) => {
                &&& match parent_bytes(path@) {
                    Some(dir) => after.save_dest_folder@ == shown_bytes(dir),
                    None => after.save_dest_folder == self.save_dest_folder,
                }
                &&& match name_text(path@) {
                    Some(name) => opt_text(after.pending_local_save) == Some(name),
                    None => after.pending_local_save == self.pending_local_save,
                }
                &&& after.save_status is None
                &&& after.log() == logged(
                    self.log(),
                    "Save location set to "@ + shown_bytes(path@),
                )
            },
            Ok(None) => {
                &&& after.save_dest_folder == self.save_dest_folder
                &&& after.pending_local_save == self.pending_local_save
                &&& opt_text(after.save_status) == Some("Save dialog cancelled."@)
                &&& after.log() == logged(
                    self.log(),
                    "Save dialog cancelled — location unchanged."@,
                )
            },
            Err(e) => {
                &&& after.save_dest_folder == self.save_dest_folder
                &&& after.pending_local_save == self.pending_local_save
                &&& opt_text(after.save_status) == Some("Save dialog failed: "@ + e@)
                &&& after.log() == logged(self.log(), "Save dialog failed: "@ + e@)
            },
        }
    }

    fn pick_chosen(&mut self, path: &FilePath)
        requires
            old(self).wf(),
        ensures
            final(self).wf(),
            *final(self) == (AppWindow {
                save_dest_folder: final(self).save_dest_folder,
                pending_local_save: final(self).pending_local_save,
                save_status: None,
                ..*old(self)
            }).relogged(final(self).model.diagnostics),
            match parent_bytes(path@) {
                Some(dir) => final(self).save_dest_folder@ == shown_bytes(dir),
                None => final(self).save_dest_folder == old(self).save_dest_folder,
            },
            match name_text(path@) {
                Some(name) => opt_text(final(self).pending_local_save) == Some(name),
                None => final(self).pending_local_save == old(self).pending_local_save,
            },
            final(self).log() == logged(
                old(self).log(),
                "Save location set to "@ + shown_bytes(path@),
            ),
            final(self).timed_since(*old(self), 1),
    {
        if let Some(dir) = path.parent() {
            self.save_dest_folder = dir.display();
        }
        if let Some(name) = path.file_name_text() {
            self.pending_local_save = Some(name);
        }
        self.save_status = None;
        let line = String::from_str("Save location set to ").concat(path.display().as_str());
        self.say(line.as_str());
    }

    /// Says a line, and shows a status in the save dialog.
    fn report(&mut self, line: &str, status: &str)
        requires
            old(self).wf(),
        ensures
            final(self).wf(),
            *final(self) == (AppWindow {
                save_status: final(self).save_status,
                ..*old(self)
            }).relogged(final(self).model.diagnostics),
            opt_text(final(self).save_status) == Some(status@),
            final(self).log() == logged(old(self).log(), line@),
            final(self).timed_since(*old(self), 1),
    {
        self.say(line);
        self.save_status = Some(String::from_str(status));
    }

    fn take_pick(&mut self, answer: &Result<Option<FilePath>, String>)
        requires
            old(self).wf(),
        ensures
            final(self).wf(),
            old(self).picked(*answer, *final(self)),
    {
        self.picking = false;
        self.pick_deadline = None;
        match answer {
            Ok(Some(path)) => self.pick_chosen(path),
            Ok(None) => self.report(
                "Save dialog cancelled — location unchanged.",
                "Save dialog cancelled.",
            ),
            Err(e) => {
                let line = String::from_str("Save dialog failed: ").concat(e.as_str());
                self.report(line.as_str(), line.as_str())
            },
        }
    }

    /// How looking for the answer of the file dialog leaves the window.
    pub open spec fn pick_polled(self, poll: PickPoll, now: u64, after: AppWindow) -> bool {
        if !self.picking {
            after == self
        } else {
            match poll {
                PickPoll::Waiting => if self.pick_deadline matches Some(d) && now >= d {
                    &&& after == (AppWindow {
                        picking: false,
                        pick_deadline: None,
                        save_status: after.save_status,
                        ..self
                    }).relogged(after.model.diagnostics)
                    &&& opt_text(after.save_status) == Some(gave_up_line())
                    &&& after.log() == logged(self.log(), gave_up_line())
                    &&& after.timed_since(self, 1)
                } else {
                    after == self
                },
                PickPoll::Gone => exists|e: String|
                    e@ == "the save dialog task ended without answering"@ && #[trigger] self.picked(
                        Err(e),
                        after,
                    ),
                PickPoll::Answered(answer) => self.picked(answer, after),
            }
        }
    }

    /// Collects the answer of the file dialog. One that never comes is given up on at its
    /// deadline, and the window says so.
    pub fn poll_save_pick(&mut self, poll: PickPoll, now: u64)
        requires
            old(self).wf(),
        ensures
            final(self).wf(),
            old(self).pick_polled(poll, now, *final(self)),
    {
        if !self.picking {
            return;
        }
        match poll {
            PickPoll::Waiting => {
                if let Some(deadline) = self.pick_deadline {
                    if now >= deadline {
                        self.picking = false;
                        self.pick_deadline = None;
                        let msg = "Gave up waiting for the save dialog. Type or paste a folder above instead.";
                        self.report(msg, msg);
                    }
                }
            },
            PickPoll::Gone => {
                let answer: Result<Option<FilePath>, String> = Err(
                    String::from_str("the save dialog task ended without answering"),
                );
                self.take_pick(&answer);
            },
            PickPoll::Answered(answer) => {
                self.take_pick(&answer);
            },
        }
    }

    /// Why nothing can be saved under this name, if nothing can.
    pub open spec fn save_blocked(self, name: Seq<char>, facts: SaveFacts) -> Option<Blocked> {
        if self.current_recording_path is None {
            Some(Blocked::NoRecording)
        } else if trimmed(name).len() == 0 {
            Some(Blocked::NoName)
        } else if facts.same {
            Some(Blocked::Itself)
        } else if facts.folder_missing {
            Some(Blocked::NoFolder)
        } else {
            None
        }
    }

    fn blocked(&self, name: &str, facts: SaveFacts) -> (r: Option<Blocked>)
        ensures
            r == self.save_blocked(name@, facts),
    {
        if self.current_recording_path.is_none() {
            Some(Blocked::NoRecording)
        } else if is_blank(name) {
            Some(Blocked::NoName)
        } else if facts.same {
            Some(Blocked::Itself)
        } else if facts.folder_missing {
            Some(Blocked::NoFolder)
        } else {
            None
        }
    }

    /// What stands below the fields of the save dialog.
    pub open spec fn save_note(dst: Seq<u8>, facts: SaveFacts) -> Seq<char> {
        if facts.same {
            "⚠ That is the recording itself — choose another folder or name."@
        } else if facts.folder_missing {
            "⚠ That folder does not exist."@
        } else {
            "→ "@ + shown_bytes(dst)
        }
    }

    fn note(dst: &FilePath, facts: SaveFacts) -> (r: String)
        ensures
            r@ == Self::save_note(dst@, facts),
    {
        if facts.same {
            String::from_str("⚠ That is the recording itself — choose another folder or name.")
        } else if facts.folder_missing {
            String::from_str("⚠ That folder does not exist.")
        } else {
            String::from_str("→ ").concat(dst.display().as_str())
        }
    }

    /// The folder field of the save dialog after a frame.
    pub open spec fn folder_after(folder: Seq<char>, click: SaveClick, env: Environment) -> Seq<
        char,
    > {
        if click == SaveClick::DefaultFolder {
            save_folder(env)
        } else {
            folder
        }
    }

    /// The folder field of the save dialog after a click. What is known of the target is known
    /// of this folder.
    pub fn save_folder_after(folder: String, click: SaveClick, env: &Environment) -> (r: String)
        ensures
            r@ == Self::folder_after(folder@, click, *env),
    {
        match click {
            SaveClick::DefaultFolder => default_save_folder(env),
            _ => folder,
        }
    }

    /// Does this click close the save dialog?
    pub open spec fn closes(self, name: Seq<char>, click: SaveClick, facts: SaveFacts) -> bool {
        click == SaveClick::Cancel || (click == SaveClick::Save && self.save_blocked(name, facts)
            is None)
    }

    /// What is to be done after a click in the save dialog.
    pub open spec fn save_request(
        self,
        folder: Seq<char>,
        name: Seq<char>,
        click: SaveClick,
        facts: SaveFacts,
        env: Environment,
        request: SaveRequest,
    ) -> bool {
        let home = opt_text(env.home);
        match click {
            SaveClick::Browse => request matches SaveRequest::Pick(p) && Some(p.suggested_name@)
                == opt_text(self.pending_local_save) && p.start_dir == self.save_dest_folder,
            SaveClick::CreateFolder => if !facts.same && facts.folder_missing && folder_path(
                folder,
                home,
            ) is Some {
                request matches SaveRequest::Create(dir) && folder_path(folder, home) == Some(dir@)
            } else {
                request is Nothing
            },
            SaveClick::Save => if self.save_blocked(name, facts) is None {
                request matches SaveRequest::Copy { src, dst } && Some(src@) == opt_text(
                    self.current_recording_path,
                ) && dst@ == copy_target(folder, name, home)
            } else {
                request is Nothing
            },
            _ => request is Nothing,
        }
    }

    /// This window after a frame of the save dialog.
    pub open spec fn saved_frame(
        self,
        folder: Seq<char>,
        name: Seq<char>,
        click: SaveClick,
        facts: SaveFacts,
        now: u64,
        after: AppWindow,
    ) -> bool {
        self.advanced(folder, name, click, self.closes(name, click, facts), now, after)
    }

    /// This window after a frame of the save dialog that closes it or not.
    pub open spec fn advanced(
        self,
        folder: Seq<char>,
        name: Seq<char>,
        click: SaveClick,
        close: bool,
        now: u64,
        after: AppWindow,
    ) -> bool {
        let browsing = click == SaveClick::Browse;
        &&& after == (AppWindow {
            save_dest_folder: after.save_dest_folder,
            pending_local_save: after.pending_local_save,
            save_status: after.save_status,
            picking: self.picking || browsing,
            pick_deadline: if browsing {
                Some((now + PICK_TIMEOUT_NANOS) as u64)
            } else {
                self.pick_deadline
            },
            ..self
        }).relogged(after.model.diagnostics)
        &&& after.save_dest_folder@ == folder
        &&& if close {
            after.pending_local_save is None && after.save_status is None
        } else {
            &&& opt_text(after.pending_local_save) == Some(name)
            &&& opt_text(after.save_status) == (if browsing {
                Some(browse_line())
            } else {
                opt_text(self.save_status)
            })
        }
        &&& after.log() == (if browsing {
            logged(self.log(), browse_line())
        } else if click == SaveClick::Cancel {
            logged(
                self.log(),
                "Save cancelled — the recording is still in the output folder."@,
            )
        } else {
            self.log()
        })
        &&& after.timed_since(self, count(browsing || click == SaveClick::Cancel))
    }

    /// One frame of the save dialog: `folder` and `name` stand in its fields, and `click` was
    /// clicked. What is typed stays typed; a field can be cleared. Nothing is shown while no
    /// recording waits to be saved.
    pub fn render_local_save_modal(
        &mut self,
        folder: String,
        name: String,
        click: SaveClick,
        facts: SaveFacts,
        env: &Environment,
        now: u64,
    ) -> (r: Option<SaveFrame>)
        requires
            old(self).wf(),
            now + PICK_TIMEOUT_NANOS <= u64::MAX,
        ensures
            final(self).wf(),
            match (old(self).pending_local_save, r) {
                (None, None) => *final(self) == *old(self),
                (Some(_), Some(frame)) => {
                    let f = Self::folder_after(folder@, click, *env);
                    &&& frame.folder@ == f
                    &&& opt_text(frame.status) == (if click == SaveClick::Browse {
                        Some(browse_line())
                    } else {
                        opt_text(old(self).save_status)
                    })
                    &&& frame.note@ == Self::save_note(
                        copy_target(f, name@, opt_text(env.home)),
                        facts,
                    )
                    &&& frame.blocked == old(self).save_blocked(name@, facts)
                    &&& old(self).save_request(f, name@, click, facts, *env, frame.request)
                    &&& old(self).saved_frame(f, name@, click, facts, now, *final(self))
                },
                _ => false,
            },
    {
        if self.pending_local_save.is_none() {
            return None;
        }
        let mut frame = self.save_frame(folder, name.as_str(), click, facts, env);
        let close = click == SaveClick::Cancel || (click == SaveClick::Save
            && frame.blocked.is_none());
        let pick = self.advance_save(frame.folder.clone(), name, click, close, now);
        if let Some(request) = pick {
            frame.status = copy_opt(&self.save_status);
            frame.request = SaveRequest::Pick(request);
        }
        Some(frame)
    }

    /// What the save dialog shows, and what is to be done unless the file dialog is opened.
    fn save_frame(
        &self,
        folder: String,
        name: &str,
        click: SaveClick,
        facts: SaveFacts,
        env: &Environment,
    ) -> (r: SaveFrame)
        ensures
            ({
                let f = Self::folder_after(folder@, click, *env);
                &&& r.folder@ == f
                &&& r.status == self.save_status
                &&& r.note@ == Self::save_note(copy_target(f, name@, opt_text(env.home)), facts)
                &&& r.blocked == self.save_blocked(name@, facts)
                &&& click != SaveClick::Browse ==> self.save_request(
                    f,
                    name@,
                    click,
                    facts,
                    *env,
                    r.request,
                )
            }),
    {
        let folder = Self::save_folder_after(folder, click, env);
        let target = save_target(folder.as_str(), name, env);
        let note = Self::note(&target.dst, facts);
        let blocked = self.blocked(name, facts);
        let request = self.request_for(target, blocked, click, facts);
        SaveFrame { folder, status: copy_opt(&self.save_status), note, blocked, request }
    }

    /// What a click in the save dialog does to the window.
    fn advance_save(
        &mut self,
        folder: String,
        name: String,
        click: SaveClick,
        close: bool,
        now: u64,
    ) -> (r: Option<PickRequest>)
        requires
            old(self).wf(),
            old(self).pending_local_save is Some,
            click == SaveClick::Browse ==> !close,
            now + PICK_TIMEOUT_NANOS <= u64::MAX,
        ensures
            final(self).wf(),
            old(self).advanced(folder@, name@, click, close, now, *final(self)),
            match r {
                Some(p) => click == SaveClick::Browse && Some(p.suggested_name) == old(
                    self,
                ).pending_local_save && p.start_dir == old(self).save_dest_folder,
                None => click != SaveClick::Browse,
            },
    {
        let r = match copy_opt(&self.pending_local_save) {
            Some(current) if click == SaveClick::Browse => {
                Some(self.browse_for_save_location(current, now))
            },
            _ => {
                self.tell_cancelled(click == SaveClick::Cancel);
                None
            },
        };
        self.end_save_frame(folder, name, close);
        r
    }

    fn tell_cancelled(&mut self, cancelled: bool)
        requires
            old(self).wf(),
        ensures
            final(self).wf(),
            *final(self) == old(self).relogged(final(self).model.diagnostics),
            final(self).log() == logged_if(
                old(self).log(),
                cancelled,
                "Save cancelled — the recording is still in the output folder."@,
            ),
            final(self).timed_since(*old(self), count(cancelled)),
    {
        if cancelled {
            self.say("Save cancelled — the recording is still in the output folder.");
        }
    }

    /// What is to be done after a click that does not open the file dialog.
    fn request_for(
        &self,
        target: SaveTarget,
        blocked: Option<Blocked>,
        click: SaveClick,
        facts: SaveFacts,
    ) -> (r: SaveRequest)
        requires
            blocked is None ==> self.current_recording_path is Some,
        ensures
            match click {
                SaveClick::CreateFolder => if !facts.same && facts.folder_missing
                    && target.folder is Some {
                    r == SaveRequest::Create(target.folder->0)
                } else {
                    r is Nothing
                },
                SaveClick::Save => if blocked is None {
                    r matches SaveRequest::Copy { src, dst } && Some(src)
                        == self.current_recording_path && dst == target.dst
                } else {
                    r is Nothing
                },
                _ => r is Nothing,
            },
    {
        match click {
            SaveClick::CreateFolder => {
                if !facts.same && facts.folder_missing {
                    if let Some(dir) = target.folder {
                        return SaveRequest::Create(dir);
                    }
                }
                SaveRequest::Nothing
            },
            SaveClick::Save => {
                if blocked.is_none() {
                    if let Some(src) = copy_opt(&self.current_recording_path) {
                        return SaveRequest::Copy { src, dst: target.dst };
                    }
                }
                SaveRequest::Nothing
            },
            _ => SaveRequest::Nothing,
        }
    }

    /// Keeps what stands in the fields, or closes the save dialog.
    fn end_save_frame(&mut self, folder: String, name: String, close: bool)
        ensures
            *final(self) == (AppWindow {
                save_dest_folder: folder,
                pending_local_save: if close {
                    None
                } else {
                    Some(name)
                },
                save_status: if close {
                    None
                } else {
                    old(self).save_status
                },
                ..*old(self)
            }),
    {
        self.save_dest_folder = folder;
        if close {
            self.pending_local_save = None;
            self.save_status = None;
        } else {
            self.pending_local_save = Some(name);
        }
    }

    /// Says how creating the folder went.
    pub fn on_folder_created(&mut self, dir: &FilePath, outcome: &Result<(), String>)
        requires
            old(self).wf(),
        ensures
            final(self).wf(),
            *final(self) == old(self).relogged(final(self).model.diagnostics),
            final(self).timed_since(*old(self), 1),
            final(self).log() == logged(
                old(self).log(),
                match *outcome {
                    Ok(()) => "Created "@ + shown_bytes(dir@),
                    Err(e) => "Could not create "@ + shown_bytes(dir@) + ": "@ + e@,
                },
            ),
    {
        match outcome {
            Ok(()) => {
                let line = String::from_str("Created ").concat(dir.display().as_str());
                self.say(line.as_str());
            },
            Err(e) => {
                let mut line = String::from_str("Could not create ");
                line.append(dir.display().as_str());
                line.append(": ");
                line.append(e.as_str());
                self.say(line.as_str());
            },
        }
    }

    /// Says how copying a recording went. On success `outcome` holds its size in megabytes, as
    /// it is shown.
    pub fn on_copied(
        &mut self,
        name: &str,
        src: &str,
        dst: &FilePath,
        outcome: &Result<String, String>,
    )
        requires
            old(self).wf(),
        ensures
            final(self).wf(),
            *final(self) == old(self).relogged(final(self).model.diagnostics),
            final(self).timed_since(*old(self), 1),
            final(self).log() == logged(
                old(self).log(),
                match *outcome {
                    Ok(megabytes) => "Saved "@ + name@ + " ("@ + megabytes@ + " MB) to "@
                        + shown_bytes(dst@),
                    Err(e) => "Save failed: "@ + e@ + " — the original is still at "@ + src@,
                },
            ),
    {
        match outcome {
            Ok(megabytes) => {
                let mut line = String::from_str("Saved ");
                line.append(name);
                line.append(" (");
                line.append(megabytes.as_str());
                line.append(" MB) to ");
                line.append(dst.display().as_str());
                self.say(line.as_str());
            },
            Err(e) => {
                let mut line = String::from_str("Save failed: ");
                line.append(e.as_str());
                line.append(" — the original is still at ");
                line.append(src);
                self.say(line.as_str());
            },
        }
    }

    /// Takes an offered recording. Returns `false`, for "declined", while another offer waits.
    pub fn on_save_offer(&mut self, path: String) -> (taken: bool)
        ensures
            taken == (old(self).pending_save_offer is None),
            *final(self) == (AppWindow {
                pending_save_offer: if taken {
                    Some(path)
                } else {
                    old(self).pending_save_offer
                },
                ..*old(self)
            }),
    {
        if self.pending_save_offer.is_some() {
            false
        } else {
            self.pending_save_offer = Some(path);
            true
        }
    }

    /// The name that the offered file has.
    pub fn offered_file_name(path: &str) -> (r: String)
        ensures
            r@ == Self::offered_name(path@),
    {
        match file_name(path) {
            Some(name) => name,
            None => String::from_str("recording.mp4"),
        }
    }

    /// Answers the offer that waits: where to save the copy, or `None` to decline. Nothing is
    /// answered where no offer waits.
    pub fn answer_save_offer(&mut self, name: &Option<String>) -> (r: Option<Option<String>>)
        ensures
            *final(self) == (AppWindow { pending_save_offer: None, ..*old(self) }),
            match (old(self).pending_save_offer, r) {
                (None, None) => true,
                (Some(_), Some(answer)) => opt_text(answer) == match *name {
                    Some(n) => Some(joined(old(self).model.settings.output_folder@, n@)),
                    None => None,
                },
                _ => false,
            },
    {
        if self.pending_save_offer.is_none() {
            return None;
        }
        self.pending_save_offer = None;
        match name {
            Some(n) => Some(Some(join(self.model.settings.output_folder.as_str(), n.as_str()))),
            None => Some(None),
        }
    }
}

/// A recording is never copied onto itself, nor anywhere while the folder is missing or no name
/// is given, whatever is clicked.
pub proof fn a_copy_never_goes_onto_the_recording(
    w: AppWindow,
    folder: Seq<char>,
    name: Seq<char>,
    click: SaveClick,
    facts: SaveFacts,
    env: Environment,
    request: SaveRequest,
)
    requires
        w.save_request(folder, name, click, facts, env, request),
        request is Copy,
    ensures
        !facts.same,
        !facts.folder_missing,
        trimmed(name).len() > 0,
        w.current_recording_path is Some,
        click == SaveClick::Save,
{
}

/// Without a click the fields of the save dialog keep what was typed, frame after frame, and the
/// dialog stays open.
pub proof fn what_is_typed_stays_typed(
    w: AppWindow,
    after: AppWindow,
    folder: Seq<char>,
    name: Seq<char>,
    facts: SaveFacts,
    now: u64,
)
    requires
        w.saved_frame(folder, name, SaveClick::Nothing, facts, now, after),
    ensures
        after.save_dest_folder@ == folder,
        opt_text(after.pending_local_save) == Some(name),
        after.log() == w.log(),
        after.model.diagnostics.times() == w.model.diagnostics.times(),
{
}

/// A file dialog that is cancelled or fails leaves the place and the name of the copy as they
/// were, and the save dialog says what happened.
pub proof fn an_unsuccessful_pick_moves_nothing(
    w: AppWindow,
    answer: Result<Option<FilePath>, String>,
    after: AppWindow,
)
    requires
        w.picked(answer, after),
        !(answer matches Ok(chosen) && chosen is Some),
    ensures
        after.save_dest_folder == w.save_dest_folder,
        after.pending_local_save == w.pending_local_save,
        after.save_status is Some,
        !after.picking,
{
}

/// A place that was chosen becomes the place of the copy: the folder and the name of the path
/// stand in the two fields.
pub proof fn a_chosen_place_stands_in_the_fields(w: AppWindow, path: FilePath, after: AppWindow)
    requires
        w.picked(Ok(Some(path)), after),
        parent_bytes(path@) is Some,
        name_text(path@) is Some,
    ensures
        after.save_dest_folder@ == shown_bytes(parent_bytes(path@)->0),
        opt_text(after.pending_local_save) == name_text(path@),
        after.save_status is None,
{
}

/// A copy goes to the place that was chosen, unless the fields are touched: its file has the
/// chosen name, in the chosen folder. This holds of every absolute path of text whose folder has
/// no white space or quote at its end.
pub proof fn a_chosen_place_is_where_the_copy_goes(
    w: AppWindow,
    path: FilePath,
    text: Seq<char>,
    after: AppWindow,
    home: Option<Seq<char>>,
)
    requires
        w.picked(Ok(Some(path)), after),
        path@ == encode_utf8(text),
        parent_path(text) matches Some(dir) && absolute(dir) && cleaned(dir) == dir,
        last_name(text) is Some,
    ensures
        after.save_dest_folder@ == parent_path(text)->0,
        opt_text(after.pending_local_save) == last_name(text),
        copy_target(after.save_dest_folder@, last_name(text)->0, home) == encode_utf8(
            joined(parent_path(text)->0, last_name(text)->0),
        ),
{
    reveal(copy_target);
    reveal(folder_path);
    reveal_strlit("file://");
    reveal_strlit("~");
    reveal_strlit("~/");
    reveal_strlit("$HOME");
    let dir = parent_path(text)->0;
    a_path_of_text_has_the_parent_of_the_text(text);
    a_path_of_text_has_the_name_of_the_text(text);
    a_path_of_text_shows_as_that_text(dir);
    paths_of_text_join_as_text(dir, last_name(text)->0);
    assert("file://"@[0] == 'f' && "~"@[0] == '~' && "~/"@[0] == '~' && "$HOME"@[0] == '$');
}

/// Saving is possible exactly where there is a recording, a name that is not blank, a folder that
/// exists, and a target that is not the recording itself; else the first reason of these is told.
pub proof fn saving_is_blocked_for_a_reason(w: AppWindow, name: Seq<char>, facts: SaveFacts)
    ensures
        ({
            let b = w.save_blocked(name, facts);
            let named = trimmed(name).len() > 0;
            &&& b is None <==> w.current_recording_path is Some && named && !facts.same
                && !facts.folder_missing
            &&& w.current_recording_path is None ==> b == Some(Blocked::NoRecording)
            &&& w.current_recording_path is Some && !named ==> b == Some(Blocked::NoName)
            &&& w.current_recording_path is Some && named && facts.same ==> b == Some(
                Blocked::Itself,
            )
            &&& w.current_recording_path is Some && named && !facts.same && facts.folder_missing
                ==> b == Some(Blocked::NoFolder)
        }),
{
}

/// What is saved is the recording, under the name in the folder as they stand in the fields; that
/// happens when Save is clicked and nothing speaks against it, and never else. The folder is
/// created where it is asked for and missing; Browse opens the file dialog with what stands in the
/// fields.
pub proof fn a_copy_goes_where_the_fields_say(
    w: AppWindow,
    folder: Seq<char>,
    name: Seq<char>,
    click: SaveClick,
    facts: SaveFacts,
    env: Environment,
    request: SaveRequest,
)
    requires
        w.save_request(folder, name, click, facts, env, request),
        folder.len() > 0 && folder[0] == '/' && folder.last() != '/' && cleaned(folder) == folder,
        name.len() > 0 && name[0] != '/',
    ensures
        request is Copy <==> click == SaveClick::Save && w.current_recording_path is Some
            && trimmed(name).len() > 0 && !facts.same && !facts.folder_missing,
        request matches SaveRequest::Copy { src, dst } ==> {
            &&& Some(src@) == opt_text(w.current_recording_path)
            &&& dst@ == encode_utf8(folder + seq!['/'] + name)
        },
        request is Create <==> click == SaveClick::CreateFolder && facts.folder_missing
            && !facts.same,
        request matches SaveRequest::Create(dir) ==> dir@ == encode_utf8(folder),
        request is Pick <==> click == SaveClick::Browse,
        request matches SaveRequest::Pick(p) ==> p.start_dir@ == w.save_dest_folder@ && Some(
            p.suggested_name@,
        ) == opt_text(w.pending_local_save),
{
    reveal(copy_target);
    lemma_absolute_folder(folder, opt_text(env.home));
    paths_of_text_join_as_text(folder, name);
    assert(joined(folder, name) =~= folder + seq!['/'] + name);
}

proof fn lemma_absolute_folder(folder: Seq<char>, home: Option<Seq<char>>)
    requires
        folder.len() > 0 && folder[0] == '/',
        cleaned(folder) == folder,
    ensures
        folder_path(folder, home) == Some(encode_utf8(folder)),
{
    reveal(folder_path);
    reveal_strlit("file://");
    reveal_strlit("~");
    reveal_strlit("~/");
    reveal_strlit("$HOME");
    assert("file://"@[0] == 'f' && "~"@[0] == '~' && "~/"@[0] == '~' && "$HOME"@[0] == '$');
}

/// A frame of the save dialog keeps the folder and the name that stand in its fields, or the
/// default folder where that is asked for. It closes the dialog on Cancel and on a Save that is
/// done; Browse gives the file dialog ten minutes.
pub proof fn the_fields_keep_what_stands_in_them(
    w: AppWindow,
    folder: Seq<char>,
    name: Seq<char>,
    click: SaveClick,
    facts: SaveFacts,
    now: u64,
    env: Environment,
    after: AppWindow,
)
    requires
        now + 600 * 1_000_000_000 <= u64::MAX,
        w.saved_frame(AppWindow::folder_after(folder, click, env), name, click, facts, now, after),
    ensures
        click == SaveClick::DefaultFolder ==> after.save_dest_folder@ == save_folder(env),
        click != SaveClick::DefaultFolder ==> after.save_dest_folder@ == folder,
        ({
            let done = click == SaveClick::Cancel || (click == SaveClick::Save && w.save_blocked(
                name,
                facts,
            ) is None);
            &&& done ==> after.pending_local_save is None && after.save_status is None
            &&& !done ==> opt_text(after.pending_local_save) == Some(name)
        }),
        click == SaveClick::Browse ==> after.picking && after.pick_deadline == Some(
            (now + 600 * 1_000_000_000) as u64,
        ),
        click != SaveClick::Browse ==> after.picking == w.picking && after.pick_deadline
            == w.pick_deadline,
        after.current_recording_path == w.current_recording_path,
        after.model.settings == w.model.settings && after.model.status == w.model.status,
{
}

/// The file dialog is waited for until its deadline and no longer; an answer is taken when it
/// comes, and a dialog that is gone is one that failed. Without a dialog nothing happens.
pub proof fn a_file_dialog_is_waited_for_until_its_deadline(
    w: AppWindow,
    poll: PickPoll,
    now: u64,
    after: AppWindow,
)
    requires
        w.pick_polled(poll, now, after),
    ensures
        !w.picking ==> after == w,
        w.picking && poll is Waiting && !(w.pick_deadline matches Some(d) && d <= now) ==> after == w,
        w.picking && poll is Waiting && (w.pick_deadline matches Some(d) && d <= now)
            ==> !after.picking && after.pick_deadline is None && after.save_status is Some
            && after.save_dest_folder == w.save_dest_folder && after.pending_local_save
            == w.pending_local_save,
        w.picking && poll is Gone ==> !after.picking && opt_text(after.save_status) == Some(
            "Save dialog failed: "@ + "the save dialog task ended without answering"@,
        ) && after.save_dest_folder == w.save_dest_folder,
        w.picking ==> (poll matches PickPoll::Answered(answer) ==> !after.picking
            && after.pick_deadline is None && w.picked(answer, after)),
        after.current_recording_path == w.current_recording_path,
{
}

/// Below the fields stands where the copy goes, or the warning that it cannot go there.
pub proof fn the_note_says_where_the_copy_goes(text: Seq<char>, facts: SaveFacts)
    ensures
        facts.same ==> AppWindow::save_note(encode_utf8(text), facts)
            == "⚠ That is the recording itself — choose another folder or name."@,
        !facts.same && facts.folder_missing ==> AppWindow::save_note(encode_utf8(text), facts)
            == "⚠ That folder does not exist."@,
        !facts.same && !facts.folder_missing ==> AppWindow::save_note(encode_utf8(text), facts)
            == "→ "@ + text,
{
    a_path_of_text_shows_as_that_text(text);
}

} // verus!

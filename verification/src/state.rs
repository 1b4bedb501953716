//! The catalog, the selection cursor, and the screen state machine.

use vstd::prelude::*;

use crate::viewport::{count_lines, spec_clamp_step, spec_line_count, spec_scroll_down,
    spec_scroll_up};

verus! {

/// Error kinds of the two fallible operations: a directory listing that
/// cannot be enumerated, and an entry whose content cannot be read.
#[derive(Clone, Copy, Debug, PartialEq, Eq)]
pub enum NavError {
    DirectoryUnreadable,
    ContentUnreadable,
}

/// Health of a listed entry. Listings never probe real processes, so a
/// fresh entry always carries `EXITED(0)` as a placeholder.
#[derive(Clone, Debug, PartialEq, Eq)]
pub enum Status {
    UP(usize),
    EXITED(usize),
    ERROR(String),
}

/// One listed filesystem entry: a name unique within a listing snapshot,
/// a placeholder status, and lazily populated text content.
#[derive(Clone, Debug)]
pub struct Container {
    pub name: String,
    pub status: Status,
    pub logs: String,
}

/// The coarse UI state: browsing the catalog, or viewing a snapshot of
/// one entry taken at selection-commit time.
#[derive(Clone, Debug)]
pub enum CurrentScreen {
    Main,
    Viewing(Container),
}

/// Application state: the catalog, the cursor over it, the screen, the
/// scroll offset of the content viewport, and the last operation's
/// outcome message.
pub struct Sebulba {
    pub selected_idx: Option<usize>,
    pub all_containers: Vec<Container>,
    pub current_screen: CurrentScreen,
    pub info: Result<(), String>,
    pub offset: usize,
}

/// Successor of index `i` in a catalog of length `len`, wrapping from
/// the last index back to 0.
pub open spec fn next_idx(i: nat, len: nat) -> nat
    recommends
        0 < len,
        i < len,
{
    if i + 1 == len {
        0
    } else {
        i + 1
    }
}

/// Predecessor of index `i` in a catalog of length `len`, wrapping from
/// 0 back to the last index.
pub open spec fn prev_idx(i: nat, len: nat) -> nat
    recommends
        0 < len,
        i < len,
{
    if i == 0 {
        (len - 1) as nat
    } else {
        (i - 1) as nat
    }
}

/// Where a move-down lands: from no selection it lands on index 0,
/// otherwise on the wrapping successor.
pub open spec fn next_sel(cur: Option<usize>, len: nat) -> nat
    recommends
        0 < len,
        cur matches Some(i) ==> i < len,
{
    match cur {
        None => 0,
        Some(i) => next_idx(i as nat, len),
    }
}

/// Where a move-up lands: from no selection it lands on the last index,
/// otherwise on the wrapping predecessor.
pub open spec fn prev_sel(cur: Option<usize>, len: nat) -> nat
    recommends
        0 < len,
        cur matches Some(i) ==> i < len,
{
    match cur {
        None => (len - 1) as nat,
        Some(i) => prev_idx(i as nat, len),
    }
}

/// One discrete input command, delivered by the caller one at a time;
/// how physical keys map onto these is the caller's concern.
#[derive(Clone, Copy, Debug, PartialEq, Eq)]
pub enum Command {
    MoveUp,
    MoveDown,
    Refresh,
    Open,
    Back,
    ScrollUp,
    ScrollDown,
    Quit,
}

/// What the caller must do after a command is processed: nothing,
/// terminate the loop, read the named file and hand the outcome to
/// `commit_selection`, or list the directory and hand the outcome to
/// `list_files`.
#[derive(Clone, Debug, PartialEq, Eq)]
pub enum Action {
    Idle,
    Quit,
    ReadFile(String),
    ListDirectory,
}

/// An entry as a listing creates it: named after the file, placeholder
/// status, no content loaded yet.
pub open spec fn fresh_entry(c: Container, name: String) -> bool {
    &&& c.name@ == name@
    &&& c.status == Status::EXITED(0)
    &&& c.logs@ == Seq::<char>::empty()
}

/// What a successful refresh leaves behind: the cursor cleared, and one
/// fresh entry per listed name, in listing order.
pub open spec fn refreshed_with(s: Sebulba, names: Seq<String>) -> bool {
    &&& s.selected_idx is None
    &&& s.all_containers@.len() == names.len()
    &&& forall|i: int|
        0 <= i < names.len() ==> fresh_entry(#[trigger] s.all_containers@[i], names[i])
}

/// `s` with its cursor replaced.
pub open spec fn with_cursor(s: Sebulba, cur: Option<usize>) -> Sebulba {
    Sebulba {
        selected_idx: cur,
        all_containers: s.all_containers,
        current_screen: s.current_screen,
        info: s.info,
        offset: s.offset,
    }
}

/// `s` with its screen replaced.
pub open spec fn with_screen(s: Sebulba, scr: CurrentScreen) -> Sebulba {
    Sebulba {
        selected_idx: s.selected_idx,
        all_containers: s.all_containers,
        current_screen: scr,
        info: s.info,
        offset: s.offset,
    }
}

/// `s` with its scroll offset replaced.
pub open spec fn with_offset(s: Sebulba, off: usize) -> Sebulba {
    Sebulba {
        selected_idx: s.selected_idx,
        all_containers: s.all_containers,
        current_screen: s.current_screen,
        info: s.info,
        offset: off,
    }
}

/// `s` with its status message cleared, as every command cycle begins.
pub open spec fn with_info_ok(s: Sebulba) -> Sebulba {
    Sebulba {
        selected_idx: s.selected_idx,
        all_containers: s.all_containers,
        current_screen: s.current_screen,
        info: Ok(()),
        offset: s.offset,
    }
}

/// Cursor movement as a command performs it: only while browsing, and
/// only over a non-empty catalog; `down` picks between successor and
/// predecessor.
pub open spec fn spec_move(s: Sebulba, down: bool) -> Sebulba {
    if s.current_screen is Main && s.all_containers@.len() > 0 {
        with_cursor(
            s,
            Some(
                (if down {
                    next_sel(s.selected_idx, s.all_containers@.len())
                } else {
                    prev_sel(s.selected_idx, s.all_containers@.len())
                }) as usize,
            ),
        )
    } else {
        s
    }
}

/// The state machine's transition function: given the state, one input
/// command, and the viewport height of the current frame, the next
/// state and the action the caller must carry out. The status message
/// is cleared first, so a stale error never outlives the next command.
pub open spec fn spec_step(s: Sebulba, cmd: Command, vh: nat) -> (Sebulba, Action) {
    let c = with_info_ok(s);
    match cmd {
        Command::Quit => (c, Action::Quit),
        Command::MoveDown => (spec_move(c, true), Action::Idle),
        Command::MoveUp => (spec_move(c, false), Action::Idle),
        Command::Refresh => (
            c,
            if c.current_screen is Main {
                Action::ListDirectory
            } else {
                Action::Idle
            },
        ),
        Command::Open => (
            c,
            match c.current_screen {
                CurrentScreen::Main => match c.selected_idx {
                    Some(i) => Action::ReadFile(c.all_containers@[i as int].name),
                    None => Action::Idle,
                },
                CurrentScreen::Viewing(_) => Action::Idle,
            },
        ),
        Command::Back => (
            match c.current_screen {
                CurrentScreen::Viewing(_) => with_screen(c, CurrentScreen::Main),
                CurrentScreen::Main => c,
            },
            Action::Idle,
        ),
        Command::ScrollDown => (
            match c.current_screen {
                CurrentScreen::Viewing(v) => with_offset(
                    c,
                    spec_scroll_down(
                        c.offset as nat,
                        spec_line_count(v.logs@),
                        vh,
                    ) as usize,
                ),
                CurrentScreen::Main => c,
            },
            Action::Idle,
        ),
        Command::ScrollUp => (
            match c.current_screen {
                CurrentScreen::Viewing(_) => with_offset(
                    c,
                    spec_scroll_up(c.offset as nat) as usize,
                ),
                CurrentScreen::Main => c,
            },
            Action::Idle,
        ),
    }
}

/// Copy of a status value, usable where verified code needs to know the
/// copy equals the original.
fn clone_status(s: &Status) -> (r: Status)
    ensures
        r == s,
{
    match s {
        Status::UP(n) => Status::UP(*n),
        Status::EXITED(n) => Status::EXITED(*n),
        Status::ERROR(m) => Status::ERROR(m.clone()),
    }
}

impl Sebulba {
    /// The cursor, if set, always points inside the catalog; on an empty
    /// catalog it is necessarily `None`.
    pub open spec fn wf(self) -> bool {
        self.selected_idx matches Some(i) ==> i < self.all_containers@.len()
    }

    /// Initial state: empty catalog, no selection, browsing, no message,
    /// offset zero. The caller performs the startup listing and hands it
    /// to `list_files`.
    pub fn new() -> (s: Sebulba)
        ensures
            s.wf(),
            s.selected_idx is None,
            s.all_containers@.len() == 0,
            s.current_screen is Main,
            s.info is Ok,
            s.offset == 0,
    {
        Sebulba {
            selected_idx: None,
            all_containers: Vec::new(),
            current_screen: CurrentScreen::Main,
            info: Ok(()),
            offset: 0,
        }
    }

    /// Move the selection down one entry, wrapping from the last entry
    /// to the first; on an empty catalog the cursor stays `None` and
    /// nothing changes. Only the cursor moves: opening content is a
    /// separate, explicit step.
    pub fn select_next(&mut self)
        requires
            old(self).wf(),
        ensures
            final(self).wf(),
            final(self).all_containers == old(self).all_containers,
            final(self).current_screen == old(self).current_screen,
            final(self).info == old(self).info,
            final(self).offset == old(self).offset,
            old(self).all_containers@.len() == 0 ==> final(self).selected_idx is None,
            old(self).all_containers@.len() > 0 ==> (final(self).selected_idx matches Some(i)
                && i == next_sel(old(self).selected_idx, old(self).all_containers@.len())),
    {
        let len = self.all_containers.len();
        if len == 0 {
            return;
        }
        let max_idx = len - 1;
        match self.selected_idx {
            Some(value) if value == max_idx => self.selected_idx = Some(0),
            None => self.selected_idx = Some(0),
            Some(idx) => self.selected_idx = Some(idx + 1),
        }
    }

    /// Move the selection up one entry, wrapping from the first entry to
    /// the last; on an empty catalog the cursor stays `None` and nothing
    /// changes.
    pub fn select_prev(&mut self)
        requires
            old(self).wf(),
        ensures
            final(self).wf(),
            final(self).all_containers == old(self).all_containers,
            final(self).current_screen == old(self).current_screen,
            final(self).info == old(self).info,
            final(self).offset == old(self).offset,
            old(self).all_containers@.len() == 0 ==> final(self).selected_idx is None,
            old(self).all_containers@.len() > 0 ==> (final(self).selected_idx matches Some(i)
                && i == prev_sel(old(self).selected_idx, old(self).all_containers@.len())),
    {
        let len = self.all_containers.len();
        if len == 0 {
            return;
        }
        let max_idx = len - 1;
        match self.selected_idx {
            Some(0) | None => self.selected_idx = Some(max_idx),
            Some(idx) => self.selected_idx = Some(idx - 1),
        }
    }

    /// Scroll the viewed content down one line, saturating at the last
    /// offset that still fills the viewport; while browsing there is no
    /// content and nothing changes.
    pub fn inc_offset(&mut self, viewport_height: usize)
        requires
            old(self).wf(),
        ensures
            final(self).wf(),
            final(self).all_containers == old(self).all_containers,
            final(self).selected_idx == old(self).selected_idx,
            final(self).current_screen == old(self).current_screen,
            final(self).info == old(self).info,
            old(self).current_screen is Main ==> final(self).offset == old(self).offset,
            old(self).current_screen matches CurrentScreen::Viewing(c) ==> final(self).offset
                == spec_scroll_down(
                old(self).offset as nat,
                spec_line_count(c.logs@),
                viewport_height as nat,
            ),
    {
        let n: usize;
        match &self.current_screen {
            CurrentScreen::Viewing(c) => {
                n = count_lines(c.logs.as_str());
            },
            CurrentScreen::Main => {
                return;
            },
        }
        let max: usize = if n > viewport_height {
            n - viewport_height
        } else {
            0
        };
        if self.offset < max {
            self.offset = self.offset + 1;
        }
    }

    /// Scroll the viewed content up one line, saturating at zero.
    pub fn dec_offset(&mut self)
        requires
            old(self).wf(),
        ensures
            final(self).wf(),
            final(self).all_containers == old(self).all_containers,
            final(self).selected_idx == old(self).selected_idx,
            final(self).current_screen == old(self).current_screen,
            final(self).info == old(self).info,
            final(self).offset == spec_scroll_up(old(self).offset as nat),
    {
        match self.offset {
            0 => {},
            _ => self.offset = self.offset - 1,
        }
    }

    /// The once-per-frame adjustment of a stale offset: content that
    /// fits the viewport pins the offset to zero; otherwise an offset
    /// past the valid range is walked back by one line per frame. While
    /// browsing there is no content and nothing changes.
    pub fn clamp_offset(&mut self, viewport_height: usize)
        requires
            old(self).wf(),
        ensures
            final(self).wf(),
            final(self).all_containers == old(self).all_containers,
            final(self).selected_idx == old(self).selected_idx,
            final(self).current_screen == old(self).current_screen,
            final(self).info == old(self).info,
            old(self).current_screen is Main ==> final(self).offset == old(self).offset,
            old(self).current_screen matches CurrentScreen::Viewing(c) ==> final(self).offset
                == spec_clamp_step(
                old(self).offset as nat,
                spec_line_count(c.logs@),
                viewport_height as nat,
            ),
    {
        let n: usize;
        match &self.current_screen {
            CurrentScreen::Viewing(c) => {
                n = count_lines(c.logs.as_str());
            },
            CurrentScreen::Main => {
                return;
            },
        }
        if n <= viewport_height {
            self.offset = 0;
        } else {
            let max = n - viewport_height;
            if self.offset > max {
                self.offset = self.offset - 1;
            }
        }
    }

    /// Rebuild the catalog from a directory listing, delivered by the
    /// caller as file names in listing order, or as `None` when the
    /// directory could not be enumerated. A successful listing replaces
    /// the catalog wholesale and clears the cursor; a failed one leaves
    /// the old catalog standing and reports through the status message.
    pub fn list_files(&mut self, listing: Option<Vec<String>>) -> (r: Result<(), NavError>)
        requires
            old(self).wf(),
        ensures
            final(self).wf(),
            final(self).current_screen == old(self).current_screen,
            final(self).offset == old(self).offset,
            listing matches Some(names) ==> refreshed_with(*final(self), names@)
                && final(self).info == old(self).info && r is Ok,
            listing is None ==> final(self).all_containers == old(self).all_containers
                && final(self).selected_idx == old(self).selected_idx
                && (final(self).info matches Err(m) && m@ == "Directory couldn't be read."@)
                && r == Result::<(), NavError>::Err(NavError::DirectoryUnreadable),
    {
        let names = match listing {
            Some(names) => names,
            None => {
                self.info = Err("Directory couldn't be read.".to_owned());
                return Err(NavError::DirectoryUnreadable);
            },
        };
        let mut found: Vec<Container> = Vec::new();
        let mut i: usize = 0;
        while i < names.len()
            invariant
                i <= names@.len(),
                found@.len() == i,
                forall|j: int| 0 <= j < i ==> fresh_entry(#[trigger] found@[j], names@[j]),
            decreases names@.len() - i,
        {
            found.push(
                Container {
                    name: names[i].clone(),
                    status: Status::EXITED(0),
                    logs: String::new(),
                },
            );
            i = i + 1;
        }
        self.selected_idx = None;
        self.all_containers = found;
        Ok(())
    }

    /// Commit the selected entry: the caller hands over the result of
    /// reading the entry's backing file, `None` when it could not be
    /// opened or read. On success the screen switches to a snapshot of
    /// the entry with its content filled in and the scroll offset starts
    /// over at zero; on failure the screen and offset stay put and the
    /// status message reports it. With nothing selected this is a no-op.
    pub fn commit_selection(&mut self, read: Option<String>) -> (r: Result<(), NavError>)
        requires
            old(self).wf(),
        ensures
            final(self).wf(),
            final(self).all_containers == old(self).all_containers,
            final(self).selected_idx == old(self).selected_idx,
            old(self).selected_idx is None ==> *final(self) == *old(self) && r is Ok,
            old(self).selected_idx matches Some(idx) ==> read matches Some(content) ==> (
                final(self).current_screen matches CurrentScreen::Viewing(v)
                && v.name == old(self).all_containers@[idx as int].name
                && v.status == old(self).all_containers@[idx as int].status
                && v.logs == content
                && final(self).offset == 0
                && final(self).info == old(self).info
                && r is Ok),
            old(self).selected_idx is Some && read is None ==> (
                final(self).current_screen == old(self).current_screen
                && final(self).offset == old(self).offset
                && (final(self).info matches Err(m) && m@ == "File couldn't be opened."@)
                && r == Result::<(), NavError>::Err(NavError::ContentUnreadable)),
    {
        let idx = match self.selected_idx {
            Some(idx) => idx,
            None => {
                return Ok(());
            },
        };
        match read {
            Some(content) => {
                let src = &self.all_containers[idx];
                let viewed = Container {
                    name: src.name.clone(),
                    status: clone_status(&src.status),
                    logs: content,
                };
                self.current_screen = CurrentScreen::Viewing(viewed);
                self.offset = 0;
                Ok(())
            },
            None => {
                self.info = Err("File couldn't be opened.".to_owned());
                Err(NavError::ContentUnreadable)
            },
        }
    }

    /// Runtime check of `wf`, for callers outside verified code that
    /// must guard a precondition before calling in.
    pub fn is_wf(&self) -> (r: bool)
        ensures
            r == self.wf(),
    {
        match self.selected_idx {
            Some(i) => i < self.all_containers.len(),
            None => true,
        }
    }

    /// Whether the screen is the browsing list rather than a content
    /// view.
    pub fn is_browsing(&self) -> (r: bool)
        ensures
            r == (self.current_screen is Main),
    {
        match &self.current_screen {
            CurrentScreen::Main => true,
            CurrentScreen::Viewing(_) => false,
        }
    }

    /// The entry under the cursor, if any; `None` exactly when nothing
    /// is selected, so an empty catalog can never be dereferenced.
    pub fn selected_entry(&self) -> (r: Option<&Container>)
        requires
            self.wf(),
        ensures
            match self.selected_idx {
                Some(i) => r matches Some(c) && *c == self.all_containers@[i as int],
                None => r is None,
            },
    {
        match self.selected_idx {
            Some(idx) => Some(&self.all_containers[idx]),
            None => None,
        }
    }

    /// Process one input command, with the viewport height the renderer
    /// reports for the current frame, and say what outside work the
    /// caller owes in return. The whole step is `spec_step`: the status
    /// message is cleared, then browsing commands move the cursor or ask
    /// for a listing or a file read, viewing commands scroll or go back,
    /// and `Quit` ends the loop from any screen.
    pub fn handle_command(&mut self, cmd: Command, viewport_height: usize) -> (r: Action)
        requires
            old(self).wf(),
        ensures
            final(self).wf(),
            *final(self) == spec_step(*old(self), cmd, viewport_height as nat).0,
            r == spec_step(*old(self), cmd, viewport_height as nat).1,
    {
        self.info = Ok(());
        match cmd {
            Command::Quit => Action::Quit,
            Command::MoveDown => {
                if self.is_browsing() {
                    self.select_next();
                }
                Action::Idle
            },
            Command::MoveUp => {
                if self.is_browsing() {
                    self.select_prev();
                }
                Action::Idle
            },
            Command::Refresh => {
                if self.is_browsing() {
                    Action::ListDirectory
                } else {
                    Action::Idle
                }
            },
            Command::Open => {
                if self.is_browsing() {
                    match self.selected_idx {
                        Some(idx) => Action::ReadFile(self.all_containers[idx].name.clone()),
                        None => Action::Idle,
                    }
                } else {
                    Action::Idle
                }
            },
            Command::Back => {
                if !self.is_browsing() {
                    self.current_screen = CurrentScreen::Main;
                }
                Action::Idle
            },
            Command::ScrollDown => {
                if !self.is_browsing() {
                    self.inc_offset(viewport_height);
                }
                Action::Idle
            },
            Command::ScrollUp => {
                if !self.is_browsing() {
                    self.dec_offset();
                }
                Action::Idle
            },
        }
    }
}

} // verus!

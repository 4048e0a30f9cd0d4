//! Supervision of one session process: start, stop, restart and switch as
//! a state machine whose commands the caller carries out, and discovery of
//! session definitions.
use vstd::prelude::*;

use crate::text::{
    chars_of, chars_range, ends_with, first_word, first_word_of, has_prefix, has_suffix, is_space,
    lines_of, split_lines, starts_with_at, string_from_chars, trim, trim_bounds,
};

verus! {

/// Why a session operation failed.
#[derive(PartialEq, Eq, Structural, Debug, Clone, Copy)]
pub enum ProcessError {
    /// The session already owns a live process.
    AlreadyRunning,
    /// The session's program could not be spawned.
    Spawn,
    /// The process could not be signalled, or its exit not confirmed.
    Terminate,
}

/// What the caller must do next for a session.
#[derive(PartialEq, Eq, Structural, Debug, Clone, Copy)]
pub enum SessionCommand {
    /// Spawn the session's `command` with standard output and error
    /// discarded, and report `Spawned` or `SpawnFailed`.
    Spawn,
    /// Send the termination signal to this process, wait until its exit
    /// is confirmed, and report `Exited` or `TerminateFailed`.
    Terminate(u32),
    /// The operation is over and succeeded.
    Finished,
    /// The operation is over and failed.
    Failed(ProcessError),
}

/// What came of the caller's last command.
#[derive(PartialEq, Eq, Structural, Debug, Clone, Copy)]
pub enum ProcessEvent {
    /// The process was spawned and has this handle.
    Spawned(u32),
    /// Spawning failed.
    SpawnFailed,
    /// The process was signalled and its exit confirmed.
    Exited,
    /// Signalling or waiting failed: the process may still run.
    TerminateFailed,
}

/// What follows a confirmed stop.
#[derive(Debug)]
pub enum AfterStop {
    /// Nothing: the operation was a stop.
    Finish,
    /// Start the same session again.
    Start,
    /// Rebind the session to this program and name, then start it.
    Switch { new_exec: String, new_name: String },
}

/// The operation in progress.
#[derive(Debug)]
pub enum Pending {
    /// None: the session takes requests.
    Idle,
    /// A spawn was asked for.
    Spawning,
    /// A termination was asked for; this follows its confirmation.
    Stopping(AfterStop),
}

/// `AfterStop` with its texts as character sequences.
pub enum AfterStopModel {
    Finish,
    Start,
    Switch { new_exec: Seq<char>, new_name: Seq<char> },
}

/// `Pending` with its texts as character sequences.
pub enum PendingModel {
    Idle,
    Spawning,
    Stopping(AfterStopModel),
}

impl View for Pending {
    type V = PendingModel;

    open spec fn view(&self) -> PendingModel {
        match self {
            Pending::Idle => PendingModel::Idle,
            Pending::Spawning => PendingModel::Spawning,
            Pending::Stopping(a) => PendingModel::Stopping(
                match a {
                    AfterStop::Finish => AfterStopModel::Finish,
                    AfterStop::Start => AfterStopModel::Start,
                    AfterStop::Switch { new_exec, new_name } => AfterStopModel::Switch {
                        new_exec: new_exec@,
                        new_name: new_name@,
                    },
                },
            ),
        }
    }
}

/// A named graphical session that owns at most one live process.
#[derive(Debug)]
pub struct Session {
    pub name: String,
    pub command: String,
    child: Option<u32>,
    pending: Pending,
}

/// What a session is: its name and program, the handle of the process it
/// owns, and the operation in progress.
pub struct SessionModel {
    pub name: Seq<char>,
    pub command: Seq<char>,
    pub child: Option<u32>,
    pub pending: PendingModel,
}

impl View for Session {
    type V = SessionModel;

    closed spec fn view(&self) -> SessionModel {
        SessionModel {
            name: self.name@,
            command: self.command@,
            child: self.child,
            pending: self.pending@,
        }
    }
}

/// `start`: refused while a process is owned; otherwise a spawn of its command.
pub open spec fn start_model(s: SessionModel) -> (SessionModel, SessionCommand) {
    if s.child is Some {
        (s, SessionCommand::Failed((ProcessError::AlreadyRunning)))
    } else {
        (SessionModel { pending: PendingModel::Spawning, ..s }, SessionCommand::Spawn)
    }
}

/// `stop`: nothing to do without a process; otherwise its termination.
pub open spec fn stop_model(s: SessionModel) -> (SessionModel, SessionCommand) {
    match s.child {
        Some(h) => (
            SessionModel { pending: PendingModel::Stopping(AfterStopModel::Finish), ..s },
            SessionCommand::Terminate(h),
        ),
        None => (s, SessionCommand::Finished),
    }
}

/// `restart`: a stop, then a start.
pub open spec fn restart_model(s: SessionModel) -> (SessionModel, SessionCommand) {
    match s.child {
        Some(h) => (
            SessionModel { pending: PendingModel::Stopping(AfterStopModel::Start), ..s },
            SessionCommand::Terminate(h),
        ),
        None => start_model(s),
    }
}

/// `switch_session`: a stop, then the rebinding, then a start.
pub open spec fn switch_model(s: SessionModel, new_exec: Seq<char>, new_name: Seq<char>) -> (
    SessionModel,
    SessionCommand,
) {
    match s.child {
        Some(h) => (
            SessionModel {
                pending: PendingModel::Stopping(AfterStopModel::Switch { new_exec, new_name }),
                ..s
            },
            SessionCommand::Terminate(h),
        ),
        None => start_model(SessionModel { command: new_exec, name: new_name, ..s }),
    }
}

/// The event answers the command that the operation in progress gave.
pub open spec fn event_fits(p: PendingModel, ev: ProcessEvent) -> bool {
    match p {
        PendingModel::Idle => false,
        PendingModel::Spawning => ev is Spawned || ev is SpawnFailed,
        PendingModel::Stopping(_) => ev is Exited || ev is TerminateFailed,
    }
}

/// The step that an event makes. A spawned process becomes the session's;
/// a confirmed exit clears the handle and goes on with what follows the
/// stop; a failed termination keeps the handle, since the process may
/// still run. An event that does not fit changes nothing.
pub open spec fn event_model(s: SessionModel, ev: ProcessEvent) -> (SessionModel, SessionCommand) {
    match s.pending {
        PendingModel::Spawning => match ev {
            ProcessEvent::Spawned(h) => (
                SessionModel { child: Some(h), pending: PendingModel::Idle, ..s },
                SessionCommand::Finished,
            ),
            ProcessEvent::SpawnFailed => (
                SessionModel { pending: PendingModel::Idle, ..s },
                SessionCommand::Failed((ProcessError::Spawn)),
            ),
            _ => (s, SessionCommand::Finished),
        },
        PendingModel::Stopping(after) => match ev {
            ProcessEvent::Exited => match after {
                AfterStopModel::Finish => (
                    SessionModel { child: None, pending: PendingModel::Idle, ..s },
                    SessionCommand::Finished,
                ),
                AfterStopModel::Start => (
                    SessionModel { child: None, pending: PendingModel::Spawning, ..s },
                    SessionCommand::Spawn,
                ),
                AfterStopModel::Switch { new_exec, new_name } => (
                    SessionModel {
                        name: new_name,
                        command: new_exec,
                        child: None,
                        pending: PendingModel::Spawning,
                    },
                    SessionCommand::Spawn,
                ),
            },
            ProcessEvent::TerminateFailed => (
                SessionModel { pending: PendingModel::Idle, ..s },
                SessionCommand::Failed((ProcessError::Terminate)),
            ),
            _ => (s, SessionCommand::Finished),
        },
        PendingModel::Idle => (s, SessionCommand::Finished),
    }
}

impl Session {
    /// A session that owns no process.
    pub fn new(name: &str, command: &str) -> (r: Session)
        ensures
            r@ == (SessionModel {
                name: name@,
                command: command@,
                child: None,
                pending: PendingModel::Idle,
            }),
    {
        Session {
            name: String::from_str(name),
            command: String::from_str(command),
            child: None,
            pending: Pending::Idle,
        }
    }

    /// The handle of the process the session owns.
    pub fn child(&self) -> (r: Option<u32>)
        ensures
            r == self@.child,
    {
        self.child
    }

    /// Whether the session owns a live process.
    pub fn is_running(&self) -> (r: bool)
        ensures
            r == self@.child is Some,
    {
        self.child.is_some()
    }

    /// Whether no operation is in progress.
    pub fn is_idle(&self) -> (r: bool)
        ensures
            r == self@.pending is Idle,
    {
        match self.pending {
            Pending::Idle => true,
            _ => false,
        }
    }

    /// Starts the session: fails with `AlreadyRunning`, changing nothing,
    /// while it owns a process.
    pub fn start(&mut self) -> (r: SessionCommand)
        requires
            old(self)@.pending is Idle,
        ensures
            (final(self)@, r) == start_model(old(self)@),
    {
        if self.child.is_some() {
            return SessionCommand::Failed((ProcessError::AlreadyRunning));
        }
        self.pending = Pending::Spawning;
        SessionCommand::Spawn
    }

    /// Stops the session: without a process this succeeds and changes
    /// nothing.
    pub fn stop(&mut self) -> (r: SessionCommand)
        requires
            old(self)@.pending is Idle,
        ensures
            (final(self)@, r) == stop_model(old(self)@),
    {
        match self.child {
            Some(h) => {
                self.pending = Pending::Stopping(AfterStop::Finish);
                SessionCommand::Terminate(h)
            },
            None => SessionCommand::Finished,
        }
    }

    /// Stops, then starts the session; a failed stop ends the operation.
    pub fn restart(&mut self) -> (r: SessionCommand)
        requires
            old(self)@.pending is Idle,
        ensures
            (final(self)@, r) == restart_model(old(self)@),
    {
        match self.child {
            Some(h) => {
                self.pending = Pending::Stopping(AfterStop::Start);
                SessionCommand::Terminate(h)
            },
            None => self.start(),
        }
    }

    /// Stops the session, rebinds it to `new_exec` and `new_name`, and
    /// starts it; a failed stop ends the operation before the rebinding.
    pub fn switch_session(&mut self, new_exec: &str, new_name: &str) -> (r: SessionCommand)
        requires
            old(self)@.pending is Idle,
        ensures
            (final(self)@, r) == switch_model(old(self)@, new_exec@, new_name@),
    {
        match self.child {
            Some(h) => {
                self.pending = Pending::Stopping(
                    AfterStop::Switch {
                        new_exec: String::from_str(new_exec),
                        new_name: String::from_str(new_name),
                    },
                );
                SessionCommand::Terminate(h)
            },
            None => {
                self.command = String::from_str(new_exec);
                self.name = String::from_str(new_name);
                self.start()
            },
        }
    }

    /// Takes the outcome of the last command and gives the next one.
    pub fn on_event(&mut self, ev: ProcessEvent) -> (r: SessionCommand)
        requires
            event_fits(old(self)@.pending, ev),
        ensures
            (final(self)@, r) == event_model(old(self)@, ev),
    {
        let mut pending = Pending::Idle;
        std::mem::swap(&mut self.pending, &mut pending);
        match pending {
            Pending::Spawning => match ev {
                ProcessEvent::Spawned(h) => {
                    self.child = Some(h);
                    SessionCommand::Finished
                },
                _ => SessionCommand::Failed((ProcessError::Spawn)),
            },
            Pending::Stopping(after) => match ev {
                ProcessEvent::Exited => {
                    self.child = None;
                    match after {
                        AfterStop::Finish => SessionCommand::Finished,
                        AfterStop::Start => {
                            self.pending = Pending::Spawning;
                            SessionCommand::Spawn
                        },
                        AfterStop::Switch { new_exec, new_name } => {
                            self.command = new_exec;
                            self.name = new_name;
                            self.pending = Pending::Spawning;
                            SessionCommand::Spawn
                        },
                    }
                },
                _ => SessionCommand::Failed((ProcessError::Terminate)),
            },
            Pending::Idle => SessionCommand::Finished,
        }
    }
}


/// The name, command and hidden flag that the lines of a session
/// definition set, reading them in order: a later `Name=` or `Exec=`
/// replaces an earlier one, and a `Hidden=` or `NoDisplay=` line that ends
/// in `true` hides the session.
pub open spec fn desktop_fields(lines: Seq<Seq<char>>) -> (Seq<char>, Seq<char>, bool)
    decreases lines.len(),
{
    if lines.len() == 0 {
        (Seq::empty(), Seq::empty(), false)
    } else {
        let prev = desktop_fields(lines.drop_last());
        let t = trim(lines.last());
        if has_prefix(t, "Name="@) {
            (t.skip("Name="@.len() as int), prev.1, prev.2)
        } else if has_prefix(t, "Exec="@) {
            (prev.0, t.skip("Exec="@.len() as int), prev.2)
        } else if has_prefix(t, "Hidden="@) && has_suffix(t, "true"@) {
            (prev.0, prev.1, true)
        } else if has_prefix(t, "NoDisplay="@) && has_suffix(t, "true"@) {
            (prev.0, prev.1, true)
        } else {
            prev
        }
    }
}

/// The session that a definition describes, as name and command: none
/// when it is hidden or lacks a name or a command; the command keeps only
/// its first word, which drops placeholder arguments such as `%U`.
pub open spec fn session_entry(text: Seq<char>) -> Option<(Seq<char>, Seq<char>)> {
    let f = desktop_fields(split_lines(text));
    if f.0.len() > 0 && f.1.len() > 0 && !f.2 {
        Some((f.0, first_word(f.1)))
    } else {
        None
    }
}

/// The sessions that the definitions describe, in order.
pub open spec fn sessions_of(files: Seq<Seq<char>>) -> Seq<(Seq<char>, Seq<char>)>
    decreases files.len(),
{
    if files.len() == 0 {
        Seq::empty()
    } else {
        let prev = sessions_of(files.drop_last());
        match session_entry(files.last()) {
            Some(e) => prev.push(e),
            None => prev,
        }
    }
}

/// The text after a prefix of `n` characters.
fn rest_after(t: &Vec<char>, n: usize) -> (r: Vec<char>)
    requires
        n <= t@.len(),
    ensures
        r@ == t@.skip(n as int),
{
    let r = chars_range(t.as_slice(), n, t.len());
    assert(r@ =~= t@.skip(n as int));
    r
}

/// Whether `t` starts with the characters of `p`.
fn has_prefix_exec(t: &Vec<char>, p: &str) -> (r: bool)
    ensures
        r == has_prefix(t@, p@),
{
    assert(t@.subrange(0, t@.len() as int) =~= t@);
    starts_with_at(t.as_slice(), 0, p)
}

impl Session {
    /// The session that the text of a definition file describes.
    pub fn from_desktop_entry(content: &str) -> (r: Option<Session>)
        ensures
            r is Some <==> session_entry(content@) is Some,
            r matches Some(s) ==> {
                &&& (s@.name, s@.command) == session_entry(content@)->0
                &&& s@.child is None
                &&& s@.pending is Idle
            },
    {
        let cs = chars_of(content);
        let lines = lines_of(cs.as_slice());
        let mut name: Vec<char> = Vec::new();
        let mut command: Vec<char> = Vec::new();
        let mut hidden = false;
        let mut i: usize = 0;
        assert(lines.deep_view().take(0) =~= Seq::<Seq<char>>::empty());
        while i < lines.len()
            invariant
                i <= lines@.len(),
                (name@, command@, hidden) == desktop_fields(lines.deep_view().take(i as int)),
            decreases lines@.len() - i,
        {
            let ghost part = lines.deep_view().take(i + 1);
            assert(part.drop_last() =~= lines.deep_view().take(i as int));
            assert(part.last() == lines@[i as int]@);
            let line = &lines[i];
            let (lo, hi) = trim_bounds(line.as_slice());
            let t = chars_range(line.as_slice(), lo, hi);
            if has_prefix_exec(&t, "Name=") {
                name = rest_after(&t, "Name=".unicode_len());
            } else if has_prefix_exec(&t, "Exec=") {
                command = rest_after(&t, "Exec=".unicode_len());
            } else if has_prefix_exec(&t, "Hidden=") && ends_with(t.as_slice(), "true") {
                hidden = true;
            } else if has_prefix_exec(&t, "NoDisplay=") && ends_with(t.as_slice(), "true") {
                hidden = true;
            }
            i = i + 1;
        }
        assert(lines.deep_view().take(lines@.len() as int) =~= lines.deep_view());
        if name.len() > 0 && command.len() > 0 && !hidden {
            let word = first_word_of(command.as_slice());
            Some(
                Session {
                    name: string_from_chars(name.as_slice()),
                    command: string_from_chars(word.as_slice()),
                    child: None,
                    pending: Pending::Idle,
                },
            )
        } else {
            None
        }
    }

    /// The sessions that the given definition files describe, in the
    /// order of the files; none owns a process.
    pub fn available_sessions(files: &Vec<String>) -> (r: Vec<Session>)
        ensures
            r@.len() == sessions_of(files.deep_view()).len(),
            forall|i: int|
                0 <= i < r@.len() ==> {
                    &&& (#[trigger] r@[i]@.name, r@[i]@.command) == sessions_of(files.deep_view())[i]
                    &&& r@[i]@.child is None
                    &&& r@[i]@.pending is Idle
                },
    {
        let mut r: Vec<Session> = Vec::new();
        let mut i: usize = 0;
        assert(files.deep_view().take(0) =~= Seq::<Seq<char>>::empty());
        while i < files.len()
            invariant
                i <= files@.len(),
                r@.len() == sessions_of(files.deep_view().take(i as int)).len(),
                forall|j: int|
                    0 <= j < r@.len() ==> {
                        &&& (#[trigger] r@[j]@.name, r@[j]@.command) == sessions_of(
                            files.deep_view().take(i as int),
                        )[j]
                        &&& r@[j]@.child is None
                        &&& r@[j]@.pending is Idle
                    },
            decreases files@.len() - i,
        {
            let ghost part = files.deep_view().take(i + 1);
            assert(part.drop_last() =~= files.deep_view().take(i as int));
            assert(part.last() == files@[i as int]@);
            match Session::from_desktop_entry(files[i].as_str()) {
                Some(s) => {
                    r.push(s);
                },
                None => {},
            }
            i = i + 1;
        }
        assert(files.deep_view().take(files@.len() as int) =~= files.deep_view());
        r
    }
}


/// A line that hides a session: `Hidden=` or `NoDisplay=`, ending in
/// `true`, once trimmed.
pub open spec fn is_hiding_line(l: Seq<char>) -> bool {
    let t = trim(l);
    (has_prefix(t, "Hidden="@) || has_prefix(t, "NoDisplay="@)) && has_suffix(t, "true"@)
}

proof fn lemma_hidden_stays(ls: Seq<Seq<char>>, l: Seq<char>)
    requires
        desktop_fields(ls).2,
    ensures
        desktop_fields(ls.push(l)).2,
{
    assert(ls.push(l).drop_last() =~= ls);
}

proof fn lemma_hiding_line_hides(ls: Seq<Seq<char>>, j: int)
    requires
        0 <= j < ls.len(),
        is_hiding_line(ls[j]),
    ensures
        desktop_fields(ls).2,
    decreases ls.len(),
{
    if j == ls.len() - 1 {
        let t = trim(ls.last());
        reveal_strlit("Name=");
        reveal_strlit("Exec=");
        reveal_strlit("Hidden=");
        reveal_strlit("NoDisplay=");
        if has_prefix(t, "Hidden="@) {
            assert(t[0] == t.take(7)[0]);
            assert(t[0] == 'H');
            assert(!has_prefix(t, "Name="@)) by {
                if has_prefix(t, "Name="@) {
                    assert(t[0] == t.take(5)[0]);
                }
            }
            assert(!has_prefix(t, "Exec="@)) by {
                if has_prefix(t, "Exec="@) {
                    assert(t[0] == t.take(5)[0]);
                }
            }
        } else {
            assert(t[1] == t.take(10)[1]);
            assert(t[1] == 'o');
            assert(t[0] == t.take(10)[0]);
            assert(!has_prefix(t, "Name="@)) by {
                if has_prefix(t, "Name="@) {
                    assert(t[1] == t.take(5)[1]);
                }
            }
            assert(!has_prefix(t, "Exec="@)) by {
                if has_prefix(t, "Exec="@) {
                    assert(t[0] == t.take(5)[0]);
                }
            }
        }
    } else {
        let init = ls.drop_last();
        assert(init[j] == ls[j]);
        lemma_hiding_line_hides(init, j);
        lemma_hidden_stays(init, ls.last());
        assert(init.push(ls.last()) =~= ls);
    }
}

/// A definition with a `Hidden=true` or `NoDisplay=true` line describes
/// no session, and the command of a session that a definition describes
/// is the first word of its `Exec=` value, with no whitespace left in it.
pub proof fn lemma_session_entry_filters(text: Seq<char>, j: int)
    ensures
        0 <= j < split_lines(text).len() && is_hiding_line(split_lines(text)[j])
            ==> session_entry(text) is None,
        session_entry(text) matches Some(e) ==> {
            &&& e.1 == first_word(desktop_fields(split_lines(text)).1)
            &&& forall|i: int| 0 <= i < e.1.len() ==> !is_space(#[trigger] e.1[i])
        },
{
    if 0 <= j < split_lines(text).len() && is_hiding_line(split_lines(text)[j]) {
        lemma_hiding_line_hides(split_lines(text), j);
    }
    crate::text::lemma_first_word_has_no_space(desktop_fields(split_lines(text)).1);
}

/// Starting a session that owns a process fails with `AlreadyRunning` and
/// leaves the session, and its handle, as they were.
pub proof fn lemma_start_running(s: SessionModel)
    requires
        s.child is Some,
    ensures
        start_model(s) == (s, SessionCommand::Failed((ProcessError::AlreadyRunning))),
{
}

/// Stopping a session that owns no process, as a new one, succeeds and
/// changes nothing.
pub proof fn lemma_stop_never_started(name: Seq<char>, program: Seq<char>)
    ensures
        ({
            let s = SessionModel { name, command: program, child: None, pending: PendingModel::Idle };
            stop_model(s) == (s, SessionCommand::Finished)
        }),
{
}

/// Switching a running session first asks for the termination of the old
/// process; only once its exit is confirmed is the session rebound and a
/// spawn asked for, and after the spawn the new process is the one and
/// only process it owns. If the termination fails, the old process is
/// kept and nothing is rebound.
pub proof fn lemma_switch_running(
    s: SessionModel,
    new_exec: Seq<char>,
    new_name: Seq<char>,
    old_handle: u32,
    new_handle: u32,
)
    requires
        s.child == Some(old_handle),
        s.pending is Idle,
    ensures
        ({
            let (s1, c1) = switch_model(s, new_exec, new_name);
            let (s2, c2) = event_model(s1, ProcessEvent::Exited);
            let (s3, c3) = event_model(s2, ProcessEvent::Spawned(new_handle));
            let (f2, d2) = event_model(s1, ProcessEvent::TerminateFailed);
            &&& c1 == SessionCommand::Terminate(old_handle)
            &&& s1.child == Some(old_handle)
            &&& c2 == SessionCommand::Spawn
            &&& s2.child is None
            &&& s2.command == new_exec && s2.name == new_name
            &&& c3 == SessionCommand::Finished
            &&& s3.child == Some(new_handle)
            &&& s3.pending is Idle
            &&& s3.command == new_exec && s3.name == new_name
            &&& d2 == SessionCommand::Failed((ProcessError::Terminate))
            &&& f2.child == Some(old_handle)
            &&& f2.command == s.command && f2.name == s.name
            &&& f2.pending is Idle
        }),
{
}

} // verus!

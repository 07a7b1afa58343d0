//! The watch session as a state machine, and the manager of the single slot
//! that holds the current session. The machine decides; a driver owns the
//! watcher, the channel, the cancellation flag and the thread.

use crate::paths::{parent_of, path_eq, path_parent, same_path};
use vstd::prelude::*;

verus! {

/// How long the session waits for a filesystem event before it looks at its
/// cancellation flag again, in milliseconds.
pub const POLL_INTERVAL_MS: u64 = 500;

/// How long the session lets a writer finish before it reads the changed
/// file, in milliseconds.
pub const DEBOUNCE_MS: u64 = 100;

/// What arrived on the session's event channel during one bounded wait.
#[derive(Debug)]
pub enum Received {
    /// A filesystem event: the paths it names, and whether it is a modification.
    Changed { paths: Vec<String>, is_modify: bool },
    /// The watcher reported an error in place of an event.
    Faulted,
    /// The wait ran out with nothing to read.
    TimedOut,
    /// The sending side is gone.
    Disconnected,
}

pub enum ReceivedView {
    Changed { paths: Seq<Seq<char>>, is_modify: bool },
    Faulted,
    TimedOut,
    Disconnected,
}

impl View for Received {
    type V = ReceivedView;

    open spec fn view(&self) -> ReceivedView {
        match self {
            Received::Changed { paths, is_modify } => ReceivedView::Changed {
                paths: paths.deep_view(),
                is_modify: *is_modify,
            },
            Received::Faulted => ReceivedView::Faulted,
            Received::TimedOut => ReceivedView::TimedOut,
            Received::Disconnected => ReceivedView::Disconnected,
        }
    }
}

/// What the driver reports back after it has carried out an action.
#[derive(Debug)]
pub enum WatchEvent {
    /// The session's thread has started.
    Begin,
    /// The last action was carried out.
    Succeeded,
    /// The last action could not be carried out.
    Failed,
    /// The cancellation flag as it was read.
    Flag(bool),
    /// The outcome of one bounded wait on the event channel.
    Message(Received),
    /// The watched file's content, or `None` where it could not be read.
    Content(Option<String>),
}

pub enum WatchEventView {
    Begin,
    Succeeded,
    Failed,
    Flag(bool),
    Message(ReceivedView),
    Content(Option<Seq<char>>),
}

impl View for WatchEvent {
    type V = WatchEventView;

    open spec fn view(&self) -> WatchEventView {
        match self {
            WatchEvent::Begin => WatchEventView::Begin,
            WatchEvent::Succeeded => WatchEventView::Succeeded,
            WatchEvent::Failed => WatchEventView::Failed,
            WatchEvent::Flag(stop) => WatchEventView::Flag(*stop),
            WatchEvent::Message(received) => WatchEventView::Message(received@),
            WatchEvent::Content(Some(text)) => WatchEventView::Content(Some(text@)),
            WatchEvent::Content(None) => WatchEventView::Content(None),
        }
    }
}

/// What the driver is to do next.
#[derive(Debug)]
pub enum WatchAction {
    /// Construct the filesystem watcher, with the session's channel as its sink.
    CreateWatcher,
    /// Watch this directory, without its subdirectories.
    WatchDirectory(String),
    /// Read the session's cancellation flag.
    ReadFlag,
    /// Wait for one message on the event channel, this long at most.
    Receive { timeout_ms: u64 },
    /// Sleep this long.
    Sleep { ms: u64 },
    /// Read this file's whole content.
    ReadFile(String),
    /// Send this content to the consumer as a change notification.
    Emit(String),
    /// End the session's thread.
    Exit,
}

pub enum WatchActionView {
    CreateWatcher,
    WatchDirectory(Seq<char>),
    ReadFlag,
    Receive { timeout_ms: u64 },
    Sleep { ms: u64 },
    ReadFile(Seq<char>),
    Emit(Seq<char>),
    Exit,
}

impl View for WatchAction {
    type V = WatchActionView;

    open spec fn view(&self) -> WatchActionView {
        match self {
            WatchAction::CreateWatcher => WatchActionView::CreateWatcher,
            WatchAction::WatchDirectory(dir) => WatchActionView::WatchDirectory(dir@),
            WatchAction::ReadFlag => WatchActionView::ReadFlag,
            WatchAction::Receive { timeout_ms } => WatchActionView::Receive {
                timeout_ms: *timeout_ms,
            },
            WatchAction::Sleep { ms } => WatchActionView::Sleep { ms: *ms },
            WatchAction::ReadFile(path) => WatchActionView::ReadFile(path@),
            WatchAction::Emit(content) => WatchActionView::Emit(content@),
            WatchAction::Exit => WatchActionView::Exit,
        }
    }
}

/// Where a session stands: which report it waits for.
#[derive(Debug, Clone, Copy, PartialEq, Eq, Structural)]
pub enum WatchPhase {
    Created,
    AwaitWatcher,
    AwaitRegistration,
    AwaitFlag,
    AwaitMessage,
    AwaitDebounce,
    AwaitContent,
    AwaitEmit,
    Exited,
}

/// One watch session: the file it observes and where its thread stands.
#[derive(Debug)]
pub struct WatchSession {
    target_path: String,
    phase: WatchPhase,
}

pub struct WatchSessionView {
    pub target_path: Seq<char>,
    pub phase: WatchPhase,
}

impl View for WatchSession {
    type V = WatchSessionView;

    closed spec fn view(&self) -> WatchSessionView {
        WatchSessionView { target_path: self.target_path@, phase: self.phase }
    }
}

/// Whether one of `paths` is the path `target`.
pub open spec fn names_path(paths: Seq<Seq<char>>, target: Seq<char>) -> bool {
    exists|i: int| 0 <= i < paths.len() && same_path(#[trigger] paths[i], target)
}

/// Whether a message is a modification of the watched file.
pub open spec fn touches(received: ReceivedView, target: Seq<char>) -> bool {
    received matches ReceivedView::Changed { paths, is_modify } && is_modify && names_path(
        paths,
        target,
    )
}

/// The session in `phase`, with its target unchanged.
pub open spec fn at(session: WatchSessionView, phase: WatchPhase) -> WatchSessionView {
    WatchSessionView { target_path: session.target_path, phase }
}

/// The transition function of a watch session: the state after `event`, and
/// the action that the driver is to carry out.
///
/// A session first has its watcher made and set on the parent directory of
/// its target; either failing, or a target without a parent, ends it. Then it
/// cycles: it reads its cancellation flag and ends if the flag is set; else it
/// waits for one message, `POLL_INTERVAL_MS` at most. A modification of the
/// target makes it sleep `DEBOUNCE_MS`, read the file and emit the content (a
/// failed read emits nothing); a disconnected channel ends it; anything else
/// leads back to the flag. A report that the session does not wait for ends it.
pub open spec fn watch_step(session: WatchSessionView, event: WatchEventView) -> (
    WatchSessionView,
    WatchActionView,
) {
    let poll = (at(session, WatchPhase::AwaitFlag), WatchActionView::ReadFlag);
    let exit = (at(session, WatchPhase::Exited), WatchActionView::Exit);
    match (session.phase, event) {
        (WatchPhase::Created, WatchEventView::Begin) => (
            at(session, WatchPhase::AwaitWatcher),
            WatchActionView::CreateWatcher,
        ),
        (WatchPhase::AwaitWatcher, WatchEventView::Succeeded) => match parent_of(
            session.target_path,
        ) {
            Some(dir) => (
                at(session, WatchPhase::AwaitRegistration),
                WatchActionView::WatchDirectory(dir),
            ),
            None => exit,
        },
        (WatchPhase::AwaitRegistration, WatchEventView::Succeeded) => poll,
        (WatchPhase::AwaitFlag, WatchEventView::Flag(stop)) => if stop {
            exit
        } else {
            (
                at(session, WatchPhase::AwaitMessage),
                WatchActionView::Receive { timeout_ms: POLL_INTERVAL_MS },
            )
        },
        (WatchPhase::AwaitMessage, WatchEventView::Message(received)) => if touches(
            received,
            session.target_path,
        ) {
            (at(session, WatchPhase::AwaitDebounce), WatchActionView::Sleep { ms: DEBOUNCE_MS })
        } else if received is Disconnected {
            exit
        } else {
            poll
        },
        (WatchPhase::AwaitDebounce, WatchEventView::Succeeded) => (
            at(session, WatchPhase::AwaitContent),
            WatchActionView::ReadFile(session.target_path),
        ),
        (WatchPhase::AwaitContent, WatchEventView::Content(Some(text))) => (
            at(session, WatchPhase::AwaitEmit),
            WatchActionView::Emit(text),
        ),
        (WatchPhase::AwaitContent, WatchEventView::Content(None)) => poll,
        (WatchPhase::AwaitEmit, WatchEventView::Succeeded) => poll,
        (WatchPhase::AwaitEmit, WatchEventView::Failed) => poll,
        _ => exit,
    }
}

/// Whether one of `paths` is the path `target`, by `Path` equality.
pub fn contains_path(paths: &Vec<String>, target: &str) -> (found: bool)
    ensures
        found == names_path(paths.deep_view(), target@),
{
    let mut i: usize = 0;
    while i < paths.len()
        invariant
            i <= paths.len(),
            forall|j: int| 0 <= j < i ==> !same_path(#[trigger] paths.deep_view()[j], target@),
        decreases paths.len() - i,
    {
        assert(paths.deep_view()[i as int] == paths@[i as int]@);
        if path_eq(paths[i].as_str(), target) {
            return true;
        }
        i = i + 1;
    }
    false
}

impl WatchSession {
    /// A session for `target_path` whose thread has not started yet.
    pub fn new(target_path: String) -> (session: WatchSession)
        ensures
            session@ == (WatchSessionView { target_path: target_path@, phase: WatchPhase::Created }),
    {
        WatchSession { target_path, phase: WatchPhase::Created }
    }

    /// The file that the session observes.
    pub fn target_path(&self) -> (path: &String)
        ensures
            path@ == self@.target_path,
    {
        &self.target_path
    }

    /// Where the session stands.
    pub fn phase(&self) -> (phase: WatchPhase)
        ensures
            phase == self@.phase,
    {
        self.phase
    }

    /// Takes the driver's report and says what to do next: `watch_step`.
    pub fn step(&mut self, event: WatchEvent) -> (action: WatchAction)
        ensures
            (final(self)@, action@) == watch_step(old(self)@, event@),
    {
        let (phase, action) = match (self.phase, event) {
            (WatchPhase::Created, WatchEvent::Begin) => (
                WatchPhase::AwaitWatcher,
                WatchAction::CreateWatcher,
            ),
            (WatchPhase::AwaitWatcher, WatchEvent::Succeeded) => match path_parent(
                self.target_path.as_str(),
            ) {
                Some(dir) => (WatchPhase::AwaitRegistration, WatchAction::WatchDirectory(dir)),
                None => (WatchPhase::Exited, WatchAction::Exit),
            },
            (WatchPhase::AwaitRegistration, WatchEvent::Succeeded) => (
                WatchPhase::AwaitFlag,
                WatchAction::ReadFlag,
            ),
            (WatchPhase::AwaitFlag, WatchEvent::Flag(stop)) => if stop {
                (WatchPhase::Exited, WatchAction::Exit)
            } else {
                (WatchPhase::AwaitMessage, WatchAction::Receive { timeout_ms: POLL_INTERVAL_MS })
            },
            (WatchPhase::AwaitMessage, WatchEvent::Message(received)) => match received {
                Received::Changed { paths, is_modify } => {
                    if is_modify && contains_path(&paths, self.target_path.as_str()) {
                        (WatchPhase::AwaitDebounce, WatchAction::Sleep { ms: DEBOUNCE_MS })
                    } else {
                        (WatchPhase::AwaitFlag, WatchAction::ReadFlag)
                    }
                },
                Received::Disconnected => (WatchPhase::Exited, WatchAction::Exit),
                _ => (WatchPhase::AwaitFlag, WatchAction::ReadFlag),
            },
            (WatchPhase::AwaitDebounce, WatchEvent::Succeeded) => (
                WatchPhase::AwaitContent,
                WatchAction::ReadFile(self.target_path.clone()),
            ),
            (WatchPhase::AwaitContent, WatchEvent::Content(Some(text))) => (
                WatchPhase::AwaitEmit,
                WatchAction::Emit(text),
            ),
            (WatchPhase::AwaitContent, WatchEvent::Content(None)) => (
                WatchPhase::AwaitFlag,
                WatchAction::ReadFlag,
            ),
            (WatchPhase::AwaitEmit, WatchEvent::Succeeded) => (
                WatchPhase::AwaitFlag,
                WatchAction::ReadFlag,
            ),
            (WatchPhase::AwaitEmit, WatchEvent::Failed) => (
                WatchPhase::AwaitFlag,
                WatchAction::ReadFlag,
            ),
            _ => (WatchPhase::Exited, WatchAction::Exit),
        };
        self.phase = phase;
        action
    }
}

/// The single slot that holds the current watch session.
///
/// Sessions are counted from 0 in the order in which they start. The manager
/// keeps, as ghost state, how many have started and which of them have been
/// told to stop.
pub struct WatchManager {
    current: Option<String>,
    started: Ghost<nat>,
    cancelled: Ghost<Set<nat>>,
}

pub struct WatchManagerView {
    /// The target of the session in the slot; `None` while idle.
    pub current: Option<Seq<char>>,
    /// How many sessions have started.
    pub started: nat,
    /// The sessions whose cancellation flag has been set.
    pub cancelled: Set<nat>,
}

impl WatchManagerView {
    /// The sessions that have started and have not been told to stop.
    pub open spec fn live(self) -> Set<nat> {
        Set::new(|i: nat| i < self.started && !self.cancelled.contains(i))
    }

    /// Every session but the last one started has been told to stop, and the
    /// slot is filled as soon as one has started.
    pub open spec fn wf(self) -> bool {
        &&& forall|i: nat| self.cancelled.contains(i) <==> i + 1 < self.started
        &&& self.current is Some <==> self.started > 0
    }

    /// The manager after a session for `path` has started: the session that
    /// was current, if any, is told to stop, and the new one takes the slot.
    pub open spec fn start(self, path: Seq<char>) -> WatchManagerView {
        WatchManagerView {
            current: Some(path),
            started: self.started + 1,
            cancelled: if self.started > 0 {
                self.cancelled.insert((self.started - 1) as nat)
            } else {
                self.cancelled
            },
        }
    }
}

impl View for WatchManager {
    type V = WatchManagerView;

    closed spec fn view(&self) -> WatchManagerView {
        WatchManagerView {
            current: crate::text::opt_view(self.current),
            started: self.started@,
            cancelled: self.cancelled@,
        }
    }
}

/// What `start_watch` hands to the driver.
#[derive(Debug)]
pub struct WatchStart {
    /// Whether a session was current: the driver sets that session's
    /// cancellation flag before it installs the new one.
    pub cancel_previous: bool,
    /// The new session, which the driver runs on a thread of its own.
    pub session: WatchSession,
}

impl WatchManager {
    #[verifier::type_invariant]
    spec fn inv(self) -> bool {
        self@.wf()
    }

    /// An idle manager: no session has started.
    pub fn new() -> (manager: WatchManager)
        ensures
            manager@.current is None,
            manager@.started == 0,
            manager@.wf(),
    {
        WatchManager { current: None, started: Ghost(0), cancelled: Ghost(Set::empty()) }
    }

    /// The target of the current session; `None` while idle.
    pub fn current(&self) -> (target: &Option<String>)
        ensures
            crate::text::opt_view(*target) == self@.current,
    {
        &self.current
    }

    /// Replaces the current session by a new one for `path`.
    pub fn start_watch(&mut self, path: String) -> (start: WatchStart)
        ensures
            old(self)@.wf(),
            final(self)@ == old(self)@.start(path@),
            final(self)@.wf(),
            start.cancel_previous == (old(self)@.current is Some),
            start.session@ == (WatchSessionView { target_path: path@, phase: WatchPhase::Created }),
    {
        proof {
            use_type_invariant(&*self);
        }
        let cancel_previous = self.current.is_some();
        let ghost before = self@;
        *self = WatchManager {
            current: Some(path.clone()),
            started: Ghost(before.start(path@).started),
            cancelled: Ghost(before.start(path@).cancelled),
        };
        WatchStart { cancel_previous, session: WatchSession::new(path) }
    }
}

/// After a start, exactly one session is live: the one just started.
pub proof fn lemma_one_live_session(manager: WatchManagerView, path: Seq<char>)
    requires
        manager.wf(),
    ensures
        manager.start(path).wf(),
        manager.start(path).live() == set![manager.started],
        manager.start(path).current == Some(path),
{
}

/// Two starts in succession leave one live session, the second; the first
/// has been told to stop.
pub proof fn lemma_watcher_exclusivity(
    manager: WatchManagerView,
    first: Seq<char>,
    second: Seq<char>,
)
    requires
        manager.wf(),
    ensures
        manager.start(first).start(second).live() == set![(manager.started + 1) as nat],
        manager.start(first).start(second).live().len() == 1,
        manager.start(first).start(second).cancelled.contains(manager.started),
        manager.start(first).start(second).current == Some(second),
{
    lemma_one_live_session(manager, first);
    lemma_one_live_session(manager.start(first), second);
}

/// How many reports a session takes, at most, before it reads its
/// cancellation flag again or ends.
pub open spec fn steps_to_flag(phase: WatchPhase) -> nat {
    match phase {
        WatchPhase::Created => 3,
        WatchPhase::AwaitWatcher => 2,
        WatchPhase::AwaitRegistration => 1,
        WatchPhase::AwaitFlag => 5,
        WatchPhase::AwaitMessage => 4,
        WatchPhase::AwaitDebounce => 3,
        WatchPhase::AwaitContent => 2,
        WatchPhase::AwaitEmit => 1,
        WatchPhase::Exited => 0,
    }
}

/// A session that is told to stop ends: when it reads a set flag it exits,
/// and from anywhere else it reads the flag, or ends, within a bounded
/// number of reports, of which one wait and one sleep at most take time.
pub proof fn lemma_cancellation_is_prompt(session: WatchSessionView, event: WatchEventView)
    ensures
        session.phase == WatchPhase::AwaitFlag && event == WatchEventView::Flag(true)
            ==> watch_step(session, event).1 == WatchActionView::Exit,
        watch_step(session, event).1 == WatchActionView::Exit <==> watch_step(
            session,
            event,
        ).0.phase == WatchPhase::Exited,
        watch_step(session, event).1 == WatchActionView::ReadFlag <==> watch_step(
            session,
            event,
        ).0.phase == WatchPhase::AwaitFlag,
        watch_step(session, event).1 != WatchActionView::ReadFlag ==> steps_to_flag(
            watch_step(session, event).0.phase,
        ) < steps_to_flag(session.phase) || session.phase == WatchPhase::Exited,
        watch_step(session, event).1 matches WatchActionView::Receive { timeout_ms }
            ==> timeout_ms == POLL_INTERVAL_MS,
        watch_step(session, event).1 matches WatchActionView::Sleep { ms } ==> ms == DEBOUNCE_MS,
        watch_step(session, event).0.target_path == session.target_path,
{
}

/// A notification carries the content that was read after a modification of
/// the target: the session sleeps only when such a modification arrives,
/// reads only its target and only after that sleep, emits only what that
/// read gave, and watches only the parent directory of its target.
pub proof fn lemma_notifications_follow_modifications(
    session: WatchSessionView,
    event: WatchEventView,
)
    ensures
        ({
            let (next, action) = watch_step(session, event);
            &&& action matches WatchActionView::Sleep { .. } ==> session.phase
                == WatchPhase::AwaitMessage && (event matches WatchEventView::Message(received)
                && touches(received, session.target_path))
            &&& action matches WatchActionView::ReadFile(path) ==> session.phase
                == WatchPhase::AwaitDebounce && path == session.target_path
            &&& action matches WatchActionView::Emit(content) ==> session.phase
                == WatchPhase::AwaitContent && event == WatchEventView::Content(Some(content))
            &&& action matches WatchActionView::WatchDirectory(dir) ==> parent_of(
                session.target_path,
            ) == Some(dir)
        }),
{
}

} // verus!

//! The debounced watcher: one "changed" signal per burst of native events.
//!
//! Editors commonly raise several modification events for one save. The watcher lets
//! the first one through, for a file with the watched extension, and holds the rest
//! back until the file system reports that a writer has closed the file.
use crate::path::{has_extension, path_has_extension};
use vstd::prelude::*;
use vstd::string::StringExecFns;

verus! {

/// What a file-system event is about, as far as the watcher cares.
#[derive(Clone, Copy, Debug, PartialEq, Eq, Structural)]
pub enum ChangeKind {
    /// The content of a file was modified.
    Modified,
    /// A writer has finished and closed a file.
    AccessClosedAfterWrite,
    /// Anything else: create, rename, delete, metadata, open.
    Other,
}

/// One file-system event: its kind and the paths it names.
#[derive(Debug)]
pub struct ChangeEvent {
    pub kind: ChangeKind,
    pub paths: Vec<String>,
}

/// Mathematical value of a [`ChangeEvent`].
pub ghost struct ChangeEventView {
    pub kind: ChangeKind,
    pub paths: Seq<Seq<char>>,
}

impl View for ChangeEvent {
    type V = ChangeEventView;

    open spec fn view(&self) -> ChangeEventView {
        ChangeEventView { kind: self.kind, paths: self.paths.deep_view() }
    }
}

/// Whether a burst is under way.
#[derive(Clone, Copy, Debug, PartialEq, Eq, Structural)]
pub enum DebounceState {
    /// The next modification of a watched file is let through.
    Idle,
    /// A modification was let through; further ones are held back.
    Pending,
}

/// Whether one of the event's paths has the watched extension.
pub open spec fn concerns(event: ChangeEventView, extension: Seq<char>) -> bool {
    exists|i: int| 0 <= i < event.paths.len() && has_extension(#[trigger] event.paths[i], extension)
}

/// Whether the watcher, in `state`, lets `event` through.
pub open spec fn emits(state: DebounceState, event: ChangeEventView, extension: Seq<char>) -> bool {
    state == DebounceState::Idle && event.kind == ChangeKind::Modified && concerns(event, extension)
}

/// The watcher's state after it has seen `event` in `state`.
pub open spec fn next_state(
    state: DebounceState,
    event: ChangeEventView,
    extension: Seq<char>,
) -> DebounceState {
    match event.kind {
        ChangeKind::Modified => if emits(state, event, extension) {
            DebounceState::Pending
        } else {
            state
        },
        ChangeKind::AccessClosedAfterWrite => DebounceState::Idle,
        ChangeKind::Other => state,
    }
}

/// The watcher's state after it has seen `events`, in order, starting in `state`.
pub open spec fn state_after(
    state: DebounceState,
    events: Seq<ChangeEventView>,
    extension: Seq<char>,
) -> DebounceState
    decreases events.len(),
{
    if events.len() == 0 {
        state
    } else {
        state_after(next_state(state, events[0], extension), events.drop_first(), extension)
    }
}

/// The events that the watcher lets through, in order, of `events` seen from `state`.
pub open spec fn emitted(
    state: DebounceState,
    events: Seq<ChangeEventView>,
    extension: Seq<char>,
) -> Seq<ChangeEventView>
    decreases events.len(),
{
    if events.len() == 0 {
        Seq::empty()
    } else {
        let later = emitted(
            next_state(state, events[0], extension),
            events.drop_first(),
            extension,
        );
        if emits(state, events[0], extension) {
            seq![events[0]] + later
        } else {
            later
        }
    }
}

/// While no writer closes a file, a watcher that is `Pending` stays so and lets
/// nothing through, however many events arrive: in particular none of a burst of
/// modifications.
pub proof fn lemma_pending_holds_back(events: Seq<ChangeEventView>, extension: Seq<char>)
    requires
        forall|i: int|
            0 <= i < events.len() ==> (#[trigger] events[i]).kind
                != ChangeKind::AccessClosedAfterWrite,
    ensures
        emitted(DebounceState::Pending, events, extension) == Seq::<ChangeEventView>::empty(),
        state_after(DebounceState::Pending, events, extension) == DebounceState::Pending,
    decreases events.len(),
{
    if events.len() > 0 {
        lemma_pending_holds_back(events.drop_first(), extension);
    }
}

/// Debounce: whatever its state, the watcher lets at most one event through while
/// no writer closes a file.
pub proof fn lemma_at_most_one_signal(
    state: DebounceState,
    events: Seq<ChangeEventView>,
    extension: Seq<char>,
)
    requires
        forall|i: int|
            0 <= i < events.len() ==> (#[trigger] events[i]).kind
                != ChangeKind::AccessClosedAfterWrite,
    ensures
        emitted(state, events, extension).len() <= 1,
    decreases events.len(),
{
    if events.len() > 0 {
        let rest = events.drop_first();
        if emits(state, events[0], extension) {
            lemma_pending_holds_back(rest, extension);
        } else {
            lemma_at_most_one_signal(state, rest, extension);
        }
    }
}

/// Debounce: of a burst that a modification of a watched file opens, and in which
/// no writer closes a file, exactly one event is let through, the first, and the
/// watcher ends up `Pending`.
pub proof fn lemma_burst_emits_once(events: Seq<ChangeEventView>, extension: Seq<char>)
    requires
        events.len() > 0,
        events[0].kind == ChangeKind::Modified,
        concerns(events[0], extension),
        forall|i: int|
            0 <= i < events.len() ==> (#[trigger] events[i]).kind
                != ChangeKind::AccessClosedAfterWrite,
    ensures
        emitted(DebounceState::Idle, events, extension) == seq![events[0]],
        state_after(DebounceState::Idle, events, extension) == DebounceState::Pending,
{
    lemma_pending_holds_back(events.drop_first(), extension);
}

/// Re-arming: whatever the state, once a writer has closed a file the watcher is
/// `Idle`, and a single modification of a watched file that follows is let through.
pub proof fn lemma_write_close_rearms(
    state: DebounceState,
    close: ChangeEventView,
    modification: ChangeEventView,
    extension: Seq<char>,
)
    requires
        close.kind == ChangeKind::AccessClosedAfterWrite,
        modification.kind == ChangeKind::Modified,
        concerns(modification, extension),
    ensures
        next_state(state, close, extension) == DebounceState::Idle,
        emitted(state, seq![close, modification], extension) == seq![modification],
        state_after(state, seq![close, modification], extension) == DebounceState::Pending,
{
    let both = seq![close, modification];
    assert(both.drop_first() =~= seq![modification]);
    lemma_burst_emits_once(seq![modification], extension);
}

/// What is let through of two runs of events, one after the other, is what is let
/// through of the first, then what is let through of the second from where the first
/// left the watcher.
pub proof fn lemma_emitted_in_sequence(
    state: DebounceState,
    first: Seq<ChangeEventView>,
    second: Seq<ChangeEventView>,
    extension: Seq<char>,
)
    ensures
        state_after(state, first + second, extension) == state_after(
            state_after(state, first, extension),
            second,
            extension,
        ),
        emitted(state, first + second, extension) == emitted(state, first, extension) + emitted(
            state_after(state, first, extension),
            second,
            extension,
        ),
    decreases first.len(),
{
    if first.len() == 0 {
        assert(first + second =~= second);
    } else {
        let next = next_state(state, first[0], extension);
        assert((first + second).drop_first() =~= first.drop_first() + second);
        lemma_emitted_in_sequence(next, first.drop_first(), second, extension);
    }
}

/// The debounced watcher of one watch: its debounce state and the extension it
/// watches for. Each watcher owns its state; nothing else reads or writes it.
#[derive(Debug)]
pub struct WatchHandler {
    state: DebounceState,
    extension: String,
}

/// Mathematical value of a [`WatchHandler`].
pub ghost struct WatchHandlerView {
    pub state: DebounceState,
    pub extension: Seq<char>,
}

impl View for WatchHandler {
    type V = WatchHandlerView;

    closed spec fn view(&self) -> WatchHandlerView {
        WatchHandlerView { state: self.state, extension: self.extension@ }
    }
}

/// Tells whether one of the event's paths has the given extension.
pub fn event_concerns(event: &ChangeEvent, extension: &str) -> (found: bool)
    ensures
        found == concerns(event@, extension@),
{
    let mut i: usize = 0;
    while i < event.paths.len()
        invariant
            i <= event.paths.len(),
            forall|k: int| 0 <= k < i ==> !has_extension(#[trigger] event@.paths[k], extension@),
        decreases event.paths.len() - i,
    {
        if path_has_extension(event.paths[i].as_str(), extension) {
            assert(event@.paths[i as int] == event.paths[i as int]@);
            return true;
        }
        i += 1;
    }
    false
}

impl WatchHandler {
    /// A watcher for files with the given extension, `Idle`.
    pub fn new(extension: &str) -> (watcher: WatchHandler)
        ensures
            watcher@ == (WatchHandlerView { state: DebounceState::Idle, extension: extension@ }),
    {
        WatchHandler { state: DebounceState::Idle, extension: String::from_str(extension) }
    }

    /// The watcher's debounce state.
    pub fn state(&self) -> (state: DebounceState)
        ensures
            state == self@.state,
    {
        self.state
    }

    /// The extension the watcher watches for.
    pub fn extension(&self) -> (extension: &str)
        ensures
            extension@ == self@.extension,
    {
        self.extension.as_str()
    }

    /// Takes one native event. The event is handed back if the watcher lets it
    /// through: it is then the one "changed" signal of its burst.
    pub fn observe(&mut self, event: ChangeEvent) -> (signal: Option<ChangeEvent>)
        ensures
            final(self)@.extension == old(self)@.extension,
            final(self)@.state == next_state(old(self)@.state, event@, old(self)@.extension),
            signal == if emits(old(self)@.state, event@, old(self)@.extension) {
                Some(event)
            } else {
                None
            },
    {
        match event.kind {
            ChangeKind::Modified => {
                if self.state == DebounceState::Idle && event_concerns(
                    &event,
                    self.extension.as_str(),
                ) {
                    self.state = DebounceState::Pending;
                    Some(event)
                } else {
                    None
                }
            },
            ChangeKind::AccessClosedAfterWrite => {
                self.state = DebounceState::Idle;
                None
            },
            ChangeKind::Other => None,
        }
    }
}

} // verus!

//! Events and the control-loop dispatch.
//!
//! Every producer — the terminal input thread, the file watcher and the
//! generation workers — funnels into one stream of `Event` values. The
//! dispatch functions here consume one event, mutate the state accordingly
//! and hand back the one side effect the shell must perform: spawning a
//! generation worker or writing to the clipboard.

use crate::document::ViewDocument;
use crate::state::{
    spec_accept_document, spec_accept_failure, spec_hover_post, spec_next_spinner,
    spec_request_generation, spec_resize, spec_scroll, spec_select_next, spec_select_previous,
    FilterSettings, State,
};
use vstd::prelude::*;

verus! {

/// A key press, reduced to what the dispatch reads.
#[derive(Clone, Copy, Debug, PartialEq, Eq, Structural)]
pub enum Key {
    Char(char),
    Up,
    Down,
    Left,
    Right,
    Enter,
    Esc,
    Other,
}

/// A mouse event kind, reduced to what the dispatch reads.
#[derive(Clone, Copy, Debug, PartialEq, Eq, Structural)]
pub enum MouseKind {
    Moved,
    LeftDown,
    ScrollUp,
    ScrollDown,
    Other,
}

/// One event pulled from the channel by the control loop.
pub enum Event {
    /// A timer tick.
    Tick,
    /// A key press, with whether the control modifier was held.
    Key(Key, bool),
    /// A mouse event at a terminal cell.
    Mouse(MouseKind, u16, u16),
    /// The terminal was resized.
    Resize(u16, u16),
    /// A watched config file changed.
    AutoRegenerate,
    /// A generation worker finished; the epoch tags which request.
    AcceptDocument(u64, ViewDocument),
    /// A generation worker failed; the epoch tags which request.
    AcceptFailure(u64, String),
}

/// One generation request for the shell to hand to a worker: the profile
/// index and epoch that tag the result, the config reference, and the
/// output filters snapshotted at request time.
#[derive(Debug)]
pub struct GenRequest {
    pub index: usize,
    pub epoch: u64,
    pub config: String,
    pub settings: FilterSettings,
}

/// The side effect the shell must perform after one event is dispatched.
#[derive(Debug)]
pub enum Action {
    /// No outside work.
    Nothing,
    /// Spawn a generation worker for this request.
    StartGeneration(GenRequest),
    /// Write this text to the clipboard.
    CopyText(Vec<u8>),
}

/// Whether `a` is the dispatch of the generation request recorded in the
/// post-state `s1`: its tag is the fresh epoch, its config reference is the
/// requested profile's name, and its filters are the post-state's filters.
pub open spec fn action_is_request(a: Action, s1: State) -> bool {
    &&& a matches Action::StartGeneration(g) && {
        &&& g.index == s1.requested_index
        &&& g.epoch == s1.epoch
        &&& g.index < s1.configs@.len()
        &&& g.config@ == s1.configs@[g.index as int].name@
        &&& g.settings == s1.args
    }
}

/// Whether `a` carries the displayed document's raw text to the clipboard.
pub open spec fn action_is_copy(a: Action, s0: State) -> bool {
    &&& a matches Action::CopyText(v) && {
        &&& s0.document matches Option::Some(d) && v@ == d.raw@
    }
}

/// The state after a generation request for the selected profile, if the
/// profile list is non-empty; unchanged otherwise.
pub open spec fn spec_request_selected(s: State) -> State {
    if s.configs@.len() == 0 {
        s
    } else {
        spec_request_generation(s, s.selected_index)
    }
}

/// Whether this key press dispatches a generation request: confirming the
/// selection, or flipping an output filter, while profiles exist.
pub open spec fn key_requests(s: State, key: Key, ctrl: bool) -> bool {
    s.configs@.len() > 0 && match key {
        Key::Enter => true,
        Key::Right => !ctrl,
        Key::Char(c) => (!ctrl && (c == 'l' || c == 'L')) || c == 'u' || c == 'U',
        _ => false,
    }
}

/// Whether this key press copies the document to the clipboard: the copy
/// key without the control modifier, while a clipboard handle exists and a
/// document is displayed.
pub open spec fn key_copies(s: State, key: Key, ctrl: bool) -> bool {
    &&& key matches Key::Char(c) && (c == 'c' || c == 'C')
    &&& !ctrl
    &&& s.clipboard_available
    &&& s.document is Some
}

/// The state after one key press is dispatched.
pub open spec fn spec_handle_key(s: State, key: Key, ctrl: bool) -> State {
    match key {
        Key::Esc => State { is_running: false, ..s },
        Key::Up => spec_select_previous(s),
        Key::Down => spec_select_next(s),
        Key::Left => spec_scroll(s, -1),
        Key::Right => if ctrl {
            spec_scroll(s, 1)
        } else {
            spec_request_selected(
                State { args: FilterSettings { latest: !s.args.latest, ..s.args }, ..s },
            )
        },
        Key::Enter => spec_request_selected(s),
        Key::Char(c) => {
            if c == 'q' {
                State { is_running: false, ..s }
            } else if c == 'c' || c == 'C' {
                if ctrl {
                    State { is_running: false, ..s }
                } else {
                    s
                }
            } else if c == 'k' || c == 'K' {
                spec_select_previous(s)
            } else if c == 'j' || c == 'J' {
                spec_select_next(s)
            } else if c == 'h' || c == 'H' {
                spec_scroll(s, -1)
            } else if c == 'l' || c == 'L' {
                if ctrl {
                    spec_scroll(s, 1)
                } else {
                    spec_request_selected(
                        State { args: FilterSettings { latest: !s.args.latest, ..s.args }, ..s },
                    )
                }
            } else if c == 'a' || c == 'A' {
                State { autoload: !s.autoload, ..s }
            } else if c == 't' || c == 'T' {
                State { is_toggled: !s.is_toggled, ..s }
            } else if c == 'u' || c == 'U' {
                spec_request_selected(
                    State {
                        args: FilterSettings { unreleased: !s.args.unreleased, ..s.args },
                        ..s
                    },
                )
            } else {
                s
            }
        },
        Key::Other => s,
    }
}

/// What one key press does: the post-state follows the dispatch table, a
/// generation request is handed out exactly for the request keys, the copy
/// action exactly for the copy key, and nothing otherwise.
pub open spec fn key_post(s0: State, s1: State, a: Action, key: Key, ctrl: bool) -> bool {
    &&& s1 == spec_handle_key(s0, key, ctrl)
    &&& (key_requests(s0, key, ctrl) ==> action_is_request(a, s1))
    &&& (key_copies(s0, key, ctrl) ==> action_is_copy(a, s0))
    &&& (!key_requests(s0, key, ctrl) && !key_copies(s0, key, ctrl) ==> a is Nothing)
}

/// What one mouse event does: a move re-tests hover, a left click selects
/// the first hovered profile and requests generation for it, the wheel
/// scrolls by one row.
pub open spec fn mouse_post(
    s0: State,
    s1: State,
    a: Action,
    kind: MouseKind,
    column: u16,
    row: u16,
) -> bool {
    match kind {
        MouseKind::Moved => spec_hover_post(s0, s1, column, row) && a is Nothing,
        MouseKind::LeftDown => {
            &&& ((forall|k: int|
                0 <= k < s0.configs@.len() ==> !(#[trigger] s0.configs@[k]).is_hovered) ==> (s1
                == s0 && a is Nothing))
            &&& (forall|i: int|
                (0 <= i < s0.configs@.len() && (#[trigger] s0.configs@[i]).is_hovered && (
                forall|k: int| 0 <= k < i ==> !(#[trigger] s0.configs@[k]).is_hovered)) ==> (s1
                    == spec_request_generation(
                    State { selected_index: i as usize, ..s0 },
                    i as usize,
                ) && action_is_request(a, s1)))
        },
        MouseKind::ScrollUp => s1 == spec_scroll(s0, -1) && a is Nothing,
        MouseKind::ScrollDown => s1 == spec_scroll(s0, 1) && a is Nothing,
        MouseKind::Other => s1 == s0 && a is Nothing,
    }
}

/// Dispatches a generation request for profile `index` and builds the
/// worker order that goes with it.
fn dispatch_request(state: &mut State, index: usize) -> (a: Action)
    requires
        old(state).wf(),
        index < old(state).configs@.len(),
        old(state).epoch < u64::MAX,
    ensures
        *final(state) == spec_request_generation(*old(state), index),
        final(state).wf(),
        action_is_request(a, *final(state)),
{
    let epoch = state.request_generation(index);
    let config = state.configs[index].name.clone();
    Action::StartGeneration(GenRequest { index, epoch, config, settings: state.args })
}

/// Dispatches a generation request for the selected profile, or does
/// nothing while the profile list is empty.
fn request_selected(state: &mut State) -> (a: Action)
    requires
        old(state).wf(),
        old(state).epoch < u64::MAX,
    ensures
        *final(state) == spec_request_selected(*old(state)),
        final(state).wf(),
        old(state).configs@.len() > 0 ==> action_is_request(a, *final(state)),
        old(state).configs@.len() == 0 ==> a is Nothing,
{
    if state.configs.len() == 0 {
        Action::Nothing
    } else {
        let index = state.selected_index;
        dispatch_request(state, index)
    }
}

/// Handles one key press: updates the state as the key binding says and
/// returns the side effect to perform.
pub fn handle_key_events(key: Key, ctrl: bool, state: &mut State) -> (a: Action)
    requires
        old(state).wf(),
        old(state).epoch < u64::MAX,
    ensures
        key_post(*old(state), *final(state), a, key, ctrl),
        final(state).wf(),
{
    match key {
        Key::Esc => {
            state.quit();
            Action::Nothing
        },
        Key::Up => {
            state.select_previous();
            Action::Nothing
        },
        Key::Down => {
            state.select_next();
            Action::Nothing
        },
        Key::Left => {
            state.scroll(-1);
            Action::Nothing
        },
        Key::Right => {
            if ctrl {
                state.scroll(1);
                Action::Nothing
            } else {
                state.toggle_latest();
                request_selected(state)
            }
        },
        Key::Enter => request_selected(state),
        Key::Char(c) => {
            if c == 'q' {
                state.quit();
                Action::Nothing
            } else if c == 'c' || c == 'C' {
                if ctrl {
                    state.quit();
                    Action::Nothing
                } else {
                    match state.copy_to_clipboard() {
                        Option::Some(text) => Action::CopyText(text),
                        Option::None => Action::Nothing,
                    }
                }
            } else if c == 'k' || c == 'K' {
                state.select_previous();
                Action::Nothing
            } else if c == 'j' || c == 'J' {
                state.select_next();
                Action::Nothing
            } else if c == 'h' || c == 'H' {
                state.scroll(-1);
                Action::Nothing
            } else if c == 'l' || c == 'L' {
                if ctrl {
                    state.scroll(1);
                    Action::Nothing
                } else {
                    state.toggle_latest();
                    request_selected(state)
                }
            } else if c == 'a' || c == 'A' {
                state.toggle_autoload();
                Action::Nothing
            } else if c == 't' || c == 'T' {
                state.toggle_sidebar();
                Action::Nothing
            } else if c == 'u' || c == 'U' {
                state.toggle_unreleased();
                request_selected(state)
            } else {
                Action::Nothing
            }
        },
        Key::Other => Action::Nothing,
    }
}

/// Handles one mouse event: updates the state as the dispatch table says
/// and returns the side effect to perform.
pub fn handle_mouse_events(kind: MouseKind, column: u16, row: u16, state: &mut State) -> (a:
    Action)
    requires
        old(state).wf(),
        old(state).epoch < u64::MAX,
    ensures
        mouse_post(*old(state), *final(state), a, kind, column, row),
        final(state).wf(),
{
    match kind {
        MouseKind::Moved => {
            state.hover_test(column, row);
            Action::Nothing
        },
        MouseKind::LeftDown => {
            match state.first_hovered() {
                Option::Some(i) => {
                    state.selected_index = i;
                    dispatch_request(state, i)
                },
                Option::None => Action::Nothing,
            }
        },
        MouseKind::ScrollUp => {
            state.scroll(-1);
            Action::Nothing
        },
        MouseKind::ScrollDown => {
            state.scroll(1);
            Action::Nothing
        },
        MouseKind::Other => Action::Nothing,
    }
}

/// Pulls one event through the state machine: mutates the state as the
/// dispatch table of the control loop says and returns the one side effect
/// the shell must perform.
pub fn handle_event(event: Event, state: &mut State) -> (a: Action)
    requires
        old(state).wf(),
        old(state).epoch < u64::MAX,
        event matches Event::AcceptDocument(e, doc) ==> doc.wf(),
    ensures
        final(state).wf(),
        event matches Event::Tick ==> (*final(state) == (State {
            spinner_step: spec_next_spinner(*old(state)),
            ..*old(state)
        }) && a is Nothing),
        event matches Event::Key(key, ctrl) ==> key_post(
            *old(state),
            *final(state),
            a,
            key,
            ctrl,
        ),
        event matches Event::Mouse(kind, column, row) ==> mouse_post(
            *old(state),
            *final(state),
            a,
            kind,
            column,
            row,
        ),
        event matches Event::Resize(w, h) ==> (*final(state) == spec_resize(*old(state), w, h)
            && a is Nothing),
        event is AutoRegenerate ==> {
            &&& (old(state).autoload && old(state).configs@.len() > 0) ==> (*final(state)
                == spec_request_generation(*old(state), old(state).viewport.displayed_index)
                && action_is_request(a, *final(state)))
            &&& !(old(state).autoload && old(state).configs@.len() > 0) ==> (*final(state) == *old(
                state,
            ) && a is Nothing)
        },
        event matches Event::AcceptDocument(e, doc) ==> (*final(state) == spec_accept_document(
            *old(state),
            e,
            doc,
        ) && a is Nothing),
        event matches Event::AcceptFailure(e, message) ==> (*final(state) == spec_accept_failure(
            *old(state),
            e,
            message,
        ) && a is Nothing),
{
    match event {
        Event::Tick => {
            state.tick();
            Action::Nothing
        },
        Event::Key(key, ctrl) => handle_key_events(key, ctrl, state),
        Event::Mouse(kind, column, row) => handle_mouse_events(kind, column, row, state),
        Event::Resize(w, h) => {
            state.resize(w, h);
            Action::Nothing
        },
        Event::AutoRegenerate => {
            if state.autoload && state.configs.len() > 0 {
                let index = state.viewport.displayed_index;
                dispatch_request(state, index)
            } else {
                Action::Nothing
            }
        },
        Event::AcceptDocument(e, doc) => {
            state.accept_document(e, doc);
            Action::Nothing
        },
        Event::AcceptFailure(e, message) => {
            state.accept_failure(e, message);
            Action::Nothing
        },
    }
}

/// Turns the outcome of one engine invocation into the event the worker
/// enqueues: a parsed document on success, the failure message otherwise. A
/// generated text whose laid-out height does not fit a `usize` is reported
/// as a failure rather than a document.
pub fn process_outcome(epoch: u64, outcome: Result<Vec<u8>, String>) -> (ev: Event)
    ensures
        ev matches Event::AcceptDocument(e, d) ==> {
            &&& e == epoch
            &&& d.wf()
            &&& outcome matches Ok(raw) && d.raw@ == raw@
            &&& crate::document::contents_of(d.blocks@) == crate::document::spec_block_texts(
                d.raw@,
            )
            &&& forall|i: int|
                0 <= i < d.blocks@.len() ==> (#[trigger] d.blocks@[i]).height as nat
                    == crate::document::rendered_height_of(d.blocks@[i].content@)
        },
        ev matches Event::AcceptFailure(e, m) ==> {
            &&& e == epoch
            &&& (outcome matches Err(message) ==> m == message)
            &&& (outcome is Ok ==> m@ == "generated changelog is too large to lay out"@)
        },
        outcome matches Ok(raw) && crate::document::spec_total_height(
            crate::document::spec_block_texts(raw@),
        ) <= usize::MAX ==> ev is AcceptDocument,
        outcome matches Err(message) ==> ev is AcceptFailure,
        ev is AcceptDocument || ev is AcceptFailure,
{
    match outcome {
        Result::Ok(raw) => {
            match crate::document::build_document(raw) {
                Option::Some(doc) => Event::AcceptDocument(epoch, doc),
                Option::None => Event::AcceptFailure(
                    epoch,
                    "generated changelog is too large to lay out".to_owned(),
                ),
            }
        },
        Result::Err(message) => Event::AcceptFailure(epoch, message),
    }
}

} // verus!


//! The application state and its transitions.
//!
//! One `State` value aggregates everything the dashboard shows: the config
//! profiles, the current selection and hover marks, the generation status
//! with its request epoch, the current document and the viewport. Every
//! mutator keeps the state well formed: the selection stays inside the
//! profile list and the scroll offset stays inside the document.

use crate::document::{spec_max_scroll, ViewDocument};
use crate::geometry::{spec_contains, Rect};
use vstd::prelude::*;

verus! {

/// One selectable changelog configuration: its name, the on-screen
/// rectangle it occupied at the last render pass (for mouse hit-testing),
/// and whether the mouse currently hovers over it.
pub struct ConfigProfile {
    pub name: String,
    pub area: Rect,
    pub is_hovered: bool,
}

/// Where the generation pipeline stands: nothing in flight, a request being
/// worked on, or the message of the most recent failure.
#[derive(Debug, PartialEq)]
pub enum GenerationStatus {
    Idle,
    InFlight,
    Failed(String),
}

/// The output filters a generation request is made with; copied into the
/// request when it is dispatched, so later toggles cannot change a request
/// already in flight.
#[derive(Clone, Copy, Debug, PartialEq, Eq, Structural)]
pub struct FilterSettings {
    pub unreleased: bool,
    pub latest: bool,
}

/// The scroll position and the visible rectangle of the document pane,
/// together with the index of the profile whose document is displayed.
#[derive(Clone, Copy, Debug, PartialEq, Eq, Structural)]
pub struct ViewportState {
    pub scroll_index: usize,
    pub width: u16,
    pub height: u16,
    pub displayed_index: usize,
}

/// The whole mutable model of the dashboard. Only the control loop mutates
/// it, one event at a time.
pub struct State {
    /// The selectable changelog configurations.
    pub configs: Vec<ConfigProfile>,
    /// The index the selection highlight is on.
    pub selected_index: usize,
    /// Scroll offset, pane rectangle and displayed profile.
    pub viewport: ViewportState,
    /// Where the generation pipeline stands.
    pub status: GenerationStatus,
    /// The most recently accepted document, if any.
    pub document: Option<ViewDocument>,
    /// The monotonically increasing token of the newest generation request;
    /// results tagged with an older token are discarded.
    pub epoch: u64,
    /// The profile index the newest generation request was made for.
    pub requested_index: usize,
    /// The output filters the next request will carry.
    pub args: FilterSettings,
    /// The message of the most recent failure, until a document is accepted.
    pub last_error: Option<String>,
    /// Regenerate automatically when a watched config file changes.
    pub autoload: bool,
    /// Whether the config sidebar is shown.
    pub is_toggled: bool,
    /// Whether a clipboard handle could be set up at startup.
    pub clipboard_available: bool,
    /// The control loop runs until this is cleared.
    pub is_running: bool,
    /// The spinner animation step, advanced on every tick while a request
    /// is in flight.
    pub spinner_step: u8,
}

impl State {
    /// The height of the displayed document, or zero while there is none.
    pub open spec fn doc_total(self) -> nat {
        match self.document {
            Option::Some(d) => d.total_height as nat,
            Option::None => 0,
        }
    }

    /// Well-formedness: every profile index is inside the list (and zero
    /// while the list is empty), the scroll offset never points past the
    /// scrollable range, and the document is itself well formed.
    pub open spec fn wf(self) -> bool {
        &&& self.configs@.len() > 0 ==> self.selected_index < self.configs@.len()
        &&& self.configs@.len() == 0 ==> self.selected_index == 0
        &&& self.configs@.len() > 0 ==> self.requested_index < self.configs@.len()
        &&& self.configs@.len() == 0 ==> self.requested_index == 0
        &&& self.configs@.len() > 0 ==> self.viewport.displayed_index < self.configs@.len()
        &&& self.configs@.len() == 0 ==> self.viewport.displayed_index == 0
        &&& self.viewport.scroll_index as nat <= spec_max_scroll(
            self.doc_total(),
            self.viewport.height as nat,
        )
        &&& (self.document matches Option::Some(d) ==> d.wf())
    }

    /// Constructs the startup state: one profile per config name, nothing
    /// selected but the first entry, no document, no request yet.
    pub fn new(names: Vec<String>, clipboard_available: bool) -> (s: State)
        ensures
            s.wf(),
            s.configs@.len() == names@.len(),
            forall|i: int|
                0 <= i < names@.len() ==> (#[trigger] s.configs@[i]) == (ConfigProfile {
                    name: names@[i],
                    area: Rect { x: 0, y: 0, width: 0, height: 0 },
                    is_hovered: false,
                }),
            s.selected_index == 0,
            s.viewport == (ViewportState {
                scroll_index: 0,
                width: 0,
                height: 0,
                displayed_index: 0,
            }),
            s.status is Idle,
            s.document is None,
            s.epoch == 0,
            s.requested_index == 0,
            s.args == (FilterSettings { unreleased: false, latest: false }),
            s.last_error is None,
            s.autoload,
            s.is_toggled,
            s.clipboard_available == clipboard_available,
            s.is_running,
            s.spinner_step == 0,
    {
        let mut configs: Vec<ConfigProfile> = Vec::new();
        let mut i: usize = 0;
        while i < names.len()
            invariant
                i <= names.len(),
                configs@.len() == i,
                forall|k: int|
                    0 <= k < i as int ==> (#[trigger] configs@[k]) == (ConfigProfile {
                        name: names@[k],
                        area: Rect { x: 0, y: 0, width: 0, height: 0 },
                        is_hovered: false,
                    }),
            decreases names.len() - i,
        {
            let name = names[i].clone();
            configs.push(ConfigProfile { name, area: Rect::zero(), is_hovered: false });
            i = i + 1;
        }
        State {
            configs,
            selected_index: 0,
            viewport: ViewportState { scroll_index: 0, width: 0, height: 0, displayed_index: 0 },
            status: GenerationStatus::Idle,
            document: Option::None,
            epoch: 0,
            requested_index: 0,
            args: FilterSettings { unreleased: false, latest: false },
            last_error: Option::None,
            autoload: true,
            is_toggled: true,
            clipboard_available,
            is_running: true,
            spinner_step: 0,
        }
    }

    /// Clears the running flag; the control loop exits after this event.
    pub fn quit(&mut self)
        ensures
            *final(self) == (State { is_running: false, ..*old(self) }),
    {
        self.is_running = false;
    }

    /// Flips automatic regeneration on file changes.
    pub fn toggle_autoload(&mut self)
        ensures
            *final(self) == (State { autoload: !old(self).autoload, ..*old(self) }),
    {
        self.autoload = !self.autoload;
    }

    /// Flips the sidebar visibility.
    pub fn toggle_sidebar(&mut self)
        ensures
            *final(self) == (State { is_toggled: !old(self).is_toggled, ..*old(self) }),
    {
        self.is_toggled = !self.is_toggled;
    }

    /// Flips the "unreleased commits only" output filter.
    pub fn toggle_unreleased(&mut self)
        ensures
            *final(self) == (State {
                args: FilterSettings { unreleased: !old(self).args.unreleased, ..old(self).args },
                ..*old(self)
            }),
    {
        self.args.unreleased = !self.args.unreleased;
    }

    /// Flips the "latest release only" output filter.
    pub fn toggle_latest(&mut self)
        ensures
            *final(self) == (State {
                args: FilterSettings { latest: !old(self).args.latest, ..old(self).args },
                ..*old(self)
            }),
    {
        self.args.latest = !self.args.latest;
    }

    /// Advances the spinner animation, but only while a request is in
    /// flight.
    pub fn tick(&mut self)
        ensures
            *final(self) == (State { spinner_step: spec_next_spinner(*old(self)), ..*old(self) }),
    {
        if let GenerationStatus::InFlight = &self.status {
            self.spinner_step = self.spinner_step.wrapping_add(1);
        }
    }
}

/// The spinner step after one tick: one further while a request is in
/// flight, unchanged otherwise.
pub open spec fn spec_next_spinner(s: State) -> u8 {
    if s.status is InFlight {
        ((s.spinner_step + 1) % 256) as u8
    } else {
        s.spinner_step
    }
}

/// The state after moving the selection highlight one entry down, wrapping
/// from the last entry to the first; a no-op on an empty list.
pub open spec fn spec_select_next(s: State) -> State {
    if s.configs@.len() == 0 {
        s
    } else {
        State {
            selected_index: if s.selected_index + 1 >= s.configs@.len() {
                0
            } else {
                (s.selected_index + 1) as usize
            },
            ..s
        }
    }
}

/// The state after moving the selection highlight one entry up, wrapping
/// from the first entry to the last; a no-op on an empty list.
pub open spec fn spec_select_previous(s: State) -> State {
    if s.configs@.len() == 0 {
        s
    } else {
        State {
            selected_index: if s.selected_index == 0 {
                (s.configs@.len() - 1) as usize
            } else {
                (s.selected_index - 1) as usize
            },
            ..s
        }
    }
}

impl State {
    /// Moves the selection highlight one entry down, wrapping around.
    pub fn select_next(&mut self)
        requires
            old(self).wf(),
        ensures
            *final(self) == spec_select_next(*old(self)),
            final(self).wf(),
    {
        if self.configs.len() > 0 {
            self.selected_index = if self.selected_index >= self.configs.len() - 1 {
                0
            } else {
                self.selected_index + 1
            };
        }
    }

    /// Moves the selection highlight one entry up, wrapping around.
    pub fn select_previous(&mut self)
        requires
            old(self).wf(),
        ensures
            *final(self) == spec_select_previous(*old(self)),
            final(self).wf(),
    {
        if self.configs.len() > 0 {
            self.selected_index = if self.selected_index == 0 {
                self.configs.len() - 1
            } else {
                self.selected_index - 1
            };
        }
    }
}

/// The state after a generation request for profile `index` is dispatched:
/// a fresh, strictly greater epoch tags the request, the requested index is
/// recorded, and the pipeline is marked in flight.
pub open spec fn spec_request_generation(s: State, index: usize) -> State {
    State {
        epoch: (s.epoch + 1) as u64,
        requested_index: index,
        status: GenerationStatus::InFlight,
        ..s
    }
}

/// The state after a generation result for epoch `e` arrives: only a result
/// tagged with the current epoch replaces the document, resets the scroll
/// and marks the pipeline idle; a stale result changes nothing.
pub open spec fn spec_accept_document(s: State, e: u64, doc: ViewDocument) -> State {
    if e == s.epoch {
        State {
            document: Option::Some(doc),
            status: GenerationStatus::Idle,
            last_error: Option::None,
            viewport: ViewportState {
                scroll_index: 0,
                displayed_index: s.requested_index,
                ..s.viewport
            },
            ..s
        }
    } else {
        s
    }
}

/// The state after a generation failure for epoch `e` arrives: only a
/// failure tagged with the current epoch records the message; a stale
/// failure changes nothing. The previous document stays.
pub open spec fn spec_accept_failure(s: State, e: u64, message: String) -> State {
    if e == s.epoch {
        State {
            status: GenerationStatus::Failed(message),
            last_error: Option::Some(message),
            ..s
        }
    } else {
        s
    }
}

/// The scroll offset after moving by `delta`, clamped to the scrollable
/// range of the current document and viewport.
pub open spec fn spec_scrolled_offset(s: State, delta: int) -> nat {
    let maxs = spec_max_scroll(s.doc_total(), s.viewport.height as nat);
    let target = s.viewport.scroll_index + delta;
    if target < 0 {
        0
    } else if target > maxs {
        maxs
    } else {
        target as nat
    }
}

/// The state after scrolling by `delta` rows.
pub open spec fn spec_scroll(s: State, delta: int) -> State {
    State {
        viewport: ViewportState {
            scroll_index: spec_scrolled_offset(s, delta) as usize,
            ..s.viewport
        },
        ..s
    }
}

/// The state after the terminal is resized: the pane rectangle is updated
/// and the scroll offset is clamped to the new scrollable range.
pub open spec fn spec_resize(s: State, width: u16, height: u16) -> State {
    let maxs = spec_max_scroll(s.doc_total(), height as nat);
    State {
        viewport: ViewportState {
            scroll_index: if s.viewport.scroll_index as nat > maxs {
                maxs as usize
            } else {
                s.viewport.scroll_index
            },
            width,
            height,
            displayed_index: s.viewport.displayed_index,
        },
        ..s
    }
}

impl State {
    /// Dispatches a generation request for profile `index`: tags it with a
    /// fresh epoch and returns that epoch, so the result can later be
    /// recognized as current or stale.
    pub fn request_generation(&mut self, index: usize) -> (e: u64)
        requires
            old(self).wf(),
            index < old(self).configs@.len(),
            old(self).epoch < u64::MAX,
        ensures
            *final(self) == spec_request_generation(*old(self), index),
            e == final(self).epoch,
            final(self).wf(),
    {
        self.epoch = self.epoch + 1;
        self.requested_index = index;
        self.status = GenerationStatus::InFlight;
        self.epoch
    }

    /// Accepts a generated document if its epoch is still current,
    /// replacing the displayed document and resetting the scroll; discards
    /// it silently otherwise.
    pub fn accept_document(&mut self, e: u64, doc: ViewDocument)
        requires
            old(self).wf(),
            doc.wf(),
        ensures
            *final(self) == spec_accept_document(*old(self), e, doc),
            final(self).wf(),
    {
        if e == self.epoch {
            self.document = Option::Some(doc);
            self.status = GenerationStatus::Idle;
            self.last_error = Option::None;
            self.viewport.scroll_index = 0;
            self.viewport.displayed_index = self.requested_index;
        }
    }

    /// Records a generation failure if its epoch is still current; discards
    /// it silently otherwise.
    pub fn accept_failure(&mut self, e: u64, message: String)
        requires
            old(self).wf(),
        ensures
            *final(self) == spec_accept_failure(*old(self), e, message),
            final(self).wf(),
    {
        if e == self.epoch {
            self.last_error = Option::Some(message.clone());
            self.status = GenerationStatus::Failed(message);
        }
    }

    /// Scrolls the document pane by `delta` rows, clamped to the scrollable
    /// range.
    pub fn scroll(&mut self, delta: i32)
        requires
            old(self).wf(),
        ensures
            *final(self) == spec_scroll(*old(self), delta as int),
            final(self).wf(),
    {
        let maxs = crate::document::max_scroll(
            match &self.document {
                Option::Some(d) => d.total_height,
                Option::None => 0,
            },
            self.viewport.height,
        );
        let cur = self.viewport.scroll_index;
        let moved = if delta >= 0 {
            cur.saturating_add(delta as usize)
        } else if delta == i32::MIN {
            cur.saturating_sub(2147483648)
        } else {
            cur.saturating_sub((-delta) as usize)
        };
        self.viewport.scroll_index = if moved > maxs {
            maxs
        } else {
            moved
        };
    }

    /// Updates the pane rectangle after a terminal resize and re-clamps the
    /// scroll offset.
    pub fn resize(&mut self, width: u16, height: u16)
        requires
            old(self).wf(),
        ensures
            *final(self) == spec_resize(*old(self), width, height),
            final(self).wf(),
    {
        let maxs = crate::document::max_scroll(
            match &self.document {
                Option::Some(d) => d.total_height,
                Option::None => 0,
            },
            height,
        );
        self.viewport.width = width;
        self.viewport.height = height;
        if self.viewport.scroll_index > maxs {
            self.viewport.scroll_index = maxs;
        }
    }

    /// Marks exactly the profiles whose cached rectangle contains the given
    /// cell as hovered, and clears the mark on every other profile.
    pub fn hover_test(&mut self, column: u16, row: u16)
        requires
            old(self).wf(),
        ensures
            spec_hover_post(*old(self), *final(self), column, row),
            final(self).wf(),
    {
        let mut updated: Vec<ConfigProfile> = Vec::new();
        let mut i: usize = 0;
        while i < self.configs.len()
            invariant
                *self == *old(self),
                i <= self.configs@.len(),
                updated@.len() == i,
                forall|k: int|
                    0 <= k < i as int ==> (#[trigger] updated@[k]) == (ConfigProfile {
                        is_hovered: spec_contains(old(self).configs@[k].area, column, row),
                        ..old(self).configs@[k]
                    }),
            decreases self.configs@.len() - i,
        {
            let hovered = self.configs[i].area.contains(column, row);
            let name = self.configs[i].name.clone();
            let area = self.configs[i].area;
            updated.push(ConfigProfile { name, area, is_hovered: hovered });
            i = i + 1;
        }
        self.configs = updated;
    }

    /// The first hovered profile, if any: what a left click selects.
    pub fn first_hovered(&self) -> (res: Option<usize>)
        ensures
            res matches Some(i) ==> i < self.configs@.len() && self.configs@[i as int].is_hovered
                && forall|k: int| 0 <= k < i as int ==> !(#[trigger] self.configs@[k]).is_hovered,
            res is None ==> forall|k: int|
                0 <= k < self.configs@.len() ==> !(#[trigger] self.configs@[k]).is_hovered,
    {
        let mut i: usize = 0;
        while i < self.configs.len()
            invariant
                i <= self.configs@.len(),
                forall|k: int| 0 <= k < i as int ==> !(#[trigger] self.configs@[k]).is_hovered,
            decreases self.configs@.len() - i,
        {
            if self.configs[i].is_hovered {
                return Option::Some(i);
            }
            i = i + 1;
        }
        Option::None
    }

    /// The raw text to place on the clipboard: present exactly when a
    /// clipboard handle exists and a document is displayed.
    pub fn copy_to_clipboard(&self) -> (res: Option<Vec<u8>>)
        ensures
            (res is Some) == (self.clipboard_available && self.document is Some),
            res matches Some(v) ==> (self.document matches Some(d) && v@ == d.raw@),
    {
        if self.clipboard_available {
            match &self.document {
                Option::Some(d) => Option::Some(vstd::slice::slice_to_vec(d.raw.as_slice())),
                Option::None => Option::None,
            }
        } else {
            Option::None
        }
    }
}

/// Hover exclusivity, as a relation between the states before and after a
/// hover test at a given cell: exactly the profiles whose cached rectangle
/// contains the cell are hovered afterwards, every other profile is not,
/// and nothing else about the state changes.
pub open spec fn spec_hover_post(s0: State, s1: State, column: u16, row: u16) -> bool {
    &&& s1.configs@.len() == s0.configs@.len()
    &&& forall|i: int|
        0 <= i < s0.configs@.len() ==> (#[trigger] s1.configs@[i]) == (ConfigProfile {
            is_hovered: spec_contains(s0.configs@[i].area, column, row),
            ..s0.configs@[i]
        })
    &&& s1 == (State { configs: s1.configs, ..s0 })
}

/// Stale results are discarded: accepting a document or a failure whose
/// epoch differs from the state's current epoch is a no-op.
pub proof fn lemma_stale_result_discarded(s: State, e: u64, doc: ViewDocument, message: String)
    requires
        e != s.epoch,
    ensures
        spec_accept_document(s, e, doc) == s,
        spec_accept_failure(s, e, message) == s,
{
}

/// Request epochs grow strictly, so a request supersedes every earlier one:
/// after a second request, a result tagged with the first request's epoch
/// is discarded and the state keeps the document it had.
pub proof fn lemma_epoch_monotonic(s: State, i: usize, j: usize, doc: ViewDocument)
    requires
        s.epoch + 2 <= u64::MAX,
    ensures
        ({
            let s1 = spec_request_generation(s, i);
            let s2 = spec_request_generation(s1, j);
            &&& s.epoch < s1.epoch < s2.epoch
            &&& spec_accept_document(s2, s1.epoch, doc) == s2
            &&& spec_accept_document(s2, s1.epoch, doc).document == s2.document
        }),
{
}

/// The state after a whole sequence of scroll movements, applied first to
/// last.
pub open spec fn spec_apply_scrolls(s: State, deltas: Seq<int>) -> State
    decreases deltas.len(),
{
    if deltas.len() == 0 {
        s
    } else {
        spec_apply_scrolls(spec_scroll(s, deltas.first()), deltas.drop_first())
    }
}

/// Scrolling never escapes the scrollable range: after any sequence of
/// scroll movements from a well-formed state, the offset stays between zero
/// and the document height minus the viewport height (or zero when the
/// document fits).
pub proof fn lemma_scroll_clamp(s: State, deltas: Seq<int>)
    requires
        s.wf(),
    ensures
        ({
            let r = spec_apply_scrolls(s, deltas);
            &&& r.wf()
            &&& r.document == s.document
            &&& r.viewport.height == s.viewport.height
            &&& r.viewport.scroll_index as nat <= spec_max_scroll(
                s.doc_total(),
                s.viewport.height as nat,
            )
        }),
    decreases deltas.len(),
{
    if deltas.len() > 0 {
        lemma_scroll_clamp(spec_scroll(s, deltas.first()), deltas.drop_first());
    }
}

/// The state after `n` single steps of the selection highlight, each moving
/// one entry down with wraparound.
pub open spec fn spec_iterate_select_next(s: State, n: nat) -> State
    decreases n,
{
    if n == 0 {
        s
    } else {
        spec_iterate_select_next(spec_select_next(s), (n - 1) as nat)
    }
}

/// After `n` selection steps the highlight stands `n` entries further,
/// modulo the number of profiles; nothing else changes.
pub proof fn lemma_select_next_steps(s: State, n: nat)
    requires
        s.wf(),
        s.configs@.len() > 0,
    ensures
        spec_iterate_select_next(s, n) == (State {
            selected_index: ((s.selected_index + n) % (s.configs@.len() as int)) as usize,
            ..s
        }),
    decreases n,
{
    let len = s.configs@.len() as int;
    assert(s.configs@.len() <= usize::MAX) by {
        assert(vstd::std_specs::vec::spec_vec_len(&s.configs) == s.configs@.len());
    }
    if n == 0 {
        vstd::arithmetic::div_mod::lemma_small_mod(s.selected_index as nat, len as nat);
    } else {
        let s1 = spec_select_next(s);
        lemma_select_next_steps(s1, (n - 1) as nat);
        if s.selected_index + 1 >= len {
            assert(s1.selected_index == 0);
            vstd::arithmetic::div_mod::lemma_mod_add_multiples_vanish(n as int - 1, len);
            assert((s.selected_index + n) % len == (len + (n - 1)) % len);
        } else {
            assert(s1.selected_index == s.selected_index + 1);
        }
    }
}

/// Selection wraparound: with a non-empty profile list, as many selection
/// steps as there are profiles bring the highlight back to where it was.
pub proof fn lemma_selection_wraparound(s: State)
    requires
        s.wf(),
        s.configs@.len() > 0,
    ensures
        spec_iterate_select_next(s, s.configs@.len()) == s,
{
    let len = s.configs@.len() as int;
    lemma_select_next_steps(s, s.configs@.len());
    vstd::arithmetic::div_mod::lemma_mod_add_multiples_vanish(s.selected_index as int, len);
    vstd::arithmetic::div_mod::lemma_small_mod(s.selected_index as nat, len as nat);
    assert((s.selected_index + len) % len == s.selected_index as int);
}

/// The sidebar column width that fits every config name with its list
/// decoration: the widest name's byte length plus six, capped at the
/// largest terminal width; zero for an empty list.
pub open spec fn spec_sidebar_entries_width(ps: Seq<ConfigProfile>) -> nat
    decreases ps.len(),
{
    if ps.len() == 0 {
        0
    } else {
        let entry = (((vstd::utf8::encode_utf8(ps.first().name@).len()) as usize) + 6) as nat;
        let capped = if entry > u16::MAX {
            u16::MAX as nat
        } else {
            entry
        };
        let rest = spec_sidebar_entries_width(ps.drop_first());
        if capped > rest {
            capped
        } else {
            rest
        }
    }
}

impl State {
    /// The column width of the config sidebar this frame: wide enough for
    /// every name while the sidebar is shown, collapsed to zero otherwise.
    pub fn sidebar_width(&self) -> (w: u16)
        ensures
            self.is_toggled ==> w as nat == spec_sidebar_entries_width(self.configs@),
            !self.is_toggled ==> w == 0,
    {
        if !self.is_toggled {
            return 0;
        }
        let ghost all = self.configs@;
        let mut w: u16 = 0;
        let mut i: usize = 0;
        proof {
            assert(all.skip(0) =~= all);
        }
        while i < self.configs.len()
            invariant
                i <= self.configs@.len(),
                all == self.configs@,
                spec_sidebar_entries_width(all) == (if w as nat > spec_sidebar_entries_width(
                    all.skip(i as int),
                ) {
                    w as nat
                } else {
                    spec_sidebar_entries_width(all.skip(i as int))
                }),
            decreases self.configs@.len() - i,
        {
            let ghost pending = all.skip(i as int);
            proof {
                assert(pending.first() == all[i as int]);
                assert(pending.drop_first() =~= all.skip(i + 1));
            }
            let len_b = self.configs[i].name.as_str().len();
            let entry: u16 = if len_b >= 65529 {
                65535
            } else {
                (len_b + 6) as u16
            };
            if entry > w {
                w = entry;
            }
            i = i + 1;
        }
        proof {
            assert(all.skip(all.len() as int) =~= Seq::<ConfigProfile>::empty());
        }
        w
    }
}

/// What the document pane shows: the latest failure message replaces the
/// document, otherwise the document if one has been generated, otherwise a
/// hint that nothing was generated yet.
#[derive(Debug, PartialEq)]
pub enum PaneContent {
    Empty,
    Document,
    ErrorMessage(String),
}

impl State {
    /// Decides what the document pane shows.
    pub fn pane_content(&self) -> (p: PaneContent)
        ensures
            self.status matches GenerationStatus::Failed(m) ==> p == PaneContent::ErrorMessage(m),
            !(self.status is Failed) && self.document is Some ==> p == PaneContent::Document,
            !(self.status is Failed) && self.document is None ==> p == PaneContent::Empty,
    {
        match &self.status {
            GenerationStatus::Failed(m) => PaneContent::ErrorMessage(m.clone()),
            _ => {
                match &self.document {
                    Option::Some(_) => PaneContent::Document,
                    Option::None => PaneContent::Empty,
                }
            },
        }
    }
}

} // verus!

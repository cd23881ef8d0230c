//! State of the event view: the window of loaded events, the selection, the
//! filters and search, the notifications, and how keys, the mouse, new events
//! and loaded batches change it. Reading batches from disk, sending events to
//! the writer and drawing are left to the caller, which this state tells what
//! to load.
use vstd::prelude::*;
use crate::model::{AppEvent, Severity, UiEvent, FILTER_COUNT};
use crate::text::{all_digits, contains_text, dec, dec_string, str_all_digits, str_contains, chars_of};
use crate::write::PER_BATCH_SIZE;

verus! {

/// How many events the live view keeps before it drops those already written.
pub const LIVE_BUFFER_SIZE: usize = 10_000;

/// How long a notification stays on screen, in milliseconds.
pub const NOTIFICATION_MS: u64 = 3000;

/// Number of entries in the severity filter list.
pub const SEVERITY_FILTER_COUNT: usize = 5;

/// Position of a severity in the severity filter list.
pub open spec fn severity_position(s: Severity) -> int {
    match s {
        Severity::Critical => 0,
        Severity::High => 1,
        Severity::Medium => 2,
        Severity::Low => 3,
        Severity::Info => 4,
    }
}

/// Whether the view follows new events or browses stored ones.
#[derive(Clone, Copy, Debug, PartialEq, Eq, Structural)]
pub enum ViewMode {
    Live,
    History,
}

/// Outcome of reloading the configuration.
#[derive(Clone, Copy, Debug, PartialEq, Eq, Structural)]
pub enum ConfigState {
    ConfigReloaded,
    ConfigReloadFailed,
}

/// Progress of an update of the reputation database.
#[derive(Clone, Copy, Debug, PartialEq, Eq, Structural)]
pub enum UpdateDbState {
    Updating,
    Updated,
    UpdateFailed,
}

/// The visible part of the event stream.
#[derive(Clone, Copy, Debug, PartialEq, Eq, Structural)]
pub struct Viewport {
    /// Number of visible rows.
    pub height: usize,
    /// Global index of the first visible row.
    pub window_start: usize,
}

/// The pane that has the focus.
#[derive(Clone, Copy, Debug, PartialEq, Eq, Structural)]
pub enum Focus {
    Sidebar,
    Stream,
    Detail,
    Filter,
}

/// `a + b`, capped at `u16::MAX`.
pub open spec fn sat_add16(a: u16, b: u16) -> int {
    if a + b > u16::MAX { u16::MAX as int } else { a + b }
}

/// A rectangle of terminal cells.
#[derive(Clone, Copy, Debug, PartialEq, Eq, Structural)]
pub struct Area {
    pub x: u16,
    pub y: u16,
    pub width: u16,
    pub height: u16,
}

impl Area {
    /// The empty rectangle at the origin.
    pub fn empty() -> (res: Area)
        ensures
            res == (Area { x: 0, y: 0, width: 0, height: 0 }),
    {
        Area { x: 0, y: 0, width: 0, height: 0 }
    }

    /// The cell lies inside the rectangle (its right and bottom edges capped at `u16::MAX`).
    pub open spec fn holds(self, col: u16, row: u16) -> bool {
        self.x <= col && col < sat_add16(self.x, self.width) && self.y <= row && row < sat_add16(
            self.y,
            self.height,
        )
    }

    /// Whether the cell lies inside the rectangle.
    pub fn contains(&self, col: u16, row: u16) -> (res: bool)
        ensures
            res == self.holds(col, row),
    {
        let right = self.x.saturating_add(self.width);
        let bottom = self.y.saturating_add(self.height);
        col >= self.x && col < right && row >= self.y && row < bottom
    }
}

/// Selected row and scroll offset of a list.
#[derive(Clone, Copy, Debug, PartialEq, Eq, Structural)]
pub struct ListSelection {
    pub selected: Option<usize>,
    pub offset: usize,
}

impl ListSelection {
    /// Nothing selected, not scrolled.
    pub fn new() -> (res: ListSelection)
        ensures
            res.selected is None,
            res.offset == 0,
    {
        ListSelection { selected: None, offset: 0 }
    }

    /// Selects a row; selecting nothing also resets the offset.
    pub fn select(&mut self, index: Option<usize>)
        ensures
            final(self).selected == index,
            final(self).offset == (if index is None { 0 } else { old(self).offset }),
    {
        self.selected = index;
        if index.is_none() {
            self.offset = 0;
        }
    }
}

/// The list row under a click: rows start one below the top edge of the area
/// (the title line); `None` outside the area or past the `len` rows.
pub open spec fn row_at_spec(area: Area, col: u16, row: u16, len: usize) -> Option<usize> {
    if !area.holds(col, row) || row - area.y == 0 || row - area.y - 1 >= len {
        None
    } else {
        Some((row - area.y - 1) as usize)
    }
}

/// The list row under a click.
pub fn row_at(area: Area, col: u16, row: u16, len: usize) -> (res: Option<usize>)
    ensures
        res == row_at_spec(area, col, row, len),
{
    if !area.contains(col, row) {
        return None;
    }
    let rel = row - area.y;
    if rel == 0 {
        return None;
    }
    let idx = (rel - 1) as usize;
    if idx < len {
        Some(idx)
    } else {
        None
    }
}

/// The event matches the search text: an all-digit text found in the decimal
/// process id, or a text found in the event's detail or kind label.
pub open spec fn query_matches(e: UiEvent, q: Seq<char>) -> bool {
    ||| (all_digits(q) && contains_text(dec(e.event.spec_header().pid as nat), q))
    ||| contains_text(e.event.spec_detail(), q)
    ||| contains_text(e.event.spec_kind_label(), q)
}

/// The event is listed under the search text (an empty text lists all).
pub open spec fn shown(e: UiEvent, q: Seq<char>) -> bool {
    q.len() == 0 || query_matches(e, q)
}

/// Whether the event matches the search text.
pub fn match_query(e: &UiEvent, st: &str) -> (res: bool)
    ensures
        res == query_matches(*e, st@),
{
    let detail = e.event.detail();
    let kind = e.event.kind_label();
    if str_all_digits(st) {
        let pid = dec_string(e.event.pid() as u64);
        if str_contains(pid.as_str(), st) {
            return true;
        }
    }
    str_contains(detail.as_str(), st) || str_contains(kind, st)
}

/// Whether the event is listed under the search text.
fn is_shown(e: &UiEvent, st: &str) -> (res: bool)
    ensures
        res == shown(*e, st@),
{
    st.is_empty() || match_query(e, st)
}

/// Indices, from `lo` up to `n`, of the events listed under the search text, in order.
pub open spec fn matching(evs: Seq<UiEvent>, q: Seq<char>, lo: int, n: int) -> Seq<usize>
    decreases n - lo,
{
    if n <= lo {
        Seq::empty()
    } else if shown(evs[n - 1], q) {
        matching(evs, q, lo, n - 1).push((n - 1) as usize)
    } else {
        matching(evs, q, lo, n - 1)
    }
}

/// The indices of `s` at or above `k`, lowered by `k`, in order.
pub open spec fn drop_below(s: Seq<usize>, k: int) -> Seq<usize>
    decreases s.len(),
{
    if s.len() == 0 {
        Seq::empty()
    } else if s.last() >= k {
        drop_below(s.drop_last(), k).push((s.last() - k) as usize)
    } else {
        drop_below(s.drop_last(), k)
    }
}

/// Each index of `s` raised by `k`.
pub open spec fn raise(s: Seq<usize>, k: int) -> Seq<usize> {
    Seq::new(s.len(), |i: int| (s[i] + k) as usize)
}

/// `a - b`, or 0 when `b` is larger.
pub open spec fn sat_sub(a: int, b: int) -> int {
    if a >= b { a - b } else { 0 }
}

/// The smaller of two integers.
pub open spec fn min_int(a: int, b: int) -> int {
    if a <= b { a } else { b }
}


/// Some entry is set.
pub open spec fn any_set(s: Seq<bool>) -> bool {
    exists|i: int| 0 <= i < s.len() && s[i]
}

/// Whether some entry is set.
fn any_selected(v: &Vec<bool>) -> (res: bool)
    ensures
        res == any_set(v@),
{
    let mut i: usize = 0;
    while i < v.len()
        invariant
            i <= v.len(),
            forall|j: int| 0 <= j < i ==> !v@[j],
        decreases v.len() - i,
    {
        if v[i] {
            return true;
        }
        i = i + 1;
    }
    false
}

/// The event passes the kind filter: no kind is selected, or its own is.
pub open spec fn kind_selected(sel: Seq<bool>, ev: AppEvent) -> bool {
    !any_set(sel) || sel[ev.filter_index()]
}

/// The severity passes the severity filter: none is selected, or it is.
pub open spec fn severity_selected(sel: Seq<bool>, s: Severity) -> bool {
    !any_set(sel) || sel[severity_position(s)]
}

/// How many events leave the front of the live buffer when it holds `len`
/// events: those over the buffer size, but no more than have been written.
pub open spec fn evict_count(len: int, flushed: int, base: int) -> int {
    if len <= LIVE_BUFFER_SIZE { 0 } else { min_int(len - LIVE_BUFFER_SIZE, sat_sub(flushed, base)) }
}

/// A notification that is dropped once its time `t` is up.
pub open spec fn expire<T>(n: Option<(T, u64)>, now_ms: u64) -> Option<(T, u64)> {
    match n {
        Some((s, t)) => if now_ms >= t { None } else { Some((s, t)) },
        None => None,
    }
}

/// A request to read stored batches, made by the view and carried out by its caller.
#[derive(Clone, Copy, Debug, PartialEq, Eq, Structural)]
pub enum Load {
    /// Replace the loaded events by the batches `lo..=hi`.
    Range(usize, usize),
    /// Put this batch in front of the loaded events.
    Backward(usize),
    /// Put this batch after the loaded events.
    Forward(usize),
}

/// What the caller does after a key.
#[derive(Clone, Copy, Debug, PartialEq, Eq, Structural)]
pub enum Effect {
    Nothing,
    /// Ask for the configuration to be read again.
    ReloadConfig,
    /// Start an update of the reputation database.
    UpdateDb,
    /// Move the selection one row up (loading what `scroll_load` asks for first).
    ScrollUp,
    /// Move the selection one row down (loading what `scroll_load` asks for first).
    ScrollDown,
    /// Jump to the first row (loading what `top_load` asks for first).
    JumpTop,
}

/// A key of the keyboard, as far as the view tells keys apart.
#[derive(Clone, Copy, Debug, PartialEq, Eq, Structural)]
pub enum Key {
    Char(char),
    Up,
    Down,
    Backspace,
    Esc,
    Enter,
    Other,
}

/// What the mouse did.
#[derive(Clone, Copy, Debug, PartialEq, Eq, Structural)]
pub enum Mouse {
    LeftDown { col: u16, row: u16 },
    ScrollDown,
    ScrollUp,
    Other,
}

/// The state of the event view.
pub struct App {
    pub running: bool,
    pub events: Vec<UiEvent>,
    pub alert: Option<String>,
    pub crit_ev_count: usize,
    pub high_ev_count: usize,
    pub med_ev_count: usize,
    pub low_ev_count: usize,
    pub info_ev_count: usize,
    pub selected_event: Option<UiEvent>,
    /// Indices into `events` of the events listed under the search text.
    pub filtered_events: Vec<usize>,
    pub searching: bool,
    pub search_query: String,
    pub pause: bool,
    pub event_idx: usize,
    pub g_char: bool,
    pub twle_hr_format: bool,
    pub wallclock_offset_ns: u64,
    pub sev_state: ListSelection,
    pub stream_state: ListSelection,
    pub filter_state: ListSelection,
    pub sev_area: Area,
    pub filter_area: Area,
    pub stream_area: Area,
    pub view_mode: ViewMode,
    pub view_port: Viewport,
    pub current_batch: usize,
    pub loaded_range: (usize, usize),
    pub total_batches: usize,
    pub follow_tail: bool,
    pub selected_filters: Vec<bool>,
    pub selected_sevs: Vec<bool>,
    /// A notification and the time (in milliseconds) it disappears.
    pub config_notification: Option<(ConfigState, u64)>,
    pub stream_list_offset: u16,
    pub follow_tail_dirty: bool,
    pub tail_events_since_reload: usize,
    pub live_buffer: bool,
    /// Global index of `events[0]`.
    pub base_global: usize,
    /// Number of events written to disk so far.
    pub flushed_global: usize,
    /// A notification and the time (in milliseconds) it disappears.
    pub db_update_state: Option<(UpdateDbState, u64)>,
}

impl App {
    /// The filter lists have their sizes and every listed index points into `events`.
    pub open spec fn wf(&self) -> bool {
        &&& self.selected_filters.len() == FILTER_COUNT
        &&& self.selected_sevs.len() == SEVERITY_FILTER_COUNT
        &&& forall|i: int| 0 <= i < self.filtered_events.len() ==> #[trigger] self.filtered_events@[i] < self.events.len()
    }

    /// The counter of events of a severity.
    pub open spec fn count_of(&self, s: Severity) -> usize {
        match s {
            Severity::Critical => self.crit_ev_count,
            Severity::High => self.high_ev_count,
            Severity::Medium => self.med_ev_count,
            Severity::Low => self.low_ev_count,
            Severity::Info => self.info_ev_count,
        }
    }

    /// No counter is at its maximum.
    pub open spec fn counts_below_max(&self) -> bool {
        forall|s: Severity| #[trigger] self.count_of(s) < usize::MAX
    }

    /// Whether no counter is at its maximum.
    pub fn counters_have_room(&self) -> (res: bool)
        ensures
            res == self.counts_below_max(),
    {
        let r = self.crit_ev_count < usize::MAX && self.high_ev_count < usize::MAX && self.med_ev_count
            < usize::MAX && self.low_ev_count < usize::MAX && self.info_ev_count < usize::MAX;
        proof {
            if !r {
                if self.crit_ev_count == usize::MAX {
                    assert(self.count_of(Severity::Critical) == usize::MAX);
                } else if self.high_ev_count == usize::MAX {
                    assert(self.count_of(Severity::High) == usize::MAX);
                } else if self.med_ev_count == usize::MAX {
                    assert(self.count_of(Severity::Medium) == usize::MAX);
                } else if self.low_ev_count == usize::MAX {
                    assert(self.count_of(Severity::Low) == usize::MAX);
                } else {
                    assert(self.count_of(Severity::Info) == usize::MAX);
                }
            }
        }
        r
    }

    /// The settings, filters, counters, areas and notifications are those of `o`.
    pub open spec fn same_settings(&self, o: &App) -> bool {
        &&& self.running == o.running
        &&& self.alert == o.alert
        &&& self.crit_ev_count == o.crit_ev_count
        &&& self.high_ev_count == o.high_ev_count
        &&& self.med_ev_count == o.med_ev_count
        &&& self.low_ev_count == o.low_ev_count
        &&& self.info_ev_count == o.info_ev_count
        &&& self.searching == o.searching
        &&& self.search_query == o.search_query
        &&& self.pause == o.pause
        &&& self.event_idx == o.event_idx
        &&& self.g_char == o.g_char
        &&& self.twle_hr_format == o.twle_hr_format
        &&& self.wallclock_offset_ns == o.wallclock_offset_ns
        &&& self.sev_state == o.sev_state
        &&& self.filter_state == o.filter_state
        &&& self.sev_area == o.sev_area
        &&& self.filter_area == o.filter_area
        &&& self.stream_area == o.stream_area
        &&& self.view_mode == o.view_mode
        &&& self.current_batch == o.current_batch
        &&& self.total_batches == o.total_batches
        &&& self.follow_tail == o.follow_tail
        &&& self.selected_filters == o.selected_filters
        &&& self.selected_sevs == o.selected_sevs
        &&& self.config_notification == o.config_notification
        &&& self.stream_list_offset == o.stream_list_offset
        &&& self.tail_events_since_reload == o.tail_events_since_reload
        &&& self.live_buffer == o.live_buffer
        &&& self.flushed_global == o.flushed_global
        &&& self.db_update_state == o.db_update_state
    }

    /// The loaded events, their listing, position and loaded batches are those of `o`.
    pub open spec fn same_data(&self, o: &App) -> bool {
        &&& self.events == o.events
        &&& self.filtered_events == o.filtered_events
        &&& self.base_global == o.base_global
        &&& self.loaded_range == o.loaded_range
    }

    /// The visible window, selection and selected event are those of `o`.
    pub open spec fn same_view(&self, o: &App) -> bool {
        &&& self.view_port == o.view_port
        &&& self.stream_state == o.stream_state
        &&& self.selected_event == o.selected_event
        &&& self.follow_tail_dirty == o.follow_tail_dirty
    }

    /// A view with nothing loaded, following live events, no filter set.
    pub fn new() -> (app: App)
        ensures
            app.wf(),
            app.running,
            app.events@.len() == 0,
            app.alert is None,
            forall|s: Severity| #[trigger] app.count_of(s) == 0,
            app.selected_event is None,
            app.filtered_events@.len() == 0,
            !app.searching,
            app.search_query@.len() == 0,
            !app.pause,
            app.event_idx == 0,
            !app.g_char,
            !app.twle_hr_format,
            app.wallclock_offset_ns == 0,
            app.sev_state == (ListSelection { selected: None, offset: 0 }),
            app.stream_state == (ListSelection { selected: None, offset: 0 }),
            app.filter_state == (ListSelection { selected: None, offset: 0 }),
            app.sev_area == (Area { x: 0, y: 0, width: 0, height: 0 }),
            app.filter_area == (Area { x: 0, y: 0, width: 0, height: 0 }),
            app.stream_area == (Area { x: 0, y: 0, width: 0, height: 0 }),
            app.view_mode == ViewMode::Live,
            app.view_port == (Viewport { height: 0, window_start: 0 }),
            app.current_batch == 0,
            app.loaded_range == (0usize, 0usize),
            app.total_batches == 0,
            !app.follow_tail,
            forall|i: int| 0 <= i < FILTER_COUNT ==> !#[trigger] app.selected_filters@[i],
            forall|i: int| 0 <= i < SEVERITY_FILTER_COUNT ==> !#[trigger] app.selected_sevs@[i],
            app.config_notification is None,
            app.stream_list_offset == 0,
            !app.follow_tail_dirty,
            app.tail_events_since_reload == 0,
            !app.live_buffer,
            app.base_global == 0,
            app.flushed_global == 0,
            app.db_update_state is None,
    {
        App {
            running: true,
            events: Vec::with_capacity(PER_BATCH_SIZE),
            alert: None,
            crit_ev_count: 0,
            high_ev_count: 0,
            med_ev_count: 0,
            low_ev_count: 0,
            info_ev_count: 0,
            selected_event: None,
            filtered_events: Vec::with_capacity(PER_BATCH_SIZE),
            searching: false,
            search_query: String::new(),
            pause: false,
            event_idx: 0,
            g_char: false,
            twle_hr_format: false,
            wallclock_offset_ns: 0,
            sev_state: ListSelection::new(),
            stream_state: ListSelection::new(),
            filter_state: ListSelection::new(),
            sev_area: Area::empty(),
            filter_area: Area::empty(),
            stream_area: Area::empty(),
            view_mode: ViewMode::Live,
            view_port: Viewport { height: 0, window_start: 0 },
            current_batch: 0,
            loaded_range: (0, 0),
            total_batches: 0,
            follow_tail: false,
            selected_filters: vec![false; FILTER_COUNT],
            selected_sevs: vec![false; SEVERITY_FILTER_COUNT],
            config_notification: None,
            stream_list_offset: 0,
            follow_tail_dirty: false,
            tail_events_since_reload: 0,
            live_buffer: false,
            base_global: 0,
            flushed_global: 0,
            db_update_state: None,
        }
    }

    /// Shows the outcome of a configuration reload for `NOTIFICATION_MS`.
    pub fn check_config_state(&mut self, state: ConfigState, now_ms: u64)
        requires
            now_ms + NOTIFICATION_MS <= u64::MAX,
        ensures
            *final(self) == (App { config_notification: Some((state, (now_ms + NOTIFICATION_MS) as u64)), ..*old(self) }),
    {
        self.config_notification = Some((state, now_ms + NOTIFICATION_MS));
    }

    /// Shows the progress of a database update for `NOTIFICATION_MS`.
    pub fn check_update_db_state(&mut self, state: UpdateDbState, now_ms: u64)
        requires
            now_ms + NOTIFICATION_MS <= u64::MAX,
        ensures
            *final(self) == (App { db_update_state: Some((state, (now_ms + NOTIFICATION_MS) as u64)), ..*old(self) }),
    {
        self.db_update_state = Some((state, now_ms + NOTIFICATION_MS));
    }

    /// Drops the database notification once its time is up.
    pub fn update_db_notification(&mut self, now_ms: u64)
        ensures
            *final(self) == (App { db_update_state: expire(old(self).db_update_state, now_ms), ..*old(self) }),
    {
        if let Some((_, expires_at)) = &self.db_update_state {
            if now_ms >= *expires_at {
                self.db_update_state = None;
            }
        }
    }

    /// Drops the configuration notification once its time is up.
    pub fn update_config_notification(&mut self, now_ms: u64)
        ensures
            *final(self) == (App { config_notification: expire(old(self).config_notification, now_ms), ..*old(self) }),
    {
        if let Some((_, expires_at)) = &self.config_notification {
            if now_ms >= *expires_at {
                self.config_notification = None;
            }
        }
    }
}

impl App {
    /// The row the stream selection points at, in `filtered_events` (it counts
    /// from `base_global`); `None` without a selection or before the loaded events.
    pub open spec fn selected_row(&self) -> Option<int> {
        match self.stream_state.selected {
            None => None,
            Some(l) => if self.view_port.window_start + l < self.base_global {
                None
            } else {
                Some(self.view_port.window_start + l - self.base_global)
            },
        }
    }

    /// The event at a row of `filtered_events`, when the row and its index exist.
    pub open spec fn event_at_row(&self, row: int) -> Option<UiEvent> {
        if 0 <= row < self.filtered_events.len() && self.filtered_events@[row] < self.events.len() {
            Some(self.events@[self.filtered_events@[row] as int])
        } else {
            None
        }
    }

    /// `selected_event` is a copy of the event under the selection, or `None` when there is none.
    pub open spec fn holds_selection(&self) -> bool {
        match self.selected_row() {
            Some(r) => match self.event_at_row(r) {
                Some(e) => self.selected_event matches Some(c) && c.same_as(e),
                None => self.selected_event is None,
            },
            None => self.selected_event is None,
        }
    }

    /// The selection plus the start of the window fits in a `usize`.
    pub open spec fn selection_fits(&self) -> bool {
        match self.stream_state.selected {
            None => true,
            Some(l) => self.view_port.window_start + l <= usize::MAX,
        }
    }

    /// Whether the selection plus the start of the window fits in a `usize`.
    pub fn selection_in_range(&self) -> (res: bool)
        ensures
            res == self.selection_fits(),
    {
        match self.stream_state.selected {
            None => true,
            Some(l) => l <= usize::MAX - self.view_port.window_start,
        }
    }

    /// Sets `selected_event` to a copy of the event under the selection, or `None`.
    pub fn get_selected(&mut self)
        requires
            old(self).selection_fits(),
        ensures
            final(self).holds_selection(),
            final(self).same_settings(old(self)),
            final(self).same_data(old(self)),
            final(self).view_port == old(self).view_port,
            final(self).stream_state == old(self).stream_state,
            final(self).follow_tail_dirty == old(self).follow_tail_dirty,
    {
        let local = match self.stream_state.selected {
            Some(l) => l,
            None => {
                self.selected_event = None;
                return;
            },
        };
        let global = self.view_port.window_start + local;
        if global < self.base_global {
            self.selected_event = None;
            return;
        }
        let loaded_local = global - self.base_global;
        if loaded_local < self.filtered_events.len() {
            let idx = self.filtered_events[loaded_local];
            if idx < self.events.len() {
                self.selected_event = Some(self.events[idx].copy());
                return;
            }
        }
        self.selected_event = None;
    }

    /// The event under the selection, counting rows from the first loaded batch.
    pub fn selected_event(&self) -> (res: Option<&UiEvent>)
        requires
            self.selection_fits(),
            self.loaded_range.0 * PER_BATCH_SIZE <= usize::MAX,
        ensures
            match self.stream_state.selected {
                None => res is None,
                Some(l) => {
                    let g = self.view_port.window_start + l;
                    let start = self.loaded_range.0 * PER_BATCH_SIZE;
                    if g < start {
                        res is None
                    } else {
                        match self.event_at_row(g - start) {
                            Some(e) => res matches Some(r) && *r == e,
                            None => res is None,
                        }
                    }
                },
            },
    {
        let local = self.stream_state.selected?;
        let global = self.view_port.window_start + local;
        let start = self.loaded_range.0 * PER_BATCH_SIZE;
        if global < start {
            return None;
        }
        let loaded_local = global - start;
        if loaded_local < self.filtered_events.len() {
            let idx = self.filtered_events[loaded_local];
            if idx < self.events.len() {
                return Some(&self.events[idx]);
            }
        }
        None
    }

    /// Lists again the events that the search text matches, and keeps the
    /// selection within the list.
    pub fn search_events(&mut self)
        requires
            old(self).wf(),
        ensures
            final(self).wf(),
            final(self).relisted(old(self)),
            final(self).search_query == old(self).search_query,
    {
        let mut filtered: Vec<usize> = Vec::new();
        let n = self.events.len();
        let mut i: usize = 0;
        while i < n
            invariant
                n == self.events@.len(),
                i <= n,
                filtered@ == matching(self.events@, self.search_query@, 0, i as int),
                forall|k: int| 0 <= k < filtered@.len() ==> #[trigger] filtered@[k] < i,
            decreases n - i,
        {
            if is_shown(&self.events[i], self.search_query.as_str()) {
                filtered.push(i);
            }
            i = i + 1;
        }
        self.filtered_events = filtered;
        let cur = match self.stream_state.selected {
            Some(l) => l,
            None => 0,
        };
        let last = self.filtered_events.len().saturating_sub(1);
        let pick = if cur < last { cur } else { last };
        self.stream_state.select(Some(pick));
    }

    /// The events are listed again under the (new) search text, with the
    /// selection kept within the list; nothing else changes.
    pub open spec fn relisted(&self, o: &App) -> bool {
        &&& self.filtered_events@ == matching(o.events@, self.search_query@, 0, o.events@.len() as int)
        &&& *self == (App {
            search_query: self.search_query,
            filtered_events: self.filtered_events,
            stream_state: ListSelection {
                selected: Some(min_int(
                    match o.stream_state.selected { Some(l) => l as int, None => 0 },
                    sat_sub(self.filtered_events@.len() as int, 1),
                ) as usize),
                offset: o.stream_state.offset,
            },
            ..*o
        })
    }

    /// Adds a character to the search text and lists again.
    pub fn search_push(&mut self, c: char)
        requires
            old(self).wf(),
        ensures
            final(self).wf(),
            final(self).search_query@ == old(self).search_query@.push(c),
            final(self).relisted(old(self)),
    {
        self.search_query.push(c);
        self.search_events();
    }

    /// Removes the last character of the search text, if any, and lists again.
    pub fn search_pop(&mut self)
        requires
            old(self).wf(),
        ensures
            final(self).wf(),
            final(self).search_query@ == (if old(self).search_query@.len() == 0 {
                old(self).search_query@
            } else {
                old(self).search_query@.drop_last()
            }),
            final(self).relisted(old(self)),
    {
        let cs = chars_of(self.search_query.as_str());
        let mut t = String::new();
        if cs.len() > 0 {
            let mut i: usize = 0;
            while i + 1 < cs.len()
                invariant
                    i + 1 <= cs@.len(),
                    t@ == cs@.take(i as int),
                decreases cs.len() - i,
            {
                t.push(cs[i]);
                assert(t@ =~= cs@.take(i + 1));
                i = i + 1;
            }
            assert(t@ =~= cs@.drop_last());
        } else {
            assert(t@ =~= cs@);
        }
        self.search_query = t;
        self.search_events();
    }

    /// Empties the search text and lists again.
    pub fn search_clear(&mut self)
        requires
            old(self).wf(),
        ensures
            final(self).wf(),
            final(self).search_query@.len() == 0,
            final(self).relisted(old(self)),
    {
        self.search_query = String::new();
        self.search_events();
    }
}

/// Every index kept by `drop_below` stays below `b - k` when all of `s` are below `b`.
proof fn lemma_drop_below_bounded(s: Seq<usize>, k: int, b: int)
    requires
        forall|j: int| 0 <= j < s.len() ==> #[trigger] s[j] < b,
    ensures
        forall|m: int| 0 <= m < drop_below(s, k).len() ==> #[trigger] drop_below(s, k)[m] < b - k,
    decreases s.len(),
{
    if s.len() > 0 {
        let t = s.drop_last();
        assert forall|j: int| 0 <= j < t.len() implies #[trigger] t[j] < b by {
            assert(t[j] == s[j]);
        }
        lemma_drop_below_bounded(t, k, b);
        assert(s.last() == s[s.len() - 1]);
        let r = drop_below(t, k);
        if s.last() >= k {
            assert(drop_below(s, k) == r.push((s.last() - k) as usize));
            assert forall|m: int| 0 <= m < drop_below(s, k).len() implies #[trigger] drop_below(s, k)[m] < b - k by {
                if m < r.len() {
                    assert(drop_below(s, k)[m] == r[m]);
                }
            }
        } else {
            assert(drop_below(s, k) == r);
        }
    }
}

/// The indices at or above `k` of `s`, lowered by `k`, as a vector.
fn drop_below_exec(s: &Vec<usize>, k: usize) -> (res: Vec<usize>)
    ensures
        res@ == drop_below(s@, k as int),
{
    let mut out: Vec<usize> = Vec::new();
    let mut j: usize = 0;
    while j < s.len()
        invariant
            j <= s@.len(),
            out@ == drop_below(s@.take(j as int), k as int),
        decreases s.len() - j,
    {
        assert(s@.take(j + 1).drop_last() =~= s@.take(j as int));
        let x = s[j];
        if x >= k {
            out.push(x - k);
        }
        j = j + 1;
    }
    assert(s@.take(s@.len() as int) =~= s@);
    out
}

impl App {
    /// Where the window and selection go when `k` events leave the front: up to
    /// the new first event, selecting the first row, if the window started before it.
    pub open spec fn window_after_evict(&self, k: int, o: &App) -> bool {
        if k > 0 && o.view_port.window_start < o.base_global + k {
            &&& self.view_port == (Viewport { height: o.view_port.height, window_start: (o.base_global + k) as usize })
            &&& self.stream_state == (ListSelection { selected: Some(0), offset: o.stream_state.offset })
        } else {
            &&& self.view_port == o.view_port
            &&& self.stream_state == o.stream_state
        }
    }

    /// Drops from the front of the live buffer the events over its size that
    /// are already written, and moves the window and listing with them.
    pub fn evict_flushed_prefix(&mut self)
        requires
            old(self).wf(),
        ensures
            final(self).wf(),
            ({
                let k = evict_count(old(self).events@.len() as int, old(self).flushed_global as int, old(self).base_global as int);
                &&& final(self).events@ == old(self).events@.skip(k)
                &&& final(self).base_global == old(self).base_global + k
                &&& final(self).filtered_events@ == (if k == 0 { old(self).filtered_events@ } else { drop_below(old(self).filtered_events@, k) })
                &&& final(self).window_after_evict(k, old(self))
            }),
            final(self).loaded_range == old(self).loaded_range,
            final(self).selected_event == old(self).selected_event,
            final(self).follow_tail_dirty == old(self).follow_tail_dirty,
            final(self).same_settings(old(self)),
    {
        let len = self.events.len();
        if len <= LIVE_BUFFER_SIZE {
            assert(self.events@.skip(0) =~= self.events@);
            return;
        }
        let excess = len - LIVE_BUFFER_SIZE;
        let flushed_local = self.flushed_global.saturating_sub(self.base_global);
        let evict = if excess < flushed_local { excess } else { flushed_local };
        if evict == 0 {
            assert(self.events@.skip(0) =~= self.events@);
            return;
        }
        let rest = self.events.split_off(evict);
        self.events = rest;
        self.base_global = self.base_global + evict;
        let kept = drop_below_exec(&self.filtered_events, evict);
        proof {
            lemma_drop_below_bounded(self.filtered_events@, evict as int, len as int);
        }
        self.filtered_events = kept;
        if self.view_port.window_start < self.base_global {
            self.view_port.window_start = self.base_global;
            self.stream_state.select(Some(0));
        }
    }

    /// Records how many events are written and how many batches exist, then
    /// drops what the live buffer no longer needs.
    pub fn on_flush_confirmed(&mut self, flushed_count: usize, total_batches: usize)
        requires
            old(self).wf(),
        ensures
            final(self).wf(),
            final(self).flushed_global == flushed_count,
            final(self).total_batches == total_batches,
            ({
                let k = evict_count(old(self).events@.len() as int, flushed_count as int, old(self).base_global as int);
                &&& final(self).events@ == old(self).events@.skip(k)
                &&& final(self).base_global == old(self).base_global + k
                &&& final(self).filtered_events@ == (if k == 0 { old(self).filtered_events@ } else { drop_below(old(self).filtered_events@, k) })
                &&& final(self).window_after_evict(k, old(self))
            }),
            final(self).loaded_range == old(self).loaded_range,
            final(self).selected_event == old(self).selected_event,
    {
        self.flushed_global = flushed_count;
        self.total_batches = total_batches;
        self.evict_flushed_prefix();
    }

    /// What adding `ev` to `o` gives, with `r` the copy handed to the writer:
    /// an event of a kind not selected is dropped and nothing changes;
    /// otherwise it is counted, kept (evicting written events in follow mode)
    /// and listed.
    pub open spec fn pushed(&self, o: &App, ev: AppEvent, r: Option<UiEvent>) -> bool {
        &&& (!kind_selected(o.selected_filters@, ev) ==> r is None && self.same_settings(o)
                && self.same_data(o) && self.same_view(o))
        &&& (kind_selected(o.selected_filters@, ev) ==> {
                let u = UiEvent { event: ev, severity: ev.spec_severity() };
                let n = o.events@.len();
                let k = if o.follow_tail { evict_count((n + 1) as int, o.flushed_global as int, o.base_global as int) } else { 0 };
                let listed = if shown(u, o.search_query@) { o.filtered_events@.push(n as usize) } else { o.filtered_events@ };
                &&& r matches Some(c) && c.same_as(u)
                &&& forall|s: Severity| #[trigger] self.count_of(s) == o.count_of(s) + (if s == u.severity && severity_selected(o.selected_sevs@, s) { 1int } else { 0int })
                &&& self.events@ == o.events@.push(u).skip(k)
                &&& self.base_global == o.base_global + k
                &&& self.filtered_events@ == (if k == 0 { listed } else { drop_below(listed, k) })
                &&& self.window_after_evict(k, o)
                &&& self.follow_tail_dirty == (o.follow_tail_dirty || (o.follow_tail && shown(u, o.search_query@)))
                &&& self.selected_event == o.selected_event
                &&& self.loaded_range == o.loaded_range
            })
    }

    /// Takes an event from the collectors: ignored while the view is paused,
    /// otherwise added as `push` adds it.
    pub fn receive(&mut self, ev: AppEvent) -> (res: Option<UiEvent>)
        requires
            old(self).wf(),
            !old(self).pause ==> old(self).counts_below_max(),
        ensures
            final(self).wf(),
            old(self).pause ==> res is None && *final(self) == *old(self),
            !old(self).pause ==> final(self).pushed(old(self), ev, res),
    {
        if self.pause {
            None
        } else {
            self.push(ev)
        }
    }

    /// Counts, keeps and lists a new event when it passes the kind filter, and
    /// hands back a copy of it for the writer; drops it otherwise.
    pub fn push(&mut self, ev: AppEvent) -> (res: Option<UiEvent>)
        requires
            old(self).wf(),
            old(self).counts_below_max(),
        ensures
            final(self).wf(),
            final(self).pushed(old(self), ev, res),
    {
        proof {
            assert(self.count_of(Severity::Critical) < usize::MAX);
            assert(self.count_of(Severity::High) < usize::MAX);
            assert(self.count_of(Severity::Medium) < usize::MAX);
            assert(self.count_of(Severity::Low) < usize::MAX);
            assert(self.count_of(Severity::Info) < usize::MAX);
        }
        let has_filters = any_selected(&self.selected_filters);
        let mut pass = !has_filters;
        if has_filters {
            let mut i: usize = 0;
            while i < FILTER_COUNT
                invariant
                    self.selected_filters@.len() == FILTER_COUNT,
                    i <= FILTER_COUNT,
                    !pass <==> forall|j: int| 0 <= j < i ==> !(self.selected_filters@[j] && ev.filter_index() == j),
                decreases FILTER_COUNT - i,
            {
                if self.selected_filters[i] && ev.matches_filter(i) {
                    pass = true;
                }
                i = i + 1;
            }
        }
        if !pass {
            return None;
        }
        let u = UiEvent::new(ev);
        let out = u.copy();
        let has_sev = any_selected(&self.selected_sevs);
        let pos: usize = match u.severity {
            Severity::Critical => 0,
            Severity::High => 1,
            Severity::Medium => 2,
            Severity::Low => 3,
            Severity::Info => 4,
        };
        if !has_sev || self.selected_sevs[pos] {
            match u.severity {
                Severity::Critical => self.crit_ev_count = self.crit_ev_count + 1,
                Severity::High => self.high_ev_count = self.high_ev_count + 1,
                Severity::Medium => self.med_ev_count = self.med_ev_count + 1,
                Severity::Low => self.low_ev_count = self.low_ev_count + 1,
                Severity::Info => self.info_ev_count = self.info_ev_count + 1,
            }
        }
        let idx = self.events.len();
        let listed = is_shown(&u, self.search_query.as_str());
        self.events.push(u);
        if listed {
            self.filtered_events.push(idx);
            if self.follow_tail {
                self.follow_tail_dirty = true;
            }
        }
        if self.follow_tail {
            self.evict_flushed_prefix();
        } else {
            assert(self.events@.skip(0) =~= self.events@);
        }
        Some(out)
    }
}

/// Every index listed by `matching` lies in `lo..n`.
proof fn lemma_matching_bounds(evs: Seq<UiEvent>, q: Seq<char>, lo: int, n: int)
    requires
        0 <= lo,
        n <= usize::MAX + 1,
    ensures
        forall|m: int| 0 <= m < matching(evs, q, lo, n).len() ==> lo <= #[trigger] matching(evs, q, lo, n)[m] < n,
    decreases n - lo,
{
    if n > lo {
        lemma_matching_bounds(evs, q, lo, n - 1);
        let r = matching(evs, q, lo, n - 1);
        if shown(evs[n - 1], q) {
            assert(((n - 1) as usize) as int == n - 1);
            assert forall|m: int| 0 <= m < matching(evs, q, lo, n).len() implies lo <= #[trigger] matching(evs, q, lo, n)[m] < n by {
                if m < r.len() {
                    assert(matching(evs, q, lo, n)[m] == r[m]);
                }
            }
        }
    }
}

/// `matching` lists at most the `n - lo` events in `lo..n`.
proof fn lemma_matching_len(evs: Seq<UiEvent>, q: Seq<char>, lo: int, n: int)
    ensures
        matching(evs, q, lo, n).len() <= if n >= lo { n - lo } else { 0 },
    decreases n - lo,
{
    if n > lo {
        lemma_matching_len(evs, q, lo, n - 1);
    }
}

/// The indices of the events in `lo..n` of `evs` listed under the search text.
fn matching_exec(evs: &Vec<UiEvent>, q: &str, lo: usize, n: usize) -> (res: Vec<usize>)
    requires
        lo <= n <= evs@.len(),
    ensures
        res@ == matching(evs@, q@, lo as int, n as int),
{
    let mut out: Vec<usize> = Vec::new();
    let mut i: usize = lo;
    while i < n
        invariant
            lo <= i <= n <= evs@.len(),
            out@ == matching(evs@, q@, lo as int, i as int),
        decreases n - i,
    {
        if is_shown(&evs[i], q) {
            out.push(i);
        }
        i = i + 1;
    }
    out
}

impl App {
    /// The global position of the selection (the first row when nothing is selected).
    pub open spec fn selected_global(&self) -> int {
        self.view_port.window_start + match self.stream_state.selected {
            Some(l) => l as int,
            None => 0int,
        }
    }

    /// Positions and sizes leave room for the arithmetic of scrolling.
    pub open spec fn positions_fit(&self) -> bool {
        &&& self.selected_global() + 1 <= usize::MAX
        &&& self.view_port.window_start + self.view_port.height <= usize::MAX
        &&& self.base_global + self.events.len() <= usize::MAX
        &&& self.total_batches * PER_BATCH_SIZE <= usize::MAX
        &&& self.loaded_range.0 * PER_BATCH_SIZE + self.filtered_events.len() <= usize::MAX
        &&& self.loaded_range.0 * PER_BATCH_SIZE + self.events.len() <= usize::MAX
    }

    /// Whether positions and sizes leave room for the arithmetic of scrolling.
    pub fn positions_in_range(&self) -> (res: bool)
        ensures
            res == self.positions_fit(),
    {
        let local = match self.stream_state.selected {
            Some(l) => l,
            None => 0,
        };
        local < usize::MAX - self.view_port.window_start
            && self.view_port.height <= usize::MAX - self.view_port.window_start
            && self.events.len() <= usize::MAX - self.base_global
            && self.total_batches <= usize::MAX / PER_BATCH_SIZE
            && self.loaded_range.0 <= usize::MAX / PER_BATCH_SIZE
            && self.filtered_events.len() <= usize::MAX - self.loaded_range.0 * PER_BATCH_SIZE
            && self.events.len() <= usize::MAX - self.loaded_range.0 * PER_BATCH_SIZE
    }

    /// The batches to read so that the batch of global position `g` is loaded:
    /// nothing when there are no batches or it is loaded already; else the
    /// batch with the one before it (going back) or after it (going forward).
    pub open spec fn batches_plan(&self, g: int) -> Option<(usize, usize)> {
        if self.total_batches == 0 {
            None
        } else {
            let last = self.total_batches - 1;
            let b = min_int(g / PER_BATCH_SIZE as int, last);
            if self.loaded_range.0 <= b <= self.loaded_range.1 {
                None
            } else if b < self.loaded_range.0 {
                Some((sat_sub(b, 1) as usize, b as usize))
            } else {
                Some((b as usize, min_int(b + 1, last) as usize))
            }
        }
    }

    /// The batches to read so that the batch of global position `g` is loaded.
    pub fn batches_to_load(&self, g: usize) -> (res: Option<(usize, usize)>)
        ensures
            res == self.batches_plan(g as int),
    {
        if self.total_batches == 0 {
            return None;
        }
        let last = self.total_batches - 1;
        let q = g / PER_BATCH_SIZE;
        let b = if q < last { q } else { last };
        let (lo, hi) = self.loaded_range;
        if b >= lo && b <= hi {
            return None;
        }
        if b < lo {
            Some((b.saturating_sub(1), b))
        } else {
            Some((b, if b + 1 < last { b + 1 } else { last }))
        }
    }

    /// The batch to put in front so that global position `g`, before the
    /// loaded events, becomes loaded; `None` when there is nothing to read.
    pub open spec fn backward_plan(&self, g: int) -> Option<usize> {
        if g >= self.base_global || self.total_batches == 0 {
            None
        } else {
            let b = min_int(g / PER_BATCH_SIZE as int, self.total_batches - 1);
            if b >= self.loaded_range.0 && self.base_global <= b * PER_BATCH_SIZE {
                None
            } else {
                Some(b as usize)
            }
        }
    }

    /// The batch to put in front so that global position `g` becomes loaded.
    pub fn backward_batch(&self, g: usize) -> (res: Option<usize>)
        ensures
            res == self.backward_plan(g as int),
    {
        if g >= self.base_global || self.total_batches == 0 {
            return None;
        }
        let last = self.total_batches - 1;
        let q = g / PER_BATCH_SIZE;
        let b = if q < last { q } else { last };
        assert(b * PER_BATCH_SIZE <= g) by (nonlinear_arith)
            requires
                b <= q,
                q == g / PER_BATCH_SIZE,
        ;
        if b >= self.loaded_range.0 && self.base_global <= b * PER_BATCH_SIZE {
            None
        } else {
            Some(b)
        }
    }

    /// The batch to put after the loaded events so that global position `g`
    /// becomes loaded; `None` when it is loaded or past what is stored.
    pub open spec fn forward_plan(&self, g: int) -> Option<usize> {
        if self.total_batches == 0 {
            None
        } else if g < self.base_global + self.events.len() {
            None
        } else if g >= self.total_batches * PER_BATCH_SIZE {
            None
        } else {
            Some((g / PER_BATCH_SIZE as int) as usize)
        }
    }

    /// The batch to put after the loaded events so that global position `g` becomes loaded.
    pub fn forward_batch(&self, g: usize) -> (res: Option<usize>)
        requires
            self.positions_fit(),
        ensures
            res == self.forward_plan(g as int),
    {
        if self.total_batches == 0 {
            return None;
        }
        let persisted_end = self.total_batches * PER_BATCH_SIZE;
        let loaded_end = self.base_global + self.events.len();
        if g < loaded_end {
            return None;
        }
        if g >= persisted_end {
            return None;
        }
        Some(g / PER_BATCH_SIZE)
    }

    /// What to read before moving the selection one row up (`up`) or down:
    /// following live events, the batch in front of or after the loaded ones;
    /// browsing history, the batches around the new position.
    pub open spec fn scroll_plan(&self, up: bool) -> Option<Load> {
        let g = self.selected_global();
        if self.view_port.height == 0 {
            None
        } else if up {
            if g == 0 {
                None
            } else if self.follow_tail {
                if g - 1 < self.base_global {
                    match self.backward_plan(g - 1) {
                        Some(b) => Some(Load::Backward(b)),
                        None => None,
                    }
                } else {
                    None
                }
            } else if g - 1 < self.base_global || g - 1 >= self.base_global + self.events.len() {
                match self.batches_plan(g - 1) {
                    Some((lo, hi)) => Some(Load::Range(lo, hi)),
                    None => None,
                }
            } else {
                None
            }
        } else if self.follow_tail {
            match self.forward_plan(g + 1) {
                Some(b) => Some(Load::Forward(b)),
                None => None,
            }
        } else {
            match self.batches_plan(g + 1) {
                Some((lo, hi)) => Some(Load::Range(lo, hi)),
                None => None,
            }
        }
    }

    /// What to read before moving the selection one row up or down.
    pub fn scroll_load(&self, up: bool) -> (res: Option<Load>)
        requires
            self.positions_fit(),
        ensures
            res == self.scroll_plan(up),
    {
        if self.view_port.height == 0 {
            return None;
        }
        let local = match self.stream_state.selected {
            Some(l) => l,
            None => 0,
        };
        let g = self.view_port.window_start + local;
        if up {
            if g == 0 {
                return None;
            }
            let next = g - 1;
            if self.follow_tail {
                if next < self.base_global {
                    match self.backward_batch(next) {
                        Some(b) => Some(Load::Backward(b)),
                        None => None,
                    }
                } else {
                    None
                }
            } else if next < self.base_global || next >= self.base_global + self.events.len() {
                match self.batches_to_load(next) {
                    Some((lo, hi)) => Some(Load::Range(lo, hi)),
                    None => None,
                }
            } else {
                None
            }
        } else if self.follow_tail {
            match self.forward_batch(g + 1) {
                Some(b) => Some(Load::Forward(b)),
                None => None,
            }
        } else {
            match self.batches_to_load(g + 1) {
                Some((lo, hi)) => Some(Load::Range(lo, hi)),
                None => None,
            }
        }
    }

    /// Replaces the loaded events by the batches `lo..=hi` (given in order),
    /// lists them under the search text and records the range.
    pub fn load_batch_range(&mut self, lo: usize, hi: usize, batch: Vec<UiEvent>)
        requires
            old(self).wf(),
        ensures
            final(self).wf(),
            final(self).events@ == batch@,
            final(self).filtered_events@ == matching(batch@, old(self).search_query@, 0, batch@.len() as int),
            final(self).loaded_range == (lo, hi),
            final(self).base_global == old(self).base_global,
            final(self).same_settings(old(self)),
            final(self).same_view(old(self)),
    {
        let listed = matching_exec(&batch, self.search_query.as_str(), 0, batch.len());
        proof {
            lemma_matching_bounds(batch@, self.search_query@, 0, batch@.len() as int);
        }
        self.events = batch;
        self.filtered_events = listed;
        self.loaded_range = (lo, hi);
    }

    /// Puts a batch in front of the loaded events: their listing moves up by
    /// its size, its own listed events come first, and it becomes the first
    /// loaded batch.
    pub fn prepend_batch(&mut self, b: usize, batch: Vec<UiEvent>)
        requires
            old(self).wf(),
            old(self).events@.len() + batch@.len() <= usize::MAX,
            b * PER_BATCH_SIZE <= usize::MAX,
        ensures
            final(self).wf(),
            final(self).events@ == batch@ + old(self).events@,
            final(self).filtered_events@ == matching(batch@, old(self).search_query@, 0, batch@.len() as int)
                + raise(old(self).filtered_events@, batch@.len() as int),
            final(self).base_global == b * PER_BATCH_SIZE,
            final(self).loaded_range == (min_int(old(self).loaded_range.0 as int, b as int) as usize, old(self).loaded_range.1),
            final(self).same_settings(old(self)),
            final(self).same_view(old(self)),
    {
        let count = batch.len();
        let ghost old_filtered = self.filtered_events@;
        let mut shifted: Vec<usize> = Vec::new();
        let mut j: usize = 0;
        while j < self.filtered_events.len()
            invariant
                self.filtered_events@ == old_filtered,
                self.wf(),
                self.events@.len() + count <= usize::MAX,
                j <= old_filtered.len(),
                shifted@ == raise(old_filtered.take(j as int), count as int),
            decreases old_filtered.len() - j,
        {
            let x = self.filtered_events[j];
            shifted.push(x + count);
            assert(shifted@ =~= raise(old_filtered.take(j + 1), count as int));
            j = j + 1;
        }
        assert(old_filtered.take(old_filtered.len() as int) =~= old_filtered);
        let mut listed = matching_exec(&batch, self.search_query.as_str(), 0, count);
        proof {
            lemma_matching_bounds(batch@, self.search_query@, 0, count as int);
        }
        let mut front = batch;
        front.append(&mut self.events);
        self.events = front;
        listed.append(&mut shifted);
        self.filtered_events = listed;
        self.base_global = b * PER_BATCH_SIZE;
        if b < self.loaded_range.0 {
            self.loaded_range.0 = b;
        }
    }

    /// Puts a batch after the loaded events, lists its events and records it
    /// as the last loaded batch.
    pub fn append_batch(&mut self, b: usize, batch: Vec<UiEvent>)
        requires
            old(self).wf(),
            old(self).events@.len() + batch@.len() <= usize::MAX,
        ensures
            final(self).wf(),
            final(self).events@ == old(self).events@ + batch@,
            final(self).filtered_events@ == old(self).filtered_events@ + matching(
                final(self).events@,
                old(self).search_query@,
                old(self).events@.len() as int,
                final(self).events@.len() as int,
            ),
            final(self).base_global == old(self).base_global,
            final(self).loaded_range == (old(self).loaded_range.0, b),
            final(self).same_settings(old(self)),
            final(self).same_view(old(self)),
    {
        let old_len = self.events.len();
        let mut more = batch;
        self.events.append(&mut more);
        let listed = matching_exec(&self.events, self.search_query.as_str(), old_len, self.events.len());
        proof {
            lemma_matching_bounds(self.events@, self.search_query@, old_len as int, self.events@.len() as int);
        }
        let mut tail = listed;
        self.filtered_events.append(&mut tail);
        self.loaded_range.1 = b;
    }

    /// Carries out a load with the events read for it.
    pub fn apply_load(&mut self, load: Load, batch: Vec<UiEvent>)
        requires
            old(self).wf(),
            old(self).events@.len() + batch@.len() <= usize::MAX,
            load matches Load::Backward(b) ==> b * PER_BATCH_SIZE <= usize::MAX,
        ensures
            final(self).wf(),
            match load {
                Load::Range(lo, hi) => final(self).events@ == batch@ && final(self).loaded_range == (lo, hi)
                    && final(self).base_global == old(self).base_global,
                Load::Backward(b) => final(self).events@ == batch@ + old(self).events@
                    && final(self).base_global == b * PER_BATCH_SIZE,
                Load::Forward(b) => final(self).events@ == old(self).events@ + batch@
                    && final(self).loaded_range == (old(self).loaded_range.0, b)
                    && final(self).base_global == old(self).base_global,
            },
            final(self).same_settings(old(self)),
            final(self).same_view(old(self)),
    {
        match load {
            Load::Range(lo, hi) => self.load_batch_range(lo, hi, batch),
            Load::Backward(b) => self.prepend_batch(b, batch),
            Load::Forward(b) => self.append_batch(b, batch),
        }
    }
}

impl App {
    /// Where one row up takes the window start and the selection: to the row
    /// before the selected one, scrolling the window only when that row lies
    /// before it; nothing without rows, at the first row, before the loaded
    /// events, or (browsing history) past them.
    pub open spec fn up_target(&self) -> Option<(int, int)> {
        let g = self.selected_global();
        let base = self.base_global as int;
        if self.view_port.height == 0 || g == 0 || g - 1 < base {
            None
        } else if !self.follow_tail && g - 1 - base >= self.events.len() {
            None
        } else {
            let nl = g - 1 - base;
            let nwl = min_int(nl, sat_sub(self.view_port.window_start as int, base));
            Some((base + nwl, nl - nwl))
        }
    }

    /// Where one row down takes the window start and the selection: to the
    /// row after the selected one, scrolling the window so that it shows it;
    /// nothing without rows, before the loaded events or past the listed ones.
    pub open spec fn down_target(&self) -> Option<(int, int)> {
        let g = self.selected_global();
        let base = self.base_global as int;
        let h = self.view_port.height as int;
        if h == 0 || g + 1 < base || g + 1 - base >= self.filtered_events.len() {
            None
        } else {
            let nl = g + 1 - base;
            let cwl = sat_sub(self.view_port.window_start as int, base);
            let nwl = if nl >= cwl + h { nl - h + 1 } else { cwl };
            Some((base + nwl, nl - nwl))
        }
    }

    /// The state after moving to `target`, if any: window and selection set,
    /// the selected event copied; otherwise unchanged.
    pub open spec fn moved_to(&self, o: &App, target: Option<(int, int)>) -> bool {
        match target {
            None => *self == *o,
            Some((w, l)) => {
                &&& *self == (App {
                    view_port: Viewport { height: o.view_port.height, window_start: w as usize },
                    stream_state: ListSelection { selected: Some(l as usize), offset: o.stream_state.offset },
                    selected_event: self.selected_event,
                    ..*o
                })
                &&& self.holds_selection()
            },
        }
    }

    /// Moves the selection one row up, once `scroll_load(true)` has been read
    /// and applied.
    pub fn scroll_up(&mut self)
        requires
            old(self).positions_fit(),
        ensures
            final(self).moved_to(old(self), old(self).up_target()),
    {
        let height = self.view_port.height;
        if height == 0 {
            return;
        }
        let local = match self.stream_state.selected {
            Some(l) => l,
            None => 0,
        };
        let global = self.view_port.window_start + local;
        if global == 0 {
            return;
        }
        let next_global = global - 1;
        if next_global < self.base_global {
            return;
        }
        let next_local = next_global - self.base_global;
        if !self.follow_tail && next_local >= self.events.len() {
            return;
        }
        let cwl = self.view_port.window_start.saturating_sub(self.base_global);
        let nwl = if next_local < cwl { next_local } else { cwl };
        self.view_port.window_start = self.base_global + nwl;
        self.stream_state.select(Some(next_local - nwl));
        self.get_selected();
    }

    /// Moves the selection one row down, once `scroll_load(false)` has been
    /// read and applied.
    #[verifier::rlimit(40)]
    pub fn scroll_down(&mut self)
        requires
            old(self).positions_fit(),
        ensures
            final(self).moved_to(old(self), old(self).down_target()),
    {
        let height = self.view_port.height;
        if height == 0 {
            return;
        }
        let local = match self.stream_state.selected {
            Some(l) => l,
            None => 0,
        };
        let next_global = self.view_port.window_start + local + 1;
        if next_global < self.base_global {
            return;
        }
        let next_local = next_global - self.base_global;
        if next_local >= self.filtered_events.len() {
            return;
        }
        let cwl = self.view_port.window_start.saturating_sub(self.base_global);
        let nwl = if next_local >= cwl + height { next_local - height + 1 } else { cwl };
        self.view_port.window_start = self.base_global + nwl;
        self.stream_state.select(Some(next_local - nwl));
        self.get_selected();
    }

    /// What to read before jumping to the first row: browsing history, the
    /// batches around the first stored event.
    pub fn top_load(&self) -> (res: Option<Load>)
        ensures
            res == (if self.view_mode == ViewMode::History {
                match self.batches_plan(0) {
                    Some((lo, hi)) => Some(Load::Range(lo, hi)),
                    None => None,
                }
            } else {
                None
            }),
    {
        if self.view_mode == ViewMode::History {
            match self.batches_to_load(0) {
                Some((lo, hi)) => Some(Load::Range(lo, hi)),
                None => None,
            }
        } else {
            None
        }
    }

    /// Jumps to the first row of the first loaded batch, once `top_load` has
    /// been read and applied.
    pub fn jump_top(&mut self)
        requires
            old(self).positions_fit(),
        ensures
            final(self).moved_to(old(self), Some(((old(self).loaded_range.0 * PER_BATCH_SIZE) as int, 0int))),
    {
        self.view_port.window_start = self.loaded_range.0 * PER_BATCH_SIZE;
        self.stream_state.select(Some(0));
        self.get_selected();
    }

    /// Where the last-row jump takes the window start and selection: the
    /// window ends at the last listed row (its start counted from the first
    /// loaded batch unless the live buffer is shown).
    pub open spec fn bottom_target(&self) -> Option<(int, int)> {
        let total = self.filtered_events.len() as int;
        let h = self.view_port.height as int;
        if total > 0 && h > 0 {
            let last = total - 1;
            let lws = sat_sub(last, h - 1);
            let w = if self.live_buffer { lws } else { self.loaded_range.0 * PER_BATCH_SIZE + lws };
            Some((w, last - lws))
        } else {
            None
        }
    }

    /// The list changes of a search key: the text edited by `key` (control-w
    /// empties it) and the events listed again.
    pub open spec fn search_stepped(&self, o: &App, key: Key, ctrl: bool) -> bool {
        let q = match key {
            Key::Char(c) => if c == 'w' && ctrl { Seq::empty() } else { o.search_query@.push(c) },
            _ => if o.search_query@.len() == 0 { o.search_query@ } else { o.search_query@.drop_last() },
        };
        self.search_query@ == q && self.relisted(o)
    }

    /// The change a key makes while searching: characters and backspace edit
    /// the text (control-w empties it) and list again; escape and enter stop searching.
    pub open spec fn search_key_step(&self, o: &App, key: Key, ctrl: bool) -> bool {
        if !o.searching {
            *self == *o
        } else {
            match key {
                Key::Char(_) => self.search_stepped(o, key, ctrl),
                Key::Backspace => self.search_stepped(o, key, ctrl),
                Key::Esc => *self == (App { searching: false, ..*o }),
                Key::Enter => *self == (App { searching: false, ..*o }),
                _ => *self == *o,
            }
        }
    }

    /// Edits the search text while searching.
    pub fn handle_search_key(&mut self, key: Key, ctrl: bool)
        requires
            old(self).wf(),
        ensures
            final(self).wf(),
            final(self).search_key_step(old(self), key, ctrl),
    {
        if !self.searching {
            return;
        }
        match key {
            Key::Char(c) => {
                if c == 'w' && ctrl {
                    self.search_clear();
                    assert(self.search_query@ =~= Seq::<char>::empty());
                } else {
                    self.search_push(c);
                }
            },
            Key::Backspace => self.search_pop(),
            Key::Esc => self.searching = false,
            Key::Enter => self.searching = false,
            _ => {},
        }
    }

    /// The change a key makes as a command, and what the caller then does.
    pub open spec fn command_step(&self, o: &App, key: Key, ctrl: bool, now_ms: u64, eff: Effect) -> bool {
        match key {
            Key::Char('r') => *self == *o && eff == (if !o.searching || !o.running {
                Effect::ReloadConfig
            } else {
                Effect::Nothing
            }),
            Key::Char('U') => eff == Effect::UpdateDb && *self == (App {
                db_update_state: Some((UpdateDbState::Updating, (now_ms + NOTIFICATION_MS) as u64)),
                ..*o
            }),
            Key::Up => self.stop_following(o) && eff == Effect::ScrollUp,
            Key::Char('k') => self.stop_following(o) && eff == Effect::ScrollUp,
            Key::Down => *self == *o && eff == Effect::ScrollDown,
            Key::Char('j') => *self == *o && eff == Effect::ScrollDown,
            Key::Char('g') => if o.g_char {
                eff == Effect::JumpTop && *self == (App { g_char: false, follow_tail: false, ..*o })
            } else {
                eff == Effect::Nothing && *self == (App { g_char: true, ..*o })
            },
            Key::Char('G') => eff == Effect::Nothing && {
                let m = App { follow_tail: !o.pause, ..*o };
                self.moved_to(&m, o.bottom_target())
            },
            Key::Char('q') => eff == Effect::Nothing && *self == (App { running: o.running && o.searching, ..*o }),
            Key::Char('t') => eff == Effect::Nothing && *self == (App { twle_hr_format: !o.twle_hr_format, ..*o }),
            Key::Char('f') => eff == Effect::Nothing && self.started_search(o),
            Key::Char('/') => eff == Effect::Nothing && self.started_search(o),
            Key::Char('l') => eff == Effect::Nothing && if ctrl {
                self.cleared(o)
            } else {
                *self == (App { g_char: false, ..*o })
            },
            Key::Char('p') => eff == Effect::Nothing && *self == (App { pause: !o.pause, ..*o }),
            _ => eff == Effect::Nothing && *self == (App { g_char: false, ..*o }),
        }
    }

    /// Following live events stops (and a pending follow is dropped).
    pub open spec fn stop_following(&self, o: &App) -> bool {
        *self == (App {
            follow_tail: false,
            follow_tail_dirty: if o.follow_tail { false } else { o.follow_tail_dirty },
            ..*o
        })
    }

    /// Searching starts with an empty text.
    pub open spec fn started_search(&self, o: &App) -> bool {
        &&& self.search_query@.len() == 0
        &&& *self == (App { searching: true, search_query: self.search_query, ..*o })
    }

    /// The view is emptied: live mode, no events, window at 0, no selection, counters at 0.
    pub open spec fn cleared(&self, o: &App) -> bool {
        &&& self.events@.len() == 0
        &&& self.filtered_events@.len() == 0
        &&& *self == (App {
            view_mode: ViewMode::Live,
            events: self.events,
            filtered_events: self.filtered_events,
            view_port: Viewport { height: o.view_port.height, window_start: 0 },
            stream_state: ListSelection { selected: None, offset: 0 },
            selected_event: None,
            crit_ev_count: 0,
            high_ev_count: 0,
            med_ev_count: 0,
            low_ev_count: 0,
            info_ev_count: 0,
            ..*o
        })
    }

    /// Follows live events unless paused and jumps to the last listed row.
    fn jump_bottom(&mut self)
        requires
            old(self).positions_fit(),
        ensures
            ({
                let m = App { follow_tail: !old(self).pause, ..*old(self) };
                final(self).moved_to(&m, old(self).bottom_target())
            }),
    {
        self.follow_tail = !self.pause;
        let total = self.filtered_events.len();
        let height = self.view_port.height;
        if total > 0 && height > 0 {
            let last_local = total - 1;
            let lws = last_local.saturating_sub(height - 1);
            if self.live_buffer {
                self.view_port.window_start = lws;
            } else {
                self.view_port.window_start = self.loaded_range.0 * PER_BATCH_SIZE + lws;
            }
            self.stream_state.select(Some(last_local - lws));
            self.get_selected();
        }
    }

    /// Empties the view.
    fn clear_view(&mut self)
        ensures
            final(self).cleared(old(self)),
    {
        self.view_mode = ViewMode::Live;
        self.events = Vec::new();
        self.filtered_events = Vec::new();
        self.view_port.window_start = 0;
        self.stream_state.select(None);
        self.selected_event = None;
        self.crit_ev_count = 0;
        self.high_ev_count = 0;
        self.med_ev_count = 0;
        self.low_ev_count = 0;
        self.info_ev_count = 0;
    }

    /// Carries out a key as a command; the caller does what the result says.
    #[verifier::rlimit(60)]
    #[verifier::spinoff_prover]
    pub fn handle_command_key(&mut self, key: Key, ctrl: bool, now_ms: u64) -> (eff: Effect)
        requires
            old(self).wf(),
            old(self).positions_fit(),
            now_ms + NOTIFICATION_MS <= u64::MAX,
        ensures
            final(self).wf(),
            final(self).command_step(old(self), key, ctrl, now_ms, eff),
    {
        match key {
            Key::Char('r') => {
                if !self.searching || !self.running {
                    Effect::ReloadConfig
                } else {
                    Effect::Nothing
                }
            },
            Key::Char('U') => {
                self.check_update_db_state(UpdateDbState::Updating, now_ms);
                Effect::UpdateDb
            },
            Key::Up | Key::Char('k') => {
                if self.follow_tail {
                    self.follow_tail = false;
                    self.follow_tail_dirty = false;
                }
                Effect::ScrollUp
            },
            Key::Down | Key::Char('j') => Effect::ScrollDown,
            Key::Char('g') => {
                if self.g_char {
                    self.g_char = false;
                    self.follow_tail = false;
                    Effect::JumpTop
                } else {
                    self.g_char = true;
                    Effect::Nothing
                }
            },
            Key::Char('G') => {
                self.jump_bottom();
                Effect::Nothing
            },
            Key::Char('q') => {
                if !self.searching {
                    self.running = false;
                }
                Effect::Nothing
            },
            Key::Char('t') => {
                self.twle_hr_format = !self.twle_hr_format;
                Effect::Nothing
            },
            Key::Char('f') | Key::Char('/') => {
                self.searching = true;
                self.search_query = String::new();
                Effect::Nothing
            },
            Key::Char('l') => {
                if ctrl {
                    self.clear_view();
                } else {
                    self.g_char = false;
                }
                Effect::Nothing
            },
            Key::Char('p') => {
                self.pause = !self.pause;
                Effect::Nothing
            },
            _ => {
                self.g_char = false;
                Effect::Nothing
            },
        }
    }

    /// Carries out a key: first as a search edit while searching, then as a
    /// command; the caller does what the result says.
    pub fn handle_key(&mut self, key: Key, ctrl: bool, now_ms: u64) -> (eff: Effect)
        requires
            old(self).wf(),
            old(self).positions_fit(),
            now_ms + NOTIFICATION_MS <= u64::MAX,
        ensures
            final(self).wf(),
            exists|m: App| #[trigger] m.search_key_step(old(self), key, ctrl) && final(self).command_step(&m, key, ctrl, now_ms, eff),
    {
        self.handle_search_key(key, ctrl);
        let ghost mid = *self;
        proof {
            lemma_matching_len(old(self).events@, self.search_query@, 0, old(self).events@.len() as int);
        }
        let eff = self.handle_command_key(key, ctrl, now_ms);
        assert(mid.search_key_step(old(self), key, ctrl));
        eff
    }
}

impl App {
    /// The stream row under a click: the row of the area, plus the list's
    /// scroll offset, minus the rows above the list; `None` outside the area,
    /// above the list or past the listed events.
    pub open spec fn stream_row_at(&self, col: u16, row: u16) -> Option<usize> {
        let rel = row - self.stream_area.y;
        let idx = rel + self.stream_state.offset - self.stream_list_offset;
        if !self.stream_area.holds(col, row) || rel + self.stream_state.offset > usize::MAX || idx < 0
            || idx >= self.filtered_events.len() {
            None
        } else {
            Some(idx as usize)
        }
    }

    /// The stream row under a click.
    pub fn row_at_stream(&self, col: u16, row: u16) -> (res: Option<usize>)
        ensures
            res == self.stream_row_at(col, row),
    {
        if !self.stream_area.contains(col, row) {
            return None;
        }
        let rel = (row - self.stream_area.y) as usize;
        if self.stream_state.offset > usize::MAX - rel {
            return None;
        }
        let sum = rel + self.stream_state.offset;
        let lead = self.stream_list_offset as usize;
        if sum < lead {
            return None;
        }
        let idx = sum - lead;
        if idx < self.filtered_events.len() {
            Some(idx)
        } else {
            None
        }
    }

    /// The change a click makes: it toggles the severity and kind filter rows
    /// under it (selecting them in their lists) and selects the stream row under it.
    pub open spec fn clicked(&self, o: &App, col: u16, row: u16) -> bool {
        let sev = row_at_spec(o.sev_area, col, row, SEVERITY_FILTER_COUNT);
        let kind = row_at_spec(o.filter_area, col, row, FILTER_COUNT);
        let stream = o.stream_row_at(col, row);
        &&& self.selected_sevs@ == (match sev {
            Some(i) => o.selected_sevs@.update(i as int, !o.selected_sevs@[i as int]),
            None => o.selected_sevs@,
        })
        &&& self.selected_filters@ == (match kind {
            Some(i) => o.selected_filters@.update(i as int, !o.selected_filters@[i as int]),
            None => o.selected_filters@,
        })
        &&& self.sev_state == (match sev {
            Some(i) => ListSelection { selected: Some(i), offset: o.sev_state.offset },
            None => o.sev_state,
        })
        &&& self.filter_state == (match kind {
            Some(i) => ListSelection { selected: Some(i), offset: o.filter_state.offset },
            None => o.filter_state,
        })
        &&& self.stream_state == (match stream {
            Some(i) => ListSelection { selected: Some(i), offset: o.stream_state.offset },
            None => o.stream_state,
        })
        &&& *self == (App {
            selected_sevs: self.selected_sevs,
            selected_filters: self.selected_filters,
            sev_state: self.sev_state,
            filter_state: self.filter_state,
            stream_state: self.stream_state,
            ..*o
        })
    }

    /// Carries out a mouse action: a click toggles filters and selects rows;
    /// the wheel scrolls (scrolling up stops following live events); the
    /// caller does what the result says.
    pub fn handle_mouse(&mut self, m: Mouse) -> (eff: Effect)
        requires
            old(self).wf(),
        ensures
            final(self).wf(),
            match m {
                Mouse::LeftDown { col, row } => eff == Effect::Nothing && final(self).clicked(old(self), col, row),
                Mouse::ScrollDown => eff == Effect::ScrollDown && *final(self) == *old(self),
                Mouse::ScrollUp => eff == Effect::ScrollUp && *final(self) == (App { follow_tail: false, ..*old(self) }),
                Mouse::Other => eff == Effect::Nothing && *final(self) == *old(self),
            },
    {
        match m {
            Mouse::LeftDown { col, row } => {
                if let Some(idx) = row_at(self.sev_area, col, row, SEVERITY_FILTER_COUNT) {
                    let v = !self.selected_sevs[idx];
                    self.selected_sevs.set(idx, v);
                    self.sev_state.select(Some(idx));
                }
                if let Some(idx) = row_at(self.filter_area, col, row, FILTER_COUNT) {
                    let v = !self.selected_filters[idx];
                    self.selected_filters.set(idx, v);
                    self.filter_state.select(Some(idx));
                }
                if let Some(idx) = self.row_at_stream(col, row) {
                    self.stream_state.select(Some(idx));
                }
                Effect::Nothing
            },
            Mouse::ScrollDown => Effect::ScrollDown,
            Mouse::ScrollUp => {
                if self.follow_tail {
                    self.follow_tail = false;
                }
                Effect::ScrollUp
            },
            Mouse::Other => Effect::Nothing,
        }
    }

    /// On a tick, after new events while following: the window ends at the
    /// last listed row, which is selected.
    pub fn follow_tick(&mut self)
        requires
            old(self).wf(),
        ensures
            final(self).wf(),
            !old(self).follow_tail_dirty ==> *final(self) == *old(self),
            old(self).follow_tail_dirty ==> ({
                let m = App { follow_tail_dirty: false, ..*old(self) };
                let total = old(self).filtered_events.len() as int;
                let h = old(self).view_port.height as int;
                if total > 0 && h > 0 {
                    let ws = sat_sub(total - 1, h - 1);
                    final(self).moved_to(&m, Some((ws, total - 1 - ws)))
                } else {
                    *final(self) == m
                }
            }),
    {
        if self.follow_tail_dirty {
            self.follow_tail_dirty = false;
            let total = self.filtered_events.len();
            let height = self.view_port.height;
            if total > 0 && height > 0 {
                let last = total - 1;
                let ws = last.saturating_sub(height - 1);
                self.view_port.window_start = ws;
                self.stream_state.select(Some(last - ws));
                self.get_selected();
            }
        }
    }

    /// A batch was written: records how many exist and, while following,
    /// drops what the live buffer no longer needs.
    pub fn batches_written(&mut self, total_batches: usize)
        requires
            old(self).wf(),
            total_batches * PER_BATCH_SIZE <= usize::MAX,
        ensures
            final(self).wf(),
            final(self).total_batches == total_batches,
            !old(self).follow_tail ==> *final(self) == (App { total_batches: total_batches, ..*old(self) }),
            old(self).follow_tail ==> final(self).flushed_global == total_batches * PER_BATCH_SIZE,
    {
        self.total_batches = total_batches;
        if self.follow_tail {
            self.on_flush_confirmed(total_batches * PER_BATCH_SIZE, total_batches);
        }
    }

    /// Records the stream pane's inner area: the list starts two rows down
    /// (below the header and its rule) and is as high as what is left.
    pub fn set_stream_layout(&mut self, inner: Area)
        requires
            inner.y + 2 <= u16::MAX,
        ensures
            *final(self) == (App {
                stream_area: inner,
                stream_list_offset: 2,
                view_port: Viewport { height: sat_sub(inner.height as int, 2) as usize, window_start: old(self).view_port.window_start },
                ..*old(self)
            }),
    {
        self.stream_area = inner;
        let list_y = inner.y + 2;
        self.stream_list_offset = list_y - inner.y;
        self.view_port.height = inner.height.saturating_sub(2) as usize;
    }

    /// Records where the severity and kind filter lists are drawn.
    pub fn set_sidebar_areas(&mut self, sev_area: Area, filter_area: Area)
        ensures
            *final(self) == (App { sev_area: sev_area, filter_area: filter_area, ..*old(self) }),
    {
        self.sev_area = sev_area;
        self.filter_area = filter_area;
    }

    /// The rows of `filtered_events` to draw, `start..end`, and the drawn
    /// selected row: the window starts at `window_start` (kept below the
    /// listed count) and is as high as the view; the selection is kept inside
    /// it (and recorded). `None`, with nothing changed, when nothing is listed
    /// or the view has no rows.
    #[verifier::rlimit(40)]
    pub fn visible_rows(&mut self) -> (res: Option<(usize, usize, usize)>)
        ensures
            ({
                let total = old(self).filtered_events.len() as int;
                let h = old(self).view_port.height as int;
                if total == 0 || h == 0 {
                    res is None && *final(self) == *old(self)
                } else {
                    let start = min_int(old(self).view_port.window_start as int, total - 1);
                    let end = min_int(start + h, total);
                    let sel = min_int(match old(self).stream_state.selected { Some(l) => l as int, None => 0 }, sat_sub(end - start, 1));
                    &&& res == Some((start as usize, end as usize, (start + sel) as usize))
                    &&& *final(self) == (App {
                        stream_state: ListSelection { selected: Some(sel as usize), offset: old(self).stream_state.offset },
                        ..*old(self)
                    })
                }
            }),
    {
        let total = self.filtered_events.len();
        if total == 0 {
            return None;
        }
        let height = self.view_port.height;
        if height == 0 {
            return None;
        }
        let start = if self.view_port.window_start < total - 1 { self.view_port.window_start } else { total - 1 };
        let end = if height >= total - start { total } else { start + height };
        let cur = match self.stream_state.selected {
            Some(l) => l,
            None => 0,
        };
        let room = (end - start).saturating_sub(1);
        let sel = if cur < room { cur } else { room };
        self.stream_state.select(Some(sel));
        Some((start, end, start + sel))
    }
}

/// The offset between the wall clock and the monotonic clock, in nanoseconds.
pub fn clock_offset(realtime_ns: u64, mono_sec: u64, mono_nsec: u64) -> (res: u64)
    requires
        mono_sec * 1_000_000_000 + mono_nsec <= realtime_ns,
    ensures
        res == realtime_ns - (mono_sec * 1_000_000_000 + mono_nsec),
{
    let mono_ns = mono_sec * 1_000_000_000 + mono_nsec;
    realtime_ns - mono_ns
}

/// Eviction never drops an event that has not been written: the first kept
/// global position stays at or below the written count, and the buffer keeps
/// at least its size (or all it has).
pub proof fn lemma_evict_keeps_unwritten(len: int, flushed: int, base: int)
    requires
        0 <= len,
        0 <= base,
    ensures
        0 <= evict_count(len, flushed, base) <= len,
        evict_count(len, flushed, base) > 0 ==> base + evict_count(len, flushed, base) <= flushed,
        len - evict_count(len, flushed, base) >= min_int(len, LIVE_BUFFER_SIZE as int),
{
}

/// One row up moves the selection to the global position just before it;
/// one row down to the one just after it, and keeps it inside the window.
pub proof fn lemma_scroll_moves_one_row(app: App)
    ensures
        app.up_target() matches Some((w, l)) ==> w + l == app.selected_global() - 1 && 0 <= l,
        app.down_target() matches Some((w, l)) ==> w + l == app.selected_global() + 1 && 0 <= l < app.view_port.height,
{
}

/// The search listing holds exactly the positions in `lo..n` of the events
/// the search text lists, each once and in increasing order.
pub proof fn lemma_matching_members(evs: Seq<UiEvent>, q: Seq<char>, lo: int, n: int)
    requires
        0 <= lo,
        n <= evs.len(),
        n <= usize::MAX + 1,
    ensures
        forall|i: int| lo <= i < n ==> (matching(evs, q, lo, n).contains(i as usize) <==> shown(#[trigger] evs[i], q)),
        forall|m: int| 0 <= m < matching(evs, q, lo, n).len() ==> lo <= #[trigger] matching(evs, q, lo, n)[m] < n,
        forall|a: int, b: int| 0 <= a < b < matching(evs, q, lo, n).len() ==> matching(evs, q, lo, n)[a] < matching(evs, q, lo, n)[b],
    decreases n - lo,
{
    lemma_matching_bounds(evs, q, lo, n);
    if n > lo {
        lemma_matching_members(evs, q, lo, n - 1);
        lemma_matching_bounds(evs, q, lo, n - 1);
        let r = matching(evs, q, lo, n - 1);
        let m = matching(evs, q, lo, n);
        assert(((n - 1) as usize) as int == n - 1);
        if shown(evs[n - 1], q) {
            assert(m == r.push((n - 1) as usize));
            assert forall|i: int| lo <= i < n implies (m.contains(i as usize) <==> shown(#[trigger] evs[i], q)) by {
                if i < n - 1 {
                    assert((i as usize) as int == i);
                    if r.contains(i as usize) {
                        let k = choose|k: int| 0 <= k < r.len() && r[k] == i as usize;
                        assert(m[k] == i as usize);
                    }
                    if m.contains(i as usize) {
                        let k = choose|k: int| 0 <= k < m.len() && m[k] == i as usize;
                        if k == r.len() {
                        } else {
                            assert(r[k] == i as usize);
                        }
                    }
                } else {
                    assert(m[r.len() as int] == (n - 1) as usize);
                }
            }
        } else {
            assert(m == r);
            assert forall|i: int| lo <= i < n implies (m.contains(i as usize) <==> shown(#[trigger] evs[i], q)) by {
                if i == n - 1 {
                    if m.contains(i as usize) {
                        let k = choose|k: int| 0 <= k < m.len() && m[k] == i as usize;
                        assert(r[k] < n - 1);
                    }
                }
            }
        }
    }
}
/// Typing a character into the search and deleting it again lists the same
/// events under the original search text, and leaves everything but the
/// selection as it was.
pub proof fn lemma_search_pop_undoes_push(a: App, b: App, c: App, ch: char)
    requires
        b.search_query@ == a.search_query@.push(ch),
        b.relisted(&a),
        c.search_query@ == (if b.search_query@.len() == 0 {
            b.search_query@
        } else {
            b.search_query@.drop_last()
        }),
        c.relisted(&b),
    ensures
        c.search_query@ == a.search_query@,
        c.filtered_events@ == matching(a.events@, a.search_query@, 0, a.events@.len() as int),
        c.stream_state.offset == a.stream_state.offset,
        c == (App { search_query: c.search_query, filtered_events: c.filtered_events, stream_state: c.stream_state, ..a }),
{
    assert(a.search_query@.push(ch).drop_last() =~= a.search_query@);
}
/// The search finds an event whose one-line detail or kind label contains
/// the search text, whatever characters the text has; a text of digits also
/// finds the events of processes whose id contains it; and an event that the
/// search finds has the text in one of those places.
pub proof fn lemma_search_finds_text(e: UiEvent, q: Seq<char>)
    ensures
        contains_text(e.event.spec_detail(), q) ==> query_matches(e, q),
        contains_text(e.event.spec_kind_label(), q) ==> query_matches(e, q),
        (forall|i: int| 0 <= i < q.len() ==> '0' <= #[trigger] q[i] <= '9')
            && contains_text(dec(e.event.spec_header().pid as nat), q) ==> query_matches(e, q),
        query_matches(e, q) ==> contains_text(e.event.spec_detail(), q) || contains_text(e.event.spec_kind_label(), q)
            || contains_text(dec(e.event.spec_header().pid as nat), q),
{
}
/// What a new event does to the view, in terms of the filters: with no kind
/// selected every event is kept, with some selected exactly the events of a
/// selected kind are; a kept event (outside follow mode) is appended to the
/// events, is counted under its severity when no severity is selected or
/// its own is, and is listed when the search shows it; a dropped event
/// changes no event or counter.
pub proof fn lemma_push_by_filters(o: App, n: App, ev: AppEvent, r: Option<UiEvent>)
    requires
        o.selected_filters@.len() == FILTER_COUNT,
        n.pushed(&o, ev, r),
        !o.follow_tail,
    ensures
        (forall|i: int| 0 <= i < FILTER_COUNT ==> !#[trigger] o.selected_filters@[i]) ==> r is Some,
        o.selected_filters@[ev.filter_index()] ==> r is Some,
        (exists|i: int| 0 <= i < FILTER_COUNT && #[trigger] o.selected_filters@[i]) && !o.selected_filters@[ev.filter_index()]
            ==> r is None && n.events == o.events && forall|s: Severity| #[trigger] n.count_of(s) == o.count_of(s),
        r is Some ==> n.events@ == o.events@.push(UiEvent { event: ev, severity: ev.spec_severity() }),
        r is Some && (forall|i: int| 0 <= i < o.selected_sevs@.len() ==> !#[trigger] o.selected_sevs@[i])
            ==> n.count_of(ev.spec_severity()) == o.count_of(ev.spec_severity()) + 1,
        r is Some && shown(UiEvent { event: ev, severity: ev.spec_severity() }, o.search_query@)
            ==> n.filtered_events@ == o.filtered_events@.push(o.events@.len() as usize),
{
    crate::model::lemma_one_filter_per_event(ev);
    let u = UiEvent { event: ev, severity: ev.spec_severity() };
    if kind_selected(o.selected_filters@, ev) {
        assert(o.events@.push(u).skip(0) =~= o.events@.push(u));
    }
}
} // verus!

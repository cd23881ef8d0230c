//! The state of the first terminal viewer of first-generation events: the
//! events, the counters and the two scroll positions with their scroll bars.
use vstd::prelude::*;
use crate::common::AppEvent;

verus! {

/// The pane that has the focus.
#[derive(Clone, Copy, Debug, PartialEq, Eq, Structural)]
pub enum Focus {
    Sidebar,
    Stream,
    Detail,
}

/// Where a scroll bar's thumb is, over content of a given length.
#[derive(Clone, Copy, Debug, PartialEq, Eq, Structural)]
pub struct ScrollBar {
    pub content_length: usize,
    pub position: usize,
}

impl ScrollBar {
    /// A bar over content of the given length, at the top.
    pub fn new(content_length: usize) -> (res: ScrollBar)
        ensures
            res == (ScrollBar { content_length, position: 0 }),
    {
        ScrollBar { content_length, position: 0 }
    }

    /// The same bar with its thumb at `position`.
    pub open spec fn moved(self, position: usize) -> ScrollBar {
        ScrollBar { position, ..self }
    }

    /// The same bar with its thumb at `position`.
    pub fn at(self, position: usize) -> (res: ScrollBar)
        ensures
            res == self.moved(position),
    {
        ScrollBar { position, ..self }
    }
}

/// The viewer's state.
pub struct App {
    pub running: bool,
    pub events: Vec<AppEvent>,
    pub alert: Option<String>,
    pub crit_ev_count: usize,
    pub high_ev_count: usize,
    pub med_ev_count: usize,
    pub low_ev_count: usize,
    pub info_ev_count: usize,
    pub horizontal_scroll_state: ScrollBar,
    pub horizontal_scroll: usize,
    pub vertical_scroll_state: ScrollBar,
    pub vertical_scroll: usize,
}

/// `a - 1`, or 0.
pub open spec fn dec_sat(a: usize) -> usize {
    if a == 0 { 0 } else { (a - 1) as usize }
}

/// `a + 1`, or `usize::MAX`.
pub open spec fn inc_sat(a: usize) -> usize {
    if a == usize::MAX { a } else { (a + 1) as usize }
}

impl App {
    /// Running, with no events, zero counters and both scrolls at the top.
    pub fn new() -> (app: App)
        ensures
            app.running,
            app.events@.len() == 0,
            app.alert is None,
            app.crit_ev_count == 0 && app.high_ev_count == 0 && app.med_ev_count == 0,
            app.low_ev_count == 0 && app.info_ev_count == 0,
            app.horizontal_scroll_state == (ScrollBar { content_length: 0, position: 0 }),
            app.horizontal_scroll == 0,
            app.vertical_scroll_state == (ScrollBar { content_length: 0, position: 0 }),
            app.vertical_scroll == 0,
    {
        App {
            running: true,
            events: Vec::new(),
            alert: None,
            crit_ev_count: 0,
            high_ev_count: 0,
            med_ev_count: 0,
            low_ev_count: 0,
            info_ev_count: 0,
            horizontal_scroll_state: ScrollBar::new(0),
            horizontal_scroll: 0,
            vertical_scroll_state: ScrollBar::new(0),
            vertical_scroll: 0,
        }
    }

    /// A key: `q` stops the viewer; every other key (tab included) does nothing.
    pub fn handle_key(&mut self, c: Option<char>)
        ensures
            c == Some('q') ==> *final(self) == (App { running: false, ..*old(self) }),
            c != Some('q') ==> *final(self) == *old(self),
    {
        if c == Some('q') {
            self.running = false;
        }
    }

    /// Moves both scroll bars' thumbs to the scroll positions.
    pub fn update_scroll_bar_state(&mut self)
        ensures
            *final(self) == (App {
                vertical_scroll_state: old(self).vertical_scroll_state.moved(old(self).vertical_scroll),
                horizontal_scroll_state: old(self).horizontal_scroll_state.moved(old(self).horizontal_scroll),
                ..*old(self)
            }),
    {
        self.vertical_scroll_state = self.vertical_scroll_state.at(self.vertical_scroll);
        self.horizontal_scroll_state = self.horizontal_scroll_state.at(self.horizontal_scroll);
    }

    /// One row up (stopping at the top), then the bars follow.
    pub fn scroll_up(&mut self)
        ensures
            *final(self) == (App {
                vertical_scroll: dec_sat(old(self).vertical_scroll),
                vertical_scroll_state: old(self).vertical_scroll_state.moved(dec_sat(old(self).vertical_scroll)),
                horizontal_scroll_state: old(self).horizontal_scroll_state.moved(old(self).horizontal_scroll),
                ..*old(self)
            }),
    {
        self.vertical_scroll = self.vertical_scroll.saturating_sub(1);
        self.update_scroll_bar_state();
    }

    /// One row down (stopping at the largest position), then the bars follow.
    pub fn scroll_down(&mut self)
        ensures
            *final(self) == (App {
                vertical_scroll: inc_sat(old(self).vertical_scroll),
                vertical_scroll_state: old(self).vertical_scroll_state.moved(inc_sat(old(self).vertical_scroll)),
                horizontal_scroll_state: old(self).horizontal_scroll_state.moved(old(self).horizontal_scroll),
                ..*old(self)
            }),
    {
        self.vertical_scroll = self.vertical_scroll.saturating_add(1);
        self.update_scroll_bar_state();
    }

    /// Sets the horizontal position one past the vertical one, then the bars follow.
    pub fn scroll_right(&mut self)
        ensures
            *final(self) == (App {
                horizontal_scroll: inc_sat(old(self).vertical_scroll),
                vertical_scroll_state: old(self).vertical_scroll_state.moved(old(self).vertical_scroll),
                horizontal_scroll_state: old(self).horizontal_scroll_state.moved(inc_sat(old(self).vertical_scroll)),
                ..*old(self)
            }),
    {
        self.horizontal_scroll = self.vertical_scroll.saturating_add(1);
        self.update_scroll_bar_state();
    }

    /// Moves the vertical position one up (stopping at the top), then the bars follow.
    pub fn scroll_left(&mut self)
        ensures
            *final(self) == (App {
                vertical_scroll: dec_sat(old(self).vertical_scroll),
                vertical_scroll_state: old(self).vertical_scroll_state.moved(dec_sat(old(self).vertical_scroll)),
                horizontal_scroll_state: old(self).horizontal_scroll_state.moved(old(self).horizontal_scroll),
                ..*old(self)
            }),
    {
        self.vertical_scroll = self.vertical_scroll.saturating_sub(1);
        self.update_scroll_bar_state();
    }
}

} // verus!

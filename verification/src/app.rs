//! The interactive state and its transitions: which pane has focus, the
//! header-visibility flag shared by both detail panes, the two scroll
//! offsets, and the navigation commands that move between entries.

use crate::model::{Entry, ParsedLog};
use crate::util::{spec_advance, spec_retreat, StatefulList};
use vstd::prelude::*;

verus! {

/// The three focusable panes, cycled forward by the next-pane command; no
/// reverse cycle exists.
#[derive(Clone, Copy, Debug, PartialEq, Eq, Structural)]
pub enum Window {
    RequestList,
    RequestDetails,
    ResponseDetails,
}

/// The pane that follows `w` in the focus cycle.
pub open spec fn spec_next_window(w: Window) -> Window {
    match w {
        Window::RequestList => Window::RequestDetails,
        Window::RequestDetails => Window::ResponseDetails,
        Window::ResponseDetails => Window::RequestList,
    }
}

/// One scroll step down: the offset grows by one and saturates at the
/// largest value its type holds (clamping to the content's length is a
/// rendering-time concern).
pub open spec fn spec_scroll_down(o: u16) -> u16 {
    if o < u16::MAX {
        (o + 1) as u16
    } else {
        o
    }
}

/// One scroll step up: the offset shrinks by one and floors at zero.
pub open spec fn spec_scroll_up(o: u16) -> u16 {
    if o > 0 {
        (o - 1) as u16
    } else {
        0u16
    }
}

/// The whole interactive state: the log with its selection, the
/// header-visibility flag, the focused pane, and one vertical scroll offset
/// per detail pane. The log's entry sequence is built once and never changes
/// afterwards; only the selection and these flags move.
pub struct App {
    pub log: StatefulList<Entry>,
    pub show_headers: bool,
    pub current_window: Window,
    pub request_vertical_offset: u16,
    pub response_vertical_offset: u16,
}

impl App {
    /// The selection, when set, indexes an entry; an empty log never has one.
    pub open spec fn wf(self) -> bool {
        self.log.wf()
    }

    /// Builds the startup state from a parse outcome: the entries in capture
    /// order, headers hidden, the list pane focused, both offsets zero, and
    /// the first entry selected when there is one.
    pub fn new(parsed: ParsedLog) -> (r: App)
        ensures
            r.log.list@ == parsed.spec_entries(),
            r.log.selected == (if parsed.spec_entries().len() > 0 {
                Option::Some(0usize)
            } else {
                Option::<usize>::None
            }),
            r.show_headers == false,
            r.current_window == Window::RequestList,
            r.request_vertical_offset == 0u16,
            r.response_vertical_offset == 0u16,
            r.wf(),
    {
        let mut app = App {
            log: StatefulList::with_items(parsed.entries()),
            show_headers: false,
            current_window: Window::RequestList,
            request_vertical_offset: 0,
            response_vertical_offset: 0,
        };
        app.log.select_first();
        app
    }

    /// Flips the header-visibility flag; everything else is unchanged. Both
    /// detail panes read this one flag, so the toggle affects them
    /// identically.
    pub fn toggle_headers(&mut self)
        ensures
            final(self).show_headers == !old(self).show_headers,
            final(self).log == old(self).log,
            final(self).current_window == old(self).current_window,
            final(self).request_vertical_offset == old(self).request_vertical_offset,
            final(self).response_vertical_offset == old(self).response_vertical_offset,
    {
        self.show_headers = !self.show_headers;
    }

    /// Selects the next entry (wrapping from the last to the first) and
    /// resets both scroll offsets: scrolling is meaningful only relative to
    /// the entry being displayed.
    pub fn next_entry(&mut self)
        requires
            old(self).wf(),
        ensures
            final(self).log.list == old(self).log.list,
            final(self).log.selected == spec_advance(
                old(self).log.list@.len(),
                old(self).log.selected,
            ),
            final(self).request_vertical_offset == 0u16,
            final(self).response_vertical_offset == 0u16,
            final(self).show_headers == old(self).show_headers,
            final(self).current_window == old(self).current_window,
            final(self).wf(),
    {
        self.log.next();
        self.request_vertical_offset = 0;
        self.response_vertical_offset = 0;
    }

    /// Selects the previous entry (stopping at the first, no wrap) and
    /// resets both scroll offsets.
    pub fn previous_entry(&mut self)
        requires
            old(self).wf(),
        ensures
            final(self).log.list == old(self).log.list,
            final(self).log.selected == spec_retreat(
                old(self).log.list@.len(),
                old(self).log.selected,
            ),
            final(self).request_vertical_offset == 0u16,
            final(self).response_vertical_offset == 0u16,
            final(self).show_headers == old(self).show_headers,
            final(self).current_window == old(self).current_window,
            final(self).wf(),
    {
        self.log.prev();
        self.request_vertical_offset = 0;
        self.response_vertical_offset = 0;
    }

    /// The move-down command: in the list pane it selects the next entry and
    /// resets both offsets; in a detail pane it scrolls that pane down by
    /// one, leaving the other pane's offset alone.
    pub fn down(&mut self)
        requires
            old(self).wf(),
        ensures
            final(self).log.list == old(self).log.list,
            final(self).show_headers == old(self).show_headers,
            final(self).current_window == old(self).current_window,
            final(self).wf(),
            match old(self).current_window {
                Window::RequestList => {
                    &&& final(self).log.selected == spec_advance(
                        old(self).log.list@.len(),
                        old(self).log.selected,
                    )
                    &&& final(self).request_vertical_offset == 0u16
                    &&& final(self).response_vertical_offset == 0u16
                },
                Window::RequestDetails => {
                    &&& final(self).log.selected == old(self).log.selected
                    &&& final(self).request_vertical_offset == spec_scroll_down(
                        old(self).request_vertical_offset,
                    )
                    &&& final(self).response_vertical_offset == old(
                        self,
                    ).response_vertical_offset
                },
                Window::ResponseDetails => {
                    &&& final(self).log.selected == old(self).log.selected
                    &&& final(self).request_vertical_offset == old(self).request_vertical_offset
                    &&& final(self).response_vertical_offset == spec_scroll_down(
                        old(self).response_vertical_offset,
                    )
                },
            },
    {
        match self.current_window {
            Window::RequestList => self.next_entry(),
            Window::RequestDetails => {
                if self.request_vertical_offset < u16::MAX {
                    self.request_vertical_offset = self.request_vertical_offset + 1;
                }
            },
            Window::ResponseDetails => {
                if self.response_vertical_offset < u16::MAX {
                    self.response_vertical_offset = self.response_vertical_offset + 1;
                }
            },
        }
    }

    /// The move-up command: in the list pane it selects the previous entry
    /// and resets both offsets; in a detail pane it scrolls that pane up by
    /// one, never below zero.
    pub fn up(&mut self)
        requires
            old(self).wf(),
        ensures
            final(self).log.list == old(self).log.list,
            final(self).show_headers == old(self).show_headers,
            final(self).current_window == old(self).current_window,
            final(self).wf(),
            match old(self).current_window {
                Window::RequestList => {
                    &&& final(self).log.selected == spec_retreat(
                        old(self).log.list@.len(),
                        old(self).log.selected,
                    )
                    &&& final(self).request_vertical_offset == 0u16
                    &&& final(self).response_vertical_offset == 0u16
                },
                Window::RequestDetails => {
                    &&& final(self).log.selected == old(self).log.selected
                    &&& final(self).request_vertical_offset == spec_scroll_up(
                        old(self).request_vertical_offset,
                    )
                    &&& final(self).response_vertical_offset == old(
                        self,
                    ).response_vertical_offset
                },
                Window::ResponseDetails => {
                    &&& final(self).log.selected == old(self).log.selected
                    &&& final(self).request_vertical_offset == old(self).request_vertical_offset
                    &&& final(self).response_vertical_offset == spec_scroll_up(
                        old(self).response_vertical_offset,
                    )
                },
            },
    {
        match self.current_window {
            Window::RequestList => self.previous_entry(),
            Window::RequestDetails => {
                if self.request_vertical_offset != 0 {
                    self.request_vertical_offset = self.request_vertical_offset - 1;
                }
            },
            Window::ResponseDetails => {
                if self.response_vertical_offset != 0 {
                    self.response_vertical_offset = self.response_vertical_offset - 1;
                }
            },
        }
    }

    /// Moves focus to the next pane in the cycle; nothing else changes.
    pub fn next_window(&mut self)
        ensures
            final(self).current_window == spec_next_window(old(self).current_window),
            final(self).log == old(self).log,
            final(self).show_headers == old(self).show_headers,
            final(self).request_vertical_offset == old(self).request_vertical_offset,
            final(self).response_vertical_offset == old(self).response_vertical_offset,
    {
        self.current_window = match self.current_window {
            Window::RequestList => Window::RequestDetails,
            Window::RequestDetails => Window::ResponseDetails,
            Window::ResponseDetails => Window::RequestList,
        };
    }
}

} // verus!

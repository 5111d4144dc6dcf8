//! The list viewer: its state, the three commands it answers to, and the
//! frame it shows.

use vstd::prelude::*;
use vstd::string::StringExecFns;
use crate::binding::{bindings_view, Binding, BindingView};
use crate::input::{Event, KeyCode, KeyEvent, KeyEventKind, KEY_DOWN, KEY_QUIT, KEY_UP};
use crate::screen::{legend, legend_spans, line_spans, lines, title_text, Screen, ScreenView};

verus! {

/// The viewer's state.
#[derive(Debug)]
pub struct App {
    bindings: Vec<Binding>,
    exit: bool,
    scroll: usize,
    highlighted: usize,
}

/// The mathematical value of an [`App`].
pub struct AppView {
    pub bindings: Seq<BindingView>,
    pub exit: bool,
    pub scroll: nat,
    pub highlighted: nat,
}

impl AppView {
    /// The largest index an entry has, and so the largest value that the
    /// scroll offset and the highlighted index take.
    pub open spec fn max_index(self) -> nat {
        if self.bindings.len() == 0 {
            0
        } else {
            (self.bindings.len() - 1) as nat
        }
    }

    /// A state is valid when it holds at least one entry and the scroll
    /// offset and the highlighted index are the same index of an entry.
    pub open spec fn valid(self) -> bool {
        &&& self.bindings.len() >= 1
        &&& self.highlighted <= self.max_index()
        &&& self.scroll == self.highlighted
    }

    /// The state after the quit command.
    pub open spec fn quit(self) -> AppView {
        AppView { exit: true, ..self }
    }

    /// The state after a move up: both indices go down by one and stop at 0.
    pub open spec fn move_up(self) -> AppView {
        AppView {
            scroll: if self.scroll == 0 { 0 } else { (self.scroll - 1) as nat },
            highlighted: if self.highlighted == 0 { 0 } else { (self.highlighted - 1) as nat },
            ..self
        }
    }

    /// The state after a move down: both indices go up by one and stop at the
    /// last entry.
    pub open spec fn move_down(self) -> AppView {
        AppView {
            scroll: if self.scroll < self.max_index() { self.scroll + 1 } else { self.max_index() },
            highlighted: if self.highlighted < self.max_index() {
                self.highlighted + 1
            } else {
                self.max_index()
            },
            ..self
        }
    }

    /// The state after a pressed key: the three command keys act, every
    /// other key leaves the state as it is.
    pub open spec fn on_key(self, code: KeyCode) -> AppView {
        match code {
            KeyCode::Char(c) => if c == KEY_QUIT {
                self.quit()
            } else if c == KEY_UP {
                self.move_up()
            } else if c == KEY_DOWN {
                self.move_down()
            } else {
                self
            },
            KeyCode::Other => self,
        }
    }

    /// The state after an event: only a key press acts.
    pub open spec fn on_event(self, event: Event) -> AppView {
        match event {
            Event::Key(key_event) => match key_event.kind {
                KeyEventKind::Press => self.on_key(key_event.code),
                _ => self,
            },
            Event::Other => self,
        }
    }

    /// The state after every event of `events`, taken in order.
    pub open spec fn on_events(self, events: Seq<Event>) -> AppView
        decreases events.len(),
    {
        if events.len() == 0 {
            self
        } else {
            self.on_event(events[0]).on_events(events.skip(1))
        }
    }

    /// How many of `events` the control loop takes: it takes one event per
    /// turn and stops once the viewer has ended or the events run out.
    pub open spec fn taken(self, events: Seq<Event>) -> nat
        decreases events.len(),
    {
        if self.exit || events.len() == 0 {
            0
        } else {
            1 + self.on_event(events[0]).taken(events.skip(1))
        }
    }

    /// The state in which the control loop stops when it is fed `events`.
    pub open spec fn run(self, events: Seq<Event>) -> AppView
        decreases events.len(),
    {
        if self.exit || events.len() == 0 {
            self
        } else {
            self.on_event(events[0]).run(events.skip(1))
        }
    }

    /// The frame that shows this state: every entry's line, offset by the
    /// scroll offset itself.
    pub open spec fn screen(self) -> ScreenView {
        ScreenView {
            title: title_text(),
            legend: legend_spans(),
            lines: line_spans(self.bindings, self.highlighted),
            scroll: self.scroll,
        }
    }
}

impl View for App {
    type V = AppView;

    closed spec fn view(&self) -> AppView {
        AppView {
            bindings: bindings_view(self.bindings@),
            exit: self.exit,
            scroll: self.scroll as nat,
            highlighted: self.highlighted as nat,
        }
    }
}

impl App {
    /// Every viewer is in a valid state.
    #[verifier::type_invariant]
    spec fn inv(self) -> bool {
        self@.valid()
    }

    /// A viewer over `bindings`, running, with the first entry selected.
    /// There is none over an empty list.
    pub fn new(bindings: Vec<Binding>) -> (app: Option<App>)
        ensures
            app is Some <==> bindings.len() >= 1,
            app matches Some(a) ==> a@ == (AppView {
                bindings: bindings_view(bindings@),
                exit: false,
                scroll: 0,
                highlighted: 0,
            }),
    {
        if bindings.len() == 0 {
            None
        } else {
            Some(App { bindings, exit: false, scroll: 0, highlighted: 0 })
        }
    }

    /// Ends the viewer.
    pub fn exit(&mut self)
        ensures
            final(self)@ == old(self)@.quit(),
            final(self)@.valid(),
    {
        proof {
            use_type_invariant(&*self);
        }
        self.exit = true;
    }

    /// Acts on a pressed key.
    pub fn handle_key_event(&mut self, key_event: KeyEvent)
        ensures
            final(self)@ == old(self)@.on_key(key_event.code),
            final(self)@.valid(),
    {
        proof {
            use_type_invariant(&*self);
        }
        match key_event.code {
            KeyCode::Char(c) => {
                if c == KEY_QUIT {
                    self.exit();
                } else if c == KEY_UP {
                    let highlighted = self.highlighted.saturating_sub(1);
                    let scroll = self.scroll.saturating_sub(1);
                    move_to(&mut self.scroll, &mut self.highlighted, scroll, highlighted);
                } else if c == KEY_DOWN {
                    let max_idx = self.bindings.len().saturating_sub(1);
                    let highlighted = self.highlighted.saturating_add(1).min(max_idx);
                    let scroll = self.scroll.saturating_add(1).min(max_idx);
                    move_to(&mut self.scroll, &mut self.highlighted, scroll, highlighted);
                }
            },
            KeyCode::Other => {},
        }
    }

    /// Acts on an event: a key press goes to [`App::handle_key_event`],
    /// anything else is dropped.
    pub fn handle_events(&mut self, event: Event)
        ensures
            final(self)@ == old(self)@.on_event(event),
            final(self)@.valid(),
    {
        proof {
            use_type_invariant(&*self);
        }
        match event {
            Event::Key(key_event) => match key_event.kind {
                KeyEventKind::Press => self.handle_key_event(key_event),
                _ => {},
            },
            Event::Other => {},
        }
    }

    /// The control loop, fed with the events that its reads would return.
    /// Each turn stands for one frame shown and one event read: as long as
    /// the viewer has not ended and events are left, the next event is taken
    /// and acted on. Returns the number of turns.
    pub fn run(&mut self, events: &[Event]) -> (taken: usize)
        ensures
            final(self)@ == old(self)@.run(events@),
            taken == old(self)@.taken(events@),
            final(self)@.valid(),
    {
        proof {
            use_type_invariant(&*self);
        }
        let mut i: usize = 0;
        assert(events@.skip(0) == events@);
        while i < events.len() && !self.exit
            invariant
                i <= events.len(),
                self@.valid(),
                old(self)@.run(events@) == self@.run(events@.skip(i as int)),
                old(self)@.taken(events@) == i + self@.taken(events@.skip(i as int)),
            decreases events.len() - i,
        {
            assert(events@.skip(i as int).skip(1) == events@.skip(i + 1));
            self.handle_events(events[i]);
            i += 1;
        }
        i
    }

    /// The frame that shows the current state. The state is left as it is.
    pub fn render(&self) -> (screen: Screen)
        ensures
            screen@ == self@.screen(),
            self@.valid(),
    {
        proof {
            use_type_invariant(self);
        }
        Screen {
            title: String::from_str(" Your Keybinds  "),
            legend: legend(),
            lines: lines(&self.bindings, self.highlighted),
            scroll: self.scroll,
        }
    }

    /// The entries, in the order in which they were loaded.
    pub fn bindings(&self) -> (bindings: &Vec<Binding>)
        ensures
            bindings_view(bindings@) == self@.bindings,
            self@.valid(),
    {
        proof {
            use_type_invariant(self);
        }
        &self.bindings
    }

    /// Whether the viewer has ended.
    pub fn exited(&self) -> (exit: bool)
        ensures
            exit == self@.exit,
            self@.valid(),
    {
        proof {
            use_type_invariant(self);
        }
        self.exit
    }

    /// The number of entries that the display skips.
    pub fn scroll(&self) -> (scroll: usize)
        ensures
            scroll == self@.scroll,
            self@.valid(),
    {
        proof {
            use_type_invariant(self);
        }
        self.scroll
    }

    /// The index of the selected entry.
    pub fn highlighted(&self) -> (highlighted: usize)
        ensures
            highlighted == self@.highlighted,
            self@.valid(),
    {
        proof {
            use_type_invariant(self);
        }
        self.highlighted
    }
}

/// Moves both indices at once, so that no state is seen in which they
/// differ.
fn move_to(
    scroll: &mut usize,
    highlighted: &mut usize,
    new_scroll: usize,
    new_highlighted: usize,
)
    ensures
        *final(scroll) == new_scroll,
        *final(highlighted) == new_highlighted,
    no_unwind
{
    *highlighted = new_highlighted;
    *scroll = new_scroll;
}

} // verus!

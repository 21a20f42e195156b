//! The scratchpad: its screen layout and how it answers input events.
use vstd::prelude::*;

use crate::geometry::{clamp_position, new_rect_view, rect_contains, Point, Rect};
use crate::note::{spec_next_priority, NoteRequest, Priority};

verus! {

pub const SCREEN_WIDTH: u32 = 320;
pub const SCREEN_HEIGHT: u32 = 568;
/// Space between the two buttons.
pub const BETWEEN_PADDING: u32 = 10;
/// Space between the buttons and the screen's edges.
pub const EDGE_PADDING: u32 = 20;
pub const INPUT_FIELD_HEIGHT: u32 = 30;
pub const INPUT_FIELD_WIDTH: u32 = 200;
/// The user that the scratchpad posts notes for.
pub const SCRATCHPAD_USER_ID: u32 = 2;

/// Where the scratchpad's controls lie on the screen.
#[derive(Clone, Copy, Debug)]
pub struct Layout {
    pub priority_button: Rect,
    pub jot_button: Rect,
    pub username_input: Rect,
    pub password_input: Rect,
}

/// The vertical position of the buttons' top edge: one edge padding above the
/// bottom of the screen.
pub open spec fn button_top(button_height: u32) -> int {
    SCREEN_HEIGHT - button_height - EDGE_PADDING
}

/// The rectangle of an input field of the login box, centred `dy` pixels below
/// the middle of the screen (above it for a negative `dy`).
pub open spec fn input_field_rect(dy: int) -> (int, int, int, int) {
    (
        clamp_position(SCREEN_WIDTH / 2 - INPUT_FIELD_WIDTH / 2),
        clamp_position(SCREEN_HEIGHT / 2 + dy - INPUT_FIELD_HEIGHT / 2),
        INPUT_FIELD_WIDTH as int,
        INPUT_FIELD_HEIGHT as int,
    )
}

/// Lays out the scratchpad for buttons of the given size (that of the button
/// artwork): the priority button at the bottom left, the jot button to its
/// right, and the username and password fields in the middle of the screen.
pub fn layout(button_width: u32, button_height: u32) -> (l: Layout)
    requires
        button_height <= SCREEN_HEIGHT - EDGE_PADDING,
        button_width <= u32::MAX - EDGE_PADDING - BETWEEN_PADDING,
    ensures
        l.priority_button@ == new_rect_view(EDGE_PADDING as int, button_top(button_height), button_width, button_height),
        l.jot_button@ == new_rect_view(
            (EDGE_PADDING + BETWEEN_PADDING + button_width) as u32 as i32 as int,
            button_top(button_height),
            button_width,
            button_height,
        ),
        l.username_input@ == input_field_rect(-(BETWEEN_PADDING as int)),
        l.password_input@ == input_field_rect(INPUT_FIELD_HEIGHT as int),
{
    let top = (SCREEN_HEIGHT - button_height - EDGE_PADDING) as i32;
    let priority_button = Rect::new(EDGE_PADDING as i32, top, button_width, button_height);
    let jot_button = Rect::new(
        (EDGE_PADDING + BETWEEN_PADDING + button_width) as i32,
        top,
        button_width,
        button_height,
    );
    let username_input = Rect::from_center(
        Point::new((SCREEN_WIDTH / 2) as i32, (SCREEN_HEIGHT / 2 - BETWEEN_PADDING) as i32),
        INPUT_FIELD_WIDTH,
        INPUT_FIELD_HEIGHT,
    );
    let password_input = Rect::from_center(
        Point::new((SCREEN_WIDTH / 2) as i32, (SCREEN_HEIGHT / 2 + INPUT_FIELD_HEIGHT) as i32),
        INPUT_FIELD_WIDTH,
        INPUT_FIELD_HEIGHT,
    );
    Layout { priority_button, jot_button, username_input, password_input }
}

/// What the user is typing into: the login box, or the scratchpad's note.
#[derive(Debug)]
pub enum TextState {
    Login { userbuf: String, passbuf: String, pass_selected: bool },
    Scratchpad { textbuf: String },
}

/// The contents of a `TextState`.
pub enum TextStateView {
    Login { user: Seq<char>, pass: Seq<char>, pass_selected: bool },
    Scratchpad { text: Seq<char> },
}

impl View for TextState {
    type V = TextStateView;

    open spec fn view(&self) -> TextStateView {
        match self {
            TextState::Login { userbuf, passbuf, pass_selected } => TextStateView::Login {
                user: userbuf@,
                pass: passbuf@,
                pass_selected: *pass_selected,
            },
            TextState::Scratchpad { textbuf } => TextStateView::Scratchpad { text: textbuf@ },
        }
    }
}

impl TextState {
    /// The empty login box, with the username field selected.
    pub fn login() -> (s: TextState)
        ensures
            s@ == (TextStateView::Login { user: Seq::empty(), pass: Seq::empty(), pass_selected: false }),
    {
        TextState::Login { userbuf: String::new(), passbuf: String::new(), pass_selected: false }
    }

    /// The empty scratchpad.
    pub fn scratchpad() -> (s: TextState)
        ensures
            s@ == (TextStateView::Scratchpad { text: Seq::empty() }),
    {
        TextState::Scratchpad { textbuf: String::new() }
    }
}

/// An input event, as the scratchpad's window reports it.
#[derive(Debug)]
pub enum InputEvent {
    /// The window is closed.
    Quit,
    /// The text being typed now reads `text`.
    TextEditing { text: String },
    /// The Tab key is pressed.
    TabDown,
    /// A mouse button is pressed at (`x`, `y`).
    MouseButtonDown { x: i32, y: i32 },
    /// Any other event.
    Other,
}

/// What the program must do after an event.
#[derive(Debug)]
pub enum Command {
    /// Keep running.
    Continue,
    /// Leave the event loop.
    Quit,
    /// Send this note to the inbox.
    PostNote(NoteRequest),
}

/// The contents of a `Command`.
pub enum CommandView {
    Continue,
    Quit,
    PostNote { user_id: u32, text: Seq<char>, priority: Priority },
}

impl View for Command {
    type V = CommandView;

    open spec fn view(&self) -> CommandView {
        match self {
            Command::Continue => CommandView::Continue,
            Command::Quit => CommandView::Quit,
            Command::PostNote(req) => CommandView::PostNote {
                user_id: req.user_id,
                text: req.text@,
                priority: req.priority,
            },
        }
    }
}

/// The scratchpad's state: what is being typed, and the priority the next note gets.
#[derive(Debug)]
pub struct Scratchpad {
    pub state: TextState,
    pub priority: Priority,
}

/// The contents of a `Scratchpad`.
pub struct ScratchpadView {
    pub state: TextStateView,
    pub priority: Priority,
}

impl View for Scratchpad {
    type V = ScratchpadView;

    open spec fn view(&self) -> ScratchpadView {
        ScratchpadView { state: self.state@, priority: self.priority }
    }
}

/// Whether (`x`, `y`) lies within the left, top, width and height of `r`, edges
/// written out: `r.0 <= x < r.0 + r.2` and `r.1 <= y < r.1 + r.3`.
pub open spec fn in_rect(r: (int, int, int, int), x: int, y: int) -> bool {
    &&& r.0 <= x
    &&& x < r.0 + r.2
    &&& r.1 <= y
    &&& y < r.1 + r.3
}

/// How the scratchpad answers `event`, from the state `s`, with its controls laid
/// out as in `l`: the next state and the command.
///
/// - Closing the window quits.
/// - Typed text replaces the selected login field, or the note.
/// - Tab switches the login box between its username and password fields.
/// - A click on the scratchpad (the point clamped as for any point) on the priority
///   button moves to the next priority; one on the jot button posts the note with the
///   current priority and empties it. Clicks on the login box do nothing.
pub open spec fn step(s: ScratchpadView, event: InputEvent, l: Layout) -> (ScratchpadView, CommandView) {
    match event {
        InputEvent::Quit => (s, CommandView::Quit),
        InputEvent::TextEditing { text } => {
            let state = match s.state {
                TextStateView::Login { user, pass, pass_selected } => if pass_selected {
                    TextStateView::Login { user, pass: text@, pass_selected }
                } else {
                    TextStateView::Login { user: text@, pass, pass_selected }
                },
                TextStateView::Scratchpad { .. } => TextStateView::Scratchpad { text: text@ },
            };
            (ScratchpadView { state, priority: s.priority }, CommandView::Continue)
        },
        InputEvent::TabDown => {
            let state = match s.state {
                TextStateView::Login { user, pass, pass_selected } => TextStateView::Login {
                    user,
                    pass,
                    pass_selected: !pass_selected,
                },
                other => other,
            };
            (ScratchpadView { state, priority: s.priority }, CommandView::Continue)
        },
        InputEvent::MouseButtonDown { x, y } => {
            let px = clamp_position(x as int);
            let py = clamp_position(y as int);
            match s.state {
                TextStateView::Scratchpad { text } => if rect_contains(l.priority_button@, px, py) {
                    (
                        ScratchpadView { state: s.state, priority: spec_next_priority(s.priority) },
                        CommandView::Continue,
                    )
                } else if rect_contains(l.jot_button@, px, py) {
                    (
                        ScratchpadView {
                            state: TextStateView::Scratchpad { text: Seq::empty() },
                            priority: s.priority,
                        },
                        CommandView::PostNote {
                            user_id: SCRATCHPAD_USER_ID,
                            text,
                            priority: s.priority,
                        },
                    )
                } else {
                    (s, CommandView::Continue)
                },
                _ => (s, CommandView::Continue),
            }
        },
        InputEvent::Other => (s, CommandView::Continue),
    }
}

impl Scratchpad {
    /// The scratchpad as it starts: on the empty login box, with low priority.
    pub fn new() -> (s: Scratchpad)
        ensures
            s@ == (ScratchpadView {
                state: TextStateView::Login { user: Seq::empty(), pass: Seq::empty(), pass_selected: false },
                priority: Priority::LOW,
            }),
    {
        Scratchpad { state: TextState::login(), priority: Priority::LOW }
    }

    /// Answers one input event; see `step`.
    pub fn handle(&mut self, event: InputEvent, layout: &Layout) -> (c: Command)
        ensures
            (final(self)@, c@) == step(old(self)@, event, *layout),
            event matches InputEvent::MouseButtonDown { x, y }
                && !in_rect(layout.priority_button@, clamp_position(x as int), clamp_position(y as int))
                && !in_rect(layout.jot_button@, clamp_position(x as int), clamp_position(y as int))
                ==> final(self)@ == old(self)@ && c@ == CommandView::Continue,
            event is MouseButtonDown && !(c@ is PostNote) ==> final(self)@.state == old(self)@.state,
            !(event is MouseButtonDown) ==> final(self)@.priority == old(self)@.priority,
    {
        let mut state = TextState::scratchpad();
        std::mem::swap(&mut state, &mut self.state);
        let (new_state, command) = match event {
            InputEvent::Quit => (state, Command::Quit),
            InputEvent::TextEditing { text } => {
                let new_state = match state {
                    TextState::Login { userbuf, passbuf, pass_selected } => if pass_selected {
                        TextState::Login { userbuf, passbuf: text, pass_selected }
                    } else {
                        TextState::Login { userbuf: text, passbuf, pass_selected }
                    },
                    TextState::Scratchpad { .. } => TextState::Scratchpad { textbuf: text },
                };
                (new_state, Command::Continue)
            },
            InputEvent::TabDown => {
                let new_state = match state {
                    TextState::Login { userbuf, passbuf, pass_selected } => TextState::Login {
                        userbuf,
                        passbuf,
                        pass_selected: !pass_selected,
                    },
                    other => other,
                };
                (new_state, Command::Continue)
            },
            InputEvent::MouseButtonDown { x, y } => {
                let p = Point::new(x, y);
                match state {
                    TextState::Scratchpad { textbuf } => {
                        if layout.priority_button.contains_point(p) {
                            self.priority = self.priority.next();
                            (TextState::Scratchpad { textbuf }, Command::Continue)
                        } else if layout.jot_button.contains_point(p) {
                            let req = NoteRequest {
                                user_id: SCRATCHPAD_USER_ID,
                                text: textbuf,
                                priority: self.priority,
                            };
                            (TextState::scratchpad(), Command::PostNote(req))
                        } else {
                            (TextState::Scratchpad { textbuf }, Command::Continue)
                        }
                    },
                    other => (other, Command::Continue),
                }
            },
            InputEvent::Other => (state, Command::Continue),
        };
        self.state = new_state;
        command
    }
}

/// What an input field shows: the typed text, or the field's name as a placeholder
/// (drawn in grey) while nothing is typed. The flag tells whether it is the placeholder.
pub fn field_text<'a>(input: &'a str, default: &'a str) -> (r: (&'a str, bool))
    ensures
        input@.len() == 0 ==> r.0@ == default@ && r.1,
        input@.len() > 0 ==> r.0@ == input@ && !r.1,
{
    if input.is_empty() {
        (default, true)
    } else {
        (input, false)
    }
}

/// The priority and jot buttons never overlap (for buttons narrow enough that the
/// jot button's position fits in a rectangle), so no click presses both.
pub proof fn lemma_buttons_disjoint(button_width: u32, button_height: u32, x: int, y: int)
    requires
        button_width + EDGE_PADDING + BETWEEN_PADDING <= crate::geometry::MAX_INT_VALUE,
        button_height <= SCREEN_HEIGHT - EDGE_PADDING,
    ensures
        !(rect_contains(new_rect_view(EDGE_PADDING as int, button_top(button_height), button_width, button_height), x, y)
            && rect_contains(
                new_rect_view(
                    (EDGE_PADDING + BETWEEN_PADDING + button_width) as u32 as i32 as int,
                    button_top(button_height),
                    button_width,
                    button_height,
                ),
                x,
                y,
            )),
{
}

/// Pressing Tab twice leaves the scratchpad as it was.
pub proof fn lemma_tab_twice(s: ScratchpadView, first: InputEvent, second: InputEvent, l: Layout)
    requires
        first is TabDown,
        second is TabDown,
    ensures
        step(step(s, first, l).0, second, l).0 == s,
{
}

/// Only a click on the priority button of the scratchpad changes the priority, and
/// it moves it to the next one; every other event keeps it.
pub proof fn lemma_only_priority_button_changes_priority(s: ScratchpadView, event: InputEvent, l: Layout)
    ensures
        step(s, event, l).0.priority == s.priority || (step(s, event, l).0.priority == spec_next_priority(
            s.priority,
        ) && s.state is Scratchpad && (event matches InputEvent::MouseButtonDown { x, y } && rect_contains(
            l.priority_button@,
            clamp_position(x as int),
            clamp_position(y as int),
        ))),
{
}

/// A note is posted only from the scratchpad by a click, and it carries the text
/// that was typed and the current priority; afterwards the note being typed is empty.
pub proof fn lemma_posted_note_is_typed_note(s: ScratchpadView, event: InputEvent, l: Layout)
    requires
        step(s, event, l).1 is PostNote,
    ensures
        event is MouseButtonDown,
        s.state matches TextStateView::Scratchpad { text } && step(s, event, l).1 == (CommandView::PostNote {
            user_id: SCRATCHPAD_USER_ID,
            text,
            priority: s.priority,
        }),
        step(s, event, l).0.state == (TextStateView::Scratchpad { text: Seq::empty() }),
        step(s, event, l).0.priority == s.priority,
{
}

/// Typing replaces exactly the selected field: the other login field, the field
/// selection and the priority stay as they were.
pub proof fn lemma_typing_replaces_selected_field(s: ScratchpadView, text: String, event: InputEvent, l: Layout)
    requires
        event == (InputEvent::TextEditing { text }),
    ensures
        step(s, event, l).1 == CommandView::Continue,
        step(s, event, l).0.priority == s.priority,
        match (s.state, step(s, event, l).0.state) {
            (
                TextStateView::Login { user, pass, pass_selected },
                TextStateView::Login { user: user2, pass: pass2, pass_selected: sel2 },
            ) => sel2 == pass_selected && (if pass_selected {
                user2 == user && pass2 == text@
            } else {
                user2 == text@ && pass2 == pass
            }),
            (TextStateView::Scratchpad { .. }, TextStateView::Scratchpad { text: t2 }) => t2 == text@,
            _ => false,
        },
{
}

/// A click that lands on neither button changes nothing: the note, the login
/// fields and the priority stay as they were, and the scratchpad keeps running.
pub proof fn lemma_click_elsewhere_changes_nothing(s: ScratchpadView, x: i32, y: i32, event: InputEvent, l: Layout)
    requires
        event == (InputEvent::MouseButtonDown { x, y }),
        !in_rect(l.priority_button@, clamp_position(x as int), clamp_position(y as int)),
        !in_rect(l.jot_button@, clamp_position(x as int), clamp_position(y as int)),
    ensures
        step(s, event, l) == (s, CommandView::Continue),
{
}

/// A click above both buttons (on the note area of the screen) never changes the
/// priority nor posts or erases the note.
pub proof fn lemma_click_above_buttons(s: ScratchpadView, x: i32, y: i32, event: InputEvent, l: Layout)
    requires
        event == (InputEvent::MouseButtonDown { x, y }),
        clamp_position(y as int) < l.priority_button@.1,
        clamp_position(y as int) < l.jot_button@.1,
    ensures
        step(s, event, l).0 == s,
        step(s, event, l).1 == CommandView::Continue,
{
}

} // verus!

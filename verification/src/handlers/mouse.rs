//! Mouse handlers: interaction state, hit testing for the chat, the input
//! line and the toolbar, and gesture recognition.

use std::time::{Duration, Instant};
use vstd::prelude::*;

use crate::clock::{
    duration_from_millis, duration_nanos, instant_elapsed, instant_now, instant_since, spec_duration_from_millis,
    spec_duration_nanos,
};
use crate::handlers::events::{MouseEvent, MouseEventKind, PointerButton};
use crate::handlers::input::ParsedMouseEvent;

verus! {

/// `(col, row)` lies in the rectangle at `(x, y)` of the given size.
pub open spec fn spec_in_area(col: u16, row: u16, x: u16, y: u16, width: u16, height: u16) -> bool {
    col >= x && col < x + width && row >= y && row < y + height
}

/// The hit test only adds `x + width` once `col >= x` holds, and `y +
/// height` once the column is inside; those sums must fit in 16 bits.
pub open spec fn spec_area_sums_fit(col: u16, row: u16, x: u16, y: u16, width: u16, height: u16) -> bool {
    &&& col >= x ==> x + width <= u16::MAX
    &&& (col >= x && col < x + width && row >= y) ==> y + height <= u16::MAX
}

fn in_area(col: u16, row: u16, x: u16, y: u16, width: u16, height: u16) -> (r: bool)
    requires
        spec_area_sums_fit(col, row, x, y, width, height),
    ensures
        r == spec_in_area(col, row, x, y, width, height),
{
    col >= x && col < x + width && row >= y && row < y + height
}

/// Distance in one axis as the original computes it on 16-bit signed
/// values.
pub open spec fn spec_signed_diff(a: u16, b: u16) -> int {
    (a as i16) as int - (b as i16) as int
}

/// The difference fits in 16 bits and its absolute value does too.
pub open spec fn spec_diff_ok(a: u16, b: u16) -> bool {
    -32767 <= spec_signed_diff(a, b) <= 32767
}

pub open spec fn spec_abs(v: int) -> int {
    if v < 0 { -v } else { v }
}

fn abs_diff16(a: u16, b: u16) -> (r: i16)
    requires
        spec_diff_ok(a, b),
    ensures
        r as int == spec_abs(spec_signed_diff(a, b)),
{
    let d: i16 = (a as i16) - (b as i16);
    if d < 0 {
        -d
    } else {
        d
    }
}

/// Mouse interaction state.
#[derive(Debug)]
pub struct MouseContext {
    pub position: (u16, u16),
    pub pressed_buttons: Vec<PointerButton>,
    pub is_dragging: bool,
    pub drag_start: Option<(u16, u16)>,
    pub last_click: Option<(u16, u16)>,
    pub last_click_time: Option<Instant>,
}

/// Whether a click at `(x, y)`, `elapsed_ms` after the last click at
/// `last`, is the second click of a double click: within two cells in each
/// axis and under half a second.
pub open spec fn spec_is_double_click(last: (u16, u16), x: u16, y: u16, elapsed_ms: u128) -> bool {
    spec_abs(spec_signed_diff(x, last.0)) <= 2 && spec_abs(spec_signed_diff(y, last.1)) <= 2 && elapsed_ms < 500
}

/// Whether a click is the second click of a double click, given the last
/// click position and the milliseconds elapsed since it.
pub fn is_double_click(last: (u16, u16), x: u16, y: u16, elapsed_ms: u128) -> (r: bool)
    requires
        spec_diff_ok(x, last.0),
        spec_diff_ok(y, last.1),
    ensures
        r == spec_is_double_click(last, x, y, elapsed_ms),
{
    let dx = abs_diff16(x, last.0);
    let dy = abs_diff16(y, last.1);
    dx <= 2 && dy <= 2 && elapsed_ms < 500
}

impl MouseContext {
    /// No button pressed, at the origin, no click seen yet.
    pub fn new() -> (r: Self)
        ensures
            r.position == (0u16, 0u16),
            r.pressed_buttons@ == Seq::<PointerButton>::empty(),
            !r.is_dragging,
            r.drag_start is None,
            r.last_click is None,
            r.last_click_time is None,
    {
        MouseContext {
            position: (0, 0),
            pressed_buttons: Vec::new(),
            is_dragging: false,
            drag_start: None,
            last_click: None,
            last_click_time: None,
        }
    }

    /// Follow a mouse event: a press records the button, the click position
    /// and time and the drag start; a release forgets that button and ends
    /// any drag; a drag, or a move with a button held, starts dragging.
    pub fn update(&mut self, event: &MouseEvent)
        ensures
            final(self).position == (event.column, event.row),
            match event.kind {
                MouseEventKind::Down(b) => {
                    &&& final(self).pressed_buttons@ == old(self).pressed_buttons@.push(b)
                    &&& final(self).last_click == Some((event.column, event.row))
                    &&& final(self).last_click_time is Some
                    &&& final(self).drag_start == Some((event.column, event.row))
                    &&& final(self).is_dragging == old(self).is_dragging
                },
                MouseEventKind::Up(b) => {
                    &&& final(self).pressed_buttons@ == old(self).pressed_buttons@.filter(|x: PointerButton| x != b)
                    &&& !final(self).is_dragging
                    &&& final(self).drag_start is None
                    &&& final(self).last_click == old(self).last_click
                    &&& final(self).last_click_time == old(self).last_click_time
                },
                MouseEventKind::Drag(_) => {
                    &&& final(self).pressed_buttons == old(self).pressed_buttons
                    &&& final(self).is_dragging
                    &&& final(self).drag_start == old(self).drag_start
                    &&& final(self).last_click == old(self).last_click
                    &&& final(self).last_click_time == old(self).last_click_time
                },
                MouseEventKind::Moved => {
                    &&& final(self).pressed_buttons == old(self).pressed_buttons
                    &&& final(self).is_dragging == (old(self).is_dragging || old(self).pressed_buttons@.len() > 0)
                    &&& final(self).drag_start == old(self).drag_start
                    &&& final(self).last_click == old(self).last_click
                    &&& final(self).last_click_time == old(self).last_click_time
                },
                _ => {
                    &&& final(self).pressed_buttons == old(self).pressed_buttons
                    &&& final(self).is_dragging == old(self).is_dragging
                    &&& final(self).drag_start == old(self).drag_start
                    &&& final(self).last_click == old(self).last_click
                    &&& final(self).last_click_time == old(self).last_click_time
                },
            },
    {
        let parsed = ParsedMouseEvent::from_event(event);
        self.position = (parsed.column, parsed.row);
        match event.kind {
            MouseEventKind::Down(button) => {
                self.pressed_buttons.push(button);
                self.last_click = Some((parsed.column, parsed.row));
                self.last_click_time = Some(instant_now());
                self.drag_start = Some((parsed.column, parsed.row));
            },
            MouseEventKind::Up(button) => {
                let mut kept: Vec<PointerButton> = Vec::new();
                let mut i: usize = 0;
                while i < self.pressed_buttons.len()
                    invariant
                        i <= self.pressed_buttons@.len(),
                        kept@ == self.pressed_buttons@.take(i as int).filter(|x: PointerButton| x != button),
                    decreases self.pressed_buttons@.len() - i,
                {
                    proof {
                        reveal_with_fuel(Seq::<_>::filter, 1);
                        assert(self.pressed_buttons@.take(i + 1).drop_last() =~= self.pressed_buttons@.take(i as int));
                    }
                    let b = self.pressed_buttons[i];
                    if b != button {
                        kept.push(b);
                    }
                    i = i + 1;
                }
                proof {
                    assert(self.pressed_buttons@.take(self.pressed_buttons@.len() as int) =~= self.pressed_buttons@);
                }
                self.pressed_buttons = kept;
                self.is_dragging = false;
                self.drag_start = None;
            },
            MouseEventKind::Drag(_) => {
                self.is_dragging = true;
            },
            MouseEventKind::Moved => {
                if self.pressed_buttons.len() > 0 {
                    self.is_dragging = true;
                }
            },
            _ => {},
        }
    }

    /// Whether `button` is held.
    pub fn is_button_pressed(&self, button: PointerButton) -> (r: bool)
        ensures
            r == self.pressed_buttons@.contains(button),
    {
        let mut i: usize = 0;
        while i < self.pressed_buttons.len()
            invariant
                i <= self.pressed_buttons@.len(),
                forall|j: int| 0 <= j < i ==> self.pressed_buttons@[j] != button,
            decreases self.pressed_buttons@.len() - i,
        {
            if self.pressed_buttons[i] == button {
                return true;
            }
            i = i + 1;
        }
        false
    }

    /// Whether some button is held.
    pub fn any_button_pressed(&self) -> (r: bool)
        ensures
            r == (self.pressed_buttons@.len() > 0),
    {
        self.pressed_buttons.len() > 0
    }

    pub fn is_dragging(&self) -> (r: bool)
        ensures
            r == self.is_dragging,
    {
        self.is_dragging
    }

    pub fn drag_start(&self) -> (r: Option<(u16, u16)>)
        ensures
            r == self.drag_start,
    {
        self.drag_start
    }

    pub fn position(&self) -> (r: (u16, u16))
        ensures
            r == self.position,
    {
        self.position
    }

    /// Whether the pointer lies in the given rectangle.
    pub fn is_in_rect(&self, x: u16, y: u16, width: u16, height: u16) -> (r: bool)
        requires
            spec_area_sums_fit(self.position.0, self.position.1, x, y, width, height),
        ensures
            r == spec_in_area(self.position.0, self.position.1, x, y, width, height),
    {
        let (cx, cy) = self.position;
        in_area(cx, cy, x, y, width, height)
    }

    /// Whether `event` is the second click of a double click: the last
    /// click is near and was under half a second ago. The time elapsed is
    /// read from the clock.
    pub fn check_double_click(&mut self, event: &MouseEvent) -> (r: bool)
        requires
            old(self).last_click matches Some(p) ==> spec_diff_ok(event.column, p.0) && spec_diff_ok(event.row, p.1),
        ensures
            *final(self) == *old(self),
            r ==> (old(self).last_click matches Some(p) && old(self).last_click_time is Some
                && spec_abs(spec_signed_diff(event.column, p.0)) <= 2
                && spec_abs(spec_signed_diff(event.row, p.1)) <= 2),
    {
        let parsed = ParsedMouseEvent::from_event(event);
        let now = instant_now();
        if let (Some(last), Some(last_time)) = (self.last_click, &self.last_click_time) {
            let gap = instant_since(&now, last_time);
            let elapsed = duration_nanos(&gap) / 1_000_000;
            if is_double_click(last, parsed.column, parsed.row, elapsed) {
                return true;
            }
        }
        false
    }

    /// Back to the initial state.
    pub fn reset(&mut self)
        ensures
            final(self).position == (0u16, 0u16),
            final(self).pressed_buttons@ == Seq::<PointerButton>::empty(),
            !final(self).is_dragging,
            final(self).drag_start is None,
            final(self).last_click is None,
            final(self).last_click_time is None,
    {
        *self = MouseContext::new();
    }
}

impl Default for MouseContext {
    fn default() -> (r: Self)
        ensures
            r.position == (0u16, 0u16),
            r.pressed_buttons@ == Seq::<PointerButton>::empty(),
            !r.is_dragging,
            r.drag_start is None,
            r.last_click is None,
            r.last_click_time is None,
    {
        MouseContext::new()
    }
}

/// Chat mouse actions.
#[derive(Debug, Clone, Copy, PartialEq, Eq, Structural)]
pub enum ChatMouseAction {
    MessageClick(usize),
    ChatClick(u16, u16),
    ScrollUp,
    ScrollDown,
    ContextMenu(u16, u16),
    Nothing,
}

/// Input mouse actions.
#[derive(Debug, Clone, Copy, PartialEq, Eq, Structural)]
pub enum InputMouseAction {
    SetCursor(usize),
    DragCursor(usize),
    ContextMenuAt(usize),
    Nothing,
}

/// Toolbar mouse actions.
#[derive(Debug, Clone, PartialEq, Eq)]
pub enum ToolbarMouseAction {
    ButtonPress(String),
    ButtonRelease(String),
    Nothing,
}

/// The chat's answer to a mouse event inside its area `(x, y, w, h)`: a
/// left press on a visible message row clicks that message, elsewhere it
/// clicks the chat; a right press opens the context menu; the wheel
/// scrolls.
pub open spec fn spec_chat_mouse(event: MouseEvent, area: (u16, u16, u16, u16), visible_start: usize, visible_count: usize) -> ChatMouseAction {
    let (x, y, width, height) = area;
    if !spec_in_area(event.column, event.row, x, y, width, height) {
        ChatMouseAction::Nothing
    } else {
        match event.kind {
            MouseEventKind::Down(PointerButton::Left) => {
                let relative_y = event.row - y;
                if relative_y < height && visible_start + relative_y < visible_start + visible_count {
                    ChatMouseAction::MessageClick((visible_start + relative_y) as usize)
                } else {
                    ChatMouseAction::ChatClick(event.column, event.row)
                }
            },
            MouseEventKind::Down(PointerButton::Right) => ChatMouseAction::ContextMenu(event.column, event.row),
            MouseEventKind::ScrollUp => ChatMouseAction::ScrollUp,
            MouseEventKind::ScrollDown => ChatMouseAction::ScrollDown,
            _ => ChatMouseAction::Nothing,
        }
    }
}

/// Mouse handler for the chat area.
#[derive(Debug, Clone, Copy, PartialEq, Eq, Structural)]
pub struct ChatMouseHandler {
    click_padding: u16,
}

impl ChatMouseHandler {
    pub closed spec fn spec_click_padding(&self) -> u16 {
        self.click_padding
    }

    /// No click padding.
    pub fn new() -> (r: Self)
        ensures
            r.spec_click_padding() == 0,
    {
        ChatMouseHandler { click_padding: 0 }
    }

    /// The given click padding.
    pub fn with_padding(padding: u16) -> (r: Self)
        ensures
            r.spec_click_padding() == padding,
    {
        ChatMouseHandler { click_padding: padding }
    }

    /// The chat's answer to a mouse event; `chat_area` is `(x, y, width,
    /// height)` and the visible messages are `visible_start ..
    /// visible_start + visible_count`.
    pub fn handle_chat_mouse(
        &self,
        event: &MouseEvent,
        chat_area: (u16, u16, u16, u16),
        message_count: usize,
        visible_start: usize,
        visible_count: usize,
    ) -> (r: ChatMouseAction)
        requires
            spec_area_sums_fit(event.column, event.row, chat_area.0, chat_area.1, chat_area.2, chat_area.3),
            (spec_in_area(event.column, event.row, chat_area.0, chat_area.1, chat_area.2, chat_area.3)
                && event.kind == MouseEventKind::Down(PointerButton::Left))
                ==> visible_start + (event.row - chat_area.1) <= usize::MAX && visible_start + visible_count <= usize::MAX,
        ensures
            r == spec_chat_mouse(*event, chat_area, visible_start, visible_count),
    {
        let parsed = ParsedMouseEvent::from_event(event);
        let (x, y, width, height) = chat_area;
        if !self.is_in_area(parsed.column, parsed.row, x, y, width, height) {
            return ChatMouseAction::Nothing;
        }
        match event.kind {
            MouseEventKind::Down(PointerButton::Left) => {
                let relative_y = if parsed.row >= y { parsed.row - y } else { 0 };
                if relative_y < height {
                    let message_index = visible_start + relative_y as usize;
                    if message_index < visible_start + visible_count {
                        return ChatMouseAction::MessageClick(message_index);
                    }
                }
                ChatMouseAction::ChatClick(parsed.column, parsed.row)
            },
            MouseEventKind::Down(PointerButton::Right) => ChatMouseAction::ContextMenu(parsed.column, parsed.row),
            MouseEventKind::ScrollUp => ChatMouseAction::ScrollUp,
            MouseEventKind::ScrollDown => ChatMouseAction::ScrollDown,
            _ => ChatMouseAction::Nothing,
        }
    }

    /// Whether `(col, row)` lies in the rectangle at `(x, y)`.
    pub fn is_in_area(&self, col: u16, row: u16, x: u16, y: u16, width: u16, height: u16) -> (r: bool)
        requires
            spec_area_sums_fit(col, row, x, y, width, height),
        ensures
            r == spec_in_area(col, row, x, y, width, height),
    {
        in_area(col, row, x, y, width, height)
    }

    pub fn click_padding(&self) -> (r: u16)
        ensures
            r == self.spec_click_padding(),
    {
        self.click_padding
    }
}

impl Default for ChatMouseHandler {
    fn default() -> (r: Self)
        ensures
            r.spec_click_padding() == 0,
    {
        ChatMouseHandler::new()
    }
}

/// The input line's answer to a mouse event on its first row: presses and
/// left drags put the cursor at the column within the line.
pub open spec fn spec_input_mouse(event: MouseEvent, area: (u16, u16, u16, u16)) -> (InputMouseAction, Option<usize>) {
    let (x, y, width, _h) = area;
    if !spec_in_area(event.column, event.row, x, y, width, 1) {
        (InputMouseAction::Nothing, None)
    } else {
        let pos = (event.column - x) as usize;
        match event.kind {
            MouseEventKind::Down(PointerButton::Left) => (InputMouseAction::SetCursor(pos), Some(pos)),
            MouseEventKind::Down(PointerButton::Right) => (InputMouseAction::ContextMenuAt(pos), Some(pos)),
            MouseEventKind::Drag(PointerButton::Left) => (InputMouseAction::DragCursor(pos), Some(pos)),
            _ => (InputMouseAction::Nothing, None),
        }
    }
}

/// Mouse handler for the input composer.
#[derive(Debug, Clone, Copy, PartialEq, Eq, Structural)]
pub struct InputMouseHandler {
    cursor_width: u16,
}

impl InputMouseHandler {
    pub closed spec fn spec_cursor_width(&self) -> u16 {
        self.cursor_width
    }

    pub fn new() -> (r: Self)
        ensures
            r.spec_cursor_width() == 0,
    {
        InputMouseHandler { cursor_width: 0 }
    }

    pub fn with_cursor_width(width: u16) -> (r: Self)
        ensures
            r.spec_cursor_width() == width,
    {
        InputMouseHandler { cursor_width: width }
    }

    /// The input line's answer to a mouse event; `input_area` is `(x, y,
    /// width, height)`, of which only the first row counts.
    pub fn handle_input_mouse(&self, event: &MouseEvent, input_area: (u16, u16, u16, u16), text_length: usize)
        -> (r: (InputMouseAction, Option<usize>))
        requires
            spec_area_sums_fit(event.column, event.row, input_area.0, input_area.1, input_area.2, 1),
        ensures
            r == spec_input_mouse(*event, input_area),
    {
        let parsed = ParsedMouseEvent::from_event(event);
        let (x, y, width, _height) = input_area;
        if !self.is_in_area(parsed.column, parsed.row, x, y, width, 1) {
            return (InputMouseAction::Nothing, None);
        }
        let relative_x = parsed.column - x;
        let cursor_pos = relative_x as usize;
        match event.kind {
            MouseEventKind::Down(PointerButton::Left) => (InputMouseAction::SetCursor(cursor_pos), Some(cursor_pos)),
            MouseEventKind::Down(PointerButton::Right) => (InputMouseAction::ContextMenuAt(cursor_pos), Some(cursor_pos)),
            MouseEventKind::Drag(PointerButton::Left) => (InputMouseAction::DragCursor(cursor_pos), Some(cursor_pos)),
            _ => (InputMouseAction::Nothing, None),
        }
    }

    /// Whether `(col, row)` lies in the rectangle at `(x, y)`.
    pub fn is_in_area(&self, col: u16, row: u16, x: u16, y: u16, width: u16, height: u16) -> (r: bool)
        requires
            spec_area_sums_fit(col, row, x, y, width, height),
        ensures
            r == spec_in_area(col, row, x, y, width, height),
    {
        in_area(col, row, x, y, width, height)
    }

    pub fn cursor_width(&self) -> (r: u16)
        ensures
            r == self.spec_cursor_width(),
    {
        self.cursor_width
    }
}

impl Default for InputMouseHandler {
    fn default() -> (r: Self)
        ensures
            r.spec_cursor_width() == 0,
    {
        InputMouseHandler::new()
    }
}

/// Toolbar button definition.
#[derive(Debug, Clone, PartialEq, Eq)]
pub struct ToolbarButton {
    pub id: String,
    pub text: String,
    pub x: u16,
    pub y: u16,
    pub width: u16,
    pub enabled: bool,
}

impl ToolbarButton {
    /// An enabled button.
    pub fn new(id: String, text: String, x: u16, y: u16, width: u16) -> (r: Self)
        ensures
            r == (ToolbarButton { id, text, x, y, width, enabled: true }),
    {
        ToolbarButton { id, text, x, y, width, enabled: true }
    }

    /// A button, enabled or not.
    pub fn with_enabled(id: String, text: String, x: u16, y: u16, width: u16, enabled: bool) -> (r: Self)
        ensures
            r == (ToolbarButton { id, text, x, y, width, enabled }),
    {
        ToolbarButton { id, text, x, y, width, enabled }
    }
}

/// The pointer is over the button (same row, column within its width).
pub open spec fn spec_over_button(b: ToolbarButton, col: u16, row: u16) -> bool {
    col >= b.x && col < b.x + b.width && row == b.y
}

/// Whether an event on a button presses or releases it.
pub open spec fn spec_button_event(kind: MouseEventKind) -> bool {
    kind == MouseEventKind::Down(PointerButton::Left) || kind == MouseEventKind::Up(PointerButton::Left)
}

/// Mouse handler for the toolbar.
#[derive(Debug, Clone, PartialEq, Eq)]
pub struct ToolbarMouseHandler {
    buttons: Vec<ToolbarButton>,
}

impl ToolbarMouseHandler {
    pub closed spec fn spec_buttons(&self) -> Seq<ToolbarButton> {
        self.buttons@
    }

    pub fn new() -> (r: Self)
        ensures
            r.spec_buttons() == Seq::<ToolbarButton>::empty(),
    {
        ToolbarMouseHandler { buttons: Vec::new() }
    }

    /// Add a button after the others.
    pub fn add_button(&mut self, button: ToolbarButton)
        ensures
            final(self).spec_buttons() == old(self).spec_buttons().push(button),
    {
        self.buttons.push(button);
    }

    /// The first button under the pointer on which a left press or release
    /// happens is pressed or released; otherwise nothing.
    pub fn handle_toolbar_mouse(&self, event: &MouseEvent) -> (r: ToolbarMouseAction)
        requires
            forall|i: int| 0 <= i < self.spec_buttons().len() ==>
                (event.column >= #[trigger] self.spec_buttons()[i].x ==> self.spec_buttons()[i].x + self.spec_buttons()[i].width <= u16::MAX),
        ensures
            match r {
                ToolbarMouseAction::Nothing => forall|i: int| 0 <= i < self.spec_buttons().len() ==>
                    !(spec_over_button(#[trigger] self.spec_buttons()[i], event.column, event.row) && spec_button_event(event.kind)),
                ToolbarMouseAction::ButtonPress(id) => exists|i: int| 0 <= i < self.spec_buttons().len()
                    && spec_over_button(#[trigger] self.spec_buttons()[i], event.column, event.row)
                    && self.spec_buttons()[i].id == id
                    && event.kind == MouseEventKind::Down(PointerButton::Left)
                    && forall|j: int| 0 <= j < i ==> !(spec_over_button(#[trigger] self.spec_buttons()[j], event.column, event.row) && spec_button_event(event.kind)),
                ToolbarMouseAction::ButtonRelease(id) => exists|i: int| 0 <= i < self.spec_buttons().len()
                    && spec_over_button(#[trigger] self.spec_buttons()[i], event.column, event.row)
                    && self.spec_buttons()[i].id == id
                    && event.kind == MouseEventKind::Up(PointerButton::Left)
                    && forall|j: int| 0 <= j < i ==> !(spec_over_button(#[trigger] self.spec_buttons()[j], event.column, event.row) && spec_button_event(event.kind)),
            },
    {
        let parsed = ParsedMouseEvent::from_event(event);
        let mut i: usize = 0;
        while i < self.buttons.len()
            invariant
                i <= self.buttons@.len(),
                parsed.column == event.column,
                parsed.row == event.row,
                self.spec_buttons() == self.buttons@,
                forall|k: int| 0 <= k < self.spec_buttons().len() ==>
                    (event.column >= #[trigger] self.spec_buttons()[k].x ==> self.spec_buttons()[k].x + self.spec_buttons()[k].width <= u16::MAX),
                forall|j: int| 0 <= j < i ==> !(spec_over_button(#[trigger] self.buttons@[j], event.column, event.row) && spec_button_event(event.kind)),
            decreases self.buttons@.len() - i,
        {
            let button = &self.buttons[i];
            if parsed.column >= button.x && parsed.column < button.x + button.width && parsed.row == button.y {
                proof {
                    assert(spec_over_button(self.spec_buttons()[i as int], event.column, event.row));
                }
                match event.kind {
                    MouseEventKind::Down(PointerButton::Left) => {
                        return ToolbarMouseAction::ButtonPress(button.id.clone());
                    },
                    MouseEventKind::Up(PointerButton::Left) => {
                        return ToolbarMouseAction::ButtonRelease(button.id.clone());
                    },
                    _ => {},
                }
            }
            i = i + 1;
        }
        ToolbarMouseAction::Nothing
    }

    /// The buttons, in order.
    pub fn buttons(&self) -> (r: &[ToolbarButton])
        ensures
            r@ == self.spec_buttons(),
    {
        self.buttons.as_slice()
    }
}

impl Default for ToolbarMouseHandler {
    fn default() -> (r: Self)
        ensures
            r.spec_buttons() == Seq::<ToolbarButton>::empty(),
    {
        ToolbarMouseHandler::new()
    }
}

/// Swipe direction.
#[derive(Debug, Clone, Copy, PartialEq, Eq, Structural)]
pub enum SwipeDirection {
    Up,
    Down,
    Left,
    Right,
}

/// The swipe from `start` to `(cx, cy)` under a threshold: horizontal
/// first, then vertical, once the distance reaches the threshold.
pub open spec fn spec_swipe(threshold: u16, start: (u16, u16), cx: u16, cy: u16) -> Option<SwipeDirection> {
    let dx = spec_abs(spec_signed_diff(cx, start.0));
    let dy = spec_abs(spec_signed_diff(cy, start.1));
    let t = (threshold as i16) as int;
    if dx >= t {
        Some(if cx > start.0 { SwipeDirection::Right } else { SwipeDirection::Left })
    } else if dy >= t {
        Some(if cy > start.1 { SwipeDirection::Down } else { SwipeDirection::Up })
    } else {
        None
    }
}

/// Mouse gesture recognizer.
#[derive(Debug)]
pub struct MouseGestureRecognizer {
    swipe_threshold: u16,
    long_press_duration: Duration,
    gesture_start: Option<(u16, u16)>,
    gesture_start_time: Option<Instant>,
}

/// Whether a gesture that has lasted `elapsed_ns` nanoseconds has reached a
/// long press of `long_press_ns` nanoseconds.
pub fn long_press_reached(elapsed_ns: u128, long_press_ns: u128) -> (r: bool)
    ensures
        r == (elapsed_ns >= long_press_ns),
{
    elapsed_ns >= long_press_ns
}

impl MouseGestureRecognizer {
    pub closed spec fn spec_threshold(&self) -> u16 {
        self.swipe_threshold
    }

    pub closed spec fn spec_long_press(&self) -> Duration {
        self.long_press_duration
    }

    pub closed spec fn spec_start(&self) -> Option<(u16, u16)> {
        self.gesture_start
    }

    pub closed spec fn spec_timing(&self) -> bool {
        self.gesture_start_time is Some
    }

    /// A recognizer with the given thresholds and no gesture under way.
    pub fn with_thresholds(swipe_threshold: u16, long_press_duration: Duration) -> (r: Self)
        ensures
            r.spec_threshold() == swipe_threshold,
            r.spec_long_press() == long_press_duration,
            r.spec_start() is None,
            !r.spec_timing(),
    {
        MouseGestureRecognizer {
            swipe_threshold,
            long_press_duration,
            gesture_start: None,
            gesture_start_time: None,
        }
    }

    /// A recognizer with zero thresholds.
    pub fn new() -> (r: Self)
        ensures
            r.spec_threshold() == 0,
            r.spec_long_press() == spec_duration_from_millis(0),
            spec_duration_nanos(r.spec_long_press()) == 0,
            r.spec_start() is None,
            !r.spec_timing(),
    {
        MouseGestureRecognizer::with_thresholds(0, duration_from_millis(0))
    }

    /// Start a gesture at `(x, y)` now.
    pub fn start_gesture(&mut self, x: u16, y: u16)
        ensures
            final(self).spec_start() == Some((x, y)),
            final(self).spec_timing(),
            final(self).spec_threshold() == old(self).spec_threshold(),
            final(self).spec_long_press() == old(self).spec_long_press(),
    {
        self.gesture_start = Some((x, y));
        self.gesture_start_time = Some(instant_now());
    }

    /// End the gesture under way.
    pub fn end_gesture(&mut self)
        ensures
            final(self).spec_start() is None,
            !final(self).spec_timing(),
            final(self).spec_threshold() == old(self).spec_threshold(),
            final(self).spec_long_press() == old(self).spec_long_press(),
    {
        self.gesture_start = None;
        self.gesture_start_time = None;
    }

    /// Whether the gesture under way has lasted the long-press duration:
    /// the time since it started is read from the clock and compared, in
    /// nanoseconds, by `long_press_reached`. Never without a gesture;
    /// always with one where the long-press duration is zero.
    pub fn check_long_press(&self) -> (r: bool)
        ensures
            r ==> self.spec_timing(),
            self.spec_timing() && spec_duration_nanos(self.spec_long_press()) == 0 ==> r,
    {
        match &self.gesture_start_time {
            Some(start) => {
                let elapsed = instant_elapsed(start);
                long_press_reached(duration_nanos(&elapsed), duration_nanos(&self.long_press_duration))
            },
            None => false,
        }
    }

    /// The swipe from the gesture start to `(current_x, current_y)`, if any.
    pub fn check_swipe(&self, current_x: u16, current_y: u16) -> (r: Option<SwipeDirection>)
        requires
            self.spec_start() matches Some(s) ==> spec_diff_ok(current_x, s.0) && spec_diff_ok(current_y, s.1),
        ensures
            r == match self.spec_start() {
                Some(s) => spec_swipe(self.spec_threshold(), s, current_x, current_y),
                None => None,
            },
    {
        if let Some((start_x, start_y)) = self.gesture_start {
            let dx = abs_diff16(current_x, start_x);
            let dy = abs_diff16(current_y, start_y);
            let t = self.swipe_threshold as i16;
            if dx >= t {
                return Some(if current_x > start_x { SwipeDirection::Right } else { SwipeDirection::Left });
            }
            if dy >= t {
                return Some(if current_y > start_y { SwipeDirection::Down } else { SwipeDirection::Up });
            }
        }
        None
    }
}


/// Law: a left press inside the chat area on its row `y + k`, where fewer
/// than `k + 1` messages are not shown, clicks the `k`th visible message,
/// counted from the first one shown; the index lies among the visible
/// messages.
pub proof fn lemma_click_selects_visible_message(
    event: MouseEvent,
    area: (u16, u16, u16, u16),
    visible_start: usize,
    visible_count: usize,
    k: u16,
)
    requires
        event.kind == MouseEventKind::Down(PointerButton::Left),
        spec_in_area(event.column, event.row, area.0, area.1, area.2, area.3),
        event.row == area.1 + k,
        (k as int) < visible_count as int,
        visible_start + visible_count <= usize::MAX,
    ensures
        spec_chat_mouse(event, area, visible_start, visible_count) == ChatMouseAction::MessageClick((visible_start + k) as usize),
        visible_start <= visible_start + k < visible_start + visible_count,
{
}


/// Law: outside the chat area nothing happens; inside it a right press
/// opens the context menu where it is, the wheel scrolls, and a left press
/// below the last visible message clicks the chat itself.
pub proof fn lemma_chat_mouse_elsewhere(
    event: MouseEvent,
    area: (u16, u16, u16, u16),
    visible_start: usize,
    visible_count: usize,
)
    ensures
        !spec_in_area(event.column, event.row, area.0, area.1, area.2, area.3)
            ==> spec_chat_mouse(event, area, visible_start, visible_count) == ChatMouseAction::Nothing,
        spec_in_area(event.column, event.row, area.0, area.1, area.2, area.3) ==> {
            &&& event.kind == MouseEventKind::Down(PointerButton::Right)
                ==> spec_chat_mouse(event, area, visible_start, visible_count) == ChatMouseAction::ContextMenu(event.column, event.row)
            &&& event.kind == MouseEventKind::ScrollUp
                ==> spec_chat_mouse(event, area, visible_start, visible_count) == ChatMouseAction::ScrollUp
            &&& event.kind == MouseEventKind::ScrollDown
                ==> spec_chat_mouse(event, area, visible_start, visible_count) == ChatMouseAction::ScrollDown
            &&& (event.kind == MouseEventKind::Down(PointerButton::Left) && event.row - area.1 >= visible_count)
                ==> spec_chat_mouse(event, area, visible_start, visible_count) == ChatMouseAction::ChatClick(event.column, event.row)
        },
{
}

} // verus!

//! A text field: keyboard editing on top of the text-editing state.
use vstd::prelude::*;

pub mod text_editor;

use crate::cursor::Layout;
use crate::input::{Input, InputCharacter, KeyCode};
use crate::draw_list::{clip_admits, CommandView};
use crate::types::{sat, saturate, Color, Rect, Vec2};
use crate::ui::{lemma_wf_kept, Ui};
use crate::Id;
use text_editor::{char_at, char_or, line_begin_offset, line_end_offset, text_fits, EditboxState};

verus! {

/// A text field.
#[derive(Debug, Clone, Copy)]
pub struct Editbox {
    pub id: Id,
    pub size: Vec2,
    pub multiline: bool,
    pub pos: Option<Vec2>,
    pub line_height: i32,
}

/// Space between the box's left edge and the text, in pixels.
pub const LEFT_MARGIN: i32 = 2;

/// How far `c` moves the pen, from a table of glyph advances indexed by character
/// code; `0` for a code past the table's end.
pub open spec fn advance_of(advances: Seq<i32>, c: char) -> i32 {
    if (c as u32) < advances.len() {
        advances[c as u32 as int]
    } else {
        0
    }
}

/// How far `c` moves the pen; see `advance_of`.
pub fn advance(advances: &Vec<i32>, c: char) -> (r: i32)
    ensures
        r == advance_of(advances@, c),
{
    if (c as u32 as usize) < advances.len() {
        advances[c as u32 as usize]
    } else {
        0
    }
}

/// The pen after `c` is drawn at `pen`: it moves by the glyph's advance, or by one
/// pixel on a line end; in a multi-line box a line end starts a new line.
pub open spec fn pen_step(
    pen: (int, int),
    c: char,
    advances: Seq<i32>,
    multiline: bool,
    line_height: i32,
) -> (int, int) {
    if c != '\n' {
        (sat(pen.0 + advance_of(advances, c)), pen.1)
    } else if multiline {
        (LEFT_MARGIN as int, sat(pen.1 + line_height))
    } else {
        (sat(pen.0 + 1), pen.1)
    }
}

/// Where the pen stands, relative to the box, before character `n` of `text` is drawn.
pub open spec fn pen_at(
    text: Seq<char>,
    advances: Seq<i32>,
    n: nat,
    multiline: bool,
    line_height: i32,
) -> (int, int)
    decreases n,
{
    if n == 0 {
        (LEFT_MARGIN as int, 0)
    } else {
        pen_step(
            pen_at(text, advances, (n - 1) as nat, multiline, line_height),
            char_or(text, n - 1, ' '),
            advances,
            multiline,
            line_height,
        )
    }
}

/// The state and text after `c` is typed at the cursor over the selection.
pub open spec fn typed(s: EditboxState, t: Seq<char>, c: char) -> (EditboxState, Seq<char>) {
    let (s1, t1) = s.spec_delete_selected(t);
    (EditboxState { cursor: (s1.cursor + 1) as u32, ..s1 }, t1.insert(s1.cursor as int, c))
}

/// The state after the Up key: to the same column of the line above, or its end.
pub open spec fn key_up(s: EditboxState, t: Seq<char>, shift: bool) -> EditboxState {
    let len = t.len() as int;
    let to_line_begin = line_begin_offset(t, s.cursor as int);
    let s1 = s.spec_move_cursor(len, -to_line_begin, shift);
    if s1.cursor != 0 {
        let s2 = s1.spec_move_cursor(len, -1, shift);
        let new_to_line_begin = line_begin_offset(t, s2.cursor as int);
        let column = if to_line_begin <= new_to_line_begin {
            to_line_begin
        } else {
            new_to_line_begin
        };
        s2.spec_move_cursor(len, column - new_to_line_begin, shift)
    } else {
        s1
    }
}

/// The state after the Down key: to the same column of the line below, or its end.
pub open spec fn key_down(s: EditboxState, t: Seq<char>, shift: bool) -> EditboxState {
    let len = t.len() as int;
    let to_line_begin = line_begin_offset(t, s.cursor as int);
    let to_line_end = line_end_offset(t, s.cursor as int);
    let s1 = s.spec_move_cursor(len, to_line_end, shift);
    if len != 0 && s1.cursor < len - 1 {
        s1.spec_move_cursor(len, 1, shift).spec_within_line(t, to_line_begin as nat, shift)
    } else {
        s1
    }
}

impl Editbox {
    pub fn new(id: Id, size: Vec2) -> (r: Editbox)
        ensures
            r == (Editbox { id, size, multiline: true, pos: None, line_height: 14 }),
    {
        Editbox { id, size, multiline: true, pos: None, line_height: 14 }
    }

    pub fn multiline(self, multiline: bool) -> (r: Editbox)
        ensures
            r == (Editbox { multiline, ..self }),
    {
        Editbox { multiline, ..self }
    }

    pub fn position(self, pos: Vec2) -> (r: Editbox)
        ensures
            r == (Editbox { pos: Some(pos), ..self }),
    {
        Editbox { pos: Some(pos), ..self }
    }

    pub fn line_height(self, line_height: i32) -> (r: Editbox)
        ensures
            r == (Editbox { line_height, ..self }),
    {
        Editbox { line_height, ..self }
    }

    /// The state and text after one keyboard event.
    pub open spec fn spec_key(self, s: EditboxState, t: Seq<char>, ev: InputCharacter) -> (
        EditboxState,
        Seq<char>,
    ) {
        let len = t.len() as int;
        match ev {
            InputCharacter::Char(c) => if c != '\r' && c != '\n' && (c as u32) < 128 {
                typed(s, t, c)
            } else {
                (s, t)
            },
            InputCharacter::ControlCode { key_code, modifier_shift } => match key_code {
                KeyCode::Enter => if self.multiline {
                    typed(s, t, '\n')
                } else {
                    (s, t)
                },
                KeyCode::Backspace => if s.selection.is_some() {
                    s.spec_delete_selected(t)
                } else if s.cursor > 0 {
                    (EditboxState { cursor: (s.cursor - 1) as u32, ..s }, t.remove(s.cursor - 1))
                } else {
                    (s, t)
                },
                KeyCode::Delete => if s.selection.is_some() {
                    s.spec_delete_selected(t)
                } else if s.cursor < len {
                    (s, t.remove(s.cursor as int))
                } else {
                    (s, t)
                },
                KeyCode::Right => (s.spec_move_cursor(len, 1, modifier_shift), t),
                KeyCode::Left => (s.spec_move_cursor(len, -1, modifier_shift), t),
                KeyCode::Home => (
                    s.spec_move_cursor(len, -line_begin_offset(t, s.cursor as int), modifier_shift),
                    t,
                ),
                KeyCode::End => (
                    s.spec_move_cursor(len, line_end_offset(t, s.cursor as int), modifier_shift),
                    t,
                ),
                KeyCode::Up => (key_up(s, t, modifier_shift), t),
                KeyCode::Down => (key_down(s, t, modifier_shift), t),
                _ => (s, t),
            },
        }
    }

    /// The state and text after the events, in order.
    pub open spec fn spec_keys(self, s: EditboxState, t: Seq<char>, evs: Seq<InputCharacter>) -> (
        EditboxState,
        Seq<char>,
    )
        decreases evs.len(),
    {
        if evs.len() == 0 {
            (s, t)
        } else {
            let (s1, t1) = self.spec_key(s, t, evs[0]);
            self.spec_keys(s1, t1, evs.drop_first())
        }
    }

    /// Applies the queued keyboard events to the text and the editing state, and
    /// empties the queue.
    pub fn apply_keyboard_input(
        &self,
        input_buffer: &mut Vec<InputCharacter>,
        text: &mut Vec<char>,
        state: &mut EditboxState,
    )
        requires
            old(state).within(old(text)@.len() as int),
            old(text)@.len() + old(input_buffer)@.len() + 1 < i32::MAX,
        ensures
            (*final(state), final(text)@) == self.spec_keys(
                *old(state),
                old(text)@,
                old(input_buffer)@,
            ),
            final(input_buffer)@.len() == 0,
            final(state).within(final(text)@.len() as int),
            final(text)@.len() <= old(text)@.len() + old(input_buffer)@.len(),
    {
        let evs = Ghost(input_buffer@);
        assert(evs@.subrange(0, evs@.len() as int) =~= evs@);
        let mut k: usize = 0;
        while k < input_buffer.len()
            invariant
                input_buffer@ == evs@,
                k <= evs@.len(),
                state.within(text@.len() as int),
                text@.len() <= old(text)@.len() + k,
                old(text)@.len() + evs@.len() + 1 < i32::MAX,
                self.spec_keys(*old(state), old(text)@, evs@) == self.spec_keys(
                    *state,
                    text@,
                    evs@.subrange(k as int, evs@.len() as int),
                ),
            decreases evs@.len() - k,
        {
            let ev = input_buffer[k];
            self.apply_key(ev, text, state);
            proof {
                let rest = evs@.subrange(k as int, evs@.len() as int);
                assert(rest[0] == ev);
                assert(rest.drop_first() =~= evs@.subrange(k + 1, evs@.len() as int));
            }
            k += 1;
        }
        proof {
            assert(evs@.subrange(k as int, evs@.len() as int) =~= Seq::<InputCharacter>::empty());
        }
        input_buffer.clear();
    }

    /// Applies one keyboard event.
    fn apply_key(&self, ev: InputCharacter, text: &mut Vec<char>, state: &mut EditboxState)
        requires
            old(state).within(old(text)@.len() as int),
            old(text)@.len() + 2 < i32::MAX,
        ensures
            (*final(state), final(text)@) == self.spec_key(*old(state), old(text)@, ev),
            final(state).within(final(text)@.len() as int),
            final(text)@.len() <= old(text)@.len() + 1,
    {
        proof {
            text_editor::lemma_move_within(*state, text@.len() as int);
        }
        match ev {
            InputCharacter::Char(character) => {
                if character != '\r' && character != '\n' && (character as u32) < 128 {
                    state.insert_character(text, character);
                }
            },
            InputCharacter::ControlCode { key_code, modifier_shift } => {
                match key_code {
                    KeyCode::Enter => {
                        if self.multiline {
                            state.insert_character(text, '\n');
                        }
                    },
                    KeyCode::Backspace => {
                        if state.selection.is_none() {
                            state.delete_current_character(text);
                        } else {
                            state.delete_selected(text);
                        }
                    },
                    KeyCode::Delete => {
                        if state.selection.is_none() {
                            state.delete_next_character(text);
                        } else {
                            state.delete_selected(text);
                        }
                    },
                    KeyCode::Right => {
                        state.move_cursor(text, 1, modifier_shift);
                    },
                    KeyCode::Left => {
                        state.move_cursor(text, -1, modifier_shift);
                    },
                    KeyCode::Home => {
                        let to_line_begin = state.find_line_begin(text);
                        proof {
                            text_editor::lemma_line_begin_bounds(text@, state.cursor as int);
                        }
                        state.move_cursor(text, -(to_line_begin as i32), modifier_shift);
                    },
                    KeyCode::End => {
                        let to_line_end = state.find_line_end(text);
                        proof {
                            text_editor::lemma_line_end_bounds(text@, state.cursor as int);
                        }
                        state.move_cursor(text, to_line_end as i32, modifier_shift);
                    },
                    KeyCode::Up => {
                        let to_line_begin = state.find_line_begin(text);
                        proof {
                            text_editor::lemma_line_begin_bounds(text@, state.cursor as int);
                        }
                        state.move_cursor(text, -(to_line_begin as i32), modifier_shift);
                        if state.cursor != 0 {
                            state.move_cursor(text, -1, modifier_shift);
                            let new_to_line_begin = state.find_line_begin(text);
                            proof {
                                text_editor::lemma_line_begin_bounds(text@, state.cursor as int);
                            }
                            let column = if to_line_begin <= new_to_line_begin {
                                to_line_begin
                            } else {
                                new_to_line_begin
                            };
                            state.move_cursor(
                                text,
                                column as i32 - new_to_line_begin as i32,
                                modifier_shift,
                            );
                        }
                    },
                    KeyCode::Down => {
                        let to_line_begin = state.find_line_begin(text);
                        let to_line_end = state.find_line_end(text);
                        proof {
                            text_editor::lemma_line_begin_bounds(text@, state.cursor as int);
                            text_editor::lemma_line_end_bounds(text@, state.cursor as int);
                        }
                        state.move_cursor(text, to_line_end as i32, modifier_shift);
                        if text.len() != 0 && (state.cursor as usize) < text.len() - 1 {
                            state.move_cursor(text, 1, modifier_shift);
                            let ghost s1 = *state;
                            state.move_cursor_within_line(text, to_line_begin as i32, modifier_shift);
                            proof {
                                text_editor::lemma_within_line_within(
                                    s1,
                                    text@,
                                    to_line_begin as nat,
                                    modifier_shift,
                                );
                            }
                        }
                    },
                    _ => {},
                }
            },
        }
    }

    /// Where the pen stands, relative to the box, before character `n` is drawn.
    pub fn pen_position(&self, text: &Vec<char>, advances: &Vec<i32>, n: usize) -> (r: (i32, i32))
        ensures
            (r.0 as int, r.1 as int) == pen_at(text@, advances@, n as nat, self.multiline, self.line_height),
    {
        let mut x: i32 = LEFT_MARGIN;
        let mut y: i32 = 0;
        let mut k: usize = 0;
        while k < n
            invariant
                k <= n,
                (x as int, y as int) == pen_at(text@, advances@, k as nat, self.multiline, self.line_height),
            decreases n - k,
        {
            let c = char_at(text, k, ' ');
            if c != '\n' {
                x = saturate(x as i64 + advance(advances, c) as i64);
            } else if self.multiline {
                x = LEFT_MARGIN;
                y = saturate(y as i64 + self.line_height as i64);
            } else {
                x = saturate(x as i64 + 1);
            }
            k += 1;
        }
        (x, y)
    }

    /// The mark of a cursor standing before character `n`, in a box at `pos`.
    pub open spec fn cursor_mark(self, pos: Vec2, text: Seq<char>, advances: Seq<i32>, n: nat) -> Rect {
        let pen = pen_at(text, advances, n, self.multiline, self.line_height);
        let at_y = sat(pos.y + pen.1);
        Rect { x: sat(pos.x + pen.0) as i32, y: sat(at_y - 2) as i32, w: 2, h: 13 }
    }

    /// Loads the box's editing state, brings it within the text, and applies the
    /// queued keyboard events when the window has the focus and the box holds its
    /// keyboard; otherwise drops the selection.
    fn edit_text(&self, ui: &mut Ui, i: usize, focused: bool, text: &mut Vec<char>) -> (r:
        EditboxState)
        requires
            old(ui).wf(),
            i < old(ui).windows@.len(),
            old(text)@.len() + old(ui).input.input_buffer@.len() + 1 < i32::MAX,
        ensures
            final(ui).wf(),
            final(ui).windows == old(ui).windows,
            final(ui).window_index == old(ui).window_index,
            final(ui).style == old(ui).style,
            final(ui).active_window == old(ui).active_window,
            final(ui).modal == old(ui).modal,
            final(ui).editbox_states == old(ui).editbox_states,
            final(ui).input == (Input { input_buffer: final(ui).input.input_buffer, ..old(ui).input }),
            r.within(final(text)@.len() as int),
            final(text)@.len() < i32::MAX,
            ({
                let s0 = old(ui).stored_editbox(self.id).spec_fit_to(old(text)@.len() as int);
                let keys = focused && old(ui).windows@[i as int].input_focus == Some(self.id);
                &&& keys ==> (r, final(text)@) == self.spec_keys(
                    s0,
                    old(text)@,
                    old(ui).input.input_buffer@,
                ) && final(ui).input.input_buffer@.len() == 0
                &&& !keys ==> final(text)@ == old(text)@ && r == (EditboxState {
                    selection: None,
                    clicks_counter: 0,
                    ..s0
                }) && final(ui).input == old(ui).input
            }),
    {
        let mut state = ui.get_editbox_state(self.id);
        state.fit_to(text.len());
        let input_focused = match ui.windows[i].input_focus {
            Some(f) => f == self.id,
            None => false,
        };
        if focused && input_focused {
            let ghost u0 = *ui;
            self.apply_keyboard_input(&mut ui.input.input_buffer, text, &mut state);
            proof {
                lemma_wf_kept(u0, *ui);
            }
        } else {
            state.selection = None;
            state.clicks_counter = 0;
        }
        state
    }

    /// Draws the characters of `text` in the window at position `i`, in a box at
    /// `pos`, with the selection of `state`; what was drawn before stays.
    fn draw_glyphs(
        &self,
        ui: &mut Ui,
        i: usize,
        pos: Vec2,
        text: &Vec<char>,
        advances: &Vec<i32>,
        state: &EditboxState,
        color: Color,
    )
        requires
            old(ui).wf(),
            i < old(ui).windows@.len(),
        ensures
            final(ui).wf(),
            final(ui).windows@.len() == old(ui).windows@.len(),
            final(ui).window_index == old(ui).window_index,
            final(ui).windows@[i as int].input_focus == old(ui).windows@[i as int].input_focus,
            final(ui).windows@[i as int].draw_list.clipping_zone == old(
                ui,
            ).windows@[i as int].draw_list.clipping_zone,
            final(ui).windows@[i as int].draw_list.log().len() >= old(
                ui,
            ).windows@[i as int].draw_list.log().len(),
            final(ui).windows@[i as int].draw_list.log().subrange(
                0,
                old(ui).windows@[i as int].draw_list.log().len() as int,
            ) == old(ui).windows@[i as int].draw_list.log(),
            final(ui).input == old(ui).input,
            final(ui).active_window == old(ui).active_window,
            final(ui).modal == old(ui).modal,
    {
        let ghost prefix = ui.windows@[i as int].draw_list.log();
        let ghost zone = ui.windows@[i as int].draw_list.clipping_zone;
        assert(prefix.subrange(0, prefix.len() as int) =~= prefix);
        let selection_color = Color::from_rgba(170, 170, 255, 128);
        let ghost focus = ui.windows@[i as int].input_focus;
        let ghost input = ui.input;
        let ghost index = ui.window_index;
        let ghost t = text@;
        let mut x: i32 = LEFT_MARGIN;
        let mut y: i32 = 0;
        let mut n: usize = 0;
        while n <= text.len() && n < usize::MAX
            invariant
                ui.wf(),
                i < ui.windows@.len(),
                ui.windows@.len() == old(ui).windows@.len(),
                ui.windows@[i as int].input_focus == focus,
                ui.input == input,
                ui.window_index == index,
                ui.active_window == old(ui).active_window,
                ui.modal == old(ui).modal,
                text@ == t,
                n <= t.len() + 1,
                ui.windows@[i as int].draw_list.log().len() >= prefix.len(),
                ui.windows@[i as int].draw_list.log().subrange(0, prefix.len() as int) == prefix,
                ui.windows@[i as int].draw_list.clipping_zone == zone,
            decreases t.len() + 1 - n,
        {
            let c = char_at(text, n, ' ');
            let at = Vec2::new(saturate(pos.x as i64 + x as i64), saturate(pos.y as i64 + y as i64));
            let step: i32 = if c != '\n' {
                let ghost l0 = ui.windows@[i as int].draw_list.log();
                ui.draw_character_in(i, c, at, color);
                assert(ui.windows@[i as int].draw_list.log().subrange(0, prefix.len() as int)
                    =~= l0.subrange(0, prefix.len() as int));
                advance(advances, c)
            } else {
                1
            };
            if state.in_selected_range(n as u32) {
                let ghost l0 = ui.windows@[i as int].draw_list.log();
                ui.draw_rect_in(
                    i,
                    Rect::new(at.x, saturate(at.y as i64 - 2), step, 13),
                    None,
                    Some(selection_color),
                );
                assert(ui.windows@[i as int].draw_list.log().subrange(0, prefix.len() as int)
                    =~= l0.subrange(0, prefix.len() as int));
            }
            x = saturate(x as i64 + step as i64);
            if c == '\n' && self.multiline {
                y = saturate(y as i64 + self.line_height as i64);
                x = LEFT_MARGIN;
            }
            n += 1;
        }
    }

    /// Whether the pointer at `mouse` picks position `n` of `text` in a box at `pos`:
    /// it is on that character's line and over the character, or past the end of a
    /// line at its end, or below the last line at the end of the text.
    pub open spec fn hit_char(self, pos: Vec2, text: Seq<char>, advances: Seq<i32>, mouse: Vec2, n: nat) -> bool {
        let pen = pen_at(text, advances, n, self.multiline, self.line_height);
        let c = char_or(text, n as int, ' ');
        let left = pos.x + pen.0;
        let top = pos.y + pen.1;
        let step = if c != '\n' {
            advance_of(advances, c) as int
        } else {
            1
        };
        let on_line = top <= mouse.y < top + self.line_height;
        let line_end = c == '\n' || n == text.len();
        ||| (on_line && line_end && mouse.x > left)
        ||| (on_line && c != '\n' && left <= mouse.x < left + step)
        ||| (n == text.len() && mouse.y >= top + self.line_height)
    }

    /// The last position before `k` that the pointer picks, if any.
    pub open spec fn char_under(self, pos: Vec2, text: Seq<char>, advances: Seq<i32>, mouse: Vec2, k: nat) -> Option<nat>
        decreases k,
    {
        if k == 0 {
            None
        } else if self.hit_char(pos, text, advances, mouse, (k - 1) as nat) {
            Some((k - 1) as nat)
        } else {
            self.char_under(pos, text, advances, mouse, (k - 1) as nat)
        }
    }

    /// The editing state after the pointer acts on a box at `pos` that holds the
    /// keyboard: a press picks the position under the pointer, a held button drags the
    /// selection to it, and a release ends the click.
    pub open spec fn spec_pointer(
        self,
        s: EditboxState,
        text: Seq<char>,
        advances: Seq<i32>,
        pos: Vec2,
        input: Input,
        input_focused: bool,
        time: u64,
    ) -> EditboxState {
        let s1 = if input_focused && input.is_mouse_down {
            match self.char_under(pos, text, advances, input.mouse_position, (text.len() + 1) as nat) {
                Some(n) => if input.click_down {
                    s.spec_click_down(time, text, n as u32)
                } else {
                    s.spec_click_move(text, n as u32)
                },
                None => s,
            }
        } else {
            s
        };
        if input.click_up && input_focused {
            s1.spec_click_up()
        } else {
            s1
        }
    }

    /// The editing state after this frame's keyboard and pointer, and the text after
    /// the keyboard; see `edit_text` and `spec_pointer`.
    fn update_state(
        &self,
        ui: &mut Ui,
        i: usize,
        focused: bool,
        pos: Vec2,
        text: &mut Vec<char>,
        advances: &Vec<i32>,
    ) -> (r: EditboxState)
        requires
            old(ui).wf(),
            i < old(ui).windows@.len(),
            old(text)@.len() + old(ui).input.input_buffer@.len() + 1 < i32::MAX,
        ensures
            final(ui).wf(),
            final(ui).windows == old(ui).windows,
            final(ui).window_index == old(ui).window_index,
            final(ui).style == old(ui).style,
            final(ui).active_window == old(ui).active_window,
            final(ui).modal == old(ui).modal,
            final(ui).editbox_states == old(ui).editbox_states,
            final(ui).input == (Input { input_buffer: final(ui).input.input_buffer, ..old(ui).input }),
            ({
                let s0 = old(ui).stored_editbox(self.id).spec_fit_to(old(text)@.len() as int);
                let input_focused = old(ui).windows@[i as int].input_focus == Some(self.id);
                let keys = focused && input_focused;
                let after_keys = if keys {
                    self.spec_keys(s0, old(text)@, old(ui).input.input_buffer@)
                } else {
                    (EditboxState { selection: None, clicks_counter: 0, ..s0 }, old(text)@)
                };
                &&& keys ==> final(ui).input.input_buffer@.len() == 0
                &&& !keys ==> final(ui).input == old(ui).input
                &&& final(text)@ == after_keys.1
                &&& r == self.spec_pointer(
                    after_keys.0,
                    after_keys.1,
                    advances@,
                    pos,
                    old(ui).input,
                    input_focused,
                    old(ui).time_ms,
                )
            }),
    {
        let input_focused = match ui.windows[i].input_focus {
            Some(f) => f == self.id,
            None => false,
        };
        let time = ui.time_ms;
        let mut state = self.edit_text(ui, i, focused, text);
        self.pointer_step(&ui.input, time, pos, text, advances, &mut state, input_focused);
        state
    }

    /// Applies the pointer to the editing state; see `spec_pointer`.
    fn pointer_step(
        &self,
        input: &Input,
        time: u64,
        pos: Vec2,
        text: &Vec<char>,
        advances: &Vec<i32>,
        state: &mut EditboxState,
        input_focused: bool,
    )
        requires
            old(state).within(text@.len() as int),
            text_fits(text@),
        ensures
            *final(state) == self.spec_pointer(
                *old(state),
                text@,
                advances@,
                pos,
                *input,
                input_focused,
                time,
            ),
    {
        if input_focused && input.is_mouse_down {
            let mouse = input.mouse_position;
            let mut found: Option<usize> = None;
            let mut x: i32 = LEFT_MARGIN;
            let mut y: i32 = 0;
            let mut n: usize = 0;
            while n <= text.len()
                invariant
                    n <= text@.len() + 1,
                    text_fits(text@),
                    (x as int, y as int) == pen_at(text@, advances@, n as nat, self.multiline, self.line_height),
                    match found {
                        Some(f) => self.char_under(pos, text@, advances@, mouse, n as nat) == Some(f as nat)
                            && f <= text@.len(),
                        None => self.char_under(pos, text@, advances@, mouse, n as nat).is_none(),
                    },
                decreases text@.len() + 1 - n,
            {
                let c = char_at(text, n, ' ');
                let left: i64 = pos.x as i64 + x as i64;
                let top: i64 = pos.y as i64 + y as i64;
                let step: i64 = if c != '\n' {
                    advance(advances, c) as i64
                } else {
                    1
                };
                let lh = self.line_height as i64;
                let on_line = top <= mouse.y as i64 && (mouse.y as i64) < top + lh;
                let line_end = c == '\n' || n == text.len();
                if (on_line && line_end && mouse.x as i64 > left) || (on_line && c != '\n' && left
                    <= mouse.x as i64 && (mouse.x as i64) < left + step) || (n == text.len()
                    && mouse.y as i64 >= top + lh) {
                    found = Some(n);
                }
                if c != '\n' {
                    x = saturate(x as i64 + advance(advances, c) as i64);
                } else if self.multiline {
                    x = LEFT_MARGIN;
                    y = saturate(y as i64 + self.line_height as i64);
                } else {
                    x = saturate(x as i64 + 1);
                }
                n += 1;
            }
            if let Some(k) = found {
                if input.click_down {
                    state.click_down(time, text, k as u32);
                } else {
                    state.click_move(text, k as u32);
                }
            }
        }
        if input.click_up && input_focused {
            state.click_up(text);
        }
    }

    /// Where the box goes in the current window `a`: its fixed position, or the next
    /// row of the layout.
    pub open spec fn spec_pos(self, ui: Ui, a: Id) -> Vec2 {
        match self.pos {
            Some(p) => p,
            None => ui.window(a).cursor.spec_fit_pos(self.size, Layout::Vertical),
        }
    }

    /// Runs the edit box for one frame in the current window. Its editing state is
    /// kept per id and first brought within the text. When the window has the focus
    /// and the box holds its keyboard, the queued keyboard events are applied and the
    /// queue emptied; otherwise the text stays and the selection is dropped. While the
    /// box holds the keyboard, the pointer then picks, drags and ends selections
    /// (`spec_pointer`). A press inside the box gives it the window's keyboard. The text is drawn with the
    /// glyph advances of `advances` (indexed by character code), with the cursor and
    /// the selection. Outside of any window nothing happens.
    #[verifier::rlimit(80)]
    #[verifier::spinoff_prover]
    pub fn ui(self, ui: &mut Ui, text: &mut Vec<char>, advances: &Vec<i32>)
        requires
            old(ui).wf(),
            old(text)@.len() + old(ui).input.input_buffer@.len() + 1 < i32::MAX,
        ensures
            final(ui).wf(),
            match old(ui).active_window {
                None => final(text)@ == old(text)@ && *final(ui) == *old(ui),
                Some(a) => {
                    let s0 = old(ui).stored_editbox(self.id).spec_fit_to(old(text)@.len() as int);
                    let keys = old(ui).spec_is_focused(a) && old(ui).window(a).input_focus == Some(
                        self.id,
                    );
                    let pos = self.spec_pos(*old(ui), a);
                    let rect = Rect { x: pos.x, y: pos.y, w: self.size.x, h: self.size.y };
                    &&& keys ==> final(ui).input.input_buffer@.len() == 0
                    &&& !keys ==> final(ui).input == old(ui).input
                    &&& {
                        let after_keys = if keys {
                            self.spec_keys(s0, old(text)@, old(ui).input.input_buffer@)
                        } else {
                            (EditboxState { selection: None, clicks_counter: 0, ..s0 }, old(text)@)
                        };
                        &&& final(text)@ == after_keys.1
                        &&& final(ui).stored_editbox(self.id) == self.spec_pointer(
                            after_keys.0,
                            after_keys.1,
                            advances@,
                            pos,
                            old(ui).input,
                            old(ui).window(a).input_focus == Some(self.id),
                            old(ui).time_ms,
                        )
                    }
                    &&& final(ui).window(a).input_focus == if old(ui).input.click_down
                        && rect.spec_contains(old(ui).input.mouse_position) {
                        Some(self.id)
                    } else {
                        old(ui).window(a).input_focus
                    }
                    &&& final(ui).window(a).draw_list.clipping_zone == old(ui).window(
                        a,
                    ).draw_list.clipping_zone
                    &&& {
                        let focused = old(ui).spec_is_focused(a);
                        let st = old(ui).style;
                        let zone = old(ui).window(a).draw_list.clipping_zone;
                        let background = if focused {
                            st.button_background_focused
                        } else {
                            st.button_background_inactive
                        };
                        let color = if focused {
                            st.focused_text
                        } else {
                            st.inactive_text
                        };
                        let mark = self.cursor_mark(
                            pos,
                            final(text)@,
                            advances@,
                            final(ui).stored_editbox(self.id).cursor as nat,
                        );
                        let l1 = if clip_admits(zone, rect) {
                            old(ui).window(a).draw_list.log().push(
                                CommandView::Rect { rect, stroke: Some(background), fill: None },
                            )
                        } else {
                            old(ui).window(a).draw_list.log()
                        };
                        let l2 = if clip_admits(zone, mark) {
                            l1.push(CommandView::Rect { rect: mark, stroke: Some(color), fill: None })
                        } else {
                            l1
                        };
                        &&& final(ui).window(a).draw_list.log().len() >= l2.len()
                        &&& final(ui).window(a).draw_list.log().subrange(0, l2.len() as int) == l2
                    }
                },
            },
    {
        let ctx = match ui.get_active_window_context() {
            Some(c) => c,
            None => {
                return ;
            },
        };
        let ghost a = ui.active_window.unwrap();
        let i = ctx.index;
        let pos = match self.pos {
            Some(p) => p,
            None => ui.fit_in(i, self.size, Layout::Vertical),
        };
        let state = self.update_state(ui, i, ctx.focused, pos, text, advances);
        let rect = Rect::from_parts(pos, self.size);
        if ui.input.click_down && rect.contains(ui.input.mouse_position) {
            ui.set_input_focus(i, Some(self.id));
        }
        let background = ui.style.button_background(ctx.focused, false, false);
        ui.draw_rect_in(i, rect, Some(background), None);
        let color = ui.style.text(ctx.focused);
        let (pen_x, pen_y) = self.pen_position(text, advances, state.cursor as usize);
        let at_y = saturate(pos.y as i64 + pen_y as i64);
        let mark = Rect::new(saturate(pos.x as i64 + pen_x as i64), saturate(at_y as i64 - 2), 2, 13);
        ui.draw_rect_in(i, mark, Some(color), None);
        self.draw_glyphs(ui, i, pos, text, advances, &state, color);
        ui.set_editbox_state(self.id, state);
    }
}

impl Ui {
    /// An edit box of `size` in the current window; see `Editbox::ui`.
    pub fn editbox(&mut self, id: Id, size: Vec2, text: &mut Vec<char>, advances: &Vec<i32>)
        requires
            old(self).wf(),
            old(text)@.len() + old(self).input.input_buffer@.len() + 1 < i32::MAX,
        ensures
            final(self).wf(),
            match old(self).active_window {
                None => final(text)@ == old(text)@ && *final(self) == *old(self),
                Some(a) => {
                    let eb = Editbox { id, size, multiline: true, pos: None, line_height: 14 };
                    let s0 = old(self).stored_editbox(id).spec_fit_to(old(text)@.len() as int);
                    let keys = old(self).spec_is_focused(a) && old(self).window(a).input_focus == Some(
                        id,
                    );
                    let pos = eb.spec_pos(*old(self), a);
                    let rect = Rect { x: pos.x, y: pos.y, w: size.x, h: size.y };
                    &&& keys ==> final(self).input.input_buffer@.len() == 0
                    &&& !keys ==> final(self).input == old(self).input
                    &&& {
                        let after_keys = if keys {
                            eb.spec_keys(s0, old(text)@, old(self).input.input_buffer@)
                        } else {
                            (EditboxState { selection: None, clicks_counter: 0, ..s0 }, old(text)@)
                        };
                        &&& final(text)@ == after_keys.1
                        &&& final(self).stored_editbox(id) == eb.spec_pointer(
                            after_keys.0,
                            after_keys.1,
                            advances@,
                            pos,
                            old(self).input,
                            old(self).window(a).input_focus == Some(id),
                            old(self).time_ms,
                        )
                    }
                    &&& final(self).window(a).input_focus == if old(self).input.click_down
                        && rect.spec_contains(old(self).input.mouse_position) {
                        Some(id)
                    } else {
                        old(self).window(a).input_focus
                    }
                },
            },
    {
        Editbox::new(id, size).ui(self, text, advances)
    }
}

} // verus!

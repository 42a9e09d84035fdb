//! The text-editing state of an edit box: cursor, selection and multi-click
//! selection, over a text held as characters.
use vstd::prelude::*;

verus! {

/// What a held button is selecting.
#[derive(Debug, Clone, Copy)]
pub enum ClickState {
    Idle,
    SelectingChars { selection_begin: u32 },
    SelectingWords { selected_word: (u32, u32) },
    SelectingLines { selected_line: (u32, u32) },
    Selected,
}

impl Default for ClickState {
    fn default() -> (r: ClickState)
        ensures
            r == ClickState::Idle,
    {
        ClickState::Idle
    }
}

/// Milliseconds within which a second click at the same place counts as a repeat.
pub const DOUBLE_CLICK_TIME: u64 = 500;

/// The character at `i`, or `d` where `i` is outside the text.
pub open spec fn char_or(text: Seq<char>, i: int, d: char) -> char {
    if 0 <= i < text.len() {
        text[i]
    } else {
        d
    }
}

/// Whether `c` ends a word.
pub open spec fn is_word_delimiter(c: char) -> bool {
    c == ' ' || c == '(' || c == ')' || c == ';' || c == '"'
}

/// How many characters lie between `c` and the start of its line.
pub open spec fn line_begin_offset(text: Seq<char>, c: int) -> int
    decreases c,
{
    if c <= 0 || char_or(text, c - 1, 'x') == '\n' {
        0
    } else {
        1 + line_begin_offset(text, c - 1)
    }
}

/// How many characters lie between `c` and the end of its line.
pub open spec fn line_end_offset(text: Seq<char>, c: int) -> int
    decreases text.len() - c,
{
    if c >= text.len() || text[c] == '\n' {
        0
    } else {
        1 + line_end_offset(text, c + 1)
    }
}

/// How many characters lie between `c` and the start of its word.
pub open spec fn word_begin_offset(text: Seq<char>, c: int) -> int
    decreases c,
{
    if c <= 0 || is_word_delimiter(char_or(text, c - 1, ' ')) || char_or(text, c - 1, ' ') == '\n' {
        0
    } else {
        1 + word_begin_offset(text, c - 1)
    }
}

/// How many characters lie between `c` and the start of the next word: the rest of
/// this word, then the delimiters after it (a line end stops the walk).
pub open spec fn word_end_offset(text: Seq<char>, c: int, skipping: bool) -> int
    decreases text.len() - c,
{
    if c >= text.len() {
        0
    } else {
        let ch = text[c];
        let skip = skipping || is_word_delimiter(ch) || ch == '\n';
        if skip && !is_word_delimiter(ch) {
            0
        } else {
            1 + word_end_offset(text, c + 1, skip)
        }
    }
}

pub proof fn lemma_line_begin_bounds(text: Seq<char>, c: int)
    ensures
        0 <= line_begin_offset(text, c) <= if c >= 0 { c } else { 0 },
    decreases c,
{
    if c > 0 {
        lemma_line_begin_bounds(text, c - 1);
    }
}

pub proof fn lemma_line_end_bounds(text: Seq<char>, c: int)
    ensures
        0 <= line_end_offset(text, c),
        c <= text.len() ==> c + line_end_offset(text, c) <= text.len(),
    decreases text.len() - c,
{
    if c < text.len() {
        lemma_line_end_bounds(text, c + 1);
    }
}

pub proof fn lemma_word_begin_bounds(text: Seq<char>, c: int)
    ensures
        0 <= word_begin_offset(text, c) <= if c >= 0 { c } else { 0 },
    decreases c,
{
    if c > 0 {
        lemma_word_begin_bounds(text, c - 1);
    }
}

pub proof fn lemma_word_end_bounds(text: Seq<char>, c: int, skipping: bool)
    ensures
        0 <= word_end_offset(text, c, skipping),
        c <= text.len() ==> c + word_end_offset(text, c, skipping) <= text.len(),
    decreases text.len() - c,
{
    if c < text.len() {
        let ch = text[c];
        let skip = skipping || is_word_delimiter(ch) || ch == '\n';
        lemma_word_end_bounds(text, c + 1, skip);
    }
}

/// Moving the cursor keeps the cursor and the selection within the text.
pub proof fn lemma_move_within(s: EditboxState, len: int)
    requires
        s.within(len),
    ensures
        forall|dx: int, shift: bool| #[trigger] s.spec_move_cursor(len, dx, shift).within(len),
{
}

/// Stepping right within a line keeps the cursor and the selection within the text.
pub proof fn lemma_within_line_within(s: EditboxState, text: Seq<char>, n: nat, shift: bool)
    requires
        s.within(text.len() as int),
    ensures
        s.spec_within_line(text, n, shift).within(text.len() as int),
    decreases n,
{
    if n > 0 {
        lemma_move_within(s, text.len() as int);
        lemma_within_line_within(s.spec_move_cursor(text.len() as int, 1, shift), text, (n - 1) as nat, shift);
    }
}

/// The editing state of one edit box.
#[derive(Debug, Clone, Copy)]
pub struct EditboxState {
    pub cursor: u32,
    pub click_state: ClickState,
    /// Repeated clicks at one place, counted modulo 3.
    pub clicks_counter: u32,
    pub current_click: u32,
    /// When the last click came, in milliseconds.
    pub last_click_time: u64,
    pub last_click: u32,
    /// The selection as (where it began, where it ends); either may be the larger.
    pub selection: Option<(u32, u32)>,
}

impl EditboxState {
    /// The state of an edit box never used before.
    pub open spec fn spec_fresh() -> EditboxState {
        EditboxState {
            cursor: 0,
            click_state: ClickState::Idle,
            clicks_counter: 0,
            current_click: 0,
            last_click_time: 0,
            last_click: 0,
            selection: None,
        }
    }

    /// The state brought within a text of `len` characters (the text may have been
    /// changed elsewhere): the cursor is clamped, and a selection that reaches past
    /// the end is dropped.
    pub open spec fn spec_fit_to(self, len: int) -> EditboxState {
        EditboxState {
            cursor: if self.cursor > len {
                len as u32
            } else {
                self.cursor
            },
            selection: match self.selection {
                Some((a, b)) => if a <= len && b <= len {
                    self.selection
                } else {
                    None
                },
                None => None,
            },
            ..self
        }
    }

    pub fn fit_to(&mut self, len: usize)
        requires
            len < u32::MAX,
        ensures
            *final(self) == old(self).spec_fit_to(len as int),
            final(self).within(len as int),
    {
        if self.cursor as usize > len {
            self.cursor = len as u32;
        }
        if let Some((a, b)) = self.selection {
            if a as usize > len || b as usize > len {
                self.selection = None;
            }
        }
    }
}

impl Default for EditboxState {
    fn default() -> (r: EditboxState)
        ensures
            r == EditboxState::spec_fresh(),
    {
        EditboxState {
            cursor: 0,
            click_state: ClickState::Idle,
            clicks_counter: 0,
            current_click: 0,
            last_click_time: 0,
            last_click: 0,
            selection: None,
        }
    }
}

/// Whether `text` is short enough for positions and moves within it to be counted in
/// the cursor's integer types.
pub open spec fn text_fits(text: Seq<char>) -> bool {
    text.len() < i32::MAX
}

/// The text with the characters in `[lo, hi)` taken out.
pub open spec fn cut(text: Seq<char>, lo: int, hi: int) -> Seq<char> {
    text.subrange(0, lo) + text.subrange(hi, text.len() as int)
}

impl EditboxState {
    /// The cursor and the selection lie within a text of `len` characters.
    pub open spec fn within(self, len: int) -> bool {
        &&& self.cursor <= len
        &&& match self.selection {
            Some((a, b)) => a <= len && b <= len,
            None => true,
        }
    }

    /// Whether position `cursor` lies in the selection.
    pub open spec fn spec_in_selected_range(self, cursor: u32) -> bool {
        match self.selection {
            Some((a, b)) => if a < b {
                a <= cursor < b
            } else {
                b <= cursor < a
            },
            None => false,
        }
    }

    pub fn in_selected_range(&self, cursor: u32) -> (r: bool)
        ensures
            r == self.spec_in_selected_range(cursor),
    {
        match self.selection {
            Some((start, end)) => {
                if start < end {
                    cursor >= start && cursor < end
                } else {
                    cursor >= end && cursor < start
                }
            },
            None => false,
        }
    }

    /// How many characters lie between the cursor and the start of its line.
    pub fn find_line_begin(&self, text: &Vec<char>) -> (r: u32)
        ensures
            r == line_begin_offset(text@, self.cursor as int),
    {
        let mut line_position: u32 = 0;
        let mut cursor_tmp: u32 = self.cursor;
        while cursor_tmp > 0 && char_at(text, cursor_tmp as usize - 1, 'x') != '\n'
            invariant
                line_position + cursor_tmp == self.cursor,
                line_begin_offset(text@, self.cursor as int) == line_position + line_begin_offset(
                    text@,
                    cursor_tmp as int,
                ),
            decreases cursor_tmp,
        {
            cursor_tmp -= 1;
            line_position += 1;
        }
        line_position
    }

    /// How many characters lie between the cursor and the end of its line.
    pub fn find_line_end(&self, text: &Vec<char>) -> (r: u32)
        requires
            text_fits(text@),
        ensures
            r == if self.cursor <= text@.len() {
                line_end_offset(text@, self.cursor as int)
            } else {
                0
            },
    {
        let mut cursor_tmp: u32 = self.cursor;
        while (cursor_tmp as usize) < text.len() && text[cursor_tmp as usize] != '\n'
            invariant
                self.cursor <= cursor_tmp,
                self.cursor <= text@.len() ==> cursor_tmp <= text@.len(),
                text_fits(text@),
                self.cursor <= text@.len() ==> line_end_offset(text@, self.cursor as int) == (
                cursor_tmp - self.cursor) + line_end_offset(text@, cursor_tmp as int),
                self.cursor > text@.len() ==> cursor_tmp == self.cursor,
            decreases text@.len() - cursor_tmp,
        {
            cursor_tmp += 1;
        }
        cursor_tmp - self.cursor
    }

    /// Whether `character` ends a word.
    pub fn word_delimeter(character: char) -> (r: bool)
        ensures
            r == is_word_delimiter(character),
    {
        character == ' ' || character == '(' || character == ')' || character == ';' || character
            == '"'
    }

    /// How many characters lie between `cursor` and the start of its word.
    pub fn find_word_begin(&self, text: &Vec<char>, cursor: u32) -> (r: u32)
        ensures
            r == word_begin_offset(text@, cursor as int),
    {
        let mut cursor_tmp: u32 = cursor;
        let mut offset: u32 = 0;
        while cursor_tmp > 0 && !Self::word_delimeter(char_at(text, cursor_tmp as usize - 1, ' '))
            && char_at(text, cursor_tmp as usize - 1, ' ') != '\n'
            invariant
                offset + cursor_tmp == cursor,
                word_begin_offset(text@, cursor as int) == offset + word_begin_offset(
                    text@,
                    cursor_tmp as int,
                ),
            decreases cursor_tmp,
        {
            offset += 1;
            cursor_tmp -= 1;
        }
        offset
    }

    /// How many characters lie between `cursor` and the start of the next word.
    pub fn find_word_end(&self, text: &Vec<char>, cursor: u32) -> (r: u32)
        requires
            text_fits(text@),
        ensures
            r == if cursor <= text@.len() {
                word_end_offset(text@, cursor as int, false)
            } else {
                0
            },
    {
        let mut cursor_tmp: u32 = cursor;
        let mut offset: u32 = 0;
        let mut space_skipping = false;
        let mut done = false;
        while !done && (cursor_tmp as usize) < text.len()
            invariant
                offset + cursor == cursor_tmp,
                cursor <= text@.len() ==> cursor_tmp <= text@.len(),
                cursor > text@.len() ==> cursor_tmp == cursor,
                text_fits(text@),
                cursor <= text@.len() ==> word_end_offset(text@, cursor as int, false) == offset
                    + word_end_offset(text@, cursor_tmp as int, space_skipping),
                done ==> word_end_offset(text@, cursor_tmp as int, space_skipping) == 0,
            decreases text@.len() - cursor_tmp, if done { 0int } else { 1int },
        {
            let current_char = text[cursor_tmp as usize];
            let skip = space_skipping || Self::word_delimeter(current_char) || current_char == '\n';
            if skip && !Self::word_delimeter(current_char) {
                done = true;
            } else {
                space_skipping = skip;
                cursor_tmp += 1;
                offset += 1;
            }
        }
        offset
    }

    /// The state after the cursor moves by `dx` in a text of `len` characters: the
    /// new position is clamped into the text; with `shift` the selection is extended
    /// to the new cursor, without it the selection goes.
    pub open spec fn spec_move_cursor(self, len: int, dx: int, shift: bool) -> EditboxState {
        let start = self.cursor;
        let target = self.cursor + dx;
        let end = if target < 0 {
            0u32
        } else if target > len {
            len as u32
        } else {
            target as u32
        };
        let selection = if !shift {
            None
        } else {
            match self.selection {
                None => Some((start, end)),
                Some((a, _)) => Some((a, end)),
            }
        };
        EditboxState { cursor: end, selection, ..self }
    }

    pub fn move_cursor(&mut self, text: &Vec<char>, dx: i32, shift: bool)
        requires
            text_fits(text@),
        ensures
            *final(self) == old(self).spec_move_cursor(text@.len() as int, dx as int, shift),
    {
        let start_cursor = self.cursor;
        let target: i64 = self.cursor as i64 + dx as i64;
        let end_cursor: u32 = if target < 0 {
            0
        } else if target > text.len() as i64 {
            text.len() as u32
        } else {
            target as u32
        };
        self.cursor = end_cursor;
        if !shift {
            self.selection = None;
        } else {
            match self.selection {
                None => self.selection = Some((start_cursor, end_cursor)),
                Some((a, _)) => self.selection = Some((a, end_cursor)),
            }
        }
    }

    /// The state after the selected text is deleted, and the text afterwards; the
    /// cursor goes to where the selection started on the left.
    pub open spec fn spec_delete_selected(self, text: Seq<char>) -> (EditboxState, Seq<char>) {
        match self.selection {
            Some((a, b)) => {
                let lo = if a <= b { a } else { b };
                let hi = if a <= b { b } else { a };
                (EditboxState { cursor: lo, selection: None, ..self }, cut(text, lo as int, hi as int))
            },
            None => (EditboxState { selection: None, ..self }, text),
        }
    }

    pub fn delete_selected(&mut self, text: &mut Vec<char>)
        requires
            old(self).within(old(text)@.len() as int),
        ensures
            (*final(self), final(text)@) == old(self).spec_delete_selected(old(text)@),
            final(self).within(final(text)@.len() as int),
    {
        if let Some((start, end)) = self.selection {
            let lo = if start <= end { start } else { end };
            let hi = if start <= end { end } else { start };
            let mut kept: Vec<char> = Vec::new();
            let mut i: usize = 0;
            while i < lo as usize
                invariant
                    i <= lo,
                    lo <= hi <= text@.len(),
                    kept@ == text@.subrange(0, i as int),
                decreases lo - i,
            {
                kept.push(text[i]);
                i += 1;
                assert(kept@ =~= text@.subrange(0, i as int));
            }
            let mut j: usize = hi as usize;
            while j < text.len()
                invariant
                    lo <= hi <= j <= text@.len(),
                    kept@ == text@.subrange(0, lo as int) + text@.subrange(hi as int, j as int),
                decreases text@.len() - j,
            {
                kept.push(text[j]);
                j += 1;
                assert(kept@ =~= text@.subrange(0, lo as int) + text@.subrange(hi as int, j as int));
            }
            *text = kept;
            self.cursor = lo;
        }
        self.selection = None;
    }

    /// Types `character` at the cursor, replacing the selection if there is one.
    pub fn insert_character(&mut self, text: &mut Vec<char>, character: char)
        requires
            old(self).within(old(text)@.len() as int),
            old(text)@.len() + 1 < i32::MAX,
        ensures
            ({
                let (s1, t1) = old(self).spec_delete_selected(old(text)@);
                &&& final(text)@ == t1.insert(s1.cursor as int, character)
                &&& *final(self) == (EditboxState { cursor: (s1.cursor + 1) as u32, ..s1 })
            }),
            final(self).within(final(text)@.len() as int),
    {
        self.delete_selected(text);
        self.selection = None;
        text.insert(self.cursor as usize, character);
        self.cursor = self.cursor + 1;
    }

    /// Deletes the character after the cursor, if any.
    pub fn delete_next_character(&mut self, text: &mut Vec<char>)
        requires
            old(self).within(old(text)@.len() as int),
        ensures
            *final(self) == *old(self),
            final(text)@ == if old(self).cursor < old(text)@.len() {
                old(text)@.remove(old(self).cursor as int)
            } else {
                old(text)@
            },
            final(self).within(final(text)@.len() as int) || old(self).selection.is_some(),
    {
        if (self.cursor as usize) < text.len() && text.len() != 0 {
            text.remove(self.cursor as usize);
        }
    }

    /// Deletes the character before the cursor, if any, and moves the cursor back.
    pub fn delete_current_character(&mut self, text: &mut Vec<char>)
        requires
            old(self).within(old(text)@.len() as int),
        ensures
            old(self).cursor > 0 ==> final(text)@ == old(text)@.remove(old(self).cursor - 1)
                && *final(self) == (EditboxState { cursor: (old(self).cursor - 1) as u32, ..*old(self) }),
            old(self).cursor == 0 ==> final(text)@ == old(text)@ && *final(self) == *old(self),
    {
        if self.cursor > 0 {
            text.remove(self.cursor as usize - 1);
            self.cursor -= 1;
        }
    }

    /// Moves the cursor to the start of the next word.
    pub fn move_cursor_next_word(&mut self, text: &Vec<char>, shift: bool)
        requires
            text_fits(text@),
            old(self).within(text@.len() as int),
        ensures
            *final(self) == old(self).spec_move_cursor(
                text@.len() as int,
                (if old(self).cursor + 1 <= text@.len() {
                    word_end_offset(text@, old(self).cursor + 1, false)
                } else {
                    0
                }) + 1,
                shift,
            ),
    {
        proof {
            lemma_word_end_bounds(text@, self.cursor + 1, false);
        }
        let next_word = self.find_word_end(text, self.cursor + 1) + 1;
        self.move_cursor(text, next_word as i32, shift);
    }

    /// Moves the cursor to the start of the previous word.
    pub fn move_cursor_prev_word(&mut self, text: &Vec<char>, shift: bool)
        requires
            text_fits(text@),
            old(self).within(text@.len() as int),
        ensures
            old(self).cursor > 1 ==> *final(self) == old(self).spec_move_cursor(
                text@.len() as int,
                -(word_begin_offset(text@, old(self).cursor - 1) + 1),
                shift,
            ),
            old(self).cursor <= 1 ==> *final(self) == *old(self),
    {
        if self.cursor > 1 {
            proof {
                lemma_word_begin_bounds(text@, self.cursor - 1);
            }
            let prev_word = self.find_word_begin(text, self.cursor - 1) + 1;
            self.move_cursor(text, -(prev_word as i32), shift);
        }
    }

    /// The state after the cursor steps right up to `n` times, stopping at a line end.
    pub open spec fn spec_within_line(self, text: Seq<char>, n: nat, shift: bool) -> EditboxState
        decreases n,
    {
        if n == 0 || char_or(text, self.cursor as int, 'x') == '\n' || self.cursor == text.len() {
            self
        } else {
            self.spec_move_cursor(text.len() as int, 1, shift).spec_within_line(
                text,
                (n - 1) as nat,
                shift,
            )
        }
    }

    /// Moves the cursor right by up to `dx` characters without leaving its line.
    pub fn move_cursor_within_line(&mut self, text: &Vec<char>, dx: i32, shift: bool)
        requires
            dx >= 0,
            text_fits(text@),
        ensures
            *final(self) == old(self).spec_within_line(text@, dx as nat, shift),
    {
        let mut k: i32 = 0;
        while k < dx && char_at(text, self.cursor as usize, 'x') != '\n' && (self.cursor as usize)
            != text.len()
            invariant
                0 <= k <= dx,
                text_fits(text@),
                old(self).spec_within_line(text@, dx as nat, shift) == self.spec_within_line(
                    text@,
                    (dx - k) as nat,
                    shift,
                ),
            decreases dx - k,
        {
            self.move_cursor(text, 1, shift);
            k += 1;
        }
    }

    pub fn deselect(&mut self)
        ensures
            *final(self) == (EditboxState { selection: None, ..*old(self) }),
    {
        self.selection = None;
    }

    /// The word under the cursor, as a selection.
    pub open spec fn spec_word(self, text: Seq<char>) -> (u32, u32) {
        (
            (self.cursor - word_begin_offset(text, self.cursor as int)) as u32,
            (self.cursor + word_end_offset(text, self.cursor as int, false)) as u32,
        )
    }

    /// Selects the word under the cursor.
    pub fn select_word(&mut self, text: &Vec<char>) -> (r: (u32, u32))
        requires
            text_fits(text@),
            old(self).cursor <= text@.len(),
        ensures
            r == old(self).spec_word(text@),
            *final(self) == (EditboxState { selection: Some(r), ..*old(self) }),
            r.0 <= r.1 <= text@.len(),
    {
        let to_word_begin = self.find_word_begin(text, self.cursor);
        let to_word_end = self.find_word_end(text, self.cursor);
        proof {
            lemma_word_begin_bounds(text@, self.cursor as int);
            lemma_word_end_bounds(text@, self.cursor as int, false);
        }
        let new_selection = (self.cursor - to_word_begin, self.cursor + to_word_end);
        self.selection = Some(new_selection);
        new_selection
    }

    /// The line under the cursor, as a selection.
    pub open spec fn spec_line(self, text: Seq<char>) -> (u32, u32) {
        (
            (self.cursor - line_begin_offset(text, self.cursor as int)) as u32,
            (self.cursor + line_end_offset(text, self.cursor as int)) as u32,
        )
    }

    /// Selects the line under the cursor.
    pub fn select_line(&mut self, text: &Vec<char>) -> (r: (u32, u32))
        requires
            text_fits(text@),
            old(self).cursor <= text@.len(),
        ensures
            r == old(self).spec_line(text@),
            *final(self) == (EditboxState { selection: Some(r), ..*old(self) }),
            r.0 <= r.1 <= text@.len(),
    {
        let to_line_begin = self.find_line_begin(text);
        let to_line_end = self.find_line_end(text);
        proof {
            lemma_line_begin_bounds(text@, self.cursor as int);
            lemma_line_end_bounds(text@, self.cursor as int);
        }
        let new_selection = (self.cursor - to_line_begin, self.cursor + to_line_end);
        self.selection = Some(new_selection);
        new_selection
    }

    /// Whether a press at `cursor` at `time` repeats the previous click.
    pub open spec fn is_repeat(self, time: u64, cursor: u32) -> bool {
        self.last_click == cursor && (time < self.last_click_time || time - self.last_click_time
            < DOUBLE_CLICK_TIME)
    }

    /// The state after a press at text position `cursor` at `time` (milliseconds): a
    /// repeated click cycles through selecting the word, the line, and nothing; a new
    /// click starts a character selection, or ends the selection under way.
    pub open spec fn spec_click_down(self, time: u64, text: Seq<char>, cursor: u32) -> EditboxState {
        let s = EditboxState { current_click: cursor, last_click_time: time, ..self };
        if self.is_repeat(time, cursor) {
            let count = ((self.clicks_counter % 3 + 1) % 3) as u32;
            if count == 0 {
                EditboxState { clicks_counter: count, selection: None, click_state: ClickState::Idle, ..s }
            } else if count == 1 {
                let w = self.spec_word(text);
                EditboxState {
                    clicks_counter: count,
                    selection: Some(w),
                    click_state: ClickState::SelectingWords { selected_word: w },
                    ..s
                }
            } else {
                let l = self.spec_line(text);
                EditboxState {
                    clicks_counter: count,
                    selection: Some(l),
                    click_state: ClickState::SelectingLines { selected_line: l },
                    ..s
                }
            }
        } else if self.click_state == ClickState::Idle || self.click_state == ClickState::Selected {
            EditboxState {
                clicks_counter: 0,
                click_state: ClickState::SelectingChars { selection_begin: cursor },
                selection: Some((cursor, cursor)),
                ..s
            }
        } else {
            EditboxState {
                clicks_counter: 0,
                click_state: ClickState::Idle,
                selection: None,
                cursor,
                ..s
            }
        }
    }

    pub fn click_down(&mut self, time: u64, text: &Vec<char>, cursor: u32)
        requires
            text_fits(text@),
            old(self).cursor <= text@.len(),
        ensures
            *final(self) == old(self).spec_click_down(time, text@, cursor),
    {
        self.current_click = cursor;
        if self.last_click == self.current_click && (time < self.last_click_time || time
            - self.last_click_time < DOUBLE_CLICK_TIME) {
            self.clicks_counter = (self.clicks_counter % 3 + 1) % 3;
            if self.clicks_counter == 0 {
                self.deselect();
                self.click_state = ClickState::Idle;
            } else if self.clicks_counter == 1 {
                let selected_word = self.select_word(text);
                self.click_state = ClickState::SelectingWords { selected_word };
            } else {
                let selected_line = self.select_line(text);
                self.click_state = ClickState::SelectingLines { selected_line };
            }
        } else {
            self.clicks_counter = 0;
            match self.click_state {
                ClickState::Idle | ClickState::Selected => {
                    self.click_state = ClickState::SelectingChars { selection_begin: cursor };
                    self.selection = Some((cursor, cursor));
                },
                _ => {
                    self.click_state = ClickState::Idle;
                    self.selection = None;
                    self.cursor = cursor;
                },
            }
        }
        self.last_click_time = time;
    }

    /// The state after the held button moves over text position `cursor`: the
    /// selection under way follows, by characters, words or lines.
    pub open spec fn spec_click_move(self, text: Seq<char>, cursor: u32) -> EditboxState {
        let s = EditboxState {
            cursor,
            clicks_counter: if cursor != self.last_click {
                0
            } else {
                self.clicks_counter
            },
            last_click: cursor,
            ..self
        };
        match self.click_state {
            ClickState::SelectingChars { selection_begin } => EditboxState {
                selection: Some((selection_begin, cursor)),
                ..s
            },
            ClickState::SelectingWords { selected_word: (from, to) } => {
                if cursor < from {
                    let word_begin = (cursor - word_begin_offset(text, cursor as int)) as u32;
                    EditboxState { selection: Some((word_begin, to)), cursor: word_begin, ..s }
                } else if cursor > to {
                    let word_end = (cursor + word_end_offset(text, cursor as int, false)) as u32;
                    EditboxState { selection: Some((from, word_end)), cursor: word_end, ..s }
                } else {
                    EditboxState { selection: Some((from, to)), cursor: to, ..s }
                }
            },
            ClickState::SelectingLines { selected_line: (from, to) } => {
                if cursor < from {
                    let line_begin = (cursor - line_begin_offset(text, cursor as int)) as u32;
                    let line_end = (cursor + line_end_offset(text, cursor as int)) as u32;
                    EditboxState { selection: Some((line_begin, to)), cursor: line_end, ..s }
                } else if cursor > to {
                    let line_end = (cursor + line_end_offset(text, cursor as int)) as u32;
                    EditboxState { selection: Some((from, line_end)), cursor: line_end, ..s }
                } else {
                    EditboxState { selection: Some((from, to)), cursor: to, ..s }
                }
            },
            _ => s,
        }
    }

    pub fn click_move(&mut self, text: &Vec<char>, cursor: u32)
        requires
            text_fits(text@),
            cursor <= text@.len(),
        ensures
            *final(self) == old(self).spec_click_move(text@, cursor),
    {
        self.cursor = cursor;
        if self.cursor != self.last_click {
            self.clicks_counter = 0;
        }
        proof {
            lemma_word_begin_bounds(text@, cursor as int);
            lemma_word_end_bounds(text@, cursor as int, false);
            lemma_line_begin_bounds(text@, cursor as int);
            lemma_line_end_bounds(text@, cursor as int);
        }
        match self.click_state {
            ClickState::SelectingChars { selection_begin } => {
                self.selection = Some((selection_begin, cursor));
            },
            ClickState::SelectingWords { selected_word: (from, to) } => {
                if cursor < from {
                    let word_begin = self.cursor - self.find_word_begin(text, self.cursor);
                    self.selection = Some((word_begin, to));
                    self.cursor = word_begin;
                } else if cursor > to {
                    let word_end = self.cursor + self.find_word_end(text, self.cursor);
                    self.selection = Some((from, word_end));
                    self.cursor = word_end;
                } else {
                    self.selection = Some((from, to));
                    self.cursor = to;
                }
            },
            ClickState::SelectingLines { selected_line: (from, to) } => {
                if cursor < from {
                    let line_begin = self.cursor - self.find_line_begin(text);
                    let line_end = self.cursor + self.find_line_end(text);
                    self.selection = Some((line_begin, to));
                    self.cursor = line_end;
                } else if cursor > to {
                    let line_end = self.cursor + self.find_line_end(text);
                    self.selection = Some((from, line_end));
                    self.cursor = line_end;
                } else {
                    self.selection = Some((from, to));
                    self.cursor = to;
                }
            },
            _ => {},
        }
        self.last_click = cursor;
    }

    /// The state after a click ends: a selection that holds characters stays selected.
    pub open spec fn spec_click_up(self) -> EditboxState {
        EditboxState {
            click_state: match self.selection {
                Some((from, to)) => if from != to {
                    ClickState::Selected
                } else {
                    ClickState::Idle
                },
                None => ClickState::Idle,
            },
            ..self
        }
    }

    /// Ends a click: a selection that holds characters stays selected.
    pub fn click_up(&mut self, _text: &Vec<char>)
        ensures
            *final(self) == old(self).spec_click_up(),
    {
        self.click_state = ClickState::Idle;
        if let Some((from, to)) = self.selection {
            if from != to {
                self.click_state = ClickState::Selected;
            }
        }
    }
}

/// The character at `i`, or `d` where `i` is outside the text.
pub fn char_at(text: &Vec<char>, i: usize, d: char) -> (r: char)
    ensures
        r == char_or(text@, i as int, d),
{
    if i < text.len() {
        text[i]
    } else {
        d
    }
}

} // verus!

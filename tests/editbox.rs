use megaui::input::{InputCharacter, KeyCode};
use megaui::style::Style;
use megaui::types::Vec2;
use megaui::ui::Ui;
use megaui::widgets::editbox::text_editor::{ClickState, EditboxState};
use megaui::widgets::editbox::Editbox;

fn chars(s: &str) -> Vec<char> {
    s.chars().collect()
}

fn key(k: KeyCode) -> InputCharacter {
    InputCharacter::ControlCode { key_code: k, modifier_shift: false }
}

#[test]
fn left_home_end_move_the_cursor() {
    let edit = Editbox::new(1, Vec2::new(100, 20));
    let mut text = chars("hello");
    let mut state = EditboxState::default();
    state.cursor = 5;
    let mut keys = vec![key(KeyCode::Left), key(KeyCode::Left), key(KeyCode::Left)];
    edit.apply_keyboard_input(&mut keys, &mut text, &mut state);
    assert_eq!(state.cursor, 2);
    assert!(keys.is_empty());
    let mut keys = vec![key(KeyCode::Home)];
    edit.apply_keyboard_input(&mut keys, &mut text, &mut state);
    assert_eq!(state.cursor, 0);
    let mut keys = vec![key(KeyCode::End)];
    edit.apply_keyboard_input(&mut keys, &mut text, &mut state);
    assert_eq!(state.cursor, 5);
    assert_eq!(text, chars("hello"));
}

#[test]
fn typing_backspace_and_delete() {
    let edit = Editbox::new(1, Vec2::new(100, 20)).multiline(false);
    let mut text = chars("ac");
    let mut state = EditboxState::default();
    state.cursor = 1;
    let mut keys = vec![
        InputCharacter::Char('b'),
        key(KeyCode::Enter),
        InputCharacter::Char('\n'),
        key(KeyCode::Backspace),
        key(KeyCode::Delete),
    ];
    edit.apply_keyboard_input(&mut keys, &mut text, &mut state);
    assert_eq!(text, chars("a"));
    assert_eq!(state.cursor, 1);
}

#[test]
fn shift_selects_and_typing_replaces_selection() {
    let edit = Editbox::new(1, Vec2::new(100, 20));
    let mut text = chars("hello");
    let mut state = EditboxState::default();
    let shift_right = InputCharacter::ControlCode { key_code: KeyCode::Right, modifier_shift: true };
    let mut keys = vec![shift_right, shift_right, InputCharacter::Char('J')];
    edit.apply_keyboard_input(&mut keys, &mut text, &mut state);
    assert_eq!(text, chars("Jllo"));
    assert_eq!(state.cursor, 1);
    assert_eq!(state.selection, None);
}

#[test]
fn up_and_down_keep_the_column() {
    let edit = Editbox::new(1, Vec2::new(100, 20));
    let mut text = chars("abcd\nef\nghij");
    let mut state = EditboxState::default();
    state.cursor = 3;
    let mut keys = vec![key(KeyCode::Down)];
    edit.apply_keyboard_input(&mut keys, &mut text, &mut state);
    assert_eq!(state.cursor, 7);
    let mut keys = vec![key(KeyCode::Down)];
    edit.apply_keyboard_input(&mut keys, &mut text, &mut state);
    assert_eq!(state.cursor, 10);
    let mut keys = vec![key(KeyCode::Up), key(KeyCode::Up)];
    edit.apply_keyboard_input(&mut keys, &mut text, &mut state);
    assert_eq!(state.cursor, 2);
}

#[test]
fn word_and_line_boundaries() {
    let text = chars("foo bar(baz)\nqux");
    let mut state = EditboxState::default();
    state.cursor = 6;
    assert_eq!(state.find_word_begin(&text, 6), 2);
    assert_eq!(state.find_word_end(&text, 4), 4);
    assert_eq!(state.find_line_begin(&text), 6);
    assert_eq!(state.find_line_end(&text), 6);
    assert_eq!(state.select_word(&text), (4, 8));
    assert_eq!(state.select_line(&text), (0, 12));
    assert!(state.in_selected_range(11));
    assert!(!state.in_selected_range(12));
    assert!(EditboxState::word_delimeter('('));
    assert!(!EditboxState::word_delimeter('a'));
}

#[test]
fn repeated_clicks_select_word_line_then_nothing() {
    let text = chars("one two\nthree");
    let mut state = EditboxState::default();
    state.cursor = 5;
    state.last_click = 5;
    state.last_click_time = 900;
    state.click_down(1000, &text, 5);
    assert!(matches!(state.click_state, ClickState::SelectingWords { selected_word: (4, 7) }));
    state.click_down(1200, &text, 5);
    assert!(matches!(state.click_state, ClickState::SelectingLines { selected_line: (0, 7) }));
    state.click_down(1300, &text, 5);
    assert!(matches!(state.click_state, ClickState::Idle));
    assert_eq!(state.selection, None);
}

#[test]
fn click_drag_selects_characters() {
    let text = chars("hello world");
    let mut state = EditboxState::default();
    state.last_click = 99;
    state.click_down(0, &text, 2);
    assert_eq!(state.selection, Some((2, 2)));
    state.click_move(&text, 7);
    assert_eq!(state.selection, Some((2, 7)));
    assert_eq!(state.cursor, 7);
    state.click_up(&text);
    assert!(matches!(state.click_state, ClickState::Selected));
}

#[test]
fn next_and_previous_word() {
    let text = chars("ab cd ef");
    let mut state = EditboxState::default();
    state.move_cursor_next_word(&text, false);
    assert_eq!(state.cursor, 3);
    state.move_cursor_next_word(&text, false);
    assert_eq!(state.cursor, 6);
    state.move_cursor_prev_word(&text, false);
    assert_eq!(state.cursor, 3);
}

#[test]
fn cursor_moves_are_clamped() {
    let text = chars("abc");
    let mut state = EditboxState::default();
    state.cursor = 2;
    state.move_cursor(&text, -7, false);
    assert_eq!(state.cursor, 0);
    state.move_cursor(&text, 9, true);
    assert_eq!(state.cursor, 3);
    assert_eq!(state.selection, Some((0, 3)));
}

#[test]
fn editbox_takes_keys_only_with_input_focus() {
    let mut ui = Ui::new(Style::default());
    let advances = vec![7; 128];
    let mut text = chars("hello");
    ui.begin_window(1, None, Vec2::new(0, 0), Vec2::new(200, 100), true);
    ui.key_down(KeyCode::Left, false, false);
    Editbox::new(4, Vec2::new(100, 20)).ui(&mut ui, &mut text, &advances);
    assert_eq!(ui.input.input_buffer.len(), 1);
    assert_eq!(ui.get_editbox_state(4).cursor, 0);
    // a press inside the box gives it the keyboard
    ui.input.click_down = true;
    ui.input.mouse_position = Vec2::new(10, 20);
    Editbox::new(4, Vec2::new(100, 20)).position(Vec2::new(2, 16)).ui(&mut ui, &mut text, &advances);
    let w = ui.find_window(1).unwrap();
    assert_eq!(ui.windows[w].input_focus, Some(4));
    ui.end_window();
    ui.new_frame(16);
    ui.begin_window(1, None, Vec2::new(0, 0), Vec2::new(200, 100), true);
    ui.char_event('X', false, false);
    ui.key_down(KeyCode::End, false, false);
    ui.char_event('!', false, false);
    ui.editbox(4, Vec2::new(100, 20), &mut text, &advances);
    assert_eq!(text, chars("Xhello!"));
    assert_eq!(ui.get_editbox_state(4).cursor, 7);
    assert!(ui.input.input_buffer.is_empty());
    let cmds = &ui.windows[w].draw_list.commands;
    assert!(cmds.len() >= 8);
}

#[test]
fn editbox_draws_box_then_cursor_mark() {
    let mut ui = Ui::new(Style::default());
    let advances = vec![6; 128];
    let mut text = chars("ab");
    ui.begin_window(1, None, Vec2::new(0, 0), Vec2::new(200, 100), true);
    ui.editbox(4, Vec2::new(100, 20), &mut text, &advances);
    let w = ui.find_window(1).unwrap();
    let cmds = &ui.windows[w].draw_list.commands;
    match (&cmds[0], &cmds[1]) {
        (
            megaui::draw_list::DrawCommand::DrawRect { rect: r0, .. },
            megaui::draw_list::DrawCommand::DrawRect { rect: r1, .. },
        ) => {
            assert_eq!(*r0, megaui::types::Rect::new(2, 16, 100, 20));
            // the cursor stands before the first character, two pixels in
            assert_eq!(*r1, megaui::types::Rect::new(4, 14, 2, 13));
        }
        _ => panic!("expected the box and the cursor mark"),
    }
    // the two characters and the blank after the last one
    assert_eq!(cmds.len(), 5);
}

#[test]
fn editbox_mouse_selects_characters() {
    let mut ui = Ui::new(Style::default());
    let advances = vec![6; 128];
    let mut text = chars("hello");
    let ctx = ui.begin_window(1, None, Vec2::new(0, 0), Vec2::new(200, 100), true);
    ui.windows[ctx.index].input_focus = Some(4);
    let edit = Editbox::new(4, Vec2::new(100, 20)).position(Vec2::new(2, 16));
    // press over the third character: its cell starts at 2 + 2 + 2 * 6
    ui.input.is_mouse_down = true;
    ui.input.click_down = true;
    ui.input.mouse_position = Vec2::new(18, 20);
    edit.ui(&mut ui, &mut text, &advances);
    assert_eq!(ui.get_editbox_state(4).selection, Some((2, 2)));
    // drag over the fifth character
    ui.input.click_down = false;
    ui.input.mouse_position = Vec2::new(30, 20);
    edit.ui(&mut ui, &mut text, &advances);
    let s = ui.get_editbox_state(4);
    assert_eq!(s.cursor, 4);
    assert_eq!(s.selection, Some((2, 4)));
    // release
    ui.input.is_mouse_down = false;
    ui.input.click_up = true;
    edit.ui(&mut ui, &mut text, &advances);
    assert!(matches!(ui.get_editbox_state(4).click_state, ClickState::Selected));
    assert_eq!(text, chars("hello"));
}

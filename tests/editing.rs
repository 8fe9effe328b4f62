use river::{
    count_line_words, default_prompt_style, default_show_prompts, default_tab_size,
    default_typing_timeout_seconds, default_use_ai_prompts, default_vim_bindings, join_lines,
    loaded_lines, split_lines, Config, Editor, Goal, Key, KeyEvent, Mode, TypingTracker,
};

fn chars(s: &str) -> Vec<char> {
    s.chars().collect()
}

fn lines(ls: &[&str]) -> Vec<Vec<char>> {
    ls.iter().map(|l| chars(l)).collect()
}

fn editor(ls: &[&str], vim: bool, width: u16) -> Editor {
    let mut config = Config::defaults_in(String::from("notes"));
    config.vim_bindings = vim;
    let mut e = Editor::new(config, width, 24, 0, 0);
    e.buffer = lines(ls);
    e
}

fn key(k: Key) -> KeyEvent {
    KeyEvent { key: k, ctrl: false, alt: false }
}

fn press(e: &mut Editor, k: Key) -> bool {
    e.handle_key_event(key(k))
}

#[test]
fn scenario_insert_char_at_line_end() {
    let mut e = editor(&["hello"], false, 80);
    e.cursor_x = 5;
    assert_eq!(e.mode, Mode::Insert);
    e.insert_char('!');
    assert_eq!(e.buffer, lines(&["hello!"]));
    assert_eq!((e.cursor_y, e.cursor_x), (0, 6));
    assert!(e.dirty && e.needs_save);
}

#[test]
fn scenario_word_backward_crosses_line() {
    let mut e = editor(&["hello", "world"], true, 80);
    e.cursor_y = 1;
    e.cursor_x = 0;
    assert_eq!(e.mode, Mode::Normal);
    press(&mut e, Key::Char('b'));
    assert_eq!((e.cursor_y, e.cursor_x), (0, 4));
}

#[test]
fn scenario_enter_splits_line() {
    let mut e = editor(&["abc"], false, 80);
    e.cursor_x = 1;
    press(&mut e, Key::Enter);
    assert_eq!(e.buffer, lines(&["a", "bc"]));
    assert_eq!((e.cursor_y, e.cursor_x), (1, 0));
}

#[test]
fn scenario_forward_search_wraps() {
    let mut e = editor(&["hello", "lonely"], true, 80);
    e.last_search = Some(chars("lo"));
    e.search_next();
    assert_eq!((e.cursor_y, e.cursor_x), (0, 3));
    e.search_next();
    assert_eq!((e.cursor_y, e.cursor_x), (1, 0));
    e.search_next();
    assert_eq!((e.cursor_y, e.cursor_x), (0, 3));
}

#[test]
fn scenario_typing_session_times_out() {
    let mut t = TypingTracker::new(2, 0, 0);
    t.track(0);
    t.track(1000);
    t.fold(1000);
    assert_eq!(t.accumulated_ms, 1000);
    assert_eq!(t.total(5000), 1000);
}

#[test]
fn typing_session_through_the_loop() {
    let mut config = Config::defaults_in(String::from("notes"));
    config.typing_timeout_seconds = 2;
    let mut e = Editor::new(config, 80, 24, 0, 0);
    e.tick(0);
    e.insert_char('a');
    e.tick(1000);
    e.insert_char('b');
    e.tick(1016);
    e.tick(5000);
    assert_eq!(e.get_total_typing_time(), 1000);
}

#[test]
fn typing_total_counts_open_session() {
    let mut t = TypingTracker::new(180, 500, 0);
    t.track(1000);
    t.track(4000);
    assert_eq!(t.total(4000), 3500);
    t.fold(4000);
    assert_eq!(t.accumulated_ms, 3500);
    assert_eq!(t.session_start, Some(4000));
}

#[test]
fn search_from_command_line() {
    let mut e = editor(&["hello", "lonely"], true, 80);
    press(&mut e, Key::Char('/'));
    assert_eq!(e.mode, Mode::Command);
    press(&mut e, Key::Char('l'));
    press(&mut e, Key::Char('o'));
    assert_eq!(e.command_buffer, chars("/lo"));
    let quit = press(&mut e, Key::Enter);
    assert!(!quit);
    assert_eq!(e.mode, Mode::Normal);
    assert!(e.command_buffer.is_empty());
    assert_eq!(e.last_search, Some(chars("lo")));
    assert_eq!((e.cursor_y, e.cursor_x), (0, 3));
    press(&mut e, Key::Char('n'));
    assert_eq!((e.cursor_y, e.cursor_x), (1, 0));
}

#[test]
fn backward_search_does_not_wrap() {
    let mut e = editor(&["hello", "lonely"], true, 80);
    e.last_search = Some(chars("lo"));
    e.cursor_y = 1;
    e.cursor_x = 2;
    e.search_prev();
    assert_eq!((e.cursor_y, e.cursor_x), (1, 0));
    e.search_prev();
    assert_eq!((e.cursor_y, e.cursor_x), (0, 3));
    e.search_prev();
    assert_eq!((e.cursor_y, e.cursor_x), (0, 3));
}

#[test]
fn empty_pattern_is_no_op() {
    let mut e = editor(&["abc"], true, 80);
    e.last_search = Some(Vec::new());
    e.search_next();
    assert_eq!((e.cursor_y, e.cursor_x), (0, 0));
    assert!(!e.dirty);
}

#[test]
fn render_draws_only_when_stale() {
    let mut e = editor(&["hello", "world"], false, 80);
    e.dirty = true;
    let f = e.render().expect("a stale screen draws");
    assert_eq!(f.rows.len(), 22);
    assert_eq!(f.rows[0], Some(chars("hello")));
    assert_eq!(f.rows[1], Some(chars("world")));
    assert_eq!(f.rows[2], None);
    assert_eq!(f.word_count, 2);
    assert_eq!(f.progress, 0);
    assert_eq!(f.goal, Goal::Below);
    assert!(e.render().is_none());
}

#[test]
fn viewport_follows_cursor() {
    let many: Vec<String> = (0..40).map(|i| format!("line {}", i)).collect();
    let refs: Vec<&str> = many.iter().map(|s| s.as_str()).collect();
    let mut e = editor(&refs, false, 10);
    e.cursor_y = 30;
    e.cursor_x = 6;
    e.update_offset();
    assert_eq!(e.offset_y, 30 - 22 + 1);
    assert_eq!(e.offset_x, 0);
    e.cursor_y = 2;
    e.cursor_x = 0;
    e.update_offset();
    assert_eq!(e.offset_y, 2);
    e.dirty = true;
    let f = e.render().unwrap();
    assert_eq!((f.cursor_row, f.cursor_col), (0, 0));
    assert_eq!(f.rows[0], Some(chars("line 2")));
}

#[test]
fn horizontal_scroll_clips_rows() {
    let mut e = editor(&["abcdefghijklmnop"], false, 5);
    e.cursor_x = 12;
    e.dirty = true;
    let f = e.render().unwrap();
    assert_eq!(e.offset_x, 8);
    assert_eq!(f.rows[0], Some(chars("ijklm")));
    assert_eq!(f.cursor_col, 4);
}

#[test]
fn load_then_save_round_trips() {
    let mut e = editor(&[""], false, 80);
    let text = chars("# Monday\n\nwrote things\n");
    e.load_file(String::from("note.md"), &text);
    assert_eq!(e.buffer, lines(&["# Monday", "", "wrote things", ""]));
    assert_eq!((e.cursor_y, e.cursor_x), (3, 0));
    assert_eq!(e.auto_save(), Some(text));
}

#[test]
fn load_adds_trailing_empty_line() {
    let mut e = editor(&[""], false, 80);
    e.load_file(String::from("note.md"), &chars("a\nb"));
    assert_eq!(e.buffer, lines(&["a", "b", ""]));
    assert_eq!(e.contents(), chars("a\nb\n"));
    e.load_file(String::from("empty.md"), &Vec::new());
    assert_eq!(e.buffer, lines(&[""]));
    assert_eq!(e.contents(), Vec::<char>::new());
}

#[test]
fn split_lines_drops_carriage_returns() {
    assert_eq!(split_lines(&chars("a\r\nb\n")), lines(&["a", "b"]));
    assert_eq!(split_lines(&chars("a\n\nb")), lines(&["a", "", "b"]));
    assert_eq!(loaded_lines(&chars("x\n\n")), lines(&["x", ""]));
    assert_eq!(join_lines(&lines(&["a", "", "b"])), chars("a\n\nb"));
}

#[test]
fn delete_last_line_clears_it() {
    let mut e = editor(&["only"], true, 80);
    e.cursor_x = 2;
    press(&mut e, Key::Char('d'));
    assert_eq!(e.buffer, lines(&[""]));
    assert_eq!(e.clipboard, lines(&["only"]));
    assert_eq!((e.cursor_y, e.cursor_x), (0, 0));
}

#[test]
fn delete_line_clamps_row_and_paste_restores() {
    let mut e = editor(&["one", "two", "three"], true, 80);
    e.cursor_y = 2;
    press(&mut e, Key::Char('d'));
    assert_eq!(e.buffer, lines(&["one", "two"]));
    assert_eq!(e.cursor_y, 1);
    press(&mut e, Key::Char('P'));
    assert_eq!(e.buffer, lines(&["one", "three", "two"]));
    assert_eq!((e.cursor_y, e.cursor_x), (1, 0));
    press(&mut e, Key::Char('p'));
    assert_eq!(e.buffer, lines(&["one", "three", "three", "two"]));
    assert_eq!(e.cursor_y, 2);
}

#[test]
fn yank_copies_without_change() {
    let mut e = editor(&["abc", "def"], true, 80);
    e.cursor_y = 1;
    press(&mut e, Key::Char('y'));
    assert_eq!(e.clipboard, lines(&["def"]));
    assert_eq!(e.buffer, lines(&["abc", "def"]));
    assert!(!e.dirty);
}

#[test]
fn normal_mode_clamps_to_last_character() {
    let mut e = editor(&["abc", "abcdef"], true, 80);
    press(&mut e, Key::Char('$'));
    assert_eq!(e.cursor_x, 2);
    press(&mut e, Key::Char('l'));
    assert_eq!((e.cursor_y, e.cursor_x), (0, 2));
    press(&mut e, Key::Char('j'));
    assert_eq!((e.cursor_y, e.cursor_x), (1, 2));
    press(&mut e, Key::Char('$'));
    press(&mut e, Key::Char('k'));
    assert_eq!((e.cursor_y, e.cursor_x), (0, 2));
}

#[test]
fn escape_steps_back_off_line_end() {
    let mut e = editor(&["abc"], true, 80);
    press(&mut e, Key::Char('A'));
    assert_eq!(e.mode, Mode::Insert);
    assert_eq!(e.cursor_x, 3);
    press(&mut e, Key::Esc);
    assert_eq!(e.mode, Mode::Normal);
    assert_eq!(e.cursor_x, 2);
}

#[test]
fn append_and_insert_keys_position_cursor() {
    let mut e = editor(&["abc"], true, 80);
    e.cursor_x = 1;
    press(&mut e, Key::Char('a'));
    assert_eq!((e.mode, e.cursor_x), (Mode::Insert, 2));
    press(&mut e, Key::Esc);
    press(&mut e, Key::Char('I'));
    assert_eq!((e.mode, e.cursor_x), (Mode::Insert, 0));
}

#[test]
fn open_line_below_and_above() {
    let mut e = editor(&["abc", "def"], true, 80);
    e.cursor_x = 1;
    press(&mut e, Key::Char('o'));
    assert_eq!(e.buffer, lines(&["abc", "", "def"]));
    assert_eq!((e.cursor_y, e.cursor_x, e.mode), (1, 0, Mode::Insert));
    press(&mut e, Key::Esc);
    e.cursor_y = 2;
    press(&mut e, Key::Char('O'));
    assert_eq!(e.buffer, lines(&["abc", "", "", "def"]));
    assert_eq!((e.cursor_y, e.cursor_x, e.mode), (2, 0, Mode::Insert));
}

#[test]
fn left_right_cross_lines_only_in_insert() {
    let mut e = editor(&["ab", "cd"], false, 80);
    e.cursor_y = 1;
    press(&mut e, Key::Left);
    assert_eq!((e.cursor_y, e.cursor_x), (0, 2));
    press(&mut e, Key::Right);
    assert_eq!((e.cursor_y, e.cursor_x), (1, 0));
    let mut v = editor(&["ab", "cd"], true, 80);
    v.cursor_y = 1;
    press(&mut v, Key::Char('h'));
    assert_eq!((v.cursor_y, v.cursor_x), (1, 0));
}

#[test]
fn word_motions() {
    let mut e = editor(&["foo, bar baz", "next"], true, 80);
    press(&mut e, Key::Char('w'));
    assert_eq!(e.cursor_x, 5);
    press(&mut e, Key::Char('e'));
    assert_eq!(e.cursor_x, 8);
    press(&mut e, Key::Char('w'));
    assert_eq!(e.cursor_x, 9);
    press(&mut e, Key::Char('b'));
    assert_eq!(e.cursor_x, 5);
    press(&mut e, Key::Char('b'));
    assert_eq!(e.cursor_x, 0);
    e.cursor_x = 9;
    press(&mut e, Key::Char('w'));
    assert_eq!((e.cursor_y, e.cursor_x), (1, 0));
}

#[test]
fn word_end_on_empty_line_moves_down() {
    let mut e = editor(&["", "x"], true, 80);
    press(&mut e, Key::Char('e'));
    assert_eq!((e.cursor_y, e.cursor_x), (1, 0));
}

#[test]
fn first_and_last_line_keys() {
    let mut e = editor(&["a", "bb", "ccc"], true, 80);
    press(&mut e, Key::Char('G'));
    assert_eq!((e.cursor_y, e.cursor_x), (2, 0));
    press(&mut e, Key::Char('g'));
    assert_eq!((e.cursor_y, e.cursor_x), (0, 0));
}

#[test]
fn page_motions_clamp() {
    let many: Vec<String> = (0..50).map(|i| format!("{}", i)).collect();
    let refs: Vec<&str> = many.iter().map(|s| s.as_str()).collect();
    let mut e = editor(&refs, false, 80);
    press(&mut e, Key::PageDown);
    assert_eq!(e.cursor_y, 22);
    press(&mut e, Key::PageDown);
    press(&mut e, Key::PageDown);
    assert_eq!(e.cursor_y, 49);
    press(&mut e, Key::PageUp);
    assert_eq!(e.cursor_y, 27);
    press(&mut e, Key::PageUp);
    press(&mut e, Key::PageUp);
    assert_eq!(e.cursor_y, 0);
}

#[test]
fn backspace_and_delete_join_lines() {
    let mut e = editor(&["ab", "cd"], false, 80);
    e.cursor_y = 1;
    press(&mut e, Key::Backspace);
    assert_eq!(e.buffer, lines(&["abcd"]));
    assert_eq!((e.cursor_y, e.cursor_x), (0, 2));
    press(&mut e, Key::Backspace);
    assert_eq!(e.buffer, lines(&["acd"]));
    assert_eq!(e.cursor_x, 1);
    e.buffer = lines(&["ab", "cd"]);
    e.cursor_x = 2;
    e.cursor_y = 0;
    press(&mut e, Key::Delete);
    assert_eq!(e.buffer, lines(&["abcd"]));
    press(&mut e, Key::Delete);
    assert_eq!(e.buffer, lines(&["abd"]));
}

#[test]
fn backspace_at_start_changes_nothing() {
    let mut e = editor(&["ab"], false, 80);
    press(&mut e, Key::Backspace);
    assert_eq!(e.buffer, lines(&["ab"]));
    assert!(!e.needs_save);
}

#[test]
fn delete_char_steps_back_at_end() {
    let mut e = editor(&["abc"], true, 80);
    e.cursor_x = 2;
    press(&mut e, Key::Char('x'));
    assert_eq!(e.buffer, lines(&["ab"]));
    assert_eq!(e.cursor_x, 1);
}

#[test]
fn tab_inserts_configured_spaces() {
    let mut e = editor(&["ab"], false, 80);
    e.cursor_x = 1;
    press(&mut e, Key::Tab);
    assert_eq!(e.buffer, lines(&["a    b"]));
    assert_eq!(e.cursor_x, 5);
    assert_eq!(default_tab_size(), 4);
}

#[test]
fn long_line_wraps_after_last_space() {
    let mut e = editor(&["hello worl"], false, 16);
    e.cursor_x = 10;
    e.insert_char('d');
    assert_eq!(e.buffer, lines(&["hello ", "world"]));
    assert_eq!((e.cursor_y, e.cursor_x), (1, 5));
}

#[test]
fn long_word_wraps_at_cursor() {
    let mut e = editor(&["abcdefghij"], false, 16);
    e.cursor_x = 10;
    e.insert_char('k');
    assert_eq!(e.buffer, lines(&["abcdefghijk", ""]));
    assert_eq!((e.cursor_y, e.cursor_x), (1, 0));
}

#[test]
fn space_never_wraps() {
    let mut e = editor(&["abcdefghij"], false, 16);
    e.cursor_x = 10;
    e.insert_char(' ');
    assert_eq!(e.buffer, lines(&["abcdefghij "]));
}

#[test]
fn control_characters_are_not_inserted() {
    let mut e = editor(&["ab"], false, 80);
    e.handle_key_event(KeyEvent { key: Key::Char('x'), ctrl: false, alt: true });
    assert_eq!(e.buffer, lines(&["ab"]));
}

#[test]
fn quit_chord_in_every_mode() {
    let chord = KeyEvent { key: Key::Char('q'), ctrl: true, alt: false };
    let mut plain = editor(&["a"], false, 80);
    assert!(plain.handle_key_event(chord));
    let mut v = editor(&["a"], true, 80);
    assert!(v.handle_key_event(chord));
    press(&mut v, Key::Char('i'));
    assert!(v.handle_key_event(chord));
    press(&mut v, Key::Esc);
    press(&mut v, Key::Char(':'));
    assert!(v.handle_key_event(chord));
    assert_eq!(v.mode, Mode::Command);
}

#[test]
fn quit_command() {
    let mut v = editor(&["a"], true, 80);
    press(&mut v, Key::Char(':'));
    press(&mut v, Key::Char('q'));
    assert!(press(&mut v, Key::Enter));
    let mut w = editor(&["a"], true, 80);
    press(&mut w, Key::Char(':'));
    press(&mut w, Key::Char('x'));
    assert!(!press(&mut w, Key::Enter));
    assert_eq!(w.mode, Mode::Normal);
}

#[test]
fn command_backspace_leaves_when_empty() {
    let mut v = editor(&["a"], true, 80);
    press(&mut v, Key::Char(':'));
    press(&mut v, Key::Char('w'));
    press(&mut v, Key::Backspace);
    assert_eq!(v.mode, Mode::Normal);
    press(&mut v, Key::Char('/'));
    press(&mut v, Key::Esc);
    assert_eq!(v.mode, Mode::Normal);
    assert!(v.command_buffer.is_empty());
}

#[test]
fn word_count_splits_on_non_alphanumerics() {
    let e = editor(&["hello world, foo", "", "x1 é-ü"], false, 80);
    assert_eq!(e.count_words(), 6);
    assert_eq!(count_line_words(&chars("  --  ")), 0);
    assert_eq!(count_line_words(&chars("naïve café")), 2);
}

#[test]
fn progress_reaches_goal() {
    let text: Vec<String> = (0..400).map(|_| String::from("w")).collect();
    let refs: Vec<&str> = text.iter().map(|s| s.as_str()).collect();
    let mut e = editor(&refs, false, 80);
    e.dirty = true;
    let f = e.render().unwrap();
    assert_eq!(f.word_count, 400);
    assert_eq!(f.progress, 80);
    assert_eq!(f.goal, Goal::Near);
}

#[test]
fn tick_reports_due_writes() {
    let mut e = editor(&["a"], false, 80);
    e.tick(100);
    e.insert_char('b');
    let c = e.tick(900);
    assert!(!c.save_file && !c.save_typing);
    let c = e.tick(1200);
    assert!(c.save_file);
    e.mark_saved();
    let c = e.tick(12000);
    assert!(!c.save_file);
    assert!(c.save_typing);
    assert_eq!(e.last_typing_save, 12000);
}

#[test]
fn unnamed_document_is_not_written() {
    let e = editor(&["a"], false, 80);
    assert_eq!(e.auto_save(), None);
}

#[test]
fn resize_marks_stale() {
    let mut e = editor(&["a"], false, 80);
    e.resize(80, 24);
    assert!(!e.dirty);
    e.resize(100, 30);
    assert!(e.dirty);
    assert_eq!((e.terminal_width, e.terminal_height), (100, 30));
}

#[test]
fn config_defaults() {
    let c = Config::defaults_in(String::from("/home/me/notes"));
    assert!(!c.vim_bindings);
    assert_eq!(c.tab_size, 4);
    assert_eq!(c.typing_timeout_seconds, 180);
    assert_eq!(c.prompt_style, "ghost");
    assert!(c.show_prompts && c.use_ai_prompts);
    assert!(!default_vim_bindings());
    assert_eq!(default_typing_timeout_seconds(), 180);
    assert!(default_show_prompts());
    assert_eq!(default_prompt_style(), "ghost");
    assert!(default_use_ai_prompts());
}

#[test]
fn typing_total_runs_to_now() {
    let mut t = TypingTracker::new(2, 0, 0);
    t.track(0);
    assert_eq!(t.total(1000), 1000);
    assert_eq!(t.total(2000), 2000);
    assert_eq!(t.total(2001), 0);
}

#[test]
fn command_mode_clamps_like_insert_until_it_ends() {
    let mut e = editor(&["ab", "a"], true, 80);
    e.cursor_x = 1;
    press(&mut e, Key::Char(':'));
    assert_eq!(e.mode, Mode::Command);
    e.move_down();
    assert_eq!((e.cursor_y, e.cursor_x), (1, 1));
    e.move_up();
    e.page_down();
    assert_eq!((e.cursor_y, e.cursor_x), (1, 1));
    press(&mut e, Key::Esc);
    assert_eq!(e.mode, Mode::Normal);
    assert_eq!((e.cursor_y, e.cursor_x), (1, 0));
}

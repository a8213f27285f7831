use vimcore::{
    apply_key, checked_mode, join_lines, key_code, mode_code, mode_from_code, parse_command, split_lines, Buffer,
    CommandError, EditContext, Editor, Effect, ExCommand, FileRead, IndexError, LoadError, ModeError, Pending,
    SaveError, VimMode, VisualKind,
};

const QUOTE_14: &str = "    Leela: Oh, I'm sorry. Now I'll axe you again. Where is the mi-cro-wave?";
const LAST_QUOTE: &str = "Bender: I'm back, baby! Yeah!";

/// A 44-line quote file: line 14 is Leela's, the last line has 29 characters.
fn quotes_fixture() -> Vec<u8> {
    let mut text = String::new();
    for n in 1..=44 {
        let line = if n == 14 {
            QUOTE_14.to_string()
        } else if n == 44 {
            LAST_QUOTE.to_string()
        } else {
            format!("    Fry: quote number {}", n)
        };
        text.push_str(&line);
        text.push('\n');
    }
    text.into_bytes()
}

fn setup() -> Editor {
    let mut ed = Editor::vim_init();
    ed.vim_set_window_size((1024, 768));
    ed
}

fn teardown(ed: &mut Editor) {
    assert_eq!(ed.vim_execute("qall!"), Ok(Effect::Quit));
}

/// Runs `w` and reports the write as done, returning the bytes written.
fn write(ed: &mut Editor) -> Vec<u8> {
    match ed.vim_execute("w") {
        Ok(Effect::Write { id, bytes, .. }) => {
            assert!(ed.buffer_written(id));
            bytes
        }
        other => panic!("unexpected result of w: {:?}", other),
    }
}

fn line_of(ed: &Editor, id: i32, n: i64) -> Option<String> {
    ed.vim_buffer_get_line(id, n).map(|l| String::from_utf8(l).unwrap())
}

fn navigation_and_file_creation_test(ed: &mut Editor) {
    let filename = "./test/file_test";
    assert_eq!(ed.vim_get_mode(), VimMode::Normal);
    let path = match ed.vim_execute(&format!("e {}", filename)) {
        Ok(Effect::Read { path }) => path,
        other => panic!("unexpected result of e: {:?}", other),
    };
    assert_eq!(path, filename.as_bytes().to_vec());
    assert!(ed.vim_edit(&path, FileRead::Missing).is_ok());
    ed.vim_input("i");
    assert_eq!(ed.vim_get_mode(), VimMode::Insert);
    ed.vim_input("blastoise");
    ed.vim_key("<ESC>");
    ed.vim_key("<ESC>");
    assert_eq!(ed.vim_get_mode(), VimMode::Normal);
    assert_eq!(String::from_utf8(write(ed)).unwrap(), "blastoise\n");
    ed.vim_key("<ESC>");
    assert_eq!(ed.vim_get_mode(), VimMode::Normal);
    ed.vim_input("V");
    assert_eq!(ed.vim_get_mode(), VimMode::Visual);
    ed.vim_input("d");
    assert_eq!(String::from_utf8(write(ed)).unwrap(), "");
    ed.vim_input("i");
    assert_eq!(ed.vim_get_mode(), VimMode::Insert);
    ed.vim_input("test");
    assert_eq!(String::from_utf8(write(ed)).unwrap(), "test\n");
    teardown(ed);
}

#[allow(non_snake_case)]
fn navigation_G_gg_test(ed: &mut Editor) {
    let fixture = quotes_fixture();
    let id = ed
        .vim_buffer_open("./test/futurama-quotes.txt", FileRead::Contents(fixture.clone()))
        .expect("Read file as buffer");
    assert_eq!(line_of(ed, id, 14).expect("Read the line 14"), QUOTE_14);
    assert_eq!(ed.vim_buffer_line_count(id), 44);
    assert_eq!(ed.vim_buffer_get_id(), 3);

    match ed.vim_execute("e!") {
        Ok(Effect::Reload { path }) => assert_eq!(path, b"./test/futurama-quotes.txt".to_vec()),
        other => panic!("unexpected result of e!: {:?}", other),
    }
    assert_eq!(ed.vim_reload(FileRead::Contents(fixture)), Ok(()));
    ed.vim_key("<esc>");
    ed.vim_key("<esc>");
    ed.vim_input("g");
    ed.vim_input("g");
    assert_eq!(ed.vim_cursor_get_line(), 1);

    ed.vim_input("G");
    assert_eq!(ed.vim_cursor_get_line(), 44);
    ed.vim_input("$");
    let cursor = ed.vim_cursor_get_position();
    assert_eq!(cursor.lnum, 44);
    assert_eq!(cursor.col, 29);

    ed.vim_input("g");
    ed.vim_input("g");
    assert_eq!(ed.vim_cursor_get_line(), 1);
    teardown(ed);
}

#[test]
fn suite_test() {
    let mut ed = setup();
    navigation_and_file_creation_test(&mut ed);
    navigation_G_gg_test(&mut ed);
}

#[test]
fn quote_file_motions() {
    let mut ed = setup();
    let id = ed.vim_buffer_open("quotes.txt", FileRead::Contents(quotes_fixture())).unwrap();
    assert_eq!(ed.vim_buffer_line_count(id), 44);
    ed.vim_input("gg");
    assert_eq!(ed.vim_cursor_get_line(), 1);
    ed.vim_input("G");
    assert_eq!(ed.vim_cursor_get_line(), 44);
    ed.vim_input("$");
    let p = ed.vim_cursor_get_position();
    assert_eq!((p.lnum, p.col), (44, 29));
    ed.vim_input("G");
    assert_eq!(ed.vim_cursor_get_line(), 44);
}

#[test]
fn new_buffer_blastoise_saved() {
    let mut ed = setup();
    assert_eq!(ed.vim_load_buffer("poke.txt", FileRead::Missing), Ok(2));
    assert!(ed.vim_edit(b"poke.txt", FileRead::Missing).is_ok());
    assert_eq!(ed.vim_buffer_get_id(), 2);
    ed.vim_input("i");
    ed.vim_input("blastoise");
    ed.vim_key("<esc>");
    assert_eq!(write(&mut ed), b"blastoise\n".to_vec());
}

#[test]
fn load_then_save_round_trip() {
    for text in ["", "a\n", "one\ntwo\n", "\n\n", "x\n\ny\n"] {
        let mut ed = setup();
        let id = ed.vim_buffer_open("f.txt", FileRead::Contents(text.as_bytes().to_vec())).unwrap();
        assert_eq!(ed.vim_buffer_get_id(), id);
        assert_eq!(write(&mut ed), text.as_bytes().to_vec());
    }
}

#[test]
fn save_adds_final_newline() {
    let b = Buffer::from_bytes(1, Some(b"f".to_vec()), b"abc");
    assert_eq!(b.save(), Ok(b"abc\n".to_vec()));
}

#[test]
fn split_and_join_lines() {
    assert_eq!(split_lines(b"a\nbc\n\nd"), vec![b"a".to_vec(), b"bc".to_vec(), b"".to_vec(), b"d".to_vec()]);
    assert!(split_lines(b"").is_empty());
    assert_eq!(join_lines(&vec![b"a".to_vec(), b"".to_vec()]), b"a\n\n".to_vec());
}

#[test]
fn get_line_in_and_out_of_range() {
    let b = Buffer::from_bytes(1, None, b"one\ntwo\nthree\n");
    assert_eq!(b.line_count(), 3);
    assert_eq!(b.get_line(0), None);
    assert_eq!(b.get_line(1), Some(b"one".to_vec()));
    assert_eq!(b.get_line(3), Some(b"three".to_vec()));
    assert_eq!(b.get_line(4), None);
    assert_eq!(b.get_line(-1), None);
    let e = Buffer::new(2, None);
    assert_eq!(e.line_count(), 1);
    assert_eq!(e.get_line(1), Some(Vec::new()));
    assert_eq!(e.get_line(2), None);
}

#[test]
fn editor_get_line_unknown_buffer() {
    let ed = setup();
    assert_eq!(ed.vim_buffer_get_line(99, 1), None);
    assert_eq!(ed.vim_buffer_line_count(99), 0);
    assert_eq!(ed.vim_buffer_line_count(1), 1);
}

#[test]
fn line_primitives_and_index_errors() {
    let mut b = Buffer::from_bytes(1, Some(b"f".to_vec()), b"a\nb\nc\n");
    assert!(!b.is_dirty());
    assert_eq!(b.set_line(4, b"x".to_vec()), Err(IndexError));
    assert!(!b.is_dirty());
    assert_eq!(b.set_line(2, b"B".to_vec()), Ok(()));
    assert!(b.is_dirty());
    assert_eq!(b.insert_line(4, b"d".to_vec()), Ok(()));
    assert_eq!(b.insert_line(6, b"z".to_vec()), Err(IndexError));
    assert_eq!(b.insert_line(1, b"0".to_vec()), Ok(()));
    assert_eq!(b.save(), Ok(b"0\na\nB\nc\nd\n".to_vec()));
    assert_eq!(b.delete_range(2, 3), Ok(()));
    assert_eq!(b.delete_range(3, 2), Err(IndexError));
    assert_eq!(b.delete_line(0), Err(IndexError));
    assert_eq!(b.delete_line(3), Ok(()));
    assert_eq!(b.save(), Ok(b"0\nc\n".to_vec()));
    assert_eq!(b.delete_range(1, 2), Ok(()));
    assert_eq!(b.line_count(), 1);
    assert_eq!(b.save(), Ok(Vec::new()));
    b.mark_saved();
    assert!(!b.is_dirty());
}

#[test]
fn save_without_path() {
    let b = Buffer::new(1, None);
    assert_eq!(b.save(), Err(SaveError::NoPath));
    let mut ed = setup();
    assert_eq!(ed.vim_execute("w"), Err(CommandError::Save(SaveError::NoPath)));
    assert_eq!(ed.vim_execute("e!"), Err(CommandError::Save(SaveError::NoPath)));
}

#[test]
fn load_errors() {
    let mut ed = setup();
    assert_eq!(ed.vim_load_buffer("secret", FileRead::Unreadable), Err(LoadError::Unreadable));
    assert_eq!(ed.vim_buffer_open("secret", FileRead::Unreadable), Err(LoadError::Unreadable));
    assert_eq!(ed.vim_buffer_get_id(), 1);
    assert_eq!(ed.vim_new_buffer(), Some(2));
    assert_eq!(ed.vim_buffer_get_id(), 1);
}

#[test]
fn load_reuses_open_buffer_and_open_does_not() {
    let mut ed = setup();
    assert_eq!(ed.vim_load_buffer("a.txt", FileRead::Contents(b"x\n".to_vec())), Ok(2));
    assert_eq!(ed.vim_load_buffer("a.txt", FileRead::Contents(b"other\n".to_vec())), Ok(2));
    assert_eq!(line_of(&ed, 2, 1).as_deref(), Some("x"));
    assert_eq!(ed.vim_buffer_open("a.txt", FileRead::Contents(b"y\n".to_vec())), Ok(3));
    assert_eq!(ed.vim_buffer_get_id(), 3);
    assert_eq!(ed.vim_execute("e a.txt"), Ok(Effect::Done));
    assert_eq!(ed.vim_buffer_get_id(), 2);
}

#[test]
fn malformed_commands() {
    let mut ed = setup();
    assert_eq!(ed.vim_execute("frobnicate"), Err(CommandError::Malformed));
    assert_eq!(ed.vim_execute("e"), Err(CommandError::Malformed));
    assert_eq!(ed.vim_execute("w extra"), Err(CommandError::Malformed));
    assert_eq!(ed.vim_execute(""), Err(CommandError::Malformed));
    assert!(!ed.has_quit());
}

#[test]
fn parse_command_forms() {
    assert_eq!(parse_command("w"), Ok(ExCommand::Write));
    assert_eq!(parse_command("write"), Ok(ExCommand::Write));
    assert_eq!(parse_command("e!"), Ok(ExCommand::Reload));
    assert_eq!(parse_command("qall!"), Ok(ExCommand::Quit));
    assert_eq!(parse_command("q"), Ok(ExCommand::Quit));
    assert_eq!(parse_command("edit   some file"), Ok(ExCommand::Edit(b"some file".to_vec())));
    assert_eq!(parse_command("e x"), Ok(ExCommand::Edit(b"x".to_vec())));
    assert_eq!(parse_command("qq"), Err(CommandError::Malformed));
}

#[test]
fn quit_is_recorded() {
    let mut ed = setup();
    assert_eq!(ed.vim_execute("q!"), Ok(Effect::Quit));
    assert!(ed.has_quit());
}

#[test]
fn mode_codes() {
    assert_eq!(mode_from_code(1), VimMode::Normal);
    assert_eq!(mode_from_code(257), VimMode::Normal);
    assert_eq!(mode_from_code(16), VimMode::Insert);
    assert_eq!(mode_from_code(2), VimMode::Visual);
    assert_eq!(mode_from_code(4), VimMode::OpPending);
    assert_eq!(mode_from_code(0), VimMode::Unknown);
    assert_eq!(mode_from_code(256), VimMode::Unknown);
    assert_eq!(checked_mode(3), Err(ModeError::Unrecognized));
    assert_eq!(checked_mode(257), Ok(VimMode::Normal));
    for m in [VimMode::Normal, VimMode::Insert, VimMode::Visual, VimMode::OpPending] {
        assert_eq!(mode_from_code(mode_code(m)), m);
    }
}

#[test]
fn key_names() {
    assert_eq!(key_code("<esc>"), Some(27));
    assert_eq!(key_code("<ESC>"), Some(27));
    assert_eq!(key_code("<Cr>"), Some(13));
    assert_eq!(key_code("<enter>"), Some(13));
    assert_eq!(key_code("<bs>"), Some(8));
    assert_eq!(key_code("<tab>"), Some(9));
    assert_eq!(key_code("<f13>"), None);
    let mut ed = setup();
    ed.vim_input("i");
    ed.vim_key("<nope>");
    assert_eq!(ed.vim_get_mode(), VimMode::Insert);
}

#[test]
fn insert_at_cursor_column() {
    let mut ed = setup();
    ed.vim_buffer_open("f", FileRead::Contents(b"abcd\n".to_vec())).unwrap();
    ed.vim_input("ll");
    assert_eq!(ed.vim_cursor_get_position().col, 3);
    ed.vim_input("iXY");
    assert_eq!(ed.vim_get_mode(), VimMode::Insert);
    ed.vim_key("<esc>");
    assert_eq!(ed.vim_get_mode(), VimMode::Normal);
    assert_eq!(line_of(&ed, 2, 1).as_deref(), Some("abXYcd"));
    assert_eq!(ed.vim_cursor_get_position().col, 4);
}

#[test]
fn append_open_split_and_backspace() {
    let mut ed = setup();
    ed.vim_buffer_open("f", FileRead::Contents(b"ab\n".to_vec())).unwrap();
    ed.vim_input("$a!");
    ed.vim_key("<esc>");
    assert_eq!(line_of(&ed, 2, 1).as_deref(), Some("ab!"));
    ed.vim_input("onew");
    ed.vim_key("<bs>");
    ed.vim_key("<esc>");
    assert_eq!(line_of(&ed, 2, 2).as_deref(), Some("ne"));
    ed.vim_input("0i1");
    ed.vim_key("<cr>");
    ed.vim_input("2");
    ed.vim_key("<esc>");
    assert_eq!(write(&mut ed), b"ab!\n1\n2ne\n".to_vec());
    assert_eq!(ed.vim_cursor_get_line(), 3);
}

#[test]
fn delete_operator_motions() {
    let mut ed = setup();
    ed.vim_buffer_open("f", FileRead::Contents(b"l1\nl2\nl3\nl4\nl5\n".to_vec())).unwrap();
    ed.vim_input("d");
    assert_eq!(ed.vim_get_mode(), VimMode::OpPending);
    ed.vim_input("q");
    assert_eq!(ed.vim_get_mode(), VimMode::OpPending);
    ed.vim_key("<esc>");
    assert_eq!(ed.vim_get_mode(), VimMode::Normal);
    ed.vim_input("jdd");
    assert_eq!(ed.vim_get_mode(), VimMode::Normal);
    assert_eq!(write(&mut ed), b"l1\nl3\nl4\nl5\n".to_vec());
    ed.vim_input("dj");
    assert_eq!(write(&mut ed), b"l1\nl5\n".to_vec());
    ed.vim_input("ld$");
    assert_eq!(write(&mut ed), b"l1\nl\n".to_vec());
    ed.vim_input("ggx");
    assert_eq!(write(&mut ed), b"1\nl\n".to_vec());
    ed.vim_input("dG");
    assert_eq!(write(&mut ed), Vec::<u8>::new());
    assert_eq!(ed.vim_buffer_line_count(2), 1);
}

#[test]
fn visual_characterwise_delete_across_lines() {
    let mut ed = setup();
    ed.vim_buffer_open("f", FileRead::Contents(b"hello\nbig\nworld\n".to_vec())).unwrap();
    ed.vim_input("lvjjd");
    assert_eq!(ed.vim_get_mode(), VimMode::Normal);
    assert_eq!(write(&mut ed), b"hrld\n".to_vec());
    let p = ed.vim_cursor_get_position();
    assert_eq!((p.lnum, p.col), (1, 2));
}

#[test]
fn visual_escape_keeps_text() {
    let mut ed = setup();
    ed.vim_buffer_open("f", FileRead::Contents(b"abc\n".to_vec())).unwrap();
    ed.vim_input("vl");
    ed.vim_key("<esc>");
    assert_eq!(ed.vim_get_mode(), VimMode::Normal);
    assert_eq!(write(&mut ed), b"abc\n".to_vec());
}

#[test]
fn motions_at_boundaries_are_no_ops() {
    let mut ed = setup();
    ed.vim_buffer_open("f", FileRead::Contents(b"ab\ncdef\n".to_vec())).unwrap();
    ed.vim_input("kh");
    let p = ed.vim_cursor_get_position();
    assert_eq!((p.lnum, p.col), (1, 1));
    ed.vim_input("j$");
    assert_eq!(ed.vim_cursor_get_position().col, 4);
    ed.vim_input("k");
    assert_eq!(ed.vim_cursor_get_position().col, 2);
    ed.move_to_last_line();
    assert_eq!(ed.vim_cursor_get_line(), 2);
    ed.move_to_last_line();
    assert_eq!(ed.vim_cursor_get_line(), 2);
    ed.move_to_line_end();
    assert_eq!(ed.vim_cursor_get_position().col, 4);
    ed.move_to_first_line();
    assert_eq!(ed.vim_cursor_get_line(), 1);
}

#[test]
fn reload_discards_changes() {
    let mut ed = setup();
    ed.vim_buffer_open("f", FileRead::Contents(b"a\nb\nc\n".to_vec())).unwrap();
    ed.vim_input("Gdd");
    assert_eq!(ed.vim_reload(FileRead::Unreadable), Err(LoadError::Unreadable));
    assert_eq!(ed.vim_buffer_line_count(2), 2);
    assert_eq!(ed.vim_reload(FileRead::Contents(b"a\nb\nc\n".to_vec())), Ok(()));
    assert_eq!(ed.vim_buffer_line_count(2), 3);
    assert_eq!(ed.vim_cursor_get_line(), 2);
}

#[test]
fn window_size_is_kept() {
    let mut ed = setup();
    assert_eq!(ed.vim_window_size(), (1024, 768));
    ed.vim_set_window_size((80, 24));
    assert_eq!(ed.vim_window_size(), (80, 24));
}

#[test]
fn apply_key_on_a_buffer() {
    let mut b = Buffer::new(1, Some(b"f".to_vec()));
    let mut ctx = EditContext {
        mode: VimMode::Normal,
        line: 1,
        col: 1,
        pending: Pending::Nothing,
        visual: VisualKind::Char,
        anchor_line: 1,
        anchor_col: 1,
    };
    for k in b"ihi" {
        apply_key(&mut b, &mut ctx, *k);
    }
    apply_key(&mut b, &mut ctx, 27);
    assert_eq!(ctx.mode, VimMode::Normal);
    assert_eq!(b.save(), Ok(b"hi\n".to_vec()));
}

#[test]
fn visual_line_delete_removes_line() {
    let mut ed = setup();
    ed.vim_buffer_open("f", FileRead::Contents(b"a\nb\nc\n".to_vec())).unwrap();
    ed.vim_input("jV");
    assert_eq!(ed.vim_get_mode(), VimMode::Visual);
    ed.vim_input("d");
    assert_eq!(ed.vim_get_mode(), VimMode::Normal);
    assert_eq!(write(&mut ed), b"a\nc\n".to_vec());
    assert_eq!(ed.vim_cursor_get_line(), 2);
}

#[test]
fn change_operator_motions() {
    let mut ed = setup();
    ed.vim_buffer_open("f", FileRead::Contents(b"one\ntwo\nthree\nfour\n".to_vec())).unwrap();
    ed.vim_input("c");
    assert_eq!(ed.vim_get_mode(), VimMode::OpPending);
    ed.vim_input("cONE");
    assert_eq!(ed.vim_get_mode(), VimMode::Insert);
    ed.vim_key("<esc>");
    assert_eq!(write(&mut ed), b"ONE\ntwo\nthree\nfour\n".to_vec());
    ed.vim_input("jlc$O");
    ed.vim_key("<esc>");
    assert_eq!(write(&mut ed), b"ONE\ntwO\nthree\nfour\n".to_vec());
    ed.vim_input("jcjX");
    ed.vim_key("<esc>");
    assert_eq!(write(&mut ed), b"ONE\ntwO\nX\n".to_vec());
    ed.vim_input("c");
    ed.vim_key("<esc>");
    assert_eq!(ed.vim_get_mode(), VimMode::Normal);
}

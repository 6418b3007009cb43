use moonlight::renderer::{
    clear_lines, exit_fullscreen, fullscreen, invert, scroll_down, scroll_up, sync_scroll_area,
    RenderMsg, Renderer,
};

#[test]
fn it_works() {
    assert_eq!(2 + 2, 4);
}

#[test]
fn first_frame_erases_nothing() {
    let mut renderer = Renderer::new();
    let frame = renderer.render("hello");
    assert_eq!(frame, b"hello\r\n".to_vec());
    assert_eq!(renderer.lines_rendered(), 1);
}

#[test]
fn every_line_feed_gets_a_carriage_return() {
    let mut renderer = Renderer::new();
    let frame = renderer.render("a\nb\nc");
    assert_eq!(frame, b"a\r\nb\r\nc\r\n".to_vec());
    assert_eq!(renderer.lines_rendered(), 3);
}

#[test]
fn next_frame_erases_the_lines_of_the_last() {
    let mut renderer = Renderer::new();
    renderer.render("a\nb\nc");
    let frame = renderer.render("x");
    let mut expected = Vec::new();
    for _ in 0..3 {
        expected.extend_from_slice(b"\x1b[1F\x1b[2K");
    }
    expected.extend_from_slice(b"x\r\n");
    assert_eq!(frame, expected);
    assert_eq!(renderer.lines_rendered(), 1);
}

#[test]
fn previous_line_sequences_match_the_line_breaks_before() {
    let views = ["one", "one\ntwo", "", "a\r\nb", "\n\n\n", "caf\u{e9}\nna\u{ef}ve"];
    let mut renderer = Renderer::new();
    let mut last_breaks = 0usize;
    for view in views {
        let frame = renderer.render(view);
        let text = String::from_utf8(frame).unwrap();
        assert_eq!(text.matches("\x1b[1F").count(), last_breaks);
        assert_eq!(text.matches("\x1b[2K").count(), last_breaks);
        let painted = &text[last_breaks * 8..];
        assert_eq!(painted, (view.to_owned() + "\n").replace("\n", "\r\n"));
        last_breaks = painted.matches("\r\n").count();
        assert_eq!(renderer.lines_rendered(), last_breaks);
    }
}

#[test]
fn empty_view_is_one_line() {
    let mut renderer = Renderer::new();
    assert_eq!(renderer.render(""), b"\r\n".to_vec());
    assert_eq!(renderer.lines_rendered(), 1);
}

#[test]
fn existing_carriage_return_is_kept() {
    let mut renderer = Renderer::new();
    assert_eq!(renderer.render("a\r\nb"), b"a\r\r\nb\r\n".to_vec());
    assert_eq!(renderer.lines_rendered(), 2);
}

#[test]
fn clear_lines_repeats_the_pair() {
    assert_eq!(clear_lines(0), Vec::<u8>::new());
    assert_eq!(clear_lines(2), b"\x1b[1F\x1b[2K\x1b[1F\x1b[2K".to_vec());
}

#[test]
fn cursor_sequences() {
    let renderer = Renderer::new();
    assert_eq!(renderer.hide_cursor(), "\x1b[?25l");
    assert_eq!(renderer.show_cursor(), "\x1b[?25h");
    assert_eq!(renderer.restore_terminal(), "\x1b[u");
}

#[test]
fn alternate_screen_sequences() {
    assert_eq!(fullscreen(), "\x1b[?1049h\x1b[H");
    assert_eq!(exit_fullscreen(), "\x1b[?1049l");
}

#[test]
fn invert_brackets_the_text() {
    assert_eq!(invert(String::from("abc")), "\x1b[7mabc\x1b[0m");
    assert_eq!(invert(String::new()), "\x1b[7m\x1b[0m");
}

#[test]
fn invert_is_undone_by_stripping_the_brackets() {
    for s in ["", "x", "hello world", "\x1b[7m", "gr\u{fc}n"] {
        let inverted = invert(String::from(s));
        let chars: Vec<char> = inverted.chars().collect();
        let inner: String = chars[4..chars.len() - 4].iter().collect();
        assert_eq!(inner, s);
    }
}

#[test]
fn scroll_commands_yield_their_messages() {
    let lines = vec![String::from("a"), String::from("b")];
    let sync = sync_scroll_area(lines.clone(), 3, 13);
    assert_eq!(
        sync(),
        RenderMsg::SyncScrollArea { lines: lines.clone(), top_boundary: 3, bottom_boundary: 13 }
    );
    let down = scroll_down(lines.clone(), 0, 10);
    assert_eq!(
        down(),
        RenderMsg::ScrollDown { lines: lines.clone(), top_boundary: 0, bottom_boundary: 10 }
    );
    let up = scroll_up(lines.clone(), -1, 9);
    assert_eq!(up(), RenderMsg::ScrollUp { lines: lines.clone(), top_boundary: -1, bottom_boundary: 9 });
    // a command can be run again
    assert_eq!(up(), RenderMsg::ScrollUp { lines, top_boundary: -1, bottom_boundary: 9 });
}

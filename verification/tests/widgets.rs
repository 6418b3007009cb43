use moonlight::components::{paginator, spinner, textinput, viewport};
use moonlight::input::Key;
use moonlight::renderer::RenderMsg;

fn numbered(count: usize) -> String {
    let lines: Vec<String> = (0..count).map(|i| format!("line {i}")).collect();
    lines.join("\n")
}

fn pager(height: isize, count: usize) -> viewport::Model {
    let mut model = viewport::Model { height, y_position: 2, ..Default::default() };
    model.set_content(numbered(count));
    model
}

#[test]
fn viewport_set_content_splits_lines() {
    let mut model = viewport::Model::default();
    model.set_content(String::from("a\r\nb\nc\r\n"));
    assert_eq!(model.lines, vec!["a", "b", "c", ""]);
    model.set_content(String::new());
    assert_eq!(model.lines, vec![""]);
    model.set_content(String::from("x\ry"));
    assert_eq!(model.lines, vec!["x\ry"]);
}

#[test]
fn viewport_set_content_goes_to_bottom_when_offset_is_past_the_end() {
    let mut model = pager(10, 100);
    model.y_offset = 95;
    model.set_content(numbered(50));
    assert_eq!(model.y_offset, 39);
    model.set_content(numbered(60));
    assert_eq!(model.y_offset, 39);
    model.set_content(numbered(5));
    assert_eq!(model.y_offset, 0);
}

#[test]
fn viewport_positions() {
    let mut model = pager(10, 100);
    assert!(model.at_top());
    assert!(!model.at_bottom());
    assert!(!model.past_bottom());
    model.y_offset = 89;
    assert!(model.at_bottom());
    assert!(!model.past_bottom());
    model.y_offset = 90;
    assert!(model.past_bottom());
    assert!(!model.at_top());
}

#[test]
fn viewport_pages_and_lines() {
    let mut model = pager(10, 100);
    viewport::update(&viewport::Message::Input(Key::PageDown), &mut model);
    assert_eq!(model.y_offset, 10);
    viewport::update(&viewport::Message::Input(Key::Char('d')), &mut model);
    assert_eq!(model.y_offset, 15);
    viewport::update(&viewport::Message::Input(Key::Char('j')), &mut model);
    assert_eq!(model.y_offset, 16);
    viewport::update(&viewport::Message::Input(Key::Up), &mut model);
    assert_eq!(model.y_offset, 15);
    viewport::update(&viewport::Message::Input(Key::Ctrl('u')), &mut model);
    assert_eq!(model.y_offset, 10);
    viewport::update(&viewport::Message::Input(Key::Char('b')), &mut model);
    assert_eq!(model.y_offset, 0);
    viewport::update(&viewport::Message::Input(Key::Char('b')), &mut model);
    assert_eq!(model.y_offset, 0);
    viewport::update(&viewport::Message::Input(Key::Char('x')), &mut model);
    assert_eq!(model.y_offset, 0);
    for _ in 0..20 {
        viewport::update(&viewport::Message::Input(Key::Char(' ')), &mut model);
    }
    assert_eq!(model.y_offset, 89);
    assert!(model.at_bottom());
    let scroll = RenderMsg::ScrollUp { lines: vec![], top_boundary: 0, bottom_boundary: 0 };
    viewport::update(&viewport::Message::ScrollUp(scroll.clone()), &mut model);
    assert_eq!(model.y_offset, 88);
    viewport::update(&viewport::Message::ScrollDown(scroll.clone()), &mut model);
    assert_eq!(model.y_offset, 89);
    viewport::update(&viewport::Message::SyncScrollArea(scroll), &mut model);
    assert_eq!(model.y_offset, 89);
}

#[test]
fn viewport_moves_return_the_lines() {
    let mut model = pager(10, 100);
    let shown = model.view_down().unwrap();
    assert_eq!(shown.len(), 10);
    assert_eq!(shown[0], "line 10");
    assert_eq!(shown[9], "line 19");
    let revealed = model.half_view_down().unwrap();
    assert_eq!(revealed, ["line 20", "line 21", "line 22", "line 23", "line 24"]);
    let revealed = model.half_view_up().unwrap();
    assert_eq!(revealed, ["line 10", "line 11", "line 12", "line 13", "line 14"]);
    let shown = model.view_up().unwrap();
    assert_eq!(shown[0], "line 0");
    assert!(model.view_up().is_none());
    assert!(model.half_view_up().is_none());
    assert!(model.goto_top().is_none());
    let tail = model.goto_bottom().unwrap();
    assert_eq!(model.y_offset, 89);
    assert_eq!(tail.len(), 10);
    assert_eq!(tail[0], "line 89");
    assert!(model.view_down().is_none());
    assert!(model.half_view_down().is_none());
    let head = model.goto_top().unwrap();
    assert_eq!(model.y_offset, 0);
    assert_eq!(head.len(), 10);
}

#[test]
fn viewport_view_pads_to_the_height() {
    let mut model = viewport::Model { height: 4, ..Default::default() };
    assert_eq!(viewport::view(&model), "\n\n\n\n");
    model.set_content(String::from("a\nb"));
    assert_eq!(viewport::view(&model), "a\nb\n\n");
    model.set_content(numbered(9));
    assert_eq!(viewport::view(&model), "line 0\nline 1\nline 2\nline 3");
}

#[test]
fn viewport_scroll_down_command_carries_position_and_lines() {
    let mut model = pager(10, 100);
    model.y_position = 3;
    let revealed: Vec<String> = (10..20).map(|i| format!("line {i}")).collect();
    assert_eq!(model.view_down().unwrap(), revealed);
    let cmd = viewport::view_down(&model, revealed.clone()).unwrap();
    match cmd() {
        viewport::Message::ScrollDown(RenderMsg::ScrollDown { lines, top_boundary, bottom_boundary }) => {
            assert_eq!(top_boundary, 3);
            assert_eq!(bottom_boundary, 13);
            assert_eq!(lines, revealed);
        }
        other => panic!("unexpected message {other:?}"),
    }
    let cmd = viewport::view_up(&model, revealed.clone()).unwrap();
    match cmd() {
        viewport::Message::ScrollUp(RenderMsg::ScrollUp { lines, top_boundary, bottom_boundary }) => {
            assert_eq!((top_boundary, bottom_boundary), (3, 13));
            assert_eq!(lines, revealed);
        }
        other => panic!("unexpected message {other:?}"),
    }
    assert!(viewport::view_down(&model, vec![]).is_none());
    assert!(viewport::view_up(&model, vec![]).is_none());
}

#[test]
fn viewport_sync_at_the_top_carries_no_lines() {
    let model = pager(10, 100);
    let cmd = viewport::sync(&model).unwrap();
    match cmd() {
        viewport::Message::SyncScrollArea(RenderMsg::SyncScrollArea {
            lines,
            top_boundary,
            bottom_boundary,
        }) => {
            assert!(lines.is_empty());
            assert_eq!((top_boundary, bottom_boundary), (2, 12));
        }
        other => panic!("unexpected message {other:?}"),
    }
    assert!(viewport::sync(&viewport::Model::default()).is_none());
}

#[test]
fn viewport_input_wraps_the_key() {
    match viewport::input(Key::F(3)) {
        Some(viewport::Message::Input(Key::F(3))) => {}
        other => panic!("unexpected message {other:?}"),
    }
}

#[test]
fn viewport_message_from_render_message() {
    let msg = RenderMsg::ScrollDown { lines: vec![String::from("x")], top_boundary: 1, bottom_boundary: 2 };
    match viewport::Message::from(msg.clone()) {
        viewport::Message::ScrollDown(inner) => assert_eq!(inner, msg),
        other => panic!("unexpected message {other:?}"),
    }
}

#[test]
fn paginator_counts_pages() {
    let mut model = paginator::Model::new();
    assert_eq!(model.set_total_pages(7), 7);
    assert_eq!(model.set_total_pages(0), 7);
    assert_eq!(model.set_total_pages(-3), 7);
    assert_eq!(model.slice_bounds(7), (0, 1));
    assert_eq!(model.items_on_page(7), 1);
    assert_eq!(model.items_on_page(0), 0);
    model.next_page();
    model.next_page();
    assert_eq!(model.slice_bounds(7), (2, 3));
    assert_eq!(model.slice_bounds(2), (2, 2));
    assert_eq!(model.items_on_page(2), 0);
}

#[test]
fn paginator_stays_within_its_pages() {
    let mut model = paginator::Model::new();
    model.set_total_pages(3);
    model.paginator_type(paginator::PaginatorType::Arabic);
    assert_eq!(paginator::view(&model), "1/3");
    model.prev_page();
    assert_eq!(paginator::view(&model), "1/3");
    model.next_page();
    assert!(!model.on_last_page());
    model.next_page();
    assert!(model.on_last_page());
    model.next_page();
    assert_eq!(paginator::view(&model), "3/3");
    assert_eq!(paginator::arabic_view(&model), "3/3");
}

#[test]
fn paginator_keys() {
    let mut model = paginator::Model::new();
    model.set_total_pages(12);
    model.paginator_type(paginator::PaginatorType::Arabic);
    assert!(paginator::input::<()>(&mut model, Key::Right).is_none());
    assert_eq!(paginator::view(&model), "2/12");
    paginator::input::<()>(&mut model, Key::Right);
    paginator::input::<()>(&mut model, Key::Left);
    assert_eq!(paginator::view(&model), "2/12");
    // the first enabled pair ends the handling of every other key
    paginator::input::<()>(&mut model, Key::Char('l'));
    paginator::input::<()>(&mut model, Key::Down);
    paginator::input::<()>(&mut model, Key::Char('k'));
    assert_eq!(paginator::view(&model), "2/12");
}

#[test]
fn paginator_dots() {
    let mut model = paginator::Model::new();
    model.set_total_pages(4);
    model.next_page();
    let shown = paginator::view(&model);
    assert_eq!(shown, paginator::dots_view(&model));
    assert_eq!(shown.matches('\u{2022}').count(), 4);
    model.set_total_pages(1);
    // the current page is beyond the last: every dot is inactive
    assert_eq!(paginator::view(&model).matches('\u{2022}').count(), 1);
}

#[test]
fn spinner_frames() {
    let mut model = spinner::Model::new();
    assert_eq!(spinner::view(&model), "|");
    let cmds = spinner::update(spinner::tick(), &mut model);
    assert_eq!(spinner::view(&model), "/");
    assert_eq!(cmds.len(), 1);
    assert_eq!(cmds[0].nanos, 100_000_000);
    let next = cmds[0].msg;
    let cmds = spinner::update(next, &mut model);
    assert_eq!(spinner::view(&model), "-");
    // a tick that is not waited for changes nothing
    assert!(spinner::update(next, &mut model).is_empty());
    assert_eq!(spinner::view(&model), "-");
    let cmds = spinner::update(cmds[0].msg, &mut model);
    assert_eq!(spinner::view(&model), "\\");
    spinner::update(cmds[0].msg, &mut model);
    assert_eq!(spinner::view(&model), "|");
}

#[test]
fn spinner_types() {
    let expected: [(spinner::SpinnerType, &str, u64, usize); 9] = [
        (spinner::SpinnerType::Line, "|", 100_000_000, 4),
        (spinner::SpinnerType::Dot, "\u{28fe} ", 100_000_000, 8),
        (spinner::SpinnerType::MiniDot, "\u{280b}", 83_333_333, 10),
        (spinner::SpinnerType::Jump, "\u{2884}", 100_000_000, 7),
        (spinner::SpinnerType::Pulse, "\u{2588}", 125_000_000, 4),
        (spinner::SpinnerType::Points, "\u{2219}\u{2219}\u{2219}", 142_857_142, 4),
        (spinner::SpinnerType::Globe, "\u{1f30d}", 250_000_000, 3),
        (spinner::SpinnerType::Moon, "\u{1f311}", 125_000_000, 8),
        (spinner::SpinnerType::Monkey, "\u{1f648}", 333_333_333, 3),
    ];
    for (spinner_type, first, nanos, frames) in expected {
        assert_eq!(spinner::Spinner::new(spinner_type).interval_nanos(), nanos);
        let mut model = spinner::Model::with(spinner_type);
        assert_eq!(spinner::view(&model), first);
        let mut msg = spinner::tick();
        for _ in 0..frames {
            msg = spinner::update(msg, &mut model)[0].msg;
        }
        assert_eq!(spinner::view(&model), first);
    }
    assert_eq!(spinner::view(&spinner::Model::default()), "(error)");
}

fn typed(keys: &[Key]) -> textinput::Model {
    let mut model = textinput::Model::new();
    for key in keys {
        model.reducer(textinput::Message::Key(*key));
    }
    model
}

#[test]
fn textinput_edits() {
    let mut model = typed(&[Key::Char('a'), Key::Char('b'), Key::Char('c')]);
    assert_eq!(model.value, "abc");
    assert_eq!(model.pos, 3);
    model.reducer(textinput::Message::Key(Key::Backspace));
    assert_eq!((model.value.as_str(), model.pos), ("ab", 2));
    model.reducer(textinput::Message::Key(Key::Left));
    model.reducer(textinput::Message::Key(Key::Char('x')));
    assert_eq!((model.value.as_str(), model.pos), ("axb", 2));
    model.reducer(textinput::Message::Key(Key::Ctrl('a')));
    assert_eq!(model.pos, 0);
    model.reducer(textinput::Message::Key(Key::Left));
    assert_eq!(model.pos, 0);
    model.reducer(textinput::Message::Key(Key::Ctrl('d')));
    assert_eq!((model.value.as_str(), model.pos), ("xb", 0));
    model.reducer(textinput::Message::Key(Key::Delete));
    assert_eq!((model.value.as_str(), model.pos), ("xb", 0));
    model.reducer(textinput::Message::Key(Key::Ctrl('e')));
    assert_eq!(model.pos, 2);
    model.reducer(textinput::Message::Key(Key::Right));
    assert_eq!(model.pos, 2);
    model.reducer(textinput::Message::Key(Key::Ctrl('d')));
    assert_eq!(model.value, "xb");
    model.reducer(textinput::Message::Key(Key::Left));
    model.reducer(textinput::Message::Key(Key::Ctrl('k')));
    assert_eq!((model.value.as_str(), model.pos), ("x", 1));
    model.reducer(textinput::Message::Key(Key::Char('y')));
    model.reducer(textinput::Message::Key(Key::Char('z')));
    model.reducer(textinput::Message::Key(Key::Left));
    model.reducer(textinput::Message::Key(Key::Ctrl('u')));
    assert_eq!((model.value.as_str(), model.pos), ("z", 0));
    model.reducer(textinput::Message::Key(Key::F(1)));
    assert_eq!((model.value.as_str(), model.pos), ("z", 0));
}

#[test]
fn textinput_char_limit() {
    let mut model = textinput::Model::new();
    model.char_limit = 2;
    for c in ['a', 'b', 'c'] {
        model.reducer(textinput::Message::Key(Key::Char(c)));
    }
    assert_eq!(model.value, "ab");
    assert_eq!(model.pos, 2);
}

#[test]
fn textinput_focus_and_blink() {
    let mut model = textinput::Model::new();
    assert!(!model.focused());
    assert!(model.blink);
    assert!(model.focus().is_none());
    assert!(model.focused());
    assert!(!model.blink);
    model.reducer(textinput::Message::CursorBlink);
    assert!(model.blink);
    model.reducer(textinput::Message::CursorBlink);
    assert!(!model.blink);
    model.blur();
    assert!(!model.focused());
    assert!(model.blink);
    // without focus the cursor is blinked out before the message counts
    model.blink = false;
    model.reducer(textinput::Message::CursorBlink);
    assert!(!model.blink);
    assert!(model.blink_cmd().is_none());
    model.cusrsor_mode = textinput::CursorMode::Static;
    let cmd = model.blink_cmd().unwrap();
    assert_eq!(cmd(), textinput::Message::CursorBlink);
    model.cusrsor_mode = textinput::CursorMode::Hide;
    assert!(model.focus().is_none());
    assert!(model.blink);
}

#[test]
fn textinput_view() {
    let mut model = typed(&[Key::Char('h'), Key::Char('i')]);
    assert_eq!(model.view(), "> hi ");
    model.focus();
    assert_eq!(model.view(), "> hi\x1b[7m \x1b[0m");
    model.reducer(textinput::Message::Key(Key::Left));
    assert_eq!(model.view(), "> h\x1b[7mi\x1b[0m");
    model.reducer(textinput::Message::Key(Key::Left));
    assert_eq!(model.view(), "> \x1b[7mh\x1b[0mi");
    let mut empty = textinput::Model::new();
    assert_eq!(empty.view(), ">  ");
    empty.placeholder = String::from("name");
    assert_eq!(empty.view(), "> name");
    assert_eq!(textinput::placeholder_view(&empty), "> name");
    empty.focus();
    assert_eq!(empty.view(), "> \x1b[7mn\x1b[0mame");
    assert_eq!(textinput::cursor_view("x", &empty), "\x1b[7mx\x1b[0m");
    assert_eq!(empty.color_placeholder("plain"), "plain");
    assert_eq!(empty.color_text("plain"), "plain");
    assert_eq!(textinput::Model::default().prompt, "> ");
}

#[test]
fn textinput_view_in_colour() {
    let mut model = typed(&[Key::Char('h'), Key::Char('i')]);
    model.text_color = String::from("#010203");
    model.reducer(textinput::Message::Key(Key::Left));
    let paint = "\x1b[38;2;1;2;3m";
    let shown = model.view();
    let with_paint = format!("> h{paint}i{paint}");
    assert!(shown == with_paint || shown == "> hi", "{shown:?}");
    assert!(model.color_text("h") == format!("h{paint}") || model.color_text("h") == "h");
    // what is no colour leaves the text as it is
    model.text_color = String::from("no colour");
    assert_eq!(model.view(), "> hi");
    let mut empty = textinput::Model::new();
    empty.placeholder = String::from("name");
    empty.placeholder_color = String::from("#0a0b0c");
    let paint = "\x1b[38;2;10;11;12m";
    let shown = empty.view();
    let with_paint = format!("> n{paint}ame{paint}");
    assert!(shown == with_paint || shown == "> name", "{shown:?}");
    empty.focus();
    let shown = empty.view();
    let with_paint = format!("> \x1b[7mn\x1b[0mame{paint}");
    assert!(shown == with_paint || shown == "> \x1b[7mn\x1b[0mame", "{shown:?}");
}

#[test]
fn paginator_dots_in_colour() {
    let mut model = paginator::Model::new();
    model.set_total_pages(2);
    let shown = paginator::view(&model);
    let bright = "\u{2022}\x1b[38;2;221;218;218m";
    let dark = "\u{2022}\x1b[38;2;132;122;133m";
    assert!(shown == format!("{bright}{dark}") || shown == "\u{2022}\u{2022}", "{shown:?}");
}

use div::action::{decode, Action, Direction, Key, Location, Modifiers, RelativeLocation, Target};
use div::file::OpenFile;
use div::row::Row;

fn mods(control: bool, alt: bool, shift: bool) -> Modifiers {
    Modifiers { control, alt, shift }
}

#[test]
fn row_counts_grapheme_clusters() {
    let r = Row::new("hello");
    assert_eq!(r.len(), 5);
    assert!(!r.is_empty());

    // Three clusters, each of several code points.
    let r = Row::new("a\u{310}e\u{301}o\u{308}\u{332}");
    assert_eq!(r.len(), 3);

    let r = Row::new("");
    assert_eq!(r.len(), 0);
    assert!(r.is_empty());
}

#[test]
fn row_render_slices_by_cluster() {
    let r = Row::new("hello");
    assert_eq!(r.render(0, 5), "hello");
    assert_eq!(r.render(1, 3), "el");
    assert_eq!(r.render(0, 0), "");

    let r = Row::new("a\u{310}e\u{301}o\u{308}\u{332}");
    assert_eq!(r.render(1, 2), "e\u{301}");
    assert_eq!(r.render(0, 3), "a\u{310}e\u{301}o\u{308}\u{332}");
}

#[test]
fn row_render_clamps_out_of_range() {
    let r = Row::new("hello");
    // end beyond the cluster count is clamped to it.
    assert_eq!(r.render(0, 99), "hello");
    // start at or past the cluster count yields the empty string.
    assert_eq!(r.render(5, 99), "");
    assert_eq!(r.render(10, 20), "");
    // start beyond end is clamped to end.
    assert_eq!(r.render(3, 2), "");
}

#[test]
fn row_render_replaces_tabs_with_single_spaces() {
    let r = Row::new("a\tb");
    assert_eq!(r.render(0, 3), "a b");
    let r = Row::new("\t\t");
    assert_eq!(r.render(0, 2), "  ");
}

#[test]
fn row_update_len_recomputes() {
    let mut r = Row::new("abc");
    r.update_len();
    assert_eq!(r.len(), 3);
}

#[test]
fn open_file_from_lines_keeps_order_and_count() {
    let lines = vec!["one".to_string(), "two".to_string(), "three".to_string()];
    let f = OpenFile::from_lines("p".to_string(), lines);
    assert_eq!(f.len(), 3);
    assert!(!f.is_empty());
    let texts = ["one", "two", "three"];
    for (i, t) in texts.iter().enumerate() {
        let row = f.get(i).expect("line in range");
        assert_eq!(row.render(0, row.len()), *t);
    }
    assert!(f.get(3).is_none());
}

#[test]
fn open_file_default_is_empty() {
    let f = OpenFile::default();
    assert_eq!(f.len(), 0);
    assert!(f.is_empty());
    assert!(f.get(0).is_none());
}

#[test]
fn decode_plain_navigation_keys() {
    let m = Modifiers::none();
    assert_eq!(decode(Key::Up, m), Action::Move(Direction::Up(1)));
    assert_eq!(decode(Key::Down, m), Action::Move(Direction::Down(1)));
    assert_eq!(decode(Key::Right, m), Action::Move(Direction::Right(1)));
    assert_eq!(decode(Key::Left, m), Action::Move(Direction::Left(1)));
    assert_eq!(
        decode(Key::End, m),
        Action::Move(Direction::To(Location::End(Target::Line)))
    );
    assert_eq!(
        decode(Key::Home, m),
        Action::Move(Direction::To(Location::Beginning(Target::Line)))
    );
    assert_eq!(decode(Key::PageUp, m), Action::Scroll(Direction::Up(5)));
    assert_eq!(decode(Key::PageDown, m), Action::Scroll(Direction::Down(5)));
    assert_eq!(decode(Key::Delete, m), Action::Delete(Direction::Left(1)));
    assert_eq!(decode(Key::Backspace, m), Action::Delete(Direction::Left(1)));
}

#[test]
fn decode_plain_characters_become_input() {
    let m = Modifiers::none();
    assert_eq!(decode(Key::Char('x'), m), Action::Input("x".to_string()));
    assert_eq!(decode(Key::Char('é'), m), Action::Input("é".to_string()));
}

#[test]
fn decode_plain_unlisted_keys_are_unregistered() {
    let m = Modifiers::none();
    assert_eq!(decode(Key::Esc, m), Action::Unregistered(Key::Esc, m));
    assert_eq!(decode(Key::F(1), m), Action::Unregistered(Key::F(1), m));
    assert_eq!(decode(Key::Insert, m), Action::Unregistered(Key::Insert, m));
    assert_eq!(decode(Key::Tab, m), Action::Unregistered(Key::Tab, m));
}

#[test]
fn decode_control_keymap() {
    let m = mods(true, false, false);
    assert_eq!(decode(Key::Char('j'), m), Action::Move(Direction::Down(1)));
    assert_eq!(decode(Key::Char('k'), m), Action::Move(Direction::Up(1)));
    assert_eq!(decode(Key::Char('h'), m), Action::Move(Direction::Left(1)));
    assert_eq!(decode(Key::Char('l'), m), Action::Move(Direction::Right(1)));
    assert_eq!(decode(Key::Char('q'), m), Action::Quit);
    assert_eq!(decode(Key::Up, m), Action::Scroll(Direction::Up(5)));
    assert_eq!(decode(Key::Down, m), Action::Scroll(Direction::Down(5)));
    assert_eq!(decode(Key::Left, m), Action::Scroll(Direction::Left(5)));
    assert_eq!(decode(Key::Right, m), Action::Scroll(Direction::Right(5)));
    assert_eq!(decode(Key::Tab, m), Action::SwitchTab(RelativeLocation::Previous));
    assert_eq!(decode(Key::Enter, m), Action::Newline(Direction::Down(1)));
    assert_eq!(decode(Key::Char('z'), m), Action::Unregistered(Key::Char('z'), m));
}

#[test]
fn decode_control_shift_keymap() {
    let m = mods(true, false, true);
    assert_eq!(decode(Key::Tab, m), Action::SwitchTab(RelativeLocation::Next));
    assert_eq!(decode(Key::Enter, m), Action::Newline(Direction::Up(1)));
    assert_eq!(decode(Key::Up, m), Action::Unregistered(Key::Up, m));
}

#[test]
fn decode_alt_combinations_are_reserved() {
    let alt = mods(false, true, false);
    assert_eq!(decode(Key::Char('a'), alt), Action::Unregistered(Key::Char('a'), alt));
    assert_eq!(decode(Key::Up, alt), Action::Unregistered(Key::Up, alt));
    let ctrl_alt = mods(true, true, false);
    assert_eq!(decode(Key::Char('a'), ctrl_alt), Action::Unregistered(Key::Char('a'), ctrl_alt));
    let alt_shift = mods(false, true, true);
    assert_eq!(decode(Key::Char('a'), alt_shift), Action::Unregistered(Key::Char('a'), alt_shift));
}

#[test]
fn decode_shift_keymap() {
    let m = mods(false, false, true);
    assert_eq!(
        decode(Key::PageUp, m),
        Action::Move(Direction::To(Location::Beginning(Target::Document)))
    );
    assert_eq!(
        decode(Key::PageDown, m),
        Action::Move(Direction::To(Location::End(Target::Document)))
    );
    assert_eq!(decode(Key::Up, m), Action::Unregistered(Key::Up, m));
}

#[test]
fn decode_shift_characters_are_uppercased() {
    let m = mods(false, false, true);
    assert_eq!(decode(Key::Char('a'), m), Action::Input("A".to_string()));
    assert_eq!(decode(Key::Char('A'), m), Action::Input("A".to_string()));
    // Full Unicode uppercasing may yield several characters.
    assert_eq!(decode(Key::Char('ß'), m), Action::Input("SS".to_string()));
}

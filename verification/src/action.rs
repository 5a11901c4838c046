//! Semantic editing actions and the key-event decoder.
//!
//! A raw key event is a key code plus a modifier set; `decode` maps every
//! such pair to exactly one [`Action`], with [`Action::Unregistered`] as the
//! catch-all for combinations no keymap claims.

use vstd::prelude::*;

verus! {

/// A raw key code, decoupled from any terminal backend.
#[derive(Clone, Copy, PartialEq, Eq, Structural, Debug)]
pub enum Key {
    Backspace,
    Enter,
    Left,
    Right,
    Up,
    Down,
    Home,
    End,
    PageUp,
    PageDown,
    Tab,
    BackTab,
    Delete,
    Insert,
    F(u8),
    Char(char),
    Null,
    Esc,
}

/// The modifier set of a key event.
#[derive(Clone, Copy, PartialEq, Eq, Structural, Debug)]
pub struct Modifiers {
    pub control: bool,
    pub alt: bool,
    pub shift: bool,
}

impl Modifiers {
    /// No modifier held.
    pub open spec fn spec_is_none(self) -> bool {
        !self.control && !self.alt && !self.shift
    }

    #[verifier::when_used_as_spec(spec_is_none)]
    pub fn is_none(self) -> (r: bool)
        ensures
            r == self.spec_is_none(),
    {
        !self.control && !self.alt && !self.shift
    }

    pub fn none() -> (r: Self)
        ensures
            r.spec_is_none(),
    {
        Self { control: false, alt: false, shift: false }
    }
}

/// A movement, as a delta or an absolute destination.
#[derive(Clone, Copy, PartialEq, Eq, Structural, Debug)]
pub enum Direction {
    Up(u16),
    Down(u16),
    Left(u16),
    Right(u16),
    ToIdx(u16, u16),
    To(Location),
}

/// A span of text an action applies to.
#[derive(Clone, Copy, PartialEq, Eq, Structural, Debug)]
pub enum Target {
    Word,
    Document,
    Line,
    Bracketed,
    Parenthesis,
    SingleQuotes,
    DoubleQuotes,
    Backticks,
    Selection,
    Char(char),
    Region(u32, u32),
}

/// An absolute place inside a target.
#[derive(Clone, Copy, PartialEq, Eq, Structural, Debug)]
pub enum Location {
    End(Target),
    Beginning(Target),
    Index(u8),
}

/// A place relative to the current one, for buffer and tab switching.
#[derive(Clone, Copy, PartialEq, Eq, Structural, Debug)]
pub enum RelativeLocation {
    Next,
    Previous,
    DiffIndex(i8),
}

/// A decoded, semantic user intent, decoupled from the raw key that
/// produced it.
#[derive(PartialEq, Eq, Debug)]
pub enum Action {
    Move(Direction),
    MoveText(Target, Direction),
    Scroll(Direction),
    Delete(Direction),
    Select(Direction),
    Input(String),
    Unregistered(Key, Modifiers),
    SwitchBuffer(RelativeLocation),
    SwitchTab(RelativeLocation),
    Newline(Direction),
    OpenFile(String),
    DelFile(String),
    Quit,
    Copy(Target),
    Paste,
}

/// The Unicode uppercase mapping of one character, a fixed function of that
/// character alone (it may be more than one character long).
pub uninterp spec fn upper_of(c: char) -> Seq<char>;

/// Relies on char::to_uppercase: yields the Unicode uppercase mapping of
/// `c`, which depends on `c` alone.
#[verifier::external_body]
fn uppercased(c: char) -> (r: String)
    ensures
        r@ == upper_of(c),
{
    c.to_uppercase().collect()
}

/// Relies on char::to_string: the string holding exactly the character `c`.
#[verifier::external_body]
fn char_string(c: char) -> (r: String)
    ensures
        r@ == seq![c],
{
    c.to_string()
}

/// The decoder's full table: what `decode(key, m)` returns, for every pair.
///
/// Dispatch is a priority ladder on the modifier set, first match wins:
/// no modifiers, then Control (with Control+Shift and Control+Alt checked
/// inside), then Alt-bearing combinations (all reserved), then Shift alone.
/// Any pair no rung claims decodes to `Unregistered`.
pub open spec fn decodes_to(key: Key, m: Modifiers, r: Action) -> bool {
    if m.spec_is_none() {
        match key {
            Key::Up => r == Action::Move(Direction::Up(1)),
            Key::Down => r == Action::Move(Direction::Down(1)),
            Key::Right => r == Action::Move(Direction::Right(1)),
            Key::Left => r == Action::Move(Direction::Left(1)),
            Key::End => r == Action::Move(Direction::To(Location::End(Target::Line))),
            Key::Home => r == Action::Move(Direction::To(Location::Beginning(Target::Line))),
            Key::PageUp => r == Action::Scroll(Direction::Up(5)),
            Key::PageDown => r == Action::Scroll(Direction::Down(5)),
            Key::Delete => r == Action::Delete(Direction::Left(1)),
            Key::Backspace => r == Action::Delete(Direction::Left(1)),
            Key::Char(c) => r matches Action::Input(s) && s@ == seq![c],
            _ => r == Action::Unregistered(key, m),
        }
    } else if m.control {
        if m.shift {
            match key {
                Key::Tab => r == Action::SwitchTab(RelativeLocation::Next),
                Key::Enter => r == Action::Newline(Direction::Up(1)),
                _ => r == Action::Unregistered(key, m),
            }
        } else if m.alt {
            r == Action::Unregistered(key, m)
        } else {
            match key {
                Key::Char('j') => r == Action::Move(Direction::Down(1)),
                Key::Char('k') => r == Action::Move(Direction::Up(1)),
                Key::Char('h') => r == Action::Move(Direction::Left(1)),
                Key::Char('l') => r == Action::Move(Direction::Right(1)),
                Key::Char('q') => r == Action::Quit,
                Key::Up => r == Action::Scroll(Direction::Up(5)),
                Key::Down => r == Action::Scroll(Direction::Down(5)),
                Key::Left => r == Action::Scroll(Direction::Left(5)),
                Key::Right => r == Action::Scroll(Direction::Right(5)),
                Key::Tab => r == Action::SwitchTab(RelativeLocation::Previous),
                Key::Enter => r == Action::Newline(Direction::Down(1)),
                _ => r == Action::Unregistered(key, m),
            }
        }
    } else if m.alt {
        r == Action::Unregistered(key, m)
    } else {
        match key {
            Key::PageUp => r == Action::Move(Direction::To(Location::Beginning(Target::Document))),
            Key::PageDown => r == Action::Move(Direction::To(Location::End(Target::Document))),
            Key::Char(c) => r matches Action::Input(s) && s@ == upper_of(c),
            _ => r == Action::Unregistered(key, m),
        }
    }
}

/// Decodes one raw key event into its semantic action. Total: every
/// (key, modifier-set) pair yields exactly the action `decodes_to` lists.
pub fn decode(key: Key, m: Modifiers) -> (r: Action)
    ensures
        decodes_to(key, m, r),
{
    if m.is_none() {
        match key {
            Key::Up => Action::Move(Direction::Up(1)),
            Key::Down => Action::Move(Direction::Down(1)),
            Key::Right => Action::Move(Direction::Right(1)),
            Key::Left => Action::Move(Direction::Left(1)),
            Key::End => Action::Move(Direction::To(Location::End(Target::Line))),
            Key::Home => Action::Move(Direction::To(Location::Beginning(Target::Line))),
            Key::PageUp => Action::Scroll(Direction::Up(5)),
            Key::PageDown => Action::Scroll(Direction::Down(5)),
            Key::Delete => Action::Delete(Direction::Left(1)),
            Key::Backspace => Action::Delete(Direction::Left(1)),
            Key::Char(c) => Action::Input(char_string(c)),
            _ => Action::Unregistered(key, m),
        }
    } else if m.control {
        if m.shift {
            match key {
                Key::Tab => Action::SwitchTab(RelativeLocation::Next),
                Key::Enter => Action::Newline(Direction::Up(1)),
                _ => Action::Unregistered(key, m),
            }
        } else if m.alt {
            Action::Unregistered(key, m)
        } else {
            match key {
                Key::Char('j') => Action::Move(Direction::Down(1)),
                Key::Char('k') => Action::Move(Direction::Up(1)),
                Key::Char('h') => Action::Move(Direction::Left(1)),
                Key::Char('l') => Action::Move(Direction::Right(1)),
                Key::Char('q') => Action::Quit,
                Key::Up => Action::Scroll(Direction::Up(5)),
                Key::Down => Action::Scroll(Direction::Down(5)),
                Key::Left => Action::Scroll(Direction::Left(5)),
                Key::Right => Action::Scroll(Direction::Right(5)),
                Key::Tab => Action::SwitchTab(RelativeLocation::Previous),
                Key::Enter => Action::Newline(Direction::Down(1)),
                _ => Action::Unregistered(key, m),
            }
        }
    } else if m.alt {
        Action::Unregistered(key, m)
    } else {
        match key {
            Key::PageUp => Action::Move(Direction::To(Location::Beginning(Target::Document))),
            Key::PageDown => Action::Move(Direction::To(Location::End(Target::Document))),
            Key::Char(c) => Action::Input(uppercased(c)),
            _ => Action::Unregistered(key, m),
        }
    }
}

} // verus!

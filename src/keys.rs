use vstd::prelude::*;

verus! {

/// The modifier keys held with a key press, as far as dispatch tells them apart.
#[derive(Clone, Copy, Debug, PartialEq, Eq, Structural)]
pub enum Modifiers {
    /// No modifier at all.
    NoModifier,
    /// Control alone.
    Control,
    /// Any other combination.
    Other,
}

/// The key of a press, as far as dispatch tells keys apart.
#[derive(Clone, Copy, Debug, PartialEq, Eq, Structural)]
pub enum Key {
    Esc,
    Char(char),
    Other,
}

/// What a key press asks the session to do.
#[derive(Clone, Copy, Debug, PartialEq, Eq, Structural)]
pub enum Action {
    /// Append the character to the input.
    Type(char),
    /// Stop the session loop.
    Quit,
    /// Start over with a new sample of words.
    Reset,
    /// Leave the session as it is.
    Ignore,
}

/// Key dispatch: Esc with any modifiers, or Control with `c` or `C`, quits;
/// a character with no modifier is typed; Control with `r` resets; anything
/// else is ignored.
pub open spec fn action_spec(m: Modifiers, k: Key) -> Action {
    match k {
        Key::Esc => Action::Quit,
        Key::Char(c) => match m {
            Modifiers::Control => if c == 'c' || c == 'C' {
                Action::Quit
            } else if c == 'r' {
                Action::Reset
            } else {
                Action::Ignore
            },
            Modifiers::NoModifier => Action::Type(c),
            Modifiers::Other => Action::Ignore,
        },
        Key::Other => Action::Ignore,
    }
}

/// Translates a key press into the action it asks for.
pub fn action_for(m: Modifiers, k: Key) -> (r: Action)
    ensures
        r == action_spec(m, k),
{
    match k {
        Key::Esc => Action::Quit,
        Key::Char(c) => match m {
            Modifiers::Control => {
                if c == 'c' || c == 'C' {
                    Action::Quit
                } else if c == 'r' {
                    Action::Reset
                } else {
                    Action::Ignore
                }
            },
            Modifiers::NoModifier => Action::Type(c),
            Modifiers::Other => Action::Ignore,
        },
        Key::Other => Action::Ignore,
    }
}

} // verus!

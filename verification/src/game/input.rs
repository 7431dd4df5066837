use vstd::prelude::*;

verus! {

/// The commands that a key press can stand for.
#[derive(Debug, Clone, Copy, PartialEq, Eq, Structural)]
pub enum GameCmd {
    MoveLeft,
    MoveRight,
    MoveUp,
    MoveDown,
    Fire,
    Pause,
    Exit,
    Restart,
    ToggleMusic,
}

/// What happened to a key.
#[derive(Debug, Clone, Copy, PartialEq, Eq, Structural)]
pub enum KeyEventKind {
    Press,
    Repeat,
    Release,
}

/// Which key it was, as far as the game tells keys apart.
#[derive(Debug, Clone, Copy, PartialEq, Eq, Structural)]
pub enum KeyCode {
    Char(char),
    Left,
    Right,
    Up,
    Down,
    Esc,
    Other,
}

/// A key event as it comes from the terminal.
#[derive(Debug, Clone, Copy, PartialEq, Eq, Structural)]
pub struct KeyEvent {
    pub code: KeyCode,
    pub kind: KeyEventKind,
}

/// The command that a character key stands for, if any.
pub open spec fn char_command(c: char) -> Option<GameCmd> {
    if c == 'a' {
        Some(GameCmd::MoveLeft)
    } else if c == 'd' {
        Some(GameCmd::MoveRight)
    } else if c == 'w' {
        Some(GameCmd::MoveUp)
    } else if c == 's' {
        Some(GameCmd::MoveDown)
    } else if c == ' ' {
        Some(GameCmd::Fire)
    } else if c == 'p' {
        Some(GameCmd::Pause)
    } else if c == 'q' {
        Some(GameCmd::Exit)
    } else if c == 'r' {
        Some(GameCmd::Restart)
    } else if c == 'm' {
        Some(GameCmd::ToggleMusic)
    } else {
        None
    }
}

/// The command that a key event stands for. Only presses count; releases and
/// repeats stand for nothing, and so does a key that the game does not know.
pub open spec fn key_command(ev: KeyEvent) -> Option<GameCmd> {
    if ev.kind != KeyEventKind::Press {
        None
    } else {
        match ev.code {
            KeyCode::Char(c) => char_command(c),
            KeyCode::Left => Some(GameCmd::MoveLeft),
            KeyCode::Right => Some(GameCmd::MoveRight),
            KeyCode::Up => Some(GameCmd::MoveUp),
            KeyCode::Down => Some(GameCmd::MoveDown),
            KeyCode::Esc => Some(GameCmd::Exit),
            KeyCode::Other => None,
        }
    }
}

/// Maps a key event to the command it stands for.
pub fn map_key(ev: KeyEvent) -> (cmd: Option<GameCmd>)
    ensures
        cmd == key_command(ev),
{
    if ev.kind != KeyEventKind::Press {
        return None;
    }
    match ev.code {
        KeyCode::Char(c) => {
            if c == 'a' {
                Some(GameCmd::MoveLeft)
            } else if c == 'd' {
                Some(GameCmd::MoveRight)
            } else if c == 'w' {
                Some(GameCmd::MoveUp)
            } else if c == 's' {
                Some(GameCmd::MoveDown)
            } else if c == ' ' {
                Some(GameCmd::Fire)
            } else if c == 'p' {
                Some(GameCmd::Pause)
            } else if c == 'q' {
                Some(GameCmd::Exit)
            } else if c == 'r' {
                Some(GameCmd::Restart)
            } else if c == 'm' {
                Some(GameCmd::ToggleMusic)
            } else {
                None
            }
        },
        KeyCode::Left => Some(GameCmd::MoveLeft),
        KeyCode::Right => Some(GameCmd::MoveRight),
        KeyCode::Up => Some(GameCmd::MoveUp),
        KeyCode::Down => Some(GameCmd::MoveDown),
        KeyCode::Esc => Some(GameCmd::Exit),
        KeyCode::Other => None,
    }
}

} // verus!

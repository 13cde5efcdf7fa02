//! The mode automaton's input dispatch: a raw key resolves into an
//! action strictly as a function of the (screen, input-mode) pair —
//! plus, for the ad-hoc modal's submit, the text already entered.
//! Unmapped keys are no-ops.

use crate::actions::ActionV;
use crate::actions::AppAction;
use crate::actions::Key;
use crate::state::App;
use crate::state::CurrentScreen;
use crate::state::InputMode;
use vstd::prelude::*;

verus! {

/// The action one key press maps to. A control-q always quits; a
/// control-s inside the search screen's modes toggles the sidebar;
/// every other mapping ignores the control flag.
pub open spec fn key_action(
    screen: CurrentScreen,
    mode: InputMode,
    adhoc: Seq<char>,
    key: Key,
    ctrl: bool,
) -> Option<ActionV> {
    if ctrl && key == Key::Char('q') {
        Some(ActionV::Quit)
    } else {
        match mode {
            InputMode::Normal => match key {
                Key::Tab => Some(ActionV::SwitchTab),
                Key::Char(c) => {
                    if c == 'q' {
                        Some(ActionV::Quit)
                    } else {
                        match screen {
                            CurrentScreen::Launcher => {
                                if c == 'j' {
                                    Some(ActionV::SelectNext)
                                } else if c == 'k' {
                                    Some(ActionV::SelectPrev)
                                } else if c == '/' {
                                    Some(ActionV::ToggleFilter)
                                } else if c == 'a' {
                                    Some(ActionV::OpenAddModal)
                                } else if c == 'e' {
                                    Some(ActionV::OpenEditModal)
                                } else if c == 'd' {
                                    Some(ActionV::ConfirmDelete)
                                } else if c == ':' {
                                    Some(ActionV::OpenAdHocModal)
                                } else {
                                    None
                                }
                            },
                            CurrentScreen::Search => None,
                        }
                    }
                },
                _ => match screen {
                    CurrentScreen::Launcher => match key {
                        Key::Down => Some(ActionV::SelectNext),
                        Key::Up => Some(ActionV::SelectPrev),
                        Key::Enter => Some(ActionV::LaunchSelected),
                        _ => None,
                    },
                    CurrentScreen::Search => None,
                },
            },
            InputMode::SearchInput => match key {
                Key::Esc => Some(ActionV::SwitchTab),
                Key::Tab => Some(ActionV::CycleSearchFocus),
                Key::Enter => Some(ActionV::SubmitSearch),
                Key::Backspace => Some(ActionV::DeleteSearchChar),
                Key::Char(c) => {
                    if ctrl && c == 's' {
                        Some(ActionV::ToggleSearchSidebar)
                    } else {
                        Some(ActionV::EnterSearchChar(c))
                    }
                },
                _ => None,
            },
            InputMode::SearchSidebar => match key {
                Key::Esc => Some(ActionV::SwitchTab),
                Key::Tab => Some(ActionV::CycleSearchFocus),
                Key::Down => Some(ActionV::SidebarNext),
                Key::Up => Some(ActionV::SidebarPrev),
                Key::Enter => Some(ActionV::SidebarSelect),
                Key::Char(c) => {
                    if ctrl && c == 's' {
                        Some(ActionV::ToggleSearchSidebar)
                    } else if c == 'j' {
                        Some(ActionV::SidebarNext)
                    } else if c == 'k' {
                        Some(ActionV::SidebarPrev)
                    } else if c == ' ' {
                        Some(ActionV::SidebarSelect)
                    } else {
                        None
                    }
                },
                _ => None,
            },
            InputMode::ChatHistory => match key {
                Key::Esc => Some(ActionV::SwitchTab),
                Key::Tab => Some(ActionV::CycleSearchFocus),
                Key::Up => Some(ActionV::ScrollChat(-1i16)),
                Key::Down => Some(ActionV::ScrollChat(1i16)),
                Key::PageUp => Some(ActionV::ScrollChat(-10i16)),
                Key::PageDown => Some(ActionV::ScrollChat(10i16)),
                Key::Char(c) => {
                    if ctrl && c == 's' {
                        Some(ActionV::ToggleSearchSidebar)
                    } else if c == 'k' {
                        Some(ActionV::ScrollChat(-1i16))
                    } else if c == 'j' {
                        Some(ActionV::ScrollChat(1i16))
                    } else {
                        None
                    }
                },
                _ => None,
            },
            InputMode::Filtering => match key {
                Key::Enter => Some(ActionV::ToggleFilter),
                Key::Esc => Some(ActionV::ToggleFilter),
                Key::Backspace => Some(ActionV::BackspaceFilter),
                Key::Char(c) => Some(ActionV::EnterFilterChar(c)),
                _ => None,
            },
            InputMode::Editing => match key {
                Key::Esc => Some(ActionV::CloseModal),
                Key::Tab => Some(ActionV::CycleFormFocus),
                Key::Enter => Some(ActionV::SubmitForm),
                Key::Backspace => Some(ActionV::FormBackspace),
                Key::Char(c) => Some(ActionV::FormChar(c)),
                _ => None,
            },
            InputMode::AdHocCmd => match key {
                Key::Esc => Some(ActionV::CloseModal),
                Key::Enter => Some(ActionV::SubmitAdHoc(adhoc)),
                Key::Backspace => Some(ActionV::AdHocBackspace),
                Key::Char(c) => Some(ActionV::AdHocChar(c)),
                _ => None,
            },
        }
    }
}

impl App {
    /// Resolves one key press into the action it means in the current
    /// screen and mode.
    pub fn map_key(&self, key: Key, ctrl: bool) -> (r: Option<AppAction>)
        ensures
            r.deep_view() == key_action(
                self.current_screen,
                self.input_mode,
                self.adhoc_input@,
                key,
                ctrl,
            ),
    {
        if ctrl {
            if let Key::Char(c) = key {
                if c == 'q' {
                    return Some(AppAction::Quit);
                }
            }
        }
        match self.input_mode {
            InputMode::Normal => match key {
                Key::Tab => Some(AppAction::SwitchTab),
                Key::Char(c) => {
                    if c == 'q' {
                        Some(AppAction::Quit)
                    } else {
                        match self.current_screen {
                            CurrentScreen::Launcher => {
                                if c == 'j' {
                                    Some(AppAction::SelectNext)
                                } else if c == 'k' {
                                    Some(AppAction::SelectPrev)
                                } else if c == '/' {
                                    Some(AppAction::ToggleFilter)
                                } else if c == 'a' {
                                    Some(AppAction::OpenAddModal)
                                } else if c == 'e' {
                                    Some(AppAction::OpenEditModal)
                                } else if c == 'd' {
                                    Some(AppAction::ConfirmDelete)
                                } else if c == ':' {
                                    Some(AppAction::OpenAdHocModal)
                                } else {
                                    None
                                }
                            },
                            CurrentScreen::Search => None,
                        }
                    }
                },
                _ => match self.current_screen {
                    CurrentScreen::Launcher => match key {
                        Key::Down => Some(AppAction::SelectNext),
                        Key::Up => Some(AppAction::SelectPrev),
                        Key::Enter => Some(AppAction::LaunchSelected),
                        _ => None,
                    },
                    CurrentScreen::Search => None,
                },
            },
            InputMode::SearchInput => match key {
                Key::Esc => Some(AppAction::SwitchTab),
                Key::Tab => Some(AppAction::CycleSearchFocus),
                Key::Enter => Some(AppAction::SubmitSearch),
                Key::Backspace => Some(AppAction::DeleteSearchChar),
                Key::Char(c) => {
                    if ctrl && c == 's' {
                        Some(AppAction::ToggleSearchSidebar)
                    } else {
                        Some(AppAction::EnterSearchChar(c))
                    }
                },
                _ => None,
            },
            InputMode::SearchSidebar => match key {
                Key::Esc => Some(AppAction::SwitchTab),
                Key::Tab => Some(AppAction::CycleSearchFocus),
                Key::Down => Some(AppAction::SidebarNext),
                Key::Up => Some(AppAction::SidebarPrev),
                Key::Enter => Some(AppAction::SidebarSelect),
                Key::Char(c) => {
                    if ctrl && c == 's' {
                        Some(AppAction::ToggleSearchSidebar)
                    } else if c == 'j' {
                        Some(AppAction::SidebarNext)
                    } else if c == 'k' {
                        Some(AppAction::SidebarPrev)
                    } else if c == ' ' {
                        Some(AppAction::SidebarSelect)
                    } else {
                        None
                    }
                },
                _ => None,
            },
            InputMode::ChatHistory => match key {
                Key::Esc => Some(AppAction::SwitchTab),
                Key::Tab => Some(AppAction::CycleSearchFocus),
                Key::Up => Some(AppAction::ScrollChat(-1)),
                Key::Down => Some(AppAction::ScrollChat(1)),
                Key::PageUp => Some(AppAction::ScrollChat(-10)),
                Key::PageDown => Some(AppAction::ScrollChat(10)),
                Key::Char(c) => {
                    if ctrl && c == 's' {
                        Some(AppAction::ToggleSearchSidebar)
                    } else if c == 'k' {
                        Some(AppAction::ScrollChat(-1))
                    } else if c == 'j' {
                        Some(AppAction::ScrollChat(1))
                    } else {
                        None
                    }
                },
                _ => None,
            },
            InputMode::Filtering => match key {
                Key::Enter => Some(AppAction::ToggleFilter),
                Key::Esc => Some(AppAction::ToggleFilter),
                Key::Backspace => Some(AppAction::BackspaceFilter),
                Key::Char(c) => Some(AppAction::EnterFilterChar(c)),
                _ => None,
            },
            InputMode::AdHocCmd => match key {
                Key::Esc => Some(AppAction::CloseModal),
                Key::Enter => Some(AppAction::SubmitAdHoc(self.adhoc_input.clone())),
                Key::Backspace => Some(AppAction::AdHocBackspace),
                Key::Char(c) => Some(AppAction::AdHocChar(c)),
                _ => None,
            },
            InputMode::Editing => match key {
                Key::Esc => Some(AppAction::CloseModal),
                Key::Tab => Some(AppAction::CycleFormFocus),
                Key::Enter => Some(AppAction::SubmitForm),
                Key::Backspace => Some(AppAction::FormBackspace),
                Key::Char(c) => Some(AppAction::FormChar(c)),
                _ => None,
            },
        }
    }
}

} // verus!

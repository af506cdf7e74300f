//! Screen navigation and selection state.

use crate::analytics::stats::Statistics;
use vstd::prelude::*;

verus! {

/// The screens of the application.
#[derive(Debug, Clone, Copy, PartialEq, Eq, Structural)]
pub enum Screen {
    TokenInput,
    Home,
    Discovery,
    Messages,
    TestMessage,
    Monitor,
    Analytics,
    RawJson,
    Help,
}

/// Where a test message goes.
#[derive(Debug, Clone, Copy, PartialEq, Eq, Structural)]
pub enum TestMessageMode {
    /// To the chat that is selected.
    SelectedChat,
    /// To a chat whose id is typed in.
    ManualChatId,
}

/// The input field of the test message screen that takes the keys.
#[derive(Debug, Clone, Copy, PartialEq, Eq, Structural)]
pub enum InputFocus {
    ChatId,
    MessageText,
}

/// The screen that `Esc` leads to from `screen`, if any: from the messages
/// of a chat to the list of chats, from the other screens to the home
/// screen. The home screen and the token input lead nowhere.
pub open spec fn back_target(screen: Screen) -> Option<Screen> {
    match screen {
        Screen::Messages => Some(Screen::Discovery),
        Screen::Discovery | Screen::Monitor | Screen::Analytics | Screen::RawJson
        | Screen::TestMessage | Screen::Help => Some(Screen::Home),
        Screen::Home | Screen::TokenInput => None,
    }
}

/// The index after `index` in a list of `count` items, going round.
pub open spec fn next_index(index: int, count: int) -> int {
    (index + 1) % count
}

/// The index before `index` in a list of `count` items, going round.
pub open spec fn previous_index(index: int, count: int) -> int {
    if index == 0 {
        count - 1
    } else {
        index - 1
    }
}

/// The index after `index` in a list of `count` items, going round.
fn step_forward(index: usize, count: usize) -> (next: usize)
    requires
        count > 0,
    ensures
        next == next_index(index as int, count as int),
        next < count,
{
    proof {
        vstd::arithmetic::div_mod::lemma_add_mod_noop(index as int, 1, count as int);
        vstd::arithmetic::div_mod::lemma_mod_bound(index as int, count as int);
        if count == 1 {
            assert((index as int + 1) % 1 == 0);
        } else {
            vstd::arithmetic::div_mod::lemma_small_mod(1, count as nat);
        }
    }
    let within: usize = index % count;
    if within + 1 == count {
        proof {
            vstd::arithmetic::div_mod::lemma_mod_self_0(count as int);
        }
        0
    } else {
        proof {
            vstd::arithmetic::div_mod::lemma_small_mod((within + 1) as nat, count as nat);
        }
        within + 1
    }
}

/// The index before `index` in a list of `count` items, going round.
fn step_back(index: usize, count: usize) -> (previous: usize)
    requires
        count > 0,
    ensures
        previous == previous_index(index as int, count as int),
{
    if index == 0 {
        count - 1
    } else {
        index - 1
    }
}

/// What the user interface remembers between two keys.
#[derive(Debug)]
pub struct UiState {
    pub current_screen: Screen,
    pub previous_screen: Option<Screen>,
    pub should_quit: bool,
    /// Whether the screen has to be drawn again.
    pub needs_render: bool,
    pub selected_chat_index: usize,
    pub selected_message_index: usize,
    pub selected_update_index: usize,
    pub token_input: String,
    pub token_error: Option<String>,
    pub test_message_input: String,
    pub test_message_result: Option<String>,
    pub test_message_mode: TestMessageMode,
    pub manual_chat_id_input: String,
    pub test_message_input_focus: InputFocus,
    /// The statistics that the analytics screen shows.
    pub statistics: Option<Statistics>,
    pub status_message: Option<String>,
}

impl UiState {
    /// Whether this is the state an application starts in on the screen
    /// `screen`: nothing selected or typed, and the screen still to be
    /// drawn.
    pub open spec fn starts_on(self, screen: Screen) -> bool {
        &&& self.current_screen == screen
        &&& self.previous_screen is None
        &&& !self.should_quit
        &&& self.needs_render
        &&& self.selected_chat_index == 0
        &&& self.selected_message_index == 0
        &&& self.selected_update_index == 0
        &&& self.token_input@.len() == 0
        &&& self.token_error is None
        &&& self.test_message_input@.len() == 0
        &&& self.test_message_result is None
        &&& self.test_message_mode == TestMessageMode::SelectedChat
        &&& self.manual_chat_id_input@.len() == 0
        &&& self.test_message_input_focus == InputFocus::MessageText
        &&& self.statistics is None
        &&& self.status_message is None
    }

    /// This state with the screen still to be drawn.
    pub open spec fn marked(self) -> UiState {
        UiState { needs_render: true, ..self }
    }

    /// This state after going to `screen`: the screen left is remembered,
    /// the status message is gone, and the screen has to be drawn again.
    pub open spec fn switched(self, screen: Screen) -> UiState {
        UiState {
            current_screen: screen,
            previous_screen: Some(self.current_screen),
            status_message: None,
            needs_render: true,
            ..self
        }
    }

    /// This state after going one level up: on the screen that
    /// [`back_target`] gives; on the home screen asked to end; on the token
    /// input as it was.
    pub open spec fn gone_back(self) -> UiState {
        match back_target(self.current_screen) {
            Some(screen) => self.switched(screen),
            None => UiState {
                should_quit: self.should_quit || self.current_screen == Screen::Home,
                ..self
            },
        }
    }

    /// This state with the next of `count` chats selected, going round.
    pub open spec fn at_next_chat(self, count: usize) -> UiState {
        if count == 0 {
            self
        } else {
            UiState {
                selected_chat_index: next_index(self.selected_chat_index as int, count as int) as usize,
                needs_render: true,
                ..self
            }
        }
    }

    /// This state with the chat before selected, going round.
    pub open spec fn at_previous_chat(self, count: usize) -> UiState {
        if count == 0 {
            self
        } else {
            UiState {
                selected_chat_index: previous_index(self.selected_chat_index as int, count as int) as usize,
                needs_render: true,
                ..self
            }
        }
    }

    /// This state with the next of `count` messages selected, going round.
    pub open spec fn at_next_message(self, count: usize) -> UiState {
        if count == 0 {
            self
        } else {
            UiState {
                selected_message_index: next_index(
                    self.selected_message_index as int,
                    count as int,
                ) as usize,
                needs_render: true,
                ..self
            }
        }
    }

    /// This state with the message before selected, going round.
    pub open spec fn at_previous_message(self, count: usize) -> UiState {
        if count == 0 {
            self
        } else {
            UiState {
                selected_message_index: previous_index(
                    self.selected_message_index as int,
                    count as int,
                ) as usize,
                needs_render: true,
                ..self
            }
        }
    }

    /// This state with the next of `count` updates selected, going round.
    pub open spec fn at_next_update(self, count: usize) -> UiState {
        if count == 0 {
            self
        } else {
            UiState {
                selected_update_index: next_index(
                    self.selected_update_index as int,
                    count as int,
                ) as usize,
                needs_render: true,
                ..self
            }
        }
    }

    /// This state with the update before selected, going round.
    pub open spec fn at_previous_update(self, count: usize) -> UiState {
        if count == 0 {
            self
        } else {
            UiState {
                selected_update_index: previous_index(
                    self.selected_update_index as int,
                    count as int,
                ) as usize,
                needs_render: true,
                ..self
            }
        }
    }

    /// This state with the other way of sending a test message. With a
    /// typed chat id the chat id field takes the keys first; with the
    /// selected chat the message text does, the only field there is.
    pub open spec fn with_other_mode(self) -> UiState {
        match self.test_message_mode {
            TestMessageMode::SelectedChat => UiState {
                test_message_mode: TestMessageMode::ManualChatId,
                test_message_input_focus: InputFocus::ChatId,
                needs_render: true,
                ..self
            },
            TestMessageMode::ManualChatId => UiState {
                test_message_mode: TestMessageMode::SelectedChat,
                test_message_input_focus: InputFocus::MessageText,
                needs_render: true,
                ..self
            },
        }
    }

    /// This state with the keys going to the other input field.
    pub open spec fn with_other_focus(self) -> UiState {
        UiState {
            test_message_input_focus: match self.test_message_input_focus {
                InputFocus::ChatId => InputFocus::MessageText,
                InputFocus::MessageText => InputFocus::ChatId,
            },
            needs_render: true,
            ..self
        }
    }

    /// The state the application starts in: the home screen, nothing
    /// selected or typed, and the screen still to be drawn.
    pub fn new() -> (state: Self)
        ensures
            state.starts_on(Screen::Home),
    {
        UiState {
            current_screen: Screen::Home,
            previous_screen: None,
            should_quit: false,
            needs_render: true,
            selected_chat_index: 0,
            selected_message_index: 0,
            selected_update_index: 0,
            token_input: String::new(),
            token_error: None,
            test_message_input: String::new(),
            test_message_result: None,
            test_message_mode: TestMessageMode::SelectedChat,
            manual_chat_id_input: String::new(),
            test_message_input_focus: InputFocus::MessageText,
            statistics: None,
            status_message: None,
        }
    }

    /// Asks the application to end.
    pub fn quit(&mut self)
        ensures
            *final(self) == (UiState { should_quit: true, ..*old(self) }),
    {
        self.should_quit = true;
    }

    /// Notes that the screen has to be drawn again.
    pub fn mark_dirty(&mut self)
        ensures
            *final(self) == old(self).marked(),
    {
        self.needs_render = true;
    }

    /// Notes that the screen has been drawn.
    pub fn clear_dirty(&mut self)
        ensures
            *final(self) == (UiState { needs_render: false, ..*old(self) }),
    {
        self.needs_render = false;
    }

    /// Goes to `screen`. The screen left is remembered, the status message
    /// goes, and the screen has to be drawn again.
    pub fn switch_screen(&mut self, screen: Screen)
        ensures
            *final(self) == old(self).switched(screen),
    {
        self.previous_screen = Some(self.current_screen);
        self.current_screen = screen;
        self.clear_status();
        self.mark_dirty();
    }

    /// Goes one level up: to the screen that [`back_target`] gives. On the
    /// home screen this asks the application to end; on the token input it
    /// does nothing.
    pub fn go_back(&mut self)
        ensures
            *final(self) == old(self).gone_back(),
    {
        let target = match self.current_screen {
            Screen::Messages => Some(Screen::Discovery),
            Screen::Discovery
            | Screen::Monitor
            | Screen::Analytics
            | Screen::RawJson
            | Screen::TestMessage
            | Screen::Help => Some(Screen::Home),
            Screen::Home => {
                self.should_quit = true;
                None
            },
            Screen::TokenInput => None,
        };
        match target {
            Some(screen) => self.switch_screen(screen),
            None => {},
        }
    }

    /// Shows `message` as the status message; the screen has to be drawn
    /// again.
    pub fn set_status(&mut self, message: String)
        ensures
            *final(self) == (UiState {
                status_message: Some(message),
                needs_render: true,
                ..*old(self)
            }),
    {
        self.status_message = Some(message);
        self.mark_dirty();
    }

    /// Takes the status message away.
    pub fn clear_status(&mut self)
        ensures
            *final(self) == (UiState { status_message: None, ..*old(self) }),
    {
        self.status_message = None;
    }

    /// Selects the next of `chat_count` chats, going round. With no chat
    /// nothing changes.
    pub fn next_chat(&mut self, chat_count: usize)
        ensures
            *final(self) == old(self).at_next_chat(chat_count),
    {
        if chat_count > 0 {
            self.selected_chat_index = step_forward(self.selected_chat_index, chat_count);
            self.mark_dirty();
        }
    }

    /// Selects the chat before, going round. With no chat nothing changes.
    pub fn previous_chat(&mut self, chat_count: usize)
        ensures
            *final(self) == old(self).at_previous_chat(chat_count),
    {
        if chat_count > 0 {
            self.selected_chat_index = step_back(self.selected_chat_index, chat_count);
            self.mark_dirty();
        }
    }

    /// Selects the next of `message_count` messages, going round. With no
    /// message nothing changes.
    pub fn next_message(&mut self, message_count: usize)
        ensures
            *final(self) == old(self).at_next_message(message_count),
    {
        if message_count > 0 {
            self.selected_message_index = step_forward(self.selected_message_index, message_count);
            self.mark_dirty();
        }
    }

    /// Selects the message before, going round. With no message nothing
    /// changes.
    pub fn previous_message(&mut self, message_count: usize)
        ensures
            *final(self) == old(self).at_previous_message(message_count),
    {
        if message_count > 0 {
            self.selected_message_index = step_back(self.selected_message_index, message_count);
            self.mark_dirty();
        }
    }

    /// Selects the next of `update_count` updates, going round. With no
    /// update nothing changes.
    pub fn next_update(&mut self, update_count: usize)
        ensures
            *final(self) == old(self).at_next_update(update_count),
    {
        if update_count > 0 {
            self.selected_update_index = step_forward(self.selected_update_index, update_count);
            self.mark_dirty();
        }
    }

    /// Selects the update before, going round. With no update nothing
    /// changes.
    pub fn previous_update(&mut self, update_count: usize)
        ensures
            *final(self) == old(self).at_previous_update(update_count),
    {
        if update_count > 0 {
            self.selected_update_index = step_back(self.selected_update_index, update_count);
            self.mark_dirty();
        }
    }

    /// Changes where a test message goes.
    pub fn toggle_test_message_mode(&mut self)
        ensures
            *final(self) == old(self).with_other_mode(),
    {
        match self.test_message_mode {
            TestMessageMode::SelectedChat => {
                self.test_message_input_focus = InputFocus::ChatId;
                self.test_message_mode = TestMessageMode::ManualChatId;
            },
            TestMessageMode::ManualChatId => {
                self.test_message_input_focus = InputFocus::MessageText;
                self.test_message_mode = TestMessageMode::SelectedChat;
            },
        }
        self.mark_dirty();
    }

    /// Moves the keys to the other input field of the test message screen.
    pub fn toggle_input_focus(&mut self)
        ensures
            *final(self) == old(self).with_other_focus(),
    {
        self.test_message_input_focus = match self.test_message_input_focus {
            InputFocus::ChatId => InputFocus::MessageText,
            InputFocus::MessageText => InputFocus::ChatId,
        };
        self.mark_dirty();
    }
}

impl Default for UiState {
    fn default() -> (state: Self)
        ensures
            state.starts_on(Screen::Home),
    {
        UiState::new()
    }
}

} // verus!

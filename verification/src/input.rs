//! What a key does. Each screen has its keys; the keys that no screen
//! takes go to the keys that work everywhere. What a key asks for beyond a
//! change of state (a request to the API, a file to write, a task to run or
//! to stop) is handed back to be done.

use crate::app::facade::App;
use crate::app::monitoring::ToggleAction;
use crate::app::state::{InputFocus, Screen, TestMessageMode, UiState};
use crate::text::{pop_char, push_char};
use vstd::prelude::*;

verus! {

/// Whether a handler took a key.
#[derive(Debug, Clone, Copy, PartialEq, Eq, Structural)]
pub enum KeyAction {
    /// The handler took the key.
    Handled,
    /// The key is for the next handler.
    NotHandled,
}

/// A key, as far as the handlers tell keys apart.
#[derive(Debug, Clone, Copy, PartialEq, Eq, Structural)]
pub enum Key {
    Esc,
    Enter,
    Tab,
    BackTab,
    Backspace,
    Up,
    Down,
    Char(char),
    F(u8),
    Other,
}

/// What a key asks for beyond a change of state.
#[derive(Debug)]
pub enum Work {
    /// Ask the API about the token typed in.
    ValidateToken,
    /// Send the test message typed in.
    SendTestMessage,
    /// Write the selected chat to a file.
    ExportChat,
    /// Write the selected message to a file.
    ExportMessage,
    /// Write the selected update to a file.
    ExportUpdate,
    /// Run the polling task handed out, or stop the running one.
    Monitor(ToggleAction),
}

/// `text` without its last character, if it has one.
pub open spec fn without_last(text: Seq<char>) -> Seq<char> {
    if text.len() > 0 {
        text.drop_last()
    } else {
        text
    }
}

/// Whether the test message screen types into the chat id field.
pub open spec fn types_chat_id(ui: UiState) -> bool {
    ui.test_message_mode == TestMessageMode::ManualChatId && ui.test_message_input_focus
        == InputFocus::ChatId
}

/// The screen that a key shows wherever it is pressed, if that is what the
/// key does.
pub open spec fn screen_of_key(key: Key) -> Option<Screen> {
    match key {
        Key::Char(c) => if c == 'h' || c == 'H' {
            Some(Screen::Help)
        } else if c == '1' {
            Some(Screen::Discovery)
        } else if c == '2' {
            Some(Screen::Monitor)
        } else if c == '3' {
            Some(Screen::Analytics)
        } else if c == '4' {
            Some(Screen::RawJson)
        } else if c == 'm' || c == 'M' {
            Some(Screen::TestMessage)
        } else {
            None
        },
        _ => None,
    }
}

/// What the token input makes of a key: `Enter` asks for the validation, a
/// character is typed, `Backspace` takes the last one away; typing clears
/// the error shown.
pub open spec fn token_input_step(
    before: App,
    key: Key,
    after: App,
    action: KeyAction,
    work: Option<Work>,
) -> bool {
    match key {
        Key::Enter => after == before && action == KeyAction::Handled && work matches Some(
            Work::ValidateToken,
        ),
        Key::Char(c) => action == KeyAction::Handled && work is None && App::with_ui(
            before,
            after,
            UiState {
                token_input: after.ui.token_input,
                token_error: None,
                needs_render: true,
                ..before.ui
            },
        ) && after.ui.token_input@ == before.ui.token_input@.push(c),
        Key::Backspace => action == KeyAction::Handled && work is None && App::with_ui(
            before,
            after,
            UiState {
                token_input: after.ui.token_input,
                token_error: None,
                needs_render: true,
                ..before.ui
            },
        ) && after.ui.token_input@ == without_last(before.ui.token_input@),
        _ => after == before && action == KeyAction::NotHandled && work is None,
    }
}

/// What typing on the test message screen changes: `typed` is what the
/// field that has the keys holds afterwards.
pub open spec fn test_message_typed(before: App, after: App, typed: Seq<char>) -> bool {
    if types_chat_id(before.ui) {
        App::with_ui(
            before,
            after,
            UiState { manual_chat_id_input: after.ui.manual_chat_id_input, ..before.ui },
        ) && after.ui.manual_chat_id_input@ == typed
    } else {
        App::with_ui(
            before,
            after,
            UiState { test_message_input: after.ui.test_message_input, ..before.ui },
        ) && after.ui.test_message_input@ == typed
    }
}

/// The text of the field of the test message screen that has the keys.
pub open spec fn focused_text(ui: UiState) -> Seq<char> {
    if types_chat_id(ui) {
        ui.manual_chat_id_input@
    } else {
        ui.test_message_input@
    }
}

/// What the test message screen makes of a key. `Enter` asks for the
/// message to be sent. `Tab` goes to the other input field where there are
/// two, and else, as with `Shift`, changes where the message goes; so does
/// `BackTab`. A character is typed into the field that has the keys,
/// `Backspace` takes its last character away.
pub open spec fn test_message_step(
    before: App,
    key: Key,
    shift: bool,
    after: App,
    action: KeyAction,
    work: Option<Work>,
) -> bool {
    match key {
        Key::Enter => after == before && action == KeyAction::Handled && work matches Some(
            Work::SendTestMessage,
        ),
        Key::Tab => action == KeyAction::Handled && work is None && App::with_ui(
            before,
            after,
            if !shift && before.ui.test_message_mode == TestMessageMode::ManualChatId {
                before.ui.with_other_focus()
            } else {
                before.ui.with_other_mode()
            },
        ),
        Key::BackTab => action == KeyAction::Handled && work is None && App::with_ui(
            before,
            after,
            before.ui.with_other_mode(),
        ),
        Key::Char(c) => action == KeyAction::Handled && work is None && test_message_typed(
            before,
            after,
            focused_text(before.ui).push(c),
        ),
        Key::Backspace => action == KeyAction::Handled && work is None && test_message_typed(
            before,
            after,
            without_last(focused_text(before.ui)),
        ),
        _ => after == before && action == KeyAction::NotHandled && work is None,
    }
}

/// What the monitor screen makes of a key: `m` starts or stops the
/// monitor, `p` pauses the screen or ends the pause, `c` clears it.
pub open spec fn monitor_step(
    before: App,
    key: Key,
    after: App,
    action: KeyAction,
    work: Option<Work>,
) -> bool {
    match key {
        Key::Char(c) => if c == 'm' || c == 'M' {
            &&& action == KeyAction::Handled
            &&& exists|toggle: Option<ToggleAction>|
                App::monitoring_toggled(before, after, toggle) && match toggle {
                    Some(t) => work == Some(Work::Monitor(t)),
                    None => work is None,
                }
        } else if c == 'p' || c == 'P' {
            &&& action == KeyAction::Handled
            &&& work is None
            &&& after.ui == before.ui.marked()
            &&& after.telegram == before.telegram
            &&& after.monitoring.is_paused() == !before.monitoring.is_paused()
            &&& after.monitoring.active() == before.monitoring.active()
            &&& after.monitoring.shown() == before.monitoring.shown()
        } else if c == 'c' || c == 'C' {
            &&& action == KeyAction::Handled
            &&& work is None
            &&& after.ui == before.ui.marked()
            &&& after.telegram == before.telegram
            &&& after.monitoring.shown().len() == 0
            &&& after.monitoring.is_paused() == before.monitoring.is_paused()
            &&& after.monitoring.active() == before.monitoring.active()
        } else {
            after == before && action == KeyAction::NotHandled && work is None
        },
        _ => after == before && action == KeyAction::NotHandled && work is None,
    }
}

/// What the chat list makes of a key: `Up` and `Down` move the selection,
/// `Enter` shows the messages of the selected chat from the first on, `e`
/// asks for the chat to be written to a file.
pub open spec fn discovery_step(
    before: App,
    key: Key,
    after: App,
    action: KeyAction,
    work: Option<Work>,
) -> bool {
    match key {
        Key::Up => action == KeyAction::Handled && work is None && App::with_ui(
            before,
            after,
            before.ui.at_previous_chat(before.chats().len() as usize),
        ),
        Key::Down => action == KeyAction::Handled && work is None && App::with_ui(
            before,
            after,
            before.ui.at_next_chat(before.chats().len() as usize),
        ),
        Key::Enter => action == KeyAction::Handled && work is None && App::with_ui(
            before,
            after,
            (UiState { selected_message_index: 0, ..before.ui }).switched(Screen::Messages),
        ),
        Key::Char(c) => if c == 'e' || c == 'E' {
            after == before && action == KeyAction::Handled && work matches Some(Work::ExportChat)
        } else {
            after == before && action == KeyAction::NotHandled && work is None
        },
        _ => after == before && action == KeyAction::NotHandled && work is None,
    }
}

/// What the message list makes of a key: `Up` and `Down` move the
/// selection, `e` asks for the message to be written to a file.
pub open spec fn messages_step(
    before: App,
    key: Key,
    after: App,
    action: KeyAction,
    work: Option<Work>,
) -> bool {
    match key {
        Key::Up => action == KeyAction::Handled && work is None && App::with_ui(
            before,
            after,
            match before.selected_messages() {
                Some(messages) => before.ui.at_previous_message(messages.len() as usize),
                None => before.ui,
            },
        ),
        Key::Down => action == KeyAction::Handled && work is None && App::with_ui(
            before,
            after,
            match before.selected_messages() {
                Some(messages) => before.ui.at_next_message(messages.len() as usize),
                None => before.ui,
            },
        ),
        Key::Char(c) => if c == 'e' || c == 'E' {
            after == before && action == KeyAction::Handled && work matches Some(
                Work::ExportMessage,
            )
        } else {
            after == before && action == KeyAction::NotHandled && work is None
        },
        _ => after == before && action == KeyAction::NotHandled && work is None,
    }
}

/// Whether `after` is `before` on the screen `screen`, with the statistics
/// computed on the way to the analytics screen.
pub open spec fn screen_shown(before: App, after: App, screen: Screen) -> bool {
    &&& after.telegram == before.telegram
    &&& after.monitoring == before.monitoring
    &&& after.ui == (UiState { statistics: after.ui.statistics, ..before.ui.switched(screen) })
    &&& screen != Screen::Analytics ==> after.ui.statistics == before.ui.statistics
    &&& screen == Screen::Analytics ==> (after.ui.statistics matches Some(stats)
        ==> stats@.describes_chats(before.chats()))
}

/// What the keys that work everywhere do: `Esc` goes one level up, `h`,
/// `1` to `4` and `m` show a screen, `F5` starts or stops the monitor.
pub open spec fn global_step(
    before: App,
    key: Key,
    after: App,
    action: KeyAction,
    work: Option<Work>,
) -> bool {
    match key {
        Key::Esc => action == KeyAction::Handled && work is None && App::with_ui(
            before,
            after,
            before.ui.gone_back(),
        ),
        Key::F(n) => if n == 5 {
            &&& action == KeyAction::Handled
            &&& exists|toggle: Option<ToggleAction>|
                App::monitoring_toggled(before, after, toggle) && match toggle {
                    Some(t) => work == Some(Work::Monitor(t)),
                    None => work is None,
                }
        } else {
            after == before && action == KeyAction::NotHandled && work is None
        },
        _ => match screen_of_key(key) {
            Some(screen) => action == KeyAction::Handled && work is None && screen_shown(
                before,
                after,
                screen,
            ),
            None => after == before && action == KeyAction::NotHandled && work is None,
        },
    }
}

/// What the list of kept updates makes of a key, which it gets only while
/// it is shown: `Up` selects the next update and `Down` the one before,
/// `e` asks for the update to be written to a file.
pub open spec fn raw_json_step(
    before: App,
    key: Key,
    after: App,
    action: KeyAction,
    work: Option<Work>,
) -> bool {
    if before.ui.current_screen != Screen::RawJson {
        after == before && action == KeyAction::NotHandled && work is None
    } else {
        match key {
            Key::Up => action == KeyAction::Handled && work is None && App::with_ui(
                before,
                after,
                before.ui.at_next_update(before.telegram.raw_updates.len()),
            ),
            Key::Down => action == KeyAction::Handled && work is None && App::with_ui(
                before,
                after,
                before.ui.at_previous_update(before.telegram.raw_updates.len()),
            ),
            Key::Char(c) => if c == 'e' || c == 'E' {
                after == before && action == KeyAction::Handled && work matches Some(
                    Work::ExportUpdate,
                )
            } else {
                after == before && action == KeyAction::NotHandled && work is None
            },
            _ => after == before && action == KeyAction::NotHandled && work is None,
        }
    }
}

/// What the screen that is shown makes of a key. The home screen, the help,
/// the analytics and the list of kept updates take no key here.
pub open spec fn screen_step(
    before: App,
    key: Key,
    shift: bool,
    after: App,
    action: KeyAction,
    work: Option<Work>,
) -> bool {
    match before.ui.current_screen {
        Screen::TokenInput => token_input_step(before, key, after, action, work),
        Screen::TestMessage => test_message_step(before, key, shift, after, action, work),
        Screen::Monitor => monitor_step(before, key, after, action, work),
        Screen::Discovery => discovery_step(before, key, after, action, work),
        Screen::Messages => messages_step(before, key, after, action, work),
        _ => after == before && action == KeyAction::NotHandled && work is None,
    }
}

/// The one piece of work among two of which at most one is there.
pub open spec fn either_work(first: Option<Work>, second: Option<Work>) -> Option<Work> {
    match first {
        Some(work) => Some(work),
        None => second,
    }
}

/// What the keys that work everywhere make of a key that the screen has,
/// or has not, taken: a key that was taken does not reach them.
pub open spec fn fallback_step(
    taken: KeyAction,
    before: App,
    key: Key,
    after: App,
    action: KeyAction,
    work: Option<Work>,
) -> bool {
    if taken == KeyAction::NotHandled {
        global_step(before, key, after, action, work)
    } else {
        after == before && action == KeyAction::Handled && work is None
    }
}

/// What a key does to the application. The screen that is shown gets the
/// key first; a key it does not take goes to the keys that work
/// everywhere; then the list of kept updates gets it, if that is shown by
/// now; and the screen has to be drawn again.
pub open spec fn key_step(before: App, key: Key, shift: bool, after: App, work: Option<Work>) -> bool {
    exists|
        on_screen: App,
        taken: KeyAction,
        screen_work: Option<Work>,
        everywhere: App,
        taken_everywhere: KeyAction,
        global_work: Option<Work>,
        in_list: App,
        taken_in_list: KeyAction,
        list_work: Option<Work>,
    |
        {
            &&& screen_step(before, key, shift, on_screen, taken, screen_work)
            &&& fallback_step(taken, on_screen, key, everywhere, taken_everywhere, global_work)
            &&& raw_json_step(everywhere, key, in_list, taken_in_list, list_work)
            &&& after.ui == in_list.ui.marked()
            &&& after.telegram == in_list.telegram
            &&& after.monitoring == in_list.monitoring
            &&& work == either_work(either_work(screen_work, global_work), list_work)
        }
}

/// The token input's keys.
pub fn handle_token_input(app: &mut App, key: Key) -> (done: (KeyAction, Option<Work>))
    ensures
        token_input_step(*old(app), key, *final(app), done.0, done.1),
{
    match key {
        Key::Enter => (KeyAction::Handled, Some(Work::ValidateToken)),
        Key::Char(c) => {
            push_char(&mut app.ui.token_input, c);
            app.ui.token_error = None;
            app.mark_dirty();
            (KeyAction::Handled, None)
        },
        Key::Backspace => {
            pop_char(&mut app.ui.token_input);
            app.ui.token_error = None;
            app.mark_dirty();
            (KeyAction::Handled, None)
        },
        _ => (KeyAction::NotHandled, None),
    }
}

/// The test message screen's keys.
pub fn handle_test_message(app: &mut App, key: Key, shift: bool) -> (done: (
    KeyAction,
    Option<Work>,
))
    ensures
        test_message_step(*old(app), key, shift, *final(app), done.0, done.1),
{
    match key {
        Key::Enter => (KeyAction::Handled, Some(Work::SendTestMessage)),
        Key::Tab => {
            if shift {
                app.toggle_test_message_mode();
            } else if app.ui.test_message_mode == TestMessageMode::ManualChatId {
                app.toggle_input_focus();
            } else {
                app.toggle_test_message_mode();
            }
            (KeyAction::Handled, None)
        },
        Key::BackTab => {
            app.toggle_test_message_mode();
            (KeyAction::Handled, None)
        },
        Key::Char(c) => {
            match app.ui.test_message_mode {
                TestMessageMode::ManualChatId => match app.ui.test_message_input_focus {
                    InputFocus::ChatId => {
                        push_char(&mut app.ui.manual_chat_id_input, c);
                    },
                    InputFocus::MessageText => {
                        push_char(&mut app.ui.test_message_input, c);
                    },
                },
                TestMessageMode::SelectedChat => {
                    push_char(&mut app.ui.test_message_input, c);
                },
            }
            (KeyAction::Handled, None)
        },
        Key::Backspace => {
            match app.ui.test_message_mode {
                TestMessageMode::ManualChatId => match app.ui.test_message_input_focus {
                    InputFocus::ChatId => {
                        pop_char(&mut app.ui.manual_chat_id_input);
                    },
                    InputFocus::MessageText => {
                        pop_char(&mut app.ui.test_message_input);
                    },
                },
                TestMessageMode::SelectedChat => {
                    pop_char(&mut app.ui.test_message_input);
                },
            }
            (KeyAction::Handled, None)
        },
        _ => (KeyAction::NotHandled, None),
    }
}

/// The work that a start or stop of the monitor leaves.
fn monitor_work(toggle: Option<ToggleAction>) -> (work: Option<Work>)
    ensures
        match toggle {
            Some(t) => work == Some(Work::Monitor(t)),
            None => work is None,
        },
{
    match toggle {
        Some(t) => Some(Work::Monitor(t)),
        None => None,
    }
}

/// The monitor screen's keys.
pub fn handle_monitor(app: &mut App, key: Key) -> (done: (KeyAction, Option<Work>))
    ensures
        monitor_step(*old(app), key, *final(app), done.0, done.1),
{
    match key {
        Key::Char(c) => {
            if c == 'm' || c == 'M' {
                let toggle = app.toggle_monitoring();
                (KeyAction::Handled, monitor_work(toggle))
            } else if c == 'p' || c == 'P' {
                app.toggle_monitor_pause();
                (KeyAction::Handled, None)
            } else if c == 'c' || c == 'C' {
                app.monitoring.clear_messages();
                app.mark_dirty();
                (KeyAction::Handled, None)
            } else {
                (KeyAction::NotHandled, None)
            }
        },
        _ => (KeyAction::NotHandled, None),
    }
}

/// The chat list's keys.
pub fn handle_discovery(app: &mut App, key: Key) -> (done: (KeyAction, Option<Work>))
    ensures
        discovery_step(*old(app), key, *final(app), done.0, done.1),
{
    match key {
        Key::Up => {
            app.previous_chat();
            (KeyAction::Handled, None)
        },
        Key::Down => {
            app.next_chat();
            (KeyAction::Handled, None)
        },
        Key::Enter => {
            app.ui.selected_message_index = 0;
            app.switch_screen(Screen::Messages);
            (KeyAction::Handled, None)
        },
        Key::Char(c) => {
            if c == 'e' || c == 'E' {
                (KeyAction::Handled, Some(Work::ExportChat))
            } else {
                (KeyAction::NotHandled, None)
            }
        },
        _ => (KeyAction::NotHandled, None),
    }
}

/// The message list's keys.
pub fn handle_messages(app: &mut App, key: Key) -> (done: (KeyAction, Option<Work>))
    ensures
        messages_step(*old(app), key, *final(app), done.0, done.1),
{
    match key {
        Key::Up => {
            app.previous_message();
            (KeyAction::Handled, None)
        },
        Key::Down => {
            app.next_message();
            (KeyAction::Handled, None)
        },
        Key::Char(c) => {
            if c == 'e' || c == 'E' {
                (KeyAction::Handled, Some(Work::ExportMessage))
            } else {
                (KeyAction::NotHandled, None)
            }
        },
        _ => (KeyAction::NotHandled, None),
    }
}

/// The screen that `key` shows wherever it is pressed.
fn key_screen(key: Key) -> (screen: Option<Screen>)
    ensures
        screen == screen_of_key(key),
{
    match key {
        Key::Char(c) => {
            if c == 'h' || c == 'H' {
                Some(Screen::Help)
            } else if c == '1' {
                Some(Screen::Discovery)
            } else if c == '2' {
                Some(Screen::Monitor)
            } else if c == '3' {
                Some(Screen::Analytics)
            } else if c == '4' {
                Some(Screen::RawJson)
            } else if c == 'm' || c == 'M' {
                Some(Screen::TestMessage)
            } else {
                None
            }
        },
        _ => None,
    }
}

/// The keys that work on every screen.
pub fn try_handle_global_keys(app: &mut App, key: Key) -> (done: (KeyAction, Option<Work>))
    ensures
        global_step(*old(app), key, *final(app), done.0, done.1),
{
    match key {
        Key::Esc => {
            app.go_back();
            (KeyAction::Handled, None)
        },
        Key::F(n) => {
            if n == 5 {
                let toggle = app.toggle_monitoring();
                (KeyAction::Handled, monitor_work(toggle))
            } else {
                (KeyAction::NotHandled, None)
            }
        },
        _ => match key_screen(key) {
            Some(screen) => {
                app.switch_screen(screen);
                (KeyAction::Handled, None)
            },
            None => (KeyAction::NotHandled, None),
        },
    }
}

/// The keys of the list of kept updates.
pub fn try_handle_raw_json_keys(app: &mut App, key: Key) -> (done: (KeyAction, Option<Work>))
    ensures
        raw_json_step(*old(app), key, *final(app), done.0, done.1),
{
    if app.ui.current_screen != Screen::RawJson {
        return (KeyAction::NotHandled, None);
    }
    match key {
        Key::Up => {
            app.next_update();
            (KeyAction::Handled, None)
        },
        Key::Down => {
            app.previous_update();
            (KeyAction::Handled, None)
        },
        Key::Char(c) => {
            if c == 'e' || c == 'E' {
                (KeyAction::Handled, Some(Work::ExportUpdate))
            } else {
                (KeyAction::NotHandled, None)
            }
        },
        _ => (KeyAction::NotHandled, None),
    }
}

/// The first of two pieces of work that is there.
fn first_work(first: Option<Work>, second: Option<Work>) -> (work: Option<Work>)
    ensures
        work == either_work(first, second),
{
    match first {
        Some(work) => Some(work),
        None => second,
    }
}

/// Handles a key: see [`key_step`]. The result is the work that the key
/// leaves to be done.
pub fn handle_key(app: &mut App, key: Key, shift: bool) -> (work: Option<Work>)
    ensures
        key_step(*old(app), key, shift, *final(app), work),
{
    let (taken, screen_work) = match app.ui.current_screen {
        Screen::TokenInput => handle_token_input(app, key),
        Screen::TestMessage => handle_test_message(app, key, shift),
        Screen::Monitor => handle_monitor(app, key),
        Screen::Discovery => handle_discovery(app, key),
        Screen::Messages => handle_messages(app, key),
        _ => (KeyAction::NotHandled, None),
    };
    let ghost on_screen = *app;
    let (taken_everywhere, global_work) = if taken == KeyAction::NotHandled {
        try_handle_global_keys(app, key)
    } else {
        (KeyAction::Handled, None)
    };
    let ghost everywhere = *app;
    let (taken_in_list, list_work) = try_handle_raw_json_keys(app, key);
    let ghost in_list = *app;
    app.mark_dirty();
    let work = first_work(first_work(screen_work, global_work), list_work);
    proof {
        assert(screen_step(*old(app), key, shift, on_screen, taken, screen_work));
        assert(fallback_step(taken, on_screen, key, everywhere, taken_everywhere, global_work));
        assert(raw_json_step(everywhere, key, in_list, taken_in_list, list_work));
    }
    work
}

} // verus!

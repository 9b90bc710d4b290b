//! Which model answers the chat, and the ChatGPT sign-in that the
//! intelligence settings drive: the decisions, from state and event to the
//! next state and what to do.

use vstd::prelude::*;

verus! {

/// The ChatGPT sign-in as the screen knows it.
#[derive(Debug)]
pub enum Connection {
    Disconnected,
    /// A device login is under way: the page to open and the code to type.
    Pending { verify_url: String, user_code: String },
    Connected,
}

/// The screen's state: the sign-in, whether ChatGPT answers the chat, and
/// the last sign-in error shown.
#[derive(Debug)]
pub struct ChatSettings {
    pub connection: Connection,
    pub chatgpt_selected: bool,
    pub error: Option<String>,
}

/// What happens on the screen, or comes back from the sign-in service.
#[derive(Debug)]
pub enum ChatEvent {
    /// "Connect ChatGPT" was pressed.
    ConnectPressed,
    /// The service opened a device login.
    LoginStarted { verify_url: String, user_code: String },
    /// The device login was confirmed.
    LoginConfirmed,
    /// Opening or confirming the login failed.
    LoginFailed { message: String },
    /// "Disconnect" was pressed.
    DisconnectPressed,
    /// "Use ChatGPT" was pressed while signed in.
    UseChatgptPressed,
    /// "Use the OpenAI key" was pressed.
    UseOpenaiPressed,
}

/// What the caller does after a step.
#[derive(Debug, Clone, Copy, PartialEq, Eq, Structural)]
pub enum ChatAction {
    Nothing,
    /// Store "chatgpt" as the chat provider.
    StoreChatgpt,
    /// Store "chatgpt" as the provider and open a device login.
    StoreChatgptAndLogin,
    /// Wait for the user to confirm the login.
    PollLogin,
    /// Sign out of ChatGPT.
    SignOut,
    /// Store "openai" as the chat provider.
    StoreOpenai,
}

/// The shape of a connection, without its texts.
pub open spec fn conn_kind(c: Connection) -> int {
    match c {
        Connection::Disconnected => 0,
        Connection::Pending { .. } => 1,
        Connection::Connected => 2,
    }
}

/// Whether the step applies to the state: each event answers a button that
/// is only shown in some states, or a reply to a login under way.
pub open spec fn applies(s: ChatSettings, e: ChatEvent, openai_configured: bool) -> bool {
    match e {
        ChatEvent::ConnectPressed => s.connection is Disconnected,
        ChatEvent::LoginStarted { .. } => !(s.connection is Connected),
        ChatEvent::LoginConfirmed => s.connection is Pending,
        ChatEvent::LoginFailed { .. } => !(s.connection is Connected),
        ChatEvent::DisconnectPressed => s.connection is Connected && s.chatgpt_selected,
        ChatEvent::UseChatgptPressed => s.connection is Connected && !s.chatgpt_selected,
        ChatEvent::UseOpenaiPressed => s.chatgpt_selected && openai_configured,
    }
}

/// The next state and the action, for an event that applies; an event
/// that does not apply leaves everything as it was and asks for nothing.
pub open spec fn chat_next(s: ChatSettings, e: ChatEvent, openai_configured: bool) -> (ChatSettings, ChatAction) {
    if !applies(s, e, openai_configured) {
        (s, ChatAction::Nothing)
    } else {
        match e {
            ChatEvent::ConnectPressed => (
                ChatSettings { connection: s.connection, chatgpt_selected: true, error: None },
                ChatAction::StoreChatgptAndLogin,
            ),
            ChatEvent::LoginStarted { verify_url, user_code } => (
                ChatSettings { connection: Connection::Pending { verify_url, user_code }, ..s },
                ChatAction::PollLogin,
            ),
            ChatEvent::LoginConfirmed => (
                ChatSettings { connection: Connection::Connected, ..s },
                ChatAction::Nothing,
            ),
            ChatEvent::LoginFailed { message } => (
                ChatSettings { connection: Connection::Disconnected, chatgpt_selected: s.chatgpt_selected, error: Some(message) },
                ChatAction::Nothing,
            ),
            ChatEvent::DisconnectPressed => (
                ChatSettings { connection: Connection::Disconnected, chatgpt_selected: s.chatgpt_selected, error: None },
                ChatAction::SignOut,
            ),
            ChatEvent::UseChatgptPressed => (
                ChatSettings { chatgpt_selected: true, ..s },
                ChatAction::StoreChatgpt,
            ),
            ChatEvent::UseOpenaiPressed => (
                ChatSettings { chatgpt_selected: false, ..s },
                ChatAction::StoreOpenai,
            ),
        }
    }
}

/// One step of the screen.
pub fn chat_step(s: ChatSettings, e: ChatEvent, openai_configured: bool) -> (r: (ChatSettings, ChatAction))
    ensures
        r == chat_next(s, e, openai_configured),
{
    let ChatSettings { connection, chatgpt_selected, error } = s;
    match e {
        ChatEvent::ConnectPressed => {
            if let Connection::Disconnected = connection {
                (
                    ChatSettings { connection, chatgpt_selected: true, error: None },
                    ChatAction::StoreChatgptAndLogin,
                )
            } else {
                (ChatSettings { connection, chatgpt_selected, error }, ChatAction::Nothing)
            }
        },
        ChatEvent::LoginStarted { verify_url, user_code } => {
            if let Connection::Connected = connection {
                (ChatSettings { connection, chatgpt_selected, error }, ChatAction::Nothing)
            } else {
                (
                    ChatSettings {
                        connection: Connection::Pending { verify_url, user_code },
                        chatgpt_selected,
                        error,
                    },
                    ChatAction::PollLogin,
                )
            }
        },
        ChatEvent::LoginConfirmed => {
            if let Connection::Pending { .. } = connection {
                (
                    ChatSettings { connection: Connection::Connected, chatgpt_selected, error },
                    ChatAction::Nothing,
                )
            } else {
                (ChatSettings { connection, chatgpt_selected, error }, ChatAction::Nothing)
            }
        },
        ChatEvent::LoginFailed { message } => {
            if let Connection::Connected = connection {
                (ChatSettings { connection, chatgpt_selected, error }, ChatAction::Nothing)
            } else {
                (
                    ChatSettings {
                        connection: Connection::Disconnected,
                        chatgpt_selected,
                        error: Some(message),
                    },
                    ChatAction::Nothing,
                )
            }
        },
        ChatEvent::DisconnectPressed => {
            if let Connection::Connected = connection {
                if chatgpt_selected {
                    return (
                        ChatSettings {
                            connection: Connection::Disconnected,
                            chatgpt_selected,
                            error: None,
                        },
                        ChatAction::SignOut,
                    );
                }
            }
            (ChatSettings { connection, chatgpt_selected, error }, ChatAction::Nothing)
        },
        ChatEvent::UseChatgptPressed => {
            if let Connection::Connected = connection {
                if !chatgpt_selected {
                    return (
                        ChatSettings { connection, chatgpt_selected: true, error },
                        ChatAction::StoreChatgpt,
                    );
                }
            }
            (ChatSettings { connection, chatgpt_selected, error }, ChatAction::Nothing)
        },
        ChatEvent::UseOpenaiPressed => {
            if chatgpt_selected && openai_configured {
                (ChatSettings { connection, chatgpt_selected: false, error }, ChatAction::StoreOpenai)
            } else {
                (ChatSettings { connection, chatgpt_selected, error }, ChatAction::Nothing)
            }
        },
    }
}

/// A sign-in is only ever completed through a device login: no step makes
/// the screen signed in unless it already was or the login under way was
/// confirmed, and no step shows a pending login but the service's reply to
/// one (or one already shown).
pub proof fn lemma_sign_in_only_through_login(s: ChatSettings, e: ChatEvent, openai_configured: bool)
    ensures
        chat_next(s, e, openai_configured).0.connection is Connected ==> (s.connection is Connected
            || (e is LoginConfirmed && s.connection is Pending)),
        chat_next(s, e, openai_configured).0.connection is Pending ==> (s.connection is Pending
            || e is LoginStarted),
{
}

/// Pressing "use ChatGPT" and then "use the OpenAI key" (with a key set)
/// comes back to the state it started from, and the two stores undo each
/// other.
pub proof fn lemma_provider_switch_undoes(s: ChatSettings)
    requires
        s.connection is Connected,
        !s.chatgpt_selected,
    ensures
        chat_next(chat_next(s, ChatEvent::UseChatgptPressed, true).0, ChatEvent::UseOpenaiPressed, true).0 == s,
        chat_next(s, ChatEvent::UseChatgptPressed, true).1 == ChatAction::StoreChatgpt,
        chat_next(chat_next(s, ChatEvent::UseChatgptPressed, true).0, ChatEvent::UseOpenaiPressed, true).1
            == ChatAction::StoreOpenai,
{
}

} // verus!

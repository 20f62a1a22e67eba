//! The values that pass between the bot's decisions and the chat platform.

use vstd::prelude::*;
use crate::database::{Write, WriteView};

verus! {

/// A message as it arrives from the platform, as far as the bot reads it.
#[derive(Debug, PartialEq, Eq)]
pub struct Inbound {
    /// The user who wrote the message.
    pub author_id: u64,
    /// The message's text.
    pub content: String,
    /// The links of the message's attachments, in their order.
    pub attachments: Vec<String>,
    /// The hash of the author's own avatar, where the author has one.
    pub avatar_hash: Option<String>,
}

/// What an `Inbound` holds, as text.
pub struct InboundView {
    pub author_id: u64,
    pub content: Seq<char>,
    pub attachments: Seq<Seq<char>>,
    pub avatar_hash: Option<Seq<char>>,
}

/// The text of an optional string.
pub open spec fn optional_text(o: Option<String>) -> Option<Seq<char>> {
    match o {
        Some(s) => Some(s@),
        None => None,
    }
}

/// The texts of a sequence of strings, one for one.
pub open spec fn texts(s: Seq<String>) -> Seq<Seq<char>> {
    s.map_values(|a: String| a@)
}

impl View for Inbound {
    type V = InboundView;

    open spec fn view(&self) -> InboundView {
        InboundView {
            author_id: self.author_id,
            content: self.content@,
            attachments: texts(self.attachments@),
            avatar_hash: optional_text(self.avatar_hash),
        }
    }
}

/// The step of a handling that the platform refused.
#[derive(Clone, Copy, Debug, PartialEq, Eq)]
pub enum Error {
    /// A notice could not be sent.
    Say,
    /// The author's name could not be looked up.
    ResolveUser,
    /// The relay endpoint could not be created.
    CreateEndpoint,
    /// The message could not be posted through the endpoint.
    Post,
    /// The relay endpoint could not be deleted.
    DeleteEndpoint,
    /// The original message could not be deleted.
    DeleteOriginal,
}

/// What the host is asked to do next.
#[derive(Debug, PartialEq, Eq)]
pub enum Action {
    /// Send `text` to the channel of the message.
    Say { text: String },
    /// Look up the display name of the user.
    ResolveUser { user_id: u64 },
    /// Create a relay endpoint in the channel, under `label`, with `audit` as the reason logged.
    CreateEndpoint { label: String, audit: String },
    /// Post `text` through the endpoint, under `nick` and `avatar`.
    Post { nick: String, avatar: String, text: String },
    /// Delete the endpoint.
    DeleteEndpoint,
    /// Delete the message that is being handled.
    DeleteOriginal,
    /// Repeat on the durable copy a change that the store has already made.
    Persist(Write),
    /// Nothing: the handling is over, and this is how it went.
    Finish(Result<(), Error>),
}

/// What an `Action` holds, as text.
pub enum ActionView {
    Say { text: Seq<char> },
    ResolveUser { user_id: u64 },
    CreateEndpoint { label: Seq<char>, audit: Seq<char> },
    Post { nick: Seq<char>, avatar: Seq<char>, text: Seq<char> },
    DeleteEndpoint,
    DeleteOriginal,
    Persist(WriteView),
    Finish(Result<(), Error>),
}

impl View for Action {
    type V = ActionView;

    open spec fn view(&self) -> ActionView {
        match *self {
            Action::Say { text } => ActionView::Say { text: text@ },
            Action::ResolveUser { user_id } => ActionView::ResolveUser { user_id },
            Action::CreateEndpoint { label, audit } => ActionView::CreateEndpoint {
                label: label@,
                audit: audit@,
            },
            Action::Post { nick, avatar, text } => ActionView::Post {
                nick: nick@,
                avatar: avatar@,
                text: text@,
            },
            Action::DeleteEndpoint => ActionView::DeleteEndpoint,
            Action::DeleteOriginal => ActionView::DeleteOriginal,
            Action::Persist(write) => ActionView::Persist(write@),
            Action::Finish(outcome) => ActionView::Finish(outcome),
        }
    }
}

/// What came of the action the host was asked for.
#[derive(Debug, PartialEq, Eq)]
pub enum Event {
    /// It was done.
    Done,
    /// It could not be done.
    Failed,
    /// The user was looked up; this is the display name.
    UserName(String),
    /// The message was posted through the endpoint; this is its id.
    Posted(u64),
}

/// What an `Event` holds, as text.
pub enum EventView {
    Done,
    Failed,
    UserName(Seq<char>),
    Posted(u64),
}

impl View for Event {
    type V = EventView;

    open spec fn view(&self) -> EventView {
        match *self {
            Event::Done => EventView::Done,
            Event::Failed => EventView::Failed,
            Event::UserName(name) => EventView::UserName(name@),
            Event::Posted(msg_id) => EventView::Posted(msg_id),
        }
    }
}

/// A message that is to be relayed under an identity.
#[derive(Debug, PartialEq, Eq)]
pub struct Relay {
    /// The user who really speaks.
    pub user_id: u64,
    /// The identity's display name.
    pub nick: String,
    /// The identity's avatar.
    pub avatar: String,
    /// What is said.
    pub text: String,
    /// Whether the message that is being handled is deleted after the relay.
    pub delete_original: bool,
}

/// What a `Relay` holds, as text.
pub struct RelayView {
    pub user_id: u64,
    pub nick: Seq<char>,
    pub avatar: Seq<char>,
    pub text: Seq<char>,
    pub delete_original: bool,
}

impl View for Relay {
    type V = RelayView;

    open spec fn view(&self) -> RelayView {
        RelayView {
            user_id: self.user_id,
            nick: self.nick@,
            avatar: self.avatar@,
            text: self.text@,
            delete_original: self.delete_original,
        }
    }
}

/// Where a handling stands: which action is pending, and what is to follow it.
#[derive(Debug, PartialEq, Eq)]
pub enum State {
    /// A change to the store is being made durable; `notice` will confirm it.
    Storing { notice: String },
    /// A new identity is being made durable; the confirmation will be relayed.
    Registering { relay: Relay },
    /// A notice is being sent.
    Saying { delete_original: bool },
    /// The author's name is being looked up.
    Resolving { relay: Relay },
    /// The relay endpoint is being created.
    Opening { relay: Relay },
    /// The message is being posted through the endpoint.
    Posting { user_id: u64, delete_original: bool },
    /// The relayed message is being logged on the durable copy.
    Logging { delete_original: bool },
    /// The endpoint is being deleted; `posted` tells whether the post had succeeded.
    Closing { posted: bool, delete_original: bool },
    /// The message that is being handled is being deleted.
    Deleting,
    /// Nothing is pending: the handling is over.
    Finished(Result<(), Error>),
}

/// What a `State` holds, as text.
pub enum StateView {
    Storing { notice: Seq<char> },
    Registering { relay: RelayView },
    Saying { delete_original: bool },
    Resolving { relay: RelayView },
    Opening { relay: RelayView },
    Posting { user_id: u64, delete_original: bool },
    Logging { delete_original: bool },
    Closing { posted: bool, delete_original: bool },
    Deleting,
    Finished(Result<(), Error>),
}

impl View for State {
    type V = StateView;

    open spec fn view(&self) -> StateView {
        match *self {
            State::Storing { notice } => StateView::Storing { notice: notice@ },
            State::Registering { relay } => StateView::Registering { relay: relay@ },
            State::Saying { delete_original } => StateView::Saying { delete_original },
            State::Resolving { relay } => StateView::Resolving { relay: relay@ },
            State::Opening { relay } => StateView::Opening { relay: relay@ },
            State::Posting { user_id, delete_original } => StateView::Posting {
                user_id,
                delete_original,
            },
            State::Logging { delete_original } => StateView::Logging { delete_original },
            State::Closing { posted, delete_original } => StateView::Closing {
                posted,
                delete_original,
            },
            State::Deleting => StateView::Deleting,
            State::Finished(outcome) => StateView::Finished(outcome),
        }
    }
}

/// A command, read from a line that carries the prefix.
#[derive(Debug, PartialEq, Eq)]
pub enum Command {
    /// Show the command reference.
    Help,
    /// List the author's identities.
    List,
    /// Add an identity under `keyword`, with `nick` as its display name.
    Register { keyword: String, nick: String },
    /// Remove the identity under `keyword`.
    Forget { keyword: String },
    /// Speak as the identity under `keyword` from now on.
    Switch { keyword: String },
    /// Speak as oneself again.
    Stop,
    /// Say `text` once as the identity under `keyword`.
    Speak { keyword: String, text: String },
    /// `command` needs a keyword and has none.
    Malformed { command: String },
}

/// What a `Command` holds, as text.
pub enum CommandView {
    Help,
    List,
    Register { keyword: Seq<char>, nick: Seq<char> },
    Forget { keyword: Seq<char> },
    Switch { keyword: Seq<char> },
    Stop,
    Speak { keyword: Seq<char>, text: Seq<char> },
    Malformed { command: Seq<char> },
}

impl View for Command {
    type V = CommandView;

    open spec fn view(&self) -> CommandView {
        match *self {
            Command::Help => CommandView::Help,
            Command::List => CommandView::List,
            Command::Register { keyword, nick } => CommandView::Register {
                keyword: keyword@,
                nick: nick@,
            },
            Command::Forget { keyword } => CommandView::Forget { keyword: keyword@ },
            Command::Switch { keyword } => CommandView::Switch { keyword: keyword@ },
            Command::Stop => CommandView::Stop,
            Command::Speak { keyword, text } => CommandView::Speak {
                keyword: keyword@,
                text: text@,
            },
            Command::Malformed { command } => CommandView::Malformed { command: command@ },
        }
    }
}

} // verus!

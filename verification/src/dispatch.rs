//! What the bot does with a message: from the message and the store to the
//! first action, and from each answer of the platform to the next one.

use vstd::prelude::*;
use crate::command::{parse_text, parsed};
use crate::database::{Database, Identity, IdentityView, Tables, Write, WriteView};
use crate::protocol::{
    Action, ActionView, Command, CommandView, Error, Event, EventView, Inbound, InboundView,
    Relay, RelayView, State, StateView,
};
use crate::replies::{
    audit_note, audit_text, choose_avatar, chosen_avatar, endpoint_label, framed, help_notice,
    help_text, list_notice, list_text, malformed_notice, no_identity_notice, registered_notice,
    removed_notice, switched_notice, unknown_nickname_notice, unswitched_notice,
};
use crate::text::{chars_of, same, COMMAND_PREFIX};

verus! {

/// Whether a message is a command line: whether its text begins with the prefix.
pub open spec fn prefixed(content: Seq<char>) -> bool {
    content.len() > 0 && content[0] == COMMAND_PREFIX
}

/// Decides `prefixed`.
pub fn is_prefixed(content: &str) -> (b: bool)
    ensures
        b == prefixed(content@),
{
    let chars = chars_of(content);
    chars.len() > 0 && chars[0] == COMMAND_PREFIX
}

/// The command on a line. The words `help`, `list`, `register`, `forget`,
/// `switch` and `stop` are commands; `register`, `forget` and `switch` read a
/// keyword from their body, and are malformed without one. Any other word is a
/// keyword to speak under. A line without a word is no command.
pub open spec fn command_of(line: Seq<char>) -> Option<CommandView> {
    match parsed(line) {
        None => None,
        Some((keyword, body)) => Some(
            if keyword == "help"@ {
                CommandView::Help
            } else if keyword == "list"@ {
                CommandView::List
            } else if keyword == "register"@ {
                match parsed(body) {
                    Some((sub, nick)) => CommandView::Register { keyword: sub, nick },
                    None => CommandView::Malformed { command: "register"@ },
                }
            } else if keyword == "forget"@ {
                match parsed(body) {
                    Some((sub, _)) => CommandView::Forget { keyword: sub },
                    None => CommandView::Malformed { command: "forget"@ },
                }
            } else if keyword == "switch"@ {
                match parsed(body) {
                    Some((sub, _)) => CommandView::Switch { keyword: sub },
                    None => CommandView::Malformed { command: "switch"@ },
                }
            } else if keyword == "stop"@ {
                CommandView::Stop
            } else {
                CommandView::Speak { keyword, text: body }
            },
        ),
    }
}

/// Reads the command on a line.
pub fn read_command(line: &str) -> (out: Option<Command>)
    ensures
        match out {
            Some(command) => command_of(line@) == Some(command@),
            None => command_of(line@) is None,
        },
{
    let (keyword, body) = match parse_text(line) {
        None => {
            return None;
        },
        Some(pair) => pair,
    };
    let command = if same(keyword, "help") {
        Command::Help
    } else if same(keyword, "list") {
        Command::List
    } else if same(keyword, "register") {
        match parse_text(body) {
            Some((sub, nick)) => Command::Register { keyword: sub.to_owned(), nick: nick.to_owned() },
            None => Command::Malformed { command: "register".to_owned() },
        }
    } else if same(keyword, "forget") {
        match parse_text(body) {
            Some((sub, _)) => Command::Forget { keyword: sub.to_owned() },
            None => Command::Malformed { command: "forget".to_owned() },
        }
    } else if same(keyword, "switch") {
        match parse_text(body) {
            Some((sub, _)) => Command::Switch { keyword: sub.to_owned() },
            None => Command::Malformed { command: "switch".to_owned() },
        }
    } else if same(keyword, "stop") {
        Command::Stop
    } else {
        Command::Speak { keyword: keyword.to_owned(), text: body.to_owned() }
    };
    Some(command)
}

/// The end of a handling.
pub open spec fn finish(outcome: Result<(), Error>) -> (StateView, ActionView) {
    (StateView::Finished(outcome), ActionView::Finish(outcome))
}

/// A notice, and nothing after it.
pub open spec fn say(text: Seq<char>) -> (StateView, ActionView) {
    (StateView::Saying { delete_original: false }, ActionView::Say { text })
}

/// A change to the store, and the notice that confirms it.
pub open spec fn store(write: WriteView, notice: Seq<char>) -> (StateView, ActionView) {
    (StateView::Storing { notice }, ActionView::Persist(write))
}

/// Speaking as the user's identity under `keyword`. Where the user has none, a
/// notice says so; else the relay starts with the look-up of the user's name.
/// Either way the original message is deleted afterwards, if asked.
pub open spec fn speak(
    t: Tables,
    user_id: u64,
    keyword: Seq<char>,
    text: Seq<char>,
    delete_original: bool,
) -> (StateView, ActionView) {
    match t.identity_of(user_id, keyword) {
        None => (
            StateView::Saying { delete_original },
            ActionView::Say { text: unknown_nickname_notice(keyword) },
        ),
        Some(identity) => (
            StateView::Resolving {
                relay: RelayView {
                    user_id,
                    nick: identity.nick,
                    avatar: identity.avatar,
                    text,
                    delete_original,
                },
            },
            ActionView::ResolveUser { user_id },
        ),
    }
}

/// The identity that `register` adds for a message.
pub open spec fn registered(msg: InboundView, keyword: Seq<char>, nick: Seq<char>) -> IdentityView {
    IdentityView {
        keyword,
        nick,
        avatar: chosen_avatar(msg.author_id, msg.attachments, msg.avatar_hash),
    }
}

/// The identity that confirms a registration: the user's first one under the
/// keyword, which is the new one unless the keyword was taken.
pub open spec fn registrar(t: Tables, user_id: u64, identity: IdentityView) -> IdentityView {
    match t.identity_of(user_id, identity.keyword) {
        Some(earlier) => earlier,
        None => identity,
    }
}

/// What a command asks for, given the store as it is when the message arrives.
pub open spec fn command_move(t: Tables, msg: InboundView, command: CommandView) -> (
    StateView,
    ActionView,
) {
    let user_id = msg.author_id;
    match command {
        CommandView::Help => say(help_notice()),
        CommandView::List => say(list_notice(t.identities_of(user_id))),
        CommandView::Malformed { command } => say(malformed_notice(command)),
        CommandView::Register { keyword, nick } => {
            let identity = registered(msg, keyword, nick);
            let speaker = registrar(t, user_id, identity);
            (
                StateView::Registering {
                    relay: RelayView {
                        user_id,
                        nick: speaker.nick,
                        avatar: speaker.avatar,
                        text: registered_notice(),
                        delete_original: false,
                    },
                },
                ActionView::Persist(WriteView::AddIdentity { user_id, identity }),
            )
        },
        CommandView::Forget { keyword } => store(
            WriteView::RemoveIdentity { user_id, keyword },
            removed_notice(keyword),
        ),
        CommandView::Switch { keyword } => match t.identity_of(user_id, keyword) {
            Some(identity) => store(
                WriteView::SetSwitch { user_id, keyword },
                switched_notice(identity.nick),
            ),
            None => say(no_identity_notice(keyword)),
        },
        CommandView::Stop => store(WriteView::DeleteSwitch { user_id }, unswitched_notice()),
        CommandView::Speak { keyword, text } => speak(t, user_id, keyword, text, true),
    }
}

/// The first action for a message, and the state that awaits its answer.
///
/// A line with the prefix is a command; one without a word is passed over. A
/// message without the prefix is relayed under the author's switch, if the
/// author has one, and passed over otherwise.
pub open spec fn first_move(t: Tables, msg: InboundView) -> (StateView, ActionView) {
    if prefixed(msg.content) {
        match command_of(msg.content) {
            Some(command) => command_move(t, msg, command),
            None => finish(Ok(())),
        }
    } else {
        match t.switch_of(msg.author_id) {
            Some(keyword) => speak(t, msg.author_id, keyword, msg.content, true),
            None => finish(Ok(())),
        }
    }
}

/// What follows a notice or a deleted endpoint: the original message goes, if
/// asked, and the handling ends.
pub open spec fn wind_up(delete_original: bool) -> (StateView, ActionView) {
    if delete_original {
        (StateView::Deleting, ActionView::DeleteOriginal)
    } else {
        finish(Ok(()))
    }
}

/// The next action, given the state and the answer to the pending one.
///
/// Each state awaits one kind of answer; any other is taken as a refusal. A
/// refusal ends the handling with the step that was refused, with two
/// exceptions: the durable copy is written as well as it goes, so its answer is
/// not looked at, and a refused post still has the endpoint deleted before the
/// handling ends with the post's failure.
pub open spec fn step(state: StateView, event: EventView) -> (StateView, ActionView) {
    match state {
        StateView::Storing { notice } => (
            StateView::Saying { delete_original: false },
            ActionView::Say { text: notice },
        ),
        StateView::Registering { relay } => (
            StateView::Resolving { relay },
            ActionView::ResolveUser { user_id: relay.user_id },
        ),
        StateView::Saying { delete_original } => match event {
            EventView::Done => wind_up(delete_original),
            _ => finish(Err(Error::Say)),
        },
        StateView::Resolving { relay } => match event {
            EventView::UserName(name) => (
                StateView::Opening { relay },
                ActionView::CreateEndpoint {
                    label: endpoint_label(),
                    audit: audit_note(name, relay.user_id, relay.nick),
                },
            ),
            _ => finish(Err(Error::ResolveUser)),
        },
        StateView::Opening { relay } => match event {
            EventView::Done => (
                StateView::Posting {
                    user_id: relay.user_id,
                    delete_original: relay.delete_original,
                },
                ActionView::Post { nick: relay.nick, avatar: relay.avatar, text: relay.text },
            ),
            _ => finish(Err(Error::CreateEndpoint)),
        },
        StateView::Posting { user_id, delete_original } => match event {
            EventView::Posted(msg_id) => (
                StateView::Logging { delete_original },
                ActionView::Persist(WriteView::RecordMessage { user_id, msg_id }),
            ),
            _ => (
                StateView::Closing { posted: false, delete_original },
                ActionView::DeleteEndpoint,
            ),
        },
        StateView::Logging { delete_original } => (
            StateView::Closing { posted: true, delete_original },
            ActionView::DeleteEndpoint,
        ),
        StateView::Closing { posted, delete_original } => if !posted {
            finish(Err(Error::Post))
        } else {
            match event {
                EventView::Done => wind_up(delete_original),
                _ => finish(Err(Error::DeleteEndpoint)),
            }
        },
        StateView::Deleting => match event {
            EventView::Done => finish(Ok(())),
            _ => finish(Err(Error::DeleteOriginal)),
        },
        StateView::Finished(outcome) => finish(outcome),
    }
}

/// The store after an action was chosen: changed by the write that the action
/// hands on, and by nothing else.
pub open spec fn written(t: Tables, action: ActionView) -> Tables {
    match action {
        ActionView::Persist(write) => t.apply(write),
        _ => t,
    }
}

fn speak_as(db: &Database, user_id: u64, keyword: &str, text: &str, delete_original: bool) -> (out:
    (State, Action))
    ensures
        (out.0@, out.1@) == speak(db@, user_id, keyword@, text@, delete_original),
{
    match db.get_identity(user_id, keyword) {
        None => (
            State::Saying { delete_original },
            Action::Say { text: framed("Nickname ", keyword, " does not exist for you!") },
        ),
        Some(identity) => (
            State::Resolving {
                relay: Relay {
                    user_id,
                    nick: identity.nick,
                    avatar: identity.avatar,
                    text: text.to_owned(),
                    delete_original,
                },
            },
            Action::ResolveUser { user_id },
        ),
    }
}

fn store_then(db: &mut Database, write: Write, notice: String) -> (out: (State, Action))
    ensures
        (out.0@, out.1@) == store(write@, notice@),
        final(db)@ == old(db)@.apply(write@),
{
    db.apply(&write);
    (State::Storing { notice }, Action::Persist(write))
}

fn say_only(text: String) -> (out: (State, Action))
    ensures
        (out.0@, out.1@) == say(text@),
{
    (State::Saying { delete_original: false }, Action::Say { text })
}

fn wind_up_with(delete_original: bool) -> (out: (State, Action))
    ensures
        (out.0@, out.1@) == wind_up(delete_original),
{
    if delete_original {
        (State::Deleting, Action::DeleteOriginal)
    } else {
        (State::Finished(Ok(())), Action::Finish(Ok(())))
    }
}

fn finish_with(outcome: Result<(), Error>) -> (out: (State, Action))
    ensures
        (out.0@, out.1@) == finish(outcome),
{
    (State::Finished(outcome), Action::Finish(outcome))
}

/// Carries out a command on the store and chooses the first action for it.
pub fn run_command(db: &mut Database, msg: &Inbound, command: Command) -> (out: (State, Action))
    ensures
        (out.0@, out.1@) == command_move(old(db)@, msg@, command@),
        final(db)@ == written(old(db)@, out.1@),
{
    let user_id = msg.author_id;
    match command {
        Command::Help => say_only(help_text()),
        Command::List => say_only(list_text(&db.get_identities(user_id))),
        Command::Malformed { command } => say_only(
            framed("Malformed ", command.as_str(), " command!"),
        ),
        Command::Register { keyword, nick } => {
            let avatar = choose_avatar(user_id, &msg.attachments, &msg.avatar_hash);
            let earlier = db.get_identity(user_id, keyword.as_str());
            let identity = Identity { keyword, nick, avatar };
            let (speaker_nick, speaker_avatar) = match earlier {
                Some(found) => (found.nick, found.avatar),
                None => (identity.nick.clone(), identity.avatar.clone()),
            };
            let write = Write::AddIdentity { user_id, identity };
            db.apply(&write);
            (
                State::Registering {
                    relay: Relay {
                        user_id,
                        nick: speaker_nick,
                        avatar: speaker_avatar,
                        text: "Identity registered.".to_owned(),
                        delete_original: false,
                    },
                },
                Action::Persist(write),
            )
        },
        Command::Forget { keyword } => {
            let notice = framed("Removed identity '", keyword.as_str(), "'");
            store_then(db, Write::RemoveIdentity { user_id, keyword }, notice)
        },
        Command::Switch { keyword } => match db.get_identity(user_id, keyword.as_str()) {
            Some(identity) => {
                let notice = framed("User now speaks as '", identity.nick.as_str(), "'");
                store_then(db, Write::SetSwitch { user_id, keyword }, notice)
            },
            None => say_only(framed("No identity '", keyword.as_str(), "' for this user")),
        },
        Command::Stop => store_then(
            db,
            Write::DeleteSwitch { user_id },
            "User unswitched".to_owned(),
        ),
        Command::Speak { keyword, text } => speak_as(
            db,
            user_id,
            keyword.as_str(),
            text.as_str(),
            true,
        ),
    }
}

/// Takes up a message: makes the changes it asks of the store and chooses the
/// first action.
pub fn begin(db: &mut Database, msg: &Inbound) -> (out: (State, Action))
    ensures
        (out.0@, out.1@) == first_move(old(db)@, msg@),
        final(db)@ == written(old(db)@, out.1@),
{
    if is_prefixed(msg.content.as_str()) {
        match read_command(msg.content.as_str()) {
            Some(command) => run_command(db, msg, command),
            None => finish_with(Ok(())),
        }
    } else {
        match db.get_switch(msg.author_id) {
            Some(keyword) => speak_as(
                db,
                msg.author_id,
                keyword.as_str(),
                msg.content.as_str(),
                true,
            ),
            None => finish_with(Ok(())),
        }
    }
}

/// Takes the answer to the pending action and chooses the next one. A relayed
/// message is logged in the store as soon as the platform reports its id.
pub fn advance(db: &mut Database, state: State, event: Event) -> (out: (State, Action))
    ensures
        (out.0@, out.1@) == step(state@, event@),
        final(db)@ == written(old(db)@, out.1@),
{
    match state {
        State::Storing { notice } => (
            State::Saying { delete_original: false },
            Action::Say { text: notice },
        ),
        State::Registering { relay } => {
            let user_id = relay.user_id;
            (State::Resolving { relay }, Action::ResolveUser { user_id })
        },
        State::Saying { delete_original } => match event {
            Event::Done => wind_up_with(delete_original),
            _ => finish_with(Err(Error::Say)),
        },
        State::Resolving { relay } => match event {
            Event::UserName(name) => {
                let audit = audit_text(name.as_str(), relay.user_id, relay.nick.as_str());
                (
                    State::Opening { relay },
                    Action::CreateEndpoint { label: "Momo's hook".to_owned(), audit },
                )
            },
            _ => finish_with(Err(Error::ResolveUser)),
        },
        State::Opening { relay } => match event {
            Event::Done => (
                State::Posting { user_id: relay.user_id, delete_original: relay.delete_original },
                Action::Post { nick: relay.nick, avatar: relay.avatar, text: relay.text },
            ),
            _ => finish_with(Err(Error::CreateEndpoint)),
        },
        State::Posting { user_id, delete_original } => match event {
            Event::Posted(msg_id) => {
                let write = Write::RecordMessage { user_id, msg_id };
                db.apply(&write);
                (State::Logging { delete_original }, Action::Persist(write))
            },
            _ => (State::Closing { posted: false, delete_original }, Action::DeleteEndpoint),
        },
        State::Logging { delete_original } => (
            State::Closing { posted: true, delete_original },
            Action::DeleteEndpoint,
        ),
        State::Closing { posted, delete_original } => if !posted {
            finish_with(Err(Error::Post))
        } else {
            match event {
                Event::Done => wind_up_with(delete_original),
                _ => finish_with(Err(Error::DeleteEndpoint)),
            }
        },
        State::Deleting => match event {
            Event::Done => finish_with(Ok(())),
            _ => finish_with(Err(Error::DeleteOriginal)),
        },
        State::Finished(outcome) => finish_with(outcome),
    }
}

} // verus!

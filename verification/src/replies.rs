//! The texts the bot writes: notices, the command reference, audit notes and avatar links.

use vstd::prelude::*;
use crate::database::{identity_views, Identity, IdentityView};
use crate::text::COMMAND_PREFIX;

verus! {

/// The decimal digit for `d`, which is below ten.
pub open spec fn digit(d: nat) -> char {
    if d == 0 {
        '0'
    } else if d == 1 {
        '1'
    } else if d == 2 {
        '2'
    } else if d == 3 {
        '3'
    } else if d == 4 {
        '4'
    } else if d == 5 {
        '5'
    } else if d == 6 {
        '6'
    } else if d == 7 {
        '7'
    } else if d == 8 {
        '8'
    } else {
        '9'
    }
}

/// `n` in decimal, without leading zeros.
pub open spec fn decimal(n: nat) -> Seq<char>
    decreases n,
{
    if n < 10 {
        seq![digit(n)]
    } else {
        decimal(n / 10).push(digit(n % 10))
    }
}

/// One decimal digit as text.
fn digit_text(d: u64) -> (out: &'static str)
    requires
        d < 10,
    ensures
        out@ == seq![digit(d as nat)],
{
    proof {
        reveal_strlit("0");
        reveal_strlit("1");
        reveal_strlit("2");
        reveal_strlit("3");
        reveal_strlit("4");
        reveal_strlit("5");
        reveal_strlit("6");
        reveal_strlit("7");
        reveal_strlit("8");
        reveal_strlit("9");
    }
    let out = if d == 0 {
        "0"
    } else if d == 1 {
        "1"
    } else if d == 2 {
        "2"
    } else if d == 3 {
        "3"
    } else if d == 4 {
        "4"
    } else if d == 5 {
        "5"
    } else if d == 6 {
        "6"
    } else if d == 7 {
        "7"
    } else if d == 8 {
        "8"
    } else {
        "9"
    };
    assert(out@ =~= seq![digit(d as nat)]);
    out
}

/// `n` written in decimal.
pub fn decimal_text(n: u64) -> (out: String)
    ensures
        out@ == decimal(n as nat),
    decreases n,
{
    if n < 10 {
        digit_text(n).to_owned()
    } else {
        let mut out = decimal_text(n / 10);
        out.append(digit_text(n % 10));
        assert(out@ =~= decimal(n as nat));
        out
    }
}

/// The name under which every relay endpoint is created.
pub open spec fn endpoint_label() -> Seq<char> {
    "Momo's hook"@
}

/// The avatar of an identity registered by a user who has no avatar and attached none.
pub open spec fn default_avatar() -> Seq<char> {
    "https://pbs.twimg.com/media/GvIpQVUWAAAmcsO?format=jpg&name=4096x4096"@
}

/// The link to a user's own avatar, made of the user's id and the avatar's hash,
/// the hash between double quotes.
pub open spec fn hashed_avatar(user_id: u64, hash: Seq<char>) -> Seq<char> {
    "https://cdn.discordapp.com/avatars/"@ + decimal(user_id as nat) + "/\""@ + hash
        + "\".png"@
}

/// The avatar of a new identity: the first attachment of the message, else the
/// author's own avatar, else the default one.
pub open spec fn chosen_avatar(
    user_id: u64,
    attachments: Seq<Seq<char>>,
    hash: Option<Seq<char>>,
) -> Seq<char> {
    if attachments.len() > 0 {
        attachments[0]
    } else {
        match hash {
            Some(h) => hashed_avatar(user_id, h),
            None => default_avatar(),
        }
    }
}

/// The note left in the platform's audit log for a relay: who really speaks, and as whom.
pub open spec fn audit_note(name: Seq<char>, user_id: u64, nick: Seq<char>) -> Seq<char> {
    "User "@ + name + " (id: "@ + decimal(user_id as nat) + ") speaks with nick "@ + nick
}

/// Said in place of a relay when the user has no identity under the keyword.
pub open spec fn unknown_nickname_notice(keyword: Seq<char>) -> Seq<char> {
    "Nickname "@ + keyword + " does not exist for you!"@
}

/// Confirms `forget`.
pub open spec fn removed_notice(keyword: Seq<char>) -> Seq<char> {
    "Removed identity '"@ + keyword + "'"@
}

/// Confirms `switch`, with the display name of the identity switched to.
pub open spec fn switched_notice(nick: Seq<char>) -> Seq<char> {
    "User now speaks as '"@ + nick + "'"@
}

/// Answers `switch` to a keyword under which the user has no identity.
pub open spec fn no_identity_notice(keyword: Seq<char>) -> Seq<char> {
    "No identity '"@ + keyword + "' for this user"@
}

/// Confirms `stop`.
pub open spec fn unswitched_notice() -> Seq<char> {
    "User unswitched"@
}

/// Confirms `register`; it is relayed under the identity.
pub open spec fn registered_notice() -> Seq<char> {
    "Identity registered."@
}

/// Answers `list` where the user has no identity.
pub open spec fn no_identities_notice() -> Seq<char> {
    "You have no registerd identities"@
}

/// Answers a command that lacks its keyword.
pub open spec fn malformed_notice(command: Seq<char>) -> Seq<char> {
    "Malformed "@ + command + " command!"@
}

/// The lines of the list of identities: for each a line break, the keyword, a bar, the nick.
pub open spec fn listed(identities: Seq<IdentityView>) -> Seq<char>
    decreases identities.len(),
{
    if identities.len() == 0 {
        Seq::empty()
    } else {
        listed(identities.drop_last()) + "\n"@ + identities.last().keyword + " | "@
            + identities.last().nick
    }
}

/// The answer to `list`: a notice where there is nothing to list, else the list in a code block.
pub open spec fn list_notice(identities: Seq<IdentityView>) -> Seq<char> {
    if identities.len() == 0 {
        no_identities_notice()
    } else {
        "Your registered identities:```"@ + listed(identities) + "```"@
    }
}

/// One row of the command reference: what the command does, then how it is written
/// after the prefix.
pub open spec fn help_row(what: Seq<char>, usage: Seq<char>) -> Seq<char> {
    "| "@ + what + " | "@ + seq![COMMAND_PREFIX] + usage + " |\n"@
}

/// The command reference.
pub open spec fn help_notice() -> Seq<char> {
    "Command list:\n```\n"@ + help_row(
        "display this message                 "@,
        "help                                                     "@,
    ) + help_row(
        "list all your identities             "@,
        "list                                                     "@,
    ) + help_row(
        "add a new identity                   "@,
        "register <keyword> <nickname> [attached image for avatar]"@,
    ) + help_row(
        "remove identity                      "@,
        "forget <keyword>                                         "@,
    ) + help_row(
        "talk through to identity automaticaly"@,
        "switch <keyword>                                         "@,
    ) + help_row(
        "stop speaking through identity       "@,
        "stop                                                     "@,
    ) + "\nAny other command will be interpreted as a keyword for a personality```"@
}

/// The prefix as a text of one character.
fn prefix_text() -> (out: &'static str)
    ensures
        out@ == seq![COMMAND_PREFIX],
{
    proof {
        reveal_strlit(";");
    }
    let out = ";";
    assert(out@ =~= seq![COMMAND_PREFIX]);
    out
}

/// Appends one row of the command reference.
fn push_help_row(out: &mut String, what: &str, usage: &str)
    ensures
        final(out)@ == old(out)@ + help_row(what@, usage@),
{
    out.append("| ");
    out.append(what);
    out.append(" | ");
    out.append(prefix_text());
    out.append(usage);
    out.append(" |\n");
    assert(out@ =~= old(out)@ + help_row(what@, usage@));
}

/// Writes the command reference.
pub fn help_text() -> (out: String)
    ensures
        out@ == help_notice(),
{
    let mut out = "Command list:\n```\n".to_owned();
    push_help_row(
        &mut out,
        "display this message                 ",
        "help                                                     ",
    );
    push_help_row(
        &mut out,
        "list all your identities             ",
        "list                                                     ",
    );
    push_help_row(
        &mut out,
        "add a new identity                   ",
        "register <keyword> <nickname> [attached image for avatar]",
    );
    push_help_row(
        &mut out,
        "remove identity                      ",
        "forget <keyword>                                         ",
    );
    push_help_row(
        &mut out,
        "talk through to identity automaticaly",
        "switch <keyword>                                         ",
    );
    push_help_row(
        &mut out,
        "stop speaking through identity       ",
        "stop                                                     ",
    );
    out.append("\nAny other command will be interpreted as a keyword for a personality```");
    out
}

/// Writes the answer to `list`.
pub fn list_text(identities: &Vec<Identity>) -> (out: String)
    ensures
        out@ == list_notice(identity_views(identities@)),
{
    if identities.len() == 0 {
        return "You have no registerd identities".to_owned();
    }
    let ghost views = identity_views(identities@);
    let mut out = "Your registered identities:```".to_owned();
    let mut i: usize = 0;
    assert(views.take(0) =~= Seq::empty());
    assert(out@ =~= "Your registered identities:```"@ + listed(views.take(0)));
    while i < identities.len()
        invariant
            i <= identities.len(),
            views == identity_views(identities@),
            out@ == "Your registered identities:```"@ + listed(views.take(i as int)),
        decreases identities.len() - i,
    {
        assert(views.take(i + 1).drop_last() =~= views.take(i as int));
        assert(views.take(i + 1).last() == identities@[i as int]@);
        out.append("\n");
        out.append(identities[i].keyword.as_str());
        out.append(" | ");
        out.append(identities[i].nick.as_str());
        assert(out@ =~= "Your registered identities:```"@ + listed(views.take(i + 1)));
        i += 1;
    }
    assert(views.take(i as int) =~= views);
    out.append("```");
    out
}

/// Writes the avatar link of a new identity.
pub fn choose_avatar(user_id: u64, attachments: &Vec<String>, hash: &Option<String>) -> (out:
    String)
    ensures
        out@ == chosen_avatar(
            user_id,
            attachments@.map_values(|a: String| a@),
            match *hash {
                Some(h) => Some(h@),
                None => None,
            },
        ),
{
    if attachments.len() > 0 {
        attachments[0].clone()
    } else {
        match hash {
            Some(h) => {
                let mut out = "https://cdn.discordapp.com/avatars/".to_owned();
                out.append(decimal_text(user_id).as_str());
                out.append("/\"");
                out.append(h.as_str());
                out.append("\".png");
                out
            },
            None => "https://pbs.twimg.com/media/GvIpQVUWAAAmcsO?format=jpg&name=4096x4096".to_owned(),
        }
    }
}

/// Writes the audit note of a relay.
pub fn audit_text(name: &str, user_id: u64, nick: &str) -> (out: String)
    ensures
        out@ == audit_note(name@, user_id, nick@),
{
    let mut out = "User ".to_owned();
    out.append(name);
    out.append(" (id: ");
    out.append(decimal_text(user_id).as_str());
    out.append(") speaks with nick ");
    out.append(nick);
    out
}

/// Writes `before`, then `middle`, then `after`.
pub fn framed(before: &str, middle: &str, after: &str) -> (out: String)
    ensures
        out@ == before@ + middle@ + after@,
{
    let mut out = before.to_owned();
    out.append(middle);
    out.append(after);
    out
}

} // verus!

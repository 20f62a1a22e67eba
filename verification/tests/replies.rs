use tdiscord::database::Identity;
use tdiscord::replies::{audit_text, choose_avatar, decimal_text, framed, help_text, list_text};

fn identity(keyword: &str, nick: &str) -> Identity {
    Identity { keyword: keyword.to_string(), nick: nick.to_string(), avatar: String::new() }
}

#[test]
fn help_is_the_command_reference() {
    let expected = "Command list:\n```\n\
| display this message                  | ;help                                                      |\n\
| list all your identities              | ;list                                                      |\n\
| add a new identity                    | ;register <keyword> <nickname> [attached image for avatar] |\n\
| remove identity                       | ;forget <keyword>                                          |\n\
| talk through to identity automaticaly | ;switch <keyword>                                          |\n\
| stop speaking through identity        | ;stop                                                      |\n\
\nAny other command will be interpreted as a keyword for a personality```";
    assert_eq!(help_text(), expected);
}

#[test]
fn an_empty_list_is_a_notice() {
    assert_eq!(list_text(&vec![]), "You have no registerd identities");
}

#[test]
fn a_list_names_keyword_and_nick_of_each_identity() {
    let identities = vec![identity("bob", "Bob"), identity("amy", "Amy Lee")];
    assert_eq!(
        list_text(&identities),
        "Your registered identities:```\nbob | Bob\namy | Amy Lee```"
    );
    assert_eq!(
        list_text(&vec![identity("k", "")]),
        "Your registered identities:```\nk | ```"
    );
}

#[test]
fn numbers_are_written_in_decimal() {
    assert_eq!(decimal_text(0), "0");
    assert_eq!(decimal_text(7), "7");
    assert_eq!(decimal_text(10), "10");
    assert_eq!(decimal_text(1234567890), "1234567890");
    assert_eq!(decimal_text(u64::MAX), "18446744073709551615");
    for n in [9u64, 99, 100, 101, 909, 1 << 40, 81384788765712384] {
        assert_eq!(decimal_text(n), n.to_string());
    }
}

#[test]
fn the_first_attachment_is_the_avatar() {
    let attachments = vec!["http://x/1.png".to_string(), "http://x/2.png".to_string()];
    assert_eq!(choose_avatar(5, &attachments, &Some("abc".to_string())), "http://x/1.png");
    assert_eq!(choose_avatar(5, &attachments, &None), "http://x/1.png");
}

#[test]
fn without_attachment_the_avatar_is_the_authors_own() {
    assert_eq!(
        choose_avatar(81384788765712384, &vec![], &Some("f1eff024d9c85339c877985229ed8fec".to_string())),
        "https://cdn.discordapp.com/avatars/81384788765712384/\"f1eff024d9c85339c877985229ed8fec\".png"
    );
}

#[test]
fn without_attachment_and_own_avatar_the_default_is_used() {
    assert_eq!(
        choose_avatar(5, &vec![], &None),
        "https://pbs.twimg.com/media/GvIpQVUWAAAmcsO?format=jpg&name=4096x4096"
    );
}

#[test]
fn the_audit_note_names_the_real_author() {
    assert_eq!(
        audit_text("alice", 42, "Bob"),
        "User alice (id: 42) speaks with nick Bob"
    );
    assert_eq!(audit_text("", 0, ""), "User  (id: 0) speaks with nick ");
}

#[test]
fn framed_puts_three_texts_in_a_row() {
    assert_eq!(framed("a", "b", "c"), "abc");
    assert_eq!(framed("", "é", ""), "é");
}

use tdiscord::database::{Database, Identity, Write};
use tdiscord::dispatch::{advance, begin, run_command};
use tdiscord::protocol::{Action, Command, Error, Event, Inbound, Relay, State};

const ALICE: u64 = 4242;

fn message(author_id: u64, content: &str) -> Inbound {
    Inbound { author_id, content: content.to_string(), attachments: vec![], avatar_hash: None }
}

fn say(text: &str) -> Action {
    Action::Say { text: text.to_string() }
}

fn post(nick: &str, avatar: &str, text: &str) -> Action {
    Action::Post { nick: nick.to_string(), avatar: avatar.to_string(), text: text.to_string() }
}

fn endpoint(audit: &str) -> Action {
    Action::CreateEndpoint { label: "Momo's hook".to_string(), audit: audit.to_string() }
}

/// A platform on which everything works: the author is called alice, and the
/// relayed messages get the ids 9001, 9002 and so on.
fn willing(posted: &mut u64, action: &Action) -> Event {
    match action {
        Action::ResolveUser { .. } => Event::UserName("alice".to_string()),
        Action::Post { .. } => {
            *posted += 1;
            Event::Posted(9000 + *posted)
        },
        _ => Event::Done,
    }
}

/// Handles a message to its end on a platform that refuses the actions for
/// which `refuses` says so, and gives back every action in turn.
fn handle(db: &mut Database, msg: &Inbound, refuses: fn(&Action) -> bool) -> Vec<Action> {
    let mut posted = 0;
    let mut actions = Vec::new();
    let (mut state, mut action) = begin(db, msg);
    for _ in 0..20 {
        let over = matches!(action, Action::Finish(_));
        let event = if refuses(&action) { Event::Failed } else { willing(&mut posted, &action) };
        actions.push(action);
        if over {
            assert!(matches!(state, State::Finished(_)));
            return actions;
        }
        (state, action) = advance(db, state, event);
    }
    panic!("the handling did not end: {actions:?}");
}

fn never(_: &Action) -> bool {
    false
}

#[test]
fn a_keyword_relays_the_body_under_the_identity() {
    let mut db = Database::init();
    db.add_identity(ALICE, "bob", "Bob", "http://a/bob.png");
    let actions = handle(&mut db, &message(ALICE, ";bob hello there"), never);
    assert_eq!(
        actions,
        vec![
            Action::ResolveUser { user_id: ALICE },
            endpoint("User alice (id: 4242) speaks with nick Bob"),
            post("Bob", "http://a/bob.png", " hello there"),
            Action::Persist(Write::RecordMessage { user_id: ALICE, msg_id: 9001 }),
            Action::DeleteEndpoint,
            Action::DeleteOriginal,
            Action::Finish(Ok(())),
        ]
    );
    assert_eq!(db.get_message_owner(9001), Some(ALICE));
}

#[test]
fn registering_then_speaking_relays_and_logs() {
    let mut db = Database::init();
    let registered = handle(&mut db, &message(ALICE, ";register bob Bob"), never);
    assert_eq!(
        registered,
        vec![
            Action::Persist(Write::AddIdentity {
                user_id: ALICE,
                identity: Identity {
                    keyword: "bob".to_string(),
                    nick: " Bob".to_string(),
                    avatar: "https://pbs.twimg.com/media/GvIpQVUWAAAmcsO?format=jpg&name=4096x4096"
                        .to_string(),
                },
            }),
            Action::ResolveUser { user_id: ALICE },
            endpoint("User alice (id: 4242) speaks with nick  Bob"),
            post(
                " Bob",
                "https://pbs.twimg.com/media/GvIpQVUWAAAmcsO?format=jpg&name=4096x4096",
                "Identity registered."
            ),
            Action::Persist(Write::RecordMessage { user_id: ALICE, msg_id: 9001 }),
            Action::DeleteEndpoint,
            Action::Finish(Ok(())),
        ]
    );
    let spoken = handle(&mut db, &message(ALICE, ";bob hello there"), never);
    assert_eq!(spoken[2], post(
        " Bob",
        "https://pbs.twimg.com/media/GvIpQVUWAAAmcsO?format=jpg&name=4096x4096",
        " hello there"
    ));
    assert_eq!(spoken[5], Action::DeleteOriginal);
    assert_eq!(spoken[6], Action::Finish(Ok(())));
    assert_eq!(db.get_message_owner(9001), Some(ALICE));
}

#[test]
fn an_active_switch_relays_without_the_prefix() {
    let mut db = Database::init();
    db.add_identity(ALICE, "bob", "Bob", "http://a/bob.png");
    db.set_switch(ALICE, "bob");
    let actions = handle(&mut db, &message(ALICE, "hi"), never);
    assert_eq!(
        actions,
        vec![
            Action::ResolveUser { user_id: ALICE },
            endpoint("User alice (id: 4242) speaks with nick Bob"),
            post("Bob", "http://a/bob.png", "hi"),
            Action::Persist(Write::RecordMessage { user_id: ALICE, msg_id: 9001 }),
            Action::DeleteEndpoint,
            Action::DeleteOriginal,
            Action::Finish(Ok(())),
        ]
    );
    assert_eq!(db.get_message_owner(9001), Some(ALICE));
}

#[test]
fn without_switch_an_unprefixed_message_is_passed_over() {
    let mut db = Database::init();
    db.add_identity(ALICE, "bob", "Bob", "a");
    db.set_switch(ALICE + 1, "bob");
    assert_eq!(handle(&mut db, &message(ALICE, "hi"), never), vec![Action::Finish(Ok(()))]);
    assert_eq!(handle(&mut db, &message(ALICE, ""), never), vec![Action::Finish(Ok(()))]);
    assert_eq!(handle(&mut db, &message(ALICE, " ;bob hi"), never), vec![Action::Finish(Ok(()))]);
}

#[test]
fn switching_to_an_unknown_identity_writes_no_switch() {
    let mut db = Database::init();
    let actions = handle(&mut db, &message(ALICE, ";switch unknown"), never);
    assert_eq!(
        actions,
        vec![say("No identity 'unknown' for this user"), Action::Finish(Ok(()))]
    );
    assert_eq!(db.get_switch(ALICE), None);
}

#[test]
fn switching_to_an_unknown_identity_keeps_the_earlier_switch() {
    let mut db = Database::init();
    db.add_identity(ALICE, "bob", "Bob", "a");
    db.set_switch(ALICE, "bob");
    handle(&mut db, &message(ALICE, ";switch unknown"), never);
    assert_eq!(db.get_switch(ALICE), Some("bob".to_string()));
}

#[test]
fn switching_to_a_known_identity_writes_the_switch_and_confirms() {
    let mut db = Database::init();
    db.add_identity(ALICE, "bob", "Bob", "a");
    let actions = handle(&mut db, &message(ALICE, ";switch bob"), never);
    assert_eq!(
        actions,
        vec![
            Action::Persist(Write::SetSwitch { user_id: ALICE, keyword: "bob".to_string() }),
            say("User now speaks as 'Bob'"),
            Action::Finish(Ok(())),
        ]
    );
    assert_eq!(db.get_switch(ALICE), Some("bob".to_string()));
}

#[test]
fn list_without_identities_is_a_notice() {
    let mut db = Database::init();
    db.add_identity(ALICE + 1, "bob", "Bob", "a");
    assert_eq!(
        handle(&mut db, &message(ALICE, ";list"), never),
        vec![say("You have no registerd identities"), Action::Finish(Ok(()))]
    );
}

#[test]
fn list_names_both_identities() {
    let mut db = Database::init();
    db.add_identity(ALICE, "bob", "Bob", "a");
    db.add_identity(ALICE, "amy", "Amy", "b");
    assert_eq!(
        handle(&mut db, &message(ALICE, ";list"), never),
        vec![
            say("Your registered identities:```\nbob | Bob\namy | Amy```"),
            Action::Finish(Ok(())),
        ]
    );
}

#[test]
fn help_sends_the_command_reference() {
    let mut db = Database::init();
    let actions = handle(&mut db, &message(ALICE, ";help"), never);
    assert_eq!(actions.len(), 2);
    match &actions[0] {
        Action::Say { text } => {
            assert!(text.starts_with("Command list:\n```\n| display this message"));
            assert!(text.contains("| ;switch <keyword>"));
            assert!(text.ends_with("keyword for a personality```"));
        },
        other => panic!("{other:?}"),
    }
    assert_eq!(actions[1], Action::Finish(Ok(())));
}

#[test]
fn a_line_of_prefixes_is_passed_over() {
    let mut db = Database::init();
    db.set_switch(ALICE, "bob");
    assert_eq!(handle(&mut db, &message(ALICE, ";"), never), vec![Action::Finish(Ok(()))]);
    assert_eq!(handle(&mut db, &message(ALICE, ";;  "), never), vec![Action::Finish(Ok(()))]);
}

#[test]
fn forget_removes_and_confirms_whether_or_not_anything_was_there() {
    let mut db = Database::init();
    db.add_identity(ALICE, "bob", "Bob", "a");
    let expected = vec![
        Action::Persist(Write::RemoveIdentity { user_id: ALICE, keyword: "bob".to_string() }),
        say("Removed identity 'bob'"),
        Action::Finish(Ok(())),
    ];
    assert_eq!(handle(&mut db, &message(ALICE, ";forget bob"), never), expected);
    assert_eq!(db.get_identity(ALICE, "bob"), None);
    assert_eq!(handle(&mut db, &message(ALICE, ";forget bob"), never), expected);
}

#[test]
fn stop_clears_the_switch_and_confirms_whether_or_not_one_was_set() {
    let mut db = Database::init();
    db.set_switch(ALICE, "bob");
    let expected = vec![
        Action::Persist(Write::DeleteSwitch { user_id: ALICE }),
        say("User unswitched"),
        Action::Finish(Ok(())),
    ];
    assert_eq!(handle(&mut db, &message(ALICE, ";stop"), never), expected);
    assert_eq!(db.get_switch(ALICE), None);
    assert_eq!(handle(&mut db, &message(ALICE, ";stop"), never), expected);
}

#[test]
fn malformed_commands_are_answered_with_a_notice() {
    let mut db = Database::init();
    for (line, notice) in [
        (";register", "Malformed register command!"),
        (";forget", "Malformed forget command!"),
        (";switch  ", "Malformed switch command!"),
    ] {
        assert_eq!(
            handle(&mut db, &message(ALICE, line), never),
            vec![say(notice), Action::Finish(Ok(()))]
        );
    }
    assert_eq!(db.get_identities(ALICE), vec![]);
    assert_eq!(db.get_switch(ALICE), None);
}

#[test]
fn an_unknown_keyword_is_answered_and_the_message_still_deleted() {
    let mut db = Database::init();
    assert_eq!(
        handle(&mut db, &message(ALICE, ";bob hello"), never),
        vec![
            say("Nickname bob does not exist for you!"),
            Action::DeleteOriginal,
            Action::Finish(Ok(())),
        ]
    );
}

#[test]
fn a_switch_to_a_forgotten_identity_is_answered_and_the_message_deleted() {
    let mut db = Database::init();
    db.set_switch(ALICE, "bob");
    assert_eq!(
        handle(&mut db, &message(ALICE, "hi"), never),
        vec![
            say("Nickname bob does not exist for you!"),
            Action::DeleteOriginal,
            Action::Finish(Ok(())),
        ]
    );
}

#[test]
fn register_takes_the_first_attachment_as_avatar() {
    let mut db = Database::init();
    let msg = Inbound {
        author_id: ALICE,
        content: ";register bob Bob".to_string(),
        attachments: vec!["http://x/1.png".to_string(), "http://x/2.png".to_string()],
        avatar_hash: Some("abc".to_string()),
    };
    handle(&mut db, &msg, never);
    assert_eq!(db.get_identity(ALICE, "bob").unwrap().avatar, "http://x/1.png");
}

#[test]
fn register_falls_back_to_the_authors_avatar() {
    let mut db = Database::init();
    let msg = Inbound {
        author_id: ALICE,
        content: ";register bob Bob".to_string(),
        attachments: vec![],
        avatar_hash: Some("f1eff024d9c85339c877985229ed8fec".to_string()),
    };
    handle(&mut db, &msg, never);
    assert_eq!(
        db.get_identity(ALICE, "bob").unwrap().avatar,
        "https://cdn.discordapp.com/avatars/4242/\"f1eff024d9c85339c877985229ed8fec\".png"
    );
}

#[test]
fn registering_a_taken_keyword_confirms_under_the_earlier_identity() {
    let mut db = Database::init();
    db.add_identity(ALICE, "bob", "Bob", "a1");
    let actions = handle(&mut db, &message(ALICE, ";register bob Robert"), never);
    assert_eq!(actions[3], post("Bob", "a1", "Identity registered."));
    assert_eq!(db.get_identities(ALICE).len(), 2);
    assert_eq!(db.get_identity(ALICE, "bob").unwrap().nick, "Bob");
}

#[test]
fn run_command_carries_out_a_command_read_elsewhere() {
    let mut db = Database::init();
    db.add_identity(ALICE, "bob", "Bob", "a");
    let msg = message(ALICE, "whatever");
    let (state, action) =
        run_command(&mut db, &msg, Command::Switch { keyword: "bob".to_string() });
    assert_eq!(state, State::Storing { notice: "User now speaks as 'Bob'".to_string() });
    assert_eq!(
        action,
        Action::Persist(Write::SetSwitch { user_id: ALICE, keyword: "bob".to_string() })
    );
    assert_eq!(db.get_switch(ALICE), Some("bob".to_string()));
}

fn refuses_say(action: &Action) -> bool {
    matches!(action, Action::Say { .. })
}

fn refuses_lookup(action: &Action) -> bool {
    matches!(action, Action::ResolveUser { .. })
}

fn refuses_endpoint(action: &Action) -> bool {
    matches!(action, Action::CreateEndpoint { .. })
}

fn refuses_post(action: &Action) -> bool {
    matches!(action, Action::Post { .. })
}

fn refuses_post_and_teardown(action: &Action) -> bool {
    matches!(action, Action::Post { .. } | Action::DeleteEndpoint)
}

fn refuses_teardown(action: &Action) -> bool {
    matches!(action, Action::DeleteEndpoint)
}

fn refuses_removal(action: &Action) -> bool {
    matches!(action, Action::DeleteOriginal)
}

fn refuses_writes(action: &Action) -> bool {
    matches!(action, Action::Persist(_))
}

fn with_bob() -> Database {
    let mut db = Database::init();
    db.add_identity(ALICE, "bob", "Bob", "a");
    db
}

#[test]
fn a_refused_notice_fails_the_handling() {
    let mut db = Database::init();
    assert_eq!(
        handle(&mut db, &message(ALICE, ";list"), refuses_say).last(),
        Some(&Action::Finish(Err(Error::Say)))
    );
    let actions = handle(&mut db, &message(ALICE, ";bob hi"), refuses_say);
    assert_eq!(actions.len(), 2);
    assert_eq!(actions[1], Action::Finish(Err(Error::Say)));
}

#[test]
fn a_refused_lookup_fails_the_handling_before_any_endpoint() {
    let mut db = with_bob();
    assert_eq!(
        handle(&mut db, &message(ALICE, ";bob hi"), refuses_lookup),
        vec![Action::ResolveUser { user_id: ALICE }, Action::Finish(Err(Error::ResolveUser))]
    );
}

#[test]
fn a_refused_endpoint_fails_the_handling() {
    let mut db = with_bob();
    let actions = handle(&mut db, &message(ALICE, ";bob hi"), refuses_endpoint);
    assert_eq!(actions.len(), 3);
    assert_eq!(actions[2], Action::Finish(Err(Error::CreateEndpoint)));
}

#[test]
fn a_refused_post_still_has_the_endpoint_deleted() {
    let mut db = with_bob();
    let actions = handle(&mut db, &message(ALICE, ";bob hi"), refuses_post);
    assert_eq!(
        actions[2..],
        [post("Bob", "a", " hi"), Action::DeleteEndpoint, Action::Finish(Err(Error::Post))]
    );
    assert_eq!(db.get_message_owner(9001), None);
}

#[test]
fn a_refused_post_is_the_failure_even_when_teardown_fails_too() {
    let mut db = with_bob();
    let actions = handle(&mut db, &message(ALICE, ";bob hi"), refuses_post_and_teardown);
    assert_eq!(actions[3..], [Action::DeleteEndpoint, Action::Finish(Err(Error::Post))]);
}

#[test]
fn a_refused_teardown_fails_the_handling_and_keeps_the_message() {
    let mut db = with_bob();
    let actions = handle(&mut db, &message(ALICE, ";bob hi"), refuses_teardown);
    assert_eq!(
        actions[4..],
        [Action::DeleteEndpoint, Action::Finish(Err(Error::DeleteEndpoint))]
    );
    assert_eq!(db.get_message_owner(9001), Some(ALICE));
}

#[test]
fn a_refused_removal_fails_the_handling() {
    let mut db = with_bob();
    let actions = handle(&mut db, &message(ALICE, ";bob hi"), refuses_removal);
    assert_eq!(
        actions[5..],
        [Action::DeleteOriginal, Action::Finish(Err(Error::DeleteOriginal))]
    );
}

#[test]
fn a_failed_durable_write_does_not_stop_the_handling() {
    let mut db = with_bob();
    assert_eq!(
        handle(&mut db, &message(ALICE, ";switch bob"), refuses_writes).last(),
        Some(&Action::Finish(Ok(())))
    );
    assert_eq!(db.get_switch(ALICE), Some("bob".to_string()));
    let actions = handle(&mut db, &message(ALICE, ";bob hi"), refuses_writes);
    assert_eq!(actions.len(), 7);
    assert_eq!(actions[6], Action::Finish(Ok(())));
    let actions = handle(&mut db, &message(ALICE, ";register amy Amy"), refuses_writes);
    assert_eq!(actions.last(), Some(&Action::Finish(Ok(()))));
}

#[test]
fn an_answer_of_the_wrong_kind_counts_as_a_refusal() {
    let mut db = with_bob();
    let (state, _) = begin(&mut db, &message(ALICE, ";bob hi"));
    let (state, action) = advance(&mut db, state, Event::Done);
    assert_eq!(action, Action::Finish(Err(Error::ResolveUser)));
    assert_eq!(state, State::Finished(Err(Error::ResolveUser)));

    let (_, action) =
        advance(&mut db, State::Saying { delete_original: true }, Event::Posted(1));
    assert_eq!(action, Action::Finish(Err(Error::Say)));
    let (state, action) = advance(
        &mut db,
        State::Posting { user_id: ALICE, delete_original: true },
        Event::Done,
    );
    assert_eq!(action, Action::DeleteEndpoint);
    assert_eq!(state, State::Closing { posted: false, delete_original: true });
}

#[test]
fn a_finished_handling_stays_finished() {
    let mut db = Database::init();
    for outcome in [Ok(()), Err(Error::Post)] {
        for event in [Event::Done, Event::Failed, Event::Posted(3), Event::UserName("x".into())] {
            let (state, action) = advance(&mut db, State::Finished(outcome), event);
            assert_eq!(state, State::Finished(outcome));
            assert_eq!(action, Action::Finish(outcome));
        }
    }
}

#[test]
fn a_relay_that_keeps_the_message_ends_after_teardown() {
    let mut db = Database::init();
    let relay = Relay {
        user_id: ALICE,
        nick: "Bob".to_string(),
        avatar: "a".to_string(),
        text: "t".to_string(),
        delete_original: false,
    };
    let (state, action) = advance(&mut db, State::Opening { relay }, Event::Done);
    assert_eq!(action, post("Bob", "a", "t"));
    let (state, action) = advance(&mut db, state, Event::Posted(77));
    assert_eq!(action, Action::Persist(Write::RecordMessage { user_id: ALICE, msg_id: 77 }));
    assert_eq!(db.get_message_owner(77), Some(ALICE));
    let (state, action) = advance(&mut db, state, Event::Done);
    assert_eq!(action, Action::DeleteEndpoint);
    let (state, action) = advance(&mut db, state, Event::Done);
    assert_eq!(action, Action::Finish(Ok(())));
    assert_eq!(state, State::Finished(Ok(())));
}

#[test]
fn one_users_commands_leave_another_users_rows_alone() {
    let mut db = Database::init();
    db.add_identity(1, "bob", "Bob One", "a");
    db.set_switch(1, "bob");
    for line in [";register bob Bob", ";switch bob", ";forget bob", ";stop", ";bob hi", "hi"] {
        handle(&mut db, &message(2, line), never);
    }
    assert_eq!(db.get_identity(1, "bob").unwrap().nick, "Bob One");
    assert_eq!(db.get_identities(1).len(), 1);
    assert_eq!(db.get_switch(1), Some("bob".to_string()));
}

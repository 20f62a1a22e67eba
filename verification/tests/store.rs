use tdiscord::database::{Database, Identity, Write};

fn identity(keyword: &str, nick: &str, avatar: &str) -> Identity {
    Identity { keyword: keyword.to_string(), nick: nick.to_string(), avatar: avatar.to_string() }
}

#[test]
fn a_new_store_is_empty() {
    let db = Database::init();
    assert_eq!(db.get_switch(1), None);
    assert_eq!(db.get_identity(1, "bob"), None);
    assert_eq!(db.get_identities(1), vec![]);
    assert_eq!(db.get_message_owner(1), None);
}

#[test]
fn an_added_identity_is_found_with_its_name_and_avatar() {
    let mut db = Database::init();
    db.add_identity(7, "bob", "Bob", "http://a/bob.png");
    assert_eq!(db.get_identity(7, "bob"), Some(identity("bob", "Bob", "http://a/bob.png")));
}

#[test]
fn an_identity_belongs_to_its_user_and_keyword_only() {
    let mut db = Database::init();
    db.add_identity(7, "bob", "Bob", "a");
    assert_eq!(db.get_identity(8, "bob"), None);
    assert_eq!(db.get_identity(7, "bo"), None);
    assert_eq!(db.get_identity(7, "Bob"), None);
}

#[test]
fn of_two_identities_under_one_keyword_the_first_is_found() {
    let mut db = Database::init();
    db.add_identity(7, "bob", "Bob", "a1");
    db.add_identity(7, "bob", "Robert", "a2");
    assert_eq!(db.get_identity(7, "bob"), Some(identity("bob", "Bob", "a1")));
    assert_eq!(
        db.get_identities(7),
        vec![identity("bob", "Bob", "a1"), identity("bob", "Robert", "a2")]
    );
}

#[test]
fn a_removed_identity_is_not_found() {
    let mut db = Database::init();
    db.add_identity(7, "bob", "Bob", "a");
    db.remove_identity(7, "bob");
    assert_eq!(db.get_identity(7, "bob"), None);
    assert_eq!(db.get_identities(7), vec![]);
}

#[test]
fn removing_takes_every_row_of_the_keyword_and_no_other() {
    let mut db = Database::init();
    db.add_identity(7, "bob", "Bob", "a1");
    db.add_identity(7, "amy", "Amy", "a2");
    db.add_identity(8, "bob", "Other Bob", "a3");
    db.add_identity(7, "bob", "Robert", "a4");
    db.remove_identity(7, "bob");
    assert_eq!(db.get_identity(7, "bob"), None);
    assert_eq!(db.get_identities(7), vec![identity("amy", "Amy", "a2")]);
    assert_eq!(db.get_identities(8), vec![identity("bob", "Other Bob", "a3")]);
}

#[test]
fn removing_what_is_not_there_changes_nothing() {
    let mut db = Database::init();
    db.add_identity(7, "amy", "Amy", "a");
    db.remove_identity(7, "bob");
    db.remove_identity(9, "amy");
    assert_eq!(db.get_identities(7), vec![identity("amy", "Amy", "a")]);
}

#[test]
fn identities_are_listed_in_the_order_they_were_added() {
    let mut db = Database::init();
    db.add_identity(7, "c", "C", "3");
    db.add_identity(8, "x", "X", "0");
    db.add_identity(7, "a", "A", "1");
    db.add_identity(7, "b", "B", "2");
    assert_eq!(
        db.get_identities(7),
        vec![identity("c", "C", "3"), identity("a", "A", "1"), identity("b", "B", "2")]
    );
    assert_eq!(db.get_identities(9), vec![]);
}

#[test]
fn the_last_switch_wins() {
    let mut db = Database::init();
    db.set_switch(7, "a");
    db.set_switch(7, "b");
    assert_eq!(db.get_switch(7), Some("b".to_string()));
}

#[test]
fn a_switch_is_per_user() {
    let mut db = Database::init();
    db.set_switch(7, "a");
    db.set_switch(8, "b");
    assert_eq!(db.get_switch(7), Some("a".to_string()));
    assert_eq!(db.get_switch(8), Some("b".to_string()));
    assert_eq!(db.get_switch(9), None);
    db.delete_switch(7);
    assert_eq!(db.get_switch(7), None);
    assert_eq!(db.get_switch(8), Some("b".to_string()));
}

#[test]
fn clearing_a_switch_that_is_not_there_does_nothing() {
    let mut db = Database::init();
    db.delete_switch(7);
    assert_eq!(db.get_switch(7), None);
    db.set_switch(8, "b");
    db.delete_switch(7);
    db.delete_switch(7);
    assert_eq!(db.get_switch(8), Some("b".to_string()));
}

#[test]
fn a_switch_may_name_a_keyword_without_identity() {
    let mut db = Database::init();
    db.set_switch(7, "ghost");
    assert_eq!(db.get_switch(7), Some("ghost".to_string()));
    assert_eq!(db.get_identity(7, "ghost"), None);
}

#[test]
fn a_logged_message_has_its_owner() {
    let mut db = Database::init();
    db.record_message(7, 1001);
    db.record_message(8, 1002);
    assert_eq!(db.get_message_owner(1001), Some(7));
    assert_eq!(db.get_message_owner(1002), Some(8));
    assert_eq!(db.get_message_owner(1003), None);
}

#[test]
fn a_message_logged_twice_keeps_its_first_owner() {
    let mut db = Database::init();
    db.record_message(7, 1001);
    db.record_message(8, 1001);
    assert_eq!(db.get_message_owner(1001), Some(7));
}

#[test]
fn the_three_tables_do_not_touch_each_other() {
    let mut db = Database::init();
    db.add_identity(7, "bob", "Bob", "a");
    db.set_switch(7, "bob");
    db.record_message(7, 5);
    db.remove_identity(7, "bob");
    assert_eq!(db.get_switch(7), Some("bob".to_string()));
    assert_eq!(db.get_message_owner(5), Some(7));
    db.delete_switch(7);
    assert_eq!(db.get_message_owner(5), Some(7));
}

#[test]
fn applying_a_write_is_making_the_change() {
    let mut db = Database::init();
    db.apply(&Write::AddIdentity { user_id: 7, identity: identity("bob", "Bob", "a") });
    assert_eq!(db.get_identity(7, "bob"), Some(identity("bob", "Bob", "a")));
    db.apply(&Write::SetSwitch { user_id: 7, keyword: "bob".to_string() });
    assert_eq!(db.get_switch(7), Some("bob".to_string()));
    db.apply(&Write::RecordMessage { user_id: 7, msg_id: 44 });
    assert_eq!(db.get_message_owner(44), Some(7));
    db.apply(&Write::DeleteSwitch { user_id: 7 });
    assert_eq!(db.get_switch(7), None);
    db.apply(&Write::RemoveIdentity { user_id: 7, keyword: "bob".to_string() });
    assert_eq!(db.get_identity(7, "bob"), None);
    assert_eq!(db.get_message_owner(44), Some(7));
}

#[test]
fn a_cloned_identity_equals_its_source() {
    let a = identity("bob", "Bob", "http://a");
    let b = a.clone();
    assert_eq!(a, b);
    assert_eq!(b.nick, "Bob");
}

#[test]
fn user_ids_use_the_whole_range() {
    let mut db = Database::init();
    db.add_identity(u64::MAX, "k", "N", "a");
    db.set_switch(0, "k");
    db.record_message(u64::MAX, u64::MAX);
    assert_eq!(db.get_identity(u64::MAX, "k"), Some(identity("k", "N", "a")));
    assert_eq!(db.get_switch(0), Some("k".to_string()));
    assert_eq!(db.get_message_owner(u64::MAX), Some(u64::MAX));
}

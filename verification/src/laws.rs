//! What holds of the store whatever it contains, and of a handling however
//! the platform answers.

use vstd::prelude::*;
use crate::command::{lemma_prefix_ignored, parsed, sanitized};
use crate::database::{owned_by, without, IdentityRow, IdentityView, Tables, WriteView};
use crate::dispatch::{command_move, finish, first_move, registrar, say, step, written};
use crate::protocol::{ActionView, CommandView, Error, EventView, InboundView, StateView};
use crate::replies::no_identity_notice;
use crate::text::COMMAND_PREFIX;

verus! {

/// Where some row holds an identity of the user under the keyword, a first such row exists.
pub proof fn lemma_first_named_exists(t: Tables, user_id: u64, keyword: Seq<char>, i: int)
    requires
        t.names(user_id, keyword, i),
    ensures
        exists|j: int| 0 <= j <= i && t.first_named_at(user_id, keyword, j),
    decreases i,
{
    if exists|j: int| 0 <= j < i && t.names(user_id, keyword, j) {
        let j = choose|j: int| 0 <= j < i && t.names(user_id, keyword, j);
        lemma_first_named_exists(t, user_id, keyword, j);
    } else {
        assert(t.first_named_at(user_id, keyword, i));
    }
}

/// The identity found for a user and a keyword is the one in the first row that holds one.
pub proof fn lemma_identity_is_first(t: Tables, user_id: u64, keyword: Seq<char>, i: int)
    requires
        t.first_named_at(user_id, keyword, i),
    ensures
        t.identity_of(user_id, keyword) == Some(t.identities[i].identity),
{
    let k = choose|k: int| t.first_named_at(user_id, keyword, k);
    if k < i {
        assert(!t.names(user_id, keyword, k));
    } else if i < k {
        assert(!t.names(user_id, keyword, i));
    }
}

/// No identity is found exactly when no row holds one.
pub proof fn lemma_identity_none(t: Tables, user_id: u64, keyword: Seq<char>)
    ensures
        t.identity_of(user_id, keyword) is None <==> forall|i: int|
            !t.names(user_id, keyword, i),
{
    if t.identity_of(user_id, keyword) is None {
        assert forall|i: int| !t.names(user_id, keyword, i) by {
            if t.names(user_id, keyword, i) {
                lemma_first_named_exists(t, user_id, keyword, i);
            }
        }
    } else {
        let k = choose|k: int| t.first_named_at(user_id, keyword, k);
        assert(t.names(user_id, keyword, k));
    }
}

/// An identity, once added, is the one found for its user and keyword, unless
/// the user had another one under that keyword before: the first one stays the
/// one that is found.
pub proof fn lemma_added_identity_is_found(t: Tables, user_id: u64, identity: IdentityView)
    requires
        t.identity_of(user_id, identity.keyword) matches Some(earlier) ==> earlier == identity,
    ensures
        t.add_identity(user_id, identity).identity_of(user_id, identity.keyword) == Some(
            identity,
        ),
{
    if t.identity_of(user_id, identity.keyword) is Some {
        lemma_earlier_identity_stays(t, user_id, identity, user_id, identity.keyword);
    } else {
        let after = t.add_identity(user_id, identity);
        let last = t.identities.len() as int;
        lemma_identity_none(t, user_id, identity.keyword);
        assert forall|j: int| 0 <= j < last implies !after.names(user_id, identity.keyword, j) by {
            assert(after.identities[j] == t.identities[j]);
            assert(!t.names(user_id, identity.keyword, j));
        }
        assert(after.first_named_at(user_id, identity.keyword, last));
        lemma_identity_is_first(after, user_id, identity.keyword, last);
    }
}

/// Adding an identity changes nothing of what was found before: under a keyword
/// that the user had taken, the earlier identity is still the one found.
pub proof fn lemma_earlier_identity_stays(
    t: Tables,
    user_id: u64,
    identity: IdentityView,
    owner: u64,
    keyword: Seq<char>,
)
    requires
        t.identity_of(owner, keyword) is Some,
    ensures
        t.add_identity(user_id, identity).identity_of(owner, keyword) == t.identity_of(
            owner,
            keyword,
        ),
{
    let after = t.add_identity(user_id, identity);
    let k = choose|k: int| t.first_named_at(owner, keyword, k);
    assert(after.identities[k] == t.identities[k]);
    assert forall|j: int| 0 <= j < k implies !after.names(owner, keyword, j) by {
        assert(after.identities[j] == t.identities[j]);
        assert(!t.names(owner, keyword, j));
    }
    assert(after.first_named_at(owner, keyword, k));
    lemma_identity_is_first(after, owner, keyword, k);
}

/// Every row left by `without` is a row that was there and does not hold an
/// identity of the user under the keyword.
pub proof fn lemma_without_holds_none(rows: Seq<IdentityRow>, user_id: u64, keyword: Seq<char>)
    ensures
        forall|i: int|
            0 <= i < without(rows, user_id, keyword).len() ==> {
                let row = #[trigger] without(rows, user_id, keyword)[i];
                &&& rows.contains(row)
                &&& !(row.userid == user_id && row.identity.keyword == keyword)
            },
    decreases rows.len(),
{
    if rows.len() > 0 {
        let front = rows.drop_last();
        lemma_without_holds_none(front, user_id, keyword);
        assert forall|i: int| 0 <= i < without(rows, user_id, keyword).len() implies {
            let row = #[trigger] without(rows, user_id, keyword)[i];
            &&& rows.contains(row)
            &&& !(row.userid == user_id && row.identity.keyword == keyword)
        } by {
            let row = without(rows, user_id, keyword)[i];
            if i < without(front, user_id, keyword).len() {
                assert(row == without(front, user_id, keyword)[i]);
                let at = choose|at: int| 0 <= at < front.len() && front[at] == row;
                assert(rows[at] == row);
            } else {
                assert(row == rows.last());
                assert(rows[rows.len() - 1] == row);
            }
        }
    }
}

/// After the identities of a user under a keyword were removed, none is found
/// for that user and keyword.
pub proof fn lemma_removed_identity_is_gone(t: Tables, user_id: u64, keyword: Seq<char>)
    ensures
        t.remove_identity(user_id, keyword).identity_of(user_id, keyword) is None,
{
    let after = t.remove_identity(user_id, keyword);
    lemma_without_holds_none(t.identities, user_id, keyword);
    assert forall|i: int| !after.names(user_id, keyword, i) by {
        if 0 <= i < after.identities.len() {
            let row = without(t.identities, user_id, keyword)[i];
        }
    }
    lemma_identity_none(after, user_id, keyword);
}

/// Of two switches in a row the second is the one that stands, as if the first
/// had never been made.
pub proof fn lemma_last_switch_wins(t: Tables, user_id: u64, first: Seq<char>, second: Seq<char>)
    ensures
        t.set_switch(user_id, first).set_switch(user_id, second).switch_of(user_id) == Some(
            second,
        ),
        t.set_switch(user_id, first).set_switch(user_id, second) == t.set_switch(user_id, second),
{
    assert(t.switches.insert(user_id, first).insert(user_id, second) =~= t.switches.insert(
        user_id,
        second,
    ));
}

/// Clearing the switch of a user who has none leaves the store as it was, and
/// after clearing the user has none.
pub proof fn lemma_clear_switch(t: Tables, user_id: u64)
    ensures
        t.switch_of(user_id) is None ==> t.delete_switch(user_id) == t,
        t.delete_switch(user_id).switch_of(user_id) is None,
{
    if t.switch_of(user_id) is None {
        assert(t.switches.remove(user_id) =~= t.switches);
    }
}

/// A switch, once set, is what is read back, and it touches no other user.
pub proof fn lemma_switch_read_back(t: Tables, user_id: u64, keyword: Seq<char>, other: u64)
    ensures
        t.set_switch(user_id, keyword).switch_of(user_id) == Some(keyword),
        other != user_id ==> t.set_switch(user_id, keyword).switch_of(other) == t.switch_of(
            other,
        ),
        other != user_id ==> t.delete_switch(user_id).switch_of(other) == t.switch_of(other),
{
}

/// The log only grows: a message that had an owner keeps it, and one that had
/// none gets the user it is logged for.
pub proof fn lemma_record_message(t: Tables, user_id: u64, msg_id: u64, asked: u64)
    ensures
        t.message_owner(asked) is Some ==> t.record_message(user_id, msg_id).message_owner(asked)
            == t.message_owner(asked),
        t.message_owner(msg_id) is None ==> t.record_message(user_id, msg_id).message_owner(
            msg_id,
        ) == Some(user_id),
        t.message_owner(asked) is None && asked != msg_id ==> t.record_message(
            user_id,
            msg_id,
        ).message_owner(asked) is None,
{
    let after = t.record_message(user_id, msg_id);
    let last = t.messages.len() as int;
    assert forall|j: int| 0 <= j < last implies after.messages[j] == t.messages[j] by {}
    if t.message_owner(asked) is Some {
        let k = choose|k: int| t.first_record_at(asked, k);
        assert(after.messages[k] == t.messages[k]);
        assert(after.first_record_at(asked, k));
        lemma_owner_is_first(after, asked, k);
    } else {
        lemma_owner_none(t, asked);
        if asked != msg_id {
            assert forall|i: int| !(0 <= i < after.messages.len() && after.messages[i].msgid
                == asked) by {
                if 0 <= i < last {
                    assert(after.messages[i] == t.messages[i]);
                }
            }
            lemma_owner_none(after, asked);
        }
    }
    if t.message_owner(msg_id) is None {
        lemma_owner_none(t, msg_id);
        assert forall|j: int| 0 <= j < last implies (#[trigger] after.messages[j]).msgid
            != msg_id by {
            assert(after.messages[j] == t.messages[j]);
        }
        assert(after.first_record_at(msg_id, last));
        lemma_owner_is_first(after, msg_id, last);
    }
}

/// The owner found for a message is the user in the first row logged for it.
pub proof fn lemma_owner_is_first(t: Tables, msg_id: u64, i: int)
    requires
        t.first_record_at(msg_id, i),
    ensures
        t.message_owner(msg_id) == Some(t.messages[i].userid),
{
    let k = choose|k: int| t.first_record_at(msg_id, k);
    if k < i {
        assert(t.messages[k].msgid != msg_id);
    } else if i < k {
        assert(t.messages[i].msgid != msg_id);
    }
}

/// No owner is found exactly when no row is logged for the message.
pub proof fn lemma_owner_none(t: Tables, msg_id: u64)
    ensures
        t.message_owner(msg_id) is None <==> forall|i: int|
            !(0 <= i < t.messages.len() && t.messages[i].msgid == msg_id),
{
    if t.message_owner(msg_id) is None {
        assert forall|i: int| !(0 <= i < t.messages.len() && t.messages[i].msgid == msg_id) by {
            if 0 <= i < t.messages.len() && t.messages[i].msgid == msg_id {
                lemma_first_record_exists(t, msg_id, i);
            }
        }
    } else {
        let k = choose|k: int| t.first_record_at(msg_id, k);
        assert(0 <= k < t.messages.len() && t.messages[k].msgid == msg_id);
    }
}

/// Where some row is logged for a message, a first such row exists.
pub proof fn lemma_first_record_exists(t: Tables, msg_id: u64, i: int)
    requires
        0 <= i < t.messages.len(),
        t.messages[i].msgid == msg_id,
    ensures
        exists|j: int| 0 <= j <= i && t.first_record_at(msg_id, j),
    decreases i,
{
    if exists|j: int| 0 <= j < i && t.messages[j].msgid == msg_id {
        let j = choose|j: int| 0 <= j < i && t.messages[j].msgid == msg_id;
        lemma_first_record_exists(t, msg_id, j);
    } else {
        assert(t.first_record_at(msg_id, i));
    }
}

/// A line reads the same with any number of prefixes put before it.
pub proof fn lemma_prefixes_ignored(n: nat, s: Seq<char>)
    ensures
        sanitized(Seq::new(n, |i: int| COMMAND_PREFIX) + s) == sanitized(s),
        parsed(Seq::new(n, |i: int| COMMAND_PREFIX) + s) == parsed(s),
    decreases n,
{
    let many = Seq::new(n, |i: int| COMMAND_PREFIX);
    if n == 0 {
        assert(many + s =~= s);
    } else {
        let fewer = Seq::new((n - 1) as nat, |i: int| COMMAND_PREFIX);
        assert(many + s =~= seq![COMMAND_PREFIX] + (fewer + s));
        lemma_prefix_ignored(fewer + s);
        lemma_prefixes_ignored((n - 1) as nat, s);
    }
}

/// The identity that confirms a registration is the one found for the user and
/// the keyword once the new identity is in the store.
pub proof fn lemma_registrar_is_found(t: Tables, user_id: u64, identity: IdentityView)
    ensures
        t.add_identity(user_id, identity).identity_of(user_id, identity.keyword) == Some(
            registrar(t, user_id, identity),
        ),
{
    if t.identity_of(user_id, identity.keyword) is Some {
        lemma_earlier_identity_stays(t, user_id, identity, user_id, identity.keyword);
    } else {
        lemma_added_identity_is_found(t, user_id, identity);
    }
}

/// `switch` to a keyword under which the user has no identity sends a notice
/// and leaves the store as it was; with an identity there, the switch is the
/// keyword afterwards.
pub proof fn lemma_switch_needs_identity(t: Tables, msg: InboundView, keyword: Seq<char>)
    ensures
        ({
            let (state, action) = command_move(t, msg, CommandView::Switch { keyword });
            let after = written(t, action);
            if t.identity_of(msg.author_id, keyword) is None {
                &&& (state, action) == say(no_identity_notice(keyword))
                &&& after == t
            } else {
                &&& action == ActionView::Persist(
                    WriteView::SetSwitch { user_id: msg.author_id, keyword },
                )
                &&& after.switch_of(msg.author_id) == Some(keyword)
            }
        }),
{
}

/// A message changes the store only in what belongs to its author: another
/// user's switch and identities are read as before.
pub proof fn lemma_first_move_spares_others(t: Tables, msg: InboundView, other: u64)
    requires
        other != msg.author_id,
    ensures
        written(t, first_move(t, msg).1).switch_of(other) == t.switch_of(other),
        written(t, first_move(t, msg).1).identities_of(other) == t.identities_of(other),
{
    let action = first_move(t, msg).1;
    match action {
        ActionView::Persist(WriteView::RemoveIdentity { user_id, keyword }) => {
            assert(user_id == msg.author_id);
            lemma_without_spares_others(t.identities, user_id, keyword, other);
        },
        ActionView::Persist(WriteView::AddIdentity { user_id, identity }) => {
            assert(user_id == msg.author_id);
            let row = IdentityRow { userid: user_id, identity };
            assert(t.identities.push(row).drop_last() =~= t.identities);
        },
        ActionView::Persist(WriteView::RecordMessage { .. }) => {
            assert(false);
        },
        _ => {},
    }
}

/// Removing identities of one user leaves the identities of another as they were.
pub proof fn lemma_without_spares_others(
    rows: Seq<IdentityRow>,
    user_id: u64,
    keyword: Seq<char>,
    other: u64,
)
    requires
        other != user_id,
    ensures
        owned_by(without(rows, user_id, keyword), other)
            == owned_by(rows, other),
    decreases rows.len(),
{
    if rows.len() > 0 {
        lemma_without_spares_others(rows.drop_last(), user_id, keyword, other);
        if !(rows.last().userid == user_id && rows.last().identity.keyword == keyword) {
            assert(without(rows, user_id, keyword).drop_last() =~= without(
                rows.drop_last(),
                user_id,
                keyword,
            ));
        }
    }
}

/// How many answers a handling can still take before it is over.
pub open spec fn rank(state: StateView) -> nat {
    match state {
        StateView::Finished(_) => 0,
        StateView::Deleting => 1,
        StateView::Saying { .. } => 2,
        StateView::Closing { .. } => 2,
        StateView::Storing { .. } => 3,
        StateView::Logging { .. } => 3,
        StateView::Posting { .. } => 4,
        StateView::Opening { .. } => 5,
        StateView::Resolving { .. } => 6,
        StateView::Registering { .. } => 7,
    }
}

/// Every answer brings a handling nearer to its end, and it is over exactly
/// when the action says so. Once over, it stays over with the same outcome.
pub proof fn lemma_handling_ends(state: StateView, event: EventView)
    ensures
        !(state is Finished) ==> rank(step(state, event).0) < rank(state),
        step(state, event).0 is Finished <==> step(state, event).1 is Finish,
        step(state, event).0 matches StateView::Finished(outcome) ==> step(state, event).1
            == ActionView::Finish(outcome),
        state is Finished ==> step(state, event).0 == state,
{
}

/// Whether a relay endpoint exists that the host has not yet been asked to delete.
pub open spec fn endpoint_open(state: StateView) -> bool {
    state is Posting || state is Logging
}

/// An endpoint, once created, is deleted before the handling ends, whatever the
/// platform answers: with an endpoint open the handling does not end, and the
/// only way out of that condition is the request to delete it. An endpoint is
/// open only after the platform has created one.
pub proof fn lemma_endpoint_is_deleted(state: StateView, event: EventView)
    ensures
        endpoint_open(state) ==> !(step(state, event).1 is Finish),
        endpoint_open(state) && !endpoint_open(step(state, event).0) ==> step(state, event).0
            is Closing && step(state, event).1 is DeleteEndpoint,
        !endpoint_open(state) && endpoint_open(step(state, event).0) ==> state is Opening
            && event is Done && step(state, event).1 is Post,
        step(state, event).1 is DeleteEndpoint ==> endpoint_open(state),
{
}

/// The actions chosen in answer to a run of events, one for each, from `state` on.
pub open spec fn replies_to(state: StateView, events: Seq<EventView>) -> Seq<ActionView>
    decreases events.len(),
{
    if events.len() == 0 {
        Seq::empty()
    } else {
        seq![step(state, events[0]).1] + replies_to(step(state, events[0]).0, events.skip(1))
    }
}

/// The state reached from `state` by a run of events.
pub open spec fn state_after(state: StateView, events: Seq<EventView>) -> StateView
    decreases events.len(),
{
    if events.len() == 0 {
        state
    } else {
        state_after(step(state, events[0]).0, events.skip(1))
    }
}

/// With an endpoint open, however the platform answers from then on, the
/// handling is not declared over before the host was asked to delete the
/// endpoint.
pub proof fn lemma_no_end_before_teardown(state: StateView, events: Seq<EventView>, j: int)
    requires
        endpoint_open(state),
        0 <= j < events.len(),
        replies_to(state, events)[j] is Finish,
    ensures
        exists|i: int| 0 <= i < j && (#[trigger] replies_to(state, events)[i]) is DeleteEndpoint,
    decreases events.len(),
{
    let (next, action) = step(state, events[0]);
    let later = replies_to(next, events.skip(1));
    assert(replies_to(state, events) =~= seq![action] + later);
    lemma_replies_len(next, events.skip(1));
    assert(j > 0);
    if endpoint_open(next) {
        assert(later[j - 1] == replies_to(state, events)[j]);
        lemma_no_end_before_teardown(next, events.skip(1), j - 1);
        let i = choose|i: int| 0 <= i < j - 1 && (#[trigger] later[i]) is DeleteEndpoint;
        assert(replies_to(state, events)[i + 1] == later[i]);
    } else {
        assert(replies_to(state, events)[0] is DeleteEndpoint);
    }
}

/// Each event is answered by one action.
pub proof fn lemma_replies_len(state: StateView, events: Seq<EventView>)
    ensures
        replies_to(state, events).len() == events.len(),
    decreases events.len(),
{
    if events.len() > 0 {
        lemma_replies_len(step(state, events[0]).0, events.skip(1));
    }
}

/// A handling is over after as many answers as its state's rank, at the latest
/// after seven, whatever the answers are.
pub proof fn lemma_handling_is_bounded(state: StateView, events: Seq<EventView>)
    requires
        events.len() >= rank(state),
    ensures
        state_after(state, events) is Finished,
        rank(state) <= 7,
    decreases events.len(),
{
    if events.len() > 0 {
        lemma_handling_ends(state, events[0]);
        lemma_handling_is_bounded(step(state, events[0]).0, events.skip(1));
    }
}

/// The original message is deleted only after the notice was sent, or after the
/// message was posted and the endpoint deleted.
pub proof fn lemma_original_outlives_failure(state: StateView, event: EventView)
    ensures
        step(state, event).1 is DeleteOriginal ==> event is Done && (state
            matches StateView::Saying { delete_original: true } || state
            matches StateView::Closing { posted: true, delete_original: true }),
{
}

/// A refused post ends the handling in failure once the endpoint is dealt with,
/// whether or not the endpoint could be deleted.
pub proof fn lemma_refused_post_fails(state: StateView, event: EventView, later: EventView)
    requires
        state is Posting,
        !(event is Posted),
    ensures
        step(step(state, event).0, later) == finish(Err(Error::Post)),
{
}

/// What the durable copy answers changes nothing: the handling goes on as if
/// the write had succeeded.
pub proof fn lemma_writes_are_best_effort(state: StateView, one: EventView, other: EventView)
    requires
        state is Storing || state is Registering || state is Logging,
    ensures
        step(state, one) == step(state, other),
{
}

/// The log gets the relayed message under the user who really spoke, at the
/// moment the platform reports the post.
pub proof fn lemma_post_is_logged(t: Tables, user_id: u64, delete_original: bool, msg_id: u64)
    ensures
        written(
            t,
            step(StateView::Posting { user_id, delete_original }, EventView::Posted(msg_id)).1,
        ) == t.record_message(user_id, msg_id),
        t.message_owner(msg_id) is None ==> written(
            t,
            step(StateView::Posting { user_id, delete_original }, EventView::Posted(msg_id)).1,
        ).message_owner(msg_id) == Some(user_id),
{
    lemma_record_message(t, user_id, msg_id, msg_id);
}

} // verus!

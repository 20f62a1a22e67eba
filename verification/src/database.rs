//! The store: identities, active switches and the log of relayed messages.

use vstd::prelude::*;
use std::collections::HashMap;

verus! {

/// A persona a user may speak as.
#[derive(Debug, PartialEq, Eq)]
pub struct Identity {
    pub keyword: String,
    pub nick: String,
    pub avatar: String,
}

/// What an `Identity` holds, as text.
pub struct IdentityView {
    pub keyword: Seq<char>,
    pub nick: Seq<char>,
    pub avatar: Seq<char>,
}

impl View for Identity {
    type V = IdentityView;

    open spec fn view(&self) -> IdentityView {
        IdentityView { keyword: self.keyword@, nick: self.nick@, avatar: self.avatar@ }
    }
}

impl Clone for Identity {
    fn clone(&self) -> (out: Identity)
        ensures
            out@ == self@,
    {
        Identity {
            keyword: self.keyword.clone(),
            nick: self.nick.clone(),
            avatar: self.avatar.clone(),
        }
    }
}

/// The views of a sequence of identities, one for one.
pub open spec fn identity_views(s: Seq<Identity>) -> Seq<IdentityView> {
    s.map_values(|i: Identity| i@)
}

/// An identity and the user who owns it.
pub struct IdentityRow {
    pub userid: u64,
    pub identity: IdentityView,
}

/// A relayed message and the user who wrote it.
pub struct MessageRow {
    pub msgid: u64,
    pub userid: u64,
}

/// The store as mathematics: two tables in the order their rows were added,
/// and at most one switch for each user.
pub struct Tables {
    pub identities: Seq<IdentityRow>,
    pub switches: Map<u64, Seq<char>>,
    pub messages: Seq<MessageRow>,
}

impl Tables {
    /// The store with no rows.
    pub open spec fn empty() -> Tables {
        Tables { identities: Seq::empty(), switches: Map::empty(), messages: Seq::empty() }
    }

    /// The keyword the user has switched to, if any.
    pub open spec fn switch_of(self, user_id: u64) -> Option<Seq<char>> {
        if self.switches.dom().contains(user_id) {
            Some(self.switches[user_id])
        } else {
            None
        }
    }

    /// The store after the user switched to `keyword`.
    pub open spec fn set_switch(self, user_id: u64, keyword: Seq<char>) -> Tables {
        Tables { switches: self.switches.insert(user_id, keyword), ..self }
    }

    /// The store after the user's switch was cleared.
    pub open spec fn delete_switch(self, user_id: u64) -> Tables {
        Tables { switches: self.switches.remove(user_id), ..self }
    }

    /// The store after one more relayed message was logged.
    pub open spec fn record_message(self, user_id: u64, msg_id: u64) -> Tables {
        Tables {
            messages: self.messages.push(MessageRow { msgid: msg_id, userid: user_id }),
            ..self
        }
    }

    /// Whether row `i` of the log is the first one for the message.
    pub open spec fn first_record_at(self, msg_id: u64, i: int) -> bool {
        &&& 0 <= i < self.messages.len()
        &&& self.messages[i].msgid == msg_id
        &&& forall|j: int| 0 <= j < i ==> (#[trigger] self.messages[j]).msgid != msg_id
    }

    /// The user in the first row logged for the message, if it was logged.
    pub open spec fn message_owner(self, msg_id: u64) -> Option<u64> {
        if exists|i: int| self.first_record_at(msg_id, i) {
            Some(self.messages[choose|i: int| self.first_record_at(msg_id, i)].userid)
        } else {
            None
        }
    }

    /// Whether row `i` holds an identity of the user under the keyword.
    pub open spec fn names(self, user_id: u64, keyword: Seq<char>, i: int) -> bool {
        &&& 0 <= i < self.identities.len()
        &&& self.identities[i].userid == user_id
        &&& self.identities[i].identity.keyword == keyword
    }

    /// Whether row `i` is the first that holds an identity of the user under the keyword.
    pub open spec fn first_named_at(self, user_id: u64, keyword: Seq<char>, i: int) -> bool {
        &&& self.names(user_id, keyword, i)
        &&& forall|j: int| 0 <= j < i ==> !self.names(user_id, keyword, j)
    }

    /// The user's identity under the keyword: the first one added, if there is any.
    pub open spec fn identity_of(self, user_id: u64, keyword: Seq<char>) -> Option<IdentityView> {
        if exists|i: int| self.first_named_at(user_id, keyword, i) {
            Some(self.identities[choose|i: int| self.first_named_at(user_id, keyword, i)].identity)
        } else {
            None
        }
    }

    /// The user's identities, in the order they were added.
    pub open spec fn identities_of(self, user_id: u64) -> Seq<IdentityView> {
        owned_by(self.identities, user_id)
    }

    /// The store after an identity was added for the user. Nothing is looked up first:
    /// a keyword may come to stand twice.
    pub open spec fn add_identity(self, user_id: u64, identity: IdentityView) -> Tables {
        Tables {
            identities: self.identities.push(IdentityRow { userid: user_id, identity }),
            ..self
        }
    }

    /// The store after every identity of the user under the keyword was removed.
    pub open spec fn remove_identity(self, user_id: u64, keyword: Seq<char>) -> Tables {
        Tables { identities: without(self.identities, user_id, keyword), ..self }
    }
}

/// A change to the store, as a value: what a durable copy has to repeat.
#[derive(Debug, PartialEq, Eq)]
pub enum Write {
    AddIdentity { user_id: u64, identity: Identity },
    RemoveIdentity { user_id: u64, keyword: String },
    SetSwitch { user_id: u64, keyword: String },
    DeleteSwitch { user_id: u64 },
    RecordMessage { user_id: u64, msg_id: u64 },
}

/// What a `Write` holds, as text.
pub enum WriteView {
    AddIdentity { user_id: u64, identity: IdentityView },
    RemoveIdentity { user_id: u64, keyword: Seq<char> },
    SetSwitch { user_id: u64, keyword: Seq<char> },
    DeleteSwitch { user_id: u64 },
    RecordMessage { user_id: u64, msg_id: u64 },
}

impl View for Write {
    type V = WriteView;

    open spec fn view(&self) -> WriteView {
        match *self {
            Write::AddIdentity { user_id, identity } => WriteView::AddIdentity {
                user_id,
                identity: identity@,
            },
            Write::RemoveIdentity { user_id, keyword } => WriteView::RemoveIdentity {
                user_id,
                keyword: keyword@,
            },
            Write::SetSwitch { user_id, keyword } => WriteView::SetSwitch {
                user_id,
                keyword: keyword@,
            },
            Write::DeleteSwitch { user_id } => WriteView::DeleteSwitch { user_id },
            Write::RecordMessage { user_id, msg_id } => WriteView::RecordMessage {
                user_id,
                msg_id,
            },
        }
    }
}

impl Tables {
    /// The store after the change.
    pub open spec fn apply(self, write: WriteView) -> Tables {
        match write {
            WriteView::AddIdentity { user_id, identity } => self.add_identity(user_id, identity),
            WriteView::RemoveIdentity { user_id, keyword } => self.remove_identity(
                user_id,
                keyword,
            ),
            WriteView::SetSwitch { user_id, keyword } => self.set_switch(user_id, keyword),
            WriteView::DeleteSwitch { user_id } => self.delete_switch(user_id),
            WriteView::RecordMessage { user_id, msg_id } => self.record_message(user_id, msg_id),
        }
    }
}

/// The identities in the rows that belong to the user, in the rows' order.
pub open spec fn owned_by(rows: Seq<IdentityRow>, user_id: u64) -> Seq<IdentityView>
    decreases rows.len(),
{
    if rows.len() == 0 {
        Seq::empty()
    } else if rows.last().userid == user_id {
        owned_by(rows.drop_last(), user_id).push(rows.last().identity)
    } else {
        owned_by(rows.drop_last(), user_id)
    }
}

/// The rows but those that hold an identity of the user under the keyword, in the rows' order.
pub open spec fn without(rows: Seq<IdentityRow>, user_id: u64, keyword: Seq<char>) -> Seq<
    IdentityRow,
>
    decreases rows.len(),
{
    if rows.len() == 0 {
        Seq::empty()
    } else if rows.last().userid == user_id && rows.last().identity.keyword == keyword {
        without(rows.drop_last(), user_id, keyword)
    } else {
        without(rows.drop_last(), user_id, keyword).push(rows.last())
    }
}

/// The store itself. It starts empty and changes only through its methods.
pub struct Database {
    identities: Vec<(u64, Identity)>,
    switches: HashMap<u64, String>,
    messages: Vec<(u64, u64)>,
}

impl View for Database {
    type V = Tables;

    closed spec fn view(&self) -> Tables {
        Tables {
            identities: self.identities@.map_values(
                |r: (u64, Identity)| IdentityRow { userid: r.0, identity: r.1@ },
            ),
            switches: self.switches@.map_values(|k: String| k@),
            messages: self.messages@.map_values(
                |r: (u64, u64)| MessageRow { msgid: r.0, userid: r.1 },
            ),
        }
    }
}

impl Database {
    /// A store with its three tables in place and no row in them.
    pub fn init() -> (db: Database)
        ensures
            db@ == Tables::empty(),
    {
        let db = Database {
            identities: Vec::new(),
            switches: HashMap::new(),
            messages: Vec::new(),
        };
        assert(db@.identities =~= Seq::empty());
        assert(db@.messages =~= Seq::empty());
        assert(db@.switches =~= Map::empty());
        db
    }

    /// The keyword the user has switched to, if any.
    pub fn get_switch(&self, user_id: u64) -> (out: Option<String>)
        ensures
            match out {
                Some(keyword) => self@.switch_of(user_id) == Some(keyword@),
                None => self@.switch_of(user_id) is None,
            },
    {
        match self.switches.get(&user_id) {
            Some(keyword) => Some(keyword.clone()),
            None => None,
        }
    }

    /// Clears the user's switch. Where there is none, nothing changes.
    pub fn delete_switch(&mut self, user_id: u64)
        ensures
            final(self)@ == old(self)@.delete_switch(user_id),
    {
        self.switches.remove(&user_id);
        assert(self@.switches =~= old(self)@.switches.remove(user_id));
    }

    /// Switches the user to `keyword`, in place of any earlier switch.
    pub fn set_switch(&mut self, user_id: u64, keyword: &str)
        ensures
            final(self)@ == old(self)@.set_switch(user_id, keyword@),
    {
        self.switches.insert(user_id, keyword.to_owned());
        assert(self@.switches =~= old(self)@.switches.insert(user_id, keyword@));
    }

    /// Logs that the relayed message `msg_id` was written by the user.
    pub fn record_message(&mut self, user_id: u64, msg_id: u64)
        ensures
            final(self)@ == old(self)@.record_message(user_id, msg_id),
    {
        self.messages.push((msg_id, user_id));
        assert(self@.messages =~= old(self)@.messages.push(
            MessageRow { msgid: msg_id, userid: user_id },
        ));
    }

    /// The user who wrote the relayed message: the first one logged for it.
    pub fn get_message_owner(&self, msg_id: u64) -> (out: Option<u64>)
        ensures
            out == self@.message_owner(msg_id),
    {
        let mut i: usize = 0;
        while i < self.messages.len()
            invariant
                i <= self.messages.len(),
                forall|j: int| 0 <= j < i ==> (#[trigger] self@.messages[j]).msgid != msg_id,
            decreases self.messages.len() - i,
        {
            if self.messages[i].0 == msg_id {
                proof {
                    assert(self@.first_record_at(msg_id, i as int));
                    let k = choose|k: int| self@.first_record_at(msg_id, k);
                    if k < i {
                        assert(self@.messages[k].msgid != msg_id);
                    } else if i < k {
                        assert(self@.messages[i as int].msgid != msg_id);
                    }
                }
                return Some(self.messages[i].1);
            }
            i += 1;
        }
        proof {
            if exists|k: int| self@.first_record_at(msg_id, k) {
                let k = choose|k: int| self@.first_record_at(msg_id, k);
                assert(self@.messages[k].msgid != msg_id);
            }
        }
        None
    }

    /// The user's identities, in the order they were added.
    pub fn get_identities(&self, user_id: u64) -> (out: Vec<Identity>)
        ensures
            identity_views(out@) == self@.identities_of(user_id),
    {
        let mut out: Vec<Identity> = Vec::new();
        let mut i: usize = 0;
        assert(self@.identities.take(0) =~= Seq::empty());
        assert(identity_views(out@) =~= Seq::empty());
        while i < self.identities.len()
            invariant
                i <= self.identities.len(),
                identity_views(out@) == owned_by(self@.identities.take(i as int), user_id),
            decreases self.identities.len() - i,
        {
            let ghost before = identity_views(out@);
            assert(self@.identities.take(i + 1).drop_last() =~= self@.identities.take(i as int));
            if self.identities[i].0 == user_id {
                out.push(self.identities[i].1.clone());
                assert(identity_views(out@) =~= before.push(self@.identities[i as int].identity));
            }
            i += 1;
        }
        assert(self@.identities.take(i as int) =~= self@.identities);
        out
    }

    /// The user's identity under the keyword: the first one added, if there is any.
    pub fn get_identity(&self, user_id: u64, keyword: &str) -> (out: Option<Identity>)
        ensures
            match out {
                Some(identity) => self@.identity_of(user_id, keyword@) == Some(identity@),
                None => self@.identity_of(user_id, keyword@) is None,
            },
    {
        let mut i: usize = 0;
        while i < self.identities.len()
            invariant
                i <= self.identities.len(),
                forall|j: int| 0 <= j < i ==> !self@.names(user_id, keyword@, j),
            decreases self.identities.len() - i,
        {
            if self.identities[i].0 == user_id && crate::text::same(
                self.identities[i].1.keyword.as_str(),
                keyword,
            ) {
                proof {
                    assert(self@.first_named_at(user_id, keyword@, i as int));
                    let k = choose|k: int| self@.first_named_at(user_id, keyword@, k);
                    if k < i {
                        assert(!self@.names(user_id, keyword@, k));
                    } else if i < k {
                        assert(self@.names(user_id, keyword@, i as int));
                    }
                }
                return Some(self.identities[i].1.clone());
            }
            i += 1;
        }
        proof {
            if exists|k: int| self@.first_named_at(user_id, keyword@, k) {
                let k = choose|k: int| self@.first_named_at(user_id, keyword@, k);
                assert(!self@.names(user_id, keyword@, k));
            }
        }
        None
    }

    /// Adds an identity for the user, whether or not the keyword is already taken.
    pub fn add_identity(&mut self, user_id: u64, keyword: &str, nick: &str, avatar: &str)
        ensures
            final(self)@ == old(self)@.add_identity(
                user_id,
                IdentityView { keyword: keyword@, nick: nick@, avatar: avatar@ },
            ),
    {
        let identity = Identity {
            keyword: keyword.to_owned(),
            nick: nick.to_owned(),
            avatar: avatar.to_owned(),
        };
        self.identities.push((user_id, identity));
        assert(self@.identities =~= old(self)@.identities.push(
            IdentityRow {
                userid: user_id,
                identity: IdentityView { keyword: keyword@, nick: nick@, avatar: avatar@ },
            },
        ));
    }

    /// Makes the change that `write` describes.
    pub fn apply(&mut self, write: &Write)
        ensures
            final(self)@ == old(self)@.apply(write@),
    {
        match write {
            Write::AddIdentity { user_id, identity } => self.add_identity(
                *user_id,
                identity.keyword.as_str(),
                identity.nick.as_str(),
                identity.avatar.as_str(),
            ),
            Write::RemoveIdentity { user_id, keyword } => self.remove_identity(
                *user_id,
                keyword.as_str(),
            ),
            Write::SetSwitch { user_id, keyword } => self.set_switch(*user_id, keyword.as_str()),
            Write::DeleteSwitch { user_id } => self.delete_switch(*user_id),
            Write::RecordMessage { user_id, msg_id } => self.record_message(*user_id, *msg_id),
        }
    }

    /// Removes every identity of the user under the keyword.
    pub fn remove_identity(&mut self, user_id: u64, keyword: &str)
        ensures
            final(self)@ == old(self)@.remove_identity(user_id, keyword@),
    {
        let mut rows: Vec<(u64, Identity)> = Vec::new();
        std::mem::swap(&mut self.identities, &mut rows);
        let ghost all = old(self)@.identities;
        let mut kept: Vec<(u64, Identity)> = Vec::new();
        assert(all.take(0) =~= Seq::empty());
        assert(row_views(kept@) =~= Seq::empty());
        for row in it: rows
            invariant
                row_views(it.seq()) == all,
                row_views(kept@) == without(all.take(it.index() as int), user_id, keyword@),
        {
            let ghost before = row_views(kept@);
            let ghost at = it.index() as int;
            assert(all.take(at + 1).drop_last() =~= all.take(at));
            assert(all[at] == IdentityRow { userid: row.0, identity: row.1@ });
            if !(row.0 == user_id && crate::text::same(row.1.keyword.as_str(), keyword)) {
                kept.push(row);
                assert(row_views(kept@) =~= before.push(all[at]));
            }
        }
        assert(all.take(all.len() as int) =~= all);
        self.identities = kept;
    }
}

/// The rows as the model holds them.
pub closed spec fn row_views(rows: Seq<(u64, Identity)>) -> Seq<IdentityRow> {
    rows.map_values(|r: (u64, Identity)| IdentityRow { userid: r.0, identity: r.1@ })
}

} // verus!

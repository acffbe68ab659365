//! The credential and resource store: every user record and every conversation
//! record, held in memory and passed to each operation explicitly. Its model,
//! [`StoreModel`], is what all contracts speak of; [`store_wf`] is the
//! invariant every operation preserves: identifiers, usernames, emails and
//! phone numbers are unique, and a session token is held by at most one user.

use vstd::prelude::*;

use crate::conversation::Conversation;
use crate::conversation::ConversationModel;
use crate::user::User;
use crate::user::UserModel;

verus! {

/// The shared state behind the service: accounts and conversations, with the
/// serial counters the next identifiers come from.
pub struct Store {
    pub users: Vec<User>,
    pub conversations: Vec<Conversation>,
    pub next_user_id: i32,
    pub next_conversation_id: i32,
}

/// The mathematical value of a [`Store`].
#[verifier::ext_equal]
pub struct StoreModel {
    pub users: Seq<UserModel>,
    pub conversations: Seq<ConversationModel>,
    pub next_user_id: int,
    pub next_conversation_id: int,
}

impl View for Store {
    type V = StoreModel;

    open spec fn view(&self) -> StoreModel {
        StoreModel {
            users: self.users@.map_values(|u: User| u@),
            conversations: self.conversations@.map_values(|c: Conversation| c@),
            next_user_id: self.next_user_id as int,
            next_conversation_id: self.next_conversation_id as int,
        }
    }
}

/// No two records share an identity field, and no two share a session token.
pub open spec fn users_distinct(users: Seq<UserModel>) -> bool {
    forall|i: int, j: int|
        #![trigger users[i], users[j]]
        0 <= i < users.len() && 0 <= j < users.len() && i != j ==> {
            &&& users[i].user_id != users[j].user_id
            &&& users[i].user_name != users[j].user_name
            &&& users[i].user_email != users[j].user_email
            &&& users[i].user_phone != users[j].user_phone
            &&& (users[i].login_id is Some ==> users[i].login_id != users[j].login_id)
        }
}

/// Every identifier was drawn from the serial counter, so sits below it.
pub open spec fn user_ids_bounded(users: Seq<UserModel>, next: int) -> bool {
    forall|i: int| 0 <= i < users.len() ==> 0 < #[trigger] users[i].user_id < next
}

pub open spec fn conversations_distinct(cs: Seq<ConversationModel>) -> bool {
    forall|i: int, j: int|
        #![trigger cs[i], cs[j]]
        0 <= i < cs.len() && 0 <= j < cs.len() && i != j
            ==> cs[i].conversation_id != cs[j].conversation_id
}

pub open spec fn conversation_ids_bounded(cs: Seq<ConversationModel>, next: int) -> bool {
    forall|i: int| 0 <= i < cs.len() ==> 0 < #[trigger] cs[i].conversation_id < next
}

/// The store's invariant.
pub open spec fn store_wf(m: StoreModel) -> bool {
    &&& users_distinct(m.users)
    &&& user_ids_bounded(m.users, m.next_user_id)
    &&& conversations_distinct(m.conversations)
    &&& conversation_ids_bounded(m.conversations, m.next_conversation_id)
    &&& 1 <= m.next_user_id <= i32::MAX
    &&& 1 <= m.next_conversation_id <= i32::MAX
}

/// The serial counter for accounts has reached its type's end, so no further
/// record can be numbered.
pub open spec fn users_full(m: StoreModel) -> bool {
    m.next_user_id >= i32::MAX
}

/// The serial counter for conversations has reached its type's end.
pub open spec fn conversations_full(m: StoreModel) -> bool {
    m.next_conversation_id >= i32::MAX
}

pub open spec fn empty_store() -> StoreModel {
    StoreModel {
        users: Seq::empty(),
        conversations: Seq::empty(),
        next_user_id: 1,
        next_conversation_id: 1,
    }
}

// Existence of a record with a given field value, and the index it sits at.
// Under `store_wf` that index is unique.

pub open spec fn has_user_named(m: StoreModel, name: Seq<char>) -> bool {
    exists|i: int| 0 <= i < m.users.len() && #[trigger] m.users[i].user_name == name
}

pub open spec fn user_named_idx(m: StoreModel, name: Seq<char>) -> int {
    choose|i: int| 0 <= i < m.users.len() && #[trigger] m.users[i].user_name == name
}

pub open spec fn has_user_email(m: StoreModel, email: Seq<char>) -> bool {
    exists|i: int| 0 <= i < m.users.len() && #[trigger] m.users[i].user_email == email
}

pub open spec fn has_user_phone(m: StoreModel, phone: Seq<char>) -> bool {
    exists|i: int| 0 <= i < m.users.len() && #[trigger] m.users[i].user_phone == phone
}

pub open spec fn has_user_id(m: StoreModel, id: int) -> bool {
    exists|i: int| 0 <= i < m.users.len() && #[trigger] m.users[i].user_id == id
}

pub open spec fn user_id_idx(m: StoreModel, id: int) -> int {
    choose|i: int| 0 <= i < m.users.len() && #[trigger] m.users[i].user_id == id
}

pub open spec fn has_token(m: StoreModel, t: u128) -> bool {
    exists|i: int| 0 <= i < m.users.len() && #[trigger] m.users[i].login_id == Some(t)
}

pub open spec fn token_idx(m: StoreModel, t: u128) -> int {
    choose|i: int| 0 <= i < m.users.len() && #[trigger] m.users[i].login_id == Some(t)
}

pub open spec fn has_conversation(m: StoreModel, cid: int) -> bool {
    exists|i: int|
        0 <= i < m.conversations.len() && #[trigger] m.conversations[i].conversation_id == cid
}

pub open spec fn conversation_idx(m: StoreModel, cid: int) -> int {
    choose|i: int|
        0 <= i < m.conversations.len() && #[trigger] m.conversations[i].conversation_id == cid
}

// The transitions of the store, as functions on the model. Each exec
// operation's contract says that the store it leaves behind is one of these
// applied to the store it was given.

/// A user as a fresh session leaves it: token set, activity clock started.
pub open spec fn with_session(u: UserModel, t: u128, now: int) -> UserModel {
    UserModel { login_id: Some(t), user_last_login: now, ..u }
}

/// A user whose expired session was cleared.
pub open spec fn session_cleared(u: UserModel) -> UserModel {
    UserModel { login_id: None, ..u }
}

/// A user whose sliding window was re-armed by an authenticated action.
pub open spec fn refreshed(u: UserModel, now: int) -> UserModel {
    UserModel { user_last_login: now, ..u }
}

pub open spec fn login_apply(m: StoreModel, i: int, t: u128, now: int) -> StoreModel {
    StoreModel { users: m.users.update(i, with_session(m.users[i], t, now)), ..m }
}

pub open spec fn expire_apply(m: StoreModel, i: int) -> StoreModel {
    StoreModel { users: m.users.update(i, session_cleared(m.users[i])), ..m }
}

pub open spec fn refresh_apply(m: StoreModel, i: int, now: int) -> StoreModel {
    StoreModel { users: m.users.update(i, refreshed(m.users[i], now)), ..m }
}

/// A newly registered account: no session, clock at zero, unverified.
pub open spec fn new_user_model(
    id: int,
    email: Seq<char>,
    phone: Seq<char>,
    name: Seq<char>,
    digest: Seq<char>,
) -> UserModel {
    UserModel {
        user_id: id,
        user_email: email,
        user_phone: phone,
        user_name: name,
        user_pass: digest,
        user_last_login: 0,
        login_id: None,
        verified: false,
        admin: false,
    }
}

pub open spec fn register_apply(
    m: StoreModel,
    email: Seq<char>,
    phone: Seq<char>,
    name: Seq<char>,
    digest: Seq<char>,
) -> StoreModel {
    StoreModel {
        users: m.users.push(new_user_model(m.next_user_id, email, phone, name, digest)),
        next_user_id: m.next_user_id + 1,
        ..m
    }
}

/// A newly created conversation; the store supplies an empty title.
pub open spec fn new_conversation_model(
    id: int,
    owner: int,
    content: Seq<char>,
    now: int,
) -> ConversationModel {
    ConversationModel {
        conversation_id: id,
        user_id: owner,
        conversation: content,
        conversation_title: Seq::empty(),
        created_at: now,
    }
}

pub open spec fn conversation_apply(
    m: StoreModel,
    owner: int,
    content: Seq<char>,
    now: int,
) -> StoreModel {
    StoreModel {
        conversations: m.conversations.push(
            new_conversation_model(m.next_conversation_id, owner, content, now),
        ),
        next_conversation_id: m.next_conversation_id + 1,
        ..m
    }
}

pub open spec fn delete_conversation_apply(m: StoreModel, i: int) -> StoreModel {
    StoreModel { conversations: m.conversations.remove(i), ..m }
}

// Uniqueness: connect an index found by scanning with the chosen one.

pub proof fn lemma_user_named_idx(m: StoreModel, name: Seq<char>, i: int)
    requires
        store_wf(m),
        0 <= i < m.users.len(),
        m.users[i].user_name == name,
    ensures
        has_user_named(m, name),
        user_named_idx(m, name) == i,
{
    assert(has_user_named(m, name));
    let j = user_named_idx(m, name);
    if j != i {
        assert(m.users[j].user_name == name);
        assert(false);
    }
}

pub proof fn lemma_user_id_idx(m: StoreModel, id: int, i: int)
    requires
        store_wf(m),
        0 <= i < m.users.len(),
        m.users[i].user_id == id,
    ensures
        has_user_id(m, id),
        user_id_idx(m, id) == i,
{
    assert(has_user_id(m, id));
    let j = user_id_idx(m, id);
    if j != i {
        assert(m.users[j].user_id == id);
        assert(false);
    }
}

pub proof fn lemma_token_idx(m: StoreModel, t: u128, i: int)
    requires
        store_wf(m),
        0 <= i < m.users.len(),
        m.users[i].login_id == Some(t),
    ensures
        has_token(m, t),
        token_idx(m, t) == i,
{
    assert(has_token(m, t));
    let j = token_idx(m, t);
    if j != i {
        assert(m.users[j].login_id == Some(t));
        assert(false);
    }
}

pub proof fn lemma_conversation_idx(m: StoreModel, cid: int, i: int)
    requires
        store_wf(m),
        0 <= i < m.conversations.len(),
        m.conversations[i].conversation_id == cid,
    ensures
        has_conversation(m, cid),
        conversation_idx(m, cid) == i,
{
    assert(has_conversation(m, cid));
    let j = conversation_idx(m, cid);
    if j != i {
        assert(m.conversations[j].conversation_id == cid);
        assert(false);
    }
}

// The invariant survives every transition.

pub proof fn lemma_wf_login_apply(m: StoreModel, i: int, t: u128, now: int)
    requires
        store_wf(m),
        0 <= i < m.users.len(),
        !has_token(m, t),
    ensures
        store_wf(login_apply(m, i, t, now)),
{
    let m2 = login_apply(m, i, t, now);
    assert forall|a: int, b: int|
        0 <= a < m2.users.len() && 0 <= b < m2.users.len() && a != b implies {
        &&& m2.users[a].user_id != m2.users[b].user_id
        &&& m2.users[a].user_name != m2.users[b].user_name
        &&& m2.users[a].user_email != m2.users[b].user_email
        &&& m2.users[a].user_phone != m2.users[b].user_phone
        &&& (m2.users[a].login_id is Some ==> m2.users[a].login_id != m2.users[b].login_id)
    } by {
        assert(m.users[a].user_id != m.users[b].user_id);
        if m2.users[a].login_id is Some {
            if a == i {
                assert(m.users[b].login_id != Some(t));
            } else if b == i {
                assert(m.users[a].login_id != Some(t));
            }
        }
    }
    assert forall|k: int| 0 <= k < m2.users.len() implies 0 < #[trigger] m2.users[k].user_id
        < m2.next_user_id by {
        assert(m2.users[k].user_id == m.users[k].user_id);
    }
}

pub proof fn lemma_wf_expire_apply(m: StoreModel, i: int)
    requires
        store_wf(m),
        0 <= i < m.users.len(),
    ensures
        store_wf(expire_apply(m, i)),
{
    let m2 = expire_apply(m, i);
    assert forall|a: int, b: int|
        0 <= a < m2.users.len() && 0 <= b < m2.users.len() && a != b implies {
        &&& m2.users[a].user_id != m2.users[b].user_id
        &&& m2.users[a].user_name != m2.users[b].user_name
        &&& m2.users[a].user_email != m2.users[b].user_email
        &&& m2.users[a].user_phone != m2.users[b].user_phone
        &&& (m2.users[a].login_id is Some ==> m2.users[a].login_id != m2.users[b].login_id)
    } by {
        assert(m.users[a].user_id != m.users[b].user_id);
    }
    assert forall|k: int| 0 <= k < m2.users.len() implies 0 < #[trigger] m2.users[k].user_id
        < m2.next_user_id by {
        assert(m2.users[k].user_id == m.users[k].user_id);
    }
}

pub proof fn lemma_wf_refresh_apply(m: StoreModel, i: int, now: int)
    requires
        store_wf(m),
        0 <= i < m.users.len(),
    ensures
        store_wf(refresh_apply(m, i, now)),
{
    let m2 = refresh_apply(m, i, now);
    assert forall|a: int, b: int|
        0 <= a < m2.users.len() && 0 <= b < m2.users.len() && a != b implies {
        &&& m2.users[a].user_id != m2.users[b].user_id
        &&& m2.users[a].user_name != m2.users[b].user_name
        &&& m2.users[a].user_email != m2.users[b].user_email
        &&& m2.users[a].user_phone != m2.users[b].user_phone
        &&& (m2.users[a].login_id is Some ==> m2.users[a].login_id != m2.users[b].login_id)
    } by {
        assert(m.users[a].user_id != m.users[b].user_id);
    }
    assert forall|k: int| 0 <= k < m2.users.len() implies 0 < #[trigger] m2.users[k].user_id
        < m2.next_user_id by {
        assert(m2.users[k].user_id == m.users[k].user_id);
    }
}

pub proof fn lemma_wf_register_apply(
    m: StoreModel,
    email: Seq<char>,
    phone: Seq<char>,
    name: Seq<char>,
    digest: Seq<char>,
)
    requires
        store_wf(m),
        !has_user_named(m, name),
        !has_user_email(m, email),
        !has_user_phone(m, phone),
        m.next_user_id < i32::MAX,
    ensures
        store_wf(register_apply(m, email, phone, name, digest)),
{
    let m2 = register_apply(m, email, phone, name, digest);
    let n = m.users.len() as int;
    assert forall|a: int, b: int|
        0 <= a < m2.users.len() && 0 <= b < m2.users.len() && a != b implies {
        &&& m2.users[a].user_id != m2.users[b].user_id
        &&& m2.users[a].user_name != m2.users[b].user_name
        &&& m2.users[a].user_email != m2.users[b].user_email
        &&& m2.users[a].user_phone != m2.users[b].user_phone
        &&& (m2.users[a].login_id is Some ==> m2.users[a].login_id != m2.users[b].login_id)
    } by {
        if a < n && b < n {
            assert(m.users[a].user_id != m.users[b].user_id);
        } else if a == n {
            assert(m2.users[b] == m.users[b]);
            assert(m.users[b].user_name != name);
            assert(m.users[b].user_email != email);
            assert(m.users[b].user_phone != phone);
            assert(m.users[b].user_id < m.next_user_id);
        } else {
            assert(b == n);
            assert(m2.users[a] == m.users[a]);
            assert(m.users[a].user_name != name);
            assert(m.users[a].user_email != email);
            assert(m.users[a].user_phone != phone);
            assert(m.users[a].user_id < m.next_user_id);
        }
    }
    assert forall|k: int| 0 <= k < m2.users.len() implies 0 < #[trigger] m2.users[k].user_id
        < m2.next_user_id by {
        if k < n {
            assert(m2.users[k] == m.users[k]);
        }
    }
}

pub proof fn lemma_wf_conversation_apply(m: StoreModel, owner: int, content: Seq<char>, now: int)
    requires
        store_wf(m),
        m.next_conversation_id < i32::MAX,
    ensures
        store_wf(conversation_apply(m, owner, content, now)),
{
    let m2 = conversation_apply(m, owner, content, now);
    let n = m.conversations.len() as int;
    assert forall|a: int, b: int|
        0 <= a < m2.conversations.len() && 0 <= b < m2.conversations.len() && a != b implies m2
        .conversations[a].conversation_id != m2.conversations[b].conversation_id by {
        if a < n && b < n {
            assert(m.conversations[a].conversation_id != m.conversations[b].conversation_id);
        } else if a == n {
            assert(m2.conversations[b] == m.conversations[b]);
            assert(m.conversations[b].conversation_id < m.next_conversation_id);
        } else {
            assert(b == n);
            assert(m2.conversations[a] == m.conversations[a]);
            assert(m.conversations[a].conversation_id < m.next_conversation_id);
        }
    }
    assert forall|k: int| 0 <= k < m2.conversations.len() implies 0
        < #[trigger] m2.conversations[k].conversation_id < m2.next_conversation_id by {
        if k < n {
            assert(m2.conversations[k] == m.conversations[k]);
        }
    }
}

pub proof fn lemma_wf_delete_conversation_apply(m: StoreModel, i: int)
    requires
        store_wf(m),
        0 <= i < m.conversations.len(),
    ensures
        store_wf(delete_conversation_apply(m, i)),
{
    let m2 = delete_conversation_apply(m, i);
    assert forall|a: int, b: int|
        0 <= a < m2.conversations.len() && 0 <= b < m2.conversations.len() && a != b implies m2
        .conversations[a].conversation_id != m2.conversations[b].conversation_id by {
        let a0 = if a < i { a } else { a + 1 };
        let b0 = if b < i { b } else { b + 1 };
        assert(m2.conversations[a] == m.conversations[a0]);
        assert(m2.conversations[b] == m.conversations[b0]);
        assert(m.conversations[a0].conversation_id != m.conversations[b0].conversation_id);
    }
    assert forall|k: int| 0 <= k < m2.conversations.len() implies 0
        < #[trigger] m2.conversations[k].conversation_id < m2.next_conversation_id by {
        let k0 = if k < i { k } else { k + 1 };
        assert(m2.conversations[k] == m.conversations[k0]);
    }
}

impl Store {
    /// A store with no accounts and no conversations.
    pub fn new() -> (s: Store)
        ensures
            s@ == empty_store(),
            store_wf(s@),
    {
        let s = Store {
            users: Vec::new(),
            conversations: Vec::new(),
            next_user_id: 1,
            next_conversation_id: 1,
        };
        proof {
            assert(s@.users =~= Seq::<UserModel>::empty());
            assert(s@.conversations =~= Seq::<ConversationModel>::empty());
            assert(s@ =~= empty_store());
        }
        s
    }

    /// The record holding a username, if any.
    pub fn find_by_username(&self, name: &String) -> (r: Option<usize>)
        ensures
            match r {
                Some(i) => 0 <= i < self@.users.len() && self@.users[i as int].user_name == name@,
                None => !has_user_named(self@, name@),
            },
    {
        let n = self.users.len();
        let mut i: usize = 0;
        while i < n
            invariant
                i <= n,
                n == self@.users.len(),
                forall|k: int| 0 <= k < i ==> #[trigger] self@.users[k].user_name != name@,
            decreases n - i,
        {
            if self.users[i].user_name == *name {
                return Some(i);
            }
            i += 1;
        }
        None
    }

    /// The record holding an email, if any.
    pub fn find_by_email(&self, email: &String) -> (r: Option<usize>)
        ensures
            match r {
                Some(i) => 0 <= i < self@.users.len() && self@.users[i as int].user_email
                    == email@,
                None => !has_user_email(self@, email@),
            },
    {
        let n = self.users.len();
        let mut i: usize = 0;
        while i < n
            invariant
                i <= n,
                n == self@.users.len(),
                forall|k: int| 0 <= k < i ==> #[trigger] self@.users[k].user_email != email@,
            decreases n - i,
        {
            if self.users[i].user_email == *email {
                return Some(i);
            }
            i += 1;
        }
        None
    }

    /// The record holding a phone number, if any.
    pub fn find_by_phone(&self, phone: &String) -> (r: Option<usize>)
        ensures
            match r {
                Some(i) => 0 <= i < self@.users.len() && self@.users[i as int].user_phone
                    == phone@,
                None => !has_user_phone(self@, phone@),
            },
    {
        let n = self.users.len();
        let mut i: usize = 0;
        while i < n
            invariant
                i <= n,
                n == self@.users.len(),
                forall|k: int| 0 <= k < i ==> #[trigger] self@.users[k].user_phone != phone@,
            decreases n - i,
        {
            if self.users[i].user_phone == *phone {
                return Some(i);
            }
            i += 1;
        }
        None
    }

    /// The record holding a session token, if any.
    pub fn find_by_token(&self, t: u128) -> (r: Option<usize>)
        ensures
            match r {
                Some(i) => 0 <= i < self@.users.len() && self@.users[i as int].login_id == Some(t),
                None => !has_token(self@, t),
            },
    {
        let n = self.users.len();
        let mut i: usize = 0;
        while i < n
            invariant
                i <= n,
                n == self@.users.len(),
                forall|k: int| 0 <= k < i ==> #[trigger] self@.users[k].login_id != Some(t),
            decreases n - i,
        {
            let hit = match self.users[i].login_id {
                Some(x) => x == t,
                None => false,
            };
            if hit {
                return Some(i);
            }
            i += 1;
        }
        None
    }

    /// The record holding a user identifier, if any.
    pub fn find_by_user_id(&self, id: i32) -> (r: Option<usize>)
        ensures
            match r {
                Some(i) => 0 <= i < self@.users.len() && self@.users[i as int].user_id == id as int,
                None => !has_user_id(self@, id as int),
            },
    {
        let n = self.users.len();
        let mut i: usize = 0;
        while i < n
            invariant
                i <= n,
                n == self@.users.len(),
                forall|k: int| 0 <= k < i ==> #[trigger] self@.users[k].user_id != id as int,
            decreases n - i,
        {
            if self.users[i].user_id == id {
                return Some(i);
            }
            i += 1;
        }
        None
    }

    /// The conversation holding an identifier, if any.
    pub fn find_conversation(&self, cid: i32) -> (r: Option<usize>)
        ensures
            match r {
                Some(i) => 0 <= i < self@.conversations.len()
                    && self@.conversations[i as int].conversation_id == cid as int,
                None => !has_conversation(self@, cid as int),
            },
    {
        let n = self.conversations.len();
        let mut i: usize = 0;
        while i < n
            invariant
                i <= n,
                n == self@.conversations.len(),
                forall|k: int|
                    0 <= k < i ==> #[trigger] self@.conversations[k].conversation_id != cid as int,
            decreases n - i,
        {
            if self.conversations[i].conversation_id == cid {
                return Some(i);
            }
            i += 1;
        }
        None
    }
}

} // verus!

//! Conversation records owned by a user, and the guarded operations on them:
//! create, fetch, delete. Every read and delete goes through the ownership
//! check; a record owned by someone else is answered exactly as an absent one
//! — the uniform not-found policy, so a guessed identifier confirms neither
//! existence nor content.

use vstd::prelude::*;

use crate::api_messages::ApiError;
use crate::api_messages::GenericResponse;
use crate::login::cookie_view;
use crate::login::validate_outcome;
use crate::login::validate_session;
use crate::store::conversation_apply;
use crate::store::conversation_idx;
use crate::store::conversations_full;
use crate::store::delete_conversation_apply;
use crate::store::has_conversation;
use crate::store::store_wf;
use crate::store::Store;
use crate::store::StoreModel;
use crate::user::User;

verus! {

/// A conversation with the agent, owned by the user `user_id`. The content is
/// held as its JSON text.
pub struct Conversation {
    pub conversation_id: i32,
    pub user_id: i32,
    pub conversation: String,
    pub conversation_title: String,
    /// Seconds since the epoch at creation.
    pub created_at: i64,
}

/// The mathematical value of a [`Conversation`].
#[verifier::ext_equal]
pub struct ConversationModel {
    pub conversation_id: int,
    pub user_id: int,
    pub conversation: Seq<char>,
    pub conversation_title: Seq<char>,
    pub created_at: int,
}

impl View for Conversation {
    type V = ConversationModel;

    open spec fn view(&self) -> ConversationModel {
        ConversationModel {
            conversation_id: self.conversation_id as int,
            user_id: self.user_id as int,
            conversation: self.conversation@,
            conversation_title: self.conversation_title@,
            created_at: self.created_at as int,
        }
    }
}

impl Clone for Conversation {
    fn clone(&self) -> (r: Self)
        ensures
            r == *self,
    {
        Conversation {
            conversation_id: self.conversation_id,
            user_id: self.user_id,
            conversation: self.conversation.clone(),
            conversation_title: self.conversation_title.clone(),
            created_at: self.created_at,
        }
    }
}

/// Post request data to open a new conversation with the agent.
pub struct CreateConversationRequest {
    /// The message the conversation begins with.
    pub initial_message: String,
}

/// Response after creating a new conversation.
pub struct CreateConversationResponse {
    pub conversation_id: i32,
}

/// Everything a guarded fetch answers, on the model: the record if the
/// identifier exists and the requester owns it; otherwise the one not-found
/// failure, the same whether the identifier names nothing or names someone
/// else's record.
pub open spec fn fetch_outcome(m: StoreModel, cid: int, uid: int) -> Result<
    ConversationModel,
    ApiError,
> {
    if has_conversation(m, cid) && m.conversations[conversation_idx(m, cid)].user_id == uid {
        Ok(m.conversations[conversation_idx(m, cid)])
    } else {
        Err(ApiError::ConversationNotFound)
    }
}

pub open spec fn conv_result_model(r: Result<Conversation, ApiError>) -> Result<
    ConversationModel,
    ApiError,
> {
    match r {
        Ok(c) => Ok(c@),
        Err(e) => Err(e),
    }
}

/// Fetch a conversation by its identifier, confirming it belongs to the given
/// user. A record owned by someone else is never returned, and the refusal is
/// byte-identical to the answer for an identifier that names nothing.
pub fn fetch_conversation(conversation_id: i32, user: &User, store: &Store) -> (r: Result<
    Conversation,
    ApiError,
>)
    requires
        store_wf(store@),
    ensures
        conv_result_model(r) == fetch_outcome(store@, conversation_id as int, user.user_id as int),
        r matches Ok(c) ==> c.user_id == user.user_id,
{
    match store.find_conversation(conversation_id) {
        Some(j) => {
            proof {
                crate::store::lemma_conversation_idx(store@, conversation_id as int, j as int);
            }
            if store.conversations[j].user_id != user.user_id {
                Err(ApiError::ConversationNotFound)
            } else {
                Ok(store.conversations[j].clone())
            }
        },
        None => Err(ApiError::ConversationNotFound),
    }
}

/// Create a new conversation with the agent, behind the session gate.
///
/// The agent's reply arrives as `answer`: the caller performs that outbound
/// call and hands in its result, `None` when the call failed. The stored
/// record belongs to the session's user, holds the reply's JSON text, and is
/// numbered from the serial counter; the store supplies an empty title.
pub fn create_conversation(
    store: &mut Store,
    cookie: Option<&str>,
    now: i64,
    answer: Option<String>,
) -> (r: Result<CreateConversationResponse, ApiError>)
    requires
        store_wf(old(store)@),
    ensures
        store_wf(final(store)@),
        validate_outcome(old(store)@, cookie_view(cookie), now as int).1 matches Err(e) ==> r
            == Err::<CreateConversationResponse, ApiError>(e) && final(store)@ == validate_outcome(
            old(store)@,
            cookie_view(cookie),
            now as int,
        ).0,
        validate_outcome(old(store)@, cookie_view(cookie), now as int).1 matches Ok(u) ==> {
            let m2 = validate_outcome(old(store)@, cookie_view(cookie), now as int).0;
            match answer {
                None => r == Err::<CreateConversationResponse, ApiError>(ApiError::UpstreamError)
                    && final(store)@ == m2,
                Some(content) => if conversations_full(m2) {
                    &&& r == Err::<CreateConversationResponse, ApiError>(ApiError::StoreError)
                    &&& final(store)@ == m2
                } else {
                    &&& r matches Ok(resp)
                    &&& resp.conversation_id == m2.next_conversation_id
                    &&& final(store)@ == conversation_apply(m2, u.user_id, content@, now as int)
                },
            }
        },
{
    let user = match validate_session(store, cookie, now) {
        Ok(u) => u,
        Err(e) => {
            return Err(e);
        },
    };
    let content = match answer {
        Some(c) => c,
        None => {
            return Err(ApiError::UpstreamError);
        },
    };
    if store.next_conversation_id == i32::MAX {
        return Err(ApiError::StoreError);
    }
    let ghost m2 = store@;
    let ghost content_view = content@;
    let new_id = store.next_conversation_id;
    let conv = Conversation {
        conversation_id: new_id,
        user_id: user.user_id,
        conversation: content,
        conversation_title: String::new(),
        created_at: now,
    };
    store.conversations.push(conv);
    store.next_conversation_id = store.next_conversation_id + 1;
    proof {
        assert(store@.conversations =~= conversation_apply(
            m2,
            user.user_id as int,
            content_view,
            now as int,
        ).conversations);
        assert(store@ =~= conversation_apply(m2, user.user_id as int, content_view, now as int));
        crate::store::lemma_wf_conversation_apply(m2, user.user_id as int, content_view, now as int);
    }
    Ok(CreateConversationResponse { conversation_id: new_id })
}

/// Get a conversation by its identifier, behind the session gate and the
/// ownership guard.
pub fn get_conversation(store: &mut Store, cookie: Option<&str>, now: i64, conversation_id: i32) -> (r:
    Result<Conversation, ApiError>)
    requires
        store_wf(old(store)@),
    ensures
        store_wf(final(store)@),
        final(store)@ == validate_outcome(old(store)@, cookie_view(cookie), now as int).0,
        validate_outcome(old(store)@, cookie_view(cookie), now as int).1 matches Err(e) ==> r
            == Err::<Conversation, ApiError>(e),
        validate_outcome(old(store)@, cookie_view(cookie), now as int).1 matches Ok(u)
            ==> conv_result_model(r) == fetch_outcome(
            validate_outcome(old(store)@, cookie_view(cookie), now as int).0,
            conversation_id as int,
            u.user_id,
        ),
        r matches Ok(c) ==> validate_outcome(old(store)@, cookie_view(cookie), now as int).1
            matches Ok(u) && c.user_id as int == u.user_id,
{
    let user = match validate_session(store, cookie, now) {
        Ok(u) => u,
        Err(e) => {
            return Err(e);
        },
    };
    fetch_conversation(conversation_id, &user, store)
}

/// Delete a conversation by its identifier, behind the session gate and the
/// ownership guard. Only the one record the requester owns leaves the store;
/// any refusal is the uniform not-found answer.
pub fn delete_conversation(
    store: &mut Store,
    cookie: Option<&str>,
    now: i64,
    conversation_id: i32,
) -> (r: Result<GenericResponse, ApiError>)
    requires
        store_wf(old(store)@),
    ensures
        store_wf(final(store)@),
        validate_outcome(old(store)@, cookie_view(cookie), now as int).1 matches Err(e) ==> r
            == Err::<GenericResponse, ApiError>(e) && final(store)@ == validate_outcome(
            old(store)@,
            cookie_view(cookie),
            now as int,
        ).0,
        validate_outcome(old(store)@, cookie_view(cookie), now as int).1 matches Ok(u) ==> {
            let m2 = validate_outcome(old(store)@, cookie_view(cookie), now as int).0;
            match fetch_outcome(m2, conversation_id as int, u.user_id) {
                Err(e) => r == Err::<GenericResponse, ApiError>(e) && final(store)@ == m2,
                Ok(c) => {
                    &&& r matches Ok(g)
                    &&& g.message@ == "Conversation deleted successfully."@
                    &&& final(store)@ == delete_conversation_apply(
                        m2,
                        conversation_idx(m2, conversation_id as int),
                    )
                },
            }
        },
{
    let user = match validate_session(store, cookie, now) {
        Ok(u) => u,
        Err(e) => {
            return Err(e);
        },
    };
    let ghost m2 = store@;
    let j = match store.find_conversation(conversation_id) {
        Some(j) => j,
        None => {
            return Err(ApiError::ConversationNotFound);
        },
    };
    proof {
        crate::store::lemma_conversation_idx(m2, conversation_id as int, j as int);
    }
    if store.conversations[j].user_id != user.user_id {
        return Err(ApiError::ConversationNotFound);
    }
    store.conversations.remove(j);
    proof {
        assert(store@.conversations =~= delete_conversation_apply(m2, j as int).conversations);
        assert(store@ =~= delete_conversation_apply(m2, j as int));
        crate::store::lemma_wf_delete_conversation_apply(m2, j as int);
    }
    Ok(GenericResponse { message: "Conversation deleted successfully." })
}

/// The ownership guard admits no crossing: whatever a fetch yields is owned by
/// the requesting user, and for any one identifier — guessed or real — two
/// different users can never both reach the record. Every refusal is the one
/// not-found value, so a record owned by someone else is answered exactly as
/// an identifier that names nothing.
pub proof fn lemma_ownership_exclusive(m: StoreModel, cid: int, uid1: int, uid2: int)
    requires
        store_wf(m),
        uid1 != uid2,
    ensures
        fetch_outcome(m, cid, uid1) matches Ok(c) ==> c.user_id == uid1,
        fetch_outcome(m, cid, uid2) matches Ok(c) ==> c.user_id == uid2,
        !(fetch_outcome(m, cid, uid1) is Ok && fetch_outcome(m, cid, uid2) is Ok),
        fetch_outcome(m, cid, uid1) is Err ==> fetch_outcome(m, cid, uid1) == Err::<
            ConversationModel,
            ApiError,
        >(ApiError::ConversationNotFound),
        !has_conversation(m, cid) ==> fetch_outcome(m, cid, uid1) == fetch_outcome(m, cid, uid2),
{
}

} // verus!

//! The handler layer: one function per operation, each validating its inputs
//! and translating a store outcome into a response. The step functions
//! (`plan_*`, `render_*`, the record builders) carry the whole per-request
//! decision logic, so a caller that talks to an external document store can
//! run exactly the verified rules; the `*_user` functions compose them with
//! the in-memory store.
use vstd::prelude::*;
use vstd::string::StringExecFns;
use crate::oid::is_oid_seq;
use crate::oid::is_valid_object_id;
use crate::store::DeleteResult;
use crate::store::FetchOutcome;
use crate::store::Profile;
use crate::store::UpdateResult;
use crate::store::UserStore;
use crate::store::profile_of_user;
use crate::user::User;
use crate::user::UserView;

verus! {

/// The body of a response: a user record to be serialized as JSON, plain
/// text, or a bare string to be serialized as a JSON string.
pub enum ReplyBody {
    UserJson(User),
    Text(String),
    JsonText(String),
}

/// An HTTP-level response: a status code and a body.
pub struct Reply {
    pub status: u16,
    pub body: ReplyBody,
}

/// Mathematical model of a reply body.
pub ghost enum ReplyBodyView {
    UserJson(UserView),
    Text(Seq<char>),
    JsonText(Seq<char>),
}

/// Mathematical model of a reply.
pub ghost struct ReplyView {
    pub status: u16,
    pub body: ReplyBodyView,
}

impl View for ReplyBody {
    type V = ReplyBodyView;

    open spec fn view(&self) -> ReplyBodyView {
        match self {
            ReplyBody::UserJson(u) => ReplyBodyView::UserJson(u@),
            ReplyBody::Text(s) => ReplyBodyView::Text(s@),
            ReplyBody::JsonText(s) => ReplyBodyView::JsonText(s@),
        }
    }
}

impl View for Reply {
    type V = ReplyView;

    open spec fn view(&self) -> ReplyView {
        ReplyView { status: self.status, body: self.body@ }
    }
}

/// A reply with a plain-text body.
pub open spec fn text_reply(status: u16, body: Seq<char>) -> ReplyView {
    ReplyView { status, body: ReplyBodyView::Text(body) }
}

/// A reply with a JSON-string body.
pub open spec fn json_text_reply(status: u16, body: Seq<char>) -> ReplyView {
    ReplyView { status, body: ReplyBodyView::JsonText(body) }
}

/// A success reply carrying a user record as JSON.
pub open spec fn user_reply(u: UserView) -> ReplyView {
    ReplyView { status: 200, body: ReplyBodyView::UserJson(u) }
}

/// The record a successful read of identifier `id` returns, given the stored
/// profile.
pub open spec fn stored_user_view(id: Seq<char>, p: Profile) -> UserView {
    UserView { id: Some(id), name: p.name, location: p.location, title: p.title }
}

/// The response of the read operation: 400 for an empty identifier before any
/// store interaction; otherwise 200 with the record, or 500 — the read path
/// surfaces not-found and a malformed identifier as data-access failures.
pub open spec fn spec_get_reply(m: Map<Seq<char>, Profile>, id: Seq<char>) -> ReplyView {
    if id.len() == 0 {
        text_reply(400, "Invalid User ID"@)
    } else if !is_oid_seq(id) {
        text_reply(500, "malformed user ID"@)
    } else if m.contains_key(id) {
        user_reply(stored_user_view(id, m[id]))
    } else {
        text_reply(500, "user not found"@)
    }
}

/// The response of the update operation: 400 for an empty or malformed
/// identifier before any store interaction; 200 with the refreshed record
/// when one document matched; 404 when none did.
pub open spec fn spec_update_reply(m: Map<Seq<char>, Profile>, id: Seq<char>, u: UserView) -> ReplyView {
    if id.len() == 0 || !is_oid_seq(id) {
        text_reply(400, "Invalid Id"@)
    } else if m.contains_key(id) {
        user_reply(stored_user_view(id, profile_of_user(u)))
    } else {
        text_reply(404, "no user found with specified ID"@)
    }
}

/// The store contents after the update operation: the matched document's
/// fields replaced wholesale, its identifier kept; otherwise unchanged.
pub open spec fn spec_update_map(m: Map<Seq<char>, Profile>, id: Seq<char>, u: UserView) -> Map<Seq<char>, Profile> {
    if id.len() != 0 && is_oid_seq(id) && m.contains_key(id) {
        m.insert(id, profile_of_user(u))
    } else {
        m
    }
}

/// The response of the delete operation: 400 for an empty identifier before
/// any store interaction; 200 when one document was deleted; 404 when none
/// was.
pub open spec fn spec_delete_reply(m: Map<Seq<char>, Profile>, id: Seq<char>) -> ReplyView {
    if id.len() == 0 {
        text_reply(400, "invalid ID"@)
    } else if m.contains_key(id) {
        json_text_reply(200, "user succesfully deleted!"@)
    } else {
        json_text_reply(404, "User with specified ID not found!"@)
    }
}

/// The store contents after the delete operation.
pub open spec fn spec_delete_map(m: Map<Seq<char>, Profile>, id: Seq<char>) -> Map<Seq<char>, Profile> {
    if id.len() != 0 && m.contains_key(id) {
        m.remove(id)
    } else {
        m
    }
}

/// Builds the fresh record the create operation persists: the three fields
/// copied from the request body, the identifier unset — any client-supplied
/// identifier is discarded.
pub fn fresh_create_record(body: &User) -> (u: User)
    ensures
        u@.id is None,
        u@.name == body@.name,
        u@.location == body@.location,
        u@.title == body@.title,
{
    User {
        id: Option::None,
        name: body.name.clone(),
        location: body.location.clone(),
        title: body.title.clone(),
    }
}

/// Translates the outcome of the insert into the create response: 200 with
/// the persisted record, or 500 with the failure's textual description.
pub fn render_create(outcome: Result<User, String>) -> (r: Reply)
    ensures
        match outcome {
            Result::Ok(u) => r@ == user_reply(u@),
            Result::Err(e) => r@ == text_reply(500, e@),
        },
{
    match outcome {
        Result::Ok(u) => Reply { status: 200, body: ReplyBody::UserJson(u) },
        Result::Err(e) => Reply { status: 500, body: ReplyBody::Text(e) },
    }
}

/// Validates the read request: an empty identifier is answered 400 at once,
/// with no store interaction; any other identifier proceeds to the fetch.
pub fn plan_get(id: &String) -> (r: Option<Reply>)
    ensures
        id@.len() == 0 ==> (r matches Some(rep) && rep@ == text_reply(400, "Invalid User ID"@)),
        id@.len() != 0 ==> r is None,
{
    if id.as_str().is_empty() {
        Option::Some(Reply { status: 400, body: ReplyBody::Text(String::from_str("Invalid User ID")) })
    } else {
        Option::None
    }
}

/// Translates a fetch outcome into the read response: 200 with the record,
/// or 500 with the failure's textual description — not-found and a malformed
/// identifier included, which the read path does not tell apart from
/// data-access failures.
pub fn render_fetch(outcome: FetchOutcome) -> (r: Reply)
    ensures
        match outcome {
            FetchOutcome::Found(u) => r@ == user_reply(u@),
            FetchOutcome::NotFound => r@ == text_reply(500, "user not found"@),
            FetchOutcome::InvalidId => r@ == text_reply(500, "malformed user ID"@),
            FetchOutcome::Error(e) => r@ == text_reply(500, e@),
        },
{
    match outcome {
        FetchOutcome::Found(u) => Reply { status: 200, body: ReplyBody::UserJson(u) },
        FetchOutcome::NotFound => Reply {
            status: 500,
            body: ReplyBody::Text(String::from_str("user not found")),
        },
        FetchOutcome::InvalidId => Reply {
            status: 500,
            body: ReplyBody::Text(String::from_str("malformed user ID")),
        },
        FetchOutcome::Error(e) => Reply { status: 500, body: ReplyBody::Text(e) },
    }
}

/// Validates the update request: an empty identifier, and a malformed one
/// that the store could not parse, are answered 400 at once, with no store
/// interaction; a well-formed identifier proceeds to the replace.
pub fn plan_update(id: &String) -> (r: Option<Reply>)
    ensures
        id@.len() == 0 || !is_oid_seq(id@) ==> (r matches Some(rep) && rep@ == text_reply(400, "Invalid Id"@)),
        id@.len() != 0 && is_oid_seq(id@) ==> r is None,
{
    if id.as_str().is_empty() || !is_valid_object_id(id.as_str()) {
        Option::Some(Reply { status: 400, body: ReplyBody::Text(String::from_str("Invalid Id")) })
    } else {
        Option::None
    }
}

/// Builds the replacement record the update operation writes: the path
/// identifier and the body's three fields — any identifier on the body is
/// ignored in favor of the path's.
pub fn replacement_record(id: &String, body: &User) -> (u: User)
    ensures
        u@.id == Some(id@),
        u@.name == body@.name,
        u@.location == body@.location,
        u@.title == body@.title,
{
    User {
        id: Option::Some(id.clone()),
        name: body.name.clone(),
        location: body.location.clone(),
        title: body.title.clone(),
    }
}

/// What follows the replace: answer at once, or re-fetch the refreshed
/// record.
pub enum ReplaceStep {
    Respond(Reply),
    Refetch,
}

/// Translates the outcome of the replace: a failure is answered 500 with its
/// textual description; one matched document leads to the re-fetch; zero
/// matched documents are answered 404.
pub fn render_replace(outcome: Result<UpdateResult, String>) -> (r: ReplaceStep)
    ensures
        match outcome {
            Result::Ok(res) => if res.matched_count == 1 {
                r is Refetch
            } else {
                r matches ReplaceStep::Respond(rep)
                    && rep@ == text_reply(404, "no user found with specified ID"@)
            },
            Result::Err(e) => r matches ReplaceStep::Respond(rep) && rep@ == text_reply(500, e@),
        },
{
    match outcome {
        Result::Ok(res) => {
            if res.matched_count == 1 {
                ReplaceStep::Refetch
            } else {
                ReplaceStep::Respond(Reply {
                    status: 404,
                    body: ReplyBody::Text(String::from_str("no user found with specified ID")),
                })
            }
        },
        Result::Err(e) => ReplaceStep::Respond(Reply { status: 500, body: ReplyBody::Text(e) }),
    }
}

/// Validates the delete request: an empty identifier is answered 400 at once,
/// with no store interaction.
pub fn plan_delete(id: &String) -> (r: Option<Reply>)
    ensures
        id@.len() == 0 ==> (r matches Some(rep) && rep@ == text_reply(400, "invalid ID"@)),
        id@.len() != 0 ==> r is None,
{
    if id.as_str().is_empty() {
        Option::Some(Reply { status: 400, body: ReplyBody::Text(String::from_str("invalid ID")) })
    } else {
        Option::None
    }
}

/// Translates the outcome of the delete: a failure is answered 500 with its
/// textual description; one deleted document 200, zero 404, each with a JSON
/// string body.
pub fn render_delete(outcome: Result<DeleteResult, String>) -> (r: Reply)
    ensures
        match outcome {
            Result::Ok(res) => if res.deleted_count == 1 {
                r@ == json_text_reply(200, "user succesfully deleted!"@)
            } else {
                r@ == json_text_reply(404, "User with specified ID not found!"@)
            },
            Result::Err(e) => r@ == text_reply(500, e@),
        },
{
    match outcome {
        Result::Ok(res) => {
            if res.deleted_count == 1 {
                Reply {
                    status: 200,
                    body: ReplyBody::JsonText(String::from_str("user succesfully deleted!")),
                }
            } else {
                Reply {
                    status: 404,
                    body: ReplyBody::JsonText(String::from_str("User with specified ID not found!")),
                }
            }
        },
        Result::Err(e) => Reply { status: 500, body: ReplyBody::Text(e) },
    }
}

/// The create operation: persists a fresh record built from the body and
/// answers 200 with the persisted record — its identifier assigned by the
/// store, fresh, and well formed — or 500 when the write cannot complete.
pub fn create_user(store: &mut UserStore, body: &User) -> (r: Reply)
    requires
        old(store).wf(),
    ensures
        final(store).wf(),
        old(store).can_create() ==> (r@.body matches ReplyBodyView::UserJson(u) && u.id matches Some(id) && {
            &&& r@.status == 200
            &&& is_oid_seq(id)
            &&& !old(store)@.contains_key(id)
            &&& u.name == body@.name
            &&& u.location == body@.location
            &&& u.title == body@.title
            &&& final(store)@ == old(store)@.insert(id, profile_of_user(body@))
        }),
        !old(store).can_create() ==> (r@.status == 500 && *final(store) == *old(store)),
{
    let data = fresh_create_record(body);
    let outcome = store.create_user(data);
    render_create(outcome)
}

/// The read operation; its response is exactly `spec_get_reply`, and the
/// store is not changed.
pub fn get_user(store: &UserStore, id: &String) -> (r: Reply)
    requires
        store.wf(),
    ensures
        r@ == spec_get_reply(store@, id@),
{
    match plan_get(id) {
        Option::Some(rep) => rep,
        Option::None => render_fetch(store.get_user(id)),
    }
}

/// The update operation; its response is exactly `spec_update_reply`, and
/// the store afterwards holds exactly `spec_update_map`.
pub fn update_user(store: &mut UserStore, id: &String, body: &User) -> (r: Reply)
    requires
        old(store).wf(),
    ensures
        final(store).wf(),
        r@ == spec_update_reply(old(store)@, id@, body@),
        final(store)@ == spec_update_map(old(store)@, id@, body@),
{
    match plan_update(id) {
        Option::Some(rep) => rep,
        Option::None => {
            let data = replacement_record(id, body);
            let outcome = store.update_user(id, data);
            match render_replace(Result::Ok(outcome)) {
                ReplaceStep::Respond(rep) => rep,
                ReplaceStep::Refetch => render_fetch(store.get_user(id)),
            }
        },
    }
}

/// The delete operation; its response is exactly `spec_delete_reply`, and
/// the store afterwards holds exactly `spec_delete_map`.
pub fn delete_user(store: &mut UserStore, id: &String) -> (r: Reply)
    requires
        old(store).wf(),
    ensures
        final(store).wf(),
        r@ == spec_delete_reply(old(store)@, id@),
        final(store)@ == spec_delete_map(old(store)@, id@),
{
    match plan_delete(id) {
        Option::Some(rep) => rep,
        Option::None => {
            let outcome = store.delete_user(id);
            render_delete(Result::Ok(outcome))
        },
    }
}

} // verus!

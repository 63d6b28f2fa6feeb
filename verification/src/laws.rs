//! The relations the operations keep among themselves, stated over the spec
//! functions and views the handlers' own contracts use.
use vstd::prelude::*;
use crate::handlers::json_text_reply;
use crate::handlers::spec_delete_map;
use crate::handlers::spec_delete_reply;
use crate::handlers::spec_get_reply;
use crate::handlers::spec_update_map;
use crate::handlers::spec_update_reply;
use crate::handlers::stored_user_view;
use crate::handlers::text_reply;
use crate::handlers::user_reply;
use crate::oid::is_oid_seq;
use crate::store::Profile;
use crate::store::profile_of_user;
use crate::user::UserView;

verus! {

/// Once a record is stored under a freshly assigned identifier — which is
/// always well formed — reading that identifier back returns 200 with that
/// record.
pub proof fn lemma_created_user_read_back(m: Map<Seq<char>, Profile>, id: Seq<char>, p: Profile)
    requires
        is_oid_seq(id),
    ensures
        spec_get_reply(m.insert(id, p), id) == user_reply(stored_user_view(id, p)),
{
}

/// An empty path identifier is answered with the operation's 400 reply, and
/// the store is left untouched — the request never reaches it.
pub proof fn lemma_empty_id_rejected(m: Map<Seq<char>, Profile>, u: UserView)
    ensures
        spec_get_reply(m, Seq::<char>::empty()) == text_reply(400, "Invalid User ID"@),
        spec_update_reply(m, Seq::<char>::empty(), u) == text_reply(400, "Invalid Id"@),
        spec_update_map(m, Seq::<char>::empty(), u) == m,
        spec_delete_reply(m, Seq::<char>::empty()) == text_reply(400, "invalid ID"@),
        spec_delete_map(m, Seq::<char>::empty()) == m,
{
}

/// Updating or deleting an identifier that no document carries is answered
/// 404, and the store is left unchanged.
pub proof fn lemma_missing_id_not_found(m: Map<Seq<char>, Profile>, id: Seq<char>, u: UserView)
    requires
        is_oid_seq(id),
        !m.contains_key(id),
    ensures
        spec_update_reply(m, id, u) == text_reply(404, "no user found with specified ID"@),
        spec_update_map(m, id, u) == m,
        spec_delete_reply(m, id) == json_text_reply(404, "User with specified ID not found!"@),
        spec_delete_map(m, id) == m,
{
}

/// Updating a stored identifier with new field values answers 200 with the
/// new values under the unchanged identifier, and reading the identifier
/// back afterwards returns exactly those values.
pub proof fn lemma_update_read_back(m: Map<Seq<char>, Profile>, id: Seq<char>, u: UserView)
    requires
        is_oid_seq(id),
        m.contains_key(id),
    ensures
        spec_update_reply(m, id, u) == user_reply(stored_user_view(id, profile_of_user(u))),
        spec_get_reply(spec_update_map(m, id, u), id) == user_reply(
            stored_user_view(id, profile_of_user(u)),
        ),
{
}

/// Deleting a stored identifier answers 200, and reading the identifier back
/// afterwards yields the not-found outcome, which the read path surfaces as
/// a 500 data-access failure.
pub proof fn lemma_deleted_user_not_readable(m: Map<Seq<char>, Profile>, id: Seq<char>)
    requires
        is_oid_seq(id),
        m.contains_key(id),
    ensures
        spec_delete_reply(m, id) == json_text_reply(200, "user succesfully deleted!"@),
        spec_get_reply(spec_delete_map(m, id), id) == text_reply(500, "user not found"@),
{
    assert(!m.remove(id).contains_key(id));
}

} // verus!

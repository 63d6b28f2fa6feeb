//! The sole entity: a user record with a store-assigned identifier and three
//! descriptive string fields.
use vstd::prelude::*;

verus! {

/// A user record. A persisted record carries the store-assigned identifier in
/// `id`; a record submitted for creation carries `None` there.
pub struct User {
    pub id: Option<String>,
    pub name: String,
    pub location: String,
    pub title: String,
}

/// Mathematical model of a `User`.
pub ghost struct UserView {
    pub id: Option<Seq<char>>,
    pub name: Seq<char>,
    pub location: Seq<char>,
    pub title: Seq<char>,
}

impl View for User {
    type V = UserView;

    open spec fn view(&self) -> UserView {
        UserView {
            id: match self.id {
                Option::Some(s) => Option::Some(s@),
                Option::None => Option::None,
            },
            name: self.name@,
            location: self.location@,
            title: self.title@,
        }
    }
}

} // verus!

use vstd::prelude::*;
use crate::utils::enums::ToUse;
use crate::models::users::User;

verus! {

/// The field of a stored document that a query matches on.
#[derive(Clone, Copy, Debug, PartialEq, Eq, Structural)]
pub enum Field {
    Id,
    Email,
    PhoneNumber,
    Code,
    Token,
}

/// A query document: `field` must equal `value` (a missing value matches a
/// null field) and, where `auth_identifier` is given, the stored
/// `auth_identifier` must be that one.
pub struct Filter {
    pub field: Field,
    pub value: Option<String>,
    pub auth_identifier: Option<ToUse>,
}

/// `f` asks for documents whose `field` equals `value`, restricted to
/// `auth_identifier` where one is given.
pub open spec fn is_filter(f: Filter, field: Field, value: Option<Seq<char>>, auth_identifier: Option<ToUse>) -> bool {
    &&& f.field == field
    &&& f.auth_identifier == auth_identifier
    &&& match value {
        Some(v) => f.value matches Some(s) && s@ == v,
        None => f.value is None,
    }
}

/// The view of an optional string.
pub open spec fn opt_view(o: Option<String>) -> Option<Seq<char>> {
    match o {
        Some(s) => Some(s@),
        None => None,
    }
}

/// Whether a stored account satisfies a query: the queried field of the
/// account equals the queried value (a missing value stands for null), and
/// its way of signing in is the queried one where one is given. Codes and
/// tokens are not fields of an account.
pub open spec fn user_matches(u: User, f: Filter) -> bool {
    &&& match f.field {
        Field::Id => opt_view(u._id) == opt_view(f.value),
        Field::Email => opt_view(u.email) == opt_view(f.value),
        Field::PhoneNumber => opt_view(u.phone_number) == opt_view(f.value),
        Field::Code => false,
        Field::Token => false,
    }
    &&& (f.auth_identifier matches Some(a) ==> u.auth_identifier == Some(a))
}

} // verus!

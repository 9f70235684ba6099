//! The allocated form of the role/property container: an optional
//! identifier and an ordered sequence of key/value entries, with the keyword
//! and braces of the spanned form dropped.

use vstd::prelude::*;

use crate::Ident;
use crate::Prop;
use crate::props_view;

verus! {

/// The model of an allocated role: its identifier's text, when it has one,
/// and its entries as ordered key/value pairs.
pub struct SpecRole {
    pub id: Option<Seq<char>>,
    pub body: Seq<(Seq<char>, Seq<char>)>,
}

/// A named container of key/value entries.
#[derive(Debug, Clone, PartialEq)]
pub struct Role {
    pub id: Option<Ident>,
    pub body: RoleBody,
}

impl View for Role {
    type V = SpecRole;

    open spec fn view(&self) -> SpecRole {
        SpecRole {
            id: match self.id {
                Some(id) => Some(id@),
                None => None,
            },
            body: self.body@,
        }
    }
}

/// The ordered entries of a role.
#[derive(Debug, Clone, PartialEq)]
pub struct RoleBody(pub Vec<Prop>);

impl View for RoleBody {
    type V = Seq<(Seq<char>, Seq<char>)>;

    open spec fn view(&self) -> Seq<(Seq<char>, Seq<char>)> {
        props_view(self.0@)
    }
}

} // verus!

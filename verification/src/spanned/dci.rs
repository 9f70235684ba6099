//! The spanned form of the role/property container: a leading keyword, an
//! optional identifier, and a brace-delimited ordered sequence of key/value
//! entries.

use vstd::prelude::*;

use crate::dci::SpecRole;
use crate::spanned::Ident;
use crate::spanned::Node;
use crate::spanned::Prop;
use crate::spanned::Slice;
use crate::spanned::SourceLocation;

verus! {

/// Whether the elements of `props` are well formed and follow one another in
/// source order, the first of them no earlier than the offset `prev_end`.
pub open spec fn props_ordered_from(prev_end: int, props: Seq<Prop>) -> bool
    decreases props,
{
    if props.len() == 0 {
        true
    } else {
        &&& props.first().wf()
        &&& prev_end <= props.first().loc_spec().start
        &&& props_ordered_from(props.first().loc_spec().end as int, props.drop_first())
    }
}

/// The end offset of the last element of `props`, or `default` when `props`
/// is empty.
pub open spec fn props_last_end(props: Seq<Prop>, default: usize) -> usize {
    if props.len() == 0 {
        default
    } else {
        props.last().loc_spec().end
    }
}

/// Entries laid out in source order only ever extend an extent to the right:
/// the end of the last entry lies no earlier than where the layout began.
pub proof fn lemma_props_ordered(prev_end: int, props: Seq<Prop>, default: usize)
    requires
        props_ordered_from(prev_end, props),
        prev_end <= default,
    ensures
        prev_end <= props_last_end(props, default),
    decreases props,
{
    if props.len() > 0 {
        props.first().lemma_loc_ordered();
        lemma_props_ordered(
            props.first().loc_spec().end as int,
            props.drop_first(),
            props.first().loc_spec().end,
        );
        if props.len() > 1 {
            assert(props.drop_first().last() == props.last());
        }
    }
}

/// A named container of key/value entries, led by its keyword.
#[derive(Debug, Clone, PartialEq)]
pub struct Role {
    pub keyword: Slice,
    pub id: Option<Ident>,
    pub body: RoleBody,
}

impl Node for Role {
    open spec fn wf(&self) -> bool {
        &&& self.keyword.wf()
        &&& self.body.wf()
        &&& match self.id {
            Some(id) => {
                &&& id.wf()
                &&& self.keyword.loc.end <= id.loc_spec().start
                &&& id.loc_spec().end <= self.body.loc_spec().start
            },
            None => self.keyword.loc.end <= self.body.loc_spec().start,
        }
    }

    open spec fn loc_spec(&self) -> SourceLocation {
        SourceLocation { start: self.keyword.loc.start, end: self.body.close_brace.loc.end }
    }

    fn loc(&self) -> (loc: SourceLocation) {
        SourceLocation { start: self.keyword.loc.start, end: self.body.close_brace.loc.end }
    }

    proof fn lemma_loc_ordered(&self) {
        self.body.lemma_loc_ordered();
    }
}

impl Role {
    /// The allocated counterpart: the identifier, when there is one, and the
    /// entries in order, with the keyword and braces dropped.
    pub open spec fn into_allocated_spec(self) -> SpecRole {
        SpecRole {
            id: match self.id {
                Some(id) => Some(id.into_allocated_spec()),
                None => None,
            },
            body: self.body.into_allocated_spec(),
        }
    }

    /// Convert into the allocated form.
    pub fn into_allocated(self) -> (r: crate::dci::Role)
        ensures
            r@ == self.into_allocated_spec(),
    {
        crate::dci::Role {
            id: match self.id {
                Some(id) => Some(id.into_allocated()),
                None => None,
            },
            body: self.body.into_allocated(),
        }
    }
}

/// The brace-delimited ordered entries of a role.
#[derive(Debug, Clone, PartialEq)]
pub struct RoleBody {
    pub open_brace: Slice,
    pub props: Vec<Prop>,
    pub close_brace: Slice,
}

impl Node for RoleBody {
    open spec fn wf(&self) -> bool {
        &&& self.open_brace.wf()
        &&& self.close_brace.wf()
        &&& props_ordered_from(self.open_brace.loc.end as int, self.props@)
        &&& props_last_end(self.props@, self.open_brace.loc.end) <= self.close_brace.loc.start
    }

    open spec fn loc_spec(&self) -> SourceLocation {
        SourceLocation { start: self.open_brace.loc.start, end: self.close_brace.loc.end }
    }

    fn loc(&self) -> (loc: SourceLocation) {
        SourceLocation { start: self.open_brace.loc.start, end: self.close_brace.loc.end }
    }

    proof fn lemma_loc_ordered(&self) {
        lemma_props_ordered(self.open_brace.loc.end as int, self.props@, self.open_brace.loc.end);
    }
}

/// The elementwise conversion of a sequence of spanned entries to owned
/// key/value pairs, in order.
pub open spec fn props_into_allocated_spec(props: Seq<Prop>) -> Seq<(Seq<char>, Seq<char>)>
    decreases props,
{
    if props.len() == 0 {
        Seq::empty()
    } else {
        props_into_allocated_spec(props.drop_last()).push(props.last().into_allocated_spec())
    }
}

/// Converting a sequence of entries keeps its length and converts each entry
/// in place.
pub proof fn lemma_props_into_allocated_elementwise(props: Seq<Prop>)
    ensures
        props_into_allocated_spec(props).len() == props.len(),
        forall|i: int|
            0 <= i < props.len() ==> props_into_allocated_spec(props)[i] == (
            #[trigger] props[i]).into_allocated_spec(),
    decreases props,
{
    if props.len() > 0 {
        lemma_props_into_allocated_elementwise(props.drop_last());
        assert forall|i: int|
            0 <= i < props.len() implies props_into_allocated_spec(props)[i] == (
        #[trigger] props[i]).into_allocated_spec() by {
            if i < props.len() - 1 {
                assert(props[i] == props.drop_last()[i]);
            } else {
                assert(props[i] == props.last());
            }
        }
    }
}

/// Convert every entry, keeping their order.
pub fn props_into_allocated(mut props: Vec<Prop>) -> (r: Vec<crate::Prop>)
    ensures
        crate::props_view(r@) == props_into_allocated_spec(props@),
    decreases props@,
{
    let ghost orig = props@;
    match props.pop() {
        None => {
            let r = Vec::new();
            proof {
                assert(crate::props_view(r@) =~= props_into_allocated_spec(orig));
            }
            r
        }
        Some(last) => {
            let a = last.into_allocated();
            let mut r = props_into_allocated(props);
            let ghost before = r@;
            r.push(a);
            proof {
                assert(props@ == orig.drop_last());
                assert(last == orig.last());
                assert(crate::props_view(r@) =~= crate::props_view(before).push(a@));
            }
            r
        }
    }
}

impl RoleBody {
    /// The allocated counterpart: the entries in order, braces dropped.
    pub open spec fn into_allocated_spec(self) -> Seq<(Seq<char>, Seq<char>)> {
        props_into_allocated_spec(self.props@)
    }

    /// Convert into the allocated form.
    pub fn into_allocated(self) -> (r: crate::dci::RoleBody)
        ensures
            r@ == self.into_allocated_spec(),
    {
        crate::dci::RoleBody(props_into_allocated(self.props))
    }
}

} // verus!

//! An in-memory syntax-tree model for a scripting-language statement grammar,
//! kept in two parallel forms.
//!
//! The *spanned* form ([`spanned`]) retains every keyword, delimiter and
//! optional terminator token together with its exact `[start, end)` byte
//! offsets, and every construct can report the source extent it covers
//! through the [`spanned::Node`] capability.
//! The *allocated* form ([`stmt`], [`dci`] and the leaf types at the crate
//! root) owns all of its textual data and keeps no locations, delimiters or
//! terminator bookkeeping; it is the shape handed to later stages once
//! parsing is done.
//!
//! The two forms are connected by a total, structure-preserving conversion
//! from every spanned construct to its allocated counterpart; there is no
//! conversion back.
//!
//! Expressions, patterns and declaration internals belong to neighbouring
//! grammars and are carried here as leaves: a run of owned text in the
//! allocated form, a token with its location in the spanned form.

use vstd::prelude::*;

pub mod dci;
pub mod spanned;
pub mod stmt;

verus! {

/// An identifier that owns its name.
#[derive(Debug, Clone, PartialEq)]
pub struct Ident {
    pub name: String,
}

impl View for Ident {
    type V = Seq<char>;

    open spec fn view(&self) -> Seq<char> {
        self.name@
    }
}

/// An expression, carried as the text it was written as.
#[derive(Debug, Clone, PartialEq)]
pub struct Expr {
    pub text: String,
}

impl View for Expr {
    type V = Seq<char>;

    open spec fn view(&self) -> Seq<char> {
        self.text@
    }
}

/// A binding pattern, carried as the text it was written as.
#[derive(Debug, Clone, PartialEq)]
pub struct Pat {
    pub text: String,
}

impl View for Pat {
    type V = Seq<char>;

    open spec fn view(&self) -> Seq<char> {
        self.text@
    }
}

/// The kind of a variable declaration, carried as its keyword text.
#[derive(Debug, Clone, PartialEq)]
pub struct VarKind {
    pub text: String,
}

impl View for VarKind {
    type V = Seq<char>;

    open spec fn view(&self) -> Seq<char> {
        self.text@
    }
}

/// A single variable declarator, carried as the text it was written as.
#[derive(Debug, Clone, PartialEq)]
pub struct VarDecl {
    pub text: String,
}

impl View for VarDecl {
    type V = Seq<char>;

    open spec fn view(&self) -> Seq<char> {
        self.text@
    }
}

/// A declaration, carried as the text it was written as.
#[derive(Debug, Clone, PartialEq)]
pub struct Decl {
    pub text: String,
}

impl View for Decl {
    type V = Seq<char>;

    open spec fn view(&self) -> Seq<char> {
        self.text@
    }
}

/// A key/value entry of a role body.
#[derive(Debug, Clone, PartialEq)]
pub struct Prop {
    pub key: String,
    pub value: String,
}

impl View for Prop {
    type V = (Seq<char>, Seq<char>);

    open spec fn view(&self) -> (Seq<char>, Seq<char>) {
        (self.key@, self.value@)
    }
}

/// The model of an allocated program part.
pub enum SpecProgramPart {
    Decl(Seq<char>),
    Stmt(stmt::SpecStmt),
}

/// A part of a program: a statement or a declaration, uniformly wrapped so
/// that both can stand in sequence positions.
#[derive(Debug, PartialEq)]
pub enum ProgramPart {
    /// A declaration.
    Decl(Decl),
    /// A statement.
    Stmt(stmt::Stmt),
}

impl View for ProgramPart {
    type V = SpecProgramPart;

    open spec fn view(&self) -> SpecProgramPart
        decreases self,
    {
        match self {
            ProgramPart::Decl(decl) => SpecProgramPart::Decl(decl@),
            ProgramPart::Stmt(stmt) => SpecProgramPart::Stmt(stmt.view()),
        }
    }
}

/// The elementwise model of a sequence of allocated program parts.
pub open spec fn parts_view(parts: Seq<ProgramPart>) -> Seq<SpecProgramPart>
    decreases parts,
{
    if parts.len() == 0 {
        Seq::empty()
    } else {
        parts_view(parts.drop_last()).push(parts.last().view())
    }
}

/// The model of a sequence of parts keeps its length and models each part in
/// place.
pub proof fn lemma_parts_view_elementwise(parts: Seq<ProgramPart>)
    ensures
        parts_view(parts).len() == parts.len(),
        forall|i: int| 0 <= i < parts.len() ==> parts_view(parts)[i] == (#[trigger] parts[i])@,
    decreases parts,
{
    if parts.len() > 0 {
        lemma_parts_view_elementwise(parts.drop_last());
        assert(parts_view(parts) == parts_view(parts.drop_last()).push(parts.last()@));
        assert forall|i: int| 0 <= i < parts.len() implies parts_view(parts)[i] == (
        #[trigger] parts[i])@ by {
            if i < parts.len() - 1 {
                assert(parts[i] == parts.drop_last()[i]);
            } else {
                assert(parts[i] == parts.last());
            }
        }
    }
}

/// The elementwise model of a sequence of declarators.
pub open spec fn var_decls_view(decls: Seq<VarDecl>) -> Seq<Seq<char>> {
    Seq::new(decls.len(), |i: int| decls[i]@)
}

/// The elementwise model of a sequence of key/value entries.
pub open spec fn props_view(props: Seq<Prop>) -> Seq<(Seq<char>, Seq<char>)> {
    Seq::new(props.len(), |i: int| props[i]@)
}

} // verus!

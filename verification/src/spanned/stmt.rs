//! The spanned form of the statement grammar: every variant keeps its
//! keyword, delimiter and optional terminator tokens, and reports its source
//! extent per the location rule of its kind.

use vstd::prelude::*;

use crate::spanned::Expr;
use crate::spanned::Ident;
use crate::spanned::ListEntry;
use crate::spanned::Node;
use crate::spanned::Pat;
use crate::spanned::ProgramPart;
use crate::spanned::Slice;
use crate::spanned::SourceLocation;
use crate::spanned::VarDecl;
use crate::spanned::VarDecls;
use crate::spanned::VarKind;
use crate::spanned::entries_ordered_from;
use crate::spanned::lemma_entries_ordered;
use crate::spanned::lemma_parts_ordered;
use crate::spanned::parts_last_end;
use crate::spanned::parts_ordered_from;

verus! {

/// A statement of the spanned tree.
#[derive(Debug, PartialEq)]
pub enum Stmt {
    /// Any expression, with its optional trailing terminator.
    Expr { expr: Expr, semi_colon: Option<Slice> },
    /// A collection of program parts wrapped in curly braces.
    Block(BlockStmt),
    /// A single terminator standing alone.
    Empty(Slice),
    /// The contextual debugger keyword, with its optional trailing
    /// terminator.
    Debugger { keyword: Slice, semi_colon: Option<Slice> },
    /// A with statement: one object put at the top of the identifier search
    /// tree for its body.
    With(WithStmt),
    /// A return statement, with an optional returned value and an optional
    /// trailing terminator.
    Return { keyword: Slice, value: Option<Expr>, semi_colon: Option<Slice> },
    /// A labeled statement.
    Labeled(LabeledStmt),
    /// A break statement, with an optional target label and an optional
    /// trailing terminator.
    Break { keyword: Slice, label: Option<Ident>, semi_colon: Option<Slice> },
    /// A continue statement, with an optional target label and an optional
    /// trailing terminator.
    Continue { keyword: Slice, label: Option<Ident>, semi_colon: Option<Slice> },
    /// An if statement.
    If(IfStmt),
    /// A switch statement.
    Switch(SwitchStmt),
    /// A statement that throws an error, with its optional trailing
    /// terminator.
    Throw { keyword: Slice, expr: Expr, semi_colon: Option<Slice> },
    /// A try/catch block.
    Try(TryStmt),
    /// A while loop.
    While(WhileStmt),
    /// A while loop that executes its body first.
    DoWhile(DoWhileStmt),
    /// A c-style for loop.
    For(ForStmt),
    /// A for-in loop over the keys of an indexable thing.
    ForIn(ForInStmt),
    /// A for-of loop over the values of an iterable thing.
    ForOf(ForOfStmt),
    /// A variable declaration statement, with its optional trailing
    /// terminator.
    Var { decls: VarDecls, semi_colon: Option<Slice> },
}

impl Node for Stmt {
    open spec fn wf(&self) -> bool
        decreases self,
    {
        match self {
            Stmt::Expr { expr, semi_colon } => {
                &&& expr.wf()
                &&& match semi_colon {
                    Some(semi) => semi.wf() && expr.loc_spec().end <= semi.loc.start,
                    None => true,
                }
            },
            Stmt::Block(inner) => inner.wf(),
            Stmt::Empty(slice) => slice.wf(),
            Stmt::Debugger { keyword, semi_colon } => {
                &&& keyword.wf()
                &&& match semi_colon {
                    Some(semi) => semi.wf() && keyword.loc.end <= semi.loc.start,
                    None => true,
                }
            },
            Stmt::With(inner) => inner.wf(),
            Stmt::Return { keyword, value, semi_colon } => {
                &&& keyword.wf()
                &&& match value {
                    Some(value) => value.wf() && keyword.loc.end <= value.loc_spec().start,
                    None => true,
                }
                &&& match semi_colon {
                    Some(semi) => {
                        &&& semi.wf()
                        &&& match value {
                            Some(value) => value.loc_spec().end <= semi.loc.start,
                            None => keyword.loc.end <= semi.loc.start,
                        }
                    },
                    None => true,
                }
            },
            Stmt::Labeled(inner) => inner.wf(),
            Stmt::Break { keyword, label, semi_colon } => {
                &&& keyword.wf()
                &&& match label {
                    Some(label) => label.wf() && keyword.loc.end <= label.loc_spec().start,
                    None => true,
                }
                &&& match semi_colon {
                    Some(semi) => {
                        &&& semi.wf()
                        &&& match label {
                            Some(label) => label.loc_spec().end <= semi.loc.start,
                            None => keyword.loc.end <= semi.loc.start,
                        }
                    },
                    None => true,
                }
            },
            Stmt::Continue { keyword, label, semi_colon } => {
                &&& keyword.wf()
                &&& match label {
                    Some(label) => label.wf() && keyword.loc.end <= label.loc_spec().start,
                    None => true,
                }
                &&& match semi_colon {
                    Some(semi) => {
                        &&& semi.wf()
                        &&& match label {
                            Some(label) => label.loc_spec().end <= semi.loc.start,
                            None => keyword.loc.end <= semi.loc.start,
                        }
                    },
                    None => true,
                }
            },
            Stmt::If(inner) => inner.wf(),
            Stmt::Switch(inner) => inner.wf(),
            Stmt::Throw { keyword, expr, semi_colon } => {
                &&& keyword.wf()
                &&& expr.wf()
                &&& keyword.loc.end <= expr.loc_spec().start
                &&& match semi_colon {
                    Some(semi) => semi.wf() && expr.loc_spec().end <= semi.loc.start,
                    None => true,
                }
            },
            Stmt::Try(inner) => inner.wf(),
            Stmt::While(inner) => inner.wf(),
            Stmt::DoWhile(inner) => inner.wf(),
            Stmt::For(inner) => inner.wf(),
            Stmt::ForIn(inner) => inner.wf(),
            Stmt::ForOf(inner) => inner.wf(),
            Stmt::Var { decls, semi_colon } => {
                &&& decls.wf()
                &&& match semi_colon {
                    Some(semi) => semi.wf() && decls.loc_spec().end <= semi.loc.start,
                    None => true,
                }
            },
        }
    }

    open spec fn loc_spec(&self) -> SourceLocation
        decreases self,
    {
        match self {
            Stmt::Expr { expr, semi_colon } => match semi_colon {
                Some(semi) => SourceLocation { start: expr.loc_spec().start, end: semi.loc.end },
                None => expr.loc_spec(),
            },
            Stmt::Block(inner) => inner.loc_spec(),
            Stmt::Empty(slice) => slice.loc,
            Stmt::Debugger { keyword, semi_colon } => match semi_colon {
                Some(semi) => SourceLocation { start: keyword.loc.start, end: semi.loc.end },
                None => keyword.loc,
            },
            Stmt::With(inner) => inner.loc_spec(),
            Stmt::Return { keyword, value, semi_colon } => match semi_colon {
                Some(semi) => SourceLocation { start: keyword.loc.start, end: semi.loc.end },
                None => match value {
                    Some(value) => SourceLocation {
                        start: keyword.loc.start,
                        end: value.loc_spec().end,
                    },
                    None => keyword.loc,
                },
            },
            Stmt::Labeled(inner) => inner.loc_spec(),
            Stmt::Break { keyword, label, semi_colon } => match semi_colon {
                Some(semi) => SourceLocation { start: keyword.loc.start, end: semi.loc.end },
                None => match label {
                    Some(label) => SourceLocation {
                        start: keyword.loc.start,
                        end: label.loc_spec().end,
                    },
                    None => keyword.loc,
                },
            },
            Stmt::Continue { keyword, label, semi_colon } => match semi_colon {
                Some(semi) => SourceLocation { start: keyword.loc.start, end: semi.loc.end },
                None => match label {
                    Some(label) => SourceLocation {
                        start: keyword.loc.start,
                        end: label.loc_spec().end,
                    },
                    None => keyword.loc,
                },
            },
            Stmt::If(inner) => inner.loc_spec(),
            Stmt::Switch(inner) => inner.loc_spec(),
            Stmt::Throw { keyword, expr, semi_colon } => match semi_colon {
                Some(semi) => SourceLocation { start: keyword.loc.start, end: semi.loc.end },
                None => SourceLocation { start: keyword.loc.start, end: expr.loc_spec().end },
            },
            Stmt::Try(inner) => inner.loc_spec(),
            Stmt::While(inner) => inner.loc_spec(),
            Stmt::DoWhile(inner) => inner.loc_spec(),
            Stmt::For(inner) => inner.loc_spec(),
            Stmt::ForIn(inner) => inner.loc_spec(),
            Stmt::ForOf(inner) => inner.loc_spec(),
            Stmt::Var { decls, semi_colon } => match semi_colon {
                Some(semi) => SourceLocation { start: decls.loc_spec().start, end: semi.loc.end },
                None => decls.loc_spec(),
            },
        }
    }

    fn loc(&self) -> (loc: SourceLocation)
        decreases self,
    {
        match self {
            Stmt::Expr { expr, semi_colon } => {
                let el = expr.loc();
                match semi_colon {
                    Some(semi) => SourceLocation { start: el.start, end: semi.loc.end },
                    None => el,
                }
            },
            Stmt::Block(inner) => inner.loc(),
            Stmt::Empty(slice) => slice.loc,
            Stmt::Debugger { keyword, semi_colon } => match semi_colon {
                Some(semi) => SourceLocation { start: keyword.loc.start, end: semi.loc.end },
                None => keyword.loc,
            },
            Stmt::With(inner) => inner.loc(),
            Stmt::Return { keyword, value, semi_colon } => match semi_colon {
                Some(semi) => SourceLocation { start: keyword.loc.start, end: semi.loc.end },
                None => match value {
                    Some(value) => {
                        let vl = value.loc();
                        SourceLocation { start: keyword.loc.start, end: vl.end }
                    },
                    None => keyword.loc,
                },
            },
            Stmt::Labeled(inner) => inner.loc(),
            Stmt::Break { keyword, label, semi_colon } => match semi_colon {
                Some(semi) => SourceLocation { start: keyword.loc.start, end: semi.loc.end },
                None => match label {
                    Some(label) => {
                        let ll = label.loc();
                        SourceLocation { start: keyword.loc.start, end: ll.end }
                    },
                    None => keyword.loc,
                },
            },
            Stmt::Continue { keyword, label, semi_colon } => match semi_colon {
                Some(semi) => SourceLocation { start: keyword.loc.start, end: semi.loc.end },
                None => match label {
                    Some(label) => {
                        let ll = label.loc();
                        SourceLocation { start: keyword.loc.start, end: ll.end }
                    },
                    None => keyword.loc,
                },
            },
            Stmt::If(inner) => inner.loc(),
            Stmt::Switch(inner) => inner.loc(),
            Stmt::Throw { keyword, expr, semi_colon } => match semi_colon {
                Some(semi) => SourceLocation { start: keyword.loc.start, end: semi.loc.end },
                None => {
                    let el = expr.loc();
                    SourceLocation { start: keyword.loc.start, end: el.end }
                },
            },
            Stmt::Try(inner) => inner.loc(),
            Stmt::While(inner) => inner.loc(),
            Stmt::DoWhile(inner) => inner.loc(),
            Stmt::For(inner) => inner.loc(),
            Stmt::ForIn(inner) => inner.loc(),
            Stmt::ForOf(inner) => inner.loc(),
            Stmt::Var { decls, semi_colon } => {
                let dl = decls.loc();
                match semi_colon {
                    Some(semi) => SourceLocation { start: dl.start, end: semi.loc.end },
                    None => dl,
                }
            },
        }
    }

    proof fn lemma_loc_ordered(&self)
        decreases self,
    {
        match self {
            Stmt::Expr { .. } => {},
            Stmt::Block(inner) => inner.lemma_loc_ordered(),
            Stmt::Empty(_) => {},
            Stmt::Debugger { .. } => {},
            Stmt::With(inner) => inner.lemma_loc_ordered(),
            Stmt::Return { .. } => {},
            Stmt::Labeled(inner) => inner.lemma_loc_ordered(),
            Stmt::Break { .. } => {},
            Stmt::Continue { .. } => {},
            Stmt::If(inner) => inner.lemma_loc_ordered(),
            Stmt::Switch(inner) => inner.lemma_loc_ordered(),
            Stmt::Throw { .. } => {},
            Stmt::Try(inner) => inner.lemma_loc_ordered(),
            Stmt::While(inner) => inner.lemma_loc_ordered(),
            Stmt::DoWhile(inner) => inner.lemma_loc_ordered(),
            Stmt::For(inner) => inner.lemma_loc_ordered(),
            Stmt::ForIn(inner) => inner.lemma_loc_ordered(),
            Stmt::ForOf(inner) => inner.lemma_loc_ordered(),
            Stmt::Var { decls, semi_colon: _ } => decls.lemma_loc_ordered(),
        }
    }
}

/// A with statement: one object put at the top of the identifier search tree
/// for its body.
#[derive(Debug, PartialEq)]
pub struct WithStmt {
    pub keyword: Slice,
    pub open_paren: Slice,
    pub object: Expr,
    pub close_paren: Slice,
    pub body: Box<Stmt>,
}

impl Node for WithStmt {
    open spec fn wf(&self) -> bool
        decreases self,
    {
        &&& self.keyword.wf()
        &&& self.open_paren.wf()
        &&& self.object.wf()
        &&& self.close_paren.wf()
        &&& self.body.wf()
        &&& self.keyword.loc.end <= self.open_paren.loc.start
        &&& self.open_paren.loc.end <= self.object.loc_spec().start
        &&& self.object.loc_spec().end <= self.close_paren.loc.start
        &&& self.close_paren.loc.end <= self.body.loc_spec().start
    }

    open spec fn loc_spec(&self) -> SourceLocation
        decreases self,
    {
        SourceLocation { start: self.keyword.loc.start, end: self.body.loc_spec().end }
    }

    fn loc(&self) -> (loc: SourceLocation)
        decreases self,
    {
        let bl = self.body.loc();
        SourceLocation { start: self.keyword.loc.start, end: bl.end }
    }

    proof fn lemma_loc_ordered(&self)
        decreases self,
    {
        self.body.lemma_loc_ordered();
    }
}

/// A labeled statement.
#[derive(Debug, PartialEq)]
pub struct LabeledStmt {
    pub label: Ident,
    pub colon: Slice,
    pub body: Box<Stmt>,
}

impl Node for LabeledStmt {
    open spec fn wf(&self) -> bool
        decreases self,
    {
        &&& self.label.wf()
        &&& self.colon.wf()
        &&& self.body.wf()
        &&& self.label.loc_spec().end <= self.colon.loc.start
        &&& self.colon.loc.end <= self.body.loc_spec().start
    }

    open spec fn loc_spec(&self) -> SourceLocation
        decreases self,
    {
        SourceLocation { start: self.label.loc_spec().start, end: self.body.loc_spec().end }
    }

    fn loc(&self) -> (loc: SourceLocation)
        decreases self,
    {
        let ll = self.label.loc();
        let bl = self.body.loc();
        SourceLocation { start: ll.start, end: bl.end }
    }

    proof fn lemma_loc_ordered(&self)
        decreases self,
    {
        self.body.lemma_loc_ordered();
    }
}

/// An if statement.
#[derive(Debug, PartialEq)]
pub struct IfStmt {
    pub keyword: Slice,
    pub open_paren: Slice,
    pub test: Expr,
    pub close_paren: Slice,
    pub consequent: Box<Stmt>,
    pub alternate: Option<Box<ElseStmt>>,
}

impl Node for IfStmt {
    open spec fn wf(&self) -> bool
        decreases self,
    {
        &&& self.keyword.wf()
        &&& self.open_paren.wf()
        &&& self.test.wf()
        &&& self.close_paren.wf()
        &&& self.consequent.wf()
        &&& self.keyword.loc.end <= self.open_paren.loc.start
        &&& self.open_paren.loc.end <= self.test.loc_spec().start
        &&& self.test.loc_spec().end <= self.close_paren.loc.start
        &&& self.close_paren.loc.end <= self.consequent.loc_spec().start
        &&& match self.alternate {
            Some(alt) => alt.wf() && self.consequent.loc_spec().end <= alt.loc_spec().start,
            None => true,
        }
    }

    open spec fn loc_spec(&self) -> SourceLocation
        decreases self,
    {
        SourceLocation {
            start: self.keyword.loc.start,
            end: match self.alternate {
                Some(alt) => alt.loc_spec().end,
                None => self.consequent.loc_spec().end,
            },
        }
    }

    fn loc(&self) -> (loc: SourceLocation)
        decreases self,
    {
        let end = match &self.alternate {
            Some(alt) => alt.loc().end,
            None => self.consequent.loc().end,
        };
        SourceLocation { start: self.keyword.loc.start, end }
    }

    proof fn lemma_loc_ordered(&self)
        decreases self,
    {
        self.consequent.lemma_loc_ordered();
        match self.alternate {
            Some(alt) => alt.lemma_loc_ordered(),
            None => {},
        }
    }
}

/// The alternate clause of an if statement: the else keyword and its body.
#[derive(Debug, PartialEq)]
pub struct ElseStmt {
    pub keyword: Slice,
    pub body: Stmt,
}

impl Node for ElseStmt {
    open spec fn wf(&self) -> bool
        decreases self,
    {
        &&& self.keyword.wf()
        &&& self.body.wf()
        &&& self.keyword.loc.end <= self.body.loc_spec().start
    }

    open spec fn loc_spec(&self) -> SourceLocation
        decreases self,
    {
        SourceLocation { start: self.keyword.loc.start, end: self.body.loc_spec().end }
    }

    fn loc(&self) -> (loc: SourceLocation)
        decreases self,
    {
        let bl = self.body.loc();
        SourceLocation { start: self.keyword.loc.start, end: bl.end }
    }

    proof fn lemma_loc_ordered(&self)
        decreases self,
    {
        self.body.lemma_loc_ordered();
    }
}

/// Whether the elements of `cases` are well formed and follow one another in
/// source order, the first of them no earlier than the offset `prev_end`.
pub open spec fn cases_ordered_from(prev_end: int, cases: Seq<SwitchCase>) -> bool
    decreases cases,
{
    if cases.len() == 0 {
        true
    } else {
        &&& cases.first().wf()
        &&& prev_end <= cases.first().loc_spec().start
        &&& cases_ordered_from(cases.first().loc_spec().end as int, cases.drop_first())
    }
}

/// The end offset of the last element of `cases`, or `default` when `cases`
/// is empty.
pub open spec fn cases_last_end(cases: Seq<SwitchCase>, default: usize) -> usize
    decreases cases,
{
    if cases.len() == 0 {
        default
    } else {
        cases.last().loc_spec().end
    }
}

/// A switch statement.
#[derive(Debug, PartialEq)]
pub struct SwitchStmt {
    pub keyword: Slice,
    pub open_paren: Slice,
    pub discriminant: Expr,
    pub close_paren: Slice,
    pub open_brace: Slice,
    pub cases: Vec<SwitchCase>,
    pub close_brace: Slice,
}

impl Node for SwitchStmt {
    open spec fn wf(&self) -> bool
        decreases self,
    {
        &&& self.keyword.wf()
        &&& self.open_paren.wf()
        &&& self.discriminant.wf()
        &&& self.close_paren.wf()
        &&& self.open_brace.wf()
        &&& self.close_brace.wf()
        &&& self.keyword.loc.end <= self.open_paren.loc.start
        &&& self.open_paren.loc.end <= self.discriminant.loc_spec().start
        &&& self.discriminant.loc_spec().end <= self.close_paren.loc.start
        &&& self.close_paren.loc.end <= self.open_brace.loc.start
        &&& cases_ordered_from(self.open_brace.loc.end as int, self.cases@)
        &&& cases_last_end(self.cases@, self.open_brace.loc.end) <= self.close_brace.loc.start
    }

    open spec fn loc_spec(&self) -> SourceLocation
        decreases self,
    {
        SourceLocation { start: self.keyword.loc.start, end: self.close_paren.loc.end }
    }

    fn loc(&self) -> (loc: SourceLocation)
        decreases self,
    {
        SourceLocation { start: self.keyword.loc.start, end: self.close_paren.loc.end }
    }

    proof fn lemma_loc_ordered(&self)
        decreases self,
    {
    }
}

/// A single case of a switch statement.
#[derive(Debug, PartialEq)]
pub struct SwitchCase {
    pub keyword: Slice,
    pub test: Option<Expr>,
    pub colon: Slice,
    pub consequent: Vec<ProgramPart>,
}

impl Node for SwitchCase {
    open spec fn wf(&self) -> bool
        decreases self,
    {
        &&& self.keyword.wf()
        &&& self.colon.wf()
        &&& match self.test {
            Some(test) => {
                &&& test.wf()
                &&& self.keyword.loc.end <= test.loc_spec().start
                &&& test.loc_spec().end <= self.colon.loc.start
            },
            None => self.keyword.loc.end <= self.colon.loc.start,
        }
        &&& parts_ordered_from(self.colon.loc.end as int, self.consequent@)
    }

    open spec fn loc_spec(&self) -> SourceLocation
        decreases self,
    {
        SourceLocation {
            start: self.keyword.loc.start,
            end: parts_last_end(self.consequent@, self.colon.loc.end),
        }
    }

    fn loc(&self) -> (loc: SourceLocation)
        decreases self,
    {
        proof {
            lemma_parts_ordered(self.colon.loc.end as int, self.consequent@, self.colon.loc.end);
        }
        let end = if self.consequent.len() > 0 {
            let last = &self.consequent[self.consequent.len() - 1];
            proof {
                assert(self.consequent@[self.consequent@.len() - 1] == self.consequent@.last());
            }
            last.loc().end
        } else {
            self.colon.loc.end
        };
        SourceLocation { start: self.keyword.loc.start, end }
    }

    proof fn lemma_loc_ordered(&self)
        decreases self,
    {
        lemma_parts_ordered(self.colon.loc.end as int, self.consequent@, self.colon.loc.end);
    }
}

/// A collection of program parts wrapped in curly braces.
#[derive(Debug, PartialEq)]
pub struct BlockStmt {
    pub open_brace: Slice,
    pub stmts: Vec<ProgramPart>,
    pub close_brace: Slice,
}

impl Node for BlockStmt {
    open spec fn wf(&self) -> bool
        decreases self,
    {
        &&& self.open_brace.wf()
        &&& self.close_brace.wf()
        &&& parts_ordered_from(self.open_brace.loc.end as int, self.stmts@)
        &&& parts_last_end(self.stmts@, self.open_brace.loc.end) <= self.close_brace.loc.start
    }

    open spec fn loc_spec(&self) -> SourceLocation
        decreases self,
    {
        SourceLocation { start: self.open_brace.loc.start, end: self.close_brace.loc.end }
    }

    fn loc(&self) -> (loc: SourceLocation)
        decreases self,
    {
        SourceLocation { start: self.open_brace.loc.start, end: self.close_brace.loc.end }
    }

    proof fn lemma_loc_ordered(&self)
        decreases self,
    {
        lemma_parts_ordered(self.open_brace.loc.end as int, self.stmts@, self.open_brace.loc.end);
    }
}

/// A try/catch block.
#[derive(Debug, PartialEq)]
pub struct TryStmt {
    pub keyword: Slice,
    pub block: BlockStmt,
    pub handler: Option<CatchClause>,
    pub finalizer: Option<FinallyClause>,
}

impl Node for TryStmt {
    open spec fn wf(&self) -> bool
        decreases self,
    {
        &&& self.keyword.wf()
        &&& self.block.wf()
        &&& self.keyword.loc.end <= self.block.loc_spec().start
        &&& match self.handler {
            Some(handler) => {
                &&& handler.wf()
                &&& self.block.loc_spec().end <= handler.loc_spec().start
            },
            None => true,
        }
        &&& match self.finalizer {
            Some(finalizer) => {
                &&& finalizer.wf()
                &&& match self.handler {
                    Some(handler) => handler.loc_spec().end <= finalizer.loc_spec().start,
                    None => self.block.loc_spec().end <= finalizer.loc_spec().start,
                }
            },
            None => true,
        }
    }

    open spec fn loc_spec(&self) -> SourceLocation
        decreases self,
    {
        SourceLocation {
            start: self.keyword.loc.start,
            end: match self.finalizer {
                Some(finalizer) => finalizer.loc_spec().end,
                None => match self.handler {
                    Some(handler) => handler.loc_spec().end,
                    None => self.block.loc_spec().end,
                },
            },
        }
    }

    fn loc(&self) -> (loc: SourceLocation)
        decreases self,
    {
        let end = match &self.finalizer {
            Some(finalizer) => finalizer.loc().end,
            None => match &self.handler {
                Some(handler) => handler.loc().end,
                None => self.block.loc().end,
            },
        };
        SourceLocation { start: self.keyword.loc.start, end }
    }

    proof fn lemma_loc_ordered(&self)
        decreases self,
    {
        self.block.lemma_loc_ordered();
        match self.handler {
            Some(handler) => handler.lemma_loc_ordered(),
            None => {},
        }
        match self.finalizer {
            Some(finalizer) => finalizer.lemma_loc_ordered(),
            None => {},
        }
    }
}

/// The error handling part of a try statement.
#[derive(Debug, PartialEq)]
pub struct CatchClause {
    pub keyword: Slice,
    pub param: Option<CatchArg>,
    pub body: BlockStmt,
}

impl Node for CatchClause {
    open spec fn wf(&self) -> bool
        decreases self,
    {
        &&& self.keyword.wf()
        &&& self.body.wf()
        &&& match self.param {
            Some(param) => {
                &&& param.wf()
                &&& self.keyword.loc.end <= param.loc_spec().start
                &&& param.loc_spec().end <= self.body.loc_spec().start
            },
            None => self.keyword.loc.end <= self.body.loc_spec().start,
        }
    }

    open spec fn loc_spec(&self) -> SourceLocation
        decreases self,
    {
        SourceLocation { start: self.keyword.loc.start, end: self.body.loc_spec().end }
    }

    fn loc(&self) -> (loc: SourceLocation)
        decreases self,
    {
        let bl = self.body.loc();
        SourceLocation { start: self.keyword.loc.start, end: bl.end }
    }

    proof fn lemma_loc_ordered(&self)
        decreases self,
    {
        self.body.lemma_loc_ordered();
    }
}

/// The parenthesized binding of a catch clause.
#[derive(Debug, PartialEq)]
pub struct CatchArg {
    pub open_paren: Slice,
    pub param: Pat,
    pub close_paren: Slice,
}

impl Node for CatchArg {
    open spec fn wf(&self) -> bool {
        &&& self.open_paren.wf()
        &&& self.param.wf()
        &&& self.close_paren.wf()
        &&& self.open_paren.loc.end <= self.param.loc_spec().start
        &&& self.param.loc_spec().end <= self.close_paren.loc.start
    }

    open spec fn loc_spec(&self) -> SourceLocation {
        SourceLocation { start: self.open_paren.loc.start, end: self.close_paren.loc.end }
    }

    fn loc(&self) -> (loc: SourceLocation) {
        SourceLocation { start: self.open_paren.loc.start, end: self.close_paren.loc.end }
    }

    proof fn lemma_loc_ordered(&self) {
    }
}

/// The cleanup part of a try statement.
#[derive(Debug, PartialEq)]
pub struct FinallyClause {
    pub keyword: Slice,
    pub body: BlockStmt,
}

impl Node for FinallyClause {
    open spec fn wf(&self) -> bool
        decreases self,
    {
        &&& self.keyword.wf()
        &&& self.body.wf()
        &&& self.keyword.loc.end <= self.body.loc_spec().start
    }

    open spec fn loc_spec(&self) -> SourceLocation
        decreases self,
    {
        SourceLocation { start: self.keyword.loc.start, end: self.body.loc_spec().end }
    }

    fn loc(&self) -> (loc: SourceLocation)
        decreases self,
    {
        let bl = self.body.loc();
        SourceLocation { start: self.keyword.loc.start, end: bl.end }
    }

    proof fn lemma_loc_ordered(&self)
        decreases self,
    {
        self.body.lemma_loc_ordered();
    }
}

/// A while loop.
#[derive(Debug, PartialEq)]
pub struct WhileStmt {
    pub keyword: Slice,
    pub open_paren: Slice,
    pub test: Expr,
    pub close_paren: Slice,
    pub body: Box<Stmt>,
}

impl Node for WhileStmt {
    open spec fn wf(&self) -> bool
        decreases self,
    {
        &&& self.keyword.wf()
        &&& self.open_paren.wf()
        &&& self.test.wf()
        &&& self.close_paren.wf()
        &&& self.body.wf()
        &&& self.keyword.loc.end <= self.open_paren.loc.start
        &&& self.open_paren.loc.end <= self.test.loc_spec().start
        &&& self.test.loc_spec().end <= self.close_paren.loc.start
        &&& self.close_paren.loc.end <= self.body.loc_spec().start
    }

    open spec fn loc_spec(&self) -> SourceLocation
        decreases self,
    {
        SourceLocation { start: self.keyword.loc.start, end: self.body.loc_spec().end }
    }

    fn loc(&self) -> (loc: SourceLocation)
        decreases self,
    {
        let bl = self.body.loc();
        SourceLocation { start: self.keyword.loc.start, end: bl.end }
    }

    proof fn lemma_loc_ordered(&self)
        decreases self,
    {
        self.body.lemma_loc_ordered();
    }
}

/// A while loop that executes its body first.
#[derive(Debug, PartialEq)]
pub struct DoWhileStmt {
    pub keyword_do: Slice,
    pub body: Box<Stmt>,
    pub keyword_while: Slice,
    pub open_paren: Slice,
    pub test: Expr,
    pub close_paren: Slice,
    pub semi_colon: Option<Slice>,
}

impl Node for DoWhileStmt {
    open spec fn wf(&self) -> bool
        decreases self,
    {
        &&& self.keyword_do.wf()
        &&& self.body.wf()
        &&& self.keyword_while.wf()
        &&& self.open_paren.wf()
        &&& self.test.wf()
        &&& self.close_paren.wf()
        &&& self.keyword_do.loc.end <= self.body.loc_spec().start
        &&& self.body.loc_spec().end <= self.keyword_while.loc.start
        &&& self.keyword_while.loc.end <= self.open_paren.loc.start
        &&& self.open_paren.loc.end <= self.test.loc_spec().start
        &&& self.test.loc_spec().end <= self.close_paren.loc.start
        &&& match self.semi_colon {
            Some(semi) => semi.wf() && self.close_paren.loc.end <= semi.loc.start,
            None => true,
        }
    }

    open spec fn loc_spec(&self) -> SourceLocation
        decreases self,
    {
        SourceLocation { start: self.keyword_do.loc.start, end: self.close_paren.loc.end }
    }

    fn loc(&self) -> (loc: SourceLocation)
        decreases self,
    {
        SourceLocation { start: self.keyword_do.loc.start, end: self.close_paren.loc.end }
    }

    proof fn lemma_loc_ordered(&self)
        decreases self,
    {
        self.body.lemma_loc_ordered();
    }
}

/// A c-style for loop.
#[derive(Debug, PartialEq)]
pub struct ForStmt {
    pub keyword: Slice,
    pub open_paren: Slice,
    pub init: Option<LoopInit>,
    pub semi1: Slice,
    pub test: Option<Expr>,
    pub semi2: Slice,
    pub update: Option<Expr>,
    pub close_paren: Slice,
    pub body: Box<Stmt>,
}

impl Node for ForStmt {
    open spec fn wf(&self) -> bool
        decreases self,
    {
        &&& self.keyword.wf()
        &&& self.open_paren.wf()
        &&& self.semi1.wf()
        &&& self.semi2.wf()
        &&& self.close_paren.wf()
        &&& self.body.wf()
        &&& self.keyword.loc.end <= self.open_paren.loc.start
        &&& match self.init {
            Some(init) => {
                &&& init.wf()
                &&& self.open_paren.loc.end <= init.loc_spec().start
                &&& init.loc_spec().end <= self.semi1.loc.start
            },
            None => self.open_paren.loc.end <= self.semi1.loc.start,
        }
        &&& match self.test {
            Some(test) => {
                &&& test.wf()
                &&& self.semi1.loc.end <= test.loc_spec().start
                &&& test.loc_spec().end <= self.semi2.loc.start
            },
            None => self.semi1.loc.end <= self.semi2.loc.start,
        }
        &&& match self.update {
            Some(update) => {
                &&& update.wf()
                &&& self.semi2.loc.end <= update.loc_spec().start
                &&& update.loc_spec().end <= self.close_paren.loc.start
            },
            None => self.semi2.loc.end <= self.close_paren.loc.start,
        }
        &&& self.close_paren.loc.end <= self.body.loc_spec().start
    }

    open spec fn loc_spec(&self) -> SourceLocation
        decreases self,
    {
        SourceLocation { start: self.keyword.loc.start, end: self.body.loc_spec().end }
    }

    fn loc(&self) -> (loc: SourceLocation)
        decreases self,
    {
        let bl = self.body.loc();
        SourceLocation { start: self.keyword.loc.start, end: bl.end }
    }

    proof fn lemma_loc_ordered(&self)
        decreases self,
    {
        match &self.init {
            Some(init) => init.lemma_loc_ordered(),
            None => {},
        }
        self.body.lemma_loc_ordered();
    }
}

/// The leftmost part of a c-style for loop's parenthetical: a declaration
/// list or a plain expression.
#[derive(Debug, PartialEq)]
pub enum LoopInit {
    Variable(VarKind, Vec<ListEntry>),
    Expr(Expr),
}

impl Node for LoopInit {
    open spec fn wf(&self) -> bool
        decreases self,
    {
        match self {
            LoopInit::Variable(kind, decls) => {
                &&& kind.wf()
                &&& entries_ordered_from(kind.loc_spec().end as int, decls@)
            },
            LoopInit::Expr(expr) => expr.wf(),
        }
    }

    open spec fn loc_spec(&self) -> SourceLocation
        decreases self,
    {
        match self {
            LoopInit::Variable(kind, decls) => {
                if decls@.len() > 0 {
                    SourceLocation {
                        start: kind.loc_spec().start,
                        end: decls@.last().loc_spec().end,
                    }
                } else {
                    kind.loc_spec()
                }
            },
            LoopInit::Expr(expr) => expr.loc_spec(),
        }
    }

    fn loc(&self) -> (loc: SourceLocation)
        decreases self,
    {
        match self {
            LoopInit::Variable(kind, decls) => {
                proof {
                    lemma_entries_ordered(kind.loc_spec().end as int, decls@, kind.loc_spec().end);
                }
                if decls.len() > 0 {
                    let last = &decls[decls.len() - 1];
                    proof {
                        assert(decls@[decls@.len() - 1] == decls@.last());
                    }
                    let ll = last.loc();
                    SourceLocation { start: kind.slice.loc.start, end: ll.end }
                } else {
                    kind.loc()
                }
            },
            LoopInit::Expr(expr) => expr.loc(),
        }
    }

    proof fn lemma_loc_ordered(&self)
        decreases self,
    {
        match self {
            LoopInit::Variable(kind, decls) => {
                lemma_entries_ordered(kind.loc_spec().end as int, decls@, kind.loc_spec().end);
            },
            LoopInit::Expr(_) => {},
        }
    }
}

/// A for-in loop over the keys of an indexable thing.
#[derive(Debug, PartialEq)]
pub struct ForInStmt {
    pub keyword_for: Slice,
    pub open_paren: Slice,
    pub left: LoopLeft,
    pub keyword_in: Slice,
    pub right: Expr,
    pub close_paren: Slice,
    pub body: Box<Stmt>,
}

impl Node for ForInStmt {
    open spec fn wf(&self) -> bool
        decreases self,
    {
        &&& self.keyword_for.wf()
        &&& self.open_paren.wf()
        &&& self.left.wf()
        &&& self.keyword_in.wf()
        &&& self.right.wf()
        &&& self.close_paren.wf()
        &&& self.body.wf()
        &&& self.keyword_for.loc.end <= self.open_paren.loc.start
        &&& self.open_paren.loc.end <= self.left.loc_spec().start
        &&& self.left.loc_spec().end <= self.keyword_in.loc.start
        &&& self.keyword_in.loc.end <= self.right.loc_spec().start
        &&& self.right.loc_spec().end <= self.close_paren.loc.start
        &&& self.close_paren.loc.end <= self.body.loc_spec().start
    }

    open spec fn loc_spec(&self) -> SourceLocation
        decreases self,
    {
        SourceLocation { start: self.keyword_for.loc.start, end: self.body.loc_spec().end }
    }

    fn loc(&self) -> (loc: SourceLocation)
        decreases self,
    {
        let bl = self.body.loc();
        SourceLocation { start: self.keyword_for.loc.start, end: bl.end }
    }

    proof fn lemma_loc_ordered(&self)
        decreases self,
    {
        self.body.lemma_loc_ordered();
    }
}

/// A for-of loop over the values of an iterable thing.
#[derive(Debug, PartialEq)]
pub struct ForOfStmt {
    pub keyword_for: Slice,
    pub open_paren: Slice,
    pub left: LoopLeft,
    pub keyword_of: Slice,
    pub right: Expr,
    pub close_paren: Slice,
    pub body: Box<Stmt>,
    pub is_await: bool,
}

impl Node for ForOfStmt {
    open spec fn wf(&self) -> bool
        decreases self,
    {
        &&& self.keyword_for.wf()
        &&& self.open_paren.wf()
        &&& self.left.wf()
        &&& self.keyword_of.wf()
        &&& self.right.wf()
        &&& self.close_paren.wf()
        &&& self.body.wf()
        &&& self.keyword_for.loc.end <= self.open_paren.loc.start
        &&& self.open_paren.loc.end <= self.left.loc_spec().start
        &&& self.left.loc_spec().end <= self.keyword_of.loc.start
        &&& self.keyword_of.loc.end <= self.right.loc_spec().start
        &&& self.right.loc_spec().end <= self.close_paren.loc.start
        &&& self.close_paren.loc.end <= self.body.loc_spec().start
    }

    open spec fn loc_spec(&self) -> SourceLocation
        decreases self,
    {
        SourceLocation { start: self.keyword_for.loc.start, end: self.body.loc_spec().end }
    }

    fn loc(&self) -> (loc: SourceLocation)
        decreases self,
    {
        let bl = self.body.loc();
        SourceLocation { start: self.keyword_for.loc.start, end: bl.end }
    }

    proof fn lemma_loc_ordered(&self)
        decreases self,
    {
        self.body.lemma_loc_ordered();
    }
}

/// The values on the left-hand side of the keyword in a for-in or for-of
/// loop.
#[derive(Debug, PartialEq)]
pub enum LoopLeft {
    Expr(Expr),
    Variable(VarKind, VarDecl),
    Pat(Pat),
}

impl Node for LoopLeft {
    open spec fn wf(&self) -> bool {
        match self {
            LoopLeft::Expr(expr) => expr.wf(),
            LoopLeft::Variable(kind, decl) => {
                &&& kind.wf()
                &&& decl.wf()
                &&& kind.loc_spec().end <= decl.loc_spec().start
            },
            LoopLeft::Pat(pat) => pat.wf(),
        }
    }

    open spec fn loc_spec(&self) -> SourceLocation {
        match self {
            LoopLeft::Expr(expr) => expr.loc_spec(),
            LoopLeft::Variable(kind, decl) => SourceLocation {
                start: kind.loc_spec().start,
                end: decl.loc_spec().end,
            },
            LoopLeft::Pat(pat) => pat.loc_spec(),
        }
    }

    fn loc(&self) -> (loc: SourceLocation) {
        match self {
            LoopLeft::Expr(expr) => expr.loc(),
            LoopLeft::Variable(kind, decl) => SourceLocation {
                start: kind.slice.loc.start,
                end: decl.slice.loc.end,
            },
            LoopLeft::Pat(pat) => pat.loc(),
        }
    }

    proof fn lemma_loc_ordered(&self) {
    }
}

impl Stmt {
    /// The variant this statement falls under.
    pub open spec fn kind(self) -> crate::stmt::StmtKind {
        match self {
            Stmt::Expr { .. } => crate::stmt::StmtKind::Expr,
            Stmt::Block(_) => crate::stmt::StmtKind::Block,
            Stmt::Empty(_) => crate::stmt::StmtKind::Empty,
            Stmt::Debugger { .. } => crate::stmt::StmtKind::Debugger,
            Stmt::With(_) => crate::stmt::StmtKind::With,
            Stmt::Return { .. } => crate::stmt::StmtKind::Return,
            Stmt::Labeled(_) => crate::stmt::StmtKind::Labeled,
            Stmt::Break { .. } => crate::stmt::StmtKind::Break,
            Stmt::Continue { .. } => crate::stmt::StmtKind::Continue,
            Stmt::If(_) => crate::stmt::StmtKind::If,
            Stmt::Switch(_) => crate::stmt::StmtKind::Switch,
            Stmt::Throw { .. } => crate::stmt::StmtKind::Throw,
            Stmt::Try(_) => crate::stmt::StmtKind::Try,
            Stmt::While(_) => crate::stmt::StmtKind::While,
            Stmt::DoWhile(_) => crate::stmt::StmtKind::DoWhile,
            Stmt::For(_) => crate::stmt::StmtKind::For,
            Stmt::ForIn(_) => crate::stmt::StmtKind::ForIn,
            Stmt::ForOf(_) => crate::stmt::StmtKind::ForOf,
            Stmt::Var { .. } => crate::stmt::StmtKind::Var,
        }
    }

    /// The allocated counterpart of this statement: the same variant shape
    /// with every keyword, delimiter and optional terminator dropped.
    pub open spec fn into_allocated_spec(self) -> crate::stmt::SpecStmt
        decreases self,
    {
        match self {
            Stmt::Expr { expr, semi_colon: _ } => crate::stmt::SpecStmt::Expr(
                expr.into_allocated_spec(),
            ),
            Stmt::Block(inner) => crate::stmt::SpecStmt::Block(inner.into_allocated_spec()),
            Stmt::Empty(_) => crate::stmt::SpecStmt::Empty,
            Stmt::Debugger { keyword: _, semi_colon: _ } => crate::stmt::SpecStmt::Debugger,
            Stmt::With(inner) => crate::stmt::SpecStmt::With(inner.into_allocated_spec()),
            Stmt::Return { keyword: _, value, semi_colon: _ } => crate::stmt::SpecStmt::Return(
                match value {
                    Some(value) => Some(value.into_allocated_spec()),
                    None => None,
                },
            ),
            Stmt::Labeled(inner) => crate::stmt::SpecStmt::Labeled(inner.into_allocated_spec()),
            Stmt::Break { keyword: _, label, semi_colon: _ } => crate::stmt::SpecStmt::Break(
                match label {
                    Some(label) => Some(label.into_allocated_spec()),
                    None => None,
                },
            ),
            Stmt::Continue { keyword: _, label, semi_colon: _ } => crate::stmt::SpecStmt::Continue(
                match label {
                    Some(label) => Some(label.into_allocated_spec()),
                    None => None,
                },
            ),
            Stmt::If(inner) => crate::stmt::SpecStmt::If(inner.into_allocated_spec()),
            Stmt::Switch(inner) => crate::stmt::SpecStmt::Switch(inner.into_allocated_spec()),
            Stmt::Throw { keyword: _, expr, semi_colon: _ } => crate::stmt::SpecStmt::Throw(
                expr.into_allocated_spec(),
            ),
            Stmt::Try(inner) => crate::stmt::SpecStmt::Try(inner.into_allocated_spec()),
            Stmt::While(inner) => crate::stmt::SpecStmt::While(inner.into_allocated_spec()),
            Stmt::DoWhile(inner) => crate::stmt::SpecStmt::DoWhile(inner.into_allocated_spec()),
            Stmt::For(inner) => crate::stmt::SpecStmt::For(inner.into_allocated_spec()),
            Stmt::ForIn(inner) => crate::stmt::SpecStmt::ForIn(inner.into_allocated_spec()),
            Stmt::ForOf(inner) => crate::stmt::SpecStmt::ForOf(inner.into_allocated_spec()),
            Stmt::Var { decls, semi_colon: _ } => crate::stmt::SpecStmt::Var(
                decls.into_allocated_spec(),
            ),
        }
    }

    /// Convert into the allocated form, consuming this statement.
    pub fn into_allocated(self) -> (r: crate::stmt::Stmt)
        ensures
            r@ == self.into_allocated_spec(),
        decreases self,
    {
        match self {
            Stmt::Expr { expr, semi_colon: _ } => crate::stmt::Stmt::Expr(expr.into_allocated()),
            Stmt::Block(inner) => crate::stmt::Stmt::Block(inner.into_allocated()),
            Stmt::Empty(_) => crate::stmt::Stmt::Empty,
            Stmt::Debugger { keyword: _, semi_colon: _ } => crate::stmt::Stmt::Debugger,
            Stmt::With(inner) => crate::stmt::Stmt::With(inner.into_allocated()),
            Stmt::Return { keyword: _, value, semi_colon: _ } => crate::stmt::Stmt::Return(
                match value {
                    Some(value) => Some(value.into_allocated()),
                    None => None,
                },
            ),
            Stmt::Labeled(inner) => crate::stmt::Stmt::Labeled(inner.into_allocated()),
            Stmt::Break { keyword: _, label, semi_colon: _ } => crate::stmt::Stmt::Break(
                match label {
                    Some(label) => Some(label.into_allocated()),
                    None => None,
                },
            ),
            Stmt::Continue { keyword: _, label, semi_colon: _ } => crate::stmt::Stmt::Continue(
                match label {
                    Some(label) => Some(label.into_allocated()),
                    None => None,
                },
            ),
            Stmt::If(inner) => crate::stmt::Stmt::If(inner.into_allocated()),
            Stmt::Switch(inner) => crate::stmt::Stmt::Switch(inner.into_allocated()),
            Stmt::Throw { keyword: _, expr, semi_colon: _ } => crate::stmt::Stmt::Throw(
                expr.into_allocated(),
            ),
            Stmt::Try(inner) => crate::stmt::Stmt::Try(inner.into_allocated()),
            Stmt::While(inner) => crate::stmt::Stmt::While(inner.into_allocated()),
            Stmt::DoWhile(inner) => crate::stmt::Stmt::DoWhile(inner.into_allocated()),
            Stmt::For(inner) => crate::stmt::Stmt::For(inner.into_allocated()),
            Stmt::ForIn(inner) => crate::stmt::Stmt::ForIn(inner.into_allocated()),
            Stmt::ForOf(inner) => crate::stmt::Stmt::ForOf(inner.into_allocated()),
            Stmt::Var { decls, semi_colon: _ } => crate::stmt::Stmt::Var(decls.into_allocated()),
        }
    }
}

impl WithStmt {
    /// The allocated counterpart: the object and the converted body.
    pub open spec fn into_allocated_spec(self) -> crate::stmt::SpecWithStmt
        decreases self,
    {
        crate::stmt::SpecWithStmt {
            object: self.object.into_allocated_spec(),
            body: Box::new(self.body.into_allocated_spec()),
        }
    }

    /// Convert into the allocated form, dropping the keyword and parentheses.
    pub fn into_allocated(self) -> (r: crate::stmt::WithStmt)
        ensures
            r@ == self.into_allocated_spec(),
        decreases self,
    {
        crate::stmt::WithStmt {
            object: self.object.into_allocated(),
            body: Box::new((*self.body).into_allocated()),
        }
    }
}

impl LabeledStmt {
    /// The allocated counterpart: the label and the converted body.
    pub open spec fn into_allocated_spec(self) -> crate::stmt::SpecLabeledStmt
        decreases self,
    {
        crate::stmt::SpecLabeledStmt {
            label: self.label.into_allocated_spec(),
            body: Box::new(self.body.into_allocated_spec()),
        }
    }

    /// Convert into the allocated form, dropping the colon.
    pub fn into_allocated(self) -> (r: crate::stmt::LabeledStmt)
        ensures
            r@ == self.into_allocated_spec(),
        decreases self,
    {
        crate::stmt::LabeledStmt {
            label: self.label.into_allocated(),
            body: Box::new((*self.body).into_allocated()),
        }
    }
}

impl IfStmt {
    /// The allocated counterpart: the test, the converted consequent, and
    /// the converted alternate body when one is present; the else keyword is
    /// unwrapped away.
    pub open spec fn into_allocated_spec(self) -> crate::stmt::SpecIfStmt
        decreases self,
    {
        crate::stmt::SpecIfStmt {
            test: self.test.into_allocated_spec(),
            consequent: Box::new(self.consequent.into_allocated_spec()),
            alternate: match self.alternate {
                Some(alt) => Some(Box::new(alt.body.into_allocated_spec())),
                None => None,
            },
        }
    }

    /// Convert into the allocated form, dropping the keywords and
    /// parentheses.
    pub fn into_allocated(self) -> (r: crate::stmt::IfStmt)
        ensures
            r@ == self.into_allocated_spec(),
        decreases self,
    {
        crate::stmt::IfStmt {
            test: self.test.into_allocated(),
            consequent: Box::new((*self.consequent).into_allocated()),
            alternate: match self.alternate {
                Some(alt) => Some(Box::new((*alt).body.into_allocated())),
                None => None,
            },
        }
    }
}

impl SwitchStmt {
    /// The allocated counterpart: the discriminant and the converted cases,
    /// in order.
    pub open spec fn into_allocated_spec(self) -> crate::stmt::SpecSwitchStmt
        decreases self,
    {
        crate::stmt::SpecSwitchStmt {
            discriminant: self.discriminant.into_allocated_spec(),
            cases: cases_into_allocated_spec(self.cases@),
        }
    }

    /// Convert into the allocated form, dropping the keyword, parentheses
    /// and braces.
    pub fn into_allocated(self) -> (r: crate::stmt::SwitchStmt)
        ensures
            r@ == self.into_allocated_spec(),
        decreases self,
    {
        crate::stmt::SwitchStmt {
            discriminant: self.discriminant.into_allocated(),
            cases: cases_into_allocated(self.cases),
        }
    }
}

/// The elementwise conversion of a sequence of switch cases, in order.
pub open spec fn cases_into_allocated_spec(cases: Seq<SwitchCase>) -> Seq<
    crate::stmt::SpecSwitchCase,
>
    decreases cases,
{
    if cases.len() == 0 {
        Seq::empty()
    } else {
        cases_into_allocated_spec(cases.drop_last()).push(cases.last().into_allocated_spec())
    }
}

/// Converting a sequence of cases keeps its length and converts each case in
/// place.
pub proof fn lemma_cases_into_allocated_elementwise(cases: Seq<SwitchCase>)
    ensures
        cases_into_allocated_spec(cases).len() == cases.len(),
        forall|i: int|
            0 <= i < cases.len() ==> cases_into_allocated_spec(cases)[i] == (
            #[trigger] cases[i]).into_allocated_spec(),
    decreases cases,
{
    if cases.len() > 0 {
        lemma_cases_into_allocated_elementwise(cases.drop_last());
        assert forall|i: int|
            0 <= i < cases.len() implies cases_into_allocated_spec(cases)[i] == (
        #[trigger] cases[i]).into_allocated_spec() by {
            if i < cases.len() - 1 {
                assert(cases[i] == cases.drop_last()[i]);
            } else {
                assert(cases[i] == cases.last());
            }
        }
    }
}

/// Convert every case, keeping their order.
pub fn cases_into_allocated(mut cases: Vec<SwitchCase>) -> (r: Vec<crate::stmt::SwitchCase>)
    ensures
        crate::stmt::cases_view(r@) == cases_into_allocated_spec(cases@),
    decreases cases@,
{
    let ghost orig = cases@;
    match cases.pop() {
        None => {
            let r = Vec::new();
            proof {
                assert(crate::stmt::cases_view(r@) =~= cases_into_allocated_spec(orig));
            }
            r
        }
        Some(last) => {
            let a = last.into_allocated();
            let mut r = cases_into_allocated(cases);
            let ghost before = r@;
            r.push(a);
            proof {
                assert(cases@ == orig.drop_last());
                assert(last == orig.last());
                assert(r@.drop_last() =~= before);
                assert(r@.last() == a);
            }
            r
        }
    }
}

impl SwitchCase {
    /// The allocated counterpart: the optional test and the converted
    /// consequent parts, in order.
    pub open spec fn into_allocated_spec(self) -> crate::stmt::SpecSwitchCase
        decreases self,
    {
        crate::stmt::SpecSwitchCase {
            test: match self.test {
                Some(test) => Some(test.into_allocated_spec()),
                None => None,
            },
            consequent: crate::spanned::parts_into_allocated_spec(self.consequent@),
        }
    }

    /// Convert into the allocated form, dropping the keyword and the colon.
    pub fn into_allocated(self) -> (r: crate::stmt::SwitchCase)
        ensures
            r@ == self.into_allocated_spec(),
        decreases self,
    {
        crate::stmt::SwitchCase {
            test: match self.test {
                Some(test) => Some(test.into_allocated()),
                None => None,
            },
            consequent: crate::spanned::parts_into_allocated(self.consequent),
        }
    }
}

impl BlockStmt {
    /// The allocated counterpart: the converted parts, in order.
    pub open spec fn into_allocated_spec(self) -> crate::stmt::SpecBlockStmt
        decreases self,
    {
        crate::stmt::SpecBlockStmt(crate::spanned::parts_into_allocated_spec(self.stmts@))
    }

    /// Convert into the allocated form, dropping the braces.
    pub fn into_allocated(self) -> (r: crate::stmt::BlockStmt)
        ensures
            r@ == self.into_allocated_spec(),
        decreases self,
    {
        crate::stmt::BlockStmt(crate::spanned::parts_into_allocated(self.stmts))
    }
}

impl TryStmt {
    /// The allocated counterpart: the converted block and, when present, the
    /// converted handler and finalizer.
    pub open spec fn into_allocated_spec(self) -> crate::stmt::SpecTryStmt
        decreases self,
    {
        crate::stmt::SpecTryStmt {
            block: self.block.into_allocated_spec(),
            handler: match self.handler {
                Some(handler) => Some(handler.into_allocated_spec()),
                None => None,
            },
            finalizer: match self.finalizer {
                Some(finalizer) => Some(finalizer.into_allocated_spec()),
                None => None,
            },
        }
    }

    /// Convert into the allocated form, dropping the keyword.
    pub fn into_allocated(self) -> (r: crate::stmt::TryStmt)
        ensures
            r@ == self.into_allocated_spec(),
        decreases self,
    {
        crate::stmt::TryStmt {
            block: self.block.into_allocated(),
            handler: match self.handler {
                Some(handler) => Some(handler.into_allocated()),
                None => None,
            },
            finalizer: match self.finalizer {
                Some(finalizer) => Some(finalizer.into_allocated()),
                None => None,
            },
        }
    }
}

impl CatchClause {
    /// The allocated counterpart: the unwrapped binding, when one is
    /// present, and the converted body.
    pub open spec fn into_allocated_spec(self) -> crate::stmt::SpecCatchClause
        decreases self,
    {
        crate::stmt::SpecCatchClause {
            param: match self.param {
                Some(param) => Some(param.into_allocated_spec()),
                None => None,
            },
            body: self.body.into_allocated_spec(),
        }
    }

    /// Convert into the allocated form, dropping the keyword.
    pub fn into_allocated(self) -> (r: crate::stmt::CatchClause)
        ensures
            r@ == self.into_allocated_spec(),
        decreases self,
    {
        crate::stmt::CatchClause {
            param: match self.param {
                Some(param) => Some(param.into_allocated()),
                None => None,
            },
            body: self.body.into_allocated(),
        }
    }
}

impl CatchArg {
    /// The allocated counterpart: the plain binding, its parentheses
    /// unwrapped away.
    pub open spec fn into_allocated_spec(self) -> Seq<char> {
        self.param.into_allocated_spec()
    }

    /// Convert into the allocated form, unwrapping to the plain binding.
    pub fn into_allocated(self) -> (r: crate::Pat)
        ensures
            r@ == self.into_allocated_spec(),
    {
        self.param.into_allocated()
    }
}

impl FinallyClause {
    /// The allocated counterpart: the converted body alone, the keyword
    /// unwrapped away.
    pub open spec fn into_allocated_spec(self) -> crate::stmt::SpecBlockStmt
        decreases self,
    {
        self.body.into_allocated_spec()
    }

    /// Convert into the allocated form, unwrapping to the plain block.
    pub fn into_allocated(self) -> (r: crate::stmt::BlockStmt)
        ensures
            r@ == self.into_allocated_spec(),
        decreases self,
    {
        self.body.into_allocated()
    }
}

impl WhileStmt {
    /// The allocated counterpart: the test and the converted body.
    pub open spec fn into_allocated_spec(self) -> crate::stmt::SpecWhileStmt
        decreases self,
    {
        crate::stmt::SpecWhileStmt {
            test: self.test.into_allocated_spec(),
            body: Box::new(self.body.into_allocated_spec()),
        }
    }

    /// Convert into the allocated form, dropping the keyword and
    /// parentheses.
    pub fn into_allocated(self) -> (r: crate::stmt::WhileStmt)
        ensures
            r@ == self.into_allocated_spec(),
        decreases self,
    {
        crate::stmt::WhileStmt {
            test: self.test.into_allocated(),
            body: Box::new((*self.body).into_allocated()),
        }
    }
}

impl DoWhileStmt {
    /// The allocated counterpart: the test and the converted body.
    pub open spec fn into_allocated_spec(self) -> crate::stmt::SpecDoWhileStmt
        decreases self,
    {
        crate::stmt::SpecDoWhileStmt {
            test: self.test.into_allocated_spec(),
            body: Box::new(self.body.into_allocated_spec()),
        }
    }

    /// Convert into the allocated form, dropping the keywords, parentheses
    /// and optional terminator.
    pub fn into_allocated(self) -> (r: crate::stmt::DoWhileStmt)
        ensures
            r@ == self.into_allocated_spec(),
        decreases self,
    {
        crate::stmt::DoWhileStmt {
            test: self.test.into_allocated(),
            body: Box::new((*self.body).into_allocated()),
        }
    }
}

impl ForStmt {
    /// The allocated counterpart: the three optional header parts and the
    /// converted body.
    pub open spec fn into_allocated_spec(self) -> crate::stmt::SpecForStmt
        decreases self,
    {
        crate::stmt::SpecForStmt {
            init: match self.init {
                Some(init) => Some(init.into_allocated_spec()),
                None => None,
            },
            test: match self.test {
                Some(test) => Some(test.into_allocated_spec()),
                None => None,
            },
            update: match self.update {
                Some(update) => Some(update.into_allocated_spec()),
                None => None,
            },
            body: Box::new(self.body.into_allocated_spec()),
        }
    }

    /// Convert into the allocated form, dropping the keyword, parentheses
    /// and the two header separators.
    pub fn into_allocated(self) -> (r: crate::stmt::ForStmt)
        ensures
            r@ == self.into_allocated_spec(),
        decreases self,
    {
        crate::stmt::ForStmt {
            init: match self.init {
                Some(init) => Some(init.into_allocated()),
                None => None,
            },
            test: match self.test {
                Some(test) => Some(test.into_allocated()),
                None => None,
            },
            update: match self.update {
                Some(update) => Some(update.into_allocated()),
                None => None,
            },
            body: Box::new((*self.body).into_allocated()),
        }
    }
}

impl LoopInit {
    /// The allocated counterpart: the declaration kind with its plain
    /// declarators, or the plain expression.
    pub open spec fn into_allocated_spec(self) -> crate::stmt::SpecLoopInit
        decreases self,
    {
        match self {
            LoopInit::Variable(kind, decls) => crate::stmt::SpecLoopInit::Variable(
                kind.into_allocated_spec(),
                crate::spanned::entries_into_allocated_spec(decls@),
            ),
            LoopInit::Expr(expr) => crate::stmt::SpecLoopInit::Expr(expr.into_allocated_spec()),
        }
    }

    /// Convert into the allocated form, dropping separators and locations.
    pub fn into_allocated(self) -> (r: crate::stmt::LoopInit)
        ensures
            r@ == self.into_allocated_spec(),
        decreases self,
    {
        match self {
            LoopInit::Variable(kind, decls) => crate::stmt::LoopInit::Variable(
                kind.into_allocated(),
                crate::spanned::entries_into_allocated(decls),
            ),
            LoopInit::Expr(expr) => crate::stmt::LoopInit::Expr(expr.into_allocated()),
        }
    }
}

impl ForInStmt {
    /// The allocated counterpart: the left-hand side, the indexable thing,
    /// and the converted body.
    pub open spec fn into_allocated_spec(self) -> crate::stmt::SpecForInStmt
        decreases self,
    {
        crate::stmt::SpecForInStmt {
            left: self.left.into_allocated_spec(),
            right: self.right.into_allocated_spec(),
            body: Box::new(self.body.into_allocated_spec()),
        }
    }

    /// Convert into the allocated form, dropping the keywords and
    /// parentheses.
    pub fn into_allocated(self) -> (r: crate::stmt::ForInStmt)
        ensures
            r@ == self.into_allocated_spec(),
        decreases self,
    {
        crate::stmt::ForInStmt {
            left: self.left.into_allocated(),
            right: self.right.into_allocated(),
            body: Box::new((*self.body).into_allocated()),
        }
    }
}

impl ForOfStmt {
    /// The allocated counterpart: the left-hand side, the iterable thing,
    /// the converted body, and whether the loop awaits.
    pub open spec fn into_allocated_spec(self) -> crate::stmt::SpecForOfStmt
        decreases self,
    {
        crate::stmt::SpecForOfStmt {
            left: self.left.into_allocated_spec(),
            right: self.right.into_allocated_spec(),
            body: Box::new(self.body.into_allocated_spec()),
            is_await: self.is_await,
        }
    }

    /// Convert into the allocated form, dropping the keywords and
    /// parentheses.
    pub fn into_allocated(self) -> (r: crate::stmt::ForOfStmt)
        ensures
            r@ == self.into_allocated_spec(),
        decreases self,
    {
        crate::stmt::ForOfStmt {
            left: self.left.into_allocated(),
            right: self.right.into_allocated(),
            body: Box::new((*self.body).into_allocated()),
            is_await: self.is_await,
        }
    }
}

impl LoopLeft {
    /// The allocated counterpart of this left-hand side.
    pub open spec fn into_allocated_spec(self) -> crate::stmt::SpecLoopLeft {
        match self {
            LoopLeft::Expr(expr) => crate::stmt::SpecLoopLeft::Expr(expr.into_allocated_spec()),
            LoopLeft::Variable(kind, decl) => crate::stmt::SpecLoopLeft::Variable(
                kind.into_allocated_spec(),
                decl.into_allocated_spec(),
            ),
            LoopLeft::Pat(pat) => crate::stmt::SpecLoopLeft::Pat(pat.into_allocated_spec()),
        }
    }

    /// Convert into the allocated form, dropping the locations.
    pub fn into_allocated(self) -> (r: crate::stmt::LoopLeft)
        ensures
            r@ == self.into_allocated_spec(),
    {
        match self {
            LoopLeft::Expr(expr) => crate::stmt::LoopLeft::Expr(expr.into_allocated()),
            LoopLeft::Variable(kind, decl) => crate::stmt::LoopLeft::Variable(
                kind.into_allocated(),
                decl.into_allocated(),
            ),
            LoopLeft::Pat(pat) => crate::stmt::LoopLeft::Pat(pat.into_allocated()),
        }
    }
}

/// Conversion is a structural homomorphism: every spanned statement maps to
/// the allocated variant of the same kind. Together with the elementwise
/// conversion lemmas this pins down that converting and then matching on the
/// allocated tree reproduces the spanned tree's variant tags and the length
/// and order of every sequence position.
pub proof fn lemma_into_allocated_preserves_kind(s: Stmt)
    ensures
        s.into_allocated_spec().kind() == s.kind(),
{
}

/// Whether two spanned statements agree on everything but their optional
/// trailing terminator. Variants that carry no such terminator agree only
/// when equal.
pub open spec fn same_but_terminator(a: Stmt, b: Stmt) -> bool {
    match (a, b) {
        (Stmt::Expr { expr: e1, semi_colon: _ }, Stmt::Expr { expr: e2, semi_colon: _ }) => e1
            == e2,
        (
            Stmt::Debugger { keyword: k1, semi_colon: _ },
            Stmt::Debugger { keyword: k2, semi_colon: _ },
        ) => k1 == k2,
        (
            Stmt::Return { keyword: k1, value: v1, semi_colon: _ },
            Stmt::Return { keyword: k2, value: v2, semi_colon: _ },
        ) => k1 == k2 && v1 == v2,
        (
            Stmt::Break { keyword: k1, label: l1, semi_colon: _ },
            Stmt::Break { keyword: k2, label: l2, semi_colon: _ },
        ) => k1 == k2 && l1 == l2,
        (
            Stmt::Continue { keyword: k1, label: l1, semi_colon: _ },
            Stmt::Continue { keyword: k2, label: l2, semi_colon: _ },
        ) => k1 == k2 && l1 == l2,
        (
            Stmt::Throw { keyword: k1, expr: e1, semi_colon: _ },
            Stmt::Throw { keyword: k2, expr: e2, semi_colon: _ },
        ) => k1 == k2 && e1 == e2,
        (
            Stmt::Var { decls: d1, semi_colon: _ },
            Stmt::Var { decls: d2, semi_colon: _ },
        ) => d1 == d2,
        (Stmt::DoWhile(d1), Stmt::DoWhile(d2)) => {
            &&& d1.keyword_do == d2.keyword_do
            &&& d1.body == d2.body
            &&& d1.keyword_while == d2.keyword_while
            &&& d1.open_paren == d2.open_paren
            &&& d1.test == d2.test
            &&& d1.close_paren == d2.close_paren
        },
        _ => a == b,
    }
}

/// The conversion forgets the optional trailing terminator entirely: two
/// spanned statements that differ only in it convert to the same allocated
/// statement. The conversion is therefore not injective, and no inverse
/// conversion can exist.
pub proof fn lemma_terminator_forgotten(a: Stmt, b: Stmt)
    requires
        same_but_terminator(a, b),
    ensures
        a.into_allocated_spec() == b.into_allocated_spec(),
{
}

} // verus!

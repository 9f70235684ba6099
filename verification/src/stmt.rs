//! The allocated form of the statement tree: the same variant shapes as the
//! spanned form, with every keyword, delimiter and optional terminator token
//! dropped, owning all of its textual data.
//!
//! Each type carries a view into a ghost model (`Spec...`) over sequences,
//! and the conversion contracts of the spanned form speak of those models.

use vstd::prelude::*;

use crate::Decl;
use crate::Expr;
use crate::Ident;
use crate::Pat;
use crate::ProgramPart;
use crate::SpecProgramPart;
use crate::VarDecl;
use crate::VarKind;
use crate::parts_view;
use crate::var_decls_view;

verus! {

/// The variant a statement falls under, shared by the spanned and allocated
/// forms so that shape preservation can be stated across the conversion.
pub enum StmtKind {
    Expr,
    Block,
    Empty,
    Debugger,
    With,
    Return,
    Labeled,
    Break,
    Continue,
    If,
    Switch,
    Throw,
    Try,
    While,
    DoWhile,
    For,
    ForIn,
    ForOf,
    Var,
}

/// The model of an allocated statement.
pub enum SpecStmt {
    Expr(Seq<char>),
    Block(SpecBlockStmt),
    Empty,
    Debugger,
    With(SpecWithStmt),
    Return(Option<Seq<char>>),
    Labeled(SpecLabeledStmt),
    Break(Option<Seq<char>>),
    Continue(Option<Seq<char>>),
    If(SpecIfStmt),
    Switch(SpecSwitchStmt),
    Throw(Seq<char>),
    Try(SpecTryStmt),
    While(SpecWhileStmt),
    DoWhile(SpecDoWhileStmt),
    For(SpecForStmt),
    ForIn(SpecForInStmt),
    ForOf(SpecForOfStmt),
    Var(Seq<Seq<char>>),
}

impl SpecStmt {
    /// The variant this statement falls under.
    pub open spec fn kind(self) -> StmtKind {
        match self {
            SpecStmt::Expr(_) => StmtKind::Expr,
            SpecStmt::Block(_) => StmtKind::Block,
            SpecStmt::Empty => StmtKind::Empty,
            SpecStmt::Debugger => StmtKind::Debugger,
            SpecStmt::With(_) => StmtKind::With,
            SpecStmt::Return(_) => StmtKind::Return,
            SpecStmt::Labeled(_) => StmtKind::Labeled,
            SpecStmt::Break(_) => StmtKind::Break,
            SpecStmt::Continue(_) => StmtKind::Continue,
            SpecStmt::If(_) => StmtKind::If,
            SpecStmt::Switch(_) => StmtKind::Switch,
            SpecStmt::Throw(_) => StmtKind::Throw,
            SpecStmt::Try(_) => StmtKind::Try,
            SpecStmt::While(_) => StmtKind::While,
            SpecStmt::DoWhile(_) => StmtKind::DoWhile,
            SpecStmt::For(_) => StmtKind::For,
            SpecStmt::ForIn(_) => StmtKind::ForIn,
            SpecStmt::ForOf(_) => StmtKind::ForOf,
            SpecStmt::Var(_) => StmtKind::Var,
        }
    }
}

/// The model of an allocated with statement.
pub struct SpecWithStmt {
    pub object: Seq<char>,
    pub body: Box<SpecStmt>,
}

/// The model of an allocated labeled statement.
pub struct SpecLabeledStmt {
    pub label: Seq<char>,
    pub body: Box<SpecStmt>,
}

/// The model of an allocated if statement.
pub struct SpecIfStmt {
    pub test: Seq<char>,
    pub consequent: Box<SpecStmt>,
    pub alternate: Option<Box<SpecStmt>>,
}

/// The model of an allocated switch statement.
pub struct SpecSwitchStmt {
    pub discriminant: Seq<char>,
    pub cases: Seq<SpecSwitchCase>,
}

/// The model of an allocated switch case.
pub struct SpecSwitchCase {
    pub test: Option<Seq<char>>,
    pub consequent: Seq<SpecProgramPart>,
}

/// The model of an allocated block.
pub struct SpecBlockStmt(pub Seq<SpecProgramPart>);

/// The model of an allocated try statement.
pub struct SpecTryStmt {
    pub block: SpecBlockStmt,
    pub handler: Option<SpecCatchClause>,
    pub finalizer: Option<SpecBlockStmt>,
}

/// The model of an allocated catch clause.
pub struct SpecCatchClause {
    pub param: Option<Seq<char>>,
    pub body: SpecBlockStmt,
}

/// The model of an allocated while statement.
pub struct SpecWhileStmt {
    pub test: Seq<char>,
    pub body: Box<SpecStmt>,
}

/// The model of an allocated do-while statement.
pub struct SpecDoWhileStmt {
    pub test: Seq<char>,
    pub body: Box<SpecStmt>,
}

/// The model of an allocated c-style for statement.
pub struct SpecForStmt {
    pub init: Option<SpecLoopInit>,
    pub test: Option<Seq<char>>,
    pub update: Option<Seq<char>>,
    pub body: Box<SpecStmt>,
}

/// The model of an allocated loop initializer.
pub enum SpecLoopInit {
    Variable(Seq<char>, Seq<Seq<char>>),
    Expr(Seq<char>),
}

/// The model of an allocated for-in statement.
pub struct SpecForInStmt {
    pub left: SpecLoopLeft,
    pub right: Seq<char>,
    pub body: Box<SpecStmt>,
}

/// The model of an allocated for-of statement.
pub struct SpecForOfStmt {
    pub left: SpecLoopLeft,
    pub right: Seq<char>,
    pub body: Box<SpecStmt>,
    pub is_await: bool,
}

/// The model of an allocated loop left-hand side.
pub enum SpecLoopLeft {
    Expr(Seq<char>),
    Variable(Seq<char>, Seq<char>),
    Pat(Seq<char>),
}

/// A statement of the allocated tree.
#[derive(Debug, PartialEq)]
pub enum Stmt {
    /// Any expression.
    Expr(Expr),
    /// A collection of program parts.
    Block(BlockStmt),
    /// A lone terminator.
    Empty,
    /// The contextual debugger keyword.
    Debugger,
    /// A with statement.
    With(WithStmt),
    /// A return statement, with or without a returned value.
    Return(Option<Expr>),
    /// A labeled statement.
    Labeled(LabeledStmt),
    /// A break statement, with or without a target label.
    Break(Option<Ident>),
    /// A continue statement, with or without a target label.
    Continue(Option<Ident>),
    /// An if statement.
    If(IfStmt),
    /// A switch statement.
    Switch(SwitchStmt),
    /// A statement that throws an error.
    Throw(Expr),
    /// A try/catch block.
    Try(TryStmt),
    /// A while loop.
    While(WhileStmt),
    /// A while loop that executes its body first.
    DoWhile(DoWhileStmt),
    /// A c-style for loop.
    For(ForStmt),
    /// A for-in loop over the keys of an indexable thing.
    ForIn(ForInStmt),
    /// A for-of loop over the values of an iterable thing.
    ForOf(ForOfStmt),
    /// A variable declaration statement.
    Var(Vec<VarDecl>),
}

impl View for Stmt {
    type V = SpecStmt;

    open spec fn view(&self) -> SpecStmt
        decreases self,
    {
        match self {
            Stmt::Expr(expr) => SpecStmt::Expr(expr@),
            Stmt::Block(inner) => SpecStmt::Block(inner.view()),
            Stmt::Empty => SpecStmt::Empty,
            Stmt::Debugger => SpecStmt::Debugger,
            Stmt::With(inner) => SpecStmt::With(inner.view()),
            Stmt::Return(value) => SpecStmt::Return(
                match value {
                    Some(expr) => Some(expr@),
                    None => None,
                },
            ),
            Stmt::Labeled(inner) => SpecStmt::Labeled(inner.view()),
            Stmt::Break(label) => SpecStmt::Break(
                match label {
                    Some(id) => Some(id@),
                    None => None,
                },
            ),
            Stmt::Continue(label) => SpecStmt::Continue(
                match label {
                    Some(id) => Some(id@),
                    None => None,
                },
            ),
            Stmt::If(inner) => SpecStmt::If(inner.view()),
            Stmt::Switch(inner) => SpecStmt::Switch(inner.view()),
            Stmt::Throw(expr) => SpecStmt::Throw(expr@),
            Stmt::Try(inner) => SpecStmt::Try(inner.view()),
            Stmt::While(inner) => SpecStmt::While(inner.view()),
            Stmt::DoWhile(inner) => SpecStmt::DoWhile(inner.view()),
            Stmt::For(inner) => SpecStmt::For(inner.view()),
            Stmt::ForIn(inner) => SpecStmt::ForIn(inner.view()),
            Stmt::ForOf(inner) => SpecStmt::ForOf(inner.view()),
            Stmt::Var(decls) => SpecStmt::Var(var_decls_view(decls@)),
        }
    }
}

/// A with statement.
#[derive(Debug, PartialEq)]
pub struct WithStmt {
    pub object: Expr,
    pub body: Box<Stmt>,
}

impl View for WithStmt {
    type V = SpecWithStmt;

    open spec fn view(&self) -> SpecWithStmt
        decreases self,
    {
        SpecWithStmt { object: self.object@, body: Box::new((*self.body).view()) }
    }
}

/// A labeled statement.
#[derive(Debug, PartialEq)]
pub struct LabeledStmt {
    pub label: Ident,
    pub body: Box<Stmt>,
}

impl View for LabeledStmt {
    type V = SpecLabeledStmt;

    open spec fn view(&self) -> SpecLabeledStmt
        decreases self,
    {
        SpecLabeledStmt { label: self.label@, body: Box::new((*self.body).view()) }
    }
}

/// An if statement.
#[derive(Debug, PartialEq)]
pub struct IfStmt {
    pub test: Expr,
    pub consequent: Box<Stmt>,
    pub alternate: Option<Box<Stmt>>,
}

impl View for IfStmt {
    type V = SpecIfStmt;

    open spec fn view(&self) -> SpecIfStmt
        decreases self,
    {
        SpecIfStmt {
            test: self.test@,
            consequent: Box::new((*self.consequent).view()),
            alternate: match &self.alternate {
                Some(alt) => Some(Box::new((**alt).view())),
                None => None,
            },
        }
    }
}

/// A switch statement.
#[derive(Debug, PartialEq)]
pub struct SwitchStmt {
    pub discriminant: Expr,
    pub cases: Vec<SwitchCase>,
}

impl View for SwitchStmt {
    type V = SpecSwitchStmt;

    open spec fn view(&self) -> SpecSwitchStmt
        decreases self,
    {
        SpecSwitchStmt { discriminant: self.discriminant@, cases: cases_view(self.cases@) }
    }
}

/// The elementwise model of a sequence of allocated switch cases.
pub open spec fn cases_view(cases: Seq<SwitchCase>) -> Seq<SpecSwitchCase>
    decreases cases,
{
    if cases.len() == 0 {
        Seq::empty()
    } else {
        cases_view(cases.drop_last()).push(cases.last().view())
    }
}

/// The model of a sequence of cases keeps its length and models each case in
/// place.
pub proof fn lemma_cases_view_elementwise(cases: Seq<SwitchCase>)
    ensures
        cases_view(cases).len() == cases.len(),
        forall|i: int| 0 <= i < cases.len() ==> cases_view(cases)[i] == (#[trigger] cases[i])@,
    decreases cases,
{
    if cases.len() > 0 {
        lemma_cases_view_elementwise(cases.drop_last());
        assert(cases_view(cases) == cases_view(cases.drop_last()).push(cases.last()@));
        assert forall|i: int| 0 <= i < cases.len() implies cases_view(cases)[i] == (
        #[trigger] cases[i])@ by {
            if i < cases.len() - 1 {
                assert(cases[i] == cases.drop_last()[i]);
            } else {
                assert(cases[i] == cases.last());
            }
        }
    }
}

/// A single case of a switch statement.
#[derive(Debug, PartialEq)]
pub struct SwitchCase {
    pub test: Option<Expr>,
    pub consequent: Vec<ProgramPart>,
}

impl View for SwitchCase {
    type V = SpecSwitchCase;

    open spec fn view(&self) -> SpecSwitchCase
        decreases self,
    {
        SpecSwitchCase {
            test: match &self.test {
                Some(expr) => Some(expr@),
                None => None,
            },
            consequent: parts_view(self.consequent@),
        }
    }
}

/// A collection of program parts.
#[derive(Debug, PartialEq)]
pub struct BlockStmt(pub Vec<ProgramPart>);

impl View for BlockStmt {
    type V = SpecBlockStmt;

    open spec fn view(&self) -> SpecBlockStmt
        decreases self,
    {
        SpecBlockStmt(parts_view(self.0@))
    }
}

/// A try/catch block.
#[derive(Debug, PartialEq)]
pub struct TryStmt {
    pub block: BlockStmt,
    pub handler: Option<CatchClause>,
    pub finalizer: Option<BlockStmt>,
}

impl View for TryStmt {
    type V = SpecTryStmt;

    open spec fn view(&self) -> SpecTryStmt
        decreases self,
    {
        SpecTryStmt {
            block: self.block.view(),
            handler: match &self.handler {
                Some(handler) => Some(handler.view()),
                None => None,
            },
            finalizer: match &self.finalizer {
                Some(finalizer) => Some(finalizer.view()),
                None => None,
            },
        }
    }
}

/// The error handling part of a try statement.
#[derive(Debug, PartialEq)]
pub struct CatchClause {
    pub param: Option<Pat>,
    pub body: BlockStmt,
}

impl View for CatchClause {
    type V = SpecCatchClause;

    open spec fn view(&self) -> SpecCatchClause
        decreases self,
    {
        SpecCatchClause {
            param: match &self.param {
                Some(pat) => Some(pat@),
                None => None,
            },
            body: self.body.view(),
        }
    }
}

/// A while loop.
#[derive(Debug, PartialEq)]
pub struct WhileStmt {
    pub test: Expr,
    pub body: Box<Stmt>,
}

impl View for WhileStmt {
    type V = SpecWhileStmt;

    open spec fn view(&self) -> SpecWhileStmt
        decreases self,
    {
        SpecWhileStmt { test: self.test@, body: Box::new((*self.body).view()) }
    }
}

/// A while loop that executes its body first.
#[derive(Debug, PartialEq)]
pub struct DoWhileStmt {
    pub test: Expr,
    pub body: Box<Stmt>,
}

impl View for DoWhileStmt {
    type V = SpecDoWhileStmt;

    open spec fn view(&self) -> SpecDoWhileStmt
        decreases self,
    {
        SpecDoWhileStmt { test: self.test@, body: Box::new((*self.body).view()) }
    }
}

/// A c-style for loop.
#[derive(Debug, PartialEq)]
pub struct ForStmt {
    pub init: Option<LoopInit>,
    pub test: Option<Expr>,
    pub update: Option<Expr>,
    pub body: Box<Stmt>,
}

impl View for ForStmt {
    type V = SpecForStmt;

    open spec fn view(&self) -> SpecForStmt
        decreases self,
    {
        SpecForStmt {
            init: match &self.init {
                Some(init) => Some(init.view()),
                None => None,
            },
            test: match &self.test {
                Some(test) => Some(test@),
                None => None,
            },
            update: match &self.update {
                Some(update) => Some(update@),
                None => None,
            },
            body: Box::new((*self.body).view()),
        }
    }
}

/// The leftmost part of a c-style for loop's parenthetical.
#[derive(Debug, PartialEq)]
pub enum LoopInit {
    Variable(VarKind, Vec<VarDecl>),
    Expr(Expr),
}

impl View for LoopInit {
    type V = SpecLoopInit;

    open spec fn view(&self) -> SpecLoopInit
        decreases self,
    {
        match self {
            LoopInit::Variable(kind, decls) => SpecLoopInit::Variable(kind@, var_decls_view(decls@)),
            LoopInit::Expr(expr) => SpecLoopInit::Expr(expr@),
        }
    }
}

/// A for-in loop over the keys of an indexable thing.
#[derive(Debug, PartialEq)]
pub struct ForInStmt {
    pub left: LoopLeft,
    pub right: Expr,
    pub body: Box<Stmt>,
}

impl View for ForInStmt {
    type V = SpecForInStmt;

    open spec fn view(&self) -> SpecForInStmt
        decreases self,
    {
        SpecForInStmt {
            left: self.left.view(),
            right: self.right@,
            body: Box::new((*self.body).view()),
        }
    }
}

/// A for-of loop over the values of an iterable thing.
#[derive(Debug, PartialEq)]
pub struct ForOfStmt {
    pub left: LoopLeft,
    pub right: Expr,
    pub body: Box<Stmt>,
    pub is_await: bool,
}

impl View for ForOfStmt {
    type V = SpecForOfStmt;

    open spec fn view(&self) -> SpecForOfStmt
        decreases self,
    {
        SpecForOfStmt {
            left: self.left.view(),
            right: self.right@,
            body: Box::new((*self.body).view()),
            is_await: self.is_await,
        }
    }
}

/// The values on the left-hand side of the keyword in a for-in or for-of
/// loop.
#[derive(Debug, PartialEq)]
pub enum LoopLeft {
    Expr(Expr),
    Variable(VarKind, VarDecl),
    Pat(Pat),
}

impl View for LoopLeft {
    type V = SpecLoopLeft;

    open spec fn view(&self) -> SpecLoopLeft
        decreases self,
    {
        match self {
            LoopLeft::Expr(expr) => SpecLoopLeft::Expr(expr@),
            LoopLeft::Variable(kind, decl) => SpecLoopLeft::Variable(kind@, decl@),
            LoopLeft::Pat(pat) => SpecLoopLeft::Pat(pat@),
        }
    }
}

} // verus!

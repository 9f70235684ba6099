//! Location reporting: every variant, with and without each optional slot.

use stmt_ast::spanned::dci::{Role, RoleBody};
use stmt_ast::spanned::stmt::{
    BlockStmt, CatchArg, CatchClause, DoWhileStmt, ElseStmt, FinallyClause, ForInStmt, ForOfStmt,
    ForStmt, IfStmt, LabeledStmt, LoopInit, LoopLeft, Stmt, SwitchCase, SwitchStmt, TryStmt,
    WhileStmt, WithStmt,
};
use stmt_ast::spanned::{
    Expr, Ident, ListEntry, Node, Pat, ProgramPart, Prop, Slice, SourceLocation, VarDecl,
    VarDecls, VarKind,
};

fn sl(text: &str, start: usize, end: usize) -> Slice {
    Slice {
        source: text.to_string(),
        loc: SourceLocation { start, end },
    }
}

fn ex(text: &str, start: usize, end: usize) -> Expr {
    Expr {
        slice: sl(text, start, end),
    }
}

fn id(name: &str, start: usize, end: usize) -> Ident {
    Ident {
        slice: sl(name, start, end),
    }
}

fn vd(text: &str, start: usize, end: usize) -> VarDecl {
    VarDecl {
        slice: sl(text, start, end),
    }
}

fn loc(start: usize, end: usize) -> SourceLocation {
    SourceLocation { start, end }
}

/// A `{ }` block with nothing in it, covering `[start, end)`.
fn empty_block(start: usize, end: usize) -> BlockStmt {
    BlockStmt {
        open_brace: sl("{", start, start + 1),
        stmts: Vec::new(),
        close_brace: sl("}", end - 1, end),
    }
}

#[test]
fn slice_loc_is_intrinsic() {
    let s = sl("token", 3, 8);
    assert_eq!(s.loc(), loc(3, 8));
    assert!(s.loc().start <= s.loc().end);
}

#[test]
fn expr_stmt_loc_without_terminator() {
    let st = Stmt::Expr {
        expr: ex("a + b", 0, 5),
        semi_colon: None,
    };
    assert_eq!(st.loc(), loc(0, 5));
}

#[test]
fn expr_stmt_loc_with_terminator() {
    let st = Stmt::Expr {
        expr: ex("a + b", 0, 5),
        semi_colon: Some(sl(";", 5, 6)),
    };
    assert_eq!(st.loc(), loc(0, 6));
}

#[test]
fn empty_stmt_loc() {
    let st = Stmt::Empty(sl(";", 4, 5));
    assert_eq!(st.loc(), loc(4, 5));
}

#[test]
fn debugger_loc_without_terminator() {
    let st = Stmt::Debugger {
        keyword: sl("debugger", 0, 8),
        semi_colon: None,
    };
    assert_eq!(st.loc(), loc(0, 8));
}

#[test]
fn debugger_loc_with_terminator() {
    let st = Stmt::Debugger {
        keyword: sl("debugger", 0, 8),
        semi_colon: Some(sl(";", 8, 9)),
    };
    assert_eq!(st.loc(), loc(0, 9));
}

#[test]
fn return_loc_prefers_terminator_over_value() {
    let st = Stmt::Return {
        keyword: sl("return", 0, 6),
        value: Some(ex("x", 7, 8)),
        semi_colon: Some(sl(";", 8, 9)),
    };
    assert_eq!(st.loc(), loc(0, 9));
}

#[test]
fn return_loc_with_value_only() {
    let st = Stmt::Return {
        keyword: sl("return", 0, 6),
        value: Some(ex("x", 7, 8)),
        semi_colon: None,
    };
    assert_eq!(st.loc(), loc(0, 8));
}

#[test]
fn return_loc_bare_keyword() {
    let st = Stmt::Return {
        keyword: sl("return", 0, 6),
        value: None,
        semi_colon: None,
    };
    assert_eq!(st.loc(), loc(0, 6));
}

#[test]
fn break_loc_prefers_terminator_over_label() {
    let st = Stmt::Break {
        keyword: sl("break", 0, 5),
        label: Some(id("out", 6, 9)),
        semi_colon: Some(sl(";", 9, 10)),
    };
    assert_eq!(st.loc(), loc(0, 10));
}

#[test]
fn break_loc_with_label_only() {
    let st = Stmt::Break {
        keyword: sl("break", 0, 5),
        label: Some(id("out", 6, 9)),
        semi_colon: None,
    };
    assert_eq!(st.loc(), loc(0, 9));
}

#[test]
fn break_loc_bare_keyword() {
    let st = Stmt::Break {
        keyword: sl("break", 0, 5),
        label: None,
        semi_colon: None,
    };
    assert_eq!(st.loc(), loc(0, 5));
}

#[test]
fn continue_loc_with_label_only() {
    let st = Stmt::Continue {
        keyword: sl("continue", 0, 8),
        label: Some(id("top", 9, 12)),
        semi_colon: None,
    };
    assert_eq!(st.loc(), loc(0, 12));
}

#[test]
fn continue_loc_with_terminator() {
    let st = Stmt::Continue {
        keyword: sl("continue", 0, 8),
        label: None,
        semi_colon: Some(sl(";", 8, 9)),
    };
    assert_eq!(st.loc(), loc(0, 9));
}

#[test]
fn throw_loc_without_terminator() {
    let st = Stmt::Throw {
        keyword: sl("throw", 0, 5),
        expr: ex("oops", 6, 10),
        semi_colon: None,
    };
    assert_eq!(st.loc(), loc(0, 10));
}

#[test]
fn throw_loc_with_terminator() {
    let st = Stmt::Throw {
        keyword: sl("throw", 0, 5),
        expr: ex("oops", 6, 10),
        semi_colon: Some(sl(";", 10, 11)),
    };
    assert_eq!(st.loc(), loc(0, 11));
}

#[test]
fn block_loc_spans_braces() {
    let block = BlockStmt {
        open_brace: sl("{", 0, 1),
        stmts: vec![ProgramPart::Stmt(Stmt::Empty(sl(";", 2, 3)))],
        close_brace: sl("}", 4, 5),
    };
    assert_eq!(block.loc(), loc(0, 5));
    assert_eq!(Stmt::Block(block).loc(), loc(0, 5));
}

#[test]
fn with_loc_runs_to_body_end() {
    let st = WithStmt {
        keyword: sl("with", 0, 4),
        open_paren: sl("(", 5, 6),
        object: ex("scope", 6, 11),
        close_paren: sl(")", 11, 12),
        body: Box::new(Stmt::Empty(sl(";", 13, 14))),
    };
    assert_eq!(st.loc(), loc(0, 14));
}

#[test]
fn labeled_loc_runs_from_label_to_body_end() {
    let st = LabeledStmt {
        label: id("outer", 0, 5),
        colon: sl(":", 5, 6),
        body: Box::new(Stmt::Empty(sl(";", 7, 8))),
    };
    assert_eq!(st.loc(), loc(0, 8));
}

#[test]
fn if_loc_without_alternate_ends_at_consequent() {
    let st = IfStmt {
        keyword: sl("if", 0, 2),
        open_paren: sl("(", 3, 4),
        test: ex("a", 4, 5),
        close_paren: sl(")", 5, 6),
        consequent: Box::new(Stmt::Expr {
            expr: ex("b", 7, 8),
            semi_colon: Some(sl(";", 8, 9)),
        }),
        alternate: None,
    };
    assert_eq!(st.loc(), loc(0, 9));
}

#[test]
fn if_loc_with_alternate_ends_at_alternate() {
    let st = IfStmt {
        keyword: sl("if", 0, 2),
        open_paren: sl("(", 3, 4),
        test: ex("a", 4, 5),
        close_paren: sl(")", 5, 6),
        consequent: Box::new(Stmt::Expr {
            expr: ex("b", 7, 8),
            semi_colon: Some(sl(";", 8, 9)),
        }),
        alternate: Some(Box::new(ElseStmt {
            keyword: sl("else", 10, 14),
            body: Stmt::Expr {
                expr: ex("c", 15, 16),
                semi_colon: Some(sl(";", 16, 17)),
            },
        })),
    };
    assert_eq!(st.loc(), loc(0, 17));
}

#[test]
fn switch_loc_stops_at_close_paren() {
    let st = SwitchStmt {
        keyword: sl("switch", 0, 6),
        open_paren: sl("(", 7, 8),
        discriminant: ex("x", 8, 9),
        close_paren: sl(")", 9, 10),
        open_brace: sl("{", 11, 12),
        cases: vec![SwitchCase {
            keyword: sl("case", 13, 17),
            test: Some(ex("1", 18, 19)),
            colon: sl(":", 19, 20),
            consequent: vec![ProgramPart::Stmt(Stmt::Break {
                keyword: sl("break", 21, 26),
                label: None,
                semi_colon: Some(sl(";", 26, 27)),
            })],
        }],
        close_brace: sl("}", 28, 29),
    };
    // The case list and the closing brace are deliberately excluded.
    assert_eq!(st.loc(), loc(0, 10));
}

#[test]
fn switch_case_loc_with_consequent() {
    let case = SwitchCase {
        keyword: sl("case", 0, 4),
        test: Some(ex("1", 5, 6)),
        colon: sl(":", 6, 7),
        consequent: vec![ProgramPart::Stmt(Stmt::Empty(sl(";", 8, 9)))],
    };
    assert_eq!(case.loc(), loc(0, 9));
}

#[test]
fn switch_case_loc_empty_ends_at_colon() {
    let case = SwitchCase {
        keyword: sl("default", 0, 7),
        test: None,
        colon: sl(":", 7, 8),
        consequent: Vec::new(),
    };
    assert_eq!(case.loc(), loc(0, 8));
}

#[test]
fn try_loc_block_only() {
    let st = TryStmt {
        keyword: sl("try", 0, 3),
        block: empty_block(4, 6),
        handler: None,
        finalizer: None,
    };
    assert_eq!(st.loc(), loc(0, 6));
}

#[test]
fn try_loc_ends_at_handler() {
    let st = TryStmt {
        keyword: sl("try", 0, 3),
        block: empty_block(4, 6),
        handler: Some(CatchClause {
            keyword: sl("catch", 7, 12),
            param: Some(CatchArg {
                open_paren: sl("(", 13, 14),
                param: Pat {
                    slice: sl("e", 14, 15),
                },
                close_paren: sl(")", 15, 16),
            }),
            body: empty_block(17, 19),
        }),
        finalizer: None,
    };
    assert_eq!(st.loc(), loc(0, 19));
}

#[test]
fn try_loc_prefers_finalizer() {
    let st = TryStmt {
        keyword: sl("try", 0, 3),
        block: empty_block(4, 6),
        handler: Some(CatchClause {
            keyword: sl("catch", 7, 12),
            param: None,
            body: empty_block(13, 15),
        }),
        finalizer: Some(FinallyClause {
            keyword: sl("finally", 16, 23),
            body: empty_block(24, 26),
        }),
    };
    assert_eq!(st.loc(), loc(0, 26));
}

#[test]
fn catch_arg_loc_spans_parens() {
    let arg = CatchArg {
        open_paren: sl("(", 6, 7),
        param: Pat {
            slice: sl("err", 7, 10),
        },
        close_paren: sl(")", 10, 11),
    };
    assert_eq!(arg.loc(), loc(6, 11));
}

#[test]
fn finally_loc_runs_to_body_end() {
    let fin = FinallyClause {
        keyword: sl("finally", 0, 7),
        body: empty_block(8, 10),
    };
    assert_eq!(fin.loc(), loc(0, 10));
}

#[test]
fn while_loc_runs_to_body_end() {
    let st = WhileStmt {
        keyword: sl("while", 0, 5),
        open_paren: sl("(", 6, 7),
        test: ex("true", 7, 11),
        close_paren: sl(")", 11, 12),
        body: Box::new(Stmt::Empty(sl(";", 13, 14))),
    };
    assert_eq!(st.loc(), loc(0, 14));
}

#[test]
fn do_while_loc_stops_at_close_paren() {
    let st = DoWhileStmt {
        keyword_do: sl("do", 0, 2),
        body: Box::new(Stmt::Empty(sl(";", 3, 4))),
        keyword_while: sl("while", 5, 10),
        open_paren: sl("(", 11, 12),
        test: ex("false", 12, 17),
        close_paren: sl(")", 17, 18),
        semi_colon: Some(sl(";", 18, 19)),
    };
    // The optional terminator is not part of the reported extent.
    assert_eq!(st.loc(), loc(0, 18));
}

fn for_header(
    init: Option<LoopInit>,
    test: Option<Expr>,
    update: Option<Expr>,
) -> ForStmt {
    ForStmt {
        keyword: sl("for", 0, 3),
        open_paren: sl("(", 4, 5),
        init,
        semi1: sl(";", 15, 16),
        test,
        semi2: sl(";", 23, 24),
        update,
        close_paren: sl(")", 28, 29),
        body: Box::new(Stmt::Empty(sl(";", 30, 31))),
    }
}

#[test]
fn for_loc_with_empty_header() {
    let st = for_header(None, None, None);
    assert_eq!(st.loc(), loc(0, 31));
}

#[test]
fn for_loc_with_full_header() {
    let st = for_header(
        Some(LoopInit::Variable(
            VarKind {
                slice: sl("var", 5, 8),
            },
            vec![ListEntry {
                item: vd("i = 0", 9, 14),
                comma: None,
            }],
        )),
        Some(ex("i < 10", 16, 22)),
        Some(ex("i++", 25, 28)),
    );
    assert_eq!(st.loc(), loc(0, 31));
}

#[test]
fn loop_init_declaration_loc_ends_at_last_declarator() {
    let init = LoopInit::Variable(
        VarKind {
            slice: sl("var", 5, 8),
        },
        vec![ListEntry {
            item: vd("i = 0", 9, 14),
            comma: None,
        }],
    );
    assert_eq!(init.loc(), loc(5, 14));
}

#[test]
fn loop_init_declaration_loc_with_empty_list_is_the_keyword() {
    let init = LoopInit::Variable(
        VarKind {
            slice: sl("var", 5, 8),
        },
        Vec::new(),
    );
    assert_eq!(init.loc(), loc(5, 8));
}

#[test]
fn loop_init_expression_loc_is_the_expression() {
    let init = LoopInit::Expr(ex("i = 0", 5, 10));
    assert_eq!(init.loc(), loc(5, 10));
}

#[test]
fn for_in_loc_runs_to_body_end() {
    let st = ForInStmt {
        keyword_for: sl("for", 0, 3),
        open_paren: sl("(", 4, 5),
        left: LoopLeft::Variable(
            VarKind {
                slice: sl("var", 5, 8),
            },
            vd("k", 9, 10),
        ),
        keyword_in: sl("in", 11, 13),
        right: ex("obj", 14, 17),
        close_paren: sl(")", 17, 18),
        body: Box::new(Stmt::Empty(sl(";", 19, 20))),
    };
    assert_eq!(st.loc(), loc(0, 20));
}

#[test]
fn for_of_loc_runs_to_body_end() {
    let st = ForOfStmt {
        keyword_for: sl("for", 0, 3),
        open_paren: sl("(", 4, 5),
        left: LoopLeft::Pat(Pat {
            slice: sl("[a, b]", 5, 11),
        }),
        keyword_of: sl("of", 12, 14),
        right: ex("pairs", 15, 20),
        close_paren: sl(")", 20, 21),
        body: Box::new(Stmt::Empty(sl(";", 22, 23))),
        is_await: false,
    };
    assert_eq!(st.loc(), loc(0, 23));
}

#[test]
fn loop_left_variable_loc_spans_kind_and_declarator() {
    let left = LoopLeft::Variable(
        VarKind {
            slice: sl("let", 5, 8),
        },
        vd("k", 9, 10),
    );
    assert_eq!(left.loc(), loc(5, 10));
}

#[test]
fn list_entry_loc_includes_separator() {
    let entry = ListEntry {
        item: vd("x", 4, 5),
        comma: Some(sl(",", 5, 6)),
    };
    assert_eq!(entry.loc(), loc(4, 6));
}

#[test]
fn list_entry_loc_without_separator() {
    let entry = ListEntry {
        item: vd("x", 4, 5),
        comma: None,
    };
    assert_eq!(entry.loc(), loc(4, 5));
}

#[test]
fn var_decls_loc_spans_first_to_last() {
    let decls = VarDecls {
        decls: vec![
            ListEntry {
                item: vd("x", 4, 5),
                comma: Some(sl(",", 5, 6)),
            },
            ListEntry {
                item: vd("y = 'huh?'", 7, 17),
                comma: None,
            },
        ],
    };
    assert_eq!(decls.loc(), loc(4, 17));
}

#[test]
fn var_stmt_loc_with_terminator() {
    let st = Stmt::Var {
        decls: VarDecls {
            decls: vec![ListEntry {
                item: vd("x", 4, 5),
                comma: None,
            }],
        },
        semi_colon: Some(sl(";", 5, 6)),
    };
    assert_eq!(st.loc(), loc(4, 6));
}

#[test]
fn var_stmt_loc_without_terminator() {
    let st = Stmt::Var {
        decls: VarDecls {
            decls: vec![ListEntry {
                item: vd("x", 4, 5),
                comma: None,
            }],
        },
        semi_colon: None,
    };
    assert_eq!(st.loc(), loc(4, 5));
}

#[test]
fn labeled_while_loc_runs_to_loop_body_end() {
    // outer: while (true) { break outer; }
    let st = LabeledStmt {
        label: id("outer", 0, 5),
        colon: sl(":", 5, 6),
        body: Box::new(Stmt::While(WhileStmt {
            keyword: sl("while", 7, 12),
            open_paren: sl("(", 13, 14),
            test: ex("true", 14, 18),
            close_paren: sl(")", 18, 19),
            body: Box::new(Stmt::Block(BlockStmt {
                open_brace: sl("{", 20, 21),
                stmts: vec![ProgramPart::Stmt(Stmt::Break {
                    keyword: sl("break", 22, 27),
                    label: Some(id("outer", 28, 33)),
                    semi_colon: Some(sl(";", 33, 34)),
                })],
                close_brace: sl("}", 35, 36),
            })),
        })),
    };
    assert_eq!(st.loc(), loc(0, 36));
}

#[test]
fn role_loc_spans_keyword_to_close_brace() {
    let role = Role {
        keyword: sl("role", 0, 4),
        id: Some(id("name", 5, 9)),
        body: RoleBody {
            open_brace: sl("{", 10, 11),
            props: vec![
                Prop {
                    key: sl("a", 12, 13),
                    colon: sl(":", 13, 14),
                    value: sl("1", 15, 16),
                },
                Prop {
                    key: sl("b", 18, 19),
                    colon: sl(":", 19, 20),
                    value: sl("2", 21, 22),
                },
            ],
            close_brace: sl("}", 23, 24),
        },
    };
    assert_eq!(role.loc(), loc(0, 24));
    assert_eq!(role.body.loc(), loc(10, 24));
}

#[test]
fn prop_loc_spans_key_to_value() {
    let prop = Prop {
        key: sl("a", 12, 13),
        colon: sl(":", 13, 14),
        value: sl("1", 15, 16),
    };
    assert_eq!(prop.loc(), loc(12, 16));
}

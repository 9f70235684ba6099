//! The spanned → allocated conversion: total, structure-preserving, and
//! forgetful of delimiters, locations and optional terminators.

use stmt_ast::spanned;
use stmt_ast::spanned::stmt as sp;
use stmt_ast::stmt as al;
use stmt_ast::{ProgramPart, Prop};

fn sl(text: &str, start: usize, end: usize) -> spanned::Slice {
    spanned::Slice {
        source: text.to_string(),
        loc: spanned::SourceLocation { start, end },
    }
}

fn ex(text: &str, start: usize, end: usize) -> spanned::Expr {
    spanned::Expr {
        slice: sl(text, start, end),
    }
}

fn id(name: &str, start: usize, end: usize) -> spanned::Ident {
    spanned::Ident {
        slice: sl(name, start, end),
    }
}

fn vd(text: &str, start: usize, end: usize) -> spanned::VarDecl {
    spanned::VarDecl {
        slice: sl(text, start, end),
    }
}

fn entry(text: &str, start: usize, end: usize) -> spanned::ListEntry {
    spanned::ListEntry {
        item: vd(text, start, end),
        comma: None,
    }
}

fn empty_block(start: usize, end: usize) -> sp::BlockStmt {
    sp::BlockStmt {
        open_brace: sl("{", start, start + 1),
        stmts: Vec::new(),
        close_brace: sl("}", end - 1, end),
    }
}

#[test]
fn bare_return_converts_without_value() {
    // return;
    let st = sp::Stmt::Return {
        keyword: sl("return", 0, 6),
        value: None,
        semi_colon: Some(sl(";", 6, 7)),
    };
    assert_eq!(st.into_allocated(), al::Stmt::Return(None));
}

#[test]
fn if_else_converts_consequent_and_alternate() {
    // if (a) b; else c;
    let st = sp::IfStmt {
        keyword: sl("if", 0, 2),
        open_paren: sl("(", 3, 4),
        test: ex("a", 4, 5),
        close_paren: sl(")", 5, 6),
        consequent: Box::new(sp::Stmt::Expr {
            expr: ex("b", 7, 8),
            semi_colon: Some(sl(";", 8, 9)),
        }),
        alternate: Some(Box::new(sp::ElseStmt {
            keyword: sl("else", 10, 14),
            body: sp::Stmt::Expr {
                expr: ex("c", 15, 16),
                semi_colon: Some(sl(";", 16, 17)),
            },
        })),
    };
    let converted = st.into_allocated();
    assert_eq!(converted.test.text, "a");
    match *converted.consequent {
        al::Stmt::Expr(ref e) => assert_eq!(e.text, "b"),
        ref other => panic!("consequent has the wrong shape: {:?}", other),
    }
    match converted.alternate {
        Some(alt) => match *alt {
            al::Stmt::Expr(ref e) => assert_eq!(e.text, "c"),
            ref other => panic!("alternate has the wrong shape: {:?}", other),
        },
        None => panic!("alternate was dropped"),
    }
}

#[test]
fn every_leaf_variant_converts() {
    let empty = sp::Stmt::Empty(sl(";", 0, 1));
    assert_eq!(empty.into_allocated(), al::Stmt::Empty);

    let debugger = sp::Stmt::Debugger {
        keyword: sl("debugger", 0, 8),
        semi_colon: None,
    };
    assert_eq!(debugger.into_allocated(), al::Stmt::Debugger);

    let brk = sp::Stmt::Break {
        keyword: sl("break", 0, 5),
        label: Some(id("out", 6, 9)),
        semi_colon: None,
    };
    match brk.into_allocated() {
        al::Stmt::Break(Some(label)) => assert_eq!(label.name, "out"),
        other => panic!("break has the wrong shape: {:?}", other),
    }

    let cont = sp::Stmt::Continue {
        keyword: sl("continue", 0, 8),
        label: None,
        semi_colon: Some(sl(";", 8, 9)),
    };
    assert_eq!(cont.into_allocated(), al::Stmt::Continue(None));

    let throw = sp::Stmt::Throw {
        keyword: sl("throw", 0, 5),
        expr: ex("oops", 6, 10),
        semi_colon: None,
    };
    match throw.into_allocated() {
        al::Stmt::Throw(e) => assert_eq!(e.text, "oops"),
        other => panic!("throw has the wrong shape: {:?}", other),
    }
}

#[test]
fn block_conversion_keeps_part_count_and_order() {
    let block = sp::BlockStmt {
        open_brace: sl("{", 0, 1),
        stmts: vec![
            spanned::ProgramPart::Stmt(sp::Stmt::Expr {
                expr: ex("first", 2, 7),
                semi_colon: Some(sl(";", 7, 8)),
            }),
            spanned::ProgramPart::Decl(spanned::Decl {
                slice: sl("second", 9, 15),
            }),
            spanned::ProgramPart::Stmt(sp::Stmt::Expr {
                expr: ex("third", 16, 21),
                semi_colon: None,
            }),
        ],
        close_brace: sl("}", 22, 23),
    };
    let converted = block.into_allocated();
    assert_eq!(converted.0.len(), 3);
    match &converted.0[0] {
        ProgramPart::Stmt(al::Stmt::Expr(e)) => assert_eq!(e.text, "first"),
        other => panic!("first part has the wrong shape: {:?}", other),
    }
    match &converted.0[1] {
        ProgramPart::Decl(d) => assert_eq!(d.text, "second"),
        other => panic!("second part has the wrong shape: {:?}", other),
    }
    match &converted.0[2] {
        ProgramPart::Stmt(al::Stmt::Expr(e)) => assert_eq!(e.text, "third"),
        other => panic!("third part has the wrong shape: {:?}", other),
    }
}

#[test]
fn switch_conversion_keeps_cases_and_drops_delimiters() {
    let st = sp::SwitchStmt {
        keyword: sl("switch", 0, 6),
        open_paren: sl("(", 7, 8),
        discriminant: ex("x", 8, 9),
        close_paren: sl(")", 9, 10),
        open_brace: sl("{", 11, 12),
        cases: vec![
            sp::SwitchCase {
                keyword: sl("case", 13, 17),
                test: Some(ex("1", 18, 19)),
                colon: sl(":", 19, 20),
                consequent: vec![spanned::ProgramPart::Stmt(sp::Stmt::Break {
                    keyword: sl("break", 21, 26),
                    label: None,
                    semi_colon: Some(sl(";", 26, 27)),
                })],
            },
            sp::SwitchCase {
                keyword: sl("default", 28, 35),
                test: None,
                colon: sl(":", 35, 36),
                consequent: Vec::new(),
            },
        ],
        close_brace: sl("}", 37, 38),
    };
    let converted = st.into_allocated();
    assert_eq!(converted.discriminant.text, "x");
    assert_eq!(converted.cases.len(), 2);
    assert_eq!(converted.cases[0].test.as_ref().map(|t| t.text.as_str()), Some("1"));
    assert_eq!(converted.cases[0].consequent.len(), 1);
    assert!(converted.cases[1].test.is_none());
    assert!(converted.cases[1].consequent.is_empty());
}

#[test]
fn try_conversion_unwraps_catch_arg_and_finally() {
    let st = sp::TryStmt {
        keyword: sl("try", 0, 3),
        block: empty_block(4, 6),
        handler: Some(sp::CatchClause {
            keyword: sl("catch", 7, 12),
            param: Some(sp::CatchArg {
                open_paren: sl("(", 13, 14),
                param: spanned::Pat {
                    slice: sl("e", 14, 15),
                },
                close_paren: sl(")", 15, 16),
            }),
            body: empty_block(17, 19),
        }),
        finalizer: Some(sp::FinallyClause {
            keyword: sl("finally", 20, 27),
            body: empty_block(28, 30),
        }),
    };
    let converted = st.into_allocated();
    let handler = converted.handler.expect("handler was dropped");
    assert_eq!(handler.param.as_ref().map(|p| p.text.as_str()), Some("e"));
    assert!(handler.body.0.is_empty());
    let finalizer = converted.finalizer.expect("finalizer was dropped");
    assert!(finalizer.0.is_empty());
}

#[test]
fn nested_loops_convert_depth_first() {
    // outer: while (true) { break outer; }
    let st = sp::Stmt::Labeled(sp::LabeledStmt {
        label: id("outer", 0, 5),
        colon: sl(":", 5, 6),
        body: Box::new(sp::Stmt::While(sp::WhileStmt {
            keyword: sl("while", 7, 12),
            open_paren: sl("(", 13, 14),
            test: ex("true", 14, 18),
            close_paren: sl(")", 18, 19),
            body: Box::new(sp::Stmt::Block(sp::BlockStmt {
                open_brace: sl("{", 20, 21),
                stmts: vec![spanned::ProgramPart::Stmt(sp::Stmt::Break {
                    keyword: sl("break", 22, 27),
                    label: Some(id("outer", 28, 33)),
                    semi_colon: Some(sl(";", 33, 34)),
                })],
                close_brace: sl("}", 35, 36),
            })),
        })),
    });
    match st.into_allocated() {
        al::Stmt::Labeled(labeled) => {
            assert_eq!(labeled.label.name, "outer");
            match *labeled.body {
                al::Stmt::While(w) => {
                    assert_eq!(w.test.text, "true");
                    match *w.body {
                        al::Stmt::Block(block) => {
                            assert_eq!(block.0.len(), 1);
                            match &block.0[0] {
                                ProgramPart::Stmt(al::Stmt::Break(Some(label))) => {
                                    assert_eq!(label.name, "outer")
                                }
                                other => panic!("break has the wrong shape: {:?}", other),
                            }
                        }
                        other => panic!("while body has the wrong shape: {:?}", other),
                    }
                }
                other => panic!("labeled body has the wrong shape: {:?}", other),
            }
        }
        other => panic!("statement has the wrong shape: {:?}", other),
    }
}

#[test]
fn for_conversion_keeps_the_optional_header_parts() {
    let st = sp::ForStmt {
        keyword: sl("for", 0, 3),
        open_paren: sl("(", 4, 5),
        init: Some(sp::LoopInit::Variable(
            spanned::VarKind {
                slice: sl("var", 5, 8),
            },
            vec![entry("i = 0", 9, 14)],
        )),
        semi1: sl(";", 14, 15),
        test: Some(ex("i < 10", 16, 22)),
        semi2: sl(";", 22, 23),
        update: Some(ex("i++", 24, 27)),
        close_paren: sl(")", 27, 28),
        body: Box::new(sp::Stmt::Expr {
            expr: ex("x", 29, 30),
            semi_colon: Some(sl(";", 30, 31)),
        }),
    };
    let converted = st.into_allocated();
    match converted.init {
        Some(al::LoopInit::Variable(kind, decls)) => {
            assert_eq!(kind.text, "var");
            assert_eq!(decls.len(), 1);
            assert_eq!(decls[0].text, "i = 0");
        }
        other => panic!("init has the wrong shape: {:?}", other),
    }
    assert_eq!(converted.test.map(|t| t.text), Some("i < 10".to_string()));
    assert_eq!(converted.update.map(|u| u.text), Some("i++".to_string()));
}

#[test]
fn for_of_conversion_keeps_the_await_flag() {
    let st = sp::ForOfStmt {
        keyword_for: sl("for", 0, 3),
        open_paren: sl("(", 4, 5),
        left: sp::LoopLeft::Pat(spanned::Pat {
            slice: sl("[a]", 5, 8),
        }),
        keyword_of: sl("of", 12, 14),
        right: ex("stream", 15, 21),
        close_paren: sl(")", 21, 22),
        body: Box::new(sp::Stmt::Empty(sl(";", 23, 24))),
        is_await: true,
    };
    let converted = st.into_allocated();
    assert!(converted.is_await);
    match converted.left {
        al::LoopLeft::Pat(pat) => assert_eq!(pat.text, "[a]"),
        other => panic!("left has the wrong shape: {:?}", other),
    }
}

#[test]
fn var_conversion_unwraps_list_entries_in_order() {
    let st = sp::Stmt::Var {
        decls: spanned::VarDecls {
            decls: vec![
                spanned::ListEntry {
                    item: vd("x", 4, 5),
                    comma: Some(sl(",", 5, 6)),
                },
                spanned::ListEntry {
                    item: vd("y = 'huh?'", 7, 17),
                    comma: None,
                },
            ],
        },
        semi_colon: Some(sl(";", 17, 18)),
    };
    match st.into_allocated() {
        al::Stmt::Var(decls) => {
            assert_eq!(decls.len(), 2);
            assert_eq!(decls[0].text, "x");
            assert_eq!(decls[1].text, "y = 'huh?'");
        }
        other => panic!("var has the wrong shape: {:?}", other),
    }
}

#[test]
fn terminator_presence_is_not_preserved() {
    let with_semi = sp::Stmt::Return {
        keyword: sl("return", 0, 6),
        value: Some(ex("x", 7, 8)),
        semi_colon: Some(sl(";", 8, 9)),
    };
    let without_semi = sp::Stmt::Return {
        keyword: sl("return", 0, 6),
        value: Some(ex("x", 7, 8)),
        semi_colon: None,
    };
    // The two convert to equal allocated statements: the conversion cannot be
    // inverted.
    assert_eq!(with_semi.into_allocated(), without_semi.into_allocated());
}

#[test]
fn do_while_terminator_is_not_preserved() {
    let build = |semi: Option<spanned::Slice>| sp::DoWhileStmt {
        keyword_do: sl("do", 0, 2),
        body: Box::new(sp::Stmt::Empty(sl(";", 3, 4))),
        keyword_while: sl("while", 5, 10),
        open_paren: sl("(", 11, 12),
        test: ex("false", 12, 17),
        close_paren: sl(")", 17, 18),
        semi_colon: semi,
    };
    let with_semi = build(Some(sl(";", 18, 19)));
    let without_semi = build(None);
    assert_eq!(with_semi.into_allocated(), without_semi.into_allocated());
}

#[test]
fn with_conversion_drops_keyword_and_parens() {
    let st = sp::WithStmt {
        keyword: sl("with", 0, 4),
        open_paren: sl("(", 5, 6),
        object: ex("scope", 6, 11),
        close_paren: sl(")", 11, 12),
        body: Box::new(sp::Stmt::Empty(sl(";", 13, 14))),
    };
    let converted = st.into_allocated();
    assert_eq!(converted.object.text, "scope");
    assert_eq!(*converted.body, al::Stmt::Empty);
}

#[test]
fn role_conversion_keeps_identifier_and_ordered_pairs() {
    // name { a: 1, b: 2 }
    let role = spanned::dci::Role {
        keyword: sl("role", 0, 4),
        id: Some(id("name", 5, 9)),
        body: spanned::dci::RoleBody {
            open_brace: sl("{", 10, 11),
            props: vec![
                spanned::Prop {
                    key: sl("a", 12, 13),
                    colon: sl(":", 13, 14),
                    value: sl("1", 15, 16),
                },
                spanned::Prop {
                    key: sl("b", 18, 19),
                    colon: sl(":", 19, 20),
                    value: sl("2", 21, 22),
                },
            ],
            close_brace: sl("}", 23, 24),
        },
    };
    let converted = role.into_allocated();
    assert_eq!(converted.id.map(|i| i.name), Some("name".to_string()));
    assert_eq!(
        converted.body.0,
        vec![
            Prop {
                key: "a".to_string(),
                value: "1".to_string(),
            },
            Prop {
                key: "b".to_string(),
                value: "2".to_string(),
            },
        ]
    );
}

#[test]
fn role_without_identifier_converts() {
    let role = spanned::dci::Role {
        keyword: sl("role", 0, 4),
        id: None,
        body: spanned::dci::RoleBody {
            open_brace: sl("{", 5, 6),
            props: Vec::new(),
            close_brace: sl("}", 7, 8),
        },
    };
    let converted = role.into_allocated();
    assert!(converted.id.is_none());
    assert!(converted.body.0.is_empty());
}

use requote::literal::requote;
use requote::traverse::{process_expression, process_module};
use requote::tree::{
    AssignTargetExpression, BaseSlice, ClassDef, CompoundStatement, DelTargetExpression, Element,
    ExceptHandler, ExceptStarHandler, Expression, For, FunctionDef, If, Match, MatchCase,
    MatchClass, MatchMappingElement, MatchPattern, MatchSequence, Module, NameOrAttribute, OrElse,
    Param, Parameters, SimpleString, SmallStatement, StarArg, StarrableMatchSequenceElement,
    Statement, Subscript, Suite, Try, TryStar, TypeParam, TypeParameters, TypeVarLike, While,
    With, WithItem,
};

fn lit(slot: usize) -> Expression {
    Expression::SimpleString(SimpleString { slot })
}

fn name() -> Expression {
    Expression::Other(Vec::new())
}

fn line(statements: Vec<SmallStatement>) -> Statement {
    Statement::Simple(statements)
}

fn expr(e: Expression) -> Statement {
    line(vec![SmallStatement::Expr(e)])
}

fn pass() -> Suite {
    Suite::SimpleStatementSuite(vec![SmallStatement::Other])
}

fn module(body: Vec<Statement>) -> Module {
    Module { body }
}

fn compound(c: CompoundStatement) -> Module {
    module(vec![Statement::Compound(c)])
}

fn no_parameters() -> Parameters {
    Parameters {
        params: Vec::new(),
        star_arg: None,
        kwonly_params: Vec::new(),
        star_kwarg: None,
        posonly_params: Vec::new(),
    }
}

fn run(m: &Module, texts: &[&str]) -> Vec<String> {
    let mut literals: Vec<String> = texts.iter().map(|t| t.to_string()).collect();
    process_module(m, &mut literals);
    literals
}

fn all_requoted(m: &Module, n: usize) {
    let texts: Vec<String> = (0..n).map(|i| format!("\"s{}\"", i)).collect();
    let refs: Vec<&str> = texts.iter().map(|t| t.as_str()).collect();
    let out = run(m, &refs);
    for (i, t) in out.iter().enumerate() {
        assert_eq!(t, &format!("'s{}'", i), "slot {}", i);
    }
}

fn none_requoted(m: &Module, n: usize) {
    let texts: Vec<String> = (0..n).map(|i| format!("\"s{}\"", i)).collect();
    let refs: Vec<&str> = texts.iter().map(|t| t.as_str()).collect();
    let out = run(m, &refs);
    assert_eq!(out, texts);
}

#[test]
fn requote_replaces_every_double_quote() {
    assert_eq!(requote("\"hello\""), "'hello'");
    assert_eq!(requote("'keep'"), "'keep'");
    assert_eq!(requote(""), "");
    assert_eq!(requote("r\"a\"\"b\""), "r'a''b'");
    assert_eq!(requote("\"héllo ☃\""), "'héllo ☃'");
}

#[test]
fn assignment_of_a_literal() {
    let m = module(vec![line(vec![SmallStatement::Assign {
        targets: vec![AssignTargetExpression::Name],
        value: lit(0),
    }])]);
    assert_eq!(run(&m, &["\"hello\""]), vec!["'hello'"]);
}

#[test]
fn function_default_return_annotation_and_return_value() {
    let f = FunctionDef {
        type_parameters: None,
        params: Parameters {
            params: vec![Param { annotation: Some(name()), default: Some(lit(0)) }],
            ..no_parameters()
        },
        body: Suite::SimpleStatementSuite(vec![SmallStatement::Return(Some(lit(2)))]),
        decorators: Vec::new(),
        returns: Some(lit(1)),
    };
    let m = compound(CompoundStatement::FunctionDef(f));
    assert_eq!(run(&m, &["\"x\"", "\"T\"", "\"y\""]), vec!["'x'", "'T'", "'y'"]);
}

#[test]
fn single_quoted_literal_unchanged() {
    let m = module(vec![line(vec![SmallStatement::Assign {
        targets: vec![AssignTargetExpression::Name],
        value: lit(0),
    }])]);
    assert_eq!(run(&m, &["'keep'"]), vec!["'keep'"]);
}

#[test]
fn invalid_for_target_does_not_parse() {
    assert!(libcst_native::parse_module("for k, \"v\" in items: pass\n", None).is_err());
}

#[test]
fn subscript_key_in_for_target() {
    let f = For {
        target: AssignTargetExpression::Subscript(Subscript {
            value: name(),
            slice: vec![BaseSlice::Index(lit(0))],
        }),
        iter: name(),
        body: pass(),
        orelse: None,
    };
    let m = compound(CompoundStatement::For(f));
    assert_eq!(run(&m, &["\"k\""]), vec!["'k'"]);
}

#[test]
fn class_type_parameter_bound() {
    let c = ClassDef {
        type_parameters: Some(TypeParameters {
            params: vec![TypeParam {
                param: TypeVarLike::TypeVar { bound: Some(lit(0)) },
                default: None,
            }],
        }),
        body: pass(),
        bases: Vec::new(),
        keywords: Vec::new(),
        decorators: Vec::new(),
    };
    let m = compound(CompoundStatement::ClassDef(c));
    assert_eq!(run(&m, &["\"Base\""]), vec!["'Base'"]);
}

#[test]
fn lambda_body_left_alone() {
    // f = lambda: "x"
    let m = module(vec![line(vec![SmallStatement::Assign {
        targets: vec![AssignTargetExpression::Name],
        value: Expression::Other(vec![lit(0)]),
    }])]);
    assert_eq!(run(&m, &["\"x\""]), vec!["\"x\""]);
}

#[test]
fn other_expressions_are_not_entered() {
    // print("a"), [x for x in "b"], f"{'c'}"
    let m = module(vec![
        expr(Expression::Other(vec![name(), lit(0)])),
        expr(Expression::Other(vec![name(), Expression::Other(vec![lit(1)])])),
        expr(Expression::Other(vec![lit(2)])),
    ]);
    none_requoted(&m, 3);
    let mut literals = vec!["\"q\"".to_string()];
    process_expression(&Expression::Other(vec![lit(0)]), &mut literals);
    assert_eq!(literals, vec!["\"q\""]);
}

#[test]
fn skipped_fields_are_not_visited() {
    // d["a"] = 1;  x: "T" = "v";  match s: case 1: "body"
    let m = module(vec![
        line(vec![SmallStatement::Assign {
            targets: vec![AssignTargetExpression::Subscript(Subscript {
                value: name(),
                slice: vec![BaseSlice::Index(lit(0))],
            })],
            value: name(),
        }]),
        line(vec![SmallStatement::AnnAssign {
            target: AssignTargetExpression::Name,
            annotation: lit(1),
            value: Some(lit(2)),
        }]),
        Statement::Compound(CompoundStatement::Match(Match {
            subject: name(),
            cases: vec![MatchCase {
                pattern: MatchPattern::Value(name()),
                guard: None,
                body: Suite::IndentedBlock(vec![expr(lit(3))]),
            }],
        })),
    ]);
    none_requoted(&m, 4);
}

#[test]
fn rewriting_twice_changes_nothing_more() {
    let m = module(vec![expr(lit(0)), expr(lit(1)), expr(Expression::Other(vec![lit(2)]))]);
    let texts = ["\"a\"", "'b\"c'", "\"d\""];
    let once = run(&m, &texts);
    let refs: Vec<&str> = once.iter().map(|t| t.as_str()).collect();
    let twice = run(&m, &refs);
    assert_eq!(once, twice);
    assert_eq!(once, vec!["'a'", "'b'c'", "\"d\""]);
}

#[test]
fn only_target_quotes_change() {
    let m = module(vec![expr(lit(0)), expr(Expression::Other(vec![lit(1)]))]);
    let before = ["\"a b # not a comment \\n\"", "\"inside a call\""];
    let after = run(&m, &before);
    assert_eq!(after[1], before[1]);
    assert_eq!(after[0].chars().count(), before[0].chars().count());
    for (a, b) in after[0].chars().zip(before[0].chars()) {
        if a != b {
            assert_eq!((b, a), ('"', '\''));
        }
    }
    assert_eq!(after[0], "'a b # not a comment \\n'");
}

#[test]
fn escaped_quote_is_swapped_without_reescaping() {
    let m = module(vec![expr(lit(0))]);
    assert_eq!(run(&m, &["\"a\\\"b\""]), vec!["'a\\'b'"]);
}

#[test]
fn slot_outside_the_store_is_ignored() {
    let m = module(vec![expr(lit(5)), expr(lit(0))]);
    assert_eq!(run(&m, &["\"a\""]), vec!["'a'"]);
}

#[test]
fn empty_module_changes_nothing() {
    let m = module(Vec::new());
    assert_eq!(run(&m, &["\"a\""]), vec!["\"a\""]);
}

#[test]
fn simple_statement_line_each_small_statement() {
    let m = module(vec![line(vec![
        SmallStatement::Expr(lit(0)),
        SmallStatement::Other,
        SmallStatement::Expr(lit(1)),
    ])]);
    all_requoted(&m, 2);
}

#[test]
fn function_def_every_field() {
    let f = FunctionDef {
        type_parameters: Some(TypeParameters {
            params: vec![TypeParam { param: TypeVarLike::TypeVarTuple, default: Some(lit(0)) }],
        }),
        params: Parameters {
            params: vec![Param { annotation: Some(lit(1)), default: None }],
            star_arg: Some(StarArg::Param(Param { annotation: Some(lit(2)), default: None })),
            kwonly_params: vec![Param { annotation: None, default: Some(lit(3)) }],
            star_kwarg: Some(Param { annotation: Some(lit(4)), default: None }),
            posonly_params: vec![Param { annotation: Some(lit(5)), default: Some(lit(6)) }],
        },
        body: Suite::IndentedBlock(vec![expr(lit(7))]),
        decorators: vec![lit(8)],
        returns: Some(lit(9)),
    };
    all_requoted(&compound(CompoundStatement::FunctionDef(f)), 10);
}

#[test]
fn class_def_every_field() {
    let c = ClassDef {
        type_parameters: Some(TypeParameters {
            params: vec![TypeParam { param: TypeVarLike::ParamSpec, default: Some(lit(0)) }],
        }),
        body: Suite::IndentedBlock(vec![expr(lit(1))]),
        bases: vec![lit(2)],
        keywords: vec![lit(3)],
        decorators: vec![lit(4)],
    };
    all_requoted(&compound(CompoundStatement::ClassDef(c)), 5);
}

#[test]
fn if_elif_else_chain() {
    let i = If {
        test: lit(0),
        body: Suite::IndentedBlock(vec![expr(lit(1))]),
        orelse: Some(Box::new(OrElse::Elif(If {
            test: lit(2),
            body: pass(),
            orelse: Some(Box::new(OrElse::Else(Suite::IndentedBlock(vec![expr(lit(3))])))),
        }))),
    };
    all_requoted(&compound(CompoundStatement::If(i)), 4);
}

#[test]
fn for_every_field() {
    let f = For {
        target: AssignTargetExpression::Attribute(lit(0)),
        iter: lit(1),
        body: Suite::IndentedBlock(vec![expr(lit(2))]),
        orelse: Some(Suite::SimpleStatementSuite(vec![SmallStatement::Expr(lit(3))])),
    };
    all_requoted(&compound(CompoundStatement::For(f)), 4);
}

#[test]
fn while_every_field() {
    let w = While {
        test: lit(0),
        body: Suite::IndentedBlock(vec![expr(lit(1))]),
        orelse: Some(Suite::IndentedBlock(vec![expr(lit(2))])),
    };
    all_requoted(&compound(CompoundStatement::While(w)), 3);
}

#[test]
fn try_every_field() {
    let t = Try {
        body: Suite::IndentedBlock(vec![expr(lit(0))]),
        handlers: vec![ExceptHandler {
            body: Suite::IndentedBlock(vec![expr(lit(1))]),
            type_: Some(lit(2)),
            name: Some(AssignTargetExpression::StarredElement(lit(3))),
        }],
        orelse: Some(Suite::IndentedBlock(vec![expr(lit(4))])),
        finalbody: Some(Suite::IndentedBlock(vec![expr(lit(5))])),
    };
    all_requoted(&compound(CompoundStatement::Try(t)), 6);
}

#[test]
fn try_star_every_field() {
    let t = TryStar {
        body: Suite::IndentedBlock(vec![expr(lit(0))]),
        handlers: vec![ExceptStarHandler {
            body: Suite::IndentedBlock(vec![expr(lit(1))]),
            type_: lit(2),
            name: Some(AssignTargetExpression::List(vec![Element::Simple(lit(3))])),
        }],
        orelse: Some(Suite::IndentedBlock(vec![expr(lit(4))])),
        finalbody: Some(Suite::IndentedBlock(vec![expr(lit(5))])),
    };
    all_requoted(&compound(CompoundStatement::TryStar(t)), 6);
}

#[test]
fn with_every_field() {
    let w = With {
        items: vec![WithItem {
            item: lit(0),
            asname: Some(AssignTargetExpression::Tuple(vec![Element::Starred(lit(1))])),
        }],
        body: Suite::IndentedBlock(vec![expr(lit(2))]),
    };
    all_requoted(&compound(CompoundStatement::With(w)), 3);
}

#[test]
fn match_subject_patterns_and_guard() {
    let cases = vec![
        MatchCase { pattern: MatchPattern::Value(lit(1)), guard: Some(lit(2)), body: pass() },
        MatchCase {
            pattern: MatchPattern::Sequence(MatchSequence::MatchList(vec![
                StarrableMatchSequenceElement::Simple(MatchPattern::Value(lit(3))),
                StarrableMatchSequenceElement::Starred,
            ])),
            guard: None,
            body: pass(),
        },
        MatchCase {
            pattern: MatchPattern::Sequence(MatchSequence::MatchTuple(vec![
                StarrableMatchSequenceElement::Simple(MatchPattern::Value(lit(4))),
            ])),
            guard: None,
            body: pass(),
        },
        MatchCase {
            pattern: MatchPattern::Mapping(vec![MatchMappingElement {
                key: lit(5),
                pattern: MatchPattern::Value(lit(6)),
            }]),
            guard: None,
            body: pass(),
        },
        MatchCase {
            pattern: MatchPattern::Class(MatchClass {
                cls: NameOrAttribute::Attribute(lit(7)),
                patterns: vec![MatchPattern::Value(lit(8))],
                kwds: vec![MatchPattern::Value(lit(9))],
            }),
            guard: None,
            body: pass(),
        },
        MatchCase {
            pattern: MatchPattern::As(Some(Box::new(MatchPattern::Or(vec![
                MatchPattern::Singleton,
                MatchPattern::Value(lit(10)),
            ])))),
            guard: None,
            body: pass(),
        },
    ];
    let m = compound(CompoundStatement::Match(Match { subject: lit(0), cases }));
    all_requoted(&m, 11);
}

#[test]
fn small_statements_every_kind() {
    let m = module(vec![line(vec![
        SmallStatement::Return(Some(lit(0))),
        SmallStatement::Expr(lit(1)),
        SmallStatement::Assert { test: lit(2), msg: Some(lit(3)) },
        SmallStatement::Assign { targets: vec![AssignTargetExpression::Name], value: lit(4) },
        SmallStatement::AnnAssign {
            target: AssignTargetExpression::Attribute(lit(5)),
            annotation: name(),
            value: None,
        },
        SmallStatement::Raise { exc: Some(lit(6)), cause: Some(lit(7)) },
        SmallStatement::AugAssign { target: AssignTargetExpression::Attribute(lit(8)), value: lit(9) },
        SmallStatement::Del(DelTargetExpression::Attribute(lit(10))),
        SmallStatement::TypeAlias {
            type_parameters: Some(TypeParameters {
                params: vec![TypeParam {
                    param: TypeVarLike::TypeVar { bound: Some(lit(11)) },
                    default: Some(lit(12)),
                }],
            }),
            value: lit(13),
        },
    ])]);
    all_requoted(&m, 14);
}

#[test]
fn targets_every_kind() {
    let subscript = || Subscript {
        value: lit(0),
        slice: vec![
            BaseSlice::Index(lit(1)),
            BaseSlice::Slice { lower: Some(lit(2)), upper: Some(lit(3)), step: Some(lit(4)) },
        ],
    };
    let m = module(vec![line(vec![
        SmallStatement::AugAssign {
            target: AssignTargetExpression::Subscript(subscript()),
            value: name(),
        },
        SmallStatement::Del(DelTargetExpression::Subscript(subscript())),
        SmallStatement::Del(DelTargetExpression::Tuple(vec![
            Element::Simple(lit(5)),
            Element::Starred(lit(6)),
        ])),
        SmallStatement::Del(DelTargetExpression::List(vec![Element::Simple(lit(7))])),
        SmallStatement::AugAssign {
            target: AssignTargetExpression::List(vec![Element::Simple(lit(8))]),
            value: name(),
        },
        SmallStatement::Del(DelTargetExpression::Name),
    ])]);
    all_requoted(&m, 9);
}

#[test]
fn deeply_nested_suites() {
    let mut body = vec![expr(lit(0))];
    for _ in 0..50 {
        body = vec![Statement::Compound(CompoundStatement::While(While {
            test: name(),
            body: Suite::IndentedBlock(body),
            orelse: None,
        }))];
    }
    all_requoted(&module(body), 1);
}

#[test]
fn same_slot_twice_is_requoted_once() {
    let m = module(vec![expr(lit(0)), expr(lit(0))]);
    assert_eq!(run(&m, &["\"a\""]), vec!["'a'"]);
}

#[test]
fn tuple_on_right_of_assignment() {
    // x = ("k",)
    let m = module(vec![line(vec![SmallStatement::Assign {
        targets: vec![AssignTargetExpression::Name],
        value: Expression::Tuple(vec![Element::Simple(lit(0))]),
    }])]);
    assert_eq!(run(&m, &["\"k\""]), vec!["'k'"]);
}

#[test]
fn subscript_on_right_of_assignment() {
    // x = d["k"]
    let m = module(vec![line(vec![SmallStatement::Assign {
        targets: vec![AssignTargetExpression::Name],
        value: Expression::Subscript(Box::new(Subscript {
            value: name(),
            slice: vec![BaseSlice::Index(lit(0))],
        })),
    }])]);
    assert_eq!(run(&m, &["\"k\""]), vec!["'k'"]);
}

#[test]
fn attribute_starred_and_list_expressions_entered() {
    // "a".b;  [*("c", ["d"])];  e["f":"g":"h"].i
    let m = module(vec![
        expr(Expression::Attribute(Box::new(lit(0)))),
        expr(Expression::List(vec![Element::Starred(Expression::StarredElement(Box::new(
            Expression::Tuple(vec![
                Element::Simple(lit(1)),
                Element::Simple(Expression::List(vec![Element::Simple(lit(2))])),
            ]),
        )))])),
        expr(Expression::Attribute(Box::new(Expression::Subscript(Box::new(Subscript {
            value: name(),
            slice: vec![BaseSlice::Slice {
                lower: Some(lit(3)),
                upper: Some(lit(4)),
                step: Some(lit(5)),
            }],
        }))))),
    ]);
    all_requoted(&m, 6);
}

#[test]
fn subscript_inside_for_target_tuple() {
    // for a, d["k"] in x: pass
    let f = For {
        target: AssignTargetExpression::Tuple(vec![
            Element::Simple(name()),
            Element::Simple(Expression::Subscript(Box::new(Subscript {
                value: name(),
                slice: vec![BaseSlice::Index(lit(0))],
            }))),
        ]),
        iter: name(),
        body: pass(),
        orelse: None,
    };
    let m = compound(CompoundStatement::For(f));
    assert_eq!(run(&m, &["\"k\""]), vec!["'k'"]);
}

#[test]
fn call_inside_tuple_not_entered() {
    // x = (f("a"), "b")
    let m = module(vec![line(vec![SmallStatement::Assign {
        targets: vec![AssignTargetExpression::Name],
        value: Expression::Tuple(vec![
            Element::Simple(Expression::Other(vec![name(), lit(0)])),
            Element::Simple(lit(1)),
        ]),
    }])]);
    assert_eq!(run(&m, &["\"a\"", "\"b\""]), vec!["\"a\"", "'b'"]);
}

#[test]
fn deeply_nested_expressions() {
    let mut e = lit(0);
    for i in 0..50 {
        e = if i % 2 == 0 {
            Expression::Tuple(vec![Element::Simple(e)])
        } else {
            Expression::Attribute(Box::new(e))
        };
    }
    all_requoted(&module(vec![expr(e)]), 1);
}

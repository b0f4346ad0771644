//! Which literals the traversal reaches: `reaches_x(x, k)` holds when a plain
//! string literal with slot `k` stands at a place of `x` that the traversal
//! visits. Expressions are entered through attribute access, starred elements,
//! subscripts (value, indices, slice bounds), tuples and lists, to any depth.
//! A literal nested inside any other expression kind (a call, a lambda, a
//! comprehension, an f-string, ...) is not reached, nor one in a field that the
//! dispatch leaves out (the targets of a plain assignment, the annotation and
//! value of an annotated one, the body of a match case).
use vstd::prelude::*;
use crate::tree::{
    AssignTargetExpression, BaseSlice, CompoundStatement, DelTargetExpression, Element,
    ClassDef, ExceptHandler, ExceptStarHandler, Expression, For, FunctionDef, If, Match, MatchCase,
    MatchMappingElement, MatchPattern, MatchSequence, Module, NameOrAttribute, OrElse, Param,
    Parameters, SmallStatement, StarArg, StarrableMatchSequenceElement, Statement, Subscript,
    Suite, TypeParam, TypeParameters, TypeVarLike, While, With, WithItem, Try, TryStar,
};

verus! {

pub open spec fn reaches_expression(e: Expression, k: int) -> bool
    decreases e,
{
    match e {
        Expression::SimpleString(s) => s.slot == k,
        Expression::Attribute(x) => reaches_expression(*x, k),
        Expression::StarredElement(x) => reaches_expression(*x, k),
        Expression::Subscript(s) => reaches_subscript(*s, k),
        Expression::Tuple(v) => reaches_elements(v@, k),
        Expression::List(v) => reaches_elements(v@, k),
        Expression::Other(_) => false,
    }
}

pub open spec fn reaches_optional_expression(e: Option<Expression>, k: int) -> bool
    decreases e,
{
    e matches Some(x) && reaches_expression(x, k)
}

pub open spec fn reaches_element(e: Element, k: int) -> bool
    decreases e,
{
    match e {
        Element::Simple(x) => reaches_expression(x, k),
        Element::Starred(x) => reaches_expression(x, k),
    }
}

/// One of the elements of `v` reaches `k`. Written as a recursion on the
/// length, so that it unfolds together with the expression-level predicates.
pub open spec fn reaches_elements(v: Seq<Element>, k: int) -> bool
    decreases v,
{
    if v.len() == 0 {
        false
    } else {
        reaches_elements(v.subrange(0, v.len() - 1), k) || reaches_element(v[v.len() - 1], k)
    }
}

pub open spec fn reaches_slice(s: BaseSlice, k: int) -> bool
    decreases s,
{
    match s {
        BaseSlice::Index(x) => reaches_expression(x, k),
        BaseSlice::Slice { lower, upper, step } => {
            ||| reaches_optional_expression(lower, k)
            ||| reaches_optional_expression(upper, k)
            ||| reaches_optional_expression(step, k)
        },
    }
}

pub open spec fn reaches_slices(v: Seq<BaseSlice>, k: int) -> bool
    decreases v,
{
    if v.len() == 0 {
        false
    } else {
        reaches_slices(v.subrange(0, v.len() - 1), k) || reaches_slice(v[v.len() - 1], k)
    }
}

pub open spec fn reaches_subscript(s: Subscript, k: int) -> bool
    decreases s,
{
    reaches_expression(s.value, k) || reaches_slices(s.slice@, k)
}

pub open spec fn reaches_expressions(v: Seq<Expression>, k: int) -> bool {
    exists|j: int| 0 <= j < v.len() && #[trigger] reaches_expression(v[j], k)
}

pub open spec fn reaches_assign_target(t: AssignTargetExpression, k: int) -> bool {
    match t {
        AssignTargetExpression::Name => false,
        AssignTargetExpression::Attribute(x) => reaches_expression(x, k),
        AssignTargetExpression::StarredElement(x) => reaches_expression(x, k),
        AssignTargetExpression::Tuple(v) => reaches_elements(v@, k),
        AssignTargetExpression::List(v) => reaches_elements(v@, k),
        AssignTargetExpression::Subscript(s) => reaches_subscript(s, k),
    }
}

pub open spec fn reaches_optional_assign_target(t: Option<AssignTargetExpression>, k: int) -> bool {
    t matches Some(x) && reaches_assign_target(x, k)
}

pub open spec fn reaches_del_target(t: DelTargetExpression, k: int) -> bool {
    match t {
        DelTargetExpression::Name => false,
        DelTargetExpression::Attribute(x) => reaches_expression(x, k),
        DelTargetExpression::Tuple(v) => reaches_elements(v@, k),
        DelTargetExpression::List(v) => reaches_elements(v@, k),
        DelTargetExpression::Subscript(s) => reaches_subscript(s, k),
    }
}

pub open spec fn reaches_type_var_like(p: TypeVarLike, k: int) -> bool {
    p matches TypeVarLike::TypeVar { bound } && reaches_optional_expression(bound, k)
}

pub open spec fn reaches_type_param(p: TypeParam, k: int) -> bool {
    reaches_type_var_like(p.param, k) || reaches_optional_expression(p.default, k)
}

pub open spec fn reaches_type_parameters(t: TypeParameters, k: int) -> bool {
    exists|j: int| 0 <= j < t.params@.len() && #[trigger] reaches_type_param(t.params@[j], k)
}

pub open spec fn reaches_optional_type_parameters(t: Option<TypeParameters>, k: int) -> bool {
    t matches Some(x) && reaches_type_parameters(x, k)
}

pub open spec fn reaches_param(p: Param, k: int) -> bool {
    reaches_optional_expression(p.annotation, k) || reaches_optional_expression(p.default, k)
}

pub open spec fn reaches_params(v: Seq<Param>, k: int) -> bool {
    exists|j: int| 0 <= j < v.len() && #[trigger] reaches_param(v[j], k)
}

pub open spec fn reaches_star_arg(s: Option<StarArg>, k: int) -> bool {
    s matches Some(StarArg::Param(p)) && reaches_param(p, k)
}

pub open spec fn reaches_optional_param(p: Option<Param>, k: int) -> bool {
    p matches Some(x) && reaches_param(x, k)
}

pub open spec fn reaches_parameters(p: Parameters, k: int) -> bool {
    ||| reaches_params(p.params@, k)
    ||| reaches_star_arg(p.star_arg, k)
    ||| reaches_params(p.kwonly_params@, k)
    ||| reaches_optional_param(p.star_kwarg, k)
    ||| reaches_params(p.posonly_params@, k)
}

pub open spec fn reaches_with_item(w: WithItem, k: int) -> bool {
    reaches_expression(w.item, k) || reaches_optional_assign_target(w.asname, k)
}

pub open spec fn reaches_with_items(v: Seq<WithItem>, k: int) -> bool {
    exists|j: int| 0 <= j < v.len() && #[trigger] reaches_with_item(v[j], k)
}

pub open spec fn reaches_pattern(p: MatchPattern, k: int) -> bool
    decreases p,
{
    match p {
        MatchPattern::Value(x) => reaches_expression(x, k),
        MatchPattern::Singleton => false,
        MatchPattern::Sequence(MatchSequence::MatchList(v)) => {
            exists|j: int|
                #![trigger v@[j]]
                0 <= j < v@.len() && v@[j] is Simple && reaches_pattern(v@[j]->Simple_0, k)
        },
        MatchPattern::Sequence(MatchSequence::MatchTuple(v)) => {
            exists|j: int|
                #![trigger v@[j]]
                0 <= j < v@.len() && v@[j] is Simple && reaches_pattern(v@[j]->Simple_0, k)
        },
        MatchPattern::Mapping(v) => {
            exists|j: int|
                #![trigger v@[j]]
                0 <= j < v@.len() && (reaches_expression(v@[j].key, k) || reaches_pattern(
                    v@[j].pattern,
                    k,
                ))
        },
        MatchPattern::Class(c) => {
            ||| c.cls matches NameOrAttribute::Attribute(x) && reaches_expression(x, k)
            ||| exists|j: int|
                #![trigger c.patterns@[j]]
                0 <= j < c.patterns@.len() && reaches_pattern(c.patterns@[j], k)
            ||| exists|j: int| #![trigger c.kwds@[j]] 0 <= j < c.kwds@.len() && reaches_pattern(c.kwds@[j], k)
        },
        MatchPattern::As(inner) => inner matches Some(b) && reaches_pattern(*b, k),
        MatchPattern::Or(v) => {
            exists|j: int| #![trigger v@[j]] 0 <= j < v@.len() && reaches_pattern(v@[j], k)
        },
    }
}

pub open spec fn reaches_sequence_element(e: StarrableMatchSequenceElement, k: int) -> bool {
    e is Simple && reaches_pattern(e->Simple_0, k)
}

pub open spec fn reaches_mapping_element(e: MatchMappingElement, k: int) -> bool {
    reaches_expression(e.key, k) || reaches_pattern(e.pattern, k)
}

pub open spec fn reaches_sequence_elements(v: Seq<StarrableMatchSequenceElement>, k: int) -> bool {
    exists|j: int| #![trigger v[j]] 0 <= j < v.len() && reaches_sequence_element(v[j], k)
}

pub open spec fn reaches_mapping_elements(v: Seq<MatchMappingElement>, k: int) -> bool {
    exists|j: int| #![trigger v[j]] 0 <= j < v.len() && reaches_mapping_element(v[j], k)
}

pub open spec fn reaches_patterns(v: Seq<MatchPattern>, k: int) -> bool {
    exists|j: int| #![trigger v[j]] 0 <= j < v.len() && reaches_pattern(v[j], k)
}

pub open spec fn reaches_case(c: MatchCase, k: int) -> bool {
    reaches_pattern(c.pattern, k) || reaches_optional_expression(c.guard, k)
}

pub open spec fn reaches_match(m: Match, k: int) -> bool {
    ||| reaches_expression(m.subject, k)
    ||| exists|j: int| 0 <= j < m.cases@.len() && #[trigger] reaches_case(m.cases@[j], k)
}

pub open spec fn reaches_small_statement(s: SmallStatement, k: int) -> bool {
    match s {
        SmallStatement::Return(value) => reaches_optional_expression(value, k),
        SmallStatement::Expr(x) => reaches_expression(x, k),
        SmallStatement::Assert { test, msg } => {
            reaches_expression(test, k) || reaches_optional_expression(msg, k)
        },
        SmallStatement::Assign { value, .. } => reaches_expression(value, k),
        SmallStatement::AnnAssign { target, .. } => reaches_assign_target(target, k),
        SmallStatement::Raise { exc, cause } => {
            reaches_optional_expression(exc, k) || reaches_optional_expression(cause, k)
        },
        SmallStatement::AugAssign { target, value } => {
            reaches_assign_target(target, k) || reaches_expression(value, k)
        },
        SmallStatement::Del(t) => reaches_del_target(t, k),
        SmallStatement::TypeAlias { type_parameters, value } => {
            reaches_expression(value, k) || reaches_optional_type_parameters(type_parameters, k)
        },
        SmallStatement::Other => false,
    }
}

pub open spec fn reaches_small_statements(v: Seq<SmallStatement>, k: int) -> bool {
    exists|j: int| 0 <= j < v.len() && #[trigger] reaches_small_statement(v[j], k)
}

/// One of the statements of `v` reaches `k`. Written as a recursion on the
/// length, so that it unfolds together with the statement-level predicates.
pub open spec fn reaches_statements(v: Seq<Statement>, k: int) -> bool
    decreases v,
{
    if v.len() == 0 {
        false
    } else {
        reaches_statements(v.subrange(0, v.len() - 1), k) || reaches_statement(v[v.len() - 1], k)
    }
}

pub open spec fn reaches_handlers(v: Seq<ExceptHandler>, k: int) -> bool
    decreases v,
{
    if v.len() == 0 {
        false
    } else {
        reaches_handlers(v.subrange(0, v.len() - 1), k) || reaches_handler(v[v.len() - 1], k)
    }
}

pub open spec fn reaches_star_handlers(v: Seq<ExceptStarHandler>, k: int) -> bool
    decreases v,
{
    if v.len() == 0 {
        false
    } else {
        reaches_star_handlers(v.subrange(0, v.len() - 1), k) || reaches_star_handler(
            v[v.len() - 1],
            k,
        )
    }
}

pub open spec fn reaches_suite(s: Suite, k: int) -> bool
    decreases s,
{
    match s {
        Suite::IndentedBlock(v) => reaches_statements(v@, k),
        Suite::SimpleStatementSuite(v) => reaches_small_statements(v@, k),
    }
}

pub open spec fn reaches_optional_suite(s: Option<Suite>, k: int) -> bool
    decreases s,
{
    s matches Some(x) && reaches_suite(x, k)
}

pub open spec fn reaches_functiondef(f: FunctionDef, k: int) -> bool
    decreases f,
{
    ||| reaches_optional_type_parameters(f.type_parameters, k)
    ||| reaches_parameters(f.params, k)
    ||| reaches_suite(f.body, k)
    ||| reaches_expressions(f.decorators@, k)
    ||| reaches_optional_expression(f.returns, k)
}

pub open spec fn reaches_if(i: If, k: int) -> bool
    decreases i,
{
    ||| reaches_expression(i.test, k)
    ||| reaches_suite(i.body, k)
    ||| i.orelse matches Some(o) && reaches_orelse(*o, k)
}

pub open spec fn reaches_orelse(o: OrElse, k: int) -> bool
    decreases o,
{
    match o {
        OrElse::Elif(i) => reaches_if(i, k),
        OrElse::Else(s) => reaches_suite(s, k),
    }
}

pub open spec fn reaches_handler(h: ExceptHandler, k: int) -> bool
    decreases h,
{
    ||| reaches_suite(h.body, k)
    ||| reaches_optional_expression(h.type_, k)
    ||| reaches_optional_assign_target(h.name, k)
}

pub open spec fn reaches_star_handler(h: ExceptStarHandler, k: int) -> bool
    decreases h,
{
    ||| reaches_suite(h.body, k)
    ||| reaches_expression(h.type_, k)
    ||| reaches_optional_assign_target(h.name, k)
}

pub open spec fn reaches_for(f: For, k: int) -> bool
    decreases f,
{
    ||| reaches_assign_target(f.target, k)
    ||| reaches_expression(f.iter, k)
    ||| reaches_suite(f.body, k)
    ||| reaches_optional_suite(f.orelse, k)
}

pub open spec fn reaches_while(w: While, k: int) -> bool
    decreases w,
{
    ||| reaches_expression(w.test, k)
    ||| reaches_suite(w.body, k)
    ||| reaches_optional_suite(w.orelse, k)
}

pub open spec fn reaches_classdef(c: ClassDef, k: int) -> bool
    decreases c,
{
    ||| reaches_optional_type_parameters(c.type_parameters, k)
    ||| reaches_suite(c.body, k)
    ||| reaches_expressions(c.bases@, k)
    ||| reaches_expressions(c.keywords@, k)
    ||| reaches_expressions(c.decorators@, k)
}

pub open spec fn reaches_try(t: Try, k: int) -> bool
    decreases t,
{
    ||| reaches_suite(t.body, k)
    ||| reaches_handlers(t.handlers@, k)
    ||| reaches_optional_suite(t.orelse, k)
    ||| reaches_optional_suite(t.finalbody, k)
}

pub open spec fn reaches_try_star(t: TryStar, k: int) -> bool
    decreases t,
{
    ||| reaches_suite(t.body, k)
    ||| reaches_star_handlers(t.handlers@, k)
    ||| reaches_optional_suite(t.orelse, k)
    ||| reaches_optional_suite(t.finalbody, k)
}

pub open spec fn reaches_with(w: With, k: int) -> bool
    decreases w,
{
    reaches_with_items(w.items@, k) || reaches_suite(w.body, k)
}

pub open spec fn reaches_compound(c: CompoundStatement, k: int) -> bool
    decreases c,
{
    match c {
        CompoundStatement::FunctionDef(f) => reaches_functiondef(f, k),
        CompoundStatement::If(i) => reaches_if(i, k),
        CompoundStatement::For(f) => reaches_for(f, k),
        CompoundStatement::While(w) => reaches_while(w, k),
        CompoundStatement::ClassDef(c) => reaches_classdef(c, k),
        CompoundStatement::Try(t) => reaches_try(t, k),
        CompoundStatement::TryStar(t) => reaches_try_star(t, k),
        CompoundStatement::With(w) => reaches_with(w, k),
        CompoundStatement::Match(m) => reaches_match(m, k),
    }
}

pub open spec fn reaches_statement(s: Statement, k: int) -> bool
    decreases s,
{
    match s {
        Statement::Simple(v) => reaches_small_statements(v@, k),
        Statement::Compound(c) => reaches_compound(c, k),
    }
}

pub open spec fn reaches_module(m: Module, k: int) -> bool {
    reaches_statements(m.body@, k)
}

} // verus!

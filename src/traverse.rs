//! The traversal: a depth-first walk over a parsed module that requotes, in the
//! literal store, every literal that the dispatch reaches and no other.
use vstd::prelude::*;
use crate::literal::{lemma_requoted_where_then, process_simple_string, requoted_where};
use crate::reach::{
    reaches_assign_target, reaches_case, reaches_slices, reaches_classdef, reaches_del_target, reaches_element,
    reaches_elements, reaches_expression, reaches_expressions, reaches_for, reaches_functiondef,
    reaches_handler, reaches_handlers, reaches_if, reaches_mapping_element,
    reaches_mapping_elements, reaches_match, reaches_module, reaches_optional_assign_target,
    reaches_optional_expression, reaches_optional_param, reaches_optional_suite,
    reaches_optional_type_parameters, reaches_orelse, reaches_param, reaches_parameters,
    reaches_params, reaches_pattern, reaches_patterns, reaches_sequence_element,
    reaches_sequence_elements, reaches_slice, reaches_small_statement, reaches_small_statements,
    reaches_star_arg, reaches_star_handler, reaches_star_handlers, reaches_statement,
    reaches_statements, reaches_subscript, reaches_suite, reaches_try, reaches_try_star,
    reaches_type_param, reaches_type_parameters, reaches_type_var_like, reaches_while,
    reaches_with, reaches_with_item, reaches_with_items,
};
use crate::tree::{
    AssignTargetExpression, BaseSlice, ClassDef, CompoundStatement, DelTargetExpression,
    Element, ExceptHandler, ExceptStarHandler, Expression, For, FunctionDef, If, Match,
    MatchMappingElement, MatchPattern, MatchSequence, Module, NameOrAttribute, OrElse, Param,
    Parameters, SmallStatement, StarArg, StarrableMatchSequenceElement, Statement,
    Subscript, Suite, Try, TryStar, TypeParameters, TypeVarLike, While, With, WithItem,
};

verus! {

/// Requotes the literals of an expression: a plain string literal itself, or
/// those inside an attribute access, a starred element, a subscript, a tuple or
/// a list, to any depth. Any other kind of expression is left alone, whatever
/// it holds.
pub fn process_expression(expression: &Expression, literals: &mut Vec<String>)
    ensures
        requoted_where(old(literals)@, final(literals)@, |k: int| reaches_expression(*expression, k)),
    decreases expression,
{
    match expression {
        Expression::SimpleString(s) => process_simple_string(s, literals),
        Expression::Attribute(value) => process_expression(value, literals),
        Expression::StarredElement(value) => process_expression(value, literals),
        Expression::Subscript(subscript) => process_subscript(subscript, literals),
        Expression::Tuple(elements) => process_tuple(elements, literals),
        Expression::List(elements) => process_tuple(elements, literals),
        Expression::Other(_) => {},
    }
}

pub fn process_optional_expression(expression: &Option<Expression>, literals: &mut Vec<String>)
    ensures
        requoted_where(
            old(literals)@,
            final(literals)@,
            |k: int| reaches_optional_expression(*expression, k),
        ),
    decreases expression,
{
    if let Some(e) = expression {
        process_expression(e, literals);
    }
}

/// Requotes each expression of the list that is a plain string literal.
pub fn process_expressions(expressions: &Vec<Expression>, literals: &mut Vec<String>)
    ensures
        requoted_where(
            old(literals)@,
            final(literals)@,
            |k: int| reaches_expressions(expressions@, k),
        ),
{
    let ghost t0 = literals@;
    let n = expressions.len();
    let mut i: usize = 0;
    while i < n
        invariant
            n == expressions@.len(),
            i <= n,
            requoted_where(
                t0,
                literals@,
                |k: int| exists|j: int| 0 <= j < i && #[trigger] reaches_expression(expressions@[j], k),
            ),
        decreases n - i,
    {
        let ghost t1 = literals@;
        process_expression(&expressions[i], literals);
        proof {
            lemma_requoted_where_then(
                t0,
                t1,
                literals@,
                |k: int| exists|j: int| 0 <= j < i && #[trigger] reaches_expression(expressions@[j], k),
                |k: int| reaches_expression(expressions@[i as int], k),
            );
        }
        i = i + 1;
    }
}

/// Requotes the literals of the elements of a tuple or a list, starred or not.
pub fn process_tuple(elements: &Vec<Element>, literals: &mut Vec<String>)
    ensures
        requoted_where(old(literals)@, final(literals)@, |k: int| reaches_elements(elements@, k)),
    decreases elements,
{
    let ghost t0 = literals@;
    let n = elements.len();
    let mut i: usize = 0;
    while i < n
        invariant
            n == elements@.len(),
            i <= n,
            requoted_where(t0, literals@, |k: int| reaches_elements(elements@.take(i as int), k)),
        decreases n - i,
    {
        let ghost t1 = literals@;
        proof {
            assert(decreases_to!(elements => elements[i as int]));
        }
        match &elements[i] {
            Element::Simple(value) => process_expression(value, literals),
            Element::Starred(value) => process_expression(value, literals),
        }
        proof {
            assert(elements@.take(i + 1).subrange(0, i as int) =~= elements@.take(i as int));
            lemma_requoted_where_then(
                t0,
                t1,
                literals@,
                |k: int| reaches_elements(elements@.take(i as int), k),
                |k: int| reaches_element(elements@[i as int], k),
            );
        }
        i = i + 1;
    }
    assert(elements@.take(n as int) =~= elements@);
}

/// Requotes the subscripted value and each index or slice bound, with the
/// literals nested inside them.
pub fn process_subscript(target: &Subscript, literals: &mut Vec<String>)
    ensures
        requoted_where(old(literals)@, final(literals)@, |k: int| reaches_subscript(*target, k)),
    decreases target,
{
    let ghost t0 = literals@;
    process_expression(&target.value, literals);
    let ghost t1 = literals@;
    let slices = &target.slice;
    let n = slices.len();
    let mut i: usize = 0;
    while i < n
        invariant
            n == slices@.len(),
            i <= n,
            slices == target.slice,
            requoted_where(t1, literals@, |k: int| reaches_slices(slices@.take(i as int), k)),
        decreases n - i,
    {
        let ghost t2 = literals@;
        proof {
            assert(decreases_to!(slices => slices[i as int]));
        }
        match &slices[i] {
            BaseSlice::Index(value) => process_expression(value, literals),
            BaseSlice::Slice { lower, upper, step } => {
                let ghost u0 = literals@;
                process_optional_expression(lower, literals);
                let ghost u1 = literals@;
                process_optional_expression(upper, literals);
                proof {
                    lemma_requoted_where_then(
                        u0,
                        u1,
                        literals@,
                        |k: int| reaches_optional_expression(*lower, k),
                        |k: int| reaches_optional_expression(*upper, k),
                    );
                }
                let ghost u2 = literals@;
                process_optional_expression(step, literals);
                proof {
                    lemma_requoted_where_then(
                        u0,
                        u2,
                        literals@,
                        |k: int|
                            reaches_optional_expression(*lower, k)
                                || reaches_optional_expression(*upper, k),
                        |k: int| reaches_optional_expression(*step, k),
                    );
                }
            },
        }
        proof {
            assert(slices@.take(i + 1).subrange(0, i as int) =~= slices@.take(i as int));
            lemma_requoted_where_then(
                t1,
                t2,
                literals@,
                |k: int| reaches_slices(slices@.take(i as int), k),
                |k: int| reaches_slice(slices@[i as int], k),
            );
        }
        i = i + 1;
    }
    assert(slices@.take(n as int) =~= slices@);
    proof {
        lemma_requoted_where_then(
            t0,
            t1,
            literals@,
            |k: int| reaches_expression(target.value, k),
            |k: int| reaches_slices(target.slice@, k),
        );
    }
}

pub fn process_assign_target_expression(
    target: &AssignTargetExpression,
    literals: &mut Vec<String>,
)
    ensures
        requoted_where(old(literals)@, final(literals)@, |k: int| reaches_assign_target(*target, k)),
{
    match target {
        AssignTargetExpression::Name => {},
        AssignTargetExpression::Attribute(value) => process_expression(value, literals),
        AssignTargetExpression::StarredElement(value) => process_expression(value, literals),
        AssignTargetExpression::Tuple(elements) => process_tuple(elements, literals),
        AssignTargetExpression::List(elements) => process_tuple(elements, literals),
        AssignTargetExpression::Subscript(subscript) => process_subscript(subscript, literals),
    }
}

pub fn process_optional_assign_target_expression(
    target: &Option<AssignTargetExpression>,
    literals: &mut Vec<String>,
)
    ensures
        requoted_where(
            old(literals)@,
            final(literals)@,
            |k: int| reaches_optional_assign_target(*target, k),
        ),
{
    if let Some(t) = target {
        process_assign_target_expression(t, literals);
    }
}

pub fn process_del_target_expression(target: &DelTargetExpression, literals: &mut Vec<String>)
    ensures
        requoted_where(old(literals)@, final(literals)@, |k: int| reaches_del_target(*target, k)),
{
    match target {
        DelTargetExpression::Name => {},
        DelTargetExpression::Attribute(value) => process_expression(value, literals),
        DelTargetExpression::Tuple(elements) => process_tuple(elements, literals),
        DelTargetExpression::List(elements) => process_tuple(elements, literals),
        DelTargetExpression::Subscript(subscript) => process_subscript(subscript, literals),
    }
}

/// Requotes the bound of each type variable and the default of each type
/// parameter that is a literal.
pub fn process_type_parameter(type_parameters: &TypeParameters, literals: &mut Vec<String>)
    ensures
        requoted_where(
            old(literals)@,
            final(literals)@,
            |k: int| reaches_type_parameters(*type_parameters, k),
        ),
{
    let ghost t0 = literals@;
    let params = &type_parameters.params;
    let n = params.len();
    let mut i: usize = 0;
    while i < n
        invariant
            n == params@.len(),
            i <= n,
            requoted_where(
                t0,
                literals@,
                |k: int| exists|j: int| 0 <= j < i && #[trigger] reaches_type_param(params@[j], k),
            ),
        decreases n - i,
    {
        let ghost t1 = literals@;
        let type_param = &params[i];
        match &type_param.param {
            TypeVarLike::TypeVar { bound } => process_optional_expression(bound, literals),
            _ => {},
        }
        let ghost t2 = literals@;
        process_optional_expression(&type_param.default, literals);
        proof {
            lemma_requoted_where_then(
                t1,
                t2,
                literals@,
                |k: int| reaches_type_var_like(type_param.param, k),
                |k: int| reaches_optional_expression(type_param.default, k),
            );
            lemma_requoted_where_then(
                t0,
                t1,
                literals@,
                |k: int| exists|j: int| 0 <= j < i && #[trigger] reaches_type_param(params@[j], k),
                |k: int| reaches_type_param(params@[i as int], k),
            );
        }
        i = i + 1;
    }
}

pub fn process_optional_type_parameters(
    type_parameters: &Option<TypeParameters>,
    literals: &mut Vec<String>,
)
    ensures
        requoted_where(
            old(literals)@,
            final(literals)@,
            |k: int| reaches_optional_type_parameters(*type_parameters, k),
        ),
{
    if let Some(t) = type_parameters {
        process_type_parameter(t, literals);
    }
}

/// Requotes the annotation and the default of a parameter, where literals.
pub fn process_param(param: &Param, literals: &mut Vec<String>)
    ensures
        requoted_where(old(literals)@, final(literals)@, |k: int| reaches_param(*param, k)),
{
    let ghost t0 = literals@;
    process_optional_expression(&param.annotation, literals);
    let ghost t1 = literals@;
    process_optional_expression(&param.default, literals);
    proof {
        lemma_requoted_where_then(
            t0,
            t1,
            literals@,
            |k: int| reaches_optional_expression(param.annotation, k),
            |k: int| reaches_optional_expression(param.default, k),
        );
    }
}

pub fn process_params(params: &Vec<Param>, literals: &mut Vec<String>)
    ensures
        requoted_where(old(literals)@, final(literals)@, |k: int| reaches_params(params@, k)),
{
    let ghost t0 = literals@;
    let n = params.len();
    let mut i: usize = 0;
    while i < n
        invariant
            n == params@.len(),
            i <= n,
            requoted_where(
                t0,
                literals@,
                |k: int| exists|j: int| 0 <= j < i && #[trigger] reaches_param(params@[j], k),
            ),
        decreases n - i,
    {
        let ghost t1 = literals@;
        process_param(&params[i], literals);
        proof {
            lemma_requoted_where_then(
                t0,
                t1,
                literals@,
                |k: int| exists|j: int| 0 <= j < i && #[trigger] reaches_param(params@[j], k),
                |k: int| reaches_param(params@[i as int], k),
            );
        }
        i = i + 1;
    }
}

/// Requotes the literals among the annotations and defaults of every group of
/// parameters: positional, `*args`, keyword-only, `**kwargs`, positional-only.
pub fn process_parameters(parameters: &Parameters, literals: &mut Vec<String>)
    ensures
        requoted_where(old(literals)@, final(literals)@, |k: int| reaches_parameters(*parameters, k)),
{
    let ghost t0 = literals@;
    process_params(&parameters.params, literals);
    let ghost t1 = literals@;
    match &parameters.star_arg {
        Some(StarArg::Param(star_arg)) => process_param(star_arg, literals),
        _ => {},
    }
    proof {
        lemma_requoted_where_then(
            t0,
            t1,
            literals@,
            |k: int| reaches_params(parameters.params@, k),
            |k: int| reaches_star_arg(parameters.star_arg, k),
        );
    }
    let ghost t2 = literals@;
    process_params(&parameters.kwonly_params, literals);
    proof {
        lemma_requoted_where_then(
            t0,
            t2,
            literals@,
            |k: int|
                reaches_params(parameters.params@, k) || reaches_star_arg(parameters.star_arg, k),
            |k: int| reaches_params(parameters.kwonly_params@, k),
        );
    }
    let ghost t3 = literals@;
    if let Some(star_kwarg) = &parameters.star_kwarg {
        process_param(star_kwarg, literals);
    }
    proof {
        lemma_requoted_where_then(
            t0,
            t3,
            literals@,
            |k: int|
                reaches_params(parameters.params@, k) || reaches_star_arg(parameters.star_arg, k)
                    || reaches_params(parameters.kwonly_params@, k),
            |k: int| reaches_optional_param(parameters.star_kwarg, k),
        );
    }
    let ghost t4 = literals@;
    process_params(&parameters.posonly_params, literals);
    proof {
        lemma_requoted_where_then(
            t0,
            t4,
            literals@,
            |k: int|
                reaches_params(parameters.params@, k) || reaches_star_arg(parameters.star_arg, k)
                    || reaches_params(parameters.kwonly_params@, k) || reaches_optional_param(
                    parameters.star_kwarg,
                    k,
                ),
            |k: int| reaches_params(parameters.posonly_params@, k),
        );
    }
}

pub fn process_starrable_match_sequence_element(
    element: &StarrableMatchSequenceElement,
    literals: &mut Vec<String>,
)
    ensures
        requoted_where(
            old(literals)@,
            final(literals)@,
            |k: int| reaches_sequence_element(*element, k),
        ),
    decreases element, 0int,
{
    match element {
        StarrableMatchSequenceElement::Simple(pattern) => process_matchpattern(pattern, literals),
        StarrableMatchSequenceElement::Starred => {},
    }
}

pub fn process_sequence_elements(
    elements: &Vec<StarrableMatchSequenceElement>,
    literals: &mut Vec<String>,
)
    ensures
        requoted_where(
            old(literals)@,
            final(literals)@,
            |k: int| reaches_sequence_elements(elements@, k),
        ),
    decreases elements, 0int,
{
    let ghost t0 = literals@;
    let n = elements.len();
    let mut i: usize = 0;
    while i < n
        invariant
            n == elements@.len(),
            i <= n,
            requoted_where(
                t0,
                literals@,
                |k: int| exists|j: int| #![trigger elements@[j]] 0 <= j < i && reaches_sequence_element(elements@[j], k),
            ),
        decreases n - i,
    {
        let ghost t1 = literals@;
        proof {
            assert(decreases_to!(elements => elements[i as int]));
        }
        process_starrable_match_sequence_element(&elements[i], literals);
        proof {
            lemma_requoted_where_then(
                t0,
                t1,
                literals@,
                |k: int| exists|j: int| #![trigger elements@[j]] 0 <= j < i && reaches_sequence_element(elements@[j], k),
                |k: int| reaches_sequence_element(elements@[i as int], k),
            );
        }
        i = i + 1;
    }
}

pub fn process_mapping_elements(elements: &Vec<MatchMappingElement>, literals: &mut Vec<String>)
    ensures
        requoted_where(
            old(literals)@,
            final(literals)@,
            |k: int| reaches_mapping_elements(elements@, k),
        ),
    decreases elements, 0int,
{
    let ghost t0 = literals@;
    let n = elements.len();
    let mut i: usize = 0;
    while i < n
        invariant
            n == elements@.len(),
            i <= n,
            requoted_where(
                t0,
                literals@,
                |k: int| exists|j: int| #![trigger elements@[j]] 0 <= j < i && reaches_mapping_element(elements@[j], k),
            ),
        decreases n - i,
    {
        let ghost t1 = literals@;
        let element = &elements[i];
        process_expression(&element.key, literals);
        let ghost t2 = literals@;
        proof {
            assert(decreases_to!(elements => elements[i as int]));
            assert(decreases_to!(elements[i as int] => elements[i as int].pattern));
        }
        process_matchpattern(&element.pattern, literals);
        proof {
            lemma_requoted_where_then(
                t1,
                t2,
                literals@,
                |k: int| reaches_expression(element.key, k),
                |k: int| reaches_pattern(element.pattern, k),
            );
            lemma_requoted_where_then(
                t0,
                t1,
                literals@,
                |k: int| exists|j: int| #![trigger elements@[j]] 0 <= j < i && reaches_mapping_element(elements@[j], k),
                |k: int| reaches_mapping_element(elements@[i as int], k),
            );
        }
        i = i + 1;
    }
}

pub fn process_patterns(patterns: &Vec<MatchPattern>, literals: &mut Vec<String>)
    ensures
        requoted_where(old(literals)@, final(literals)@, |k: int| reaches_patterns(patterns@, k)),
    decreases patterns, 0int,
{
    let ghost t0 = literals@;
    let n = patterns.len();
    let mut i: usize = 0;
    while i < n
        invariant
            n == patterns@.len(),
            i <= n,
            requoted_where(
                t0,
                literals@,
                |k: int| exists|j: int| #![trigger patterns@[j]] 0 <= j < i && reaches_pattern(patterns@[j], k),
            ),
        decreases n - i,
    {
        let ghost t1 = literals@;
        proof {
            assert(decreases_to!(patterns => patterns[i as int]));
        }
        process_matchpattern(&patterns[i], literals);
        proof {
            lemma_requoted_where_then(
                t0,
                t1,
                literals@,
                |k: int| exists|j: int| #![trigger patterns@[j]] 0 <= j < i && reaches_pattern(patterns@[j], k),
                |k: int| reaches_pattern(patterns@[i as int], k),
            );
        }
        i = i + 1;
    }
}

/// Requotes the literals of a case pattern: value patterns, mapping keys, the
/// object of a dotted class reference, and those of every nested pattern.
pub fn process_matchpattern(pattern: &MatchPattern, literals: &mut Vec<String>)
    ensures
        requoted_where(old(literals)@, final(literals)@, |k: int| reaches_pattern(*pattern, k)),
    decreases pattern, 1int,
{
    match pattern {
        MatchPattern::Value(value) => process_expression(value, literals),
        MatchPattern::Singleton => {},
        MatchPattern::Sequence(MatchSequence::MatchList(elements)) => {
            process_sequence_elements(elements, literals)
        },
        MatchPattern::Sequence(MatchSequence::MatchTuple(elements)) => {
            process_sequence_elements(elements, literals)
        },
        MatchPattern::Mapping(elements) => process_mapping_elements(elements, literals),
        MatchPattern::Class(class) => {
            let ghost t0 = literals@;
            match &class.cls {
                NameOrAttribute::Attribute(value) => process_expression(value, literals),
                NameOrAttribute::Name => {},
            }
            let ghost t1 = literals@;
            process_patterns(&class.patterns, literals);
            proof {
                lemma_requoted_where_then(
                    t0,
                    t1,
                    literals@,
                    |k: int|
                        class.cls matches NameOrAttribute::Attribute(x) && reaches_expression(x, k),
                    |k: int| reaches_patterns(class.patterns@, k),
                );
            }
            let ghost t2 = literals@;
            process_patterns(&class.kwds, literals);
            proof {
                lemma_requoted_where_then(
                    t0,
                    t2,
                    literals@,
                    |k: int|
                        (class.cls matches NameOrAttribute::Attribute(x) && reaches_expression(x, k))
                            || reaches_patterns(class.patterns@, k),
                    |k: int| reaches_patterns(class.kwds@, k),
                );
            }
        },
        MatchPattern::As(inner) => {
            if let Some(p) = inner {
                process_matchpattern(p, literals);
            }
        },
        MatchPattern::Or(patterns) => process_patterns(patterns, literals),
    }
}

/// Requotes the subject and, in each case, the literals of its pattern and
/// its guard. The bodies of the cases are not visited.
pub fn process_match(match_stmt: &Match, literals: &mut Vec<String>)
    ensures
        requoted_where(old(literals)@, final(literals)@, |k: int| reaches_match(*match_stmt, k)),
{
    let ghost t0 = literals@;
    process_expression(&match_stmt.subject, literals);
    let ghost t1 = literals@;
    let cases = &match_stmt.cases;
    let n = cases.len();
    let mut i: usize = 0;
    while i < n
        invariant
            n == cases@.len(),
            i <= n,
            requoted_where(
                t1,
                literals@,
                |k: int| exists|j: int| 0 <= j < i && #[trigger] reaches_case(cases@[j], k),
            ),
        decreases n - i,
    {
        let ghost t2 = literals@;
        let case = &cases[i];
        process_matchpattern(&case.pattern, literals);
        let ghost t3 = literals@;
        process_optional_expression(&case.guard, literals);
        proof {
            lemma_requoted_where_then(
                t2,
                t3,
                literals@,
                |k: int| reaches_pattern(case.pattern, k),
                |k: int| reaches_optional_expression(case.guard, k),
            );
            lemma_requoted_where_then(
                t1,
                t2,
                literals@,
                |k: int| exists|j: int| 0 <= j < i && #[trigger] reaches_case(cases@[j], k),
                |k: int| reaches_case(cases@[i as int], k),
            );
        }
        i = i + 1;
    }
    proof {
        lemma_requoted_where_then(
            t0,
            t1,
            literals@,
            |k: int| reaches_expression(match_stmt.subject, k),
            |k: int| exists|j: int| 0 <= j < cases@.len() && #[trigger] reaches_case(cases@[j], k),
        );
    }
}

/// Requotes the literals of a small statement, by its kind: the value of a
/// `return`, an expression statement or an assignment; the test and message of
/// an `assert`; the target of an annotated assignment; the exception and cause
/// of a `raise`; the target and value of an augmented assignment; the target of
/// a `del`; the value and type parameters of a type alias.
pub fn process_small_statement(statement: &SmallStatement, literals: &mut Vec<String>)
    ensures
        requoted_where(
            old(literals)@,
            final(literals)@,
            |k: int| reaches_small_statement(*statement, k),
        ),
{
    let ghost t0 = literals@;
    match statement {
        SmallStatement::Return(value) => process_optional_expression(value, literals),
        SmallStatement::Expr(value) => process_expression(value, literals),
        SmallStatement::Assert { test, msg } => {
            process_expression(test, literals);
            let ghost t1 = literals@;
            process_optional_expression(msg, literals);
            proof {
                lemma_requoted_where_then(
                    t0,
                    t1,
                    literals@,
                    |k: int| reaches_expression(*test, k),
                    |k: int| reaches_optional_expression(*msg, k),
                );
            }
        },
        SmallStatement::Assign { value, .. } => process_expression(value, literals),
        SmallStatement::AnnAssign { target, .. } => {
            process_assign_target_expression(target, literals)
        },
        SmallStatement::Raise { exc, cause } => {
            process_optional_expression(exc, literals);
            let ghost t1 = literals@;
            process_optional_expression(cause, literals);
            proof {
                lemma_requoted_where_then(
                    t0,
                    t1,
                    literals@,
                    |k: int| reaches_optional_expression(*exc, k),
                    |k: int| reaches_optional_expression(*cause, k),
                );
            }
        },
        SmallStatement::AugAssign { target, value } => {
            process_assign_target_expression(target, literals);
            let ghost t1 = literals@;
            process_expression(value, literals);
            proof {
                lemma_requoted_where_then(
                    t0,
                    t1,
                    literals@,
                    |k: int| reaches_assign_target(*target, k),
                    |k: int| reaches_expression(*value, k),
                );
            }
        },
        SmallStatement::Del(target) => process_del_target_expression(target, literals),
        SmallStatement::TypeAlias { type_parameters, value } => {
            process_expression(value, literals);
            let ghost t1 = literals@;
            process_optional_type_parameters(type_parameters, literals);
            proof {
                lemma_requoted_where_then(
                    t0,
                    t1,
                    literals@,
                    |k: int| reaches_expression(*value, k),
                    |k: int| reaches_optional_type_parameters(*type_parameters, k),
                );
            }
        },
        SmallStatement::Other => {},
    }
}

pub fn process_small_statements(statements: &Vec<SmallStatement>, literals: &mut Vec<String>)
    ensures
        requoted_where(
            old(literals)@,
            final(literals)@,
            |k: int| reaches_small_statements(statements@, k),
        ),
{
    let ghost t0 = literals@;
    let n = statements.len();
    let mut i: usize = 0;
    while i < n
        invariant
            n == statements@.len(),
            i <= n,
            requoted_where(
                t0,
                literals@,
                |k: int|
                    exists|j: int| 0 <= j < i && #[trigger] reaches_small_statement(statements@[j], k),
            ),
        decreases n - i,
    {
        let ghost t1 = literals@;
        process_small_statement(&statements[i], literals);
        proof {
            lemma_requoted_where_then(
                t0,
                t1,
                literals@,
                |k: int|
                    exists|j: int| 0 <= j < i && #[trigger] reaches_small_statement(statements@[j], k),
                |k: int| reaches_small_statement(statements@[i as int], k),
            );
        }
        i = i + 1;
    }
}

pub fn process_statements(statements: &Vec<Statement>, literals: &mut Vec<String>)
    ensures
        requoted_where(
            old(literals)@,
            final(literals)@,
            |k: int| reaches_statements(statements@, k),
        ),
    decreases statements, 0int,
{
    let ghost t0 = literals@;
    let n = statements.len();
    let mut i: usize = 0;
    while i < n
        invariant
            n == statements@.len(),
            i <= n,
            requoted_where(
                t0,
                literals@,
                |k: int| reaches_statements(statements@.take(i as int), k),
            ),
        decreases n - i,
    {
        let ghost t1 = literals@;
        proof {
            assert(decreases_to!(statements => statements[i as int]));
        }
        process_statement(&statements[i], literals);
        proof {
            assert(statements@.take(i + 1).subrange(0, i as int) =~= statements@.take(i as int));
            lemma_requoted_where_then(
                t0,
                t1,
                literals@,
                |k: int| reaches_statements(statements@.take(i as int), k),
                |k: int| reaches_statement(statements@[i as int], k),
            );
        }
        i = i + 1;
    }
    assert(statements@.take(n as int) =~= statements@);
}

/// Requotes the literals of every statement of an indented block, or of every
/// small statement of a suite on the header's line.
pub fn process_suite(suite: &Suite, literals: &mut Vec<String>)
    ensures
        requoted_where(old(literals)@, final(literals)@, |k: int| reaches_suite(*suite, k)),
    decreases suite, 1int,
{
    match suite {
        Suite::IndentedBlock(statements) => process_statements(statements, literals),
        Suite::SimpleStatementSuite(statements) => process_small_statements(statements, literals),
    }
}

pub fn process_optional_suite(suite: &Option<Suite>, literals: &mut Vec<String>)
    ensures
        requoted_where(old(literals)@, final(literals)@, |k: int| reaches_optional_suite(*suite, k)),
    decreases suite, 2int,
{
    if let Some(s) = suite {
        process_suite(s, literals);
    }
}

/// Requotes the literals of a function definition: in its type parameters, its
/// parameters' annotations and defaults, its body, its decorators and its
/// return annotation.
pub fn process_functiondef(functiondef: &FunctionDef, literals: &mut Vec<String>)
    ensures
        requoted_where(old(literals)@, final(literals)@, |k: int| reaches_functiondef(*functiondef, k)),
    decreases functiondef, 3int,
{
    let ghost t0 = literals@;
    process_optional_type_parameters(&functiondef.type_parameters, literals);
    let ghost t1 = literals@;
    process_parameters(&functiondef.params, literals);
    proof {
        lemma_requoted_where_then(
            t0,
            t1,
            literals@,
            |k: int| reaches_optional_type_parameters(functiondef.type_parameters, k),
            |k: int| reaches_parameters(functiondef.params, k),
        );
    }
    let ghost t2 = literals@;
    process_suite(&functiondef.body, literals);
    proof {
        lemma_requoted_where_then(
            t0,
            t2,
            literals@,
            |k: int|
                reaches_optional_type_parameters(functiondef.type_parameters, k)
                    || reaches_parameters(functiondef.params, k),
            |k: int| reaches_suite(functiondef.body, k),
        );
    }
    let ghost t3 = literals@;
    process_expressions(&functiondef.decorators, literals);
    proof {
        lemma_requoted_where_then(
            t0,
            t3,
            literals@,
            |k: int|
                reaches_optional_type_parameters(functiondef.type_parameters, k)
                    || reaches_parameters(functiondef.params, k) || reaches_suite(
                    functiondef.body,
                    k,
                ),
            |k: int| reaches_expressions(functiondef.decorators@, k),
        );
    }
    let ghost t4 = literals@;
    process_optional_expression(&functiondef.returns, literals);
    proof {
        lemma_requoted_where_then(
            t0,
            t4,
            literals@,
            |k: int|
                reaches_optional_type_parameters(functiondef.type_parameters, k)
                    || reaches_parameters(functiondef.params, k) || reaches_suite(
                    functiondef.body,
                    k,
                ) || reaches_expressions(functiondef.decorators@, k),
            |k: int| reaches_optional_expression(functiondef.returns, k),
        );
    }
}

/// Requotes the literals of an `if`: its test, its body, and then those of the
/// `elif` chain or of the `else` suite.
pub fn process_if(if_stmt: &If, literals: &mut Vec<String>)
    ensures
        requoted_where(old(literals)@, final(literals)@, |k: int| reaches_if(*if_stmt, k)),
    decreases if_stmt, 3int,
{
    let ghost t0 = literals@;
    process_expression(&if_stmt.test, literals);
    let ghost t1 = literals@;
    process_suite(&if_stmt.body, literals);
    proof {
        lemma_requoted_where_then(
            t0,
            t1,
            literals@,
            |k: int| reaches_expression(if_stmt.test, k),
            |k: int| reaches_suite(if_stmt.body, k),
        );
    }
    let ghost t2 = literals@;
    match &if_stmt.orelse {
        Some(or_else) => match &**or_else {
            OrElse::Elif(elif) => process_if(elif, literals),
            OrElse::Else(else_suite) => process_suite(else_suite, literals),
        },
        None => {},
    }
    proof {
        lemma_requoted_where_then(
            t0,
            t2,
            literals@,
            |k: int| reaches_expression(if_stmt.test, k) || reaches_suite(if_stmt.body, k),
            |k: int| if_stmt.orelse matches Some(o) && reaches_orelse(*o, k),
        );
    }
}

pub fn process_handlers(handlers: &Vec<ExceptHandler>, literals: &mut Vec<String>)
    ensures
        requoted_where(old(literals)@, final(literals)@, |k: int| reaches_handlers(handlers@, k)),
    decreases handlers, 3int,
{
    let ghost t0 = literals@;
    let n = handlers.len();
    let mut i: usize = 0;
    while i < n
        invariant
            n == handlers@.len(),
            i <= n,
            requoted_where(t0, literals@, |k: int| reaches_handlers(handlers@.take(i as int), k)),
        decreases n - i,
    {
        let ghost t1 = literals@;
        let handler = &handlers[i];
        proof {
            assert(decreases_to!(handlers => handlers[i as int]));
            assert(decreases_to!(handlers[i as int] => handlers[i as int].body));
        }
        process_suite(&handler.body, literals);
        let ghost t2 = literals@;
        process_optional_expression(&handler.type_, literals);
        proof {
            lemma_requoted_where_then(
                t1,
                t2,
                literals@,
                |k: int| reaches_suite(handler.body, k),
                |k: int| reaches_optional_expression(handler.type_, k),
            );
        }
        let ghost t3 = literals@;
        process_optional_assign_target_expression(&handler.name, literals);
        proof {
            lemma_requoted_where_then(
                t1,
                t3,
                literals@,
                |k: int|
                    reaches_suite(handler.body, k) || reaches_optional_expression(handler.type_, k),
                |k: int| reaches_optional_assign_target(handler.name, k),
            );
            assert(handlers@.take(i + 1).subrange(0, i as int) =~= handlers@.take(i as int));
            lemma_requoted_where_then(
                t0,
                t1,
                literals@,
                |k: int| reaches_handlers(handlers@.take(i as int), k),
                |k: int| reaches_handler(handlers@[i as int], k),
            );
        }
        i = i + 1;
    }
    assert(handlers@.take(n as int) =~= handlers@);
}

pub fn process_star_handlers(handlers: &Vec<ExceptStarHandler>, literals: &mut Vec<String>)
    ensures
        requoted_where(
            old(literals)@,
            final(literals)@,
            |k: int| reaches_star_handlers(handlers@, k),
        ),
    decreases handlers, 3int,
{
    let ghost t0 = literals@;
    let n = handlers.len();
    let mut i: usize = 0;
    while i < n
        invariant
            n == handlers@.len(),
            i <= n,
            requoted_where(
                t0,
                literals@,
                |k: int| reaches_star_handlers(handlers@.take(i as int), k),
            ),
        decreases n - i,
    {
        let ghost t1 = literals@;
        let handler = &handlers[i];
        proof {
            assert(decreases_to!(handlers => handlers[i as int]));
            assert(decreases_to!(handlers[i as int] => handlers[i as int].body));
        }
        process_suite(&handler.body, literals);
        let ghost t2 = literals@;
        process_expression(&handler.type_, literals);
        proof {
            lemma_requoted_where_then(
                t1,
                t2,
                literals@,
                |k: int| reaches_suite(handler.body, k),
                |k: int| reaches_expression(handler.type_, k),
            );
        }
        let ghost t3 = literals@;
        process_optional_assign_target_expression(&handler.name, literals);
        proof {
            lemma_requoted_where_then(
                t1,
                t3,
                literals@,
                |k: int| reaches_suite(handler.body, k) || reaches_expression(handler.type_, k),
                |k: int| reaches_optional_assign_target(handler.name, k),
            );
            assert(handlers@.take(i + 1).subrange(0, i as int) =~= handlers@.take(i as int));
            lemma_requoted_where_then(
                t0,
                t1,
                literals@,
                |k: int| reaches_star_handlers(handlers@.take(i as int), k),
                |k: int| reaches_star_handler(handlers@[i as int], k),
            );
        }
        i = i + 1;
    }
    assert(handlers@.take(n as int) =~= handlers@);
}

pub fn process_with_items(items: &Vec<WithItem>, literals: &mut Vec<String>)
    ensures
        requoted_where(old(literals)@, final(literals)@, |k: int| reaches_with_items(items@, k)),
{
    let ghost t0 = literals@;
    let n = items.len();
    let mut i: usize = 0;
    while i < n
        invariant
            n == items@.len(),
            i <= n,
            requoted_where(
                t0,
                literals@,
                |k: int| exists|j: int| 0 <= j < i && #[trigger] reaches_with_item(items@[j], k),
            ),
        decreases n - i,
    {
        let ghost t1 = literals@;
        let item = &items[i];
        process_expression(&item.item, literals);
        let ghost t2 = literals@;
        process_optional_assign_target_expression(&item.asname, literals);
        proof {
            lemma_requoted_where_then(
                t1,
                t2,
                literals@,
                |k: int| reaches_expression(item.item, k),
                |k: int| reaches_optional_assign_target(item.asname, k),
            );
            lemma_requoted_where_then(
                t0,
                t1,
                literals@,
                |k: int| exists|j: int| 0 <= j < i && #[trigger] reaches_with_item(items@[j], k),
                |k: int| reaches_with_item(items@[i as int], k),
            );
        }
        i = i + 1;
    }
}

/// Requotes the literals of a `for`: its target, its iterable, its body and its
/// `else` suite.
pub fn process_for(stmt: &For, literals: &mut Vec<String>)
    ensures
        requoted_where(old(literals)@, final(literals)@, |k: int| reaches_for(*stmt, k)),
    decreases stmt, 3int,
{
    let ghost t0 = literals@;
    process_assign_target_expression(&stmt.target, literals);
    let ghost t1 = literals@;
    process_expression(&stmt.iter, literals);
    proof {
        lemma_requoted_where_then(
            t0,
            t1,
            literals@,
            |k: int| reaches_assign_target(stmt.target, k),
            |k: int| reaches_expression(stmt.iter, k),
        );
    }
    let ghost t2 = literals@;
    process_suite(&stmt.body, literals);
    proof {
        lemma_requoted_where_then(
            t0,
            t2,
            literals@,
            |k: int| reaches_assign_target(stmt.target, k) || reaches_expression(stmt.iter, k),
            |k: int| reaches_suite(stmt.body, k),
        );
    }
    let ghost t3 = literals@;
    process_optional_suite(&stmt.orelse, literals);
    proof {
        lemma_requoted_where_then(
            t0,
            t3,
            literals@,
            |k: int|
                reaches_assign_target(stmt.target, k)
                    || reaches_expression(stmt.iter, k)
                    || reaches_suite(stmt.body, k),
            |k: int| reaches_optional_suite(stmt.orelse, k),
        );
    }
}

/// Requotes the literals of a `while`: its test, its body and its `else` suite.
pub fn process_while(stmt: &While, literals: &mut Vec<String>)
    ensures
        requoted_where(old(literals)@, final(literals)@, |k: int| reaches_while(*stmt, k)),
    decreases stmt, 3int,
{
    let ghost t0 = literals@;
    process_expression(&stmt.test, literals);
    let ghost t1 = literals@;
    process_suite(&stmt.body, literals);
    proof {
        lemma_requoted_where_then(
            t0,
            t1,
            literals@,
            |k: int| reaches_expression(stmt.test, k),
            |k: int| reaches_suite(stmt.body, k),
        );
    }
    let ghost t2 = literals@;
    process_optional_suite(&stmt.orelse, literals);
    proof {
        lemma_requoted_where_then(
            t0,
            t2,
            literals@,
            |k: int| reaches_expression(stmt.test, k) || reaches_suite(stmt.body, k),
            |k: int| reaches_optional_suite(stmt.orelse, k),
        );
    }
}

/// Requotes the literals of a class definition: in its type parameters, its
/// body, the values of its base and keyword arguments, and its decorators.
pub fn process_classdef(stmt: &ClassDef, literals: &mut Vec<String>)
    ensures
        requoted_where(old(literals)@, final(literals)@, |k: int| reaches_classdef(*stmt, k)),
    decreases stmt, 3int,
{
    let ghost t0 = literals@;
    process_optional_type_parameters(&stmt.type_parameters, literals);
    let ghost t1 = literals@;
    process_suite(&stmt.body, literals);
    proof {
        lemma_requoted_where_then(
            t0,
            t1,
            literals@,
            |k: int| reaches_optional_type_parameters(stmt.type_parameters, k),
            |k: int| reaches_suite(stmt.body, k),
        );
    }
    let ghost t2 = literals@;
    process_expressions(&stmt.bases, literals);
    proof {
        lemma_requoted_where_then(
            t0,
            t2,
            literals@,
            |k: int|
                reaches_optional_type_parameters(stmt.type_parameters, k)
                    || reaches_suite(stmt.body, k),
            |k: int| reaches_expressions(stmt.bases@, k),
        );
    }
    let ghost t3 = literals@;
    process_expressions(&stmt.keywords, literals);
    proof {
        lemma_requoted_where_then(
            t0,
            t3,
            literals@,
            |k: int|
                reaches_optional_type_parameters(stmt.type_parameters, k)
                    || reaches_suite(stmt.body, k)
                    || reaches_expressions(stmt.bases@, k),
            |k: int| reaches_expressions(stmt.keywords@, k),
        );
    }
    let ghost t4 = literals@;
    process_expressions(&stmt.decorators, literals);
    proof {
        lemma_requoted_where_then(
            t0,
            t4,
            literals@,
            |k: int|
                reaches_optional_type_parameters(stmt.type_parameters, k)
                    || reaches_suite(stmt.body, k)
                    || reaches_expressions(stmt.bases@, k)
                    || reaches_expressions(stmt.keywords@, k),
            |k: int| reaches_expressions(stmt.decorators@, k),
        );
    }
}

/// Requotes the literals of a `try`: its body, each handler's body, type and
/// bound name, its `else` suite and its `finally` suite.
pub fn process_try(stmt: &Try, literals: &mut Vec<String>)
    ensures
        requoted_where(old(literals)@, final(literals)@, |k: int| reaches_try(*stmt, k)),
    decreases stmt, 3int,
{
    let ghost t0 = literals@;
    process_suite(&stmt.body, literals);
    let ghost t1 = literals@;
    process_handlers(&stmt.handlers, literals);
    proof {
        lemma_requoted_where_then(
            t0,
            t1,
            literals@,
            |k: int| reaches_suite(stmt.body, k),
            |k: int| reaches_handlers(stmt.handlers@, k),
        );
    }
    let ghost t2 = literals@;
    process_optional_suite(&stmt.orelse, literals);
    proof {
        lemma_requoted_where_then(
            t0,
            t2,
            literals@,
            |k: int| reaches_suite(stmt.body, k) || reaches_handlers(stmt.handlers@, k),
            |k: int| reaches_optional_suite(stmt.orelse, k),
        );
    }
    let ghost t3 = literals@;
    process_optional_suite(&stmt.finalbody, literals);
    proof {
        lemma_requoted_where_then(
            t0,
            t3,
            literals@,
            |k: int|
                reaches_suite(stmt.body, k)
                    || reaches_handlers(stmt.handlers@, k)
                    || reaches_optional_suite(stmt.orelse, k),
            |k: int| reaches_optional_suite(stmt.finalbody, k),
        );
    }
}

/// Requotes the literals of a `try` with `except*` handlers, as for `try`.
pub fn process_try_star(stmt: &TryStar, literals: &mut Vec<String>)
    ensures
        requoted_where(old(literals)@, final(literals)@, |k: int| reaches_try_star(*stmt, k)),
    decreases stmt, 3int,
{
    let ghost t0 = literals@;
    process_suite(&stmt.body, literals);
    let ghost t1 = literals@;
    process_star_handlers(&stmt.handlers, literals);
    proof {
        lemma_requoted_where_then(
            t0,
            t1,
            literals@,
            |k: int| reaches_suite(stmt.body, k),
            |k: int| reaches_star_handlers(stmt.handlers@, k),
        );
    }
    let ghost t2 = literals@;
    process_optional_suite(&stmt.orelse, literals);
    proof {
        lemma_requoted_where_then(
            t0,
            t2,
            literals@,
            |k: int| reaches_suite(stmt.body, k) || reaches_star_handlers(stmt.handlers@, k),
            |k: int| reaches_optional_suite(stmt.orelse, k),
        );
    }
    let ghost t3 = literals@;
    process_optional_suite(&stmt.finalbody, literals);
    proof {
        lemma_requoted_where_then(
            t0,
            t3,
            literals@,
            |k: int|
                reaches_suite(stmt.body, k)
                    || reaches_star_handlers(stmt.handlers@, k)
                    || reaches_optional_suite(stmt.orelse, k),
            |k: int| reaches_optional_suite(stmt.finalbody, k),
        );
    }
}

/// Requotes the literals of a `with`: each context expression and bound name,
/// and its body.
pub fn process_with(stmt: &With, literals: &mut Vec<String>)
    ensures
        requoted_where(old(literals)@, final(literals)@, |k: int| reaches_with(*stmt, k)),
    decreases stmt, 3int,
{
    let ghost t0 = literals@;
    process_with_items(&stmt.items, literals);
    let ghost t1 = literals@;
    process_suite(&stmt.body, literals);
    proof {
        lemma_requoted_where_then(
            t0,
            t1,
            literals@,
            |k: int| reaches_with_items(stmt.items@, k),
            |k: int| reaches_suite(stmt.body, k),
        );
    }
}

/// Requotes the literals of a statement, by its kind, as the dispatch lays down.
pub fn process_statement(statement: &Statement, literals: &mut Vec<String>)
    ensures
        requoted_where(old(literals)@, final(literals)@, |k: int| reaches_statement(*statement, k)),
    decreases statement, 4int,
{
    match statement {
        Statement::Simple(statements) => process_small_statements(statements, literals),
        Statement::Compound(stmt) => match stmt {
            CompoundStatement::FunctionDef(stmt) => process_functiondef(stmt, literals),
            CompoundStatement::If(stmt) => process_if(stmt, literals),
            CompoundStatement::For(stmt) => process_for(stmt, literals),
            CompoundStatement::While(stmt) => process_while(stmt, literals),
            CompoundStatement::ClassDef(stmt) => process_classdef(stmt, literals),
            CompoundStatement::Try(stmt) => process_try(stmt, literals),
            CompoundStatement::TryStar(stmt) => process_try_star(stmt, literals),
            CompoundStatement::With(stmt) => process_with(stmt, literals),
            CompoundStatement::Match(stmt) => process_match(stmt, literals),
        },
    }
}

/// Requotes, in the literal store, every literal that the dispatch reaches
/// from the module's statements, and leaves every other entry as it was.
pub fn process_module(module: &Module, literals: &mut Vec<String>)
    ensures
        requoted_where(old(literals)@, final(literals)@, |k: int| reaches_module(*module, k)),
{
    process_statements(&module.body, literals);
}

} // verus!

//! The shape of a parsed module, as far as string literals can be reached in it.
//!
//! The tree refers to the text of each plain string literal by a slot: an index
//! into a store of literal texts kept beside the tree. Rewriting a literal changes
//! its entry in the store and leaves the tree as it is.
use vstd::prelude::*;

verus! {

/// A plain string literal, quotes and prefix included; its text is the entry
/// `slot` of the literal store.
pub struct SimpleString {
    pub slot: usize,
}

/// An expression. A plain string literal is a leaf; attribute access (the
/// expression before the dot), starred element, subscript, tuple and list
/// keep their parts, which the traversal enters. Any other kind (name, call,
/// lambda, comprehension, f-string, ...) is `Other`, with its direct
/// sub-expressions in source order, which the traversal does not enter.
pub enum Expression {
    SimpleString(SimpleString),
    Attribute(Box<Expression>),
    StarredElement(Box<Expression>),
    Subscript(Box<Subscript>),
    Tuple(Vec<Element>),
    List(Vec<Element>),
    Other(Vec<Expression>),
}

/// An element of a tuple or a list: `value` or `*value`.
pub enum Element {
    Simple(Expression),
    Starred(Expression),
}

/// One element of a subscript's slice: an index, or `lower:upper:step`.
pub enum BaseSlice {
    Index(Expression),
    Slice { lower: Option<Expression>, upper: Option<Expression>, step: Option<Expression> },
}

/// `value[slice, ...]`.
pub struct Subscript {
    pub value: Expression,
    pub slice: Vec<BaseSlice>,
}

/// The target of an assignment, of a `for`, of an `as` binding.
/// `Attribute` holds the expression before the dot.
pub enum AssignTargetExpression {
    Name,
    Attribute(Expression),
    StarredElement(Expression),
    Tuple(Vec<Element>),
    List(Vec<Element>),
    Subscript(Subscript),
}

/// The target of a `del` statement.
pub enum DelTargetExpression {
    Name,
    Attribute(Expression),
    Tuple(Vec<Element>),
    List(Vec<Element>),
    Subscript(Subscript),
}

/// A type variable (with its optional bound), a `*Ts` or a `**P`.
pub enum TypeVarLike {
    TypeVar { bound: Option<Expression> },
    TypeVarTuple,
    ParamSpec,
}

pub struct TypeParam {
    pub param: TypeVarLike,
    pub default: Option<Expression>,
}

/// `[T: bound = default, ...]` after a function, class or type alias name.
pub struct TypeParameters {
    pub params: Vec<TypeParam>,
}

pub struct Param {
    pub annotation: Option<Expression>,
    pub default: Option<Expression>,
}

/// What stands after the positional parameters: a bare `*` or `*args`.
pub enum StarArg {
    Star,
    Param(Param),
}

pub struct Parameters {
    pub params: Vec<Param>,
    pub star_arg: Option<StarArg>,
    pub kwonly_params: Vec<Param>,
    pub star_kwarg: Option<Param>,
    pub posonly_params: Vec<Param>,
}

/// An indented block of statements, or small statements on the header's line.
pub enum Suite {
    IndentedBlock(Vec<Statement>),
    SimpleStatementSuite(Vec<SmallStatement>),
}

pub struct FunctionDef {
    pub type_parameters: Option<TypeParameters>,
    pub params: Parameters,
    pub body: Suite,
    pub decorators: Vec<Expression>,
    pub returns: Option<Expression>,
}

/// `bases` and `keywords` hold the values of the class's arguments.
pub struct ClassDef {
    pub type_parameters: Option<TypeParameters>,
    pub body: Suite,
    pub bases: Vec<Expression>,
    pub keywords: Vec<Expression>,
    pub decorators: Vec<Expression>,
}

pub struct If {
    pub test: Expression,
    pub body: Suite,
    pub orelse: Option<Box<OrElse>>,
}

pub enum OrElse {
    Elif(If),
    Else(Suite),
}

pub struct For {
    pub target: AssignTargetExpression,
    pub iter: Expression,
    pub body: Suite,
    pub orelse: Option<Suite>,
}

pub struct While {
    pub test: Expression,
    pub body: Suite,
    pub orelse: Option<Suite>,
}

/// `except type as name: body`.
pub struct ExceptHandler {
    pub body: Suite,
    pub type_: Option<Expression>,
    pub name: Option<AssignTargetExpression>,
}

/// `except* type as name: body`.
pub struct ExceptStarHandler {
    pub body: Suite,
    pub type_: Expression,
    pub name: Option<AssignTargetExpression>,
}

pub struct Try {
    pub body: Suite,
    pub handlers: Vec<ExceptHandler>,
    pub orelse: Option<Suite>,
    pub finalbody: Option<Suite>,
}

pub struct TryStar {
    pub body: Suite,
    pub handlers: Vec<ExceptStarHandler>,
    pub orelse: Option<Suite>,
    pub finalbody: Option<Suite>,
}

pub struct WithItem {
    pub item: Expression,
    pub asname: Option<AssignTargetExpression>,
}

pub struct With {
    pub items: Vec<WithItem>,
    pub body: Suite,
}

/// A class reference in a class pattern; `Attribute` holds the expression
/// before the dot.
pub enum NameOrAttribute {
    Name,
    Attribute(Expression),
}

pub enum StarrableMatchSequenceElement {
    Simple(MatchPattern),
    Starred,
}

pub enum MatchSequence {
    MatchList(Vec<StarrableMatchSequenceElement>),
    MatchTuple(Vec<StarrableMatchSequenceElement>),
}

pub struct MatchMappingElement {
    pub key: Expression,
    pub pattern: MatchPattern,
}

/// `cls(patterns..., name=kwds...)`; `kwds` holds the keyword patterns.
pub struct MatchClass {
    pub cls: NameOrAttribute,
    pub patterns: Vec<MatchPattern>,
    pub kwds: Vec<MatchPattern>,
}

pub enum MatchPattern {
    Value(Expression),
    Singleton,
    Sequence(MatchSequence),
    Mapping(Vec<MatchMappingElement>),
    Class(MatchClass),
    As(Option<Box<MatchPattern>>),
    Or(Vec<MatchPattern>),
}

pub struct MatchCase {
    pub pattern: MatchPattern,
    pub guard: Option<Expression>,
    pub body: Suite,
}

pub struct Match {
    pub subject: Expression,
    pub cases: Vec<MatchCase>,
}

pub enum CompoundStatement {
    FunctionDef(FunctionDef),
    If(If),
    For(For),
    While(While),
    ClassDef(ClassDef),
    Try(Try),
    TryStar(TryStar),
    With(With),
    Match(Match),
}

/// A small statement. `Other` stands for those that hold no expression
/// (`pass`, `break`, `continue`, `import`, `global`, `nonlocal`, ...).
pub enum SmallStatement {
    Return(Option<Expression>),
    Expr(Expression),
    Assert { test: Expression, msg: Option<Expression> },
    Assign { targets: Vec<AssignTargetExpression>, value: Expression },
    AnnAssign { target: AssignTargetExpression, annotation: Expression, value: Option<Expression> },
    Raise { exc: Option<Expression>, cause: Option<Expression> },
    AugAssign { target: AssignTargetExpression, value: Expression },
    Del(DelTargetExpression),
    TypeAlias { type_parameters: Option<TypeParameters>, value: Expression },
    Other,
}

/// A logical line of small statements, or a compound statement.
pub enum Statement {
    Simple(Vec<SmallStatement>),
    Compound(CompoundStatement),
}

pub struct Module {
    pub body: Vec<Statement>,
}

} // verus!

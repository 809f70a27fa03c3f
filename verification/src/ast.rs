//! The typed abstract syntax tree that a decoded project is made of, and the
//! ghost views (`...V` types) that the contracts speak about. A view replaces
//! every `String` by its character sequence and every `Vec` by a `Seq`.

use vstd::prelude::*;

verus! {

/// A named mathematical constant.
#[derive(Debug, Clone, Copy, PartialEq, Eq, Structural)]
pub enum Constant {
    E,
    Pi,
}

/// A literal value. A number is kept as its numeral text, exactly as it
/// stood in the document.
#[derive(Debug, PartialEq)]
pub enum Literal {
    Bool(bool),
    Number(String),
    String(String),
    List(Vec<Literal>),
    Constant(Constant),
}

/// The scope a variable reference resolved against.
#[derive(Debug, Clone, Copy, PartialEq, Eq, Structural)]
pub enum VarLocation {
    Global,
    Field,
    Local,
}

/// A resolved variable declaration: original name, transformed name, and the
/// literal initializer.
#[derive(Debug, PartialEq)]
pub struct VariableDef {
    pub name: String,
    pub trans_name: String,
    pub value: Literal,
}

/// A use site of a variable; copies the identity of the declaration it
/// resolved against.
#[derive(Debug, PartialEq)]
pub struct VariableRef {
    pub name: String,
    pub trans_name: String,
    pub location: VarLocation,
}

/// The event trigger that may head a script.
#[derive(Debug, PartialEq)]
pub enum Hat {
    OnFlag { comment: Option<String> },
    OnKey { key: String, comment: Option<String> },
}

/// A statement. Every variant carries an optional trailing comment.
#[derive(Debug, PartialEq)]
pub enum Stmt {
    /// Assign the given value to each of the listed variables.
    Assign { vars: Vec<VariableRef>, value: Expr, comment: Option<String> },
    AddAssign { var: VariableRef, value: Expr, comment: Option<String> },
    Warp { stmts: Vec<Stmt>, comment: Option<String> },
    InfLoop { stmts: Vec<Stmt>, comment: Option<String> },
    ForeachLoop { var: VariableRef, items: Expr, stmts: Vec<Stmt>, comment: Option<String> },
    ForLoop {
        var: VariableRef,
        first: Expr,
        last: Expr,
        stmts: Vec<Stmt>,
        comment: Option<String>,
    },
    UntilLoop { condition: Expr, stmts: Vec<Stmt>, comment: Option<String> },
    Repeat { times: Expr, stmts: Vec<Stmt>, comment: Option<String> },
    If { condition: Expr, then: Vec<Stmt>, comment: Option<String> },
    IfElse { condition: Expr, then: Vec<Stmt>, otherwise: Vec<Stmt>, comment: Option<String> },
    Push { list: Expr, value: Expr, comment: Option<String> },
    InsertAt { list: Expr, value: Expr, index: Expr, comment: Option<String> },
    InsertAtRand { list: Expr, value: Expr, comment: Option<String> },
    Pop { list: Expr, comment: Option<String> },
    RemoveAt { list: Expr, index: Expr, comment: Option<String> },
    RemoveAll { list: Expr, comment: Option<String> },
    IndexAssign { list: Expr, value: Expr, index: Expr, comment: Option<String> },
    RandIndexAssign { list: Expr, value: Expr, comment: Option<String> },
    LastIndexAssign { list: Expr, value: Expr, comment: Option<String> },
    Return { value: Expr, comment: Option<String> },
    Sleep { seconds: Expr, comment: Option<String> },
}

/// An expression. Every variant carries an optional trailing comment.
#[derive(Debug, PartialEq)]
pub enum Expr {
    Value(Literal),
    Variable { var: VariableRef, comment: Option<String> },
    Add { left: Box<Expr>, right: Box<Expr>, comment: Option<String> },
    Sub { left: Box<Expr>, right: Box<Expr>, comment: Option<String> },
    Mul { left: Box<Expr>, right: Box<Expr>, comment: Option<String> },
    Div { left: Box<Expr>, right: Box<Expr>, comment: Option<String> },
    /// Mathematical modulus (not remainder).
    Mod { left: Box<Expr>, right: Box<Expr>, comment: Option<String> },
    Pow { base: Box<Expr>, power: Box<Expr>, comment: Option<String> },
    Log { value: Box<Expr>, base: Box<Expr>, comment: Option<String> },
    /// Short-circuiting logical `and`.
    And { left: Box<Expr>, right: Box<Expr>, comment: Option<String> },
    /// Short-circuiting logical `or`.
    Or { left: Box<Expr>, right: Box<Expr>, comment: Option<String> },
    /// Lazily evaluated conditional expression.
    Conditional {
        condition: Box<Expr>,
        then: Box<Expr>,
        otherwise: Box<Expr>,
        comment: Option<String>,
    },
    RefEq { left: Box<Expr>, right: Box<Expr>, comment: Option<String> },
    Eq { left: Box<Expr>, right: Box<Expr>, comment: Option<String> },
    Less { left: Box<Expr>, right: Box<Expr>, comment: Option<String> },
    Greater { left: Box<Expr>, right: Box<Expr>, comment: Option<String> },
    /// A random number between `a` and `b`, inclusive on both ends.
    RandInclusive { a: Box<Expr>, b: Box<Expr>, comment: Option<String> },
    /// All numbers from `start` stepping towards `stop`, inclusive.
    RangeInclusive { start: Box<Expr>, stop: Box<Expr>, comment: Option<String> },
    MakeList { values: Vec<Expr>, comment: Option<String> },
    Listcat { lists: Vec<Expr>, comment: Option<String> },
    Listlen { value: Box<Expr>, comment: Option<String> },
    /// A shallow copy of the sublist on the inclusive, 1-indexed range
    /// `[from, to]`; a missing bound goes all the way to that end.
    ListSlice {
        value: Box<Expr>,
        from: Option<Box<Expr>>,
        to: Option<Box<Expr>>,
        comment: Option<String>,
    },
    /// The 1-based index of `value` in the list, or 0 if absent.
    ListFind { list: Box<Expr>, value: Box<Expr>, comment: Option<String> },
    ListIndex { list: Box<Expr>, index: Box<Expr>, comment: Option<String> },
    ListRandIndex { list: Box<Expr>, comment: Option<String> },
    ListLastIndex { list: Box<Expr>, comment: Option<String> },
    Strcat { values: Vec<Expr>, comment: Option<String> },
    /// String length in unicode code points.
    Strlen { value: Box<Expr>, comment: Option<String> },
    /// Convert a unicode code point into a one-character string.
    UnicodeToChar { value: Box<Expr>, comment: Option<String> },
    /// Convert a one-character string into its unicode code point.
    CharToUnicode { value: Box<Expr>, comment: Option<String> },
    Not { value: Box<Expr>, comment: Option<String> },
    Neg { value: Box<Expr>, comment: Option<String> },
    Abs { value: Box<Expr>, comment: Option<String> },
    Sqrt { value: Box<Expr>, comment: Option<String> },
    Floor { value: Box<Expr>, comment: Option<String> },
    Ceil { value: Box<Expr>, comment: Option<String> },
    Round { value: Box<Expr>, comment: Option<String> },
    Sin { value: Box<Expr>, comment: Option<String> },
    Cos { value: Box<Expr>, comment: Option<String> },
    Tan { value: Box<Expr>, comment: Option<String> },
    Asin { value: Box<Expr>, comment: Option<String> },
    Acos { value: Box<Expr>, comment: Option<String> },
    Atan { value: Box<Expr>, comment: Option<String> },
}

/// One script: an optional trigger and a statement sequence.
#[derive(Debug, PartialEq)]
pub struct Script {
    pub hat: Option<Hat>,
    pub stmts: Vec<Stmt>,
}

/// A named actor owning fields and scripts; the stage is a sprite too.
#[derive(Debug, PartialEq)]
pub struct Sprite {
    pub name: String,
    pub fields: Vec<VariableDef>,
    pub scripts: Vec<Script>,
}

/// A named program variant owning globals and sprites.
#[derive(Debug, PartialEq)]
pub struct Role {
    pub name: String,
    pub notes: String,
    pub globals: Vec<VariableDef>,
    pub sprites: Vec<Sprite>,
}

/// The root of the decoded output.
#[derive(Debug, PartialEq)]
pub struct Project {
    pub name: String,
    pub roles: Vec<Role>,
}

// --- ghost views ---

pub enum LiteralV {
    Bool(bool),
    Number(Seq<char>),
    Str(Seq<char>),
    List(Seq<LiteralV>),
    Constant(Constant),
}

pub struct VariableDefV {
    pub name: Seq<char>,
    pub trans_name: Seq<char>,
    pub value: LiteralV,
}

pub struct VariableRefV {
    pub name: Seq<char>,
    pub trans_name: Seq<char>,
    pub location: VarLocation,
}

pub enum HatV {
    OnFlag { comment: Option<Seq<char>> },
    OnKey { key: Seq<char>, comment: Option<Seq<char>> },
}

pub enum StmtV {
    Assign { vars: Seq<VariableRefV>, value: ExprV, comment: Option<Seq<char>> },
    AddAssign { var: VariableRefV, value: ExprV, comment: Option<Seq<char>> },
    Warp { stmts: Seq<StmtV>, comment: Option<Seq<char>> },
    InfLoop { stmts: Seq<StmtV>, comment: Option<Seq<char>> },
    ForeachLoop { var: VariableRefV, items: ExprV, stmts: Seq<StmtV>, comment: Option<Seq<char>> },
    ForLoop {
        var: VariableRefV,
        first: ExprV,
        last: ExprV,
        stmts: Seq<StmtV>,
        comment: Option<Seq<char>>,
    },
    UntilLoop { condition: ExprV, stmts: Seq<StmtV>, comment: Option<Seq<char>> },
    Repeat { times: ExprV, stmts: Seq<StmtV>, comment: Option<Seq<char>> },
    If { condition: ExprV, then: Seq<StmtV>, comment: Option<Seq<char>> },
    IfElse { condition: ExprV, then: Seq<StmtV>, otherwise: Seq<StmtV>, comment: Option<Seq<char>> },
    Push { list: ExprV, value: ExprV, comment: Option<Seq<char>> },
    InsertAt { list: ExprV, value: ExprV, index: ExprV, comment: Option<Seq<char>> },
    InsertAtRand { list: ExprV, value: ExprV, comment: Option<Seq<char>> },
    Pop { list: ExprV, comment: Option<Seq<char>> },
    RemoveAt { list: ExprV, index: ExprV, comment: Option<Seq<char>> },
    RemoveAll { list: ExprV, comment: Option<Seq<char>> },
    IndexAssign { list: ExprV, value: ExprV, index: ExprV, comment: Option<Seq<char>> },
    RandIndexAssign { list: ExprV, value: ExprV, comment: Option<Seq<char>> },
    LastIndexAssign { list: ExprV, value: ExprV, comment: Option<Seq<char>> },
    Return { value: ExprV, comment: Option<Seq<char>> },
    Sleep { seconds: ExprV, comment: Option<Seq<char>> },
}

pub enum ExprV {
    Value(LiteralV),
    Variable { var: VariableRefV, comment: Option<Seq<char>> },
    Add { left: Box<ExprV>, right: Box<ExprV>, comment: Option<Seq<char>> },
    Sub { left: Box<ExprV>, right: Box<ExprV>, comment: Option<Seq<char>> },
    Mul { left: Box<ExprV>, right: Box<ExprV>, comment: Option<Seq<char>> },
    Div { left: Box<ExprV>, right: Box<ExprV>, comment: Option<Seq<char>> },
    Mod { left: Box<ExprV>, right: Box<ExprV>, comment: Option<Seq<char>> },
    Pow { base: Box<ExprV>, power: Box<ExprV>, comment: Option<Seq<char>> },
    Log { value: Box<ExprV>, base: Box<ExprV>, comment: Option<Seq<char>> },
    And { left: Box<ExprV>, right: Box<ExprV>, comment: Option<Seq<char>> },
    Or { left: Box<ExprV>, right: Box<ExprV>, comment: Option<Seq<char>> },
    Conditional {
        condition: Box<ExprV>,
        then: Box<ExprV>,
        otherwise: Box<ExprV>,
        comment: Option<Seq<char>>,
    },
    RefEq { left: Box<ExprV>, right: Box<ExprV>, comment: Option<Seq<char>> },
    Eq { left: Box<ExprV>, right: Box<ExprV>, comment: Option<Seq<char>> },
    Less { left: Box<ExprV>, right: Box<ExprV>, comment: Option<Seq<char>> },
    Greater { left: Box<ExprV>, right: Box<ExprV>, comment: Option<Seq<char>> },
    RandInclusive { a: Box<ExprV>, b: Box<ExprV>, comment: Option<Seq<char>> },
    RangeInclusive { start: Box<ExprV>, stop: Box<ExprV>, comment: Option<Seq<char>> },
    MakeList { values: Seq<ExprV>, comment: Option<Seq<char>> },
    Listcat { lists: Seq<ExprV>, comment: Option<Seq<char>> },
    Listlen { value: Box<ExprV>, comment: Option<Seq<char>> },
    ListSlice {
        value: Box<ExprV>,
        from: Option<Box<ExprV>>,
        to: Option<Box<ExprV>>,
        comment: Option<Seq<char>>,
    },
    ListFind { list: Box<ExprV>, value: Box<ExprV>, comment: Option<Seq<char>> },
    ListIndex { list: Box<ExprV>, index: Box<ExprV>, comment: Option<Seq<char>> },
    ListRandIndex { list: Box<ExprV>, comment: Option<Seq<char>> },
    ListLastIndex { list: Box<ExprV>, comment: Option<Seq<char>> },
    Strcat { values: Seq<ExprV>, comment: Option<Seq<char>> },
    Strlen { value: Box<ExprV>, comment: Option<Seq<char>> },
    UnicodeToChar { value: Box<ExprV>, comment: Option<Seq<char>> },
    CharToUnicode { value: Box<ExprV>, comment: Option<Seq<char>> },
    Not { value: Box<ExprV>, comment: Option<Seq<char>> },
    Neg { value: Box<ExprV>, comment: Option<Seq<char>> },
    Abs { value: Box<ExprV>, comment: Option<Seq<char>> },
    Sqrt { value: Box<ExprV>, comment: Option<Seq<char>> },
    Floor { value: Box<ExprV>, comment: Option<Seq<char>> },
    Ceil { value: Box<ExprV>, comment: Option<Seq<char>> },
    Round { value: Box<ExprV>, comment: Option<Seq<char>> },
    Sin { value: Box<ExprV>, comment: Option<Seq<char>> },
    Cos { value: Box<ExprV>, comment: Option<Seq<char>> },
    Tan { value: Box<ExprV>, comment: Option<Seq<char>> },
    Asin { value: Box<ExprV>, comment: Option<Seq<char>> },
    Acos { value: Box<ExprV>, comment: Option<Seq<char>> },
    Atan { value: Box<ExprV>, comment: Option<Seq<char>> },
}

pub struct ScriptV {
    pub hat: Option<HatV>,
    pub stmts: Seq<StmtV>,
}

pub struct SpriteV {
    pub name: Seq<char>,
    pub fields: Seq<VariableDefV>,
    pub scripts: Seq<ScriptV>,
}

pub struct RoleV {
    pub name: Seq<char>,
    pub notes: Seq<char>,
    pub globals: Seq<VariableDefV>,
    pub sprites: Seq<SpriteV>,
}

pub struct ProjectV {
    pub name: Seq<char>,
    pub roles: Seq<RoleV>,
}

// --- view functions ---

/// The view of an optional text.
pub open spec fn opt_text(o: Option<String>) -> Option<Seq<char>> {
    match o {
        Option::Some(s) => Option::Some(s@),
        Option::None => Option::None,
    }
}

pub open spec fn view_literal(v: Literal) -> LiteralV
    decreases v,
{
    match v {
        Literal::Bool(b) => LiteralV::Bool(b),
        Literal::Number(s) => LiteralV::Number(s@),
        Literal::String(s) => LiteralV::Str(s@),
        Literal::List(vs) => LiteralV::List(view_literals(vs@)),
        Literal::Constant(c) => LiteralV::Constant(c),
    }
}

pub open spec fn view_literals(s: Seq<Literal>) -> Seq<LiteralV>
    decreases s,
{
    if s.len() == 0 {
        Seq::empty()
    } else {
        seq![view_literal(s[0])] + view_literals(s.drop_first())
    }
}

pub open spec fn view_vardef(d: VariableDef) -> VariableDefV {
    VariableDefV { name: d.name@, trans_name: d.trans_name@, value: view_literal(d.value) }
}

pub open spec fn view_vardefs(s: Seq<VariableDef>) -> Seq<VariableDefV> {
    s.map_values(|d: VariableDef| view_vardef(d))
}

pub open spec fn view_varref(r: VariableRef) -> VariableRefV {
    VariableRefV { name: r.name@, trans_name: r.trans_name@, location: r.location }
}

pub open spec fn view_varrefs(s: Seq<VariableRef>) -> Seq<VariableRefV> {
    s.map_values(|r: VariableRef| view_varref(r))
}

pub open spec fn view_hat(h: Hat) -> HatV {
    match h {
        Hat::OnFlag { comment } => HatV::OnFlag { comment: opt_text(comment) },
        Hat::OnKey { key, comment } => HatV::OnKey { key: key@, comment: opt_text(comment) },
    }
}

pub open spec fn view_expr(e: Expr) -> ExprV
    decreases e,
{
    match e {
        Expr::Value(v) => ExprV::Value(view_literal(v)),
        Expr::Variable { var, comment } => ExprV::Variable {
            var: view_varref(var),
            comment: opt_text(comment),
        },
        Expr::Add { left, right, comment } => ExprV::Add {
            left: Box::new(view_expr(*left)),
            right: Box::new(view_expr(*right)),
            comment: opt_text(comment),
        },
        Expr::Sub { left, right, comment } => ExprV::Sub {
            left: Box::new(view_expr(*left)),
            right: Box::new(view_expr(*right)),
            comment: opt_text(comment),
        },
        Expr::Mul { left, right, comment } => ExprV::Mul {
            left: Box::new(view_expr(*left)),
            right: Box::new(view_expr(*right)),
            comment: opt_text(comment),
        },
        Expr::Div { left, right, comment } => ExprV::Div {
            left: Box::new(view_expr(*left)),
            right: Box::new(view_expr(*right)),
            comment: opt_text(comment),
        },
        Expr::Mod { left, right, comment } => ExprV::Mod {
            left: Box::new(view_expr(*left)),
            right: Box::new(view_expr(*right)),
            comment: opt_text(comment),
        },
        Expr::Pow { base, power, comment } => ExprV::Pow {
            base: Box::new(view_expr(*base)),
            power: Box::new(view_expr(*power)),
            comment: opt_text(comment),
        },
        Expr::Log { value, base, comment } => ExprV::Log {
            value: Box::new(view_expr(*value)),
            base: Box::new(view_expr(*base)),
            comment: opt_text(comment),
        },
        Expr::And { left, right, comment } => ExprV::And {
            left: Box::new(view_expr(*left)),
            right: Box::new(view_expr(*right)),
            comment: opt_text(comment),
        },
        Expr::Or { left, right, comment } => ExprV::Or {
            left: Box::new(view_expr(*left)),
            right: Box::new(view_expr(*right)),
            comment: opt_text(comment),
        },
        Expr::Conditional { condition, then, otherwise, comment } => ExprV::Conditional {
            condition: Box::new(view_expr(*condition)),
            then: Box::new(view_expr(*then)),
            otherwise: Box::new(view_expr(*otherwise)),
            comment: opt_text(comment),
        },
        Expr::RefEq { left, right, comment } => ExprV::RefEq {
            left: Box::new(view_expr(*left)),
            right: Box::new(view_expr(*right)),
            comment: opt_text(comment),
        },
        Expr::Eq { left, right, comment } => ExprV::Eq {
            left: Box::new(view_expr(*left)),
            right: Box::new(view_expr(*right)),
            comment: opt_text(comment),
        },
        Expr::Less { left, right, comment } => ExprV::Less {
            left: Box::new(view_expr(*left)),
            right: Box::new(view_expr(*right)),
            comment: opt_text(comment),
        },
        Expr::Greater { left, right, comment } => ExprV::Greater {
            left: Box::new(view_expr(*left)),
            right: Box::new(view_expr(*right)),
            comment: opt_text(comment),
        },
        Expr::RandInclusive { a, b, comment } => ExprV::RandInclusive {
            a: Box::new(view_expr(*a)),
            b: Box::new(view_expr(*b)),
            comment: opt_text(comment),
        },
        Expr::RangeInclusive { start, stop, comment } => ExprV::RangeInclusive {
            start: Box::new(view_expr(*start)),
            stop: Box::new(view_expr(*stop)),
            comment: opt_text(comment),
        },
        Expr::MakeList { values, comment } => ExprV::MakeList {
            values: view_exprs(values@),
            comment: opt_text(comment),
        },
        Expr::Listcat { lists, comment } => ExprV::Listcat {
            lists: view_exprs(lists@),
            comment: opt_text(comment),
        },
        Expr::Listlen { value, comment } => ExprV::Listlen {
            value: Box::new(view_expr(*value)),
            comment: opt_text(comment),
        },
        Expr::ListSlice { value, from, to, comment } => ExprV::ListSlice {
            value: Box::new(view_expr(*value)),
            from: match from {
                Option::Some(f) => Option::Some(Box::new(view_expr(*f))),
                Option::None => Option::None,
            },
            to: match to {
                Option::Some(t) => Option::Some(Box::new(view_expr(*t))),
                Option::None => Option::None,
            },
            comment: opt_text(comment),
        },
        Expr::ListFind { list, value, comment } => ExprV::ListFind {
            list: Box::new(view_expr(*list)),
            value: Box::new(view_expr(*value)),
            comment: opt_text(comment),
        },
        Expr::ListIndex { list, index, comment } => ExprV::ListIndex {
            list: Box::new(view_expr(*list)),
            index: Box::new(view_expr(*index)),
            comment: opt_text(comment),
        },
        Expr::ListRandIndex { list, comment } => ExprV::ListRandIndex {
            list: Box::new(view_expr(*list)),
            comment: opt_text(comment),
        },
        Expr::ListLastIndex { list, comment } => ExprV::ListLastIndex {
            list: Box::new(view_expr(*list)),
            comment: opt_text(comment),
        },
        Expr::Strcat { values, comment } => ExprV::Strcat {
            values: view_exprs(values@),
            comment: opt_text(comment),
        },
        Expr::Strlen { value, comment } => ExprV::Strlen {
            value: Box::new(view_expr(*value)),
            comment: opt_text(comment),
        },
        Expr::UnicodeToChar { value, comment } => ExprV::UnicodeToChar {
            value: Box::new(view_expr(*value)),
            comment: opt_text(comment),
        },
        Expr::CharToUnicode { value, comment } => ExprV::CharToUnicode {
            value: Box::new(view_expr(*value)),
            comment: opt_text(comment),
        },
        Expr::Not { value, comment } => ExprV::Not {
            value: Box::new(view_expr(*value)),
            comment: opt_text(comment),
        },
        Expr::Neg { value, comment } => ExprV::Neg {
            value: Box::new(view_expr(*value)),
            comment: opt_text(comment),
        },
        Expr::Abs { value, comment } => ExprV::Abs {
            value: Box::new(view_expr(*value)),
            comment: opt_text(comment),
        },
        Expr::Sqrt { value, comment } => ExprV::Sqrt {
            value: Box::new(view_expr(*value)),
            comment: opt_text(comment),
        },
        Expr::Floor { value, comment } => ExprV::Floor {
            value: Box::new(view_expr(*value)),
            comment: opt_text(comment),
        },
        Expr::Ceil { value, comment } => ExprV::Ceil {
            value: Box::new(view_expr(*value)),
            comment: opt_text(comment),
        },
        Expr::Round { value, comment } => ExprV::Round {
            value: Box::new(view_expr(*value)),
            comment: opt_text(comment),
        },
        Expr::Sin { value, comment } => ExprV::Sin {
            value: Box::new(view_expr(*value)),
            comment: opt_text(comment),
        },
        Expr::Cos { value, comment } => ExprV::Cos {
            value: Box::new(view_expr(*value)),
            comment: opt_text(comment),
        },
        Expr::Tan { value, comment } => ExprV::Tan {
            value: Box::new(view_expr(*value)),
            comment: opt_text(comment),
        },
        Expr::Asin { value, comment } => ExprV::Asin {
            value: Box::new(view_expr(*value)),
            comment: opt_text(comment),
        },
        Expr::Acos { value, comment } => ExprV::Acos {
            value: Box::new(view_expr(*value)),
            comment: opt_text(comment),
        },
        Expr::Atan { value, comment } => ExprV::Atan {
            value: Box::new(view_expr(*value)),
            comment: opt_text(comment),
        },
    }
}

pub open spec fn view_exprs(s: Seq<Expr>) -> Seq<ExprV>
    decreases s,
{
    if s.len() == 0 {
        Seq::empty()
    } else {
        seq![view_expr(s[0])] + view_exprs(s.drop_first())
    }
}

pub open spec fn view_stmt(st: Stmt) -> StmtV
    decreases st,
{
    match st {
        Stmt::Assign { vars, value, comment } => StmtV::Assign {
            vars: view_varrefs(vars@),
            value: view_expr(value),
            comment: opt_text(comment),
        },
        Stmt::AddAssign { var, value, comment } => StmtV::AddAssign {
            var: view_varref(var),
            value: view_expr(value),
            comment: opt_text(comment),
        },
        Stmt::Warp { stmts, comment } => StmtV::Warp {
            stmts: view_stmts(stmts@),
            comment: opt_text(comment),
        },
        Stmt::InfLoop { stmts, comment } => StmtV::InfLoop {
            stmts: view_stmts(stmts@),
            comment: opt_text(comment),
        },
        Stmt::ForeachLoop { var, items, stmts, comment } => StmtV::ForeachLoop {
            var: view_varref(var),
            items: view_expr(items),
            stmts: view_stmts(stmts@),
            comment: opt_text(comment),
        },
        Stmt::ForLoop { var, first, last, stmts, comment } => StmtV::ForLoop {
            var: view_varref(var),
            first: view_expr(first),
            last: view_expr(last),
            stmts: view_stmts(stmts@),
            comment: opt_text(comment),
        },
        Stmt::UntilLoop { condition, stmts, comment } => StmtV::UntilLoop {
            condition: view_expr(condition),
            stmts: view_stmts(stmts@),
            comment: opt_text(comment),
        },
        Stmt::Repeat { times, stmts, comment } => StmtV::Repeat {
            times: view_expr(times),
            stmts: view_stmts(stmts@),
            comment: opt_text(comment),
        },
        Stmt::If { condition, then, comment } => StmtV::If {
            condition: view_expr(condition),
            then: view_stmts(then@),
            comment: opt_text(comment),
        },
        Stmt::IfElse { condition, then, otherwise, comment } => StmtV::IfElse {
            condition: view_expr(condition),
            then: view_stmts(then@),
            otherwise: view_stmts(otherwise@),
            comment: opt_text(comment),
        },
        Stmt::Push { list, value, comment } => StmtV::Push {
            list: view_expr(list),
            value: view_expr(value),
            comment: opt_text(comment),
        },
        Stmt::InsertAt { list, value, index, comment } => StmtV::InsertAt {
            list: view_expr(list),
            value: view_expr(value),
            index: view_expr(index),
            comment: opt_text(comment),
        },
        Stmt::InsertAtRand { list, value, comment } => StmtV::InsertAtRand {
            list: view_expr(list),
            value: view_expr(value),
            comment: opt_text(comment),
        },
        Stmt::Pop { list, comment } => StmtV::Pop {
            list: view_expr(list),
            comment: opt_text(comment),
        },
        Stmt::RemoveAt { list, index, comment } => StmtV::RemoveAt {
            list: view_expr(list),
            index: view_expr(index),
            comment: opt_text(comment),
        },
        Stmt::RemoveAll { list, comment } => StmtV::RemoveAll {
            list: view_expr(list),
            comment: opt_text(comment),
        },
        Stmt::IndexAssign { list, value, index, comment } => StmtV::IndexAssign {
            list: view_expr(list),
            value: view_expr(value),
            index: view_expr(index),
            comment: opt_text(comment),
        },
        Stmt::RandIndexAssign { list, value, comment } => StmtV::RandIndexAssign {
            list: view_expr(list),
            value: view_expr(value),
            comment: opt_text(comment),
        },
        Stmt::LastIndexAssign { list, value, comment } => StmtV::LastIndexAssign {
            list: view_expr(list),
            value: view_expr(value),
            comment: opt_text(comment),
        },
        Stmt::Return { value, comment } => StmtV::Return {
            value: view_expr(value),
            comment: opt_text(comment),
        },
        Stmt::Sleep { seconds, comment } => StmtV::Sleep {
            seconds: view_expr(seconds),
            comment: opt_text(comment),
        },
    }
}

pub open spec fn view_stmts(s: Seq<Stmt>) -> Seq<StmtV>
    decreases s,
{
    if s.len() == 0 {
        Seq::empty()
    } else {
        seq![view_stmt(s[0])] + view_stmts(s.drop_first())
    }
}

pub open spec fn view_script(s: Script) -> ScriptV {
    ScriptV {
        hat: match s.hat {
            Option::Some(h) => Option::Some(view_hat(h)),
            Option::None => Option::None,
        },
        stmts: view_stmts(s.stmts@),
    }
}

pub open spec fn view_scripts(s: Seq<Script>) -> Seq<ScriptV> {
    s.map_values(|x: Script| view_script(x))
}

pub open spec fn view_sprite(s: Sprite) -> SpriteV {
    SpriteV { name: s.name@, fields: view_vardefs(s.fields@), scripts: view_scripts(s.scripts@) }
}

pub open spec fn view_sprites(s: Seq<Sprite>) -> Seq<SpriteV> {
    s.map_values(|x: Sprite| view_sprite(x))
}

pub open spec fn view_role(r: Role) -> RoleV {
    RoleV {
        name: r.name@,
        notes: r.notes@,
        globals: view_vardefs(r.globals@),
        sprites: view_sprites(r.sprites@),
    }
}

pub open spec fn view_roles(s: Seq<Role>) -> Seq<RoleV> {
    s.map_values(|x: Role| view_role(x))
}

pub open spec fn view_project(p: Project) -> ProjectV {
    ProjectV { name: p.name@, roles: view_roles(p.roles@) }
}

// --- lemmas connecting a sequence view with its elements ---

pub proof fn lemma_view_literals(s: Seq<Literal>)
    ensures
        view_literals(s).len() == s.len(),
        forall|i: int| 0 <= i < s.len() ==> view_literals(s)[i] == view_literal(s[i]),
    decreases s,
{
    if s.len() > 0 {
        lemma_view_literals(s.drop_first());
        assert forall|i: int| 0 <= i < s.len() implies view_literals(s)[i] == view_literal(s[i]) by {
            if i > 0 {
                assert(s.drop_first()[i - 1] == s[i]);
            }
        }
    }
}

pub proof fn lemma_view_exprs(s: Seq<Expr>)
    ensures
        view_exprs(s).len() == s.len(),
        forall|i: int| 0 <= i < s.len() ==> view_exprs(s)[i] == view_expr(s[i]),
    decreases s,
{
    if s.len() > 0 {
        lemma_view_exprs(s.drop_first());
        assert forall|i: int| 0 <= i < s.len() implies view_exprs(s)[i] == view_expr(s[i]) by {
            if i > 0 {
                assert(s.drop_first()[i - 1] == s[i]);
            }
        }
    }
}

pub proof fn lemma_view_stmts(s: Seq<Stmt>)
    ensures
        view_stmts(s).len() == s.len(),
        forall|i: int| 0 <= i < s.len() ==> view_stmts(s)[i] == view_stmt(s[i]),
    decreases s,
{
    if s.len() > 0 {
        lemma_view_stmts(s.drop_first());
        assert forall|i: int| 0 <= i < s.len() implies view_stmts(s)[i] == view_stmt(s[i]) by {
            if i > 0 {
                assert(s.drop_first()[i - 1] == s[i]);
            }
        }
    }
}

impl VariableDef {
    /// Builds the reference that copies this declaration's identity into the
    /// given scope.
    pub fn ref_at(&self, location: VarLocation) -> (r: VariableRef)
        ensures
            view_varref(r) == (VariableRefV {
                name: self.name@,
                trans_name: self.trans_name@,
                location,
            }),
    {
        VariableRef { name: self.name.clone(), trans_name: self.trans_name.clone(), location }
    }
}

} // verus!

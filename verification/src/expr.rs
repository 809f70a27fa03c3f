//! The expression decoder: a pure function from a generic tree node and a
//! lexical context to a typed expression. Dispatches on the node tag and,
//! for block nodes, on the `s` type tag; every block shape first checks its
//! arity and then picks up an optional trailing comment child.

use vstd::prelude::*;
use crate::ast::{Constant, Expr, ExprV, Literal, LiteralV, VariableDefV, VariableRef, VariableRefV, VarLocation, opt_text, view_expr, view_varref, view_literal, view_exprs, lemma_view_exprs, view_literals, lemma_view_literals};
use crate::error::{Error, ErrorV, ProjectError, ProjectErrorV, view_error};
use crate::json::{spec_parse_atomic, parse_atomic};
use crate::symbol::{NameTransformer, SymbolTable, tf_of, spec_reference_var};
use crate::text::{clean_seq, clean_newlines, is_numeric, is_numeric_text, str_chars, str_eq};
use crate::xml_tree::{Xml, find_child_idx, find_child, spec_attr};

verus! {

/// The lexical context a node is decoded in: attribution names and the three
/// nested scopes.
pub struct CtxV {
    pub role: Seq<char>,
    pub sprite: Seq<char>,
    pub globals: Seq<VariableDefV>,
    pub fields: Seq<VariableDefV>,
    pub locals: Seq<VariableDefV>,
}

/// The read-only part of a decoding context: the transformer, the names the
/// errors are attributed to, and the two outer scopes.
pub struct Scope<'a, T> {
    pub transformer: &'a T,
    pub role: &'a String,
    pub sprite: &'a String,
    pub globals: &'a SymbolTable,
    pub fields: &'a SymbolTable,
}

/// The spec view of a context.
pub open spec fn ctx_of<T: NameTransformer>(s: Scope<T>, locals: SymbolTable) -> CtxV {
    CtxV {
        role: s.role@,
        sprite: s.sprite@,
        globals: s.globals.defs(),
        fields: s.fields.defs(),
        locals: locals.defs(),
    }
}

/// Both outer scopes and the locals are well formed under the transformer.
pub open spec fn scope_wf<T: NameTransformer>(s: Scope<T>, locals: SymbolTable) -> bool {
    &&& s.globals.wf(tf_of(*s.transformer))
    &&& s.fields.wf(tf_of(*s.transformer))
    &&& locals.wf(tf_of(*s.transformer))
}

/// The view of a decoded expression result.
pub open spec fn view_expr_result(r: Result<Expr, Error>) -> Result<ExprV, ErrorV> {
    match r {
        Result::Ok(e) => Result::Ok(view_expr(e)),
        Result::Err(e) => Result::Err(view_error(e)),
    }
}

/// Arity check and comment pick-up: a block that needs `req` children fails
/// with a child-count error when it has fewer; a child right after the
/// required ones supplies the comment when it is tagged `comment`.
pub open spec fn spec_comment(
    x: Xml,
    s: Seq<char>,
    req: usize,
    role: Seq<char>,
    sprite: Seq<char>,
) -> Result<Option<Seq<char>>, ErrorV> {
    if x.children@.len() < req {
        Result::Err(
            ErrorV::InvalidProject {
                error: ProjectErrorV::BlockChildCount {
                    role,
                    sprite,
                    block_type: s,
                    needed: req,
                    got: x.children@.len() as usize,
                },
            },
        )
    } else if req < x.children@.len() && x.children@[req as int].name@ == "comment"@ {
        Result::Ok(Option::Some(clean_seq(x.children@[req as int].text@)))
    } else {
        Result::Ok(Option::None)
    }
}

/// The first child tagged `option`, if any.
pub open spec fn spec_option_child(x: Xml) -> Option<Xml> {
    let i = find_child_idx(x.children@, "option"@);
    if i < 0 {
        Option::None
    } else {
        Option::Some(x.children@[i])
    }
}

/// A numeric literal expression, used by the desugarings.
pub open spec fn num_lit(text: Seq<char>) -> ExprV {
    ExprV::Value(LiteralV::Number(text))
}

/// Decoding one node into an expression.
pub open spec fn spec_parse_expr(x: Xml, c: CtxV) -> Result<ExprV, ErrorV>
    decreases x, 3int,
{
    if x.name@ == "l"@ {
        if is_numeric(x.text@) {
            Result::Ok(ExprV::Value(LiteralV::Number(x.text@)))
        } else {
            Result::Ok(ExprV::Value(LiteralV::Str(x.text@)))
        }
    } else if x.name@ == "bool"@ {
        if x.text@ == "true"@ {
            Result::Ok(ExprV::Value(LiteralV::Bool(true)))
        } else if x.text@ == "false"@ {
            Result::Ok(ExprV::Value(LiteralV::Bool(false)))
        } else {
            Result::Err(
                ErrorV::InvalidProject {
                    error: ProjectErrorV::BoolUnknownValue {
                        role: c.role,
                        sprite: c.sprite,
                        value: x.text@,
                    },
                },
            )
        }
    } else if x.name@ == "list"@ {
        let atomic = match spec_attr(x, "struct"@) {
            Option::Some(a) => a.value@ == "atomic"@,
            Option::None => false,
        };
        if atomic {
            match spec_parse_atomic(x.text@) {
                Result::Ok(v) => Result::Ok(ExprV::Value(v)),
                Result::Err(reason) => Result::Err(
                    ErrorV::InvalidProject { error: ProjectErrorV::InvalidJson { reason } },
                ),
            }
        } else {
            match spec_parse_literal_list(x.children@, c) {
                Result::Ok(vs) => Result::Ok(ExprV::Value(LiteralV::List(vs))),
                Result::Err(e) => Result::Err(e),
            }
        }
    } else if x.name@ == "block"@ {
        match spec_attr(x, "var"@) {
            Option::Some(va) => {
                match spec_comment(x, "var"@, 0, c.role, c.sprite) {
                    Result::Err(e) => Result::Err(e),
                    Result::Ok(cm) => {
                        match spec_reference_var(c.locals, c.fields, c.globals, va.value@) {
                            Option::Some(dl) => Result::Ok(
                                ExprV::Variable {
                                    var: VariableRefV {
                                        name: dl.0.name,
                                        trans_name: dl.0.trans_name,
                                        location: dl.1,
                                    },
                                    comment: cm,
                                },
                            ),
                            Option::None => Result::Err(
                                ErrorV::UndefinedVariable {
                                    role: c.role,
                                    sprite: c.sprite,
                                    name: va.value@,
                                },
                            ),
                        }
                    },
                }
            },
            Option::None => {
                match spec_attr(x, "s"@) {
                    Option::None => Result::Err(
                        ErrorV::InvalidProject {
                            error: ProjectErrorV::BlockWithoutType {
                                role: c.role,
                                sprite: c.sprite,
                            },
                        },
                    ),
                    Option::Some(a) => spec_parse_block_expr(x, a.value@, c),
                }
            },
        }
    } else {
        Result::Err(
            ErrorV::UnknownBlockType { role: c.role, sprite: c.sprite, block_type: x.name@ },
        )
    }
}

/// Two fixed operands and the comment.
pub open spec fn spec_binary(x: Xml, s: Seq<char>, c: CtxV) -> Result<
    (ExprV, ExprV, Option<Seq<char>>),
    ErrorV,
>
    decreases x, 1int,
    via spec_binary_dec
{
    match spec_comment(x, s, 2, c.role, c.sprite) {
        Result::Err(e) => Result::Err(e),
        Result::Ok(cm) => match spec_parse_expr(x.children@[0], c) {
            Result::Err(e) => Result::Err(e),
            Result::Ok(l) => match spec_parse_expr(x.children@[1], c) {
                Result::Err(e) => Result::Err(e),
                Result::Ok(r) => Result::Ok((l, r, cm)),
            },
        },
    }
}

#[via_fn]
proof fn spec_binary_dec(x: Xml, s: Seq<char>, c: CtxV) {
    if !(x.children@.len() < 2) {
        assert(decreases_to!(x => x.children));
        assert(decreases_to!(x.children => x.children@));
        assert(decreases_to!(x.children@ => x.children@[0]));
        assert(decreases_to!(x.children@ => x.children@[1]));
    }
}

/// One fixed operand and the comment.
pub open spec fn spec_unary(x: Xml, s: Seq<char>, c: CtxV) -> Result<
    (ExprV, Option<Seq<char>>),
    ErrorV,
>
    decreases x, 1int,
    via spec_unary_dec
{
    match spec_comment(x, s, 1, c.role, c.sprite) {
        Result::Err(e) => Result::Err(e),
        Result::Ok(cm) => match spec_parse_expr(x.children@[0], c) {
            Result::Err(e) => Result::Err(e),
            Result::Ok(v) => Result::Ok((v, cm)),
        },
    }
}

#[via_fn]
proof fn spec_unary_dec(x: Xml, s: Seq<char>, c: CtxV) {
    if !(x.children@.len() < 1) {
        assert(decreases_to!(x => x.children));
        assert(decreases_to!(x.children => x.children@));
        assert(decreases_to!(x.children@ => x.children@[0]));
    }
}

/// An arbitrary-length operand list held by a container child, and the
/// comment.
pub open spec fn spec_variadic(x: Xml, s: Seq<char>, c: CtxV) -> Result<
    (Seq<ExprV>, Option<Seq<char>>),
    ErrorV,
>
    decreases x, 1int,
    via spec_variadic_dec
{
    match spec_comment(x, s, 1, c.role, c.sprite) {
        Result::Err(e) => Result::Err(e),
        Result::Ok(cm) => match spec_parse_expr_list(x.children@[0].children@, c) {
            Result::Err(e) => Result::Err(e),
            Result::Ok(vs) => Result::Ok((vs, cm)),
        },
    }
}

#[via_fn]
proof fn spec_variadic_dec(x: Xml, s: Seq<char>, c: CtxV) {
    if !(x.children@.len() < 1) {
        assert(decreases_to!(x => x.children));
        assert(decreases_to!(x.children => x.children@));
        assert(decreases_to!(x.children@ => x.children@[0]));
        assert(decreases_to!(x.children@[0] => x.children@[0].children));
        assert(decreases_to!(x.children@[0].children => x.children@[0].children@));
    }
}

/// Decoding a sequence of nodes into expressions, failing on the first bad
/// one.
pub open spec fn spec_parse_expr_list(items: Seq<Xml>, c: CtxV) -> Result<Seq<ExprV>, ErrorV>
    decreases items, 3int,
    via spec_parse_expr_list_dec
{
    if items.len() == 0 {
        Result::Ok(Seq::empty())
    } else {
        match spec_parse_expr(items[0], c) {
            Result::Err(e) => Result::Err(e),
            Result::Ok(v) => match spec_parse_expr_list(items.drop_first(), c) {
                Result::Err(e) => Result::Err(e),
                Result::Ok(rest) => Result::Ok(seq![v] + rest),
            },
        }
    }
}

#[via_fn]
proof fn spec_parse_expr_list_dec(items: Seq<Xml>, c: CtxV) {
    if items.len() != 0 {
        assert(decreases_to!(items => items[0]));
        assert(decreases_to!(items => items.drop_first())) by {
            assert(items.drop_first() == items.subrange(1, items.len() as int));
        }
    }
}

/// Decoding the items of a non-atomic list literal: each item must carry one
/// child that itself decodes to a literal value.
pub open spec fn spec_parse_literal_list(items: Seq<Xml>, c: CtxV) -> Result<Seq<LiteralV>, ErrorV>
    decreases items, 3int,
    via spec_parse_literal_list_dec
{
    if items.len() == 0 {
        Result::Ok(Seq::empty())
    } else if items[0].children@.len() == 0 {
        Result::Err(
            ErrorV::InvalidProject {
                error: ProjectErrorV::ListItemNoValue { role: c.role, sprite: c.sprite },
            },
        )
    } else {
        match spec_parse_expr(items[0].children@[0], c) {
            Result::Err(e) => Result::Err(e),
            Result::Ok(ExprV::Value(v)) => match spec_parse_literal_list(items.drop_first(), c) {
                Result::Err(e) => Result::Err(e),
                Result::Ok(rest) => Result::Ok(seq![v] + rest),
            },
            Result::Ok(_) => Result::Err(
                ErrorV::InvalidProject {
                    error: ProjectErrorV::ValueNotEvaluated {
                        role: c.role,
                        sprite: Option::Some(c.sprite),
                    },
                },
            ),
        }
    }
}

#[via_fn]
proof fn spec_parse_literal_list_dec(items: Seq<Xml>, c: CtxV) {
    if items.len() != 0 {
        assert(decreases_to!(items => items.drop_first())) by {
            assert(items.drop_first() == items.subrange(1, items.len() as int));
        }
        if items[0].children@.len() != 0 {
            assert(decreases_to!(items => items[0]));
            assert(decreases_to!(items[0] => items[0].children));
            assert(decreases_to!(items[0].children => items[0].children@));
            assert(decreases_to!(items[0].children@ => items[0].children@[0]));
        }
    }
}

/// The monadic-function dispatch: maps the selected option to the expression
/// shape, folding the logarithm and power families into explicit bases.
pub open spec fn spec_monadic(
    func: Seq<char>,
    value: ExprV,
    cm: Option<Seq<char>>,
    s: Seq<char>,
    role: Seq<char>,
    sprite: Seq<char>,
) -> Result<ExprV, ErrorV> {
    let bv = Box::new(value);
    if func == "id"@ {
        Result::Ok(value)
    } else if func == "neg"@ {
        Result::Ok(ExprV::Neg { value: bv, comment: cm })
    } else if func == "abs"@ {
        Result::Ok(ExprV::Abs { value: bv, comment: cm })
    } else if func == "sqrt"@ {
        Result::Ok(ExprV::Sqrt { value: bv, comment: cm })
    } else if func == "floor"@ {
        Result::Ok(ExprV::Floor { value: bv, comment: cm })
    } else if func == "ceiling"@ {
        Result::Ok(ExprV::Ceil { value: bv, comment: cm })
    } else if func == "sin"@ {
        Result::Ok(ExprV::Sin { value: bv, comment: cm })
    } else if func == "cos"@ {
        Result::Ok(ExprV::Cos { value: bv, comment: cm })
    } else if func == "tan"@ {
        Result::Ok(ExprV::Tan { value: bv, comment: cm })
    } else if func == "asin"@ {
        Result::Ok(ExprV::Asin { value: bv, comment: cm })
    } else if func == "acos"@ {
        Result::Ok(ExprV::Acos { value: bv, comment: cm })
    } else if func == "atan"@ {
        Result::Ok(ExprV::Atan { value: bv, comment: cm })
    } else if func == "ln"@ {
        Result::Ok(
            ExprV::Log {
                value: bv,
                base: Box::new(ExprV::Value(LiteralV::Constant(Constant::E))),
                comment: cm,
            },
        )
    } else if func == "lg"@ {
        Result::Ok(ExprV::Log { value: bv, base: Box::new(num_lit("2"@)), comment: cm })
    } else if func == "log"@ {
        Result::Ok(ExprV::Log { value: bv, base: Box::new(num_lit("10"@)), comment: cm })
    } else if func == "e^"@ {
        Result::Ok(
            ExprV::Pow {
                base: Box::new(ExprV::Value(LiteralV::Constant(Constant::E))),
                power: bv,
                comment: cm,
            },
        )
    } else if func == "2^"@ {
        Result::Ok(ExprV::Pow { base: Box::new(num_lit("2"@)), power: bv, comment: cm })
    } else if func == "10^"@ {
        Result::Ok(ExprV::Pow { base: Box::new(num_lit("10"@)), power: bv, comment: cm })
    } else if func == ""@ {
        Result::Err(ErrorV::BlockOptionNotSelected { role, sprite, block_type: s })
    } else {
        Result::Err(
            ErrorV::InvalidProject {
                error: ProjectErrorV::BlockOptionUnknown { role, sprite, block_type: s, got: func },
            },
        )
    }
}

/// The block-expression dispatch over the `s` type tag.
pub open spec fn spec_parse_block_expr(x: Xml, s: Seq<char>, c: CtxV) -> Result<ExprV, ErrorV>
    decreases x, 2int,
    via spec_parse_block_expr_dec
{
    if s == "reportSum"@ {
        match spec_binary(x, s, c) {
            Result::Err(e) => Result::Err(e),
            Result::Ok(p) => Result::Ok(
                ExprV::Add { left: Box::new(p.0), right: Box::new(p.1), comment: p.2 },
            ),
        }
    } else if s == "reportDifference"@ {
        match spec_binary(x, s, c) {
            Result::Err(e) => Result::Err(e),
            Result::Ok(p) => Result::Ok(
                ExprV::Sub { left: Box::new(p.0), right: Box::new(p.1), comment: p.2 },
            ),
        }
    } else if s == "reportProduct"@ {
        match spec_binary(x, s, c) {
            Result::Err(e) => Result::Err(e),
            Result::Ok(p) => Result::Ok(
                ExprV::Mul { left: Box::new(p.0), right: Box::new(p.1), comment: p.2 },
            ),
        }
    } else if s == "reportQuotient"@ {
        match spec_binary(x, s, c) {
            Result::Err(e) => Result::Err(e),
            Result::Ok(p) => Result::Ok(
                ExprV::Div { left: Box::new(p.0), right: Box::new(p.1), comment: p.2 },
            ),
        }
    } else if s == "reportModulus"@ {
        match spec_binary(x, s, c) {
            Result::Err(e) => Result::Err(e),
            Result::Ok(p) => Result::Ok(
                ExprV::Mod { left: Box::new(p.0), right: Box::new(p.1), comment: p.2 },
            ),
        }
    } else if s == "reportPower"@ {
        match spec_binary(x, s, c) {
            Result::Err(e) => Result::Err(e),
            Result::Ok(p) => Result::Ok(
                ExprV::Pow { base: Box::new(p.0), power: Box::new(p.1), comment: p.2 },
            ),
        }
    } else if s == "reportAnd"@ {
        match spec_binary(x, s, c) {
            Result::Err(e) => Result::Err(e),
            Result::Ok(p) => Result::Ok(
                ExprV::And { left: Box::new(p.0), right: Box::new(p.1), comment: p.2 },
            ),
        }
    } else if s == "reportOr"@ {
        match spec_binary(x, s, c) {
            Result::Err(e) => Result::Err(e),
            Result::Ok(p) => Result::Ok(
                ExprV::Or { left: Box::new(p.0), right: Box::new(p.1), comment: p.2 },
            ),
        }
    } else if s == "reportIsIdentical"@ {
        match spec_binary(x, s, c) {
            Result::Err(e) => Result::Err(e),
            Result::Ok(p) => Result::Ok(
                ExprV::RefEq { left: Box::new(p.0), right: Box::new(p.1), comment: p.2 },
            ),
        }
    } else if s == "reportEquals"@ {
        match spec_binary(x, s, c) {
            Result::Err(e) => Result::Err(e),
            Result::Ok(p) => Result::Ok(
                ExprV::Eq { left: Box::new(p.0), right: Box::new(p.1), comment: p.2 },
            ),
        }
    } else if s == "reportLessThan"@ {
        match spec_binary(x, s, c) {
            Result::Err(e) => Result::Err(e),
            Result::Ok(p) => Result::Ok(
                ExprV::Less { left: Box::new(p.0), right: Box::new(p.1), comment: p.2 },
            ),
        }
    } else if s == "reportGreaterThan"@ {
        match spec_binary(x, s, c) {
            Result::Err(e) => Result::Err(e),
            Result::Ok(p) => Result::Ok(
                ExprV::Greater { left: Box::new(p.0), right: Box::new(p.1), comment: p.2 },
            ),
        }
    } else if s == "reportRandom"@ {
        match spec_binary(x, s, c) {
            Result::Err(e) => Result::Err(e),
            Result::Ok(p) => Result::Ok(
                ExprV::RandInclusive { a: Box::new(p.0), b: Box::new(p.1), comment: p.2 },
            ),
        }
    } else if s == "reportNumbers"@ {
        match spec_binary(x, s, c) {
            Result::Err(e) => Result::Err(e),
            Result::Ok(p) => Result::Ok(
                ExprV::RangeInclusive { start: Box::new(p.0), stop: Box::new(p.1), comment: p.2 },
            ),
        }
    } else if s == "reportNot"@ {
        match spec_unary(x, s, c) {
            Result::Err(e) => Result::Err(e),
            Result::Ok(p) => Result::Ok(ExprV::Not { value: Box::new(p.0), comment: p.1 }),
        }
    } else if s == "reportRound"@ {
        match spec_unary(x, s, c) {
            Result::Err(e) => Result::Err(e),
            Result::Ok(p) => Result::Ok(ExprV::Round { value: Box::new(p.0), comment: p.1 }),
        }
    } else if s == "reportListLength"@ {
        match spec_unary(x, s, c) {
            Result::Err(e) => Result::Err(e),
            Result::Ok(p) => Result::Ok(ExprV::Listlen { value: Box::new(p.0), comment: p.1 }),
        }
    } else if s == "reportListIsEmpty"@ {
        match spec_unary(x, s, c) {
            Result::Err(e) => Result::Err(e),
            Result::Ok(p) => Result::Ok(
                ExprV::Greater {
                    left: Box::new(ExprV::Listlen { value: Box::new(p.0), comment: Option::None }),
                    right: Box::new(num_lit("0"@)),
                    comment: p.1,
                },
            ),
        }
    } else if s == "reportListIndex"@ {
        match spec_binary(x, s, c) {
            Result::Err(e) => Result::Err(e),
            Result::Ok(p) => Result::Ok(
                ExprV::ListFind { value: Box::new(p.0), list: Box::new(p.1), comment: p.2 },
            ),
        }
    } else if s == "reportListContainsItem"@ {
        match spec_binary(x, s, c) {
            Result::Err(e) => Result::Err(e),
            Result::Ok(p) => Result::Ok(
                ExprV::Greater {
                    left: Box::new(
                        ExprV::ListFind {
                            value: Box::new(p.0),
                            list: Box::new(p.1),
                            comment: Option::None,
                        },
                    ),
                    right: Box::new(num_lit("0"@)),
                    comment: p.2,
                },
            ),
        }
    } else if s == "reportListItem"@ {
        match spec_comment(x, s, 2, c.role, c.sprite) {
            Result::Err(e) => Result::Err(e),
            Result::Ok(cm) => match spec_parse_expr(x.children@[1], c) {
                Result::Err(e) => Result::Err(e),
                Result::Ok(list) => match spec_option_child(x.children@[0]) {
                    Option::Some(opt) => {
                        if opt.text@ == "last"@ {
                            Result::Ok(ExprV::ListLastIndex { list: Box::new(list), comment: cm })
                        } else if opt.text@ == "any"@ {
                            Result::Ok(ExprV::ListRandIndex { list: Box::new(list), comment: cm })
                        } else if opt.text@ == ""@ {
                            Result::Err(
                                ErrorV::BlockOptionNotSelected {
                                    role: c.role,
                                    sprite: c.sprite,
                                    block_type: s,
                                },
                            )
                        } else {
                            Result::Err(
                                ErrorV::InvalidProject {
                                    error: ProjectErrorV::BlockOptionUnknown {
                                        role: c.role,
                                        sprite: c.sprite,
                                        block_type: s,
                                        got: opt.text@,
                                    },
                                },
                            )
                        }
                    },
                    Option::None => match spec_parse_expr(x.children@[0], c) {
                        Result::Err(e) => Result::Err(e),
                        Result::Ok(index) => Result::Ok(
                            ExprV::ListIndex {
                                list: Box::new(list),
                                index: Box::new(index),
                                comment: cm,
                            },
                        ),
                    },
                },
            },
        }
    } else if s == "reportStringSize"@ {
        match spec_unary(x, s, c) {
            Result::Err(e) => Result::Err(e),
            Result::Ok(p) => Result::Ok(ExprV::Strlen { value: Box::new(p.0), comment: p.1 }),
        }
    } else if s == "reportUnicodeAsLetter"@ {
        match spec_unary(x, s, c) {
            Result::Err(e) => Result::Err(e),
            Result::Ok(p) => Result::Ok(
                ExprV::UnicodeToChar { value: Box::new(p.0), comment: p.1 },
            ),
        }
    } else if s == "reportUnicode"@ {
        match spec_unary(x, s, c) {
            Result::Err(e) => Result::Err(e),
            Result::Ok(p) => Result::Ok(
                ExprV::CharToUnicode { value: Box::new(p.0), comment: p.1 },
            ),
        }
    } else if s == "reportCDR"@ {
        match spec_unary(x, s, c) {
            Result::Err(e) => Result::Err(e),
            Result::Ok(p) => Result::Ok(
                ExprV::ListSlice {
                    value: Box::new(p.0),
                    from: Option::Some(Box::new(num_lit("2"@))),
                    to: Option::None,
                    comment: p.1,
                },
            ),
        }
    } else if s == "reportCONS"@ {
        match spec_comment(x, s, 2, c.role, c.sprite) {
            Result::Err(e) => Result::Err(e),
            Result::Ok(cm) => match spec_parse_expr(x.children@[0], c) {
                Result::Err(e) => Result::Err(e),
                Result::Ok(val) => match spec_parse_expr(x.children@[1], c) {
                    Result::Err(e) => Result::Err(e),
                    Result::Ok(list) => Result::Ok(
                        ExprV::Listcat { lists: seq![val, list], comment: cm },
                    ),
                },
            },
        }
    } else if s == "reportJoinWords"@ {
        match spec_variadic(x, s, c) {
            Result::Err(e) => Result::Err(e),
            Result::Ok(p) => Result::Ok(ExprV::Strcat { values: p.0, comment: p.1 }),
        }
    } else if s == "reportConcatenatedLists"@ {
        match spec_variadic(x, s, c) {
            Result::Err(e) => Result::Err(e),
            Result::Ok(p) => Result::Ok(ExprV::Listcat { lists: p.0, comment: p.1 }),
        }
    } else if s == "reportNewList"@ {
        match spec_variadic(x, s, c) {
            Result::Err(e) => Result::Err(e),
            Result::Ok(p) => Result::Ok(ExprV::MakeList { values: p.0, comment: p.1 }),
        }
    } else if s == "reportBoolean"@ {
        match spec_bool_literal(x) {
            Option::Some(b) => Result::Ok(ExprV::Value(LiteralV::Bool(b))),
            Option::None => Result::Err(
                ErrorV::InvalidProject {
                    error: ProjectErrorV::InvalidBoolLiteral { role: c.role, sprite: c.sprite },
                },
            ),
        }
    } else if s == "reportMonadic"@ {
        match spec_comment(x, s, 2, c.role, c.sprite) {
            Result::Err(e) => Result::Err(e),
            Result::Ok(cm) => match spec_option_child(x.children@[0]) {
                Option::None => Result::Err(
                    ErrorV::InvalidProject {
                        error: ProjectErrorV::BlockMissingOption {
                            role: c.role,
                            sprite: c.sprite,
                            block_type: s,
                        },
                    },
                ),
                Option::Some(f) => {
                    if f.children@.len() != 0 {
                        Result::Err(
                            ErrorV::BlockOptionNotConst {
                                role: c.role,
                                sprite: c.sprite,
                                block_type: s,
                            },
                        )
                    } else {
                        match spec_parse_expr(x.children@[1], c) {
                            Result::Err(e) => Result::Err(e),
                            Result::Ok(value) => spec_monadic(f.text@, value, cm, s, c.role, c.sprite),
                        }
                    }
                },
            },
        }
    } else if s == "reportIfElse"@ {
        match spec_comment(x, s, 3, c.role, c.sprite) {
            Result::Err(e) => Result::Err(e),
            Result::Ok(cm) => match spec_parse_expr(x.children@[0], c) {
                Result::Err(e) => Result::Err(e),
                Result::Ok(condition) => match spec_parse_expr(x.children@[1], c) {
                    Result::Err(e) => Result::Err(e),
                    Result::Ok(then) => match spec_parse_expr(x.children@[2], c) {
                        Result::Err(e) => Result::Err(e),
                        Result::Ok(otherwise) => Result::Ok(
                            ExprV::Conditional {
                                condition: Box::new(condition),
                                then: Box::new(then),
                                otherwise: Box::new(otherwise),
                                comment: cm,
                            },
                        ),
                    },
                },
            },
        }
    } else {
        Result::Err(ErrorV::UnknownBlockType { role: c.role, sprite: c.sprite, block_type: s })
    }
}

#[via_fn]
proof fn spec_parse_block_expr_dec(x: Xml, s: Seq<char>, c: CtxV) {
    if x.children@.len() >= 1 {
        assert(decreases_to!(x => x.children));
        assert(decreases_to!(x.children => x.children@));
        assert(decreases_to!(x.children@ => x.children@[0]));
        if x.children@.len() >= 2 {
            assert(decreases_to!(x.children@ => x.children@[1]));
        }
        if x.children@.len() >= 3 {
            assert(decreases_to!(x.children@ => x.children@[2]));
        }
    }
}

/// The boolean-literal block: its `l`/`bool` path must read exactly `true`
/// or `false`.
pub open spec fn spec_bool_literal(x: Xml) -> Option<bool> {
    let i = find_child_idx(x.children@, "l"@);
    if i < 0 {
        Option::None
    } else {
        let l = x.children@[i];
        let j = find_child_idx(l.children@, "bool"@);
        if j < 0 {
            Option::None
        } else if l.children@[j].text@ == "true"@ {
            Option::Some(true)
        } else if l.children@[j].text@ == "false"@ {
            Option::Some(false)
        } else {
            Option::None
        }
    }
}

// --- the executable decoder ---

/// Resolves a variable reference through the Local, Field, Global chain.
pub fn reference_var<T: NameTransformer>(
    scope: &Scope<T>,
    locals: &SymbolTable,
    name: String,
) -> (r: Result<VariableRef, Error>)
    requires
        scope_wf(*scope, *locals),
    ensures
        ({
            let c = ctx_of(*scope, *locals);
            match spec_reference_var(c.locals, c.fields, c.globals, name@) {
                Option::Some(dl) => match r {
                    Result::Ok(vr) => view_varref(vr) == (VariableRefV {
                        name: dl.0.name,
                        trans_name: dl.0.trans_name,
                        location: dl.1,
                    }),
                    Result::Err(_) => false,
                },
                Option::None => match r {
                    Result::Err(e) => view_error(e) == (ErrorV::UndefinedVariable {
                        role: c.role,
                        sprite: c.sprite,
                        name: name@,
                    }),
                    Result::Ok(_) => false,
                },
            }
        }),
{
    match locals.get(name.as_str()) {
        Option::Some(d) => {
            return Result::Ok(d.ref_at(VarLocation::Local));
        },
        Option::None => {},
    }
    match scope.fields.get(name.as_str()) {
        Option::Some(d) => {
            return Result::Ok(d.ref_at(VarLocation::Field));
        },
        Option::None => {},
    }
    match scope.globals.get(name.as_str()) {
        Option::Some(d) => {
            return Result::Ok(d.ref_at(VarLocation::Global));
        },
        Option::None => {},
    }
    Result::Err(
        Error::UndefinedVariable {
            role: scope.role.clone(),
            sprite: scope.sprite.clone(),
            name,
        },
    )
}


/// A node's children are below the node itself, for the recursion measures.
pub proof fn lemma_xml_child_smaller(x: Xml, i: int)
    requires
        0 <= i < x.children@.len(),
    ensures
        decreases_to!(x => x.children@[i]),
{
    assert(decreases_to!(x => x.children));
    assert(decreases_to!(x.children => x.children@));
    assert(decreases_to!(x.children@ => x.children@[i]));
}

/// A node's grandchild list is below the node itself.
pub proof fn lemma_xml_grandlist_smaller(x: Xml, i: int)
    requires
        0 <= i < x.children@.len(),
    ensures
        decreases_to!(x => x.children@[i].children@),
{
    lemma_xml_child_smaller(x, i);
    assert(decreases_to!(x.children@[i] => x.children@[i].children));
    assert(decreases_to!(x.children@[i].children => x.children@[i].children@));
}

/// An expression's view is a literal value exactly when the expression is.
pub(crate) proof fn lemma_view_expr_is_value(e: Expr)
    ensures
        (view_expr(e) is Value) <==> (e is Value),
{
    match e {
        Expr::Value(_) => {},
        Expr::Variable { .. } => {},
        Expr::Add { .. } => {},
        Expr::Sub { .. } => {},
        Expr::Mul { .. } => {},
        Expr::Div { .. } => {},
        Expr::Mod { .. } => {},
        Expr::Pow { .. } => {},
        Expr::Log { .. } => {},
        Expr::And { .. } => {},
        Expr::Or { .. } => {},
        Expr::Conditional { .. } => {},
        Expr::RefEq { .. } => {},
        Expr::Eq { .. } => {},
        Expr::Less { .. } => {},
        Expr::Greater { .. } => {},
        Expr::RandInclusive { .. } => {},
        Expr::RangeInclusive { .. } => {},
        Expr::MakeList { .. } => {},
        Expr::Listcat { .. } => {},
        Expr::Listlen { .. } => {},
        Expr::ListSlice { .. } => {},
        Expr::ListFind { .. } => {},
        Expr::ListIndex { .. } => {},
        Expr::ListRandIndex { .. } => {},
        Expr::ListLastIndex { .. } => {},
        Expr::Strcat { .. } => {},
        Expr::Strlen { .. } => {},
        Expr::UnicodeToChar { .. } => {},
        Expr::CharToUnicode { .. } => {},
        Expr::Not { .. } => {},
        Expr::Neg { .. } => {},
        Expr::Abs { .. } => {},
        Expr::Sqrt { .. } => {},
        Expr::Floor { .. } => {},
        Expr::Ceil { .. } => {},
        Expr::Round { .. } => {},
        Expr::Sin { .. } => {},
        Expr::Cos { .. } => {},
        Expr::Tan { .. } => {},
        Expr::Asin { .. } => {},
        Expr::Acos { .. } => {},
        Expr::Atan { .. } => {},
    }
}

/// Checks a block's arity and picks up its trailing comment, if any.
pub(crate) fn block_comment(x: &Xml, role: &String, sprite: &String, s: &str, req: usize) -> (r: Result<Option<String>, Error>)
    ensures
        match r {
            Result::Ok(cm) => spec_comment(*x, s@, req, role@, sprite@) == Result::<
                Option<Seq<char>>,
                ErrorV,
            >::Ok(opt_text(cm)),
            Result::Err(e) => spec_comment(*x, s@, req, role@, sprite@) == Result::<
                Option<Seq<char>>,
                ErrorV,
            >::Err(view_error(e)),
        },
{
    if x.children.len() < req {
        return Result::Err(
            Error::InvalidProject {
                error: ProjectError::BlockChildCount {
                    role: role.clone(),
                    sprite: sprite.clone(),
                    block_type: s.to_owned(),
                    needed: req,
                    got: x.children.len(),
                },
            },
        );
    }
    if req < x.children.len() && str_eq(x.children[req].name.as_str(), "comment") {
        Result::Ok(Option::Some(clean_newlines(x.children[req].text.as_str())))
    } else {
        Result::Ok(Option::None)
    }
}

/// The first child tagged `option`, if any.
pub(crate) fn option_child<'a>(x: &'a Xml) -> (r: Option<&'a Xml>)
    ensures
        match r {
            Option::Some(o) => spec_option_child(*x) == Option::Some(*o),
            Option::None => spec_option_child(*x) is None,
        },
{
    match find_child(&x.children, "option") {
        Option::Some(j) => Option::Some(&x.children[j]),
        Option::None => Option::None,
    }
}

/// Decides the boolean-literal block.
fn bool_literal(x: &Xml) -> (r: Option<bool>)
    ensures
        r == spec_bool_literal(*x),
{
    match find_child(&x.children, "l") {
        Option::None => Option::None,
        Option::Some(i) => {
            let l = &x.children[i];
            match find_child(&l.children, "bool") {
                Option::None => Option::None,
                Option::Some(j) => {
                    let b = &l.children[j];
                    if str_eq(b.text.as_str(), "true") {
                        Option::Some(true)
                    } else if str_eq(b.text.as_str(), "false") {
                        Option::Some(false)
                    } else {
                        Option::None
                    }
                },
            }
        },
    }
}

/// Decodes the two fixed operands of a binary block shape.
fn parse_two<T: NameTransformer>(
    x: &Xml,
    scope: &Scope<T>,
    locals: &SymbolTable,
    s: &str,
) -> (r: Result<(Expr, Expr, Option<String>), Error>)
    requires
        scope_wf(*scope, *locals),
    ensures
        ({
            let c = ctx_of(*scope, *locals);
            match r {
                Result::Ok(p) => spec_binary(*x, s@, c) == Result::<
                    (ExprV, ExprV, Option<Seq<char>>),
                    ErrorV,
                >::Ok((view_expr(p.0), view_expr(p.1), opt_text(p.2))),
                Result::Err(e) => spec_binary(*x, s@, c) == Result::<
                    (ExprV, ExprV, Option<Seq<char>>),
                    ErrorV,
                >::Err(view_error(e)),
            }
        }),
    decreases *x, 0int,
{
    let cm = block_comment(x, scope.role, scope.sprite, s, 2)?;
    proof {
        lemma_xml_child_smaller(*x, 0);
        lemma_xml_child_smaller(*x, 1);
    }
    let l = parse_expr(&x.children[0], scope, locals)?;
    let r2 = parse_expr(&x.children[1], scope, locals)?;
    Result::Ok((l, r2, cm))
}

/// Decodes the one fixed operand of a unary block shape.
fn parse_one<T: NameTransformer>(
    x: &Xml,
    scope: &Scope<T>,
    locals: &SymbolTable,
    s: &str,
) -> (r: Result<(Expr, Option<String>), Error>)
    requires
        scope_wf(*scope, *locals),
    ensures
        ({
            let c = ctx_of(*scope, *locals);
            match r {
                Result::Ok(p) => spec_unary(*x, s@, c) == Result::<
                    (ExprV, Option<Seq<char>>),
                    ErrorV,
                >::Ok((view_expr(p.0), opt_text(p.1))),
                Result::Err(e) => spec_unary(*x, s@, c) == Result::<
                    (ExprV, Option<Seq<char>>),
                    ErrorV,
                >::Err(view_error(e)),
            }
        }),
    decreases *x, 0int,
{
    let cm = block_comment(x, scope.role, scope.sprite, s, 1)?;
    proof {
        lemma_xml_child_smaller(*x, 0);
    }
    let v = parse_expr(&x.children[0], scope, locals)?;
    Result::Ok((v, cm))
}

/// Decodes the operand list of a variadic block shape.
fn parse_many<T: NameTransformer>(
    x: &Xml,
    scope: &Scope<T>,
    locals: &SymbolTable,
    s: &str,
) -> (r: Result<(Vec<Expr>, Option<String>), Error>)
    requires
        scope_wf(*scope, *locals),
    ensures
        ({
            let c = ctx_of(*scope, *locals);
            match r {
                Result::Ok(p) => spec_variadic(*x, s@, c) == Result::<
                    (Seq<ExprV>, Option<Seq<char>>),
                    ErrorV,
                >::Ok((view_exprs(p.0@), opt_text(p.1))),
                Result::Err(e) => spec_variadic(*x, s@, c) == Result::<
                    (Seq<ExprV>, Option<Seq<char>>),
                    ErrorV,
                >::Err(view_error(e)),
            }
        }),
    decreases *x, 0int,
{
    let cm = block_comment(x, scope.role, scope.sprite, s, 1)?;
    proof {
        lemma_xml_grandlist_smaller(*x, 0);
    }
    let vs = parse_expr_vec(&x.children[0].children, scope, locals)?;
    Result::Ok((vs, cm))
}

/// Decodes a sequence of nodes into expressions, stopping at the first bad
/// one.
pub fn parse_expr_vec<T: NameTransformer>(
    items: &Vec<Xml>,
    scope: &Scope<T>,
    locals: &SymbolTable,
) -> (r: Result<Vec<Expr>, Error>)
    requires
        scope_wf(*scope, *locals),
    ensures
        ({
            let c = ctx_of(*scope, *locals);
            match r {
                Result::Ok(es) => spec_parse_expr_list(items@, c) == Result::<
                    Seq<ExprV>,
                    ErrorV,
                >::Ok(view_exprs(es@)),
                Result::Err(e) => spec_parse_expr_list(items@, c) == Result::<
                    Seq<ExprV>,
                    ErrorV,
                >::Err(view_error(e)),
            }
        }),
    decreases items@, 9int,
{
    let ghost c = ctx_of(*scope, *locals);
    let ghost full = items@;
    let mut out: Vec<Expr> = Vec::new();
    let mut i: usize = 0;
    proof {
        assert(full.skip(0) =~= full);
        match spec_parse_expr_list(full, c) {
            Result::Ok(rest) => {
                assert(view_exprs(out@) + rest =~= rest);
            },
            Result::Err(_) => {},
        }
    }
    while i < items.len()
        invariant
            i <= items@.len(),
            full == items@,
            c == ctx_of(*scope, *locals),
            scope_wf(*scope, *locals),
            ({
                match spec_parse_expr_list(full.skip(i as int), c) {
                    Result::Ok(rest) => spec_parse_expr_list(full, c) == Result::<
                        Seq<ExprV>,
                        ErrorV,
                    >::Ok(view_exprs(out@) + rest),
                    Result::Err(e) => spec_parse_expr_list(full, c) == Result::<
                        Seq<ExprV>,
                        ErrorV,
                    >::Err(e),
                }
            }),
        decreases items@.len() - i,
    {
        let ghost prev_out = out@;
        let ghost tail = full.skip(i as int);
        assert(tail[0] == full[i as int]);
        proof {
            assert(decreases_to!(full => full[i as int]));
        }
        match parse_expr(&items[i], scope, locals) {
            Result::Ok(e) => {
                out.push(e);
                proof {
                    assert(tail.drop_first() =~= full.skip(i + 1));
                    lemma_view_exprs(prev_out);
                    lemma_view_exprs(out@);
                    assert(view_exprs(out@) =~= view_exprs(prev_out).push(view_expr(e))) by {
                        lemma_view_exprs(prev_out);
                        lemma_view_exprs(out@);
                        assert(forall|k: int| 0 <= k < prev_out.len() ==> out@[k] == prev_out[k]);
                    }
                    match spec_parse_expr_list(full.skip(i + 1), c) {
                        Result::Ok(rest2) => {
                            assert(view_exprs(prev_out) + (seq![view_expr(e)] + rest2)
                                =~= view_exprs(out@) + rest2);
                        },
                        Result::Err(_) => {},
                    }
                }
                i = i + 1;
            },
            Result::Err(e) => {
                return Result::Err(e);
            },
        }
    }
    proof {
        assert(full.skip(i as int) =~= Seq::<Xml>::empty());
        assert(view_exprs(out@) + Seq::<ExprV>::empty() =~= view_exprs(out@));
    }
    Result::Ok(out)
}

/// Decodes the items of a non-atomic list literal, each of which must hold
/// one child that reduces to a literal value.
fn parse_literal_vec<T: NameTransformer>(
    items: &Vec<Xml>,
    scope: &Scope<T>,
    locals: &SymbolTable,
) -> (r: Result<Vec<Literal>, Error>)
    requires
        scope_wf(*scope, *locals),
    ensures
        ({
            let c = ctx_of(*scope, *locals);
            match r {
                Result::Ok(vs) => spec_parse_literal_list(items@, c) == Result::<
                    Seq<LiteralV>,
                    ErrorV,
                >::Ok(view_literals(vs@)),
                Result::Err(e) => spec_parse_literal_list(items@, c) == Result::<
                    Seq<LiteralV>,
                    ErrorV,
                >::Err(view_error(e)),
            }
        }),
    decreases items@, 9int,
{
    let ghost c = ctx_of(*scope, *locals);
    let ghost full = items@;
    let mut out: Vec<Literal> = Vec::new();
    let mut i: usize = 0;
    proof {
        assert(full.skip(0) =~= full);
        match spec_parse_literal_list(full, c) {
            Result::Ok(rest) => {
                assert(view_literals(out@) + rest =~= rest);
            },
            Result::Err(_) => {},
        }
    }
    while i < items.len()
        invariant
            i <= items@.len(),
            full == items@,
            c == ctx_of(*scope, *locals),
            scope_wf(*scope, *locals),
            ({
                match spec_parse_literal_list(full.skip(i as int), c) {
                    Result::Ok(rest) => spec_parse_literal_list(full, c) == Result::<
                        Seq<LiteralV>,
                        ErrorV,
                    >::Ok(view_literals(out@) + rest),
                    Result::Err(e) => spec_parse_literal_list(full, c) == Result::<
                        Seq<LiteralV>,
                        ErrorV,
                    >::Err(e),
                }
            }),
        decreases items@.len() - i,
    {
        let ghost prev_out = out@;
        let ghost tail = full.skip(i as int);
        assert(tail[0] == full[i as int]);
        let item = &items[i];
        if item.children.len() == 0 {
            return Result::Err(
                Error::InvalidProject {
                    error: ProjectError::ListItemNoValue {
                        role: scope.role.clone(),
                        sprite: scope.sprite.clone(),
                    },
                },
            );
        }
        proof {
            assert(decreases_to!(full => full[i as int]));
            lemma_xml_child_smaller(*item, 0);
        }
        match parse_expr(&item.children[0], scope, locals) {
            Result::Err(e) => {
                return Result::Err(e);
            },
            Result::Ok(e) => {
                match e {
                    Expr::Value(v) => {
                        out.push(v);
                        proof {
                            assert(tail.drop_first() =~= full.skip(i + 1));
                            assert(view_literals(out@) =~= view_literals(prev_out).push(
                                view_literal(v),
                            )) by {
                                lemma_view_literals(prev_out);
                                lemma_view_literals(out@);
                                assert(forall|k: int|
                                    0 <= k < prev_out.len() ==> out@[k] == prev_out[k]);
                            }
                            match spec_parse_literal_list(full.skip(i + 1), c) {
                                Result::Ok(rest2) => {
                                    assert(view_literals(prev_out) + (seq![view_literal(v)]
                                        + rest2) =~= view_literals(out@) + rest2);
                                },
                                Result::Err(_) => {},
                            }
                        }
                        i = i + 1;
                    },
                    other => {
                        proof {
                            lemma_view_expr_is_value(other);
                        }
                        return Result::Err(
                            Error::InvalidProject {
                                error: ProjectError::ValueNotEvaluated {
                                    role: scope.role.clone(),
                                    sprite: Option::Some(scope.sprite.clone()),
                                },
                            },
                        );
                    },
                }
            },
        }
    }
    proof {
        assert(full.skip(i as int) =~= Seq::<Xml>::empty());
        assert(view_literals(out@) + Seq::<LiteralV>::empty() =~= view_literals(out@));
    }
    Result::Ok(out)
}

/// Decodes one node into an expression.
pub fn parse_expr<T: NameTransformer>(x: &Xml, scope: &Scope<T>, locals: &SymbolTable) -> (r: Result<Expr, Error>)
    requires
        scope_wf(*scope, *locals),
    ensures
        view_expr_result(r) == spec_parse_expr(*x, ctx_of(*scope, *locals)),
    decreases *x, 9int,
{
    let ghost c = ctx_of(*scope, *locals);
    if str_eq(x.name.as_str(), "l") {
        let chars = str_chars(x.text.as_str());
        if is_numeric_text(&chars) {
            Result::Ok(Expr::Value(Literal::Number(x.text.clone())))
        } else {
            Result::Ok(Expr::Value(Literal::String(x.text.clone())))
        }
    } else if str_eq(x.name.as_str(), "bool") {
        if str_eq(x.text.as_str(), "true") {
            Result::Ok(Expr::Value(Literal::Bool(true)))
        } else if str_eq(x.text.as_str(), "false") {
            Result::Ok(Expr::Value(Literal::Bool(false)))
        } else {
            Result::Err(
                Error::InvalidProject {
                    error: ProjectError::BoolUnknownValue {
                        role: scope.role.clone(),
                        sprite: scope.sprite.clone(),
                        value: x.text.clone(),
                    },
                },
            )
        }
    } else if str_eq(x.name.as_str(), "list") {
        let atomic = match x.attr("struct") {
            Option::Some(a) => str_eq(a.value.as_str(), "atomic"),
            Option::None => false,
        };
        if atomic {
            match parse_atomic(x.text.as_str()) {
                Result::Ok(v) => Result::Ok(Expr::Value(v)),
                Result::Err(reason) => Result::Err(
                    Error::InvalidProject { error: ProjectError::InvalidJson { reason } },
                ),
            }
        } else {
            proof {
                assert(decreases_to!(*x => x.children));
                assert(decreases_to!(x.children => x.children@));
            }
            match parse_literal_vec(&x.children, scope, locals) {
                Result::Ok(vs) => Result::Ok(Expr::Value(Literal::List(vs))),
                Result::Err(e) => Result::Err(e),
            }
        }
    } else if str_eq(x.name.as_str(), "block") {
        let var_attr = x.attr("var");
        match var_attr {
            Option::Some(va) => {
                let cm = block_comment(x, scope.role, scope.sprite, "var", 0)?;
                let vr = reference_var(scope, locals, va.value.clone())?;
                Result::Ok(Expr::Variable { var: vr, comment: cm })
            },
            Option::None => {
                match x.attr("s") {
                    Option::None => Result::Err(
                        Error::InvalidProject {
                            error: ProjectError::BlockWithoutType {
                                role: scope.role.clone(),
                                sprite: scope.sprite.clone(),
                            },
                        },
                    ),
                    Option::Some(a) => parse_block_expr(x, a.value.as_str(), scope, locals),
                }
            },
        }
    } else {
        Result::Err(
            Error::UnknownBlockType {
                role: scope.role.clone(),
                sprite: scope.sprite.clone(),
                block_type: x.name.clone(),
            },
        )
    }
}

/// The tag is none of the first dispatch group.
pub open spec fn past_group_a(s: Seq<char>) -> bool {
    &&& s != "reportSum"@
    &&& s != "reportDifference"@
    &&& s != "reportProduct"@
    &&& s != "reportQuotient"@
    &&& s != "reportModulus"@
    &&& s != "reportPower"@
    &&& s != "reportAnd"@
}

/// The tag is none of the next dispatch group.
pub open spec fn past_group_b(s: Seq<char>) -> bool {
    &&& s != "reportOr"@
    &&& s != "reportIsIdentical"@
    &&& s != "reportEquals"@
    &&& s != "reportLessThan"@
    &&& s != "reportGreaterThan"@
    &&& s != "reportRandom"@
    &&& s != "reportNumbers"@
}

/// The tag is none of the next dispatch group.
pub open spec fn past_group_c(s: Seq<char>) -> bool {
    &&& s != "reportNot"@
    &&& s != "reportRound"@
    &&& s != "reportListLength"@
    &&& s != "reportListIsEmpty"@
    &&& s != "reportListIndex"@
    &&& s != "reportListContainsItem"@
}

/// The tag is none of the next dispatch group.
pub open spec fn past_group_d(s: Seq<char>) -> bool {
    &&& s != "reportListItem"@
    &&& s != "reportStringSize"@
    &&& s != "reportUnicodeAsLetter"@
    &&& s != "reportUnicode"@
    &&& s != "reportCDR"@
    &&& s != "reportCONS"@
}

/// The selector is none of this monadic group.
pub open spec fn past_monadic_m1(f: Seq<char>) -> bool {
    &&& f != "id"@
    &&& f != "neg"@
    &&& f != "abs"@
    &&& f != "sqrt"@
    &&& f != "floor"@
    &&& f != "ceiling"@
}

/// The selector is none of this monadic group.
pub open spec fn past_monadic_m2(f: Seq<char>) -> bool {
    &&& f != "sin"@
    &&& f != "cos"@
    &&& f != "tan"@
    &&& f != "asin"@
    &&& f != "acos"@
    &&& f != "atan"@
}

/// Decodes one block node, already known to carry the type tag `s`.
#[verifier::rlimit(100)]
#[verifier::spinoff_prover]
pub fn parse_block_expr<T: NameTransformer>(
    x: &Xml,
    s: &str,
    scope: &Scope<T>,
    locals: &SymbolTable,
) -> (r: Result<Expr, Error>)
    requires
        scope_wf(*scope, *locals),
    ensures
        view_expr_result(r) == spec_parse_block_expr(*x, s@, ctx_of(*scope, *locals)),
    decreases *x, 8int,
{
    let ghost c = ctx_of(*scope, *locals);
    if str_eq(s, "reportSum") {
        let (l, r2, cm) = parse_two(x, scope, locals, s)?;
        Result::Ok(Expr::Add { left: Box::new(l), right: Box::new(r2), comment: cm })
    } else if str_eq(s, "reportDifference") {
        let (l, r2, cm) = parse_two(x, scope, locals, s)?;
        Result::Ok(Expr::Sub { left: Box::new(l), right: Box::new(r2), comment: cm })
    } else if str_eq(s, "reportProduct") {
        let (l, r2, cm) = parse_two(x, scope, locals, s)?;
        Result::Ok(Expr::Mul { left: Box::new(l), right: Box::new(r2), comment: cm })
    } else if str_eq(s, "reportQuotient") {
        let (l, r2, cm) = parse_two(x, scope, locals, s)?;
        Result::Ok(Expr::Div { left: Box::new(l), right: Box::new(r2), comment: cm })
    } else if str_eq(s, "reportModulus") {
        let (l, r2, cm) = parse_two(x, scope, locals, s)?;
        Result::Ok(Expr::Mod { left: Box::new(l), right: Box::new(r2), comment: cm })
    } else if str_eq(s, "reportPower") {
        let (l, r2, cm) = parse_two(x, scope, locals, s)?;
        Result::Ok(Expr::Pow { base: Box::new(l), power: Box::new(r2), comment: cm })
    } else if str_eq(s, "reportAnd") {
        let (l, r2, cm) = parse_two(x, scope, locals, s)?;
        Result::Ok(Expr::And { left: Box::new(l), right: Box::new(r2), comment: cm })
    } else {
        parse_block_expr_b(x, s, scope, locals)
    }
}

/// One group of the block-expression dispatch.
#[verifier::rlimit(100)]
#[verifier::spinoff_prover]
fn parse_block_expr_b<T: NameTransformer>(
    x: &Xml,
    s: &str,
    scope: &Scope<T>,
    locals: &SymbolTable,
) -> (r: Result<Expr, Error>)
    requires
        scope_wf(*scope, *locals),
        past_group_a(s@),
    ensures
        view_expr_result(r) == spec_parse_block_expr(*x, s@, ctx_of(*scope, *locals)),
    decreases *x, 7int,
{
    let ghost c = ctx_of(*scope, *locals);
    if str_eq(s, "reportOr") {
        let (l, r2, cm) = parse_two(x, scope, locals, s)?;
        Result::Ok(Expr::Or { left: Box::new(l), right: Box::new(r2), comment: cm })
    } else if str_eq(s, "reportIsIdentical") {
        let (l, r2, cm) = parse_two(x, scope, locals, s)?;
        Result::Ok(Expr::RefEq { left: Box::new(l), right: Box::new(r2), comment: cm })
    } else if str_eq(s, "reportEquals") {
        let (l, r2, cm) = parse_two(x, scope, locals, s)?;
        Result::Ok(Expr::Eq { left: Box::new(l), right: Box::new(r2), comment: cm })
    } else if str_eq(s, "reportLessThan") {
        let (l, r2, cm) = parse_two(x, scope, locals, s)?;
        Result::Ok(Expr::Less { left: Box::new(l), right: Box::new(r2), comment: cm })
    } else if str_eq(s, "reportGreaterThan") {
        let (l, r2, cm) = parse_two(x, scope, locals, s)?;
        Result::Ok(Expr::Greater { left: Box::new(l), right: Box::new(r2), comment: cm })
    } else if str_eq(s, "reportRandom") {
        let (l, r2, cm) = parse_two(x, scope, locals, s)?;
        Result::Ok(Expr::RandInclusive { a: Box::new(l), b: Box::new(r2), comment: cm })
    } else if str_eq(s, "reportNumbers") {
        let (l, r2, cm) = parse_two(x, scope, locals, s)?;
        Result::Ok(Expr::RangeInclusive { start: Box::new(l), stop: Box::new(r2), comment: cm })
    } else {
        parse_block_expr_c(x, s, scope, locals)
    }
}

/// One group of the block-expression dispatch.
#[verifier::rlimit(100)]
#[verifier::spinoff_prover]
fn parse_block_expr_c<T: NameTransformer>(
    x: &Xml,
    s: &str,
    scope: &Scope<T>,
    locals: &SymbolTable,
) -> (r: Result<Expr, Error>)
    requires
        scope_wf(*scope, *locals),
        past_group_a(s@),
        past_group_b(s@),
    ensures
        view_expr_result(r) == spec_parse_block_expr(*x, s@, ctx_of(*scope, *locals)),
    decreases *x, 6int,
{
    let ghost c = ctx_of(*scope, *locals);
    if str_eq(s, "reportNot") {
        let (v, cm) = parse_one(x, scope, locals, s)?;
        Result::Ok(Expr::Not { value: Box::new(v), comment: cm })
    } else if str_eq(s, "reportRound") {
        let (v, cm) = parse_one(x, scope, locals, s)?;
        Result::Ok(Expr::Round { value: Box::new(v), comment: cm })
    } else if str_eq(s, "reportListLength") {
        let (v, cm) = parse_one(x, scope, locals, s)?;
        Result::Ok(Expr::Listlen { value: Box::new(v), comment: cm })
    } else {
        parse_block_expr_c2(x, s, scope, locals)
    }
}

/// One group of the block-expression dispatch.
#[verifier::rlimit(100)]
#[verifier::spinoff_prover]
fn parse_block_expr_c2<T: NameTransformer>(
    x: &Xml,
    s: &str,
    scope: &Scope<T>,
    locals: &SymbolTable,
) -> (r: Result<Expr, Error>)
    requires
        scope_wf(*scope, *locals),
        past_group_a(s@),
        past_group_b(s@),
        s@ != "reportNot"@,
        s@ != "reportRound"@,
        s@ != "reportListLength"@,
    ensures
        view_expr_result(r) == spec_parse_block_expr(*x, s@, ctx_of(*scope, *locals)),
    decreases *x, 5int,
{
    let ghost c = ctx_of(*scope, *locals);
    if str_eq(s, "reportListIsEmpty") {
        let (v, cm) = parse_one(x, scope, locals, s)?;
        proof {
            assert(spec_parse_block_expr(*x, s@, c) == Result::<ExprV, ErrorV>::Ok(
                ExprV::Greater {
                    left: Box::new(
                        ExprV::Listlen { value: Box::new(view_expr(v)), comment: Option::None },
                    ),
                    right: Box::new(num_lit("0"@)),
                    comment: opt_text(cm),
                },
            ));
        }
        let ghost vv = view_expr(v);
        let ghost cmv = opt_text(cm);
        let zero = Expr::Value(Literal::Number("0".to_owned()));
        proof {
            assert(view_expr(zero) == num_lit("0"@));
        }
        let inner = Expr::Listlen { value: Box::new(v), comment: Option::None };
        proof {
            assert(view_expr(inner) == (ExprV::Listlen {
                value: Box::new(vv),
                comment: Option::None,
            }));
        }
        let res = Expr::Greater { left: Box::new(inner), right: Box::new(zero), comment: cm };
        proof {
            assert(view_expr(res) == (ExprV::Greater {
                left: Box::new(ExprV::Listlen { value: Box::new(vv), comment: Option::None }),
                right: Box::new(num_lit("0"@)),
                comment: cmv,
            }));
        }
        Result::Ok(res)
    } else if str_eq(s, "reportListIndex") {
        let (v, l, cm) = parse_two(x, scope, locals, s)?;
        proof {
            assert(spec_parse_block_expr(*x, s@, c) == Result::<ExprV, ErrorV>::Ok(
                ExprV::ListFind {
                    value: Box::new(view_expr(v)),
                    list: Box::new(view_expr(l)),
                    comment: opt_text(cm),
                },
            ));
        }
        Result::Ok(Expr::ListFind { value: Box::new(v), list: Box::new(l), comment: cm })
    } else if str_eq(s, "reportListContainsItem") {
        let (v, l, cm) = parse_two(x, scope, locals, s)?;
        proof {
            assert(spec_parse_block_expr(*x, s@, c) == Result::<ExprV, ErrorV>::Ok(
                ExprV::Greater {
                    left: Box::new(
                        ExprV::ListFind {
                            value: Box::new(view_expr(v)),
                            list: Box::new(view_expr(l)),
                            comment: Option::None,
                        },
                    ),
                    right: Box::new(num_lit("0"@)),
                    comment: opt_text(cm),
                },
            ));
        }
        let ghost vv = view_expr(v);
        let ghost lv = view_expr(l);
        let ghost cmv = opt_text(cm);
        let zero = Expr::Value(Literal::Number("0".to_owned()));
        proof {
            assert(view_expr(zero) == num_lit("0"@));
        }
        let inner = Expr::ListFind { value: Box::new(v), list: Box::new(l), comment: Option::None };
        proof {
            assert(view_expr(inner) == (ExprV::ListFind {
                value: Box::new(vv),
                list: Box::new(lv),
                comment: Option::None,
            }));
        }
        let res = Expr::Greater { left: Box::new(inner), right: Box::new(zero), comment: cm };
        proof {
            assert(view_expr(res) == (ExprV::Greater {
                left: Box::new(
                    ExprV::ListFind { value: Box::new(vv), list: Box::new(lv), comment: Option::None },
                ),
                right: Box::new(num_lit("0"@)),
                comment: cmv,
            }));
        }
        Result::Ok(res)
    } else {
        parse_block_expr_d(x, s, scope, locals)
    }
}

/// One group of the block-expression dispatch.
#[verifier::rlimit(100)]
#[verifier::spinoff_prover]
fn parse_block_expr_d<T: NameTransformer>(
    x: &Xml,
    s: &str,
    scope: &Scope<T>,
    locals: &SymbolTable,
) -> (r: Result<Expr, Error>)
    requires
        scope_wf(*scope, *locals),
        past_group_a(s@),
        past_group_b(s@),
        past_group_c(s@),
    ensures
        view_expr_result(r) == spec_parse_block_expr(*x, s@, ctx_of(*scope, *locals)),
    decreases *x, 4int,
{
    let ghost c = ctx_of(*scope, *locals);
    if str_eq(s, "reportListItem") {
        let cm = block_comment(x, scope.role, scope.sprite, s, 2)?;
        proof {
            lemma_xml_child_smaller(*x, 0);
            lemma_xml_child_smaller(*x, 1);
        }
        let list = parse_expr(&x.children[1], scope, locals)?;
        match option_child(&x.children[0]) {
            Option::Some(opt) => {
                if str_eq(opt.text.as_str(), "last") {
                    Result::Ok(Expr::ListLastIndex { list: Box::new(list), comment: cm })
                } else if str_eq(opt.text.as_str(), "any") {
                    Result::Ok(Expr::ListRandIndex { list: Box::new(list), comment: cm })
                } else if str_eq(opt.text.as_str(), "") {
                    Result::Err(
                        Error::BlockOptionNotSelected {
                            role: scope.role.clone(),
                            sprite: scope.sprite.clone(),
                            block_type: s.to_owned(),
                        },
                    )
                } else {
                    Result::Err(
                        Error::InvalidProject {
                            error: ProjectError::BlockOptionUnknown {
                                role: scope.role.clone(),
                                sprite: scope.sprite.clone(),
                                block_type: s.to_owned(),
                                got: opt.text.clone(),
                            },
                        },
                    )
                }
            },
            Option::None => {
                let index = parse_expr(&x.children[0], scope, locals)?;
                Result::Ok(
                    Expr::ListIndex { list: Box::new(list), index: Box::new(index), comment: cm },
                )
            },
        }
    } else {
        parse_block_expr_d2(x, s, scope, locals)
    }
}

/// One group of the block-expression dispatch.
#[verifier::rlimit(100)]
#[verifier::spinoff_prover]
fn parse_block_expr_d2<T: NameTransformer>(
    x: &Xml,
    s: &str,
    scope: &Scope<T>,
    locals: &SymbolTable,
) -> (r: Result<Expr, Error>)
    requires
        scope_wf(*scope, *locals),
        past_group_a(s@),
        past_group_b(s@),
        past_group_c(s@),
        s@ != "reportListItem"@,
    ensures
        view_expr_result(r) == spec_parse_block_expr(*x, s@, ctx_of(*scope, *locals)),
    decreases *x, 3int,
{
    let ghost c = ctx_of(*scope, *locals);
    if str_eq(s, "reportStringSize") {
        let (v, cm) = parse_one(x, scope, locals, s)?;
        Result::Ok(Expr::Strlen { value: Box::new(v), comment: cm })
    } else if str_eq(s, "reportUnicodeAsLetter") {
        let (v, cm) = parse_one(x, scope, locals, s)?;
        Result::Ok(Expr::UnicodeToChar { value: Box::new(v), comment: cm })
    } else if str_eq(s, "reportUnicode") {
        let (v, cm) = parse_one(x, scope, locals, s)?;
        Result::Ok(Expr::CharToUnicode { value: Box::new(v), comment: cm })
    } else if str_eq(s, "reportCDR") {
        let (v, cm) = parse_one(x, scope, locals, s)?;
        proof {
            assert(spec_parse_block_expr(*x, s@, c) == Result::<ExprV, ErrorV>::Ok(
                ExprV::ListSlice {
                    value: Box::new(view_expr(v)),
                    from: Option::Some(Box::new(num_lit("2"@))),
                    to: Option::None,
                    comment: opt_text(cm),
                },
            ));
        }
        let ghost vv = view_expr(v);
        let ghost cmv = opt_text(cm);
        let two = Expr::Value(Literal::Number("2".to_owned()));
        proof {
            assert(view_expr(two) == num_lit("2"@));
        }
        let res = Expr::ListSlice {
            value: Box::new(v),
            from: Option::Some(Box::new(two)),
            to: Option::None,
            comment: cm,
        };
        proof {
            assert(view_expr(res) == (ExprV::ListSlice {
                value: Box::new(vv),
                from: Option::Some(Box::new(num_lit("2"@))),
                to: Option::None,
                comment: cmv,
            }));
        }
        Result::Ok(res)
    } else {
        parse_block_expr_d3(x, s, scope, locals)
    }
}

/// One group of the block-expression dispatch.
#[verifier::rlimit(100)]
#[verifier::spinoff_prover]
fn parse_block_expr_d3<T: NameTransformer>(
    x: &Xml,
    s: &str,
    scope: &Scope<T>,
    locals: &SymbolTable,
) -> (r: Result<Expr, Error>)
    requires
        scope_wf(*scope, *locals),
        past_group_a(s@),
        past_group_b(s@),
        past_group_c(s@),
        s@ != "reportListItem"@,
        s@ != "reportStringSize"@,
        s@ != "reportUnicodeAsLetter"@,
        s@ != "reportUnicode"@,
        s@ != "reportCDR"@,
    ensures
        view_expr_result(r) == spec_parse_block_expr(*x, s@, ctx_of(*scope, *locals)),
    decreases *x, 2int,
{
    let ghost c = ctx_of(*scope, *locals);
    if str_eq(s, "reportCONS") {
        let cm = block_comment(x, scope.role, scope.sprite, s, 2)?;
        proof {
            lemma_xml_child_smaller(*x, 0);
            lemma_xml_child_smaller(*x, 1);
        }
        let val = parse_expr(&x.children[0], scope, locals)?;
        let list = parse_expr(&x.children[1], scope, locals)?;
        let mut lists: Vec<Expr> = Vec::new();
        let ghost vv = view_expr(val);
        let ghost lv = view_expr(list);
        lists.push(val);
        lists.push(list);
        proof {
            lemma_view_exprs(lists@);
            assert(view_exprs(lists@) =~= seq![vv, lv]);
        }
        Result::Ok(Expr::Listcat { lists, comment: cm })
    } else {
        parse_block_expr_e(x, s, scope, locals)
    }
}

/// One group of the block-expression dispatch.
#[verifier::rlimit(100)]
#[verifier::spinoff_prover]
fn parse_block_expr_e<T: NameTransformer>(
    x: &Xml,
    s: &str,
    scope: &Scope<T>,
    locals: &SymbolTable,
) -> (r: Result<Expr, Error>)
    requires
        scope_wf(*scope, *locals),
        past_group_a(s@),
        past_group_b(s@),
        past_group_c(s@),
        past_group_d(s@),
    ensures
        view_expr_result(r) == spec_parse_block_expr(*x, s@, ctx_of(*scope, *locals)),
    decreases *x, 1int,
{
    let ghost c = ctx_of(*scope, *locals);
    if str_eq(s, "reportJoinWords") {
        let (vs, cm) = parse_many(x, scope, locals, s)?;
        Result::Ok(Expr::Strcat { values: vs, comment: cm })
    } else if str_eq(s, "reportConcatenatedLists") {
        let (vs, cm) = parse_many(x, scope, locals, s)?;
        Result::Ok(Expr::Listcat { lists: vs, comment: cm })
    } else if str_eq(s, "reportNewList") {
        let (vs, cm) = parse_many(x, scope, locals, s)?;
        Result::Ok(Expr::MakeList { values: vs, comment: cm })
    } else if str_eq(s, "reportBoolean") {
        match bool_literal(x) {
            Option::Some(b) => Result::Ok(Expr::Value(Literal::Bool(b))),
            Option::None => Result::Err(
                Error::InvalidProject {
                    error: ProjectError::InvalidBoolLiteral {
                        role: scope.role.clone(),
                        sprite: scope.sprite.clone(),
                    },
                },
            ),
        }
    } else if str_eq(s, "reportMonadic") {
        let cm = block_comment(x, scope.role, scope.sprite, s, 2)?;
        proof {
            lemma_xml_child_smaller(*x, 1);
        }
        match option_child(&x.children[0]) {
            Option::None => Result::Err(
                Error::InvalidProject {
                    error: ProjectError::BlockMissingOption {
                        role: scope.role.clone(),
                        sprite: scope.sprite.clone(),
                        block_type: s.to_owned(),
                    },
                },
            ),
            Option::Some(f) => {
                if f.children.len() != 0 {
                    Result::Err(
                        Error::BlockOptionNotConst {
                            role: scope.role.clone(),
                            sprite: scope.sprite.clone(),
                            block_type: s.to_owned(),
                        },
                    )
                } else {
                    let value = parse_expr(&x.children[1], scope, locals)?;
                    monadic_expr(f.text.as_str(), value, cm, s, scope.role, scope.sprite)
                }
            },
        }
    } else if str_eq(s, "reportIfElse") {
        let cm = block_comment(x, scope.role, scope.sprite, s, 3)?;
        proof {
            lemma_xml_child_smaller(*x, 0);
            lemma_xml_child_smaller(*x, 1);
            lemma_xml_child_smaller(*x, 2);
        }
        let condition = parse_expr(&x.children[0], scope, locals)?;
        let then = parse_expr(&x.children[1], scope, locals)?;
        let otherwise = parse_expr(&x.children[2], scope, locals)?;
        Result::Ok(
            Expr::Conditional {
                condition: Box::new(condition),
                then: Box::new(then),
                otherwise: Box::new(otherwise),
                comment: cm,
            },
        )
    } else {
        Result::Err(
            Error::UnknownBlockType {
                role: scope.role.clone(),
                sprite: scope.sprite.clone(),
                block_type: s.to_owned(),
            },
        )
    }
}

/// Dispatches the monadic-function selector.
#[verifier::rlimit(100)]
#[verifier::spinoff_prover]
fn monadic_expr(
    func: &str,
    value: Expr,
    cm: Option<String>,
    s: &str,
    role: &String,
    sprite: &String,
) -> (r: Result<Expr, Error>)
    ensures
        view_expr_result(r) == spec_monadic(
            func@,
            view_expr(value),
            opt_text(cm),
            s@,
            role@,
            sprite@,
        ),
{
    if str_eq(func, "id") {
        Result::Ok(value)
    } else if str_eq(func, "neg") {
        Result::Ok(Expr::Neg { value: Box::new(value), comment: cm })
    } else if str_eq(func, "abs") {
        Result::Ok(Expr::Abs { value: Box::new(value), comment: cm })
    } else if str_eq(func, "sqrt") {
        Result::Ok(Expr::Sqrt { value: Box::new(value), comment: cm })
    } else if str_eq(func, "floor") {
        Result::Ok(Expr::Floor { value: Box::new(value), comment: cm })
    } else if str_eq(func, "ceiling") {
        Result::Ok(Expr::Ceil { value: Box::new(value), comment: cm })
    } else {
        monadic_expr_b(func, value, cm, s, role, sprite)
    }
}

/// The trigonometric monadic selectors.
#[verifier::rlimit(100)]
#[verifier::spinoff_prover]
fn monadic_expr_b(
    func: &str,
    value: Expr,
    cm: Option<String>,
    s: &str,
    role: &String,
    sprite: &String,
) -> (r: Result<Expr, Error>)
    requires
        past_monadic_m1(func@),
    ensures
        view_expr_result(r) == spec_monadic(
            func@,
            view_expr(value),
            opt_text(cm),
            s@,
            role@,
            sprite@,
        ),
{
    if str_eq(func, "sin") {
        Result::Ok(Expr::Sin { value: Box::new(value), comment: cm })
    } else if str_eq(func, "cos") {
        Result::Ok(Expr::Cos { value: Box::new(value), comment: cm })
    } else if str_eq(func, "tan") {
        Result::Ok(Expr::Tan { value: Box::new(value), comment: cm })
    } else if str_eq(func, "asin") {
        Result::Ok(Expr::Asin { value: Box::new(value), comment: cm })
    } else if str_eq(func, "acos") {
        Result::Ok(Expr::Acos { value: Box::new(value), comment: cm })
    } else if str_eq(func, "atan") {
        Result::Ok(Expr::Atan { value: Box::new(value), comment: cm })
    } else {
        monadic_expr_c(func, value, cm, s, role, sprite)
    }
}

/// The logarithm and power monadic selectors, and the failures.
#[verifier::rlimit(100)]
#[verifier::spinoff_prover]
fn monadic_expr_c(
    func: &str,
    value: Expr,
    cm: Option<String>,
    s: &str,
    role: &String,
    sprite: &String,
) -> (r: Result<Expr, Error>)
    requires
        past_monadic_m1(func@),
        past_monadic_m2(func@),
    ensures
        view_expr_result(r) == spec_monadic(
            func@,
            view_expr(value),
            opt_text(cm),
            s@,
            role@,
            sprite@,
        ),
{
    let ghost sm = spec_monadic(func@, view_expr(value), opt_text(cm), s@, role@, sprite@);
    if str_eq(func, "ln") {
        proof {
            assert(sm == Result::<ExprV, ErrorV>::Ok(
                ExprV::Log {
                    value: Box::new(view_expr(value)),
                    base: Box::new(ExprV::Value(LiteralV::Constant(Constant::E))),
                    comment: opt_text(cm),
                },
            ));
        }
        let ghost vv = view_expr(value);
        let ghost cmv = opt_text(cm);
        let b = Expr::Value(Literal::Constant(Constant::E));
        proof {
            assert(view_expr(b) == ExprV::Value(LiteralV::Constant(Constant::E)));
        }
        let res = Expr::Log { value: Box::new(value), base: Box::new(b), comment: cm };
        proof {
            assert(view_expr(res) == (ExprV::Log {
                value: Box::new(vv),
                base: Box::new(ExprV::Value(LiteralV::Constant(Constant::E))),
                comment: cmv,
            }));
        }
        Result::Ok(res)
    } else if str_eq(func, "lg") {
        proof {
            assert(sm == Result::<ExprV, ErrorV>::Ok(
                ExprV::Log {
                    value: Box::new(view_expr(value)),
                    base: Box::new(num_lit("2"@)),
                    comment: opt_text(cm),
                },
            ));
        }
        let ghost vv = view_expr(value);
        let ghost cmv = opt_text(cm);
        let b = Expr::Value(Literal::Number("2".to_owned()));
        proof {
            assert(view_expr(b) == num_lit("2"@));
        }
        let res = Expr::Log { value: Box::new(value), base: Box::new(b), comment: cm };
        proof {
            assert(view_expr(res) == (ExprV::Log {
                value: Box::new(vv),
                base: Box::new(num_lit("2"@)),
                comment: cmv,
            }));
        }
        Result::Ok(res)
    } else if str_eq(func, "log") {
        proof {
            assert(sm == Result::<ExprV, ErrorV>::Ok(
                ExprV::Log {
                    value: Box::new(view_expr(value)),
                    base: Box::new(num_lit("10"@)),
                    comment: opt_text(cm),
                },
            ));
        }
        let ghost vv = view_expr(value);
        let ghost cmv = opt_text(cm);
        let b = Expr::Value(Literal::Number("10".to_owned()));
        proof {
            assert(view_expr(b) == num_lit("10"@));
        }
        let res = Expr::Log { value: Box::new(value), base: Box::new(b), comment: cm };
        proof {
            assert(view_expr(res) == (ExprV::Log {
                value: Box::new(vv),
                base: Box::new(num_lit("10"@)),
                comment: cmv,
            }));
        }
        Result::Ok(res)
    } else {
        monadic_expr_d(func, value, cm, s, role, sprite)
    }
}

/// The power monadic selectors, and the failures.
#[verifier::rlimit(100)]
#[verifier::spinoff_prover]
fn monadic_expr_d(
    func: &str,
    value: Expr,
    cm: Option<String>,
    s: &str,
    role: &String,
    sprite: &String,
) -> (r: Result<Expr, Error>)
    requires
        past_monadic_m1(func@),
        past_monadic_m2(func@),
        func@ != "ln"@,
        func@ != "lg"@,
        func@ != "log"@,
    ensures
        view_expr_result(r) == spec_monadic(
            func@,
            view_expr(value),
            opt_text(cm),
            s@,
            role@,
            sprite@,
        ),
{
    let ghost sm = spec_monadic(func@, view_expr(value), opt_text(cm), s@, role@, sprite@);
    if str_eq(func, "e^") {
        proof {
            assert(sm == Result::<ExprV, ErrorV>::Ok(
                ExprV::Pow {
                    base: Box::new(ExprV::Value(LiteralV::Constant(Constant::E))),
                    power: Box::new(view_expr(value)),
                    comment: opt_text(cm),
                },
            ));
        }
        let ghost vv = view_expr(value);
        let ghost cmv = opt_text(cm);
        let b = Expr::Value(Literal::Constant(Constant::E));
        proof {
            assert(view_expr(b) == ExprV::Value(LiteralV::Constant(Constant::E)));
        }
        let res = Expr::Pow { base: Box::new(b), power: Box::new(value), comment: cm };
        proof {
            assert(view_expr(res) == (ExprV::Pow {
                base: Box::new(ExprV::Value(LiteralV::Constant(Constant::E))),
                power: Box::new(vv),
                comment: cmv,
            }));
        }
        Result::Ok(res)
    } else if str_eq(func, "2^") {
        proof {
            assert(sm == Result::<ExprV, ErrorV>::Ok(
                ExprV::Pow {
                    base: Box::new(num_lit("2"@)),
                    power: Box::new(view_expr(value)),
                    comment: opt_text(cm),
                },
            ));
        }
        let ghost vv = view_expr(value);
        let ghost cmv = opt_text(cm);
        let b = Expr::Value(Literal::Number("2".to_owned()));
        proof {
            assert(view_expr(b) == num_lit("2"@));
        }
        let res = Expr::Pow { base: Box::new(b), power: Box::new(value), comment: cm };
        proof {
            assert(view_expr(res) == (ExprV::Pow {
                base: Box::new(num_lit("2"@)),
                power: Box::new(vv),
                comment: cmv,
            }));
        }
        Result::Ok(res)
    } else if str_eq(func, "10^") {
        proof {
            assert(sm == Result::<ExprV, ErrorV>::Ok(
                ExprV::Pow {
                    base: Box::new(num_lit("10"@)),
                    power: Box::new(view_expr(value)),
                    comment: opt_text(cm),
                },
            ));
        }
        let ghost vv = view_expr(value);
        let ghost cmv = opt_text(cm);
        let b = Expr::Value(Literal::Number("10".to_owned()));
        proof {
            assert(view_expr(b) == num_lit("10"@));
        }
        let res = Expr::Pow { base: Box::new(b), power: Box::new(value), comment: cm };
        proof {
            assert(view_expr(res) == (ExprV::Pow {
                base: Box::new(num_lit("10"@)),
                power: Box::new(vv),
                comment: cmv,
            }));
        }
        Result::Ok(res)
    } else if str_eq(func, "") {
        Result::Err(
            Error::BlockOptionNotSelected {
                role: role.clone(),
                sprite: sprite.clone(),
                block_type: s.to_owned(),
            },
        )
    } else {
        Result::Err(
            Error::InvalidProject {
                error: ProjectError::BlockOptionUnknown {
                    role: role.clone(),
                    sprite: sprite.clone(),
                    block_type: s.to_owned(),
                    got: func.to_owned(),
                },
            },
        )
    }
}

/// The required child count of each fixed-arity block-expression tag,
/// before the optional trailing comment child.
pub open spec fn expr_block_arity(s: Seq<char>) -> Option<usize> {
    if s == "reportSum"@ {
        Option::Some(2usize)
    } else if s == "reportDifference"@ {
        Option::Some(2usize)
    } else if s == "reportProduct"@ {
        Option::Some(2usize)
    } else if s == "reportQuotient"@ {
        Option::Some(2usize)
    } else if s == "reportModulus"@ {
        Option::Some(2usize)
    } else if s == "reportPower"@ {
        Option::Some(2usize)
    } else if s == "reportAnd"@ {
        Option::Some(2usize)
    } else if s == "reportOr"@ {
        Option::Some(2usize)
    } else if s == "reportIsIdentical"@ {
        Option::Some(2usize)
    } else if s == "reportEquals"@ {
        Option::Some(2usize)
    } else if s == "reportLessThan"@ {
        Option::Some(2usize)
    } else if s == "reportGreaterThan"@ {
        Option::Some(2usize)
    } else if s == "reportRandom"@ {
        Option::Some(2usize)
    } else if s == "reportNumbers"@ {
        Option::Some(2usize)
    } else if s == "reportNot"@ {
        Option::Some(1usize)
    } else if s == "reportRound"@ {
        Option::Some(1usize)
    } else if s == "reportListLength"@ {
        Option::Some(1usize)
    } else if s == "reportListIsEmpty"@ {
        Option::Some(1usize)
    } else if s == "reportListIndex"@ {
        Option::Some(2usize)
    } else if s == "reportListContainsItem"@ {
        Option::Some(2usize)
    } else if s == "reportListItem"@ {
        Option::Some(2usize)
    } else if s == "reportStringSize"@ {
        Option::Some(1usize)
    } else if s == "reportUnicodeAsLetter"@ {
        Option::Some(1usize)
    } else if s == "reportUnicode"@ {
        Option::Some(1usize)
    } else if s == "reportCDR"@ {
        Option::Some(1usize)
    } else if s == "reportCONS"@ {
        Option::Some(2usize)
    } else if s == "reportJoinWords"@ {
        Option::Some(1usize)
    } else if s == "reportConcatenatedLists"@ {
        Option::Some(1usize)
    } else if s == "reportNewList"@ {
        Option::Some(1usize)
    } else if s == "reportBoolean"@ {
        Option::None
    } else if s == "reportMonadic"@ {
        Option::Some(2usize)
    } else if s == "reportIfElse"@ {
        Option::Some(3usize)
    } else {
        Option::None
    }
}

/// Supplying a fixed-arity block with fewer children than its shape needs
/// fails with the arity error carrying exactly the required count and the
/// supplied count, whatever the tag.
#[verifier::rlimit(100)]
#[verifier::spinoff_prover]
pub proof fn lemma_expr_arity_error(x: Xml, s: Seq<char>, c: CtxV)
    requires
        expr_block_arity(s) is Some,
        x.children@.len() < expr_block_arity(s)->Some_0,
    ensures
        spec_parse_block_expr(x, s, c) == Result::<ExprV, ErrorV>::Err(
            ErrorV::InvalidProject {
                error: ProjectErrorV::BlockChildCount {
                    role: c.role,
                    sprite: c.sprite,
                    block_type: s,
                    needed: expr_block_arity(s)->Some_0,
                    got: x.children@.len() as usize,
                },
            },
        ),
{
    let target = Result::<ExprV, ErrorV>::Err(
        ErrorV::InvalidProject {
            error: ProjectErrorV::BlockChildCount {
                role: c.role,
                sprite: c.sprite,
                block_type: s,
                needed: expr_block_arity(s)->Some_0,
                got: x.children@.len() as usize,
            },
        },
    );
    if s == "reportSum"@ {
        assert(spec_parse_block_expr(x, s, c) == target);
    } else if s == "reportDifference"@ {
        assert(spec_parse_block_expr(x, s, c) == target);
    } else if s == "reportProduct"@ {
        assert(spec_parse_block_expr(x, s, c) == target);
    } else if s == "reportQuotient"@ {
        assert(spec_parse_block_expr(x, s, c) == target);
    } else if s == "reportModulus"@ {
        assert(spec_parse_block_expr(x, s, c) == target);
    } else if s == "reportPower"@ {
        assert(spec_parse_block_expr(x, s, c) == target);
    } else if s == "reportAnd"@ {
        assert(spec_parse_block_expr(x, s, c) == target);
    } else if s == "reportOr"@ {
        assert(spec_parse_block_expr(x, s, c) == target);
    } else if s == "reportIsIdentical"@ {
        assert(spec_parse_block_expr(x, s, c) == target);
    } else if s == "reportEquals"@ {
        assert(spec_parse_block_expr(x, s, c) == target);
    } else if s == "reportLessThan"@ {
        assert(spec_parse_block_expr(x, s, c) == target);
    } else if s == "reportGreaterThan"@ {
        assert(spec_parse_block_expr(x, s, c) == target);
    } else if s == "reportRandom"@ {
        assert(spec_parse_block_expr(x, s, c) == target);
    } else if s == "reportNumbers"@ {
        assert(spec_parse_block_expr(x, s, c) == target);
    } else if s == "reportNot"@ {
        assert(spec_parse_block_expr(x, s, c) == target);
    } else if s == "reportRound"@ {
        assert(spec_parse_block_expr(x, s, c) == target);
    } else if s == "reportListLength"@ {
        assert(spec_parse_block_expr(x, s, c) == target);
    } else if s == "reportListIsEmpty"@ {
        assert(spec_parse_block_expr(x, s, c) == target);
    } else if s == "reportListIndex"@ {
        assert(spec_parse_block_expr(x, s, c) == target);
    } else if s == "reportListContainsItem"@ {
        assert(spec_parse_block_expr(x, s, c) == target);
    } else if s == "reportListItem"@ {
        assert(spec_parse_block_expr(x, s, c) == target);
    } else if s == "reportStringSize"@ {
        assert(spec_parse_block_expr(x, s, c) == target);
    } else if s == "reportUnicodeAsLetter"@ {
        assert(spec_parse_block_expr(x, s, c) == target);
    } else if s == "reportUnicode"@ {
        assert(spec_parse_block_expr(x, s, c) == target);
    } else if s == "reportCDR"@ {
        assert(spec_parse_block_expr(x, s, c) == target);
    } else if s == "reportCONS"@ {
        assert(spec_parse_block_expr(x, s, c) == target);
    } else if s == "reportJoinWords"@ {
        assert(spec_parse_block_expr(x, s, c) == target);
    } else if s == "reportConcatenatedLists"@ {
        assert(spec_parse_block_expr(x, s, c) == target);
    } else if s == "reportNewList"@ {
        assert(spec_parse_block_expr(x, s, c) == target);
    } else if s == "reportBoolean"@ {
        assert(false);
    } else if s == "reportMonadic"@ {
        assert(spec_parse_block_expr(x, s, c) == target);
    } else if s == "reportIfElse"@ {
        assert(spec_parse_block_expr(x, s, c) == target);
    } else {
        assert(false);
    }
}

} // verus!

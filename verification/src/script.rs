//! The statement and script decoders: one script body is an optional leading
//! event hat followed by block statements; statements own the script's local
//! scope, declare variables into it, and recurse through nested bodies.

use vstd::prelude::*;
use crate::ast::{Expr, Hat, HatV, Literal, LiteralV, Script, ScriptV, Stmt, StmtV, VariableDef, VariableDefV, VariableRef, VariableRefV, VarLocation, opt_text, view_expr, view_hat, view_script, view_stmt, view_stmts, view_varref, view_varrefs, lemma_view_stmts};
use crate::error::{Error, ErrorV, ProjectError, ProjectErrorV, SymbolError, SymbolErrorV, view_error};
use crate::expr::{CtxV, Scope, block_comment, ctx_of, option_child, parse_expr, reference_var, scope_wf, spec_comment, spec_option_child, spec_parse_expr, num_lit, lemma_xml_child_smaller};
use crate::symbol::{NameTransformer, SymbolTable, tf_of, spec_define, spec_reference_var, lemma_define_preserves_wf};
use crate::text::str_eq;
use crate::xml_tree::{Xml, spec_attr};

verus! {

/// The view of an optional hat.
pub open spec fn view_opt_hat(h: Option<Hat>) -> Option<HatV> {
    match h {
        Option::Some(v) => Option::Some(view_hat(v)),
        Option::None => Option::None,
    }
}

/// Decoding the optional event hat of a script: a recognized trigger tag
/// yields a hat, any other tag yields none and is left for the statement
/// parser; a missing type tag is an error.
pub open spec fn spec_parse_hat(x: Xml, c: CtxV) -> Result<Option<HatV>, ErrorV> {
    match spec_attr(x, "s"@) {
        Option::None => Result::Err(
            ErrorV::InvalidProject {
                error: ProjectErrorV::BlockWithoutType { role: c.role, sprite: c.sprite },
            },
        ),
        Option::Some(a) => {
            if a.value@ == "receiveGo"@ {
                match spec_comment(x, a.value@, 0, c.role, c.sprite) {
                    Result::Err(e) => Result::Err(e),
                    Result::Ok(cm) => Result::Ok(Option::Some(HatV::OnFlag { comment: cm })),
                }
            } else if a.value@ == "receiveKey"@ {
                match spec_comment(x, a.value@, 1, c.role, c.sprite) {
                    Result::Err(e) => Result::Err(e),
                    Result::Ok(cm) => match spec_option_child(x.children@[0]) {
                        Option::None => Result::Err(
                            ErrorV::InvalidProject {
                                error: ProjectErrorV::BlockMissingOption {
                                    role: c.role,
                                    sprite: c.sprite,
                                    block_type: a.value@,
                                },
                            },
                        ),
                        Option::Some(k) => {
                            if k.children@.len() != 0 {
                                Result::Err(
                                    ErrorV::BlockOptionNotConst {
                                        role: c.role,
                                        sprite: c.sprite,
                                        block_type: a.value@,
                                    },
                                )
                            } else if k.text@ == ""@ {
                                Result::Err(
                                    ErrorV::BlockOptionNotSelected {
                                        role: c.role,
                                        sprite: c.sprite,
                                        block_type: a.value@,
                                    },
                                )
                            } else {
                                Result::Ok(
                                    Option::Some(HatV::OnKey { key: k.text@, comment: cm }),
                                )
                            }
                        },
                    },
                }
            } else {
                Result::Ok(Option::None)
            }
        },
    }
}

/// Declaring one listed name per node as a fresh `Local` bound to numeric
/// zero, collecting the references; a transform rejection or a transformed
/// name collision aborts with the error attributed to this scope.
pub open spec fn spec_declare_vars(
    items: Seq<Xml>,
    locals: Seq<VariableDefV>,
    tf: spec_fn(Seq<char>) -> Option<Seq<char>>,
    role: Seq<char>,
    sprite: Seq<char>,
) -> Result<(Seq<VariableRefV>, Seq<VariableDefV>), ErrorV>
    decreases items,
{
    if items.len() == 0 {
        Result::Ok((Seq::empty(), locals))
    } else {
        let name = items[0].text@;
        match spec_define(locals, tf, name, LiteralV::Number("0"@)) {
            Result::Err(SymbolErrorV::NameTransformError { name }) => Result::Err(
                ErrorV::NameTransformError {
                    name,
                    role: Option::Some(role),
                    sprite: Option::Some(sprite),
                },
            ),
            Result::Err(SymbolErrorV::ConflictingTrans { trans_name, names }) => Result::Err(
                ErrorV::LocalsWithSameTransName { role, sprite, trans_name, names },
            ),
            Result::Ok(p) => {
                let vr = VariableRefV {
                    name,
                    trans_name: tf(name)->Some_0,
                    location: VarLocation::Local,
                };
                match spec_declare_vars(items.drop_first(), p.0, tf, role, sprite) {
                    Result::Err(e) => Result::Err(e),
                    Result::Ok(q) => Result::Ok((seq![vr] + q.0, q.1)),
                }
            },
        }
    }
}

/// Decoding one block statement; returns the statement and the local scope
/// as the statement leaves it.
pub open spec fn spec_parse_stmt(
    x: Xml,
    c: CtxV,
    tf: spec_fn(Seq<char>) -> Option<Seq<char>>,
) -> Result<(StmtV, Seq<VariableDefV>), ErrorV>
    decreases x, 18int,
{
    match spec_attr(x, "s"@) {
        Option::None => Result::Err(
            ErrorV::InvalidProject {
                error: ProjectErrorV::BlockWithoutType { role: c.role, sprite: c.sprite },
            },
        ),
        Option::Some(a) => spec_parse_stmt_tagged(x, a.value@, c, tf),
    }
}

/// The statement dispatch over the `s` type tag.
pub open spec fn spec_parse_stmt_tagged(
    x: Xml,
    s: Seq<char>,
    c: CtxV,
    tf: spec_fn(Seq<char>) -> Option<Seq<char>>,
) -> Result<(StmtV, Seq<VariableDefV>), ErrorV>
    decreases x, 17int,
    via spec_parse_stmt_tagged_dec
{
    if s == "doDeclareVariables"@ {
        match spec_comment(x, s, 1, c.role, c.sprite) {
            Result::Err(e) => Result::Err(e),
            Result::Ok(cm) => match spec_declare_vars(
                x.children@[0].children@,
                c.locals,
                tf,
                c.role,
                c.sprite,
            ) {
                Result::Err(e) => Result::Err(e),
                Result::Ok(p) => Result::Ok(
                    (StmtV::Assign { vars: p.0, value: num_lit("0"@), comment: cm }, p.1),
                ),
            },
        }
    } else if s == "doSetVar"@ || s == "doChangeVar"@ {
        match spec_comment(x, s, 2, c.role, c.sprite) {
            Result::Err(e) => Result::Err(e),
            Result::Ok(cm) => {
                if x.children@[0].name@ != "l"@ {
                    Result::Err(ErrorV::DerefAssignment { role: c.role, sprite: c.sprite })
                } else {
                    let name = x.children@[0].text@;
                    match spec_reference_var(c.locals, c.fields, c.globals, name) {
                        Option::None => Result::Err(
                            ErrorV::UndefinedVariable { role: c.role, sprite: c.sprite, name },
                        ),
                        Option::Some(dl) => {
                            let vr = VariableRefV {
                                name: dl.0.name,
                                trans_name: dl.0.trans_name,
                                location: dl.1,
                            };
                            match spec_parse_expr(x.children@[1], c) {
                                Result::Err(e) => Result::Err(e),
                                Result::Ok(value) => {
                                    if s == "doSetVar"@ {
                                        Result::Ok(
                                            (
                                                StmtV::Assign {
                                                    vars: seq![vr],
                                                    value,
                                                    comment: cm,
                                                },
                                                c.locals,
                                            ),
                                        )
                                    } else {
                                        Result::Ok(
                                            (
                                                StmtV::AddAssign { var: vr, value, comment: cm },
                                                c.locals,
                                            ),
                                        )
                                    }
                                },
                            }
                        },
                    }
                }
            },
        }
    } else if s == "doFor"@ {
        match spec_comment(x, s, 4, c.role, c.sprite) {
            Result::Err(e) => Result::Err(e),
            Result::Ok(cm) => {
                if x.children@[0].name@ != "l"@ {
                    Result::Err(
                        ErrorV::InvalidProject {
                            error: ProjectErrorV::NonConstantUpvar {
                                role: c.role,
                                sprite: c.sprite,
                                block_type: s,
                            },
                        },
                    )
                } else {
                    let name = x.children@[0].text@;
                    match spec_parse_expr(x.children@[1], c) {
                        Result::Err(e) => Result::Err(e),
                        Result::Ok(first) => match spec_parse_expr(x.children@[2], c) {
                            Result::Err(e) => Result::Err(e),
                            Result::Ok(last) => match spec_define(
                                c.locals,
                                tf,
                                name,
                                LiteralV::Number("0"@),
                            ) {
                                Result::Err(SymbolErrorV::NameTransformError { name }) => {
                                    Result::Err(
                                        ErrorV::NameTransformError {
                                            name,
                                            role: Option::Some(c.role),
                                            sprite: Option::Some(c.sprite),
                                        },
                                    )
                                },
                                Result::Err(
                                    SymbolErrorV::ConflictingTrans { trans_name, names },
                                ) => Result::Err(
                                    ErrorV::LocalsWithSameTransName {
                                        role: c.role,
                                        sprite: c.sprite,
                                        trans_name,
                                        names,
                                    },
                                ),
                                Result::Ok(p) => {
                                    let vr = VariableRefV {
                                        name,
                                        trans_name: tf(name)->Some_0,
                                        location: VarLocation::Local,
                                    };
                                    match spec_parse_script(
                                        x.children@[3],
                                        CtxV { locals: p.0, ..c },
                                        tf,
                                    ) {
                                        Result::Err(e) => Result::Err(e),
                                        Result::Ok(q) => Result::Ok(
                                            (
                                                StmtV::ForLoop {
                                                    var: vr,
                                                    first,
                                                    last,
                                                    stmts: q.0.stmts,
                                                    comment: cm,
                                                },
                                                q.1,
                                            ),
                                        ),
                                    }
                                },
                            },
                        },
                    }
                }
            },
        }
    } else if s == "doForEach"@ {
        match spec_comment(x, s, 3, c.role, c.sprite) {
            Result::Err(e) => Result::Err(e),
            Result::Ok(cm) => {
                if x.children@[0].name@ != "l"@ {
                    Result::Err(
                        ErrorV::InvalidProject {
                            error: ProjectErrorV::NonConstantUpvar {
                                role: c.role,
                                sprite: c.sprite,
                                block_type: s,
                            },
                        },
                    )
                } else {
                    let name = x.children@[0].text@;
                    match spec_parse_expr(x.children@[1], c) {
                        Result::Err(e) => Result::Err(e),
                        Result::Ok(items) => match spec_define(
                            c.locals,
                            tf,
                            name,
                            LiteralV::Number("0"@),
                        ) {
                            Result::Err(SymbolErrorV::NameTransformError { name }) => Result::Err(
                                ErrorV::NameTransformError {
                                    name,
                                    role: Option::Some(c.role),
                                    sprite: Option::Some(c.sprite),
                                },
                            ),
                            Result::Err(SymbolErrorV::ConflictingTrans { trans_name, names }) => {
                                Result::Err(
                                    ErrorV::LocalsWithSameTransName {
                                        role: c.role,
                                        sprite: c.sprite,
                                        trans_name,
                                        names,
                                    },
                                )
                            },
                            Result::Ok(p) => {
                                let vr = VariableRefV {
                                    name,
                                    trans_name: tf(name)->Some_0,
                                    location: VarLocation::Local,
                                };
                                match spec_parse_script(
                                    x.children@[2],
                                    CtxV { locals: p.0, ..c },
                                    tf,
                                ) {
                                    Result::Err(e) => Result::Err(e),
                                    Result::Ok(q) => Result::Ok(
                                        (
                                            StmtV::ForeachLoop {
                                                var: vr,
                                                items,
                                                stmts: q.0.stmts,
                                                comment: cm,
                                            },
                                            q.1,
                                        ),
                                    ),
                                }
                            },
                        },
                    }
                }
            },
        }
    } else if s == "doRepeat"@ || s == "doUntil"@ || s == "doIf"@ {
        match spec_comment(x, s, 2, c.role, c.sprite) {
            Result::Err(e) => Result::Err(e),
            Result::Ok(cm) => match spec_parse_expr(x.children@[0], c) {
                Result::Err(e) => Result::Err(e),
                Result::Ok(cond) => match spec_parse_script(x.children@[1], c, tf) {
                    Result::Err(e) => Result::Err(e),
                    Result::Ok(q) => {
                        if s == "doRepeat"@ {
                            Result::Ok(
                                (
                                    StmtV::Repeat { times: cond, stmts: q.0.stmts, comment: cm },
                                    q.1,
                                ),
                            )
                        } else if s == "doUntil"@ {
                            Result::Ok(
                                (
                                    StmtV::UntilLoop {
                                        condition: cond,
                                        stmts: q.0.stmts,
                                        comment: cm,
                                    },
                                    q.1,
                                ),
                            )
                        } else {
                            Result::Ok(
                                (
                                    StmtV::If { condition: cond, then: q.0.stmts, comment: cm },
                                    q.1,
                                ),
                            )
                        }
                    },
                },
            },
        }
    } else if s == "doForever"@ {
        match spec_comment(x, s, 1, c.role, c.sprite) {
            Result::Err(e) => Result::Err(e),
            Result::Ok(cm) => match spec_parse_script(x.children@[0], c, tf) {
                Result::Err(e) => Result::Err(e),
                Result::Ok(q) => Result::Ok(
                    (StmtV::InfLoop { stmts: q.0.stmts, comment: cm }, q.1),
                ),
            },
        }
    } else if s == "doIfElse"@ {
        match spec_comment(x, s, 3, c.role, c.sprite) {
            Result::Err(e) => Result::Err(e),
            Result::Ok(cm) => match spec_parse_expr(x.children@[0], c) {
                Result::Err(e) => Result::Err(e),
                Result::Ok(cond) => match spec_parse_script(x.children@[1], c, tf) {
                    Result::Err(e) => Result::Err(e),
                    Result::Ok(q1) => match spec_parse_script(
                        x.children@[2],
                        CtxV { locals: q1.1, ..c },
                        tf,
                    ) {
                        Result::Err(e) => Result::Err(e),
                        Result::Ok(q2) => Result::Ok(
                            (
                                StmtV::IfElse {
                                    condition: cond,
                                    then: q1.0.stmts,
                                    otherwise: q2.0.stmts,
                                    comment: cm,
                                },
                                q2.1,
                            ),
                        ),
                    },
                },
            },
        }
    } else if s == "doWarp"@ {
        match spec_comment(x, s, 1, c.role, c.sprite) {
            Result::Err(e) => Result::Err(e),
            Result::Ok(cm) => match spec_parse_script(x.children@[0], c, tf) {
                Result::Err(e) => Result::Err(e),
                Result::Ok(q) => Result::Ok((StmtV::Warp { stmts: q.0.stmts, comment: cm }, q.1)),
            },
        }
    } else if s == "doDeleteFromList"@ {
        match spec_comment(x, s, 2, c.role, c.sprite) {
            Result::Err(e) => Result::Err(e),
            Result::Ok(cm) => match spec_parse_expr(x.children@[1], c) {
                Result::Err(e) => Result::Err(e),
                Result::Ok(list) => match spec_option_child(x.children@[0]) {
                    Option::Some(opt) => {
                        if opt.text@ == "last"@ {
                            Result::Ok((StmtV::Pop { list, comment: cm }, c.locals))
                        } else if opt.text@ == "all"@ {
                            Result::Ok((StmtV::RemoveAll { list, comment: cm }, c.locals))
                        } else if opt.text@ == ""@ {
                            Result::Err(
                                ErrorV::BlockOptionNotSelected {
                                    role: c.role,
                                    sprite: c.sprite,
                                    block_type: s,
                                },
                            )
                        } else {
                            Result::Err(
                                ErrorV::InvalidProject {
                                    error: ProjectErrorV::BlockOptionUnknown {
                                        role: c.role,
                                        sprite: c.sprite,
                                        block_type: s,
                                        got: opt.text@,
                                    },
                                },
                            )
                        }
                    },
                    Option::None => match spec_parse_expr(x.children@[0], c) {
                        Result::Err(e) => Result::Err(e),
                        Result::Ok(index) => Result::Ok(
                            (StmtV::RemoveAt { list, index, comment: cm }, c.locals),
                        ),
                    },
                },
            },
        }
    } else if s == "doInsertInList"@ {
        match spec_comment(x, s, 3, c.role, c.sprite) {
            Result::Err(e) => Result::Err(e),
            Result::Ok(cm) => match spec_parse_expr(x.children@[0], c) {
                Result::Err(e) => Result::Err(e),
                Result::Ok(value) => match spec_parse_expr(x.children@[2], c) {
                    Result::Err(e) => Result::Err(e),
                    Result::Ok(list) => match spec_option_child(x.children@[1]) {
                        Option::Some(opt) => {
                            if opt.text@ == "last"@ {
                                Result::Ok((StmtV::Push { list, value, comment: cm }, c.locals))
                            } else if opt.text@ == "random"@ || opt.text@ == "any"@ {
                                Result::Ok(
                                    (StmtV::InsertAtRand { list, value, comment: cm }, c.locals),
                                )
                            } else if opt.text@ == ""@ {
                                Result::Err(
                                    ErrorV::BlockOptionNotSelected {
                                        role: c.role,
                                        sprite: c.sprite,
                                        block_type: s,
                                    },
                                )
                            } else {
                                Result::Err(
                                    ErrorV::InvalidProject {
                                        error: ProjectErrorV::BlockOptionUnknown {
                                            role: c.role,
                                            sprite: c.sprite,
                                            block_type: s,
                                            got: opt.text@,
                                        },
                                    },
                                )
                            }
                        },
                        // With no position selector, the selector slot holds
                        // the explicit index expression.
                        Option::None => match spec_parse_expr(x.children@[1], c) {
                            Result::Err(e) => Result::Err(e),
                            Result::Ok(index) => Result::Ok(
                                (StmtV::InsertAt { list, value, index, comment: cm }, c.locals),
                            ),
                        },
                    },
                },
            },
        }
    } else if s == "doReplaceInList"@ {
        match spec_comment(x, s, 3, c.role, c.sprite) {
            Result::Err(e) => Result::Err(e),
            Result::Ok(cm) => match spec_parse_expr(x.children@[2], c) {
                Result::Err(e) => Result::Err(e),
                Result::Ok(value) => match spec_parse_expr(x.children@[1], c) {
                    Result::Err(e) => Result::Err(e),
                    Result::Ok(list) => match spec_option_child(x.children@[0]) {
                        Option::Some(opt) => {
                            if opt.text@ == "last"@ {
                                Result::Ok(
                                    (StmtV::LastIndexAssign { list, value, comment: cm }, c.locals),
                                )
                            } else if opt.text@ == "random"@ || opt.text@ == "any"@ {
                                Result::Ok(
                                    (StmtV::RandIndexAssign { list, value, comment: cm }, c.locals),
                                )
                            } else if opt.text@ == ""@ {
                                Result::Err(
                                    ErrorV::BlockOptionNotSelected {
                                        role: c.role,
                                        sprite: c.sprite,
                                        block_type: s,
                                    },
                                )
                            } else {
                                Result::Err(
                                    ErrorV::InvalidProject {
                                        error: ProjectErrorV::BlockOptionUnknown {
                                            role: c.role,
                                            sprite: c.sprite,
                                            block_type: s,
                                            got: opt.text@,
                                        },
                                    },
                                )
                            }
                        },
                        Option::None => match spec_parse_expr(x.children@[0], c) {
                            Result::Err(e) => Result::Err(e),
                            Result::Ok(index) => Result::Ok(
                                (StmtV::IndexAssign { list, value, index, comment: cm }, c.locals),
                            ),
                        },
                    },
                },
            },
        }
    } else if s == "doAddToList"@ {
        match spec_comment(x, s, 2, c.role, c.sprite) {
            Result::Err(e) => Result::Err(e),
            Result::Ok(cm) => match spec_parse_expr(x.children@[0], c) {
                Result::Err(e) => Result::Err(e),
                Result::Ok(value) => match spec_parse_expr(x.children@[1], c) {
                    Result::Err(e) => Result::Err(e),
                    Result::Ok(list) => Result::Ok(
                        (StmtV::Push { list, value, comment: cm }, c.locals),
                    ),
                },
            },
        }
    } else if s == "doReport"@ {
        match spec_comment(x, s, 1, c.role, c.sprite) {
            Result::Err(e) => Result::Err(e),
            Result::Ok(cm) => match spec_parse_expr(x.children@[0], c) {
                Result::Err(e) => Result::Err(e),
                Result::Ok(value) => Result::Ok((StmtV::Return { value, comment: cm }, c.locals)),
            },
        }
    } else if s == "doWait"@ {
        match spec_comment(x, s, 1, c.role, c.sprite) {
            Result::Err(e) => Result::Err(e),
            Result::Ok(cm) => match spec_parse_expr(x.children@[0], c) {
                Result::Err(e) => Result::Err(e),
                Result::Ok(seconds) => Result::Ok(
                    (StmtV::Sleep { seconds, comment: cm }, c.locals),
                ),
            },
        }
    } else {
        Result::Err(ErrorV::UnknownBlockType { role: c.role, sprite: c.sprite, block_type: s })
    }
}

#[via_fn]
proof fn spec_parse_stmt_tagged_dec(
    x: Xml,
    s: Seq<char>,
    c: CtxV,
    tf: spec_fn(Seq<char>) -> Option<Seq<char>>,
) {
    if x.children@.len() >= 1 {
        assert(decreases_to!(x => x.children));
        assert(decreases_to!(x.children => x.children@));
        assert(decreases_to!(x.children@ => x.children@[0]));
        assert(decreases_to!(x.children@[0] => x.children@[0].children));
        assert(decreases_to!(x.children@[0].children => x.children@[0].children@));
        if x.children@.len() >= 2 {
            assert(decreases_to!(x.children@ => x.children@[1]));
        }
        if x.children@.len() >= 3 {
            assert(decreases_to!(x.children@ => x.children@[2]));
        }
        if x.children@.len() >= 4 {
            assert(decreases_to!(x.children@ => x.children@[3]));
        }
    }
}

/// Decoding a statement sequence, threading the local scope through.
pub open spec fn spec_parse_stmts(
    items: Seq<Xml>,
    c: CtxV,
    tf: spec_fn(Seq<char>) -> Option<Seq<char>>,
) -> Result<(Seq<StmtV>, Seq<VariableDefV>), ErrorV>
    decreases items, 19int,
{
    if items.len() == 0 {
        Result::Ok((Seq::empty(), c.locals))
    } else if items[0].name@ != "block"@ {
        Result::Err(
            ErrorV::InvalidProject {
                error: ProjectErrorV::UnknownBlockMetaType {
                    role: c.role,
                    sprite: c.sprite,
                    meta_type: items[0].name@,
                },
            },
        )
    } else {
        match spec_parse_stmt(items[0], c, tf) {
            Result::Err(e) => Result::Err(e),
            Result::Ok(p) => match spec_parse_stmts(
                items.drop_first(),
                CtxV { locals: p.1, ..c },
                tf,
            ) {
                Result::Err(e) => Result::Err(e),
                Result::Ok(q) => Result::Ok((seq![p.0] + q.0, q.1)),
            },
        }
    }
}

/// Decoding one script body: an empty body is an empty script; otherwise the
/// first child is tried as a hat and the rest are block statements.
pub open spec fn spec_parse_script(
    x: Xml,
    c: CtxV,
    tf: spec_fn(Seq<char>) -> Option<Seq<char>>,
) -> Result<(ScriptV, Seq<VariableDefV>), ErrorV>
    decreases x, 20int,
    via spec_parse_script_dec
{
    if x.children@.len() == 0 {
        Result::Ok((ScriptV { hat: Option::None, stmts: Seq::empty() }, c.locals))
    } else {
        match spec_parse_hat(x.children@[0], c) {
            Result::Err(e) => Result::Err(e),
            Result::Ok(hat) => {
                let rest = if hat is Some {
                    x.children@.skip(1)
                } else {
                    x.children@
                };
                match spec_parse_stmts(rest, c, tf) {
                    Result::Err(e) => Result::Err(e),
                    Result::Ok(q) => Result::Ok((ScriptV { hat, stmts: q.0 }, q.1)),
                }
            },
        }
    }
}

#[via_fn]
proof fn spec_parse_script_dec(x: Xml, c: CtxV, tf: spec_fn(Seq<char>) -> Option<Seq<char>>) {
    if x.children@.len() != 0 {
        assert(decreases_to!(x => x.children));
        assert(decreases_to!(x.children => x.children@));
        assert(decreases_to!(x.children@ => x.children@.skip(1))) by {
            assert(x.children@.skip(1) == x.children@.subrange(1, x.children@.len() as int));
        }
    }
}


// --- the executable decoder ---

/// How a symbol-table fault is attributed to a local scope.
pub open spec fn lift_local_symbol_error(
    se: SymbolErrorV,
    role: Seq<char>,
    sprite: Seq<char>,
) -> ErrorV {
    match se {
        SymbolErrorV::NameTransformError { name } => ErrorV::NameTransformError {
            name,
            role: Option::Some(role),
            sprite: Option::Some(sprite),
        },
        SymbolErrorV::ConflictingTrans { trans_name, names } => ErrorV::LocalsWithSameTransName {
            role,
            sprite,
            trans_name,
            names,
        },
    }
}

/// Defines one fresh `Local` bound to numeric zero and hands back the
/// reference that copies the new binding's identity.
fn define_local_ref<T: NameTransformer>(
    scope: &Scope<T>,
    locals: &mut SymbolTable,
    name: String,
) -> (r: Result<VariableRef, Error>)
    requires
        old(locals).wf(tf_of(*scope.transformer)),
    ensures
        final(locals).wf(tf_of(*scope.transformer)),
        ({
            let tf = tf_of(*scope.transformer);
            match spec_define(old(locals).defs(), tf, name@, LiteralV::Number("0"@)) {
                Result::Ok(p) => match r {
                    Result::Ok(vr) => view_varref(vr) == (VariableRefV {
                        name: name@,
                        trans_name: tf(name@)->Some_0,
                        location: VarLocation::Local,
                    }) && final(locals).defs() == p.0,
                    Result::Err(_) => false,
                },
                Result::Err(se) => match r {
                    Result::Err(e) => view_error(e) == lift_local_symbol_error(
                        se,
                        scope.role@,
                        scope.sprite@,
                    ) && final(locals).defs() == old(locals).defs(),
                    Result::Ok(_) => false,
                },
            }
        }),
{
    let ghost tf = tf_of(*scope.transformer);
    let ghost olddefs = locals.defs();
    let name2 = name.clone();
    match locals.define(scope.transformer, name, Literal::Number("0".to_owned())) {
        Result::Err(e) => match e {
            SymbolError::NameTransformError { name } => Result::Err(
                Error::NameTransformError {
                    name,
                    role: Option::Some(scope.role.clone()),
                    sprite: Option::Some(scope.sprite.clone()),
                },
            ),
            SymbolError::ConflictingTrans { trans_name, names } => Result::Err(
                Error::LocalsWithSameTransName {
                    role: scope.role.clone(),
                    sprite: scope.sprite.clone(),
                    trans_name,
                    names,
                },
            ),
        },
        Result::Ok(_prev) => {
            proof {
                lemma_define_preserves_wf(olddefs, tf, name2@, LiteralV::Number("0"@));
            }
            match locals.get(name2.as_str()) {
                Option::Some(d) => Result::Ok(d.ref_at(VarLocation::Local)),
                Option::None => {
                    proof {
                        assert(false);
                    }
                    Result::Ok(
                        VariableRef {
                            name: name2,
                            trans_name: String::new(),
                            location: VarLocation::Local,
                        },
                    )
                },
            }
        },
    }
}

/// Declares every listed name as a fresh `Local` bound to numeric zero.
fn declare_vars<T: NameTransformer>(
    items: &Vec<Xml>,
    scope: &Scope<T>,
    locals: &mut SymbolTable,
) -> (r: Result<Vec<VariableRef>, Error>)
    requires
        scope_wf(*scope, *old(locals)),
    ensures
        final(locals).wf(tf_of(*scope.transformer)),
        ({
            let tf = tf_of(*scope.transformer);
            match r {
                Result::Ok(vars) => spec_declare_vars(
                    items@,
                    old(locals).defs(),
                    tf,
                    scope.role@,
                    scope.sprite@,
                ) == Result::<(Seq<VariableRefV>, Seq<VariableDefV>), ErrorV>::Ok(
                    (view_varrefs(vars@), final(locals).defs()),
                ),
                Result::Err(e) => spec_declare_vars(
                    items@,
                    old(locals).defs(),
                    tf,
                    scope.role@,
                    scope.sprite@,
                ) == Result::<(Seq<VariableRefV>, Seq<VariableDefV>), ErrorV>::Err(view_error(e)),
            }
        }),
{
    let ghost tf = tf_of(*scope.transformer);
    let ghost full = items@;
    let ghost defs0 = locals.defs();
    let mut out: Vec<VariableRef> = Vec::new();
    let mut i: usize = 0;
    proof {
        assert(full.skip(0) =~= full);
        match spec_declare_vars(full, defs0, tf, scope.role@, scope.sprite@) {
            Result::Ok(q) => {
                assert(view_varrefs(out@) + q.0 =~= q.0);
            },
            Result::Err(_) => {},
        }
    }
    while i < items.len()
        invariant
            i <= items@.len(),
            full == items@,
            tf == tf_of(*scope.transformer),
            defs0 == old(locals).defs(),
            locals.wf(tf),
            ({
                match spec_declare_vars(full.skip(i as int), locals.defs(), tf, scope.role@, scope.sprite@) {
                    Result::Ok(q) => spec_declare_vars(full, defs0, tf, scope.role@, scope.sprite@)
                        == Result::<(Seq<VariableRefV>, Seq<VariableDefV>), ErrorV>::Ok(
                        (view_varrefs(out@) + q.0, q.1),
                    ),
                    Result::Err(e) => spec_declare_vars(full, defs0, tf, scope.role@, scope.sprite@)
                        == Result::<(Seq<VariableRefV>, Seq<VariableDefV>), ErrorV>::Err(e),
                }
            }),
        decreases items@.len() - i,
    {
        let ghost prev_out = out@;
        let ghost tail = full.skip(i as int);
        let ghost pre_defs = locals.defs();
        assert(tail[0] == full[i as int]);
        let vr = match define_local_ref(scope, locals, items[i].text.clone()) {
            Result::Ok(vr) => vr,
            Result::Err(e) => {
                proof {
                    let dres = spec_define(pre_defs, tf, tail[0].text@, LiteralV::Number("0"@));
                    match dres {
                        Result::Err(se) => {
                            let lifted = lift_local_symbol_error(se, scope.role@, scope.sprite@);
                            match se {
                                SymbolErrorV::NameTransformError { .. } => {
                                    assert(spec_declare_vars(tail, pre_defs, tf, scope.role@, scope.sprite@)
                                        == Result::<(Seq<VariableRefV>, Seq<VariableDefV>), ErrorV>::Err(lifted));
                                },
                                SymbolErrorV::ConflictingTrans { .. } => {
                                    assert(spec_declare_vars(tail, pre_defs, tf, scope.role@, scope.sprite@)
                                        == Result::<(Seq<VariableRefV>, Seq<VariableDefV>), ErrorV>::Err(lifted));
                                },
                            }
                        },
                        Result::Ok(_) => {
                            assert(false);
                        },
                    }
                }
                return Result::Err(e);
            },
        };
        let ghost vrv = view_varref(vr);
        out.push(vr);
        proof {
            assert(tail.drop_first() =~= full.skip(i + 1));
            assert(view_varrefs(out@) =~= view_varrefs(prev_out).push(vrv)) by {
                assert(forall|k: int| 0 <= k < prev_out.len() ==> out@[k] == prev_out[k]);
            }
            match spec_declare_vars(full.skip(i + 1), locals.defs(), tf, scope.role@, scope.sprite@) {
                Result::Ok(q2) => {
                    assert(view_varrefs(prev_out) + (seq![vrv] + q2.0) =~= view_varrefs(out@)
                        + q2.0);
                },
                Result::Err(_) => {},
            }
        }
        i = i + 1;
    }
    proof {
        assert(full.skip(i as int) =~= Seq::<Xml>::empty());
        match spec_declare_vars(full.skip(i as int), locals.defs(), tf, scope.role@, scope.sprite@) {
            Result::Ok(q) => {
                assert(view_varrefs(out@) + q.0 =~= view_varrefs(out@));
            },
            Result::Err(_) => {},
        }
    }
    Result::Ok(out)
}

/// Decodes the optional event hat of a script.
pub fn parse_hat<T: NameTransformer>(x: &Xml, scope: &Scope<T>, locals: &SymbolTable) -> (r: Result<Option<Hat>, Error>)
    requires
        scope_wf(*scope, *locals),
    ensures
        ({
            let c = ctx_of(*scope, *locals);
            match r {
                Result::Ok(h) => spec_parse_hat(*x, c) == Result::<Option<HatV>, ErrorV>::Ok(
                    view_opt_hat(h),
                ),
                Result::Err(e) => spec_parse_hat(*x, c) == Result::<Option<HatV>, ErrorV>::Err(
                    view_error(e),
                ),
            }
        }),
{
    let ghost c = ctx_of(*scope, *locals);
    match x.attr("s") {
        Option::None => Result::Err(
            Error::InvalidProject {
                error: ProjectError::BlockWithoutType {
                    role: scope.role.clone(),
                    sprite: scope.sprite.clone(),
                },
            },
        ),
        Option::Some(a) => {
            if str_eq(a.value.as_str(), "receiveGo") {
                let cm = block_comment(x, scope.role, scope.sprite, a.value.as_str(), 0)?;
                Result::Ok(Option::Some(Hat::OnFlag { comment: cm }))
            } else if str_eq(a.value.as_str(), "receiveKey") {
                let cm = block_comment(x, scope.role, scope.sprite, a.value.as_str(), 1)?;
                match option_child(&x.children[0]) {
                    Option::None => Result::Err(
                        Error::InvalidProject {
                            error: ProjectError::BlockMissingOption {
                                role: scope.role.clone(),
                                sprite: scope.sprite.clone(),
                                block_type: a.value.clone(),
                            },
                        },
                    ),
                    Option::Some(k) => {
                        if k.children.len() != 0 {
                            Result::Err(
                                Error::BlockOptionNotConst {
                                    role: scope.role.clone(),
                                    sprite: scope.sprite.clone(),
                                    block_type: a.value.clone(),
                                },
                            )
                        } else if str_eq(k.text.as_str(), "") {
                            Result::Err(
                                Error::BlockOptionNotSelected {
                                    role: scope.role.clone(),
                                    sprite: scope.sprite.clone(),
                                    block_type: a.value.clone(),
                                },
                            )
                        } else {
                            Result::Ok(
                                Option::Some(Hat::OnKey { key: k.text.clone(), comment: cm }),
                            )
                        }
                    },
                }
            } else {
                Result::Ok(Option::None)
            }
        },
    }
}


/// The tag is none of this statement dispatch group.
pub open spec fn past_stmt_a(s: Seq<char>) -> bool {
    &&& s != "doDeclareVariables"@
    &&& s != "doSetVar"@
    &&& s != "doChangeVar"@
}

/// The tag is none of this statement dispatch group.
pub open spec fn past_stmt_b(s: Seq<char>) -> bool {
    &&& s != "doFor"@
    &&& s != "doForEach"@
}

/// The tag is none of this statement dispatch group.
pub open spec fn past_stmt_c(s: Seq<char>) -> bool {
    &&& s != "doRepeat"@
    &&& s != "doUntil"@
    &&& s != "doIf"@
    &&& s != "doForever"@
}

/// The tag is none of this statement dispatch group.
pub open spec fn past_stmt_d(s: Seq<char>) -> bool {
    &&& s != "doIfElse"@
    &&& s != "doWarp"@
}

/// The tag is none of this statement dispatch group.
pub open spec fn past_stmt_e(s: Seq<char>) -> bool {
    &&& s != "doDeleteFromList"@
    &&& s != "doInsertInList"@
}

/// Decodes one block statement, reading its type tag.
pub fn parse_stmt<T: NameTransformer>(x: &Xml, scope: &Scope<T>, locals: &mut SymbolTable) -> (r: Result<Stmt, Error>)
    requires
        scope_wf(*scope, *old(locals)),
    ensures
        final(locals).wf(tf_of(*scope.transformer)),
        ({
            let c0 = ctx_of(*scope, *old(locals));
            let tf = tf_of(*scope.transformer);
            match r {
                Result::Ok(st) => spec_parse_stmt(*x, c0, tf) == Result::<(StmtV, Seq<VariableDefV>), ErrorV>::Ok((view_stmt(st), final(locals).defs())),
                Result::Err(e) => spec_parse_stmt(*x, c0, tf) == Result::<(StmtV, Seq<VariableDefV>), ErrorV>::Err(view_error(e)),
            }
        }),
    decreases *x, 28int,
{
    match x.attr("s") {
        Option::None => Result::Err(
            Error::InvalidProject {
                error: ProjectError::BlockWithoutType {
                    role: scope.role.clone(),
                    sprite: scope.sprite.clone(),
                },
            },
        ),
        Option::Some(a) => parse_stmt_tagged(x, a.value.as_str(), scope, locals),
    }
}

/// One group of the statement dispatch.
#[verifier::rlimit(100)]
#[verifier::spinoff_prover]
fn parse_stmt_tagged<T: NameTransformer>(
    x: &Xml,
    s: &str,
    scope: &Scope<T>,
    locals: &mut SymbolTable,
) -> (r: Result<Stmt, Error>)
    requires
        scope_wf(*scope, *old(locals)),
    ensures
        final(locals).wf(tf_of(*scope.transformer)),
        ({
            let c0 = ctx_of(*scope, *old(locals));
            let tf = tf_of(*scope.transformer);
            match r {
                Result::Ok(st) => spec_parse_stmt_tagged(*x, s@, c0, tf) == Result::<(StmtV, Seq<VariableDefV>), ErrorV>::Ok((view_stmt(st), final(locals).defs())),
                Result::Err(e) => spec_parse_stmt_tagged(*x, s@, c0, tf) == Result::<(StmtV, Seq<VariableDefV>), ErrorV>::Err(view_error(e)),
            }
        }),
    decreases *x, 27int,
{
    let ghost c0 = ctx_of(*scope, *old(locals));
    let ghost tf = tf_of(*scope.transformer);
    if str_eq(s, "doDeclareVariables") {
        let cm = block_comment(x, scope.role, scope.sprite, s, 1)?;
        let vars = declare_vars(&x.children[0].children, scope, locals)?;
        let ghost cmv = opt_text(cm);
        let ghost vv = view_varrefs(vars@);
        let zero = Expr::Value(Literal::Number("0".to_owned()));
        proof {
            assert(view_expr(zero) == num_lit("0"@));
        }
        let res = Stmt::Assign { vars, value: zero, comment: cm };
        proof {
            assert(view_stmt(res) == (StmtV::Assign { vars: vv, value: num_lit("0"@), comment: cmv }));
        }
        Result::Ok(res)
    } else if str_eq(s, "doSetVar") || str_eq(s, "doChangeVar") {
        let cm = block_comment(x, scope.role, scope.sprite, s, 2)?;
        if !str_eq(x.children[0].name.as_str(), "l") {
            return Result::Err(
                Error::DerefAssignment { role: scope.role.clone(), sprite: scope.sprite.clone() },
            );
        }
        let vr = reference_var(scope, locals, x.children[0].text.clone())?;
        proof {
            lemma_xml_child_smaller(*x, 1);
        }
        let value = parse_expr(&x.children[1], scope, locals)?;
        if str_eq(s, "doSetVar") {
            let ghost vrv = view_varref(vr);
            let mut vars: Vec<VariableRef> = Vec::new();
            vars.push(vr);
            proof {
                assert(view_varrefs(vars@) =~= seq![vrv]);
            }
            Result::Ok(Stmt::Assign { vars, value, comment: cm })
        } else {
            Result::Ok(Stmt::AddAssign { var: vr, value, comment: cm })
        }
    } else {
        parse_stmt_b(x, s, scope, locals)
    }
}

/// One group of the statement dispatch.
#[verifier::rlimit(100)]
#[verifier::spinoff_prover]
fn parse_stmt_b<T: NameTransformer>(
    x: &Xml,
    s: &str,
    scope: &Scope<T>,
    locals: &mut SymbolTable,
) -> (r: Result<Stmt, Error>)
    requires
        scope_wf(*scope, *old(locals)),
        past_stmt_a(s@),
    ensures
        final(locals).wf(tf_of(*scope.transformer)),
        ({
            let c0 = ctx_of(*scope, *old(locals));
            let tf = tf_of(*scope.transformer);
            match r {
                Result::Ok(st) => spec_parse_stmt_tagged(*x, s@, c0, tf) == Result::<(StmtV, Seq<VariableDefV>), ErrorV>::Ok((view_stmt(st), final(locals).defs())),
                Result::Err(e) => spec_parse_stmt_tagged(*x, s@, c0, tf) == Result::<(StmtV, Seq<VariableDefV>), ErrorV>::Err(view_error(e)),
            }
        }),
    decreases *x, 26int,
{
    let ghost c0 = ctx_of(*scope, *old(locals));
    let ghost tf = tf_of(*scope.transformer);
    if str_eq(s, "doFor") {
        let cm = block_comment(x, scope.role, scope.sprite, s, 4)?;
        if !str_eq(x.children[0].name.as_str(), "l") {
            return Result::Err(
                Error::InvalidProject {
                    error: ProjectError::NonConstantUpvar {
                        role: scope.role.clone(),
                        sprite: scope.sprite.clone(),
                        block_type: s.to_owned(),
                    },
                },
            );
        }
        proof {
            lemma_xml_child_smaller(*x, 1);
            lemma_xml_child_smaller(*x, 2);
            lemma_xml_child_smaller(*x, 3);
        }
        let name = x.children[0].text.clone();
        let first = parse_expr(&x.children[1], scope, locals)?;
        let last = parse_expr(&x.children[2], scope, locals)?;
        let ghost pre_defs = locals.defs();
        let vr = match define_local_ref(scope, locals, name) {
            Result::Ok(vr) => vr,
            Result::Err(e) => {
                proof {
                    let dres = spec_define(pre_defs, tf, x.children@[0].text@, LiteralV::Number("0"@));
                    match dres {
                        Result::Err(se) => {
                            match se {
                                SymbolErrorV::NameTransformError { .. } => {
                                    assert(view_error(e) == lift_local_symbol_error(se, scope.role@, scope.sprite@));
                                },
                                SymbolErrorV::ConflictingTrans { .. } => {
                                    assert(view_error(e) == lift_local_symbol_error(se, scope.role@, scope.sprite@));
                                },
                            }
                        },
                        Result::Ok(_) => {
                            assert(false);
                        },
                    }
                }
                return Result::Err(e);
            },
        };
        let body = parse_script(&x.children[3], scope, locals)?;
        Result::Ok(Stmt::ForLoop { var: vr, first, last, stmts: body.stmts, comment: cm })
    } else if str_eq(s, "doForEach") {
        let cm = block_comment(x, scope.role, scope.sprite, s, 3)?;
        if !str_eq(x.children[0].name.as_str(), "l") {
            return Result::Err(
                Error::InvalidProject {
                    error: ProjectError::NonConstantUpvar {
                        role: scope.role.clone(),
                        sprite: scope.sprite.clone(),
                        block_type: s.to_owned(),
                    },
                },
            );
        }
        proof {
            lemma_xml_child_smaller(*x, 1);
            lemma_xml_child_smaller(*x, 2);
        }
        let name = x.children[0].text.clone();
        let items = parse_expr(&x.children[1], scope, locals)?;
        let ghost pre_defs = locals.defs();
        let vr = match define_local_ref(scope, locals, name) {
            Result::Ok(vr) => vr,
            Result::Err(e) => {
                proof {
                    let dres = spec_define(pre_defs, tf, x.children@[0].text@, LiteralV::Number("0"@));
                    match dres {
                        Result::Err(se) => {
                            match se {
                                SymbolErrorV::NameTransformError { .. } => {
                                    assert(view_error(e) == lift_local_symbol_error(se, scope.role@, scope.sprite@));
                                },
                                SymbolErrorV::ConflictingTrans { .. } => {
                                    assert(view_error(e) == lift_local_symbol_error(se, scope.role@, scope.sprite@));
                                },
                            }
                        },
                        Result::Ok(_) => {
                            assert(false);
                        },
                    }
                }
                return Result::Err(e);
            },
        };
        let body = parse_script(&x.children[2], scope, locals)?;
        Result::Ok(Stmt::ForeachLoop { var: vr, items, stmts: body.stmts, comment: cm })
    } else {
        parse_stmt_c(x, s, scope, locals)
    }
}

/// One group of the statement dispatch.
#[verifier::rlimit(100)]
#[verifier::spinoff_prover]
fn parse_stmt_c<T: NameTransformer>(
    x: &Xml,
    s: &str,
    scope: &Scope<T>,
    locals: &mut SymbolTable,
) -> (r: Result<Stmt, Error>)
    requires
        scope_wf(*scope, *old(locals)),
        past_stmt_a(s@),
        past_stmt_b(s@),
    ensures
        final(locals).wf(tf_of(*scope.transformer)),
        ({
            let c0 = ctx_of(*scope, *old(locals));
            let tf = tf_of(*scope.transformer);
            match r {
                Result::Ok(st) => spec_parse_stmt_tagged(*x, s@, c0, tf) == Result::<(StmtV, Seq<VariableDefV>), ErrorV>::Ok((view_stmt(st), final(locals).defs())),
                Result::Err(e) => spec_parse_stmt_tagged(*x, s@, c0, tf) == Result::<(StmtV, Seq<VariableDefV>), ErrorV>::Err(view_error(e)),
            }
        }),
    decreases *x, 25int,
{
    let ghost c0 = ctx_of(*scope, *old(locals));
    let ghost tf = tf_of(*scope.transformer);
    if str_eq(s, "doRepeat") || str_eq(s, "doUntil") || str_eq(s, "doIf") {
        let cm = block_comment(x, scope.role, scope.sprite, s, 2)?;
        proof {
            lemma_xml_child_smaller(*x, 0);
            lemma_xml_child_smaller(*x, 1);
        }
        let cond = parse_expr(&x.children[0], scope, locals)?;
        let body = parse_script(&x.children[1], scope, locals)?;
        if str_eq(s, "doRepeat") {
            Result::Ok(Stmt::Repeat { times: cond, stmts: body.stmts, comment: cm })
        } else if str_eq(s, "doUntil") {
            Result::Ok(Stmt::UntilLoop { condition: cond, stmts: body.stmts, comment: cm })
        } else {
            Result::Ok(Stmt::If { condition: cond, then: body.stmts, comment: cm })
        }
    } else if str_eq(s, "doForever") {
        let cm = block_comment(x, scope.role, scope.sprite, s, 1)?;
        proof {
            lemma_xml_child_smaller(*x, 0);
        }
        let body = parse_script(&x.children[0], scope, locals)?;
        Result::Ok(Stmt::InfLoop { stmts: body.stmts, comment: cm })
    } else {
        parse_stmt_d(x, s, scope, locals)
    }
}

/// One group of the statement dispatch.
#[verifier::rlimit(100)]
#[verifier::spinoff_prover]
fn parse_stmt_d<T: NameTransformer>(
    x: &Xml,
    s: &str,
    scope: &Scope<T>,
    locals: &mut SymbolTable,
) -> (r: Result<Stmt, Error>)
    requires
        scope_wf(*scope, *old(locals)),
        past_stmt_a(s@),
        past_stmt_b(s@),
        past_stmt_c(s@),
    ensures
        final(locals).wf(tf_of(*scope.transformer)),
        ({
            let c0 = ctx_of(*scope, *old(locals));
            let tf = tf_of(*scope.transformer);
            match r {
                Result::Ok(st) => spec_parse_stmt_tagged(*x, s@, c0, tf) == Result::<(StmtV, Seq<VariableDefV>), ErrorV>::Ok((view_stmt(st), final(locals).defs())),
                Result::Err(e) => spec_parse_stmt_tagged(*x, s@, c0, tf) == Result::<(StmtV, Seq<VariableDefV>), ErrorV>::Err(view_error(e)),
            }
        }),
    decreases *x, 24int,
{
    let ghost c0 = ctx_of(*scope, *old(locals));
    let ghost tf = tf_of(*scope.transformer);
    if str_eq(s, "doIfElse") {
        let cm = block_comment(x, scope.role, scope.sprite, s, 3)?;
        proof {
            lemma_xml_child_smaller(*x, 0);
            lemma_xml_child_smaller(*x, 1);
            lemma_xml_child_smaller(*x, 2);
        }
        let cond = parse_expr(&x.children[0], scope, locals)?;
        let then_body = parse_script(&x.children[1], scope, locals)?;
        let else_body = parse_script(&x.children[2], scope, locals)?;
        Result::Ok(
            Stmt::IfElse {
                condition: cond,
                then: then_body.stmts,
                otherwise: else_body.stmts,
                comment: cm,
            },
        )
    } else if str_eq(s, "doWarp") {
        let cm = block_comment(x, scope.role, scope.sprite, s, 1)?;
        proof {
            lemma_xml_child_smaller(*x, 0);
        }
        let body = parse_script(&x.children[0], scope, locals)?;
        Result::Ok(Stmt::Warp { stmts: body.stmts, comment: cm })
    } else {
        parse_stmt_e(x, s, scope, locals)
    }
}

/// One group of the statement dispatch.
#[verifier::rlimit(100)]
#[verifier::spinoff_prover]
fn parse_stmt_e<T: NameTransformer>(
    x: &Xml,
    s: &str,
    scope: &Scope<T>,
    locals: &mut SymbolTable,
) -> (r: Result<Stmt, Error>)
    requires
        scope_wf(*scope, *old(locals)),
        past_stmt_a(s@),
        past_stmt_b(s@),
        past_stmt_c(s@),
        past_stmt_d(s@),
    ensures
        final(locals).wf(tf_of(*scope.transformer)),
        ({
            let c0 = ctx_of(*scope, *old(locals));
            let tf = tf_of(*scope.transformer);
            match r {
                Result::Ok(st) => spec_parse_stmt_tagged(*x, s@, c0, tf) == Result::<(StmtV, Seq<VariableDefV>), ErrorV>::Ok((view_stmt(st), final(locals).defs())),
                Result::Err(e) => spec_parse_stmt_tagged(*x, s@, c0, tf) == Result::<(StmtV, Seq<VariableDefV>), ErrorV>::Err(view_error(e)),
            }
        }),
    decreases *x, 23int,
{
    let ghost c0 = ctx_of(*scope, *old(locals));
    let ghost tf = tf_of(*scope.transformer);
    if str_eq(s, "doDeleteFromList") {
        let cm = block_comment(x, scope.role, scope.sprite, s, 2)?;
        proof {
            lemma_xml_child_smaller(*x, 0);
            lemma_xml_child_smaller(*x, 1);
        }
        let list = parse_expr(&x.children[1], scope, locals)?;
        match option_child(&x.children[0]) {
            Option::Some(opt) => {
                if str_eq(opt.text.as_str(), "last") {
                    Result::Ok(Stmt::Pop { list, comment: cm })
                } else if str_eq(opt.text.as_str(), "all") {
                    Result::Ok(Stmt::RemoveAll { list, comment: cm })
                } else if str_eq(opt.text.as_str(), "") {
                    Result::Err(
                        Error::BlockOptionNotSelected {
                            role: scope.role.clone(),
                            sprite: scope.sprite.clone(),
                            block_type: s.to_owned(),
                        },
                    )
                } else {
                    Result::Err(
                        Error::InvalidProject {
                            error: ProjectError::BlockOptionUnknown {
                                role: scope.role.clone(),
                                sprite: scope.sprite.clone(),
                                block_type: s.to_owned(),
                                got: opt.text.clone(),
                            },
                        },
                    )
                }
            },
            Option::None => {
                let index = parse_expr(&x.children[0], scope, locals)?;
                Result::Ok(Stmt::RemoveAt { list, index, comment: cm })
            },
        }
    } else if str_eq(s, "doInsertInList") {
        let cm = block_comment(x, scope.role, scope.sprite, s, 3)?;
        proof {
            lemma_xml_child_smaller(*x, 0);
            lemma_xml_child_smaller(*x, 1);
            lemma_xml_child_smaller(*x, 2);
        }
        let value = parse_expr(&x.children[0], scope, locals)?;
        let list = parse_expr(&x.children[2], scope, locals)?;
        match option_child(&x.children[1]) {
            Option::Some(opt) => {
                if str_eq(opt.text.as_str(), "last") {
                    Result::Ok(Stmt::Push { list, value, comment: cm })
                } else if str_eq(opt.text.as_str(), "random") || str_eq(opt.text.as_str(), "any") {
                    Result::Ok(Stmt::InsertAtRand { list, value, comment: cm })
                } else if str_eq(opt.text.as_str(), "") {
                    Result::Err(
                        Error::BlockOptionNotSelected {
                            role: scope.role.clone(),
                            sprite: scope.sprite.clone(),
                            block_type: s.to_owned(),
                        },
                    )
                } else {
                    Result::Err(
                        Error::InvalidProject {
                            error: ProjectError::BlockOptionUnknown {
                                role: scope.role.clone(),
                                sprite: scope.sprite.clone(),
                                block_type: s.to_owned(),
                                got: opt.text.clone(),
                            },
                        },
                    )
                }
            },
            // With no position selector, the selector slot holds the
            // explicit index expression.
            Option::None => {
                let index = parse_expr(&x.children[1], scope, locals)?;
                Result::Ok(Stmt::InsertAt { list, value, index, comment: cm })
            },
        }
    } else {
        parse_stmt_f(x, s, scope, locals)
    }
}

/// One group of the statement dispatch.
#[verifier::rlimit(100)]
#[verifier::spinoff_prover]
fn parse_stmt_f<T: NameTransformer>(
    x: &Xml,
    s: &str,
    scope: &Scope<T>,
    locals: &mut SymbolTable,
) -> (r: Result<Stmt, Error>)
    requires
        scope_wf(*scope, *old(locals)),
        past_stmt_a(s@),
        past_stmt_b(s@),
        past_stmt_c(s@),
        past_stmt_d(s@),
        past_stmt_e(s@),
    ensures
        final(locals).wf(tf_of(*scope.transformer)),
        ({
            let c0 = ctx_of(*scope, *old(locals));
            let tf = tf_of(*scope.transformer);
            match r {
                Result::Ok(st) => spec_parse_stmt_tagged(*x, s@, c0, tf) == Result::<(StmtV, Seq<VariableDefV>), ErrorV>::Ok((view_stmt(st), final(locals).defs())),
                Result::Err(e) => spec_parse_stmt_tagged(*x, s@, c0, tf) == Result::<(StmtV, Seq<VariableDefV>), ErrorV>::Err(view_error(e)),
            }
        }),
    decreases *x, 22int,
{
    let ghost c0 = ctx_of(*scope, *old(locals));
    let ghost tf = tf_of(*scope.transformer);
    if str_eq(s, "doReplaceInList") {
        let cm = block_comment(x, scope.role, scope.sprite, s, 3)?;
        proof {
            lemma_xml_child_smaller(*x, 0);
            lemma_xml_child_smaller(*x, 1);
            lemma_xml_child_smaller(*x, 2);
        }
        let value = parse_expr(&x.children[2], scope, locals)?;
        let list = parse_expr(&x.children[1], scope, locals)?;
        match option_child(&x.children[0]) {
            Option::Some(opt) => {
                if str_eq(opt.text.as_str(), "last") {
                    Result::Ok(Stmt::LastIndexAssign { list, value, comment: cm })
                } else if str_eq(opt.text.as_str(), "random") || str_eq(opt.text.as_str(), "any") {
                    Result::Ok(Stmt::RandIndexAssign { list, value, comment: cm })
                } else if str_eq(opt.text.as_str(), "") {
                    Result::Err(
                        Error::BlockOptionNotSelected {
                            role: scope.role.clone(),
                            sprite: scope.sprite.clone(),
                            block_type: s.to_owned(),
                        },
                    )
                } else {
                    Result::Err(
                        Error::InvalidProject {
                            error: ProjectError::BlockOptionUnknown {
                                role: scope.role.clone(),
                                sprite: scope.sprite.clone(),
                                block_type: s.to_owned(),
                                got: opt.text.clone(),
                            },
                        },
                    )
                }
            },
            Option::None => {
                let index = parse_expr(&x.children[0], scope, locals)?;
                Result::Ok(Stmt::IndexAssign { list, value, index, comment: cm })
            },
        }
    } else if str_eq(s, "doAddToList") {
        let cm = block_comment(x, scope.role, scope.sprite, s, 2)?;
        proof {
            lemma_xml_child_smaller(*x, 0);
            lemma_xml_child_smaller(*x, 1);
        }
        let value = parse_expr(&x.children[0], scope, locals)?;
        let list = parse_expr(&x.children[1], scope, locals)?;
        Result::Ok(Stmt::Push { list, value, comment: cm })
    } else if str_eq(s, "doReport") {
        let cm = block_comment(x, scope.role, scope.sprite, s, 1)?;
        proof {
            lemma_xml_child_smaller(*x, 0);
        }
        let value = parse_expr(&x.children[0], scope, locals)?;
        Result::Ok(Stmt::Return { value, comment: cm })
    } else if str_eq(s, "doWait") {
        let cm = block_comment(x, scope.role, scope.sprite, s, 1)?;
        proof {
            lemma_xml_child_smaller(*x, 0);
        }
        let seconds = parse_expr(&x.children[0], scope, locals)?;
        Result::Ok(Stmt::Sleep { seconds, comment: cm })
    } else {
        Result::Err(
            Error::UnknownBlockType {
                role: scope.role.clone(),
                sprite: scope.sprite.clone(),
                block_type: s.to_owned(),
            },
        )
    }
}

/// Decodes the statements of a script body from `start` on, threading the
/// local scope through.
fn parse_stmts_from<T: NameTransformer>(
    items: &Vec<Xml>,
    start: usize,
    scope: &Scope<T>,
    locals: &mut SymbolTable,
) -> (r: Result<Vec<Stmt>, Error>)
    requires
        scope_wf(*scope, *old(locals)),
        start <= items@.len(),
    ensures
        final(locals).wf(tf_of(*scope.transformer)),
        ({
            let c0 = ctx_of(*scope, *old(locals));
            let tf = tf_of(*scope.transformer);
            match r {
                Result::Ok(sts) => spec_parse_stmts(items@.skip(start as int), c0, tf) == Result::<(Seq<StmtV>, Seq<VariableDefV>), ErrorV>::Ok((view_stmts(sts@), final(locals).defs())),
                Result::Err(e) => spec_parse_stmts(items@.skip(start as int), c0, tf) == Result::<(Seq<StmtV>, Seq<VariableDefV>), ErrorV>::Err(view_error(e)),
            }
        }),
    decreases items@, 29int,
{
    let ghost c0 = ctx_of(*scope, *old(locals));
    let ghost tf = tf_of(*scope.transformer);
    let ghost full = items@;
    let mut out: Vec<Stmt> = Vec::new();
    let mut i: usize = start;
    proof {
        match spec_parse_stmts(full.skip(start as int), c0, tf) {
            Result::Ok(q) => {
                assert(view_stmts(out@) + q.0 =~= q.0);
            },
            Result::Err(_) => {},
        }
    }
    while i < items.len()
        invariant
            start <= i <= items@.len(),
            full == items@,
            tf == tf_of(*scope.transformer),
            c0 == ctx_of(*scope, *old(locals)),
            c0.role == scope.role@,
            c0.sprite == scope.sprite@,
            c0.globals == scope.globals.defs(),
            c0.fields == scope.fields.defs(),
            scope_wf(*scope, *locals),
            ({
                match spec_parse_stmts(full.skip(i as int), CtxV { locals: locals.defs(), ..c0 }, tf) {
                    Result::Ok(q) => spec_parse_stmts(full.skip(start as int), c0, tf) == Result::<(Seq<StmtV>, Seq<VariableDefV>), ErrorV>::Ok((view_stmts(out@) + q.0, q.1)),
                    Result::Err(e) => spec_parse_stmts(full.skip(start as int), c0, tf) == Result::<(Seq<StmtV>, Seq<VariableDefV>), ErrorV>::Err(e),
                }
            }),
        decreases items@.len() - i,
    {
        let ghost prev_out = out@;
        let ghost tail = full.skip(i as int);
        let ghost cur_ctx = CtxV { locals: locals.defs(), ..c0 };
        assert(tail[0] == full[i as int]);
        if !str_eq(items[i].name.as_str(), "block") {
            return Result::Err(
                Error::InvalidProject {
                    error: ProjectError::UnknownBlockMetaType {
                        role: scope.role.clone(),
                        sprite: scope.sprite.clone(),
                        meta_type: items[i].name.clone(),
                    },
                },
            );
        }
        proof {
            assert(decreases_to!(full => full[i as int]));
            assert(ctx_of(*scope, *locals) == cur_ctx);
        }
        match parse_stmt(&items[i], scope, locals) {
            Result::Ok(st) => {
                let ghost stv = view_stmt(st);
                out.push(st);
                proof {
                    assert(tail.drop_first() =~= full.skip(i + 1));
                    assert(view_stmts(out@) =~= view_stmts(prev_out).push(stv)) by {
                        lemma_view_stmts(prev_out);
                        lemma_view_stmts(out@);
                        assert(forall|k: int| 0 <= k < prev_out.len() ==> out@[k] == prev_out[k]);
                    }
                    match spec_parse_stmts(full.skip(i + 1), CtxV { locals: locals.defs(), ..c0 }, tf) {
                        Result::Ok(q2) => {
                            assert(view_stmts(prev_out) + (seq![stv] + q2.0) =~= view_stmts(out@)
                                + q2.0);
                        },
                        Result::Err(_) => {},
                    }
                }
                i = i + 1;
            },
            Result::Err(e) => {
                return Result::Err(e);
            },
        }
    }
    proof {
        assert(full.skip(i as int) =~= Seq::<Xml>::empty());
        match spec_parse_stmts(full.skip(i as int), CtxV { locals: locals.defs(), ..c0 }, tf) {
            Result::Ok(q) => {
                assert(view_stmts(out@) + q.0 =~= view_stmts(out@));
            },
            Result::Err(_) => {},
        }
    }
    Result::Ok(out)
}

/// Decodes one script body: an optional leading hat, then block statements.
pub fn parse_script<T: NameTransformer>(x: &Xml, scope: &Scope<T>, locals: &mut SymbolTable) -> (r: Result<Script, Error>)
    requires
        scope_wf(*scope, *old(locals)),
    ensures
        final(locals).wf(tf_of(*scope.transformer)),
        ({
            let c0 = ctx_of(*scope, *old(locals));
            let tf = tf_of(*scope.transformer);
            match r {
                Result::Ok(sc) => spec_parse_script(*x, c0, tf) == Result::<(ScriptV, Seq<VariableDefV>), ErrorV>::Ok((view_script(sc), final(locals).defs())),
                Result::Err(e) => spec_parse_script(*x, c0, tf) == Result::<(ScriptV, Seq<VariableDefV>), ErrorV>::Err(view_error(e)),
            }
        }),
    decreases *x, 30int,
{
    let ghost c0 = ctx_of(*scope, *old(locals));
    let ghost tf = tf_of(*scope.transformer);
    if x.children.len() == 0 {
        let sts: Vec<Stmt> = Vec::new();
        proof {
            assert(view_stmts(sts@) =~= Seq::<StmtV>::empty());
        }
        return Result::Ok(Script { hat: Option::None, stmts: sts });
    }
    let hat = parse_hat(&x.children[0], scope, locals)?;
    let start: usize = if hat.is_some() {
        1
    } else {
        0
    };
    proof {
        assert(decreases_to!(*x => x.children));
        assert(decreases_to!(x.children => x.children@));
        if start == 0 {
            assert(x.children@.skip(0) =~= x.children@);
        }
    }
    let sts = parse_stmts_from(&x.children, start, scope, locals)?;
    Result::Ok(Script { hat, stmts: sts })
}

/// The required child count of each statement tag, before the optional
/// trailing comment child.
pub open spec fn stmt_block_arity(s: Seq<char>) -> Option<usize> {
    if s == "doDeclareVariables"@ {
        Option::Some(1usize)
    } else if s == "doSetVar"@ || s == "doChangeVar"@ {
        Option::Some(2usize)
    } else if s == "doFor"@ {
        Option::Some(4usize)
    } else if s == "doForEach"@ {
        Option::Some(3usize)
    } else if s == "doRepeat"@ || s == "doUntil"@ || s == "doIf"@ {
        Option::Some(2usize)
    } else if s == "doForever"@ {
        Option::Some(1usize)
    } else if s == "doIfElse"@ {
        Option::Some(3usize)
    } else if s == "doWarp"@ {
        Option::Some(1usize)
    } else if s == "doDeleteFromList"@ {
        Option::Some(2usize)
    } else if s == "doInsertInList"@ {
        Option::Some(3usize)
    } else if s == "doReplaceInList"@ {
        Option::Some(3usize)
    } else if s == "doAddToList"@ {
        Option::Some(2usize)
    } else if s == "doReport"@ {
        Option::Some(1usize)
    } else if s == "doWait"@ {
        Option::Some(1usize)
    } else {
        Option::None
    }
}

/// Supplying a statement block with fewer children than its shape needs
/// fails with the arity error carrying exactly the required count and the
/// supplied count, whatever the tag.
#[verifier::rlimit(100)]
#[verifier::spinoff_prover]
pub proof fn lemma_stmt_arity_error(
    x: Xml,
    s: Seq<char>,
    c: CtxV,
    tf: spec_fn(Seq<char>) -> Option<Seq<char>>,
)
    requires
        stmt_block_arity(s) is Some,
        x.children@.len() < stmt_block_arity(s)->Some_0,
    ensures
        spec_parse_stmt_tagged(x, s, c, tf) == Result::<(StmtV, Seq<VariableDefV>), ErrorV>::Err(
            ErrorV::InvalidProject {
                error: ProjectErrorV::BlockChildCount {
                    role: c.role,
                    sprite: c.sprite,
                    block_type: s,
                    needed: stmt_block_arity(s)->Some_0,
                    got: x.children@.len() as usize,
                },
            },
        ),
{
    let target = Result::<(StmtV, Seq<VariableDefV>), ErrorV>::Err(
        ErrorV::InvalidProject {
            error: ProjectErrorV::BlockChildCount {
                role: c.role,
                sprite: c.sprite,
                block_type: s,
                needed: stmt_block_arity(s)->Some_0,
                got: x.children@.len() as usize,
            },
        },
    );
    if s == "doDeclareVariables"@ {
        assert(spec_parse_stmt_tagged(x, s, c, tf) == target);
    } else if s == "doSetVar"@ || s == "doChangeVar"@ {
        assert(spec_parse_stmt_tagged(x, s, c, tf) == target);
    } else if s == "doFor"@ {
        assert(spec_parse_stmt_tagged(x, s, c, tf) == target);
    } else if s == "doForEach"@ {
        assert(spec_parse_stmt_tagged(x, s, c, tf) == target);
    } else if s == "doRepeat"@ || s == "doUntil"@ || s == "doIf"@ {
        assert(spec_parse_stmt_tagged(x, s, c, tf) == target);
    } else if s == "doForever"@ {
        assert(spec_parse_stmt_tagged(x, s, c, tf) == target);
    } else if s == "doIfElse"@ {
        assert(spec_parse_stmt_tagged(x, s, c, tf) == target);
    } else if s == "doWarp"@ {
        assert(spec_parse_stmt_tagged(x, s, c, tf) == target);
    } else if s == "doDeleteFromList"@ {
        assert(spec_parse_stmt_tagged(x, s, c, tf) == target);
    } else if s == "doInsertInList"@ {
        assert(spec_parse_stmt_tagged(x, s, c, tf) == target);
    } else if s == "doReplaceInList"@ {
        assert(spec_parse_stmt_tagged(x, s, c, tf) == target);
    } else if s == "doAddToList"@ {
        assert(spec_parse_stmt_tagged(x, s, c, tf) == target);
    } else if s == "doReport"@ {
        assert(spec_parse_stmt_tagged(x, s, c, tf) == target);
    } else if s == "doWait"@ {
        assert(spec_parse_stmt_tagged(x, s, c, tf) == target);
    } else {
        assert(false);
    }
}

} // verus!

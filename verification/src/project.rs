//! Sprite, role and project resolution: fields and globals are built from
//! declared variables whose initializers must reduce to literals, scripts
//! are decoded with definition stubs filtered out, and the project gathers
//! every role found under the first `room` element of the document tree.

use vstd::prelude::*;
use crate::ast::{Expr, Literal, LiteralV, Project, ProjectV, Role, RoleV, Script, ScriptV, Sprite, SpriteV, VariableDef, VariableDefV, view_literal, view_project, view_role, view_roles, view_script, view_scripts, view_sprite, view_sprites, view_vardefs};
use crate::error::{Error, ErrorV, ProjectError, ProjectErrorV, SymbolError, SymbolErrorV, view_error};
use crate::expr::{CtxV, Scope, ctx_of, parse_expr, scope_wf, spec_parse_expr, lemma_view_expr_is_value};
use crate::script::{parse_script, spec_parse_script};
use crate::symbol::{NameTransformer, SymbolTable, tf_of, spec_define};
use crate::text::{is_prefix, str_eq, str_starts_with};
use crate::xml_tree::{Xml, find_child, spec_attr, spec_get};

verus! {

/// The lexical context that a variable initializer is decoded in: no locals,
/// no fields yet, attributed to the given names.
pub open spec fn init_ctx(
    role: Seq<char>,
    sprite: Seq<char>,
    globals: Seq<VariableDefV>,
) -> CtxV {
    CtxV {
        role,
        sprite,
        globals,
        fields: Seq::empty(),
        locals: Seq::empty(),
    }
}

/// Collecting a sprite's declared fields: each `variable` child must carry a
/// name and one initializer child that reduces to a literal value.
pub open spec fn spec_collect_fields(items: Seq<Xml>, c: CtxV) -> Result<
    Seq<(Seq<char>, LiteralV)>,
    ErrorV,
>
    decreases items,
{
    if items.len() == 0 {
        Result::Ok(Seq::empty())
    } else if items[0].name@ != "variable"@ {
        spec_collect_fields(items.drop_first(), c)
    } else {
        match spec_attr(items[0], "name"@) {
            Option::None => Result::Err(
                ErrorV::InvalidProject {
                    error: ProjectErrorV::UnnamedField { role: c.role, sprite: c.sprite },
                },
            ),
            Option::Some(a) => {
                if items[0].children@.len() == 0 {
                    Result::Err(
                        ErrorV::InvalidProject {
                            error: ProjectErrorV::FieldNoValue {
                                role: c.role,
                                sprite: c.sprite,
                                name: a.value@,
                            },
                        },
                    )
                } else {
                    match spec_parse_expr(items[0].children@[0], c) {
                        Result::Err(e) => Result::Err(e),
                        Result::Ok(crate::ast::ExprV::Value(v)) => match spec_collect_fields(
                            items.drop_first(),
                            c,
                        ) {
                            Result::Err(e) => Result::Err(e),
                            Result::Ok(rest) => Result::Ok(seq![(a.value@, v)] + rest),
                        },
                        Result::Ok(_) => Result::Err(
                            ErrorV::InvalidProject {
                                error: ProjectErrorV::ValueNotEvaluated {
                                    role: c.role,
                                    sprite: Option::Some(c.sprite),
                                },
                            },
                        ),
                    }
                }
            },
        }
    }
}

/// Collecting a role's declared globals; same shape as the fields, with the
/// errors attributed to the role alone.
pub open spec fn spec_collect_globals(items: Seq<Xml>, c: CtxV) -> Result<
    Seq<(Seq<char>, LiteralV)>,
    ErrorV,
>
    decreases items,
{
    if items.len() == 0 {
        Result::Ok(Seq::empty())
    } else if items[0].name@ != "variable"@ {
        spec_collect_globals(items.drop_first(), c)
    } else {
        match spec_attr(items[0], "name"@) {
            Option::None => Result::Err(
                ErrorV::InvalidProject { error: ProjectErrorV::UnnamedGlobal { role: c.role } },
            ),
            Option::Some(a) => {
                if items[0].children@.len() == 0 {
                    Result::Err(
                        ErrorV::InvalidProject {
                            error: ProjectErrorV::GlobalNoValue { role: c.role, name: a.value@ },
                        },
                    )
                } else {
                    match spec_parse_expr(items[0].children@[0], c) {
                        Result::Err(e) => Result::Err(e),
                        Result::Ok(crate::ast::ExprV::Value(v)) => match spec_collect_globals(
                            items.drop_first(),
                            c,
                        ) {
                            Result::Err(e) => Result::Err(e),
                            Result::Ok(rest) => Result::Ok(seq![(a.value@, v)] + rest),
                        },
                        Result::Ok(_) => Result::Err(
                            ErrorV::InvalidProject {
                                error: ProjectErrorV::ValueNotEvaluated {
                                    role: c.role,
                                    sprite: Option::None,
                                },
                            },
                        ),
                    }
                }
            },
        }
    }
}

/// Defining collected fields in order: a duplicate original name or a
/// transformed-name fault is a hard error for this scope.
pub open spec fn spec_define_fields(
    pairs: Seq<(Seq<char>, LiteralV)>,
    defs: Seq<VariableDefV>,
    tf: spec_fn(Seq<char>) -> Option<Seq<char>>,
    role: Seq<char>,
    sprite: Seq<char>,
) -> Result<Seq<VariableDefV>, ErrorV>
    decreases pairs,
{
    if pairs.len() == 0 {
        Result::Ok(defs)
    } else {
        match spec_define(defs, tf, pairs[0].0, pairs[0].1) {
            Result::Err(SymbolErrorV::NameTransformError { name }) => Result::Err(
                ErrorV::NameTransformError {
                    name,
                    role: Option::Some(role),
                    sprite: Option::Some(sprite),
                },
            ),
            Result::Err(SymbolErrorV::ConflictingTrans { trans_name, names }) => Result::Err(
                ErrorV::FieldsWithSameTransName { role, sprite, trans_name, names },
            ),
            Result::Ok(p) => {
                if p.1 is Some {
                    Result::Err(
                        ErrorV::InvalidProject {
                            error: ProjectErrorV::FieldsWithSameName {
                                role,
                                sprite,
                                name: p.1->Some_0.name,
                            },
                        },
                    )
                } else {
                    spec_define_fields(pairs.drop_first(), p.0, tf, role, sprite)
                }
            },
        }
    }
}

/// Defining collected globals in order.
pub open spec fn spec_define_globals(
    pairs: Seq<(Seq<char>, LiteralV)>,
    defs: Seq<VariableDefV>,
    tf: spec_fn(Seq<char>) -> Option<Seq<char>>,
    role: Seq<char>,
) -> Result<Seq<VariableDefV>, ErrorV>
    decreases pairs,
{
    if pairs.len() == 0 {
        Result::Ok(defs)
    } else {
        match spec_define(defs, tf, pairs[0].0, pairs[0].1) {
            Result::Err(SymbolErrorV::NameTransformError { name }) => Result::Err(
                ErrorV::NameTransformError { name, role: Option::Some(role), sprite: Option::None },
            ),
            Result::Err(SymbolErrorV::ConflictingTrans { trans_name, names }) => Result::Err(
                ErrorV::GlobalsWithSameTransName { role, trans_name, names },
            ),
            Result::Ok(p) => {
                if p.1 is Some {
                    Result::Err(
                        ErrorV::InvalidProject {
                            error: ProjectErrorV::GlobalsWithSameName {
                                role,
                                name: p.1->Some_0.name,
                            },
                        },
                    )
                } else {
                    spec_define_globals(pairs.drop_first(), p.0, tf, role)
                }
            },
        }
    }
}

/// A definition-stub script, which resolution silently drops: a body of one
/// block that is a bare variable reference or a reporter-style call.
pub open spec fn is_stub_script(x: Xml) -> bool {
    x.children@.len() == 1 && {
        let single = x.children@[0];
        ||| spec_attr(single, "var"@) is Some
        ||| (spec_attr(single, "s"@) matches Option::Some(a) && is_prefix(
            "report"@,
            a.value@,
        ))
    }
}

/// Decoding a sprite's scripts in order: empty bodies and definition stubs
/// are dropped; each kept script is decoded with its own fresh local scope.
pub open spec fn spec_collect_scripts(
    items: Seq<Xml>,
    c: CtxV,
    tf: spec_fn(Seq<char>) -> Option<Seq<char>>,
) -> Result<Seq<ScriptV>, ErrorV>
    decreases items,
{
    if items.len() == 0 {
        Result::Ok(Seq::empty())
    } else if items[0].children@.len() == 0 || is_stub_script(items[0]) {
        spec_collect_scripts(items.drop_first(), c, tf)
    } else {
        match spec_parse_script(items[0], c, tf) {
            Result::Err(e) => Result::Err(e),
            Result::Ok(p) => match spec_collect_scripts(items.drop_first(), c, tf) {
                Result::Err(e) => Result::Err(e),
                Result::Ok(rest) => Result::Ok(seq![p.0] + rest),
            },
        }
    }
}

/// Resolving one sprite: the field table is built first, from initializers
/// decoded in a context with no fields in scope; then every kept script is
/// decoded against the finished fields.
pub open spec fn spec_parse_sprite(
    x: Xml,
    role: Seq<char>,
    sname: Seq<char>,
    globals: Seq<VariableDefV>,
    tf: spec_fn(Seq<char>) -> Option<Seq<char>>,
) -> Result<SpriteV, ErrorV> {
    let c0 = init_ctx(role, sname, globals);
    let fields_result = match spec_get(x, seq!["variables"@]) {
        Option::None => Result::Ok(Seq::empty()),
        Option::Some(vnode) => match spec_collect_fields(vnode.children@, c0) {
            Result::Err(e) => Result::Err(e),
            Result::Ok(pairs) => spec_define_fields(pairs, Seq::empty(), tf, role, sname),
        },
    };
    match fields_result {
        Result::Err(e) => Result::Err(e),
        Result::Ok(fdefs) => {
            let c1 = CtxV { fields: fdefs, ..c0 };
            match spec_get(x, seq!["scripts"@]) {
                Option::None => Result::Ok(
                    SpriteV { name: sname, fields: fdefs, scripts: Seq::empty() },
                ),
                Option::Some(snode) => match spec_collect_scripts(snode.children@, c1, tf) {
                    Result::Err(e) => Result::Err(e),
                    Result::Ok(scs) => Result::Ok(
                        SpriteV { name: sname, fields: fdefs, scripts: scs },
                    ),
                },
            }
        },
    }
}

/// Resolving the sprites declared beside the stage, in document order.
pub open spec fn spec_collect_sprites(
    items: Seq<Xml>,
    role: Seq<char>,
    globals: Seq<VariableDefV>,
    tf: spec_fn(Seq<char>) -> Option<Seq<char>>,
) -> Result<Seq<SpriteV>, ErrorV>
    decreases items,
{
    if items.len() == 0 {
        Result::Ok(Seq::empty())
    } else if items[0].name@ != "sprite"@ {
        spec_collect_sprites(items.drop_first(), role, globals, tf)
    } else {
        match spec_attr(items[0], "name"@) {
            Option::None => Result::Err(
                ErrorV::InvalidProject { error: ProjectErrorV::UnnamedSprite { role } },
            ),
            Option::Some(a) => match spec_parse_sprite(items[0], role, a.value@, globals, tf) {
                Result::Err(e) => Result::Err(e),
                Result::Ok(sp) => match spec_collect_sprites(
                    items.drop_first(),
                    role,
                    globals,
                    tf,
                ) {
                    Result::Err(e) => Result::Err(e),
                    Result::Ok(rest) => Result::Ok(seq![sp] + rest),
                },
            },
        }
    }
}

/// Resolving one role: its globals first, then the stage as the first
/// sprite, then every declared sprite in document order.
pub open spec fn spec_parse_role(x: Xml, tf: spec_fn(Seq<char>) -> Option<Seq<char>>) -> Result<
    RoleV,
    ErrorV,
> {
    match spec_attr(x, "name"@) {
        Option::None => Result::Err(
            ErrorV::InvalidProject { error: ProjectErrorV::UnnamedRole },
        ),
        Option::Some(ra) => {
            let role = ra.value@;
            match spec_get(x, seq!["project"@]) {
                Option::None => Result::Err(
                    ErrorV::InvalidProject { error: ProjectErrorV::NoRoleContent { role } },
                ),
                Option::Some(content) => {
                    let notes = match spec_get(content, seq!["notes"@]) {
                        Option::Some(n) => n.text@,
                        Option::None => Seq::empty(),
                    };
                    match spec_get(content, seq!["stage"@]) {
                        Option::None => Result::Err(
                            ErrorV::InvalidProject { error: ProjectErrorV::NoStageDef { role } },
                        ),
                        Option::Some(stage) => {
                            let cg = init_ctx(role, "global"@, Seq::empty());
                            let globals_result = match spec_get(content, seq!["variables"@]) {
                                Option::None => Result::Ok(Seq::empty()),
                                Option::Some(g) => match spec_collect_globals(g.children@, cg) {
                                    Result::Err(e) => Result::Err(e),
                                    Result::Ok(pairs) => spec_define_globals(
                                        pairs,
                                        Seq::empty(),
                                        tf,
                                        role,
                                    ),
                                },
                            };
                            match globals_result {
                                Result::Err(e) => Result::Err(e),
                                Result::Ok(gdefs) => {
                                    match spec_get(stage, seq!["sprites"@]) {
                                        Option::None => Result::Ok(
                                            RoleV {
                                                name: role,
                                                notes,
                                                globals: gdefs,
                                                sprites: Seq::empty(),
                                            },
                                        ),
                                        Option::Some(sx) => match spec_attr(stage, "name"@) {
                                            Option::None => Result::Err(
                                                ErrorV::InvalidProject {
                                                    error: ProjectErrorV::UnnamedSprite { role },
                                                },
                                            ),
                                            Option::Some(sa) => match spec_parse_sprite(
                                                stage,
                                                role,
                                                sa.value@,
                                                gdefs,
                                                tf,
                                            ) {
                                                Result::Err(e) => Result::Err(e),
                                                Result::Ok(st) => match spec_collect_sprites(
                                                    sx.children@,
                                                    role,
                                                    gdefs,
                                                    tf,
                                                ) {
                                                    Result::Err(e) => Result::Err(e),
                                                    Result::Ok(rest) => Result::Ok(
                                                        RoleV {
                                                            name: role,
                                                            notes,
                                                            globals: gdefs,
                                                            sprites: seq![st] + rest,
                                                        },
                                                    ),
                                                },
                                            },
                                        },
                                    }
                                },
                            }
                        },
                    }
                },
            }
        },
    }
}

/// Resolving every role under the project root, in document order.
pub open spec fn spec_collect_roles(
    items: Seq<Xml>,
    tf: spec_fn(Seq<char>) -> Option<Seq<char>>,
) -> Result<Seq<RoleV>, ErrorV>
    decreases items,
{
    if items.len() == 0 {
        Result::Ok(Seq::empty())
    } else if items[0].name@ != "role"@ {
        spec_collect_roles(items.drop_first(), tf)
    } else {
        match spec_parse_role(items[0], tf) {
            Result::Err(e) => Result::Err(e),
            Result::Ok(r) => match spec_collect_roles(items.drop_first(), tf) {
                Result::Err(e) => Result::Err(e),
                Result::Ok(rest) => Result::Ok(seq![r] + rest),
            },
        }
    }
}

/// The first `room` element of the tree, in document order.
pub open spec fn spec_find_room(x: Xml) -> Option<Xml>
    decreases x, 1int,
{
    if x.name@ == "room"@ {
        Option::Some(x)
    } else {
        spec_find_room_in(x.children@)
    }
}

/// The first `room` element among a forest, in document order.
pub open spec fn spec_find_room_in(s: Seq<Xml>) -> Option<Xml>
    decreases s, 2int,
{
    if s.len() == 0 {
        Option::None
    } else {
        match spec_find_room(s[0]) {
            Option::Some(r) => Option::Some(r),
            Option::None => spec_find_room_in(s.drop_first()),
        }
    }
}

/// Resolving the project under its root container: a display name that
/// defaults to a fixed placeholder, and every role in document order.
pub open spec fn spec_parse_room(
    room: Xml,
    tf: spec_fn(Seq<char>) -> Option<Seq<char>>,
) -> Result<ProjectV, ErrorV> {
    let pname = match spec_attr(room, "name"@) {
        Option::Some(a) => a.value@,
        Option::None => "untitled"@,
    };
    match spec_collect_roles(room.children@, tf) {
        Result::Err(e) => Result::Err(e),
        Result::Ok(roles) => Result::Ok(ProjectV { name: pname, roles }),
    }
}

/// What decoding a whole document tree gives: the first `room` element is
/// resolved, and a tree without one is rejected.
pub open spec fn spec_parse_project(
    root: Xml,
    tf: spec_fn(Seq<char>) -> Option<Seq<char>>,
) -> Result<ProjectV, ErrorV> {
    match spec_find_room(root) {
        Option::None => Result::Err(
            ErrorV::InvalidProject { error: ProjectErrorV::NoRoot },
        ),
        Option::Some(room) => spec_parse_room(room, tf),
    }
}


// --- the executable resolvers ---

/// The view of collected (name, initializer) pairs.
pub open spec fn view_pairs(s: Seq<(String, Literal)>) -> Seq<(Seq<char>, LiteralV)> {
    s.map_values(|p: (String, Literal)| (p.0@, view_literal(p.1)))
}

/// The first child with the given tag, as `spec_get` with a one-step path
/// sees it.
fn get_child<'a>(x: &'a Xml, name: &str) -> (r: Option<&'a Xml>)
    ensures
        match r {
            Option::Some(cnode) => spec_get(*x, seq![name@]) == Option::Some(*cnode),
            Option::None => spec_get(*x, seq![name@]) is None,
        },
{
    let ghost path = seq![name@];
    match find_child(&x.children, name) {
        Option::Some(j) => {
            proof {
                assert(path[0] == name@);
                assert(path.drop_first() =~= Seq::<Seq<char>>::empty());
                assert(spec_get(x.children@[j as int], path.drop_first()) == Option::Some(
                    x.children@[j as int],
                ));
            }
            Option::Some(&x.children[j])
        },
        Option::None => Option::None,
    }
}

/// First-match characterization of the room search over a forest.
proof fn lemma_find_room_skip(s: Seq<Xml>, i: int)
    requires
        0 <= i <= s.len(),
        forall|j: int| 0 <= j < i ==> spec_find_room(#[trigger] s[j]) is None,
    ensures
        spec_find_room_in(s) == spec_find_room_in(s.skip(i)),
    decreases i,
{
    if i > 0 {
        assert(spec_find_room(s[0]) is None);
        assert(s.skip(1) =~= s.drop_first());
        assert forall|j: int| 0 <= j < i - 1 implies spec_find_room(
            #[trigger] s.drop_first()[j],
        ) is None by {
            assert(s.drop_first()[j] == s[j + 1]);
        }
        lemma_find_room_skip(s.drop_first(), i - 1);
        assert(s.drop_first().skip(i - 1) =~= s.skip(i));
    } else {
        assert(s.skip(0) =~= s);
    }
}

/// Finds the first `room` element of the tree, in document order.
pub fn find_room<'a>(x: &'a Xml) -> (r: Option<&'a Xml>)
    ensures
        match r {
            Option::Some(room) => spec_find_room(*x) == Option::Some(*room),
            Option::None => spec_find_room(*x) is None,
        },
    decreases *x, 1int,
{
    if str_eq(x.name.as_str(), "room") {
        return Option::Some(x);
    }
    let ghost s = x.children@;
    let mut i: usize = 0;
    while i < x.children.len()
        invariant
            i <= x.children@.len(),
            s == x.children@,
            x.name@ != "room"@,
            forall|j: int| 0 <= j < i ==> spec_find_room(#[trigger] s[j]) is None,
        decreases x.children@.len() - i,
    {
        proof {
            assert(decreases_to!(*x => x.children));
            assert(decreases_to!(x.children => x.children@));
            assert(decreases_to!(x.children@ => x.children@[i as int]));
        }
        match find_room(&x.children[i]) {
            Option::Some(room) => {
                proof {
                    lemma_find_room_skip(s, i as int);
                    assert(s.skip(i as int)[0] == s[i as int]);
                }
                return Option::Some(room);
            },
            Option::None => {
                i = i + 1;
            },
        }
    }
    proof {
        lemma_find_room_skip(s, s.len() as int);
        assert(s.skip(s.len() as int) =~= Seq::<Xml>::empty());
    }
    Option::None
}

/// Collects a scope's declared variables: names and literal initializers.
fn collect_inits<T: NameTransformer>(
    items: &Vec<Xml>,
    scope: &Scope<T>,
    locals: &SymbolTable,
    for_fields: bool,
) -> (r: Result<Vec<(String, Literal)>, Error>)
    requires
        scope_wf(*scope, *locals),
        ctx_of(*scope, *locals) == init_ctx(scope.role@, scope.sprite@, scope.globals.defs()),
    ensures
        ({
            let c = init_ctx(scope.role@, scope.sprite@, scope.globals.defs());
            let sp = if for_fields {
                spec_collect_fields(items@, c)
            } else {
                spec_collect_globals(items@, c)
            };
            match r {
                Result::Ok(ps) => sp == Result::<Seq<(Seq<char>, LiteralV)>, ErrorV>::Ok(
                    view_pairs(ps@),
                ),
                Result::Err(e) => sp == Result::<Seq<(Seq<char>, LiteralV)>, ErrorV>::Err(
                    view_error(e),
                ),
            }
        }),
{
    let ghost c = init_ctx(scope.role@, scope.sprite@, scope.globals.defs());
    let ghost full = items@;
    let mut out: Vec<(String, Literal)> = Vec::new();
    let mut i: usize = 0;
    proof {
        assert(full.skip(0) =~= full);
        match spec_collect_fields(full, c) {
            Result::Ok(rest) => {
                assert(view_pairs(out@) + rest =~= rest);
            },
            Result::Err(_) => {},
        }
        match spec_collect_globals(full, c) {
            Result::Ok(rest) => {
                assert(view_pairs(out@) + rest =~= rest);
            },
            Result::Err(_) => {},
        }
    }
    while i < items.len()
        invariant
            i <= items@.len(),
            full == items@,
            c == init_ctx(scope.role@, scope.sprite@, scope.globals.defs()),
            c == ctx_of(*scope, *locals),
            scope_wf(*scope, *locals),
            ({
                let sp0 = if for_fields {
                    spec_collect_fields(full, c)
                } else {
                    spec_collect_globals(full, c)
                };
                let spi = if for_fields {
                    spec_collect_fields(full.skip(i as int), c)
                } else {
                    spec_collect_globals(full.skip(i as int), c)
                };
                match spi {
                    Result::Ok(rest) => sp0 == Result::<Seq<(Seq<char>, LiteralV)>, ErrorV>::Ok(
                        view_pairs(out@) + rest,
                    ),
                    Result::Err(e) => sp0 == Result::<Seq<(Seq<char>, LiteralV)>, ErrorV>::Err(e),
                }
            }),
        decreases items@.len() - i,
    {
        let ghost prev_out = out@;
        let ghost tail = full.skip(i as int);
        assert(tail[0] == full[i as int]);
        proof {
            assert(tail.drop_first() =~= full.skip(i + 1));
        }
        let item = &items[i];
        if !str_eq(item.name.as_str(), "variable") {
            i = i + 1;
            continue ;
        }
        let a = match item.attr("name") {
            Option::Some(a) => a,
            Option::None => {
                if for_fields {
                    return Result::Err(
                        Error::InvalidProject {
                            error: ProjectError::UnnamedField {
                                role: scope.role.clone(),
                                sprite: scope.sprite.clone(),
                            },
                        },
                    );
                } else {
                    return Result::Err(
                        Error::InvalidProject {
                            error: ProjectError::UnnamedGlobal { role: scope.role.clone() },
                        },
                    );
                }
            },
        };
        if item.children.len() == 0 {
            if for_fields {
                return Result::Err(
                    Error::InvalidProject {
                        error: ProjectError::FieldNoValue {
                            role: scope.role.clone(),
                            sprite: scope.sprite.clone(),
                            name: a.value.clone(),
                        },
                    },
                );
            } else {
                return Result::Err(
                    Error::InvalidProject {
                        error: ProjectError::GlobalNoValue {
                            role: scope.role.clone(),
                            name: a.value.clone(),
                        },
                    },
                );
            }
        }
        match parse_expr(&item.children[0], scope, locals) {
            Result::Err(e) => {
                return Result::Err(e);
            },
            Result::Ok(e) => {
                match e {
                    Expr::Value(v) => {
                        let ghost pv = (a.value@, view_literal(v));
                        out.push((a.value.clone(), v));
                        proof {
                            assert(view_pairs(out@) =~= view_pairs(prev_out).push(pv)) by {
                                assert(forall|k: int|
                                    0 <= k < prev_out.len() ==> out@[k] == prev_out[k]);
                            }
                            let sp2 = if for_fields {
                                spec_collect_fields(full.skip(i + 1), c)
                            } else {
                                spec_collect_globals(full.skip(i + 1), c)
                            };
                            match sp2 {
                                Result::Ok(rest2) => {
                                    assert(view_pairs(prev_out) + (seq![pv] + rest2) =~= view_pairs(
                                        out@,
                                    ) + rest2);
                                },
                                Result::Err(_) => {},
                            }
                        }
                        i = i + 1;
                    },
                    other => {
                        proof {
                            lemma_view_expr_is_value(other);
                        }
                        if for_fields {
                            return Result::Err(
                                Error::InvalidProject {
                                    error: ProjectError::ValueNotEvaluated {
                                        role: scope.role.clone(),
                                        sprite: Option::Some(scope.sprite.clone()),
                                    },
                                },
                            );
                        } else {
                            return Result::Err(
                                Error::InvalidProject {
                                    error: ProjectError::ValueNotEvaluated {
                                        role: scope.role.clone(),
                                        sprite: Option::None,
                                    },
                                },
                            );
                        }
                    },
                }
            },
        }
    }
    proof {
        assert(full.skip(i as int) =~= Seq::<Xml>::empty());
        assert(view_pairs(out@) + Seq::<(Seq<char>, LiteralV)>::empty() =~= view_pairs(out@));
    }
    Result::Ok(out)
}

/// Defines collected declarations in order, rejecting duplicate names.
fn define_inits<T: NameTransformer>(
    pairs: Vec<(String, Literal)>,
    t: &T,
    role: &String,
    sprite: &String,
    tbl: &mut SymbolTable,
    for_fields: bool,
) -> (r: Result<(), Error>)
    requires
        old(tbl).wf(tf_of(*t)),
    ensures
        final(tbl).wf(tf_of(*t)),
        ({
            let tf = tf_of(*t);
            let sp = if for_fields {
                spec_define_fields(view_pairs(pairs@), old(tbl).defs(), tf, role@, sprite@)
            } else {
                spec_define_globals(view_pairs(pairs@), old(tbl).defs(), tf, role@)
            };
            match r {
                Result::Ok(_) => sp == Result::<Seq<VariableDefV>, ErrorV>::Ok(final(tbl).defs()),
                Result::Err(e) => sp == Result::<Seq<VariableDefV>, ErrorV>::Err(view_error(e)),
            }
        }),
{
    let ghost tf = tf_of(*t);
    let ghost pairs0 = view_pairs(pairs@);
    let ghost defs0 = old(tbl).defs();
    let mut rest = pairs;
    while rest.len() > 0
        invariant
            tf == tf_of(*t),
            tbl.wf(tf),
            pairs0 == view_pairs(pairs@),
            defs0 == old(tbl).defs(),
            ({
                let sp0 = if for_fields {
                    spec_define_fields(pairs0, defs0, tf, role@, sprite@)
                } else {
                    spec_define_globals(pairs0, defs0, tf, role@)
                };
                let spi = if for_fields {
                    spec_define_fields(view_pairs(rest@), tbl.defs(), tf, role@, sprite@)
                } else {
                    spec_define_globals(view_pairs(rest@), tbl.defs(), tf, role@)
                };
                sp0 == spi
            }),
        decreases rest@.len(),
    {
        let ghost pre_rest = rest@;
        let ghost pre_defs = tbl.defs();
        let p = rest.remove(0);
        proof {
            assert(rest@ =~= pre_rest.drop_first());
            assert(view_pairs(pre_rest)[0] == (p.0@, view_literal(p.1)));
            assert(view_pairs(rest@) =~= view_pairs(pre_rest).drop_first()) by {
                assert(forall|k: int| 0 <= k < rest@.len() ==> rest@[k] == pre_rest[k + 1]);
            }
        }
        match tbl.define(t, p.0, p.1) {
            Result::Err(e) => {
                proof {
                    let spi_f = spec_define_fields(view_pairs(pre_rest), pre_defs, tf, role@, sprite@);
                    let spi_g = spec_define_globals(view_pairs(pre_rest), pre_defs, tf, role@);
                    let dres = spec_define(pre_defs, tf, view_pairs(pre_rest)[0].0, view_pairs(pre_rest)[0].1);
                    match dres {
                        Result::Err(se) => {
                            match se {
                                SymbolErrorV::NameTransformError { name } => {
                                    assert(spi_f == Result::<Seq<VariableDefV>, ErrorV>::Err(
                                        ErrorV::NameTransformError {
                                            name,
                                            role: Option::Some(role@),
                                            sprite: Option::Some(sprite@),
                                        },
                                    ));
                                    assert(spi_g == Result::<Seq<VariableDefV>, ErrorV>::Err(
                                        ErrorV::NameTransformError {
                                            name,
                                            role: Option::Some(role@),
                                            sprite: Option::None,
                                        },
                                    ));
                                },
                                SymbolErrorV::ConflictingTrans { trans_name, names } => {
                                    assert(spi_f == Result::<Seq<VariableDefV>, ErrorV>::Err(
                                        ErrorV::FieldsWithSameTransName {
                                            role: role@,
                                            sprite: sprite@,
                                            trans_name,
                                            names,
                                        },
                                    ));
                                    assert(spi_g == Result::<Seq<VariableDefV>, ErrorV>::Err(
                                        ErrorV::GlobalsWithSameTransName {
                                            role: role@,
                                            trans_name,
                                            names,
                                        },
                                    ));
                                },
                            }
                        },
                        Result::Ok(_) => {
                            assert(false);
                        },
                    }
                }
                match e {
                    SymbolError::NameTransformError { name } => {
                        if for_fields {
                            return Result::Err(
                                Error::NameTransformError {
                                    name,
                                    role: Option::Some(role.clone()),
                                    sprite: Option::Some(sprite.clone()),
                                },
                            );
                        } else {
                            return Result::Err(
                                Error::NameTransformError {
                                    name,
                                    role: Option::Some(role.clone()),
                                    sprite: Option::None,
                                },
                            );
                        }
                    },
                    SymbolError::ConflictingTrans { trans_name, names } => {
                        if for_fields {
                            return Result::Err(
                                Error::FieldsWithSameTransName {
                                    role: role.clone(),
                                    sprite: sprite.clone(),
                                    trans_name,
                                    names,
                                },
                            );
                        } else {
                            return Result::Err(
                                Error::GlobalsWithSameTransName {
                                    role: role.clone(),
                                    trans_name,
                                    names,
                                },
                            );
                        }
                    },
                }
            },
            Result::Ok(prev) => {
                proof {
                    let spi_f = spec_define_fields(view_pairs(pre_rest), pre_defs, tf, role@, sprite@);
                    let spi_g = spec_define_globals(view_pairs(pre_rest), pre_defs, tf, role@);
                    let dres = spec_define(pre_defs, tf, view_pairs(pre_rest)[0].0, view_pairs(pre_rest)[0].1);
                    match dres {
                        Result::Ok(dp) => {
                            if dp.1 is Some {
                                assert(spi_f == Result::<Seq<VariableDefV>, ErrorV>::Err(
                                    ErrorV::InvalidProject {
                                        error: ProjectErrorV::FieldsWithSameName {
                                            role: role@,
                                            sprite: sprite@,
                                            name: dp.1->Some_0.name,
                                        },
                                    },
                                ));
                                assert(spi_g == Result::<Seq<VariableDefV>, ErrorV>::Err(
                                    ErrorV::InvalidProject {
                                        error: ProjectErrorV::GlobalsWithSameName {
                                            role: role@,
                                            name: dp.1->Some_0.name,
                                        },
                                    },
                                ));
                            } else {
                                assert(spi_f == spec_define_fields(view_pairs(rest@), tbl.defs(), tf, role@, sprite@));
                                assert(spi_g == spec_define_globals(view_pairs(rest@), tbl.defs(), tf, role@));
                            }
                        },
                        Result::Err(_) => {
                            assert(false);
                        },
                    }
                }
                match prev {
                    Option::Some(old_def) => {
                        if for_fields {
                            return Result::Err(
                                Error::InvalidProject {
                                    error: ProjectError::FieldsWithSameName {
                                        role: role.clone(),
                                        sprite: sprite.clone(),
                                        name: old_def.name,
                                    },
                                },
                            );
                        } else {
                            return Result::Err(
                                Error::InvalidProject {
                                    error: ProjectError::GlobalsWithSameName {
                                        role: role.clone(),
                                        name: old_def.name,
                                    },
                                },
                            );
                        }
                    },
                    Option::None => {},
                }
            },
        }
    }
    proof {
        assert(view_pairs(rest@) =~= Seq::<(Seq<char>, LiteralV)>::empty());
    }
    Result::Ok(())
}


/// Resolves one sprite node against the finished global scope.
#[verifier::rlimit(100)]
#[verifier::spinoff_prover]
pub fn parse_sprite<T: NameTransformer>(
    x: &Xml,
    role: &String,
    sname: &String,
    t: &T,
    globals: &SymbolTable,
) -> (r: Result<Sprite, Error>)
    requires
        globals.wf(tf_of(*t)),
    ensures
        match r {
            Result::Ok(sp) => spec_parse_sprite(*x, role@, sname@, globals.defs(), tf_of(*t))
                == Result::<SpriteV, ErrorV>::Ok(view_sprite(sp)),
            Result::Err(e) => spec_parse_sprite(*x, role@, sname@, globals.defs(), tf_of(*t))
                == Result::<SpriteV, ErrorV>::Err(view_error(e)),
        },
{
    let ghost tf = tf_of(*t);
    let ghost c0 = init_ctx(role@, sname@, globals.defs());
    let empty_fields = SymbolTable::new();
    let empty_locals = SymbolTable::new();
    let scope0 = Scope {
        transformer: t,
        role,
        sprite: sname,
        globals,
        fields: &empty_fields,
    };
    proof {
        assert(ctx_of(scope0, empty_locals) == c0);
    }
    let mut ftbl = SymbolTable::new();
    match get_child(x, "variables") {
        Option::None => {},
        Option::Some(vnode) => {
            let pairs = collect_inits(&vnode.children, &scope0, &empty_locals, true)?;
            define_inits(pairs, t, role, sname, &mut ftbl, true)?;
        },
    }
    let ghost fdefs = ftbl.defs();
    let ghost c1 = CtxV { fields: fdefs, ..c0 };
    let mut scripts: Vec<Script> = Vec::new();
    match get_child(x, "scripts") {
        Option::None => {
            proof {
                assert(view_scripts(scripts@) =~= Seq::<ScriptV>::empty());
                assert(view_vardefs(Seq::<VariableDef>::empty()) =~= Seq::<VariableDefV>::empty());
            }
        },
        Option::Some(snode) => {
            let scope1 = Scope {
                transformer: t,
                role,
                sprite: sname,
                globals,
                fields: &ftbl,
            };
            let ghost full = snode.children@;
            let mut i: usize = 0;
            proof {
                assert(full.skip(0) =~= full);
                match spec_collect_scripts(full, c1, tf) {
                    Result::Ok(rest) => {
                        assert(view_scripts(scripts@) + rest =~= rest);
                    },
                    Result::Err(_) => {},
                }
            }
            while i < snode.children.len()
                invariant
                    i <= snode.children@.len(),
                    full == snode.children@,
                    tf == tf_of(*t),
                    ({
                        match spec_collect_scripts(full, c1, tf) {
                            Result::Ok(scs) => spec_parse_sprite(*x, role@, sname@, globals.defs(), tf)
                                == Result::<SpriteV, ErrorV>::Ok(
                                SpriteV { name: sname@, fields: ftbl.defs(), scripts: scs },
                            ),
                            Result::Err(e) => spec_parse_sprite(*x, role@, sname@, globals.defs(), tf)
                                == Result::<SpriteV, ErrorV>::Err(e),
                        }
                    }),
                    fdefs == ftbl.defs(),
                    c1 == (CtxV { fields: ftbl.defs(), ..init_ctx(role@, sname@, globals.defs()) }),
                    ctx_of(scope1, empty_locals) == c1,
                    scope1.transformer == t,
                    scope1.role == role,
                    scope1.sprite == sname,
                    scope1.globals == globals,
                    scope1.fields == &ftbl,
                    globals.wf(tf),
                    ftbl.wf(tf),
                    ({
                        match spec_collect_scripts(full.skip(i as int), c1, tf) {
                            Result::Ok(rest) => spec_collect_scripts(full, c1, tf) == Result::<
                                Seq<ScriptV>,
                                ErrorV,
                            >::Ok(view_scripts(scripts@) + rest),
                            Result::Err(e) => spec_collect_scripts(full, c1, tf) == Result::<
                                Seq<ScriptV>,
                                ErrorV,
                            >::Err(e),
                        }
                    }),
                decreases snode.children@.len() - i,
            {
                let ghost prev_out = scripts@;
                let ghost tail = full.skip(i as int);
                assert(tail[0] == full[i as int]);
                proof {
                    assert(tail.drop_first() =~= full.skip(i + 1));
                }
                let ch = &snode.children[i];
                let mut skip_it = ch.children.len() == 0;
                if !skip_it && ch.children.len() == 1 {
                    let single = &ch.children[0];
                    if single.attr("var").is_some() {
                        skip_it = true;
                    } else {
                        match single.attr("s") {
                            Option::Some(a) => {
                                if str_starts_with(a.value.as_str(), "report") {
                                    skip_it = true;
                                }
                            },
                            Option::None => {},
                        }
                    }
                }
                if !skip_it {
                    let mut locals = SymbolTable::new();
                    proof {
                        assert(ctx_of(scope1, locals) == c1);
                    }
                    match parse_script(ch, &scope1, &mut locals) {
                        Result::Ok(sc) => {
                            let ghost scv = view_script(sc);
                            scripts.push(sc);
                            proof {
                                assert(view_scripts(scripts@) =~= view_scripts(prev_out).push(scv))
                                    by {
                                    assert(forall|k: int|
                                        0 <= k < prev_out.len() ==> scripts@[k] == prev_out[k]);
                                }
                                match spec_collect_scripts(full.skip(i + 1), c1, tf) {
                                    Result::Ok(rest2) => {
                                        assert(view_scripts(prev_out) + (seq![scv] + rest2)
                                            =~= view_scripts(scripts@) + rest2);
                                    },
                                    Result::Err(_) => {},
                                }
                            }
                        },
                        Result::Err(e) => {
                            return Result::Err(e);
                        },
                    }
                }
                i = i + 1;
            }
            proof {
                assert(full.skip(i as int) =~= Seq::<Xml>::empty());
                assert(view_scripts(scripts@) + Seq::<ScriptV>::empty() =~= view_scripts(
                    scripts@,
                ));
            }
        },
    }
    let fields = ftbl.into_defs();
    Result::Ok(Sprite { name: sname.clone(), fields, scripts })
}

/// Resolves one role node.
#[verifier::rlimit(100)]
#[verifier::spinoff_prover]
pub fn parse_role<T: NameTransformer>(x: &Xml, t: &T) -> (r: Result<Role, Error>)
    ensures
        match r {
            Result::Ok(rl) => spec_parse_role(*x, tf_of(*t)) == Result::<RoleV, ErrorV>::Ok(
                view_role(rl),
            ),
            Result::Err(e) => spec_parse_role(*x, tf_of(*t)) == Result::<RoleV, ErrorV>::Err(
                view_error(e),
            ),
        },
{
    let ghost tf = tf_of(*t);
    let ra = match x.attr("name") {
        Option::Some(a) => a,
        Option::None => {
            return Result::Err(
                Error::InvalidProject { error: ProjectError::UnnamedRole },
            );
        },
    };
    let role = ra.value.clone();
    let content = match get_child(x, "project") {
        Option::Some(cnode) => cnode,
        Option::None => {
            return Result::Err(
                Error::InvalidProject { error: ProjectError::NoRoleContent { role } },
            );
        },
    };
    let notes = match get_child(content, "notes") {
        Option::Some(n) => n.text.clone(),
        Option::None => String::new(),
    };
    let stage = match get_child(content, "stage") {
        Option::Some(snode) => snode,
        Option::None => {
            return Result::Err(
                Error::InvalidProject { error: ProjectError::NoStageDef { role } },
            );
        },
    };
    let global_name = "global".to_owned();
    let empty_globals = SymbolTable::new();
    let empty_fields = SymbolTable::new();
    let empty_locals = SymbolTable::new();
    let mut gtbl = SymbolTable::new();
    match get_child(content, "variables") {
        Option::None => {},
        Option::Some(g) => {
            let scope_g = Scope {
                transformer: t,
                role: &role,
                sprite: &global_name,
                globals: &empty_globals,
                fields: &empty_fields,
            };
            proof {
                assert(ctx_of(scope_g, empty_locals) == init_ctx(role@, global_name@, empty_globals.defs()));
                assert(init_ctx(role@, global_name@, empty_globals.defs()) == init_ctx(role@, "global"@, Seq::<VariableDefV>::empty()));
            }
            let pairs = collect_inits(&g.children, &scope_g, &empty_locals, false)?;
            define_inits(pairs, t, &role, &global_name, &mut gtbl, false)?;
        },
    }
    let ghost gdefs = gtbl.defs();
    let mut sprites: Vec<Sprite> = Vec::new();
    match get_child(stage, "sprites") {
        Option::None => {
            proof {
                assert(view_sprites(sprites@) =~= Seq::<SpriteV>::empty());
            }
        },
        Option::Some(sx) => {
            let sa = match stage.attr("name") {
                Option::Some(a) => a,
                Option::None => {
                    return Result::Err(
                        Error::InvalidProject { error: ProjectError::UnnamedSprite { role } },
                    );
                },
            };
            let st = parse_sprite(stage, &role, &sa.value, t, &gtbl)?;
            let ghost stv = view_sprite(st);
            sprites.push(st);
            proof {
                assert(view_sprites(sprites@) =~= seq![stv]);
            }
            let ghost full = sx.children@;
            let mut i: usize = 0;
            proof {
                assert(full.skip(0) =~= full);
            }
            while i < sx.children.len()
                invariant
                    i <= sx.children@.len(),
                    full == sx.children@,
                    tf == tf_of(*t),
                    gdefs == gtbl.defs(),
                    gtbl.wf(tf),
                    role@ == ra.value@,
                    sprites@.len() >= 1,
                    ({
                        match spec_collect_sprites(full, role@, gdefs, tf) {
                            Result::Ok(rest) => spec_parse_role(*x, tf) == Result::<
                                RoleV,
                                ErrorV,
                            >::Ok(
                                RoleV {
                                    name: role@,
                                    notes: notes@,
                                    globals: gdefs,
                                    sprites: seq![stv] + rest,
                                },
                            ),
                            Result::Err(e) => spec_parse_role(*x, tf) == Result::<
                                RoleV,
                                ErrorV,
                            >::Err(e),
                        }
                    }),
                    ({
                        match spec_collect_sprites(full.skip(i as int), role@, gdefs, tf) {
                            Result::Ok(rest) => spec_collect_sprites(full, role@, gdefs, tf)
                                == Result::<Seq<SpriteV>, ErrorV>::Ok(
                                view_sprites(sprites@.skip(1)) + rest,
                            ),
                            Result::Err(e) => spec_collect_sprites(full, role@, gdefs, tf)
                                == Result::<Seq<SpriteV>, ErrorV>::Err(e),
                        }
                    }),
                    view_sprites(sprites@)[0] == stv,
                    sprites@[0] == st,
                decreases sx.children@.len() - i,
            {
                let ghost prev_out = sprites@;
                let ghost tail = full.skip(i as int);
                assert(tail[0] == full[i as int]);
                proof {
                    assert(tail.drop_first() =~= full.skip(i + 1));
                }
                let ch = &sx.children[i];
                if str_eq(ch.name.as_str(), "sprite") {
                    let na = match ch.attr("name") {
                        Option::Some(a) => a,
                        Option::None => {
                            return Result::Err(
                                Error::InvalidProject {
                                    error: ProjectError::UnnamedSprite { role },
                                },
                            );
                        },
                    };
                    let sp = parse_sprite(ch, &role, &na.value, t, &gtbl)?;
                    let ghost spv = view_sprite(sp);
                    sprites.push(sp);
                    proof {
                        assert(view_sprites(sprites@.skip(1)) =~= view_sprites(
                            prev_out.skip(1),
                        ).push(spv)) by {
                            assert(forall|k: int|
                                0 <= k < prev_out.len() ==> sprites@[k] == prev_out[k]);
                            assert(forall|k: int|
                                0 <= k < prev_out.len() - 1 ==> prev_out.skip(1)[k] == prev_out[k
                                    + 1]);
                        }
                        match spec_collect_sprites(full.skip(i + 1), role@, gdefs, tf) {
                            Result::Ok(rest2) => {
                                assert(view_sprites(prev_out.skip(1)) + (seq![spv] + rest2)
                                    =~= view_sprites(sprites@.skip(1)) + rest2);
                            },
                            Result::Err(_) => {},
                        }
                    }
                }
                i = i + 1;
            }
            proof {
                assert(full.skip(i as int) =~= Seq::<Xml>::empty());
                assert(view_sprites(sprites@.skip(1)) + Seq::<SpriteV>::empty() =~= view_sprites(
                    sprites@.skip(1),
                ));
                assert(view_sprites(sprites@) =~= seq![stv] + view_sprites(sprites@.skip(1))) by {
                    assert(forall|k: int|
                        1 <= k < sprites@.len() ==> sprites@.skip(1)[k - 1] == sprites@[k]);
                }
            }
        },
    }
    let globals = gtbl.into_defs();
    Result::Ok(Role { name: role, notes, globals, sprites })
}

/// Resolves the project under its root container.
#[verifier::rlimit(100)]
#[verifier::spinoff_prover]
pub fn parse_room<T: NameTransformer>(room: &Xml, t: &T) -> (r: Result<Project, Error>)
    ensures
        match r {
            Result::Ok(p) => spec_parse_room(*room, tf_of(*t)) == Result::<ProjectV, ErrorV>::Ok(
                view_project(p),
            ),
            Result::Err(e) => spec_parse_room(*room, tf_of(*t)) == Result::<ProjectV, ErrorV>::Err(
                view_error(e),
            ),
        },
{
    let ghost tf = tf_of(*t);
    let pname = match room.attr("name") {
        Option::Some(a) => a.value.clone(),
        Option::None => "untitled".to_owned(),
    };
    let ghost full = room.children@;
    let mut roles: Vec<Role> = Vec::new();
    let mut i: usize = 0;
    proof {
        assert(full.skip(0) =~= full);
        match spec_collect_roles(full, tf) {
            Result::Ok(rest) => {
                assert(view_roles(roles@) + rest =~= rest);
            },
            Result::Err(_) => {},
        }
    }
    while i < room.children.len()
        invariant
            i <= room.children@.len(),
            full == room.children@,
            tf == tf_of(*t),
            ({
                match spec_collect_roles(full.skip(i as int), tf) {
                    Result::Ok(rest) => spec_collect_roles(full, tf) == Result::<
                        Seq<RoleV>,
                        ErrorV,
                    >::Ok(view_roles(roles@) + rest),
                    Result::Err(e) => spec_collect_roles(full, tf) == Result::<
                        Seq<RoleV>,
                        ErrorV,
                    >::Err(e),
                }
            }),
        decreases room.children@.len() - i,
    {
        let ghost prev_out = roles@;
        let ghost tail = full.skip(i as int);
        assert(tail[0] == full[i as int]);
        proof {
            assert(tail.drop_first() =~= full.skip(i + 1));
        }
        let ch = &room.children[i];
        if str_eq(ch.name.as_str(), "role") {
            let rl = parse_role(ch, t)?;
            let ghost rv = view_role(rl);
            roles.push(rl);
            proof {
                assert(view_roles(roles@) =~= view_roles(prev_out).push(rv)) by {
                    assert(forall|k: int| 0 <= k < prev_out.len() ==> roles@[k] == prev_out[k]);
                }
                match spec_collect_roles(full.skip(i + 1), tf) {
                    Result::Ok(rest2) => {
                        assert(view_roles(prev_out) + (seq![rv] + rest2) =~= view_roles(roles@)
                            + rest2);
                    },
                    Result::Err(_) => {},
                }
            }
        }
        i = i + 1;
    }
    proof {
        assert(full.skip(i as int) =~= Seq::<Xml>::empty());
        assert(view_roles(roles@) + Seq::<RoleV>::empty() =~= view_roles(roles@));
    }
    Result::Ok(Project { name: pname, roles })
}

/// The parser configuration: the reserved optimization toggle and the
/// pluggable renaming policy.
pub struct Parser<T> {
    pub optimize: bool,
    pub name_transformer: T,
}

impl<T: NameTransformer> Parser<T> {
    /// The reserved optimization pass: today the identity.
    fn opt(&self, project: Project) -> (r: Result<Project, Error>)
        ensures
            r == Result::<Project, Error>::Ok(project),
    {
        Result::Ok(project)
    }

    /// Decodes a whole document tree: the first `room` element found in
    /// document order is resolved into the project.
    pub fn parse(&self, root: &Xml) -> (r: Result<Project, Error>)
        ensures
            match r {
                Result::Ok(p) => spec_parse_project(*root, tf_of(self.name_transformer))
                    == Result::<ProjectV, ErrorV>::Ok(view_project(p)),
                Result::Err(e) => spec_parse_project(*root, tf_of(self.name_transformer))
                    == Result::<ProjectV, ErrorV>::Err(view_error(e)),
            },
    {
        match find_room(root) {
            Option::None => Result::Err(
                Error::InvalidProject { error: ProjectError::NoRoot },
            ),
            Option::Some(room) => {
                let project = parse_room(room, &self.name_transformer)?;
                if self.optimize {
                    self.opt(project)
                } else {
                    Result::Ok(project)
                }
            },
        }
    }
}


/// Declaring the same original name twice in the Global scope is a hard
/// error naming the duplicate: defining two collected declarations that
/// share an original name the transform accepts fails with the
/// duplicate-global error carrying that name.
pub proof fn lemma_duplicate_global_rejected(
    n: Seq<char>,
    v1: LiteralV,
    v2: LiteralV,
    tf: spec_fn(Seq<char>) -> Option<Seq<char>>,
    role: Seq<char>,
)
    requires
        tf(n) is Some,
    ensures
        spec_define_globals(seq![(n, v1), (n, v2)], Seq::empty(), tf, role) == Result::<
            Seq<VariableDefV>,
            ErrorV,
        >::Err(
            ErrorV::InvalidProject { error: ProjectErrorV::GlobalsWithSameName { role, name: n } },
        ),
{
    let pairs = seq![(n, v1), (n, v2)];
    let empty = Seq::<VariableDefV>::empty();
    let trans = tf(n)->Some_0;
    let nd1 = VariableDefV { name: n, trans_name: trans, value: v1 };
    assert(pairs[0] == (n, v1));
    assert(spec_define(empty, tf, n, v1) == Result::<
        (Seq<VariableDefV>, Option<VariableDefV>),
        SymbolErrorV,
    >::Ok((empty.push(nd1), Option::None)));
    let defs1 = empty.push(nd1);
    assert(defs1.len() == 1 && defs1[0] == nd1);
    assert(pairs.drop_first() =~= seq![(n, v2)]);
    assert(pairs.drop_first()[0] == (n, v2));
    // The second definition finds the name already bound.
    assert(!(exists|i: int|
        0 <= i < defs1.len() && defs1[i].trans_name == trans && defs1[i].name != n)) by {
        assert(forall|i: int| 0 <= i < defs1.len() ==> #[trigger] defs1[i] == nd1);
    }
    assert(defs1[0].name == n);
    match spec_define(defs1, tf, n, v2) {
        Result::Ok(p) => {
            let i = choose|i: int| 0 <= i < defs1.len() && defs1[i].name == n;
            assert(i == 0);
            assert(p.1 == Option::Some(nd1));
        },
        Result::Err(_) => {
            assert(false);
        },
    }
    let target = Result::<Seq<VariableDefV>, ErrorV>::Err(
        ErrorV::InvalidProject { error: ProjectErrorV::GlobalsWithSameName { role, name: n } },
    );
    assert(spec_define_globals(pairs.drop_first(), defs1, tf, role) == target);
    assert(spec_define_globals(pairs, empty, tf, role) == target);
}

/// Declaring the same original name twice in the Field scope is a hard
/// error naming the duplicate, in the same way.
pub proof fn lemma_duplicate_field_rejected(
    n: Seq<char>,
    v1: LiteralV,
    v2: LiteralV,
    tf: spec_fn(Seq<char>) -> Option<Seq<char>>,
    role: Seq<char>,
    sprite: Seq<char>,
)
    requires
        tf(n) is Some,
    ensures
        spec_define_fields(seq![(n, v1), (n, v2)], Seq::empty(), tf, role, sprite) == Result::<
            Seq<VariableDefV>,
            ErrorV,
        >::Err(
            ErrorV::InvalidProject {
                error: ProjectErrorV::FieldsWithSameName { role, sprite, name: n },
            },
        ),
{
    let pairs = seq![(n, v1), (n, v2)];
    let empty = Seq::<VariableDefV>::empty();
    let trans = tf(n)->Some_0;
    let nd1 = VariableDefV { name: n, trans_name: trans, value: v1 };
    assert(pairs[0] == (n, v1));
    assert(spec_define(empty, tf, n, v1) == Result::<
        (Seq<VariableDefV>, Option<VariableDefV>),
        SymbolErrorV,
    >::Ok((empty.push(nd1), Option::None)));
    let defs1 = empty.push(nd1);
    assert(defs1.len() == 1 && defs1[0] == nd1);
    assert(pairs.drop_first() =~= seq![(n, v2)]);
    assert(pairs.drop_first()[0] == (n, v2));
    assert(!(exists|i: int|
        0 <= i < defs1.len() && defs1[i].trans_name == trans && defs1[i].name != n)) by {
        assert(forall|i: int| 0 <= i < defs1.len() ==> #[trigger] defs1[i] == nd1);
    }
    assert(defs1[0].name == n);
    match spec_define(defs1, tf, n, v2) {
        Result::Ok(p) => {
            let i = choose|i: int| 0 <= i < defs1.len() && defs1[i].name == n;
            assert(i == 0);
            assert(p.1 == Option::Some(nd1));
        },
        Result::Err(_) => {
            assert(false);
        },
    }
    let target = Result::<Seq<VariableDefV>, ErrorV>::Err(
        ErrorV::InvalidProject {
            error: ProjectErrorV::FieldsWithSameName { role, sprite, name: n },
        },
    );
    assert(spec_define_fields(pairs.drop_first(), defs1, tf, role, sprite) == target);
    assert(spec_define_fields(pairs, empty, tf, role, sprite) == target);
}

} // verus!

use blocks_ast::ast::{Expr, Hat, Literal, Stmt, VarLocation};
use blocks_ast::error::{Error, ProjectError};
use blocks_ast::expr::{parse_expr, Scope};
use blocks_ast::project::Parser;
use blocks_ast::script::{parse_script, parse_stmt};
use blocks_ast::symbol::{IdentityTransform, SymbolTable};
use blocks_ast::xml_tree::{Xml, XmlAttr};

fn el(name: &str, attrs: Vec<(&str, &str)>, children: Vec<Xml>) -> Xml {
    Xml {
        name: name.to_owned(),
        text: String::new(),
        attrs: attrs
            .into_iter()
            .map(|(n, v)| XmlAttr { name: n.to_owned(), value: v.to_owned() })
            .collect(),
        children,
    }
}

fn lit(text: &str) -> Xml {
    Xml {
        name: "l".to_owned(),
        text: text.to_owned(),
        attrs: vec![],
        children: vec![],
    }
}

fn block(s: &str, children: Vec<Xml>) -> Xml {
    el("block", vec![("s", s)], children)
}

fn var_block(name: &str) -> Xml {
    el("block", vec![("var", name)], vec![])
}

fn option(text: &str) -> Xml {
    let mut o = el("option", vec![], vec![]);
    o.text = text.to_owned();
    o
}

#[test]
fn arity_error_reports_needed_and_got() {
    let t = IdentityTransform;
    let role = "R".to_owned();
    let sprite = "S".to_owned();
    let globals = SymbolTable::new();
    let fields = SymbolTable::new();
    let locals = SymbolTable::new();
    let scope = Scope {
        transformer: &t,
        role: &role,
        sprite: &sprite,
        globals: &globals,
        fields: &fields,
    };
    // A sum block needs two children; give it one.
    let x = block("reportSum", vec![lit("1")]);
    let e = parse_expr(&x, &scope, &locals).unwrap_err();
    match e {
        Error::InvalidProject {
            error: ProjectError::BlockChildCount { needed, got, block_type, .. },
        } => {
            assert_eq!(needed, 2);
            assert_eq!(got, 1);
            assert_eq!(block_type, "reportSum".to_owned());
        }
        other => panic!("unexpected error: {other:?}"),
    }
}

fn room_with_one_script(script_body: Vec<Xml>) -> Xml {
    let scripts = el("scripts", vec![], vec![el("script", vec![], script_body)]);
    let stage = el(
        "stage",
        vec![("name", "Stage")],
        vec![el("sprites", vec![], vec![el(
            "sprite",
            vec![("name", "S")],
            vec![scripts],
        )])],
    );
    let project = el("project", vec![], vec![stage]);
    let role = el("role", vec![("name", "R")], vec![project]);
    el("room", vec![("name", "P")], vec![role])
}

#[test]
fn reporter_stub_scripts_are_filtered_out() {
    let parser = Parser { optimize: false, name_transformer: IdentityTransform };
    // The sprite's only script is a single reporter-style stub block.
    let room = room_with_one_script(vec![block("reportSomething", vec![])]);
    let p = parser.parse(&room).unwrap();
    assert_eq!(p.name, "P".to_owned());
    assert_eq!(p.roles.len(), 1);
    assert_eq!(p.roles[0].name, "R".to_owned());
    // The stage is the first sprite, the declared sprite the second.
    assert_eq!(p.roles[0].sprites.len(), 2);
    let s = &p.roles[0].sprites[1];
    assert_eq!(s.name, "S".to_owned());
    assert!(s.fields.is_empty());
    assert!(s.scripts.is_empty(), "the stub must be dropped");
}

#[test]
fn for_loop_body_sees_the_induction_variable_as_local() {
    let t = IdentityTransform;
    let role = "R".to_owned();
    let sprite = "S".to_owned();
    let globals = SymbolTable::new();
    let fields = SymbolTable::new();
    let mut locals = SymbolTable::new();
    let scope = Scope {
        transformer: &t,
        role: &role,
        sprite: &sprite,
        globals: &globals,
        fields: &fields,
    };
    let body = el("script", vec![], vec![block("doWait", vec![var_block("i")])]);
    let script = el(
        "script",
        vec![],
        vec![block("doFor", vec![lit("i"), lit("1"), lit("10"), body])],
    );
    let sc = parse_script(&script, &scope, &mut locals).unwrap();
    assert!(sc.hat.is_none());
    assert_eq!(sc.stmts.len(), 1);
    match &sc.stmts[0] {
        Stmt::ForLoop { var, stmts, .. } => {
            assert_eq!(var.location, VarLocation::Local);
            match &stmts[0] {
                Stmt::Sleep { seconds: Expr::Variable { var: seen, .. }, .. } => {
                    assert_eq!(seen.location, VarLocation::Local);
                    assert_eq!(seen.trans_name, var.trans_name);
                    assert_eq!(seen.name, "i".to_owned());
                }
                other => panic!("unexpected body: {other:?}"),
            }
        }
        other => panic!("unexpected statement: {other:?}"),
    }
}

#[test]
fn remove_from_list_option_dispatch() {
    let t = IdentityTransform;
    let role = "R".to_owned();
    let sprite = "S".to_owned();
    let globals = SymbolTable::new();
    let fields = SymbolTable::new();
    let scope = Scope {
        transformer: &t,
        role: &role,
        sprite: &sprite,
        globals: &globals,
        fields: &fields,
    };
    let list = || el("block", vec![("s", "reportNewList")], vec![el("list", vec![], vec![])]);

    // Option "last" yields a pop with no comment.
    let mut locals = SymbolTable::new();
    let x = block("doDeleteFromList", vec![el("l", vec![], vec![option("last")]), list()]);
    let st = parse_stmt(&x, &scope, &mut locals).unwrap();
    assert!(matches!(st, Stmt::Pop { comment: None, .. }));

    // No option and an explicit index yields a remove-at.
    let mut locals = SymbolTable::new();
    let x = block("doDeleteFromList", vec![lit("3"), list()]);
    let st = parse_stmt(&x, &scope, &mut locals).unwrap();
    match st {
        Stmt::RemoveAt { index, comment, .. } => {
            assert_eq!(index, Expr::Value(Literal::Number("3".to_owned())));
            assert!(comment.is_none());
        }
        other => panic!("unexpected statement: {other:?}"),
    }

    // An empty option is the option-not-selected error.
    let mut locals = SymbolTable::new();
    let x = block("doDeleteFromList", vec![el("l", vec![], vec![option("")]), list()]);
    let e = parse_stmt(&x, &scope, &mut locals).unwrap_err();
    assert!(matches!(e, Error::BlockOptionNotSelected { .. }));
}

#[test]
fn hat_and_statements_decode_end_to_end() {
    let parser = Parser { optimize: true, name_transformer: IdentityTransform };
    let decl = block(
        "doDeclareVariables",
        vec![el("list", vec![], vec![lit("x"), lit("y")])],
    );
    let set = block("doSetVar", vec![lit("x"), lit("5")]);
    let room = room_with_one_script(vec![block("receiveGo", vec![]), decl, set]);
    let p = parser.parse(&room).unwrap();
    let s = &p.roles[0].sprites[1];
    assert_eq!(s.scripts.len(), 1);
    let sc = &s.scripts[0];
    assert!(matches!(sc.hat, Some(Hat::OnFlag { comment: None })));
    assert_eq!(sc.stmts.len(), 2);
    match &sc.stmts[0] {
        Stmt::Assign { vars, value, .. } => {
            assert_eq!(vars.len(), 2);
            assert_eq!(vars[0].name, "x".to_owned());
            assert_eq!(vars[1].name, "y".to_owned());
            assert_eq!(*value, Expr::Value(Literal::Number("0".to_owned())));
        }
        other => panic!("unexpected statement: {other:?}"),
    }
    match &sc.stmts[1] {
        Stmt::Assign { vars, value, .. } => {
            assert_eq!(vars.len(), 1);
            assert_eq!(vars[0].location, VarLocation::Local);
            assert_eq!(*value, Expr::Value(Literal::Number("5".to_owned())));
        }
        other => panic!("unexpected statement: {other:?}"),
    }
}

#[test]
fn missing_room_is_the_no_root_error() {
    let parser = Parser { optimize: false, name_transformer: IdentityTransform };
    let tree = el("document", vec![], vec![el("other", vec![], vec![])]);
    let e = parser.parse(&tree).unwrap_err();
    assert!(matches!(
        e,
        Error::InvalidProject { error: ProjectError::NoRoot }
    ));
}

#[test]
fn duplicate_global_and_field_declarations_fail() {
    let parser = Parser { optimize: false, name_transformer: IdentityTransform };
    let var_decl = |n: &str| el("variable", vec![("name", n)], vec![lit("1")]);
    // Two globals with the same original name.
    let variables = el("variables", vec![], vec![var_decl("g"), var_decl("g")]);
    let stage = el("stage", vec![("name", "Stage")], vec![]);
    let project = el("project", vec![], vec![variables, stage]);
    let role = el("role", vec![("name", "R")], vec![project]);
    let room = el("room", vec![("name", "P")], vec![role]);
    let e = parser.parse(&room).unwrap_err();
    match e {
        Error::InvalidProject { error: ProjectError::GlobalsWithSameName { role, name } } => {
            assert_eq!(role, "R".to_owned());
            assert_eq!(name, "g".to_owned());
        }
        other => panic!("unexpected error: {other:?}"),
    }
    // Two fields with the same original name.
    let fields = el("variables", vec![], vec![var_decl("f"), var_decl("f")]);
    let stage = el(
        "stage",
        vec![("name", "Stage")],
        vec![el("sprites", vec![], vec![el("sprite", vec![("name", "S")], vec![fields])])],
    );
    let project = el("project", vec![], vec![stage]);
    let role = el("role", vec![("name", "R")], vec![project]);
    let room = el("room", vec![("name", "P")], vec![role]);
    let e = parser.parse(&room).unwrap_err();
    match e {
        Error::InvalidProject { error: ProjectError::FieldsWithSameName { sprite, name, .. } } => {
            assert_eq!(sprite, "S".to_owned());
            assert_eq!(name, "f".to_owned());
        }
        other => panic!("unexpected error: {other:?}"),
    }
}

#[test]
fn atomic_list_literal_decodes_inside_a_block() {
    let t = IdentityTransform;
    let role = "R".to_owned();
    let sprite = "S".to_owned();
    let globals = SymbolTable::new();
    let fields = SymbolTable::new();
    let locals = SymbolTable::new();
    let scope = Scope {
        transformer: &t,
        role: &role,
        sprite: &sprite,
        globals: &globals,
        fields: &fields,
    };
    let mut list = el("list", vec![("struct", "atomic")], vec![]);
    list.text = "1, \"a\", true".to_owned();
    let e = parse_expr(&list, &scope, &locals).unwrap();
    assert_eq!(
        e,
        Expr::Value(Literal::List(vec![
            Literal::Number("1".to_owned()),
            Literal::String("a".to_owned()),
            Literal::Bool(true),
        ]))
    );
}

#[test]
fn insert_into_list_reads_the_index_from_the_selector_slot() {
    let t = IdentityTransform;
    let role = "R".to_owned();
    let sprite = "S".to_owned();
    let globals = SymbolTable::new();
    let fields = SymbolTable::new();
    let scope = Scope {
        transformer: &t,
        role: &role,
        sprite: &sprite,
        globals: &globals,
        fields: &fields,
    };
    let list = || el("block", vec![("s", "reportNewList")], vec![el("list", vec![], vec![])]);
    // children: value, explicit index in the selector slot, list.
    let mut locals = SymbolTable::new();
    let x = block("doInsertInList", vec![lit("7"), lit("3"), list()]);
    let st = parse_stmt(&x, &scope, &mut locals).unwrap();
    match st {
        Stmt::InsertAt { value, index, .. } => {
            assert_eq!(value, Expr::Value(Literal::Number("7".to_owned())));
            assert_eq!(index, Expr::Value(Literal::Number("3".to_owned())));
        }
        other => panic!("unexpected statement: {other:?}"),
    }
    // Option "last" still appends.
    let mut locals = SymbolTable::new();
    let x = block(
        "doInsertInList",
        vec![lit("7"), el("l", vec![], vec![option("last")]), list()],
    );
    let st = parse_stmt(&x, &scope, &mut locals).unwrap();
    assert!(matches!(st, Stmt::Push { .. }));
}

#[test]
fn list_prepend_reads_both_operands() {
    let t = IdentityTransform;
    let role = "R".to_owned();
    let sprite = "S".to_owned();
    let globals = SymbolTable::new();
    let fields = SymbolTable::new();
    let locals = SymbolTable::new();
    let scope = Scope {
        transformer: &t,
        role: &role,
        sprite: &sprite,
        globals: &globals,
        fields: &fields,
    };
    let x = block("reportCONS", vec![lit("9"), lit("tail")]);
    let e = parse_expr(&x, &scope, &locals).unwrap();
    match e {
        Expr::Listcat { lists, .. } => {
            assert_eq!(lists.len(), 2);
            assert_eq!(lists[0], Expr::Value(Literal::Number("9".to_owned())));
            assert_eq!(lists[1], Expr::Value(Literal::String("tail".to_owned())));
        }
        other => panic!("unexpected expression: {other:?}"),
    }
}

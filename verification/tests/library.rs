use blocks_ast::ast::{Literal, VarLocation};
use blocks_ast::expr::{reference_var, Scope};
use blocks_ast::json::parse_atomic;
use blocks_ast::symbol::{IdentityTransform, SymbolTable};
use blocks_ast::text::{clean_newlines, is_numeric_text};
use blocks_ast::xml_tree::{Xml, XmlAttr};

fn num(s: &str) -> Literal {
    Literal::Number(s.to_owned())
}

#[test]
fn newlines_are_normalized() {
    assert_eq!(clean_newlines("a\r\nb\rc\nd"), "a\nb\nc\nd".to_owned());
    assert_eq!(clean_newlines(""), "".to_owned());
    assert_eq!(clean_newlines("\r\r\n"), "\n\n".to_owned());
}

#[test]
fn numeric_syntax() {
    let ok = ["12", "-12.5", "1e9", "2.5E-3", "inf", "-Infinity", "NaN", ".5", "3."];
    for t in ok {
        assert!(is_numeric_text(&t.chars().collect()), "{t}");
    }
    let bad = ["", "abc", "1.2.3", "1e", "e5", "--2", "4f", "0x10"];
    for t in bad {
        assert!(!is_numeric_text(&t.chars().collect()), "{t}");
    }
}

#[test]
fn identity_transform_keeps_name() {
    let t = IdentityTransform;
    let mut table = SymbolTable::new();
    let r = table.define(&t, "speed".to_owned(), num("0"));
    assert!(matches!(r, Ok(None)));
    let def = table.get("speed").unwrap();
    assert_eq!(def.name, "speed".to_owned());
    assert_eq!(def.trans_name, "speed".to_owned());
}

#[test]
fn local_redeclaration_replaces_in_place() {
    let t = IdentityTransform;
    let mut table = SymbolTable::new();
    assert!(matches!(table.define(&t, "x".to_owned(), num("0")), Ok(None)));
    assert!(matches!(table.define(&t, "y".to_owned(), num("1")), Ok(None)));
    // Redeclaring the same name succeeds and hands back the old definition.
    let prev = table.define(&t, "x".to_owned(), num("7")).unwrap().unwrap();
    assert_eq!(prev.value, num("0"));
    // The later definition shadows the earlier one, in place.
    let defs = table.into_defs();
    assert_eq!(defs.len(), 2);
    assert_eq!(defs[0].name, "x".to_owned());
    assert_eq!(defs[0].value, num("7"));
    assert_eq!(defs[1].name, "y".to_owned());
}

#[test]
fn resolution_prefers_local_then_field_then_global() {
    let t = IdentityTransform;
    let mut globals = SymbolTable::new();
    let mut fields = SymbolTable::new();
    let mut locals = SymbolTable::new();
    globals.define(&t, "x".to_owned(), num("1")).unwrap();
    fields.define(&t, "x".to_owned(), num("2")).unwrap();
    locals.define(&t, "x".to_owned(), num("3")).unwrap();
    let role = "R".to_owned();
    let sprite = "S".to_owned();
    let scope = Scope {
        transformer: &t,
        role: &role,
        sprite: &sprite,
        globals: &globals,
        fields: &fields,
    };
    let r = reference_var(&scope, &locals, "x".to_owned()).unwrap();
    assert_eq!(r.location, VarLocation::Local);
    let empty_locals = SymbolTable::new();
    let r = reference_var(&scope, &empty_locals, "x".to_owned()).unwrap();
    assert_eq!(r.location, VarLocation::Field);
    let empty_fields = SymbolTable::new();
    let scope2 = Scope {
        transformer: &t,
        role: &role,
        sprite: &sprite,
        globals: &globals,
        fields: &empty_fields,
    };
    let r = reference_var(&scope2, &empty_locals, "x".to_owned()).unwrap();
    assert_eq!(r.location, VarLocation::Global);
    let empty_globals = SymbolTable::new();
    let scope3 = Scope {
        transformer: &t,
        role: &role,
        sprite: &sprite,
        globals: &empty_globals,
        fields: &empty_fields,
    };
    assert!(reference_var(&scope3, &empty_locals, "x".to_owned()).is_err());
}

#[test]
fn atomic_list_decodes_to_literals() {
    let v = parse_atomic("1, \"a\", true").unwrap();
    assert_eq!(
        v,
        Literal::List(vec![num("1"), Literal::String("a".to_owned()), Literal::Bool(true)])
    );
}

#[test]
fn atomic_list_rejects_objects_and_bad_text() {
    let e = parse_atomic("{}").unwrap_err();
    assert_eq!(e, "got object".to_owned());
    let e = parse_atomic("1,
").unwrap_err();
    assert!(e.starts_with("content was not json: "));
}

#[test]
fn tree_get_and_attr() {
    let inner = Xml {
        name: "stage".to_owned(),
        text: "".to_owned(),
        attrs: vec![XmlAttr { name: "name".to_owned(), value: "Stage".to_owned() }],
        children: vec![],
    };
    let root = Xml {
        name: "project".to_owned(),
        text: "".to_owned(),
        attrs: vec![],
        children: vec![inner],
    };
    let got = root.get(&["stage"]).unwrap();
    assert_eq!(got.attr("name").unwrap().value, "Stage".to_owned());
    assert!(root.get(&["sprite"]).is_none());
    assert!(got.attr("missing").is_none());
}

use std::sync::Arc;

use expr_validation::diagnostics::DiagnosticSink;
use expr_validation::ir::{
    Database, Expr, FnData, Function, GenericArgs, InferenceResult, Path, PathSegment, RecordDef,
    StructLitField, SyntaxPtr, Ty, TypeRef,
};
use expr_validation::name::Name;
use expr_validation::validation::{is_outcome_name, ExprValidator};

fn nm(s: &str) -> Name {
    Name::new(s.as_bytes().to_vec())
}

fn field(name: &str, expr: usize) -> StructLitField {
    StructLitField { name: nm(name), expr }
}

fn point_records() -> Vec<RecordDef> {
    vec![RecordDef { fields: vec![nm("x"), nm("y")] }]
}

fn one_fn_db(
    text: &str,
    body: Vec<Expr>,
    ret_type: TypeRef,
    source_map: Vec<Option<SyntaxPtr>>,
    records: Vec<RecordDef>,
) -> Database {
    Database {
        files: vec![text.to_string()],
        functions: vec![FnData { body, ret_type, file: 0, source_map }],
        records,
    }
}

fn run(db: &Database, infer: InferenceResult) -> ExprValidator {
    let mut v = ExprValidator::new(Function { id: 0 }, Arc::new(infer), DiagnosticSink::new());
    v.validate_body(db);
    v
}

#[test]
fn missing_field_flagged_with_field_list_node() {
    let text = "fn f() { Point { x: 1 } }";
    let lit_start = text.find("Point").unwrap() as u32;
    let fl_start = text.find("{ x").unwrap() as u32;
    let fl_end = fl_start + "{ x: 1 }".len() as u32;
    let body = vec![
        Expr::Other,
        Expr::StructLit { path: None, fields: vec![field("x", 0)], spread: None },
    ];
    let source_map = vec![None, Some(SyntaxPtr { start: lit_start, end: fl_end })];
    let infer = InferenceResult { types: vec![Ty::Other, Ty::Record(0)] };
    let db = one_fn_db(text, body, TypeRef::Other, source_map, point_records());
    let v = run(&db, infer);
    assert_eq!(v.sink.diags.len(), 1);
    let d = &v.sink.diags[0];
    assert_eq!(d.file, 0);
    assert_eq!(d.missed_fields.len(), 1);
    assert_eq!(d.missed_fields[0].as_bytes().as_slice(), b"y".as_slice());
    assert_eq!(d.field_list.start, fl_start);
    assert_eq!(d.field_list.end, fl_end);
}

#[test]
fn spread_is_never_flagged() {
    let text = "fn f() { Point { x: 1, ..base } }";
    let body = vec![
        Expr::Other,
        Expr::Other,
        Expr::StructLit { path: None, fields: vec![field("x", 0)], spread: Some(1) },
    ];
    let source_map = vec![None, None, None];
    let infer = InferenceResult { types: vec![Ty::Other, Ty::Other, Ty::Record(0)] };
    let db = one_fn_db(text, body, TypeRef::Other, source_map, point_records());
    let v = run(&db, infer);
    assert_eq!(v.sink.diags.len(), 0);
}

#[test]
fn all_fields_any_order_not_flagged() {
    let text = "fn f() { Point { y: 2, x: 1 } }";
    let body = vec![
        Expr::Other,
        Expr::Other,
        Expr::StructLit { path: None, fields: vec![field("y", 1), field("x", 0)], spread: None },
    ];
    let source_map = vec![None, None, None];
    let infer = InferenceResult { types: vec![Ty::Other, Ty::Other, Ty::Record(0)] };
    let db = one_fn_db(text, body, TypeRef::Other, source_map, point_records());
    let v = run(&db, infer);
    assert_eq!(v.sink.diags.len(), 0);
}

#[test]
fn duplicate_fields_still_cover_declaration() {
    let text = "fn f() { Point { x: 1, y: 2, x: 3 } }";
    let body = vec![
        Expr::Other,
        Expr::Other,
        Expr::Other,
        Expr::StructLit {
            path: None,
            fields: vec![field("x", 0), field("y", 1), field("x", 2)],
            spread: None,
        },
    ];
    let source_map = vec![None, None, None, None];
    let infer = InferenceResult { types: vec![Ty::Other, Ty::Other, Ty::Other, Ty::Record(0)] };
    let db = one_fn_db(text, body, TypeRef::Other, source_map, point_records());
    let v = run(&db, infer);
    assert_eq!(v.sink.diags.len(), 0);
}

#[test]
fn zero_declared_fields_never_missing() {
    let text = "fn f() { Unit {} }";
    let body = vec![Expr::StructLit { path: None, fields: vec![], spread: None }];
    let source_map = vec![Some(SyntaxPtr { start: 9, end: 16 })];
    let infer = InferenceResult { types: vec![Ty::Record(0)] };
    let db = one_fn_db(text, body, TypeRef::Other, source_map, vec![RecordDef { fields: vec![] }]);
    let v = run(&db, infer);
    assert_eq!(v.sink.diags.len(), 0);
}

#[test]
fn missed_fields_keep_declaration_order() {
    let text = "fn g() { T3 { b: 1 } }";
    let lit_start = text.find("T3").unwrap() as u32;
    let fl_start = text.find("{ b").unwrap() as u32;
    let fl_end = fl_start + "{ b: 1 }".len() as u32;
    let body = vec![
        Expr::Other,
        Expr::StructLit { path: None, fields: vec![field("b", 0)], spread: None },
    ];
    let source_map = vec![None, Some(SyntaxPtr { start: lit_start, end: fl_end })];
    let infer = InferenceResult { types: vec![Ty::Other, Ty::Record(0)] };
    let records = vec![RecordDef { fields: vec![nm("a"), nm("b"), nm("c")] }];
    let db = one_fn_db(text, body, TypeRef::Other, source_map, records);
    let v = run(&db, infer);
    assert_eq!(v.sink.diags.len(), 1);
    let d = &v.sink.diags[0];
    assert_eq!(d.missed_fields.len(), 2);
    assert_eq!(d.missed_fields[0].as_bytes().as_slice(), b"a".as_slice());
    assert_eq!(d.missed_fields[1].as_bytes().as_slice(), b"c".as_slice());
}

#[test]
fn unresolved_type_never_flagged() {
    let text = "fn f() { Point { x: 1 } }";
    let body = vec![
        Expr::Other,
        Expr::StructLit { path: None, fields: vec![field("x", 0)], spread: None },
    ];
    let source_map = vec![None, Some(SyntaxPtr { start: 9, end: 23 })];
    let infer = InferenceResult { types: vec![Ty::Other, Ty::Other] };
    let db = one_fn_db(text, body, TypeRef::Other, source_map, point_records());
    let v = run(&db, infer);
    assert_eq!(v.sink.diags.len(), 0);
}

#[test]
fn diagnostic_dropped_without_source_map_entry() {
    let text = "fn f() { Point { x: 1 } }";
    let body = vec![
        Expr::Other,
        Expr::StructLit { path: None, fields: vec![field("x", 0)], spread: None },
    ];
    let source_map = vec![None, None];
    let infer = InferenceResult { types: vec![Ty::Other, Ty::Record(0)] };
    let db = one_fn_db(text, body, TypeRef::Other, source_map, point_records());
    let v = run(&db, infer);
    assert_eq!(v.sink.diags.len(), 0);
}

#[test]
fn diagnostic_dropped_when_node_is_no_literal() {
    let text = "fn f() { Point { x: 1 } }";
    let body = vec![
        Expr::Other,
        Expr::StructLit { path: None, fields: vec![field("x", 0)], spread: None },
    ];
    let source_map = vec![None, Some(SyntaxPtr { start: 0, end: 2 })];
    let infer = InferenceResult { types: vec![Ty::Other, Ty::Record(0)] };
    let db = one_fn_db(text, body, TypeRef::Other, source_map, point_records());
    let v = run(&db, infer);
    assert_eq!(v.sink.diags.len(), 0);
}

#[test]
fn revalidation_appends_identical_diagnostics() {
    let text = "fn f() { Point { x: 1 } }";
    let lit_start = text.find("Point").unwrap() as u32;
    let fl_start = text.find("{ x").unwrap() as u32;
    let fl_end = fl_start + "{ x: 1 }".len() as u32;
    let body = vec![
        Expr::Other,
        Expr::StructLit { path: None, fields: vec![field("x", 0)], spread: None },
    ];
    let source_map = vec![None, Some(SyntaxPtr { start: lit_start, end: fl_end })];
    let infer = InferenceResult { types: vec![Ty::Other, Ty::Record(0)] };
    let db = one_fn_db(text, body, TypeRef::Other, source_map, point_records());
    let mut v = ExprValidator::new(
        Function { id: 0 },
        Arc::new(infer),
        DiagnosticSink::new(),
    );
    v.validate_body(&db);
    v.validate_body(&db);
    assert_eq!(v.sink.diags.len(), 2);
    let first = &v.sink.diags[0];
    let second = &v.sink.diags[1];
    assert_eq!(first.file, second.file);
    assert_eq!(first.field_list.start, second.field_list.start);
    assert_eq!(first.field_list.end, second.field_list.end);
    assert_eq!(first.missed_fields.len(), second.missed_fields.len());
    for k in 0..first.missed_fields.len() {
        assert_eq!(
            first.missed_fields[k].as_bytes(),
            second.missed_fields[k].as_bytes()
        );
    }
}

fn outcome_ret(args: Option<GenericArgs>) -> TypeRef {
    TypeRef::Path(Path {
        segments: vec![PathSegment { name: nm("Outcome"), args_and_bindings: args }],
    })
}

fn named_type(s: &str) -> TypeRef {
    TypeRef::Path(Path {
        segments: vec![PathSegment { name: nm(s), args_and_bindings: None }],
    })
}

#[test]
fn tail_check_extracts_success_type() {
    let text = "fn h() -> Outcome<Int, Error> { 1 }";
    let ret = outcome_ret(Some(GenericArgs { args: vec![named_type("Int"), named_type("Error")] }));
    let body = vec![Expr::Other];
    let source_map = vec![None];
    let infer = InferenceResult { types: vec![Ty::Other] };
    let db = one_fn_db(text, body, ret, source_map, vec![]);
    let v = run(&db, infer);
    assert_eq!(v.sink.diags.len(), 0);
    let r = v.validate_results_in_tail_expr(0, &db.functions[0].body[0], &db);
    match r {
        Some(TypeRef::Path(p)) => {
            assert_eq!(p.segments.len(), 1);
            assert_eq!(p.segments[0].name.as_bytes().as_slice(), b"Int".as_slice());
        }
        _ => panic!("expected the success-type argument"),
    }
}

#[test]
fn tail_check_ignores_other_return_types() {
    let text = "fn h() -> Thing { 1 }";
    let body = vec![Expr::Other];
    let infer = InferenceResult { types: vec![Ty::Other] };
    let db = one_fn_db(text, body, named_type("Thing"), vec![None], vec![]);
    let v = run(&db, infer);
    let r = v.validate_results_in_tail_expr(0, &db.functions[0].body[0], &db);
    assert!(r.is_none());
}

#[test]
fn tail_check_needs_generic_arguments() {
    let text = "fn h() -> Outcome { 1 }";
    let body = vec![Expr::Other];
    let infer = InferenceResult { types: vec![Ty::Other] };
    let db = one_fn_db(text, body, outcome_ret(None), vec![None], vec![]);
    let v = run(&db, infer);
    let r = v.validate_results_in_tail_expr(0, &db.functions[0].body[0], &db);
    assert!(r.is_none());
}

#[test]
fn outcome_name_is_matched_exactly() {
    assert!(is_outcome_name(&nm("Outcome")));
    assert!(!is_outcome_name(&nm("Outcom")));
    assert!(!is_outcome_name(&nm("Outcomes")));
    assert!(!is_outcome_name(&nm("outcome")));
}

#[test]
fn empty_body_is_a_no_op() {
    let text = "fn f() {}";
    let infer = InferenceResult { types: vec![] };
    let db = one_fn_db(text, vec![], TypeRef::Other, vec![], vec![]);
    let v = run(&db, infer);
    assert_eq!(v.sink.diags.len(), 0);
}

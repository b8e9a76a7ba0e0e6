//! Detection tests, on syntax trees written out by hand for the Lua source
//! each test names.
use depot::lua_analysis::scanner::{
    file_result, scan_program, BinaryOp, DetectedFeature, Expression, Part, Span, Statement,
    UnaryOp,
};
use depot::lua_analysis::LuaVersionSet;

fn at(line: u32, column: u32) -> Span {
    Span { line, column }
}

fn id(name: &str) -> Expression {
    Expression::Identifier(name.to_string())
}

fn lit(text: &str) -> Expression {
    Expression::StringLiteral(text.to_string())
}

fn member(obj: Expression, name: &str, line: u32, column: u32) -> Expression {
    Expression::Member(Box::new(obj), name.to_string(), at(line, column))
}

fn call(callee: Expression, args: Vec<Expression>, line: u32, column: u32) -> Expression {
    Expression::Call(Box::new(callee), args, at(line, column))
}

fn binary(op: BinaryOp, l: Expression, r: Expression, line: u32, column: u32) -> Expression {
    Expression::Binary(op, Box::new(l), Box::new(r), at(line, column))
}

fn unary(op: UnaryOp, x: Expression, line: u32, column: u32) -> Expression {
    Expression::Unary(op, Box::new(x), at(line, column))
}

/// A statement made of expressions, such as `local x = e` or `f(x)`.
fn stmt(exprs: Vec<Expression>) -> Statement {
    Statement::Compound(exprs.into_iter().map(Part::Expression).collect())
}

fn scan(program: Vec<Statement>) -> Vec<DetectedFeature> {
    scan_program(&program)
}

fn feature_names(program: Vec<Statement>) -> Vec<String> {
    scan(program).into_iter().map(|f| f.info.name.to_string()).collect()
}

/// `#t`
fn len_of(name: &str, line: u32, column: u32) -> Expression {
    unary(UnaryOp::Other, id(name), line, column)
}

#[test]
fn test_detect_table_move() {
    // table.move(t, 1, #t, 2)
    let features = feature_names(vec![stmt(vec![call(
        member(id("table"), "move", 1, 1),
        vec![id("t"), lit("1"), len_of("t", 1, 18), lit("2")],
        1,
        1,
    )])]);
    assert!(features.contains(&"table.move".to_string()));
}

#[test]
fn test_detect_setfenv() {
    // setfenv(1, env)
    let features = feature_names(vec![stmt(vec![call(id("setfenv"), vec![lit("1"), id("env")], 1, 1)])]);
    assert!(features.contains(&"setfenv".to_string()));
}

#[test]
fn test_detect_string_pack() {
    // local packed = string.pack('i4', 42)
    let features = feature_names(vec![stmt(vec![call(
        member(id("string"), "pack", 1, 16),
        vec![lit("i4"), lit("42")],
        1,
        16,
    )])]);
    assert!(features.contains(&"string.pack".to_string()));
}

#[test]
fn test_detect_warn() {
    // warn('something happened')
    let features = feature_names(vec![stmt(vec![call(id("warn"), vec![lit("something happened")], 1, 1)])]);
    assert!(features.contains(&"warn".to_string()));
}

#[test]
fn test_detect_goto() {
    // goto done
    // ::done::
    let features = feature_names(vec![Statement::Goto(at(1, 1)), Statement::Label(at(2, 1))]);
    assert!(features.contains(&"goto".to_string()));
    assert!(features.contains(&"::label::".to_string()));
}

#[test]
fn test_detect_integer_division() {
    // local x = 10 // 3
    let features = feature_names(vec![stmt(vec![binary(BinaryOp::IntegerDivide, lit("10"), lit("3"), 1, 11)])]);
    assert!(features.contains(&"// (integer division)".to_string()));
}

#[test]
fn test_detect_bitwise_and() {
    // local x = a & b
    let features = feature_names(vec![stmt(vec![binary(BinaryOp::BitwiseAnd, id("a"), id("b"), 1, 11)])]);
    assert!(features.contains(&"& (bitwise AND)".to_string()));
}

#[test]
fn test_detect_bitwise_not() {
    // local x = ~a
    let features = feature_names(vec![stmt(vec![unary(UnaryOp::BitwiseNot, id("a"), 1, 11)])]);
    assert!(features.contains(&"~ (bitwise NOT)".to_string()));
}

#[test]
fn test_detect_require_ffi() {
    // local ffi = require("ffi")
    let features = feature_names(vec![stmt(vec![call(id("require"), vec![lit("ffi")], 1, 13)])]);
    assert!(features.contains(&"require(\"ffi\")".to_string()));
}

#[test]
fn test_detect_require_utf8() {
    // local utf8 = require("utf8")
    let features = feature_names(vec![stmt(vec![call(id("require"), vec![lit("utf8")], 1, 14)])]);
    assert!(features.contains(&"require(\"utf8\")".to_string()));
}

#[test]
fn test_no_detection_in_comments() {
    // -- setfenv(1, env): a comment leaves no statement
    let features = feature_names(vec![]);
    assert!(!features.contains(&"setfenv".to_string()));
}

#[test]
fn test_no_detection_in_strings() {
    // local s = 'setfenv is old'
    let features = feature_names(vec![stmt(vec![lit("setfenv is old")])]);
    assert!(!features.contains(&"setfenv".to_string()));
}

#[test]
fn test_no_detection_for_common_functions() {
    // print('hello')
    // table.insert(t, 1)
    let features = feature_names(vec![
        stmt(vec![call(id("print"), vec![lit("hello")], 1, 1)]),
        stmt(vec![call(member(id("table"), "insert", 2, 1), vec![id("t"), lit("1")], 2, 1)]),
    ]);
    assert!(features.is_empty());
}

#[test]
fn test_multiple_features_narrow_versions() {
    // table.move(t, 1, #t, 2)
    // goto done
    // ::done::
    let result = scan(vec![
        stmt(vec![call(
            member(id("table"), "move", 1, 1),
            vec![id("t"), lit("1"), len_of("t", 1, 18), lit("2")],
            1,
            1,
        )]),
        Statement::Goto(at(2, 1)),
        Statement::Label(at(3, 1)),
    ]);

    let mut compat = LuaVersionSet::all();
    for feat in &result {
        compat = compat.intersect(feat.info.available_in);
    }

    assert!(compat.contains(LuaVersionSet::LUA_5_3));
    assert!(compat.contains(LuaVersionSet::LUA_5_4));
    assert!(compat.contains(LuaVersionSet::LUA_5_5));
    assert!(!compat.contains(LuaVersionSet::LUA_5_1));
    assert!(!compat.contains(LuaVersionSet::LUA_5_2));
    assert!(!compat.contains(LuaVersionSet::LUAJIT));
}

#[test]
fn test_nested_function_call() {
    // print(string.pack('i4', math.tointeger(x)))
    let features = feature_names(vec![stmt(vec![call(
        id("print"),
        vec![call(
            member(id("string"), "pack", 1, 7),
            vec![lit("i4"), call(member(id("math"), "tointeger", 1, 25), vec![id("x")], 1, 25)],
            1,
            7,
        )],
        1,
        1,
    )])]);
    assert!(features.contains(&"string.pack".to_string()));
    assert!(features.contains(&"math.tointeger".to_string()));
}

#[test]
fn test_member_access_constant() {
    // local x = math.maxinteger
    let features = feature_names(vec![stmt(vec![member(id("math"), "maxinteger", 1, 11)])]);
    assert!(features.contains(&"math.maxinteger".to_string()));
}

#[test]
fn test_coroutine_close() {
    // coroutine.close(co)
    let features = feature_names(vec![stmt(vec![call(member(id("coroutine"), "close", 1, 1), vec![id("co")], 1, 1)])]);
    assert!(features.contains(&"coroutine.close".to_string()));
}

#[test]
fn test_table_create() {
    // local t = table.create(100, 0)
    let features = feature_names(vec![stmt(vec![call(
        member(id("table"), "create", 1, 11),
        vec![lit("100"), lit("0")],
        1,
        11,
    )])]);
    assert!(features.contains(&"table.create".to_string()));
}

#[test]
fn test_shift_operators() {
    // local x = a << 2
    // local y = b >> 1
    let features = feature_names(vec![
        stmt(vec![binary(BinaryOp::ShiftLeft, id("a"), lit("2"), 1, 11)]),
        stmt(vec![binary(BinaryOp::ShiftRight, id("b"), lit("1"), 2, 11)]),
    ]);
    assert!(features.contains(&"<< (left shift)".to_string()));
    assert!(features.contains(&">> (right shift)".to_string()));
}

#[test]
fn test_function_body_scanning() {
    // function foo()
    //     local x = table.move(t, 1, #t, 2)
    //     return x
    // end
    let body = vec![
        stmt(vec![call(
            member(id("table"), "move", 2, 15),
            vec![id("t"), lit("1"), len_of("t", 2, 32), lit("2")],
            2,
            15,
        )]),
        stmt(vec![id("x")]),
    ];
    let features = feature_names(vec![Statement::Compound(vec![
        Part::Expression(id("foo")),
        Part::Block(body),
    ])]);
    assert!(features.contains(&"table.move".to_string()));
}

#[test]
fn test_empty_source() {
    let features = feature_names(vec![]);
    assert!(features.is_empty());
}

#[test]
fn same_feature_on_one_line_is_reported_once() {
    // setfenv(1, env); setfenv(2, env)
    // setfenv(3, env)
    let detected = scan(vec![
        stmt(vec![call(id("setfenv"), vec![lit("1"), id("env")], 1, 1)]),
        stmt(vec![call(id("setfenv"), vec![lit("2"), id("env")], 1, 18)]),
        stmt(vec![call(id("setfenv"), vec![lit("3"), id("env")], 2, 1)]),
    ]);
    let lines: Vec<(String, u32, u32)> = detected
        .iter()
        .map(|f| (f.info.name.to_string(), f.line, f.column))
        .collect();
    assert_eq!(
        lines,
        vec![("setfenv".to_string(), 1, 1), ("setfenv".to_string(), 2, 1)]
    );
}

#[test]
fn file_result_intersects_feature_versions() {
    // table.move(t, 1, 2, 3)
    // setfenv(1, env)
    let detected = scan(vec![
        stmt(vec![call(member(id("table"), "move", 1, 1), vec![id("t"), lit("1"), lit("2"), lit("3")], 1, 1)]),
        stmt(vec![call(id("setfenv"), vec![lit("1"), id("env")], 2, 1)]),
    ]);
    let result = file_result("main.lua".to_string(), detected);
    assert_eq!(result.detected_features.len(), 2);
    assert!(result.compatible_versions.is_empty());
    assert_eq!(result.path, "main.lua");
}

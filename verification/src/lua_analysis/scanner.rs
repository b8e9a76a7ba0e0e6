//! Detection of version-specific features in a Lua syntax tree.
//!
//! The tree holds what detection reads: calls, member accesses, operators,
//! `goto` and labels, names and string literals. Every other construct is a
//! `Compound` node whose parts are walked in source order.
use vstd::prelude::*;
use super::{LuaVersionSet, intersect_all};
use super::compat_db::{
    FeatureCategory, FeatureInfo, SYNTAX_BITWISE_AND, SYNTAX_BITWISE_NOT, SYNTAX_BITWISE_OR,
    SYNTAX_BITWISE_XOR, SYNTAX_GOTO, SYNTAX_INTEGER_DIVIDE, SYNTAX_LABEL, SYNTAX_SHIFT_LEFT,
    SYNTAX_SHIFT_RIGHT, function_entry, is_feature, lookup_function, lookup_require,
    require_entry,
};
use crate::text::{chars_of, push_str, starts_with, str_eq, string_from};

verus! {

/// A source position: line and column.
#[derive(Debug, Clone, Copy, PartialEq, Eq, Structural)]
pub struct Span {
    pub line: u32,
    pub column: u32,
}

/// Binary operators, as far as detection tells them apart.
#[derive(Debug, Clone, Copy, PartialEq, Eq, Structural)]
pub enum BinaryOp {
    IntegerDivide,
    BitwiseAnd,
    BitwiseOr,
    BitwiseXor,
    ShiftLeft,
    ShiftRight,
    /// Any operator that every Lua version has.
    Other,
}

/// Unary operators, as far as detection tells them apart.
#[derive(Debug, Clone, Copy, PartialEq, Eq, Structural)]
pub enum UnaryOp {
    BitwiseNot,
    /// Any operator that every Lua version has.
    Other,
}

/// A Lua expression.
#[derive(Debug)]
pub enum Expression {
    /// A name such as `setfenv` or `table`.
    Identifier(String),
    /// A string literal.
    StringLiteral(String),
    /// A call: callee, arguments, position.
    Call(Box<Expression>, Vec<Expression>, Span),
    /// A member access `object.name`, at a position.
    Member(Box<Expression>, String, Span),
    /// A binary operation, at a position.
    Binary(BinaryOp, Box<Expression>, Box<Expression>, Span),
    /// A unary operation, at a position.
    Unary(UnaryOp, Box<Expression>, Span),
    /// Any other expression: its parts, in source order.
    Compound(Vec<Part>),
}

/// A Lua statement.
#[derive(Debug)]
pub enum Statement {
    /// `goto name`, at a position.
    Goto(Span),
    /// `::name::`, at a position.
    Label(Span),
    /// Any other statement: its parts, in source order.
    Compound(Vec<Part>),
}

/// A part of a compound node: an expression or a block of statements.
#[derive(Debug)]
pub enum Part {
    Expression(Expression),
    Block(Vec<Statement>),
}

/// A single detected version-specific feature with its location.
#[derive(Debug, Clone, Copy)]
pub struct DetectedFeature {
    pub info: FeatureInfo,
    pub line: u32,
    pub column: u32,
}

/// What a detection says: feature name, versions, category, line, column.
pub type Finding = (Seq<char>, u8, FeatureCategory, u32, u32);

impl View for DetectedFeature {
    type V = Finding;

    open spec fn view(&self) -> Finding {
        (self.info.name@, self.info.available_in@, self.info.category, self.line, self.column)
    }
}

/// The findings of a list of detections.
pub open spec fn findings(d: Seq<DetectedFeature>) -> Seq<Finding> {
    d.map_values(|f: DetectedFeature| f@)
}

/// The finding for a database entry at a position.
pub open spec fn entry_finding(e: (Seq<char>, u8, FeatureCategory), at: Span) -> Finding {
    (e.0, e.1, e.2, at.line, at.column)
}

/// Whether a finding with the same name on the same line is in `d`.
pub open spec fn already_found(d: Seq<Finding>, f: Finding) -> bool {
    exists|i: int| 0 <= i < d.len() && (#[trigger] d[i]).0 == f.0 && d[i].3 == f.3
}

/// Recording a finding: it is added unless one with the same name on the
/// same line is already there.
pub open spec fn record(d: Seq<Finding>, f: Finding) -> Seq<Finding> {
    if already_found(d, f) {
        d
    } else {
        d.push(f)
    }
}

/// Recording each of `fs` in turn.
pub open spec fn record_all(d: Seq<Finding>, fs: Seq<Finding>) -> Seq<Finding>
    decreases fs.len(),
{
    if fs.len() == 0 {
        d
    } else {
        record(record_all(d, fs.drop_last()), fs.last())
    }
}

/// The dotted name that an expression spells, like "table.move".
pub open spec fn dotted_name(e: Expression) -> Option<Seq<char>>
    decreases e,
{
    match e {
        Expression::Identifier(id) => Some(id@),
        Expression::Member(obj, name, _) => match dotted_name(*obj) {
            Some(o) => Some(o + "."@ + name@),
            None => None,
        },
        _ => None,
    }
}

/// The module that a call loads when it is `require("module")`.
pub open spec fn require_arg(callee: Expression, args: Seq<Expression>) -> Option<Seq<char>> {
    match callee {
        Expression::Identifier(id) => if id@ == "require"@ && args.len() == 1 {
            match args[0] {
                Expression::StringLiteral(s) => Some(s@),
                _ => None,
            }
        } else {
            None
        },
        _ => None,
    }
}

/// What a database lookup gives at a position, as a list of findings.
pub open spec fn entry_findings(e: Option<(Seq<char>, u8, FeatureCategory)>, at: Span) -> Seq<
    Finding,
> {
    match e {
        Some(entry) => seq![entry_finding(entry, at)],
        None => Seq::empty(),
    }
}

/// What a call itself reveals: a versioned `require` and a versioned callee.
pub open spec fn call_findings(callee: Expression, args: Seq<Expression>, at: Span) -> Seq<Finding> {
    (match require_arg(callee, args) {
        Some(m) => entry_findings(require_entry(m), at),
        None => Seq::empty(),
    }) + (match dotted_name(callee) {
        Some(n) => entry_findings(function_entry(n), at),
        None => Seq::empty(),
    })
}

/// What a member access itself reveals: a versioned constant or extension.
/// Functions are reported by the calls that use them.
pub open spec fn member_findings(e: Expression, at: Span) -> Seq<Finding> {
    match dotted_name(e) {
        Some(n) => match function_entry(n) {
            Some(entry) => if entry.2 == FeatureCategory::StdlibAdded || entry.2
                == FeatureCategory::LuaJitExtension {
                seq![entry_finding(entry, at)]
            } else {
                Seq::empty()
            },
            None => Seq::empty(),
        },
        None => Seq::empty(),
    }
}

/// The syntax feature of a binary operator.
pub open spec fn binary_entry(op: BinaryOp) -> Option<(Seq<char>, u8, FeatureCategory)> {
    match op {
        BinaryOp::IntegerDivide => Some(("// (integer division)"@, 28u8, FeatureCategory::Syntax)),
        BinaryOp::BitwiseAnd => Some(("& (bitwise AND)"@, 28u8, FeatureCategory::Syntax)),
        BinaryOp::BitwiseOr => Some(("| (bitwise OR)"@, 28u8, FeatureCategory::Syntax)),
        BinaryOp::BitwiseXor => Some(("~ (bitwise XOR)"@, 28u8, FeatureCategory::Syntax)),
        BinaryOp::ShiftLeft => Some(("<< (left shift)"@, 28u8, FeatureCategory::Syntax)),
        BinaryOp::ShiftRight => Some((">> (right shift)"@, 28u8, FeatureCategory::Syntax)),
        BinaryOp::Other => None,
    }
}

/// The syntax feature of a unary operator.
pub open spec fn unary_entry(op: UnaryOp) -> Option<(Seq<char>, u8, FeatureCategory)> {
    match op {
        UnaryOp::BitwiseNot => Some(("~ (bitwise NOT)"@, 28u8, FeatureCategory::Syntax)),
        UnaryOp::Other => None,
    }
}

/// Everything found in an expression, in walk order: the node itself first,
/// then its children from left to right.
pub open spec fn expr_findings(e: Expression) -> Seq<Finding>
    decreases e,
{
    match e {
        Expression::Call(callee, args, at) => call_findings(*callee, args@, at) + expr_findings(
            *callee,
        ) + exprs_findings(args@),
        Expression::Member(obj, name, at) => member_findings(e, at) + expr_findings(*obj),
        Expression::Binary(op, l, r, at) => entry_findings(binary_entry(op), at) + expr_findings(*l)
            + expr_findings(*r),
        Expression::Unary(op, x, at) => entry_findings(unary_entry(op), at) + expr_findings(*x),
        Expression::Compound(parts) => parts_findings(parts@),
        Expression::Identifier(_) => Seq::empty(),
        Expression::StringLiteral(_) => Seq::empty(),
    }
}

/// Everything found in a list of expressions, in order.
pub open spec fn exprs_findings(es: Seq<Expression>) -> Seq<Finding>
    decreases es,
{
    if es.len() == 0 {
        Seq::empty()
    } else {
        exprs_findings(es.drop_last()) + expr_findings(es.last())
    }
}

/// Everything found in a part.
pub open spec fn part_findings(p: Part) -> Seq<Finding>
    decreases p,
{
    match p {
        Part::Expression(e) => expr_findings(e),
        Part::Block(stmts) => stmts_findings(stmts@),
    }
}

/// Everything found in a list of parts, in order.
pub open spec fn parts_findings(ps: Seq<Part>) -> Seq<Finding>
    decreases ps,
{
    if ps.len() == 0 {
        Seq::empty()
    } else {
        parts_findings(ps.drop_last()) + part_findings(ps.last())
    }
}

/// Everything found in a statement.
pub open spec fn stmt_findings(s: Statement) -> Seq<Finding>
    decreases s,
{
    match s {
        Statement::Goto(at) => seq![entry_finding(("goto"@, 62u8, FeatureCategory::Syntax), at)],
        Statement::Label(at) => seq![
            entry_finding(("::label::"@, 62u8, FeatureCategory::Syntax), at),
        ],
        Statement::Compound(parts) => parts_findings(parts@),
    }
}

/// Everything found in a block, in order.
pub open spec fn stmts_findings(ss: Seq<Statement>) -> Seq<Finding>
    decreases ss,
{
    if ss.len() == 0 {
        Seq::empty()
    } else {
        stmts_findings(ss.drop_last()) + stmt_findings(ss.last())
    }
}

/// Recording `a` then `b` is recording `a + b`.
pub proof fn lemma_record_all_concat(d: Seq<Finding>, a: Seq<Finding>, b: Seq<Finding>)
    ensures
        record_all(record_all(d, a), b) == record_all(d, a + b),
    decreases b.len(),
{
    if b.len() == 0 {
        assert(a + b =~= a);
    } else {
        lemma_record_all_concat(d, a, b.drop_last());
        assert((a + b).drop_last() =~= a + b.drop_last());
        assert((a + b).last() == b.last());
    }
}

/// No two findings share a name and a line.
pub open spec fn one_per_line(d: Seq<Finding>) -> bool {
    forall|i: int, j: int|
        0 <= i < j < d.len() ==> !((#[trigger] d[i]).0 == (#[trigger] d[j]).0 && d[i].3 == d[j].3)
}

/// Recording findings keeps one finding per name and line and loses none:
/// starting from findings with one per name and line, recording `fs` keeps
/// what was there, still holds one per name and line, and holds a finding
/// with the name and line of each of `fs`.  So what `scan_program` reports
/// names each feature once per line on which it is used.
pub proof fn lemma_record_all_one_per_line(d: Seq<Finding>, fs: Seq<Finding>)
    requires
        one_per_line(d),
    ensures
        one_per_line(record_all(d, fs)),
        record_all(d, fs).len() >= d.len(),
        record_all(d, fs).take(d.len() as int) == d,
        forall|k: int| 0 <= k < fs.len() ==> already_found(record_all(d, fs), #[trigger] fs[k]),
    decreases fs.len(),
{
    if fs.len() > 0 {
        let prev = record_all(d, fs.drop_last());
        lemma_record_all_one_per_line(d, fs.drop_last());
        let f = fs.last();
        let r = record(prev, f);
        assert(r == record_all(d, fs));
        if !already_found(prev, f) {
            assert forall|i: int, j: int|
                0 <= i < j < r.len() implies !((#[trigger] r[i]).0 == (#[trigger] r[j]).0 && r[i].3
                == r[j].3) by {
                if j == prev.len() {
                    assert(r[i] == prev[i]);
                    assert(r[j] == f);
                } else {
                    assert(r[i] == prev[i]);
                    assert(r[j] == prev[j]);
                }
            }
            assert(r.take(d.len() as int) =~= prev.take(d.len() as int));
            assert(r[prev.len() as int] == f);
        }
        assert forall|k: int| 0 <= k < fs.len() implies already_found(r, #[trigger] fs[k]) by {
            if k < fs.len() - 1 {
                assert(fs[k] == fs.drop_last()[k]);
                assert(already_found(prev, fs.drop_last()[k]));
                let i = choose|i: int| 0 <= i < prev.len() && (#[trigger] prev[i]).0 == fs[k].0 && prev[i].3 == fs[k].3;
                assert(r[i] == prev[i]);
            } else if !already_found(prev, f) {
                assert(r[prev.len() as int] == f);
            }
        }
    }
}

proof fn lemma_record_one(d: Seq<Finding>, f: Finding)
    ensures
        record_all(d, seq![f]) == record(d, f),
{
    assert(seq![f].drop_last() =~= Seq::<Finding>::empty());
    assert(record_all(d, Seq::<Finding>::empty()) == d);
    assert(seq![f].last() == f);
}

/// The symbol of a binary operator (nothing for the operators that every
/// Lua version has).
pub open spec fn operator_symbol(op: BinaryOp) -> Seq<char> {
    match op {
        BinaryOp::IntegerDivide => "//"@,
        BinaryOp::BitwiseAnd => "&"@,
        BinaryOp::BitwiseOr => "|"@,
        BinaryOp::BitwiseXor => "~"@,
        BinaryOp::ShiftLeft => "<<"@,
        BinaryOp::ShiftRight => ">>"@,
        BinaryOp::Other => Seq::empty(),
    }
}

/// The binary operators that came with Lua 5.3: integer division, the
/// bitwise operators and the shifts.
pub open spec fn added_in_lua_53(op: BinaryOp) -> bool {
    op != BinaryOp::Other
}

/// Whether `f` reports, at `at`, the syntax feature of operator `op`: named
/// after its symbol, and available in Lua 5.3 to 5.5 only.
pub open spec fn reports_operator(f: Finding, op: BinaryOp, at: Span) -> bool {
    &&& starts_with(f.0, operator_symbol(op) + " ("@)
    &&& f.1 as int == super::series_bits(3, 5)
    &&& f.2 == FeatureCategory::Syntax
    &&& f.3 == at.line
    &&& f.4 == at.column
}

/// Whether one of `fs` reports operator `op` at `at`.
pub open spec fn reported_in(fs: Seq<Finding>, op: BinaryOp, at: Span) -> bool {
    exists|i: int| 0 <= i < fs.len() && reports_operator(#[trigger] fs[i], op, at)
}

/// Whether an expression applies operator `op` at `at`, anywhere in it.
pub open spec fn expr_uses(e: Expression, op: BinaryOp, at: Span) -> bool
    decreases e,
{
    match e {
        Expression::Call(callee, args, _) => expr_uses(*callee, op, at) || exprs_uses(args@, op, at),
        Expression::Member(obj, _, _) => expr_uses(*obj, op, at),
        Expression::Binary(o, l, r, s) => (o == op && s == at) || expr_uses(*l, op, at) || expr_uses(
            *r,
            op,
            at,
        ),
        Expression::Unary(_, x, _) => expr_uses(*x, op, at),
        Expression::Compound(parts) => parts_uses(parts@, op, at),
        Expression::Identifier(_) => false,
        Expression::StringLiteral(_) => false,
    }
}

/// Whether one of the expressions applies `op` at `at`.
pub open spec fn exprs_uses(es: Seq<Expression>, op: BinaryOp, at: Span) -> bool
    decreases es,
{
    if es.len() == 0 {
        false
    } else {
        exprs_uses(es.drop_last(), op, at) || expr_uses(es.last(), op, at)
    }
}

/// Whether a part applies `op` at `at`.
pub open spec fn part_uses(p: Part, op: BinaryOp, at: Span) -> bool
    decreases p,
{
    match p {
        Part::Expression(e) => expr_uses(e, op, at),
        Part::Block(stmts) => stmts_uses(stmts@, op, at),
    }
}

/// Whether one of the parts applies `op` at `at`.
pub open spec fn parts_uses(ps: Seq<Part>, op: BinaryOp, at: Span) -> bool
    decreases ps,
{
    if ps.len() == 0 {
        false
    } else {
        parts_uses(ps.drop_last(), op, at) || part_uses(ps.last(), op, at)
    }
}

/// Whether a statement applies `op` at `at`.
pub open spec fn stmt_uses(st: Statement, op: BinaryOp, at: Span) -> bool
    decreases st,
{
    match st {
        Statement::Compound(parts) => parts_uses(parts@, op, at),
        _ => false,
    }
}

/// Whether one of the statements applies `op` at `at`.
pub open spec fn stmts_uses(ss: Seq<Statement>, op: BinaryOp, at: Span) -> bool
    decreases ss,
{
    if ss.len() == 0 {
        false
    } else {
        stmts_uses(ss.drop_last(), op, at) || stmt_uses(ss.last(), op, at)
    }
}

proof fn lemma_reported_concat(a: Seq<Finding>, b: Seq<Finding>, op: BinaryOp, at: Span)
    ensures
        reported_in(a, op, at) || reported_in(b, op, at) ==> reported_in(a + b, op, at),
{
    if reported_in(a, op, at) {
        let i = choose|i: int| 0 <= i < a.len() && reports_operator(#[trigger] a[i], op, at);
        assert((a + b)[i] == a[i]);
    } else if reported_in(b, op, at) {
        let i = choose|i: int| 0 <= i < b.len() && reports_operator(#[trigger] b[i], op, at);
        assert((a + b)[a.len() + i] == b[i]);
    }
}

proof fn lemma_expr_reports(e: Expression, op: BinaryOp, at: Span)
    requires
        added_in_lua_53(op),
        expr_uses(e, op, at),
    ensures
        reported_in(expr_findings(e), op, at),
    decreases e,
{
    match e {
        Expression::Call(callee, args, s) => {
            let a = call_findings(*callee, args@, s);
            if expr_uses(*callee, op, at) {
                lemma_expr_reports(*callee, op, at);
            } else {
                lemma_exprs_reports(args@, op, at);
            }
            lemma_reported_concat(a, expr_findings(*callee), op, at);
            lemma_reported_concat(a + expr_findings(*callee), exprs_findings(args@), op, at);
        },
        Expression::Member(obj, _, s) => {
            lemma_expr_reports(*obj, op, at);
            lemma_reported_concat(member_findings(e, s), expr_findings(*obj), op, at);
        },
        Expression::Binary(o, l, r, s) => {
            let head = entry_findings(binary_entry(o), s);
            if o == op && s == at {
                reveal_with_fuel(super::series_bits, 4);
                reveal_strlit("//");
                reveal_strlit("&");
                reveal_strlit("|");
                reveal_strlit("~");
                reveal_strlit("<<");
                reveal_strlit(">>");
                reveal_strlit(" (");
                reveal_strlit("// (integer division)");
                reveal_strlit("& (bitwise AND)");
                reveal_strlit("| (bitwise OR)");
                reveal_strlit("~ (bitwise XOR)");
                reveal_strlit("<< (left shift)");
                reveal_strlit(">> (right shift)");
                let f = head[0];
                assert(f.0.take((operator_symbol(op) + " ("@).len() as int) =~= operator_symbol(op) + " ("@);
                assert(reports_operator(f, op, at));
            } else if expr_uses(*l, op, at) {
                lemma_expr_reports(*l, op, at);
            } else {
                lemma_expr_reports(*r, op, at);
            }
            lemma_reported_concat(head, expr_findings(*l), op, at);
            lemma_reported_concat(head + expr_findings(*l), expr_findings(*r), op, at);
        },
        Expression::Unary(u, x, s) => {
            lemma_expr_reports(*x, op, at);
            lemma_reported_concat(entry_findings(unary_entry(u), s), expr_findings(*x), op, at);
        },
        Expression::Compound(parts) => {
            lemma_parts_reports(parts@, op, at);
        },
        _ => {},
    }
}

proof fn lemma_exprs_reports(es: Seq<Expression>, op: BinaryOp, at: Span)
    requires
        added_in_lua_53(op),
        exprs_uses(es, op, at),
    ensures
        reported_in(exprs_findings(es), op, at),
    decreases es,
{
    if es.len() > 0 {
        if exprs_uses(es.drop_last(), op, at) {
            lemma_exprs_reports(es.drop_last(), op, at);
        } else {
            lemma_expr_reports(es.last(), op, at);
        }
        lemma_reported_concat(exprs_findings(es.drop_last()), expr_findings(es.last()), op, at);
    }
}

proof fn lemma_part_reports(p: Part, op: BinaryOp, at: Span)
    requires
        added_in_lua_53(op),
        part_uses(p, op, at),
    ensures
        reported_in(part_findings(p), op, at),
    decreases p,
{
    match p {
        Part::Expression(e) => lemma_expr_reports(e, op, at),
        Part::Block(stmts) => lemma_stmts_reports(stmts@, op, at),
    }
}

proof fn lemma_parts_reports(ps: Seq<Part>, op: BinaryOp, at: Span)
    requires
        added_in_lua_53(op),
        parts_uses(ps, op, at),
    ensures
        reported_in(parts_findings(ps), op, at),
    decreases ps,
{
    if ps.len() > 0 {
        if parts_uses(ps.drop_last(), op, at) {
            lemma_parts_reports(ps.drop_last(), op, at);
        } else {
            lemma_part_reports(ps.last(), op, at);
        }
        lemma_reported_concat(parts_findings(ps.drop_last()), part_findings(ps.last()), op, at);
    }
}

proof fn lemma_stmt_reports(st: Statement, op: BinaryOp, at: Span)
    requires
        added_in_lua_53(op),
        stmt_uses(st, op, at),
    ensures
        reported_in(stmt_findings(st), op, at),
    decreases st,
{
    match st {
        Statement::Compound(parts) => lemma_parts_reports(parts@, op, at),
        _ => {},
    }
}

proof fn lemma_stmts_reports(ss: Seq<Statement>, op: BinaryOp, at: Span)
    requires
        added_in_lua_53(op),
        stmts_uses(ss, op, at),
    ensures
        reported_in(stmts_findings(ss), op, at),
    decreases ss,
{
    if ss.len() > 0 {
        if stmts_uses(ss.drop_last(), op, at) {
            lemma_stmts_reports(ss.drop_last(), op, at);
        } else {
            lemma_stmt_reports(ss.last(), op, at);
        }
        lemma_reported_concat(stmts_findings(ss.drop_last()), stmt_findings(ss.last()), op, at);
    }
}

/// Every use of an operator that Lua 5.3 introduced is reported: when a
/// program applies such an operator (`//`, `&`, `|`, `~`, `<<`, `>>`)
/// anywhere, at `at`, what `scan_program` records holds a syntax feature on
/// that line named after the operator and available only in Lua 5.3, 5.4
/// and 5.5; the walk itself reports it at exactly that position.
pub proof fn lemma_new_operators_reported(program: Seq<Statement>, op: BinaryOp, at: Span)
    requires
        added_in_lua_53(op),
        stmts_uses(program, op, at),
    ensures
        exists|f: Finding|
            reports_operator(f, op, at) && stmts_findings(program).contains(f) && #[trigger] already_found(
                record_all(Seq::empty(), stmts_findings(program)),
                f,
            ),
{
    let fs = stmts_findings(program);
    lemma_stmts_reports(program, op, at);
    let k = choose|i: int| 0 <= i < fs.len() && reports_operator(#[trigger] fs[i], op, at);
    lemma_record_all_one_per_line(Seq::empty(), fs);
    assert(already_found(record_all(Seq::empty(), fs), fs[k]));
    assert(fs.contains(fs[k]));
}

/// `goto` and labels came with Lua 5.2 (and LuaJIT has them): a `goto`
/// statement or a label is reported at its position as a syntax feature
/// of Lua 5.2 to 5.5 and LuaJIT.
pub proof fn lemma_goto_and_labels_reported(at: Span)
    ensures
        stmt_findings(Statement::Goto(at)).len() == 1,
        stmt_findings(Statement::Goto(at))[0] == ("goto"@, (super::series_bits(2, 5)
            + LuaVersionSet::LUAJIT as int) as u8, FeatureCategory::Syntax, at.line, at.column),
        stmt_findings(Statement::Label(at)).len() == 1,
        stmt_findings(Statement::Label(at))[0] == ("::label::"@, (super::series_bits(2, 5)
            + LuaVersionSet::LUAJIT as int) as u8, FeatureCategory::Syntax, at.line, at.column),
{
    reveal_with_fuel(super::series_bits, 5);
}

/// The bitwise NOT operator came with Lua 5.3: a unary `~` is reported at
/// its position, before anything inside it, as a syntax feature named after
/// it and available only in Lua 5.3, 5.4 and 5.5.
pub proof fn lemma_bitwise_not_reported(x: Box<Expression>, at: Span)
    ensures
        expr_findings(Expression::Unary(UnaryOp::BitwiseNot, x, at)).len() > 0,
        ({
            let f = expr_findings(Expression::Unary(UnaryOp::BitwiseNot, x, at))[0];
            starts_with(f.0, "~ ("@) && f.1 as int == super::series_bits(3, 5) && f.2
                == FeatureCategory::Syntax && f.3 == at.line && f.4 == at.column
        }),
{
    reveal_with_fuel(super::series_bits, 4);
    reveal_strlit("~ (");
    reveal_strlit("~ (bitwise NOT)");
    let f = expr_findings(Expression::Unary(UnaryOp::BitwiseNot, x, at))[0];
    assert(f.0.take(3) =~= "~ ("@);
}

/// Record a detected feature, deduplicating by (name, line).
pub fn record_feature(info: FeatureInfo, at: Span, detected: &mut Vec<DetectedFeature>)
    ensures
        findings(final(detected)@) == record(
            findings(old(detected)@),
            (info.name@, info.available_in@, info.category, at.line, at.column),
        ),
{
    let ghost f: Finding = (info.name@, info.available_in@, info.category, at.line, at.column);
    let ghost d = findings(detected@);
    let mut i: usize = 0;
    while i < detected.len()
        invariant
            i <= detected.len(),
            d == findings(detected@),
            f == (info.name@, info.available_in@, info.category, at.line, at.column),
            forall|j: int| 0 <= j < i ==> !(d[j].0 == f.0 && d[j].3 == f.3),
        decreases detected.len() - i,
    {
        assert(d[i as int] == detected@[i as int]@);
        if str_eq(detected[i].info.name, info.name) && detected[i].line == at.line {
            assert(d[i as int].0 == f.0 && d[i as int].3 == f.3);
            return ;
        }
        i = i + 1;
    }
    assert(!already_found(d, f));
    detected.push(DetectedFeature { info, line: at.line, column: at.column });
    assert(findings(detected@) =~= d.push(f));
}

/// Record a database entry found at `at`, if there is one.
fn record_found(found: Option<FeatureInfo>, at: Span, detected: &mut Vec<DetectedFeature>)
    ensures
        match found {
            Some(info) => findings(final(detected)@) == record(
                findings(old(detected)@),
                (info.name@, info.available_in@, info.category, at.line, at.column),
            ),
            None => final(detected)@ == old(detected)@,
        },
{
    match found {
        Some(info) => record_feature(info, at, detected),
        None => {},
    }
}

/// Resolve a callee expression to a dotted name like "table.move" or "setfenv".
pub fn resolve_dotted_name(expr: &Expression) -> (r: Option<String>)
    ensures
        match r {
            Some(s) => dotted_name(*expr) == Some(s@),
            None => dotted_name(*expr) is None,
        },
    decreases expr,
{
    match expr {
        Expression::Identifier(id) => Some(id.clone()),
        Expression::Member(obj, name, _) => match resolve_dotted_name(obj) {
            Some(o) => {
                let mut v = chars_of(o.as_str());
                v.push('.');
                push_str(&mut v, name.as_str());
                proof {
                    assert(seq!['.'] =~= "."@) by {
                        reveal_strlit(".");
                    }
                }
                Some(string_from(&v))
            },
            None => None,
        },
        _ => None,
    }
}

/// If a call is `require("module_name")`, the module name.
pub fn extract_require_arg(callee: &Expression, args: &Vec<Expression>) -> (r: Option<String>)
    ensures
        match r {
            Some(s) => require_arg(*callee, args@) == Some(s@),
            None => require_arg(*callee, args@) is None,
        },
{
    match callee {
        Expression::Identifier(id) => {
            if str_eq(id.as_str(), "require") && args.len() == 1 {
                match &args[0] {
                    Expression::StringLiteral(s) => Some(s.clone()),
                    _ => None,
                }
            } else {
                None
            }
        },
        _ => None,
    }
}

fn binary_feature(op: BinaryOp) -> (r: Option<FeatureInfo>)
    ensures
        match binary_entry(op) {
            Some((n, b, c)) => r matches Some(f) && is_feature(f, n, b, c),
            None => r is None,
        },
{
    match op {
        BinaryOp::IntegerDivide => Some(SYNTAX_INTEGER_DIVIDE()),
        BinaryOp::BitwiseAnd => Some(SYNTAX_BITWISE_AND()),
        BinaryOp::BitwiseOr => Some(SYNTAX_BITWISE_OR()),
        BinaryOp::BitwiseXor => Some(SYNTAX_BITWISE_XOR()),
        BinaryOp::ShiftLeft => Some(SYNTAX_SHIFT_LEFT()),
        BinaryOp::ShiftRight => Some(SYNTAX_SHIFT_RIGHT()),
        BinaryOp::Other => None,
    }
}

fn unary_feature(op: UnaryOp) -> (r: Option<FeatureInfo>)
    ensures
        match unary_entry(op) {
            Some((n, b, c)) => r matches Some(f) && is_feature(f, n, b, c),
            None => r is None,
        },
{
    match op {
        UnaryOp::BitwiseNot => Some(SYNTAX_BITWISE_NOT()),
        UnaryOp::Other => None,
    }
}

/// The versioned module that a call loads, if it is one.
fn call_require_feature(callee: &Expression, args: &Vec<Expression>) -> (r: Option<FeatureInfo>)
    ensures
        match require_arg(*callee, args@) {
            Some(m) => match require_entry(m) {
                Some((n, b, c)) => r matches Some(f) && is_feature(f, n, b, c),
                None => r is None,
            },
            None => r is None,
        },
{
    match extract_require_arg(callee, args) {
        Some(m) => lookup_require(m.as_str()),
        None => None,
    }
}

/// The versioned function or constant that an expression names, if any.
fn named_feature(expr: &Expression) -> (r: Option<FeatureInfo>)
    ensures
        match dotted_name(*expr) {
            Some(n) => match function_entry(n) {
                Some((n, b, c)) => r matches Some(f) && is_feature(f, n, b, c),
                None => r is None,
            },
            None => r is None,
        },
{
    match resolve_dotted_name(expr) {
        Some(n) => lookup_function(n.as_str()),
        None => None,
    }
}

/// The findings of an optional feature found at a position.
proof fn lemma_found(found: Option<FeatureInfo>, e: Option<(Seq<char>, u8, FeatureCategory)>, at: Span, d: Seq<Finding>)
    requires
        match e {
            Some((n, b, c)) => found matches Some(f) && is_feature(f, n, b, c),
            None => found is None,
        },
    ensures
        record_all(d, entry_findings(e, at)) == match found {
            Some(info) => record(d, (info.name@, info.available_in@, info.category, at.line, at.column)),
            None => d,
        },
{
    match e {
        Some(entry) => lemma_record_one(d, entry_finding(entry, at)),
        None => {},
    }
}

/// Walk an expression, recording every version-specific feature in it.
pub fn walk_expression(expr: &Expression, detected: &mut Vec<DetectedFeature>)
    ensures
        findings(final(detected)@) == record_all(findings(old(detected)@), expr_findings(*expr)),
    decreases expr,
{
    let ghost d0 = findings(detected@);
    match expr {
        Expression::Call(callee, args, at) => {
            let req = call_require_feature(callee, args);
            proof { lemma_found(req, match require_arg(**callee, args@) { Some(m) => require_entry(m), None => None }, *at, d0); }
            record_found(req, *at, detected);
            let ghost d1 = findings(detected@);
            let named = named_feature(callee);
            proof { lemma_found(named, match dotted_name(**callee) { Some(n) => function_entry(n), None => None }, *at, d1); }
            record_found(named, *at, detected);
            let ghost d2 = findings(detected@);
            assert(decreases_to!(*expr => **callee));
            walk_expression(callee, detected);
            let ghost d3 = findings(detected@);
            assert(decreases_to!(*expr => *args));
            walk_expressions(args, detected);
            proof {
                let a = match require_arg(**callee, args@) {
                    Some(m) => entry_findings(require_entry(m), *at),
                    None => Seq::empty(),
                };
                let b = match dotted_name(**callee) {
                    Some(n) => entry_findings(function_entry(n), *at),
                    None => Seq::empty(),
                };
                assert(require_arg(**callee, args@) is None ==> a == Seq::<Finding>::empty());
                assert(record_all(d0, a) == d1);
                assert(record_all(d1, b) == d2);
                lemma_record_all_concat(d0, a, b);
                lemma_record_all_concat(d0, a + b, expr_findings(**callee));
                lemma_record_all_concat(d0, a + b + expr_findings(**callee), exprs_findings(args@));
            }
        },
        Expression::Member(obj, _name, at) => {
            let named = named_feature(expr);
            let keep = match named {
                Some(info) => info.category == FeatureCategory::StdlibAdded || info.category
                    == FeatureCategory::LuaJitExtension,
                None => false,
            };
            if keep {
                record_found(named, *at, detected);
            }
            let ghost d1 = findings(detected@);
            proof {
                match dotted_name(*expr) {
                    Some(n) => match function_entry(n) {
                        Some(entry) => {
                            if keep {
                                lemma_record_one(d0, entry_finding(entry, *at));
                            }
                        },
                        None => {},
                    },
                    None => {},
                }
                assert(record_all(d0, member_findings(*expr, *at)) == d1);
            }
            assert(decreases_to!(*expr => **obj));
            walk_expression(obj, detected);
            proof {
                lemma_record_all_concat(d0, member_findings(*expr, *at), expr_findings(**obj));
            }
        },
        Expression::Binary(op, l, r, at) => {
            let found = binary_feature(*op);
            proof { lemma_found(found, binary_entry(*op), *at, d0); }
            record_found(found, *at, detected);
            let ghost d1 = findings(detected@);
            assert(decreases_to!(*expr => **l));
            walk_expression(l, detected);
            assert(decreases_to!(*expr => **r));
            walk_expression(r, detected);
            proof {
                let a = entry_findings(binary_entry(*op), *at);
                lemma_record_all_concat(d0, a, expr_findings(**l));
                lemma_record_all_concat(d0, a + expr_findings(**l), expr_findings(**r));
            }
        },
        Expression::Unary(op, x, at) => {
            let found = unary_feature(*op);
            proof { lemma_found(found, unary_entry(*op), *at, d0); }
            record_found(found, *at, detected);
            assert(decreases_to!(*expr => **x));
            walk_expression(x, detected);
            proof {
                lemma_record_all_concat(d0, entry_findings(unary_entry(*op), *at), expr_findings(**x));
            }
        },
        Expression::Compound(parts) => {
            assert(decreases_to!(*expr => *parts));
            walk_parts(parts, detected);
        },
        Expression::Identifier(_) => {},
        Expression::StringLiteral(_) => {},
    }
}

/// Walk a list of expressions in order.
fn walk_expressions(es: &Vec<Expression>, detected: &mut Vec<DetectedFeature>)
    ensures
        findings(final(detected)@) == record_all(findings(old(detected)@), exprs_findings(es@)),
    decreases es,
{
    let ghost d0 = findings(detected@);
    let mut i: usize = 0;
    assert(es@.take(0) =~= Seq::<Expression>::empty());
    while i < es.len()
        invariant
            i <= es.len(),
            d0 == findings(old(detected)@),
            findings(detected@) == record_all(d0, exprs_findings(es@.take(i as int))),
        decreases es.len() - i,
    {
        assert(es@.take(i as int + 1).drop_last() =~= es@.take(i as int));
        assert(es@.take(i as int + 1).last() == es@[i as int]);
        assert(decreases_to!(*es => es@));
        assert(decreases_to!(es@ => es@[i as int]));
        walk_expression(&es[i], detected);
        proof {
            lemma_record_all_concat(d0, exprs_findings(es@.take(i as int)), expr_findings(es@[i as int]));
        }
        i = i + 1;
    }
    assert(es@.take(es.len() as int) =~= es@);
}

/// Walk a part.
fn walk_part(part: &Part, detected: &mut Vec<DetectedFeature>)
    ensures
        findings(final(detected)@) == record_all(findings(old(detected)@), part_findings(*part)),
    decreases part,
{
    match part {
        Part::Expression(e) => {
            assert(decreases_to!(*part => *e));
            walk_expression(e, detected);
        },
        Part::Block(stmts) => {
            assert(decreases_to!(*part => *stmts));
            walk_block(stmts, detected);
        },
    }
}

/// Walk a list of parts in order.
fn walk_parts(ps: &Vec<Part>, detected: &mut Vec<DetectedFeature>)
    ensures
        findings(final(detected)@) == record_all(findings(old(detected)@), parts_findings(ps@)),
    decreases ps,
{
    let ghost d0 = findings(detected@);
    let mut i: usize = 0;
    assert(ps@.take(0) =~= Seq::<Part>::empty());
    while i < ps.len()
        invariant
            i <= ps.len(),
            d0 == findings(old(detected)@),
            findings(detected@) == record_all(d0, parts_findings(ps@.take(i as int))),
        decreases ps.len() - i,
    {
        assert(ps@.take(i as int + 1).drop_last() =~= ps@.take(i as int));
        assert(ps@.take(i as int + 1).last() == ps@[i as int]);
        assert(decreases_to!(*ps => ps@));
        assert(decreases_to!(ps@ => ps@[i as int]));
        walk_part(&ps[i], detected);
        proof {
            lemma_record_all_concat(d0, parts_findings(ps@.take(i as int)), part_findings(ps@[i as int]));
        }
        i = i + 1;
    }
    assert(ps@.take(ps.len() as int) =~= ps@);
}

/// Walk a statement, recording every version-specific feature in it.
pub fn walk_statement(stmt: &Statement, detected: &mut Vec<DetectedFeature>)
    ensures
        findings(final(detected)@) == record_all(findings(old(detected)@), stmt_findings(*stmt)),
    decreases stmt,
{
    let ghost d0 = findings(detected@);
    match stmt {
        Statement::Goto(at) => {
            let info = SYNTAX_GOTO();
            record_feature(info, *at, detected);
            proof { lemma_record_one(d0, entry_finding(("goto"@, 62u8, FeatureCategory::Syntax), *at)); }
        },
        Statement::Label(at) => {
            let info = SYNTAX_LABEL();
            record_feature(info, *at, detected);
            proof { lemma_record_one(d0, entry_finding(("::label::"@, 62u8, FeatureCategory::Syntax), *at)); }
        },
        Statement::Compound(parts) => {
            assert(decreases_to!(*stmt => *parts));
            walk_parts(parts, detected);
        },
    }
}

/// Walk a block of statements in order.
pub fn walk_block(block: &Vec<Statement>, detected: &mut Vec<DetectedFeature>)
    ensures
        findings(final(detected)@) == record_all(findings(old(detected)@), stmts_findings(block@)),
    decreases block,
{
    let ghost d0 = findings(detected@);
    let mut i: usize = 0;
    assert(block@.take(0) =~= Seq::<Statement>::empty());
    while i < block.len()
        invariant
            i <= block.len(),
            d0 == findings(old(detected)@),
            findings(detected@) == record_all(d0, stmts_findings(block@.take(i as int))),
        decreases block.len() - i,
    {
        assert(block@.take(i as int + 1).drop_last() =~= block@.take(i as int));
        assert(block@.take(i as int + 1).last() == block@[i as int]);
        assert(decreases_to!(*block => block@));
        assert(decreases_to!(block@ => block@[i as int]));
        walk_statement(&block[i], detected);
        proof {
            lemma_record_all_concat(d0, stmts_findings(block@.take(i as int)), stmt_findings(block@[i as int]));
        }
        i = i + 1;
    }
    assert(block@.take(block.len() as int) =~= block@);
}

/// Result of scanning a single file.
#[derive(Debug)]
pub struct FileResult {
    pub path: String,
    pub detected_features: Vec<DetectedFeature>,
    /// Intersection of all feature compatibility sets.
    pub compatible_versions: LuaVersionSet,
}

/// The version sets of a list of detections.
pub open spec fn feature_versions(d: Seq<DetectedFeature>) -> Seq<u8> {
    d.map_values(|f: DetectedFeature| f.info.available_in@)
}

/// Scan a parsed program for version-specific features, in walk order,
/// one per feature name and line.
pub fn scan_program(program: &Vec<Statement>) -> (r: Vec<DetectedFeature>)
    ensures
        findings(r@) == record_all(Seq::empty(), stmts_findings(program@)),
{
    let mut detected: Vec<DetectedFeature> = Vec::new();
    assert(findings(detected@) =~= Seq::<Finding>::empty());
    walk_block(program, &mut detected);
    detected
}

/// The result for a file: its detections and the versions that all of
/// them allow.
pub fn file_result(path: String, detected: Vec<DetectedFeature>) -> (r: FileResult)
    ensures
        r.path@ == path@,
        r.detected_features@ == detected@,
        r.compatible_versions@ == intersect_all(feature_versions(detected@)),
{
    let mut compatible_versions = LuaVersionSet::all();
    let ghost vs = feature_versions(detected@);
    let mut i: usize = 0;
    assert(vs.take(0) =~= Seq::<u8>::empty());
    while i < detected.len()
        invariant
            i <= detected.len(),
            vs == feature_versions(detected@),
            compatible_versions@ == intersect_all(vs.take(i as int)),
        decreases detected.len() - i,
    {
        assert(vs.take(i as int + 1).drop_last() =~= vs.take(i as int));
        assert(vs.take(i as int + 1).last() == detected@[i as int].info.available_in@);
        compatible_versions = compatible_versions.intersect(detected[i].info.available_in);
        i = i + 1;
    }
    assert(vs.take(detected.len() as int) =~= vs);
    FileResult { path, detected_features: detected, compatible_versions }
}

} // verus!

//! Properties of the translation, proved from the spec functions that the
//! passes' contracts use.
use crate::counting::{counting_loop_of, int_lit_of, CountingLoop};
use crate::decl::{var_error, var_to};
use crate::error::TranspileError;
use crate::expr::{assign_op_of, bin_op_of, expr_error, expr_to, unary_op_of};
use crate::module::items_error;
use crate::rs;
use crate::stmt::{body_to, stmt_error, stmt_stmts_to};
use crate::ts;
use vstd::prelude::*;

verus! {

/// A string or boolean literal always translates, to a literal of the same
/// value: the same string, or the same boolean.
pub proof fn law_literal_round_trip(lit: ts::Lit, d: rs::Expr)
    requires
        lit is Str || lit is Bool,
        expr_to(ts::Expr::Lit(lit), d),
    ensures
        expr_error(ts::Expr::Lit(lit)) is None,
        lit matches ts::Lit::Str(s) ==> d == rs::Expr::Lit(rs::Lit::Str(s)),
        lit matches ts::Lit::Bool(b) ==> d == rs::Expr::Lit(rs::Lit::Bool(b)),
{
}

/// Every binary operator but `>>>`, `in`, `instanceof`, `**` and `??` is
/// supported, and `a op b` with supported operands becomes a binary
/// expression with exactly the operator of the table.
pub proof fn law_binary_operator(b: ts::BinExpr, d: rs::Expr)
    requires
        expr_error(*b.left) is None,
        expr_error(*b.right) is None,
    ensures
        bin_op_of(b.op) is None <==> (b.op is ZeroFillRShift || b.op is In || b.op is InstanceOf
            || b.op is Exp || b.op is NullishCoalescing),
        bin_op_of(b.op) is Some ==> expr_error(ts::Expr::Bin(b)) is None,
        bin_op_of(b.op) is None ==> expr_error(ts::Expr::Bin(b)) == Some(
            TranspileError::BinaryOp(b.op),
        ),
        expr_to(ts::Expr::Bin(b), d) ==> (d matches rs::Expr::Binary(_, o, _) && Some(o) == bin_op_of(
            b.op,
        )),
{
}

/// Only `-` and `!` are supported as unary operators, and `op a` becomes a
/// unary expression with exactly the operator of the table.
pub proof fn law_unary_operator(u: ts::UnaryExpr, d: rs::Expr)
    requires
        expr_error(*u.arg) is None,
    ensures
        unary_op_of(u.op) is Some <==> (u.op is Minus || u.op is Bang),
        unary_op_of(u.op) is Some ==> expr_error(ts::Expr::Unary(u)) is None,
        unary_op_of(u.op) is None ==> expr_error(ts::Expr::Unary(u)) == Some(
            TranspileError::UnaryOp(u.op),
        ),
        expr_to(ts::Expr::Unary(u), d) ==> (d matches rs::Expr::Unary(o, _) && Some(o)
            == unary_op_of(u.op)),
{
}

/// Every compound assignment but `>>>=`, `**=`, `&&=`, `||=` and `??=` is
/// supported, and `x op= a` becomes a binary expression with exactly the
/// operator of the table.
pub proof fn law_compound_assign_operator(a: ts::AssignExpr, d: rs::Expr)
    requires
        !(a.op is Assign),
        a.left is Ident,
        expr_error(*a.right) is None,
    ensures
        assign_op_of(a.op) is None <==> (a.op is ZeroFillRShiftAssign || a.op is ExpAssign
            || a.op is AndAssign || a.op is OrAssign || a.op is NullishAssign),
        assign_op_of(a.op) is Some ==> expr_error(ts::Expr::Assign(a)) is None,
        assign_op_of(a.op) is None ==> expr_error(ts::Expr::Assign(a)) == Some(
            TranspileError::AssignOp(a.op),
        ),
        expr_to(ts::Expr::Assign(a), d) ==> (d matches rs::Expr::Binary(_, o, _) && Some(o)
            == assign_op_of(a.op)),
{
}

/// `kind x = <literal>;` translates to one binding, mutable for `var` and
/// `let` and immutable for `const`.
pub proof fn law_mutability(v: ts::VarDecl, lit: ts::Lit, bs: Seq<rs::Expr>)
    requires
        !v.declare,
        !(lit is Other),
        v.decls@.len() == 1,
        v.decls@[0].name is Ident,
        v.decls@[0].init == Some(ts::Expr::Lit(lit)),
        var_to(v, bs),
    ensures
        var_error(v) is None,
        bs.len() == 1,
        bs[0] matches rs::Expr::Let { mutable, .. } && mutable == (v.kind is Var || v.kind is Let),
{
    assert(crate::decl::declarators_error(v.decls@, 1) is None);
}

/// The test of a counting loop: the counter compared with a literal bound.
pub open spec fn counting_test(test: ts::Expr, counter: Seq<char>, op: ts::BinaryOp, bound: i64) -> bool {
    &&& test matches ts::Expr::Bin(b)
    &&& b.op == op
    &&& *b.left matches ts::Expr::Ident(n)
    &&& n@ == counter
    &&& int_lit_of(*b.right) == Some(bound)
}

/// The update of a counting loop: the counter increased or decreased by a
/// literal step.
pub open spec fn counting_update(update: ts::Expr, counter: Seq<char>, op: ts::AssignOp, step: i64) -> bool {
    &&& update matches ts::Expr::Assign(a)
    &&& a.op == op
    &&& a.left matches ts::AssignTarget::Ident(n)
    &&& n@ == counter
    &&& int_lit_of(*a.right) == Some(step)
}

/// The range literal `lo..hi` or `lo..=hi`.
pub open spec fn int_range(lo: i64, hi: i64, inclusive: bool) -> rs::Expr {
    rs::Expr::Range(
        Box::new(rs::Expr::Lit(rs::Lit::Int(lo as i128))),
        if inclusive {
            rs::RangeLimits::Closed
        } else {
            rs::RangeLimits::HalfOpen
        },
        Box::new(rs::Expr::Lit(rs::Lit::Int(hi as i128))),
    )
}

/// `for (let i = lo; i < hi; i += s)` with `lo < hi` and `s` in 1..=3 becomes
/// one `for i in lo..hi` loop, stepped by `s` where `s` is not one; with `<=`
/// the range is closed (`lo..=hi`).
pub proof fn law_counting_loop_up(
    f: ts::ForStmt,
    v: ts::VarDecl,
    counter: String,
    start: ts::NumLit,
    lo: i64,
    hi: i64,
    s: i64,
    inclusive: bool,
    ys: Seq<rs::Stmt>,
)
    requires
        lo < hi,
        1 <= s <= 3,
        f.init == Some(ts::ForInit::Var(v)),
        v.decls@ == seq![
            ts::VarDeclarator {
                name: ts::Pat::Ident(counter),
                init: Some(ts::Expr::Lit(ts::Lit::Num(start))),
            },
        ],
        start.integer == Some(lo),
        f.test matches Some(t) && counting_test(
            t,
            counter@,
            if inclusive {
                ts::BinaryOp::LtEq
            } else {
                ts::BinaryOp::Lt
            },
            hi,
        ),
        f.update matches Some(u) && counting_update(u, counter@, ts::AssignOp::AddAssign, s),
        stmt_stmts_to(ts::Stmt::For(f), ys),
    ensures
        counting_loop_of(f) == Some(
            CountingLoop {
                counter,
                start: lo,
                end: hi,
                inclusive,
                descending: false,
                step: s as u64,
            },
        ),
        stmt_error(ts::Stmt::For(f)) == stmt_error(*f.body),
        ys.len() == 1,
        ys[0] matches rs::Stmt::Semi(rs::Expr::ForLoop(name, it, blk)) && name == counter
            && body_to(*f.body, blk.stmts@) && if s == 1 {
            *it == int_range(lo, hi, inclusive)
        } else {
            &&& *it matches rs::Expr::MethodCall(x, rs::Method::StepBy, args)
            &&& *x == rs::Expr::Paren(Box::new(int_range(lo, hi, inclusive)))
            &&& args@ == seq![rs::Expr::Lit(rs::Lit::Int(s as i128))]
        },
{
}

/// `for (let i = hi; i > lo; i -= s)` with `lo < hi` and `s` in 1..=3 becomes
/// one `for i in (lo..hi).rev()` loop, stepped by `s` where `s` is not one;
/// with `>=` the range is closed (`(lo..=hi).rev()`).
pub proof fn law_counting_loop_down(
    f: ts::ForStmt,
    v: ts::VarDecl,
    counter: String,
    start: ts::NumLit,
    lo: i64,
    hi: i64,
    s: i64,
    inclusive: bool,
    ys: Seq<rs::Stmt>,
)
    requires
        lo < hi,
        1 <= s <= 3,
        f.init == Some(ts::ForInit::Var(v)),
        v.decls@ == seq![
            ts::VarDeclarator {
                name: ts::Pat::Ident(counter),
                init: Some(ts::Expr::Lit(ts::Lit::Num(start))),
            },
        ],
        start.integer == Some(hi),
        f.test matches Some(t) && counting_test(
            t,
            counter@,
            if inclusive {
                ts::BinaryOp::GtEq
            } else {
                ts::BinaryOp::Gt
            },
            lo,
        ),
        f.update matches Some(u) && counting_update(u, counter@, ts::AssignOp::SubAssign, s),
        stmt_stmts_to(ts::Stmt::For(f), ys),
    ensures
        counting_loop_of(f) == Some(
            CountingLoop {
                counter,
                start: hi,
                end: lo,
                inclusive,
                descending: true,
                step: s as u64,
            },
        ),
        stmt_error(ts::Stmt::For(f)) == stmt_error(*f.body),
        ys.len() == 1,
        ys[0] matches rs::Stmt::Semi(rs::Expr::ForLoop(name, it, blk)) && name == counter
            && body_to(*f.body, blk.stmts@) && {
            let rev = if s == 1 {
                *it
            } else {
                *it->MethodCall_0
            };
            &&& s != 1 ==> (*it matches rs::Expr::MethodCall(_, rs::Method::StepBy, args) && args@
                == seq![rs::Expr::Lit(rs::Lit::Int(s as i128))])
            &&& rev matches rs::Expr::MethodCall(x, rs::Method::Rev, none)
            &&& none@.len() == 0
            &&& *x == rs::Expr::Paren(Box::new(int_range(lo, hi, inclusive)))
        },
{
}

/// `do { body } while (false);` becomes a `loop` whose block holds what the
/// body becomes and then, last, the guard `if !(false) { break; }`: the body
/// runs once and the loop ends.
pub proof fn law_do_while_once(d: ts::DoWhileStmt, ys: Seq<rs::Stmt>)
    requires
        d.test == ts::Expr::Lit(ts::Lit::Bool(false)),
        stmt_stmts_to(ts::Stmt::DoWhile(d), ys),
    ensures
        ys.len() == 1,
        ys[0] matches rs::Stmt::Semi(rs::Expr::Loop(blk)) && {
            let n = blk.stmts@.len() as int;
            &&& n >= 1
            &&& body_to(*d.body, blk.stmts@.subrange(0, n - 1))
            &&& blk.stmts@[n - 1] matches rs::Stmt::Expr(rs::Expr::If(c, thn, None))
            &&& *c == rs::Expr::Unary(
                rs::UnOp::Not,
                Box::new(rs::Expr::Paren(Box::new(rs::Expr::Lit(rs::Lit::Bool(false))))),
            )
            &&& thn.stmts@ == seq![rs::Stmt::Semi(rs::Expr::Break)]
        },
{
}

/// Each expression kind marked unsupported fails, naming its kind; so does a
/// member expression outside a call.
pub proof fn law_unsupported_expr(k: ts::ExprKind)
    ensures
        expr_error(ts::Expr::Other(k)) == Some(TranspileError::Expr(k)),
{
}

/// Each statement kind marked unsupported fails, naming its kind, and a
/// program made of that statement alone fails with the same error.
pub proof fn law_unsupported_stmt(k: ts::StmtKind, body: Seq<ts::ModuleItem>)
    requires
        body == seq![ts::ModuleItem::Stmt(ts::Stmt::Other(k))],
    ensures
        stmt_error(ts::Stmt::Other(k)) == Some(TranspileError::Stmt(k)),
        items_error(body, 0) == Some(TranspileError::Stmt(k)),
{
}

/// Each declaration kind other than a variable declaration fails, naming its
/// kind, as a statement too.
pub proof fn law_unsupported_decl(k: ts::DeclKind)
    ensures
        stmt_error(ts::Stmt::Decl(ts::Decl::Other(k))) == Some(TranspileError::Decl(k)),
{
}

/// Each literal kind other than a string, boolean or number fails, naming
/// its kind.
pub proof fn law_unsupported_lit(k: ts::LitKind)
    ensures
        expr_error(ts::Expr::Lit(ts::Lit::Other(k))) == Some(TranspileError::Lit(k)),
{
}

/// An assignment to anything but a plain identifier fails, naming the
/// target's kind, before its right side is looked at.
pub proof fn law_unsupported_target(a: ts::AssignExpr, k: ts::TargetKind)
    requires
        a.left == ts::AssignTarget::Other(k),
    ensures
        expr_error(ts::Expr::Assign(a)) == Some(TranspileError::AssignTarget(k)),
{
}

/// A program with a module declaration (`import`, `export`, ...) at its
/// start fails on it.
pub proof fn law_unsupported_module_decl(body: Seq<ts::ModuleItem>)
    requires
        body.len() >= 1,
        body[0] == ts::ModuleItem::ModuleDecl,
    ensures
        items_error(body, 0) == Some(TranspileError::ModuleDecl),
{
}

} // verus!

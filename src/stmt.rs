//! Statements: each source statement becomes zero or more destination
//! constructs, each tagged as an expression or a statement.
use crate::counting::{counting_loop, counting_loop_of, counting_range, range_iter_to};
use crate::decl::{decl_error, declarator_to, transpile_decl, transpile_var, var_error};
use crate::error::{first_error, settles, ArmShape, TranspileError};
use crate::expr::{expr_error, expr_to, transpile_expr};
use crate::rs;
use crate::ts;
use vstd::prelude::*;

verus! {

/// An expression in statement position: the expression and a `;`.
pub open spec fn as_stmt(x: rs::ExprOrStmt) -> rs::Stmt {
    match x {
        rs::ExprOrStmt::Expr(e) => rs::Stmt::Semi(e),
        rs::ExprOrStmt::Stmt(s) => s,
    }
}

/// Blocks, `if` statements and declarations yield expressions; the other
/// statements yield statements.
pub open spec fn yields_expr(s: ts::Stmt) -> bool {
    s is Block || s is If || s is Decl
}

pub open spec fn init_len(init: Option<ts::ForInit>) -> nat {
    match init {
        None => 0,
        Some(ts::ForInit::Var(v)) => v.decls@.len(),
        Some(ts::ForInit::Expr(_)) => 1,
    }
}

/// How many destination constructs a statement becomes.
pub open spec fn stmt_len(s: ts::Stmt) -> nat {
    match s {
        ts::Stmt::For(f) => if counting_loop_of(f) is Some {
            1
        } else {
            init_len(f.init) + 1
        },
        ts::Stmt::Decl(ts::Decl::Var(v)) => v.decls@.len(),
        ts::Stmt::Decl(ts::Decl::Other(_)) => 0,
        ts::Stmt::Other(_) => 0,
        _ => 1,
    }
}

/// `zs` is what the initializer of a general `for` becomes: its bindings, or
/// its expression, each followed by `;`.
pub open spec fn for_init_to(init: Option<ts::ForInit>, zs: Seq<rs::Stmt>) -> bool {
    match init {
        None => zs.len() == 0,
        Some(ts::ForInit::Var(v)) => {
            &&& !v.declare
            &&& zs.len() == v.decls@.len()
            &&& forall|i: int|
                0 <= i < zs.len() ==> (#[trigger] zs[i] matches rs::Stmt::Semi(b)
                    && declarator_to(v.kind, v.decls@[i], b))
        },
        Some(ts::ForInit::Expr(e)) => {
            &&& zs.len() == 1
            &&& zs[0] matches rs::Stmt::Semi(x)
            &&& expr_to(e, x)
        },
    }
}

/// The guard that ends a lowered `do ... while (test)`:
/// `if !(test) { break; }`, without a trailing `;`.
pub open spec fn guard_to(test: ts::Expr, g: rs::Stmt) -> bool {
    &&& g matches rs::Stmt::Expr(rs::Expr::If(c, thn, els))
    &&& els is None
    &&& *c matches rs::Expr::Unary(rs::UnOp::Not, p)
    &&& *p matches rs::Expr::Paren(t)
    &&& expr_to(test, *t)
    &&& thn.stmts@ == seq![rs::Stmt::Semi(rs::Expr::Break)]
}

/// `ys` is what statement `s` becomes, each construct in statement position.
pub open spec fn stmt_stmts_to(s: ts::Stmt, ys: Seq<rs::Stmt>) -> bool
    decreases s, 0nat,
{
    match s {
        ts::Stmt::Block(b) => {
            &&& ys.len() == 1
            &&& ys[0] matches rs::Stmt::Semi(rs::Expr::Block(blk))
            &&& seq_stmts_to(b.stmts@, blk.stmts@)
        },
        ts::Stmt::Return(r) => {
            &&& ys.len() == 1
            &&& ys[0] matches rs::Stmt::Semi(rs::Expr::Return(x))
            &&& match r.arg {
                None => x is None,
                Some(a) => x matches Some(y) && expr_to(a, *y),
            }
        },
        ts::Stmt::Break(b) => b.label is None && ys == seq![rs::Stmt::Semi(rs::Expr::Break)],
        ts::Stmt::Continue(c) => c.label is None && ys == seq![rs::Stmt::Semi(rs::Expr::Continue)],
        ts::Stmt::If(i) => {
            &&& ys.len() == 1
            &&& ys[0] matches rs::Stmt::Semi(rs::Expr::If(c, thn, els))
            &&& expr_to(i.test, *c)
            &&& body_to(*i.cons, thn.stmts@)
            &&& match i.alt {
                None => els is None,
                Some(a) => {
                    &&& els matches Some(x)
                    &&& yields_expr(*a)
                    &&& stmt_stmts_to(*a, seq![rs::Stmt::Semi(*x)])
                },
            }
        },
        ts::Stmt::While(w) => {
            &&& ys.len() == 1
            &&& ys[0] matches rs::Stmt::Semi(rs::Expr::While(c, blk))
            &&& expr_to(w.test, *c)
            &&& body_to(*w.body, blk.stmts@)
        },
        ts::Stmt::DoWhile(d) => {
            &&& ys.len() == 1
            &&& ys[0] matches rs::Stmt::Semi(rs::Expr::Loop(blk))
            &&& blk.stmts@.len() >= 1
            &&& body_to(*d.body, blk.stmts@.subrange(0, blk.stmts@.len() - 1))
            &&& guard_to(d.test, blk.stmts@[blk.stmts@.len() - 1])
        },
        ts::Stmt::For(f) => match counting_loop_of(f) {
            Some(c) => {
                &&& ys.len() == 1
                &&& ys[0] matches rs::Stmt::Semi(rs::Expr::ForLoop(name, it, blk))
                &&& name == c.counter
                &&& range_iter_to(c, *it)
                &&& body_to(*f.body, blk.stmts@)
            },
            None => {
                let k = init_len(f.init) as int;
                &&& ys.len() == k + 1
                &&& for_init_to(f.init, ys.subrange(0, k))
                &&& ys[k] matches rs::Stmt::Semi(lp)
                &&& match f.test {
                    Some(t) => lp matches rs::Expr::While(c, _) && expr_to(t, *c),
                    None => lp is Loop,
                }
                &&& loop_body_to(*f.body, f.update, loop_stmts(lp))
            },
        },
        ts::Stmt::Decl(d) => {
            &&& d matches ts::Decl::Var(v)
            &&& ys.len() == v.decls@.len()
            &&& forall|i: int|
                0 <= i < ys.len() ==> (#[trigger] ys[i] matches rs::Stmt::Semi(b)
                    && declarator_to(v.kind, v.decls@[i], b))
        },
        ts::Stmt::Expr(e) => {
            &&& ys.len() == 1
            &&& ys[0] matches rs::Stmt::Semi(x)
            &&& expr_to(e, x)
        },
        ts::Stmt::Other(_) => false,
    }
}

/// The statements of the block of a `while` or `loop`.
pub open spec fn loop_stmts(lp: rs::Expr) -> Seq<rs::Stmt> {
    match lp {
        rs::Expr::While(_, blk) => blk.stmts@,
        rs::Expr::Loop(blk) => blk.stmts@,
        _ => Seq::empty(),
    }
}

/// The body of a lowered general `for`: the loop's own body, then the update,
/// if any, followed by `;`.
pub open spec fn loop_body_to(body: ts::Stmt, update: Option<ts::Expr>, ys: Seq<rs::Stmt>) -> bool
    decreases body, 2nat,
{
    match update {
        None => body_to(body, ys),
        Some(u) => {
            &&& ys.len() >= 1
            &&& body_to(body, ys.subrange(0, ys.len() - 1))
            &&& ys[ys.len() - 1] matches rs::Stmt::Semi(x)
            &&& expr_to(u, x)
        },
    }
}

/// `ys` is the body of a block made from statement `s`: the inner statements
/// of a block, or what any other statement becomes.
pub open spec fn body_to(s: ts::Stmt, ys: Seq<rs::Stmt>) -> bool
    decreases s, 1nat,
{
    match s {
        ts::Stmt::Block(b) => seq_stmts_to(b.stmts@, ys),
        _ => stmt_stmts_to(s, ys),
    }
}

/// `ys` is what the statements `ss` become, one after the other.
pub open spec fn seq_stmts_to(ss: Seq<ts::Stmt>, ys: Seq<rs::Stmt>) -> bool
    decreases ss, 0nat,
{
    if ss.len() == 0 {
        ys.len() == 0
    } else {
        let n = stmt_len(ss[ss.len() - 1]) as int;
        &&& n <= ys.len()
        &&& seq_stmts_to(ss.subrange(0, ss.len() - 1), ys.subrange(0, ys.len() - n))
        &&& stmt_stmts_to(ss[ss.len() - 1], ys.subrange(ys.len() - n, ys.len() as int))
    }
}

/// `xs` is what statement `s` becomes, tagged.
pub open spec fn stmt_to(s: ts::Stmt, xs: Seq<rs::ExprOrStmt>) -> bool {
    &&& stmt_stmts_to(s, xs.map_values(|x: rs::ExprOrStmt| as_stmt(x)))
    &&& forall|i: int| 0 <= i < xs.len() ==> ((#[trigger] xs[i]) is Expr <==> yields_expr(s))
}

/// The failure of an `else` arm that translated: it must be exactly one
/// expression.
pub open spec fn arm_error(a: ts::Stmt) -> Option<TranspileError> {
    if stmt_len(a) == 0 {
        Some(TranspileError::ElseArm(ArmShape::Nothing))
    } else if !yields_expr(a) {
        Some(TranspileError::ElseArm(ArmShape::Statement))
    } else if stmt_len(a) > 1 {
        Some(TranspileError::ElseArm(ArmShape::Several))
    } else {
        None
    }
}

pub open spec fn for_init_error(init: Option<ts::ForInit>) -> Option<TranspileError> {
    match init {
        None => None,
        Some(ts::ForInit::Var(v)) => var_error(v),
        Some(ts::ForInit::Expr(e)) => expr_error(e),
    }
}

pub open spec fn opt_expr_error(e: Option<ts::Expr>) -> Option<TranspileError> {
    match e {
        None => None,
        Some(x) => expr_error(x),
    }
}

/// The first failure in translating `s`, in evaluation order. A general `for`
/// translates its body, then its update, test and initializer.
pub open spec fn stmt_error(s: ts::Stmt) -> Option<TranspileError>
    decreases s, 0nat,
{
    match s {
        ts::Stmt::Block(b) => seq_error(b.stmts@, 0),
        ts::Stmt::Return(r) => opt_expr_error(r.arg),
        ts::Stmt::Break(b) => if b.label is Some {
            Some(TranspileError::LabeledBreak)
        } else {
            None
        },
        ts::Stmt::Continue(c) => if c.label is Some {
            Some(TranspileError::LabeledContinue)
        } else {
            None
        },
        ts::Stmt::If(i) => first_error(
            expr_error(i.test),
            first_error(
                stmt_error(*i.cons),
                match i.alt {
                    None => None,
                    Some(a) => first_error(stmt_error(*a), arm_error(*a)),
                },
            ),
        ),
        ts::Stmt::While(w) => first_error(expr_error(w.test), stmt_error(*w.body)),
        ts::Stmt::DoWhile(d) => first_error(stmt_error(*d.body), expr_error(d.test)),
        ts::Stmt::For(f) => if counting_loop_of(f) is Some {
            stmt_error(*f.body)
        } else {
            first_error(
                stmt_error(*f.body),
                first_error(
                    opt_expr_error(f.update),
                    first_error(opt_expr_error(f.test), for_init_error(f.init)),
                ),
            )
        },
        ts::Stmt::Decl(d) => decl_error(d),
        ts::Stmt::Expr(e) => expr_error(e),
        ts::Stmt::Other(k) => Some(TranspileError::Stmt(k)),
    }
}

/// The first failure among the statements from index `i` on.
pub open spec fn seq_error(ss: Seq<ts::Stmt>, i: int) -> Option<TranspileError>
    decreases ss, ss.len() - i,
{
    if 0 <= i < ss.len() {
        first_error(stmt_error(ss[i]), seq_error(ss, i + 1))
    } else {
        None
    }
}

/// A statement construct has the length that `stmt_len` gives.
pub proof fn lemma_stmt_len(s: ts::Stmt, ys: Seq<rs::Stmt>)
    requires
        stmt_stmts_to(s, ys),
    ensures
        ys.len() == stmt_len(s),
{
}

/// Translates a statement into its tagged destination constructs.
pub fn transpile_stmt(stmt: ts::Stmt) -> (r: Result<Vec<rs::ExprOrStmt>, TranspileError>)
    ensures
        settles(r, stmt_error(stmt)),
        r is Ok ==> stmt_to(stmt, r->Ok_0@),
    decreases stmt, 0nat,
{
    let ghost s = stmt;
    let r = match stmt {
        ts::Stmt::Block(block) => match transpile_block(block) {
            Ok(blk) => vec![rs::ExprOrStmt::Expr(rs::Expr::Block(blk))],
            Err(err) => return Err(err),
        },
        ts::Stmt::Return(ret) => match transpile_return(ret) {
            Ok(x) => vec![rs::ExprOrStmt::Stmt(x)],
            Err(err) => return Err(err),
        },
        ts::Stmt::Break(brk) => match transpile_break(brk) {
            Ok(x) => vec![rs::ExprOrStmt::Stmt(x)],
            Err(err) => return Err(err),
        },
        ts::Stmt::Continue(cont) => match transpile_continue(cont) {
            Ok(x) => vec![rs::ExprOrStmt::Stmt(x)],
            Err(err) => return Err(err),
        },
        ts::Stmt::If(if_stmt) => match transpile_if(if_stmt) {
            Ok(x) => vec![rs::ExprOrStmt::Expr(x)],
            Err(err) => return Err(err),
        },
        ts::Stmt::While(while_stmt) => match transpile_while(while_stmt) {
            Ok(x) => vec![rs::ExprOrStmt::Stmt(x)],
            Err(err) => return Err(err),
        },
        ts::Stmt::DoWhile(do_while) => match transpile_do_while(do_while) {
            Ok(x) => vec![rs::ExprOrStmt::Stmt(x)],
            Err(err) => return Err(err),
        },
        ts::Stmt::For(for_stmt) => {
            let ys = match transpile_for(for_stmt) {
                Ok(ys) => ys,
                Err(err) => return Err(err),
            };
            let ghost g = ys@;
            let n = ys.len();
            let mut rest = ys;
            let mut out: Vec<rs::ExprOrStmt> = Vec::new();
            let mut i: usize = 0;
            while i < n
                invariant
                    n == g.len(),
                    0 <= i <= n,
                    rest@ == g.subrange(i as int, n as int),
                    out@.len() == i,
                    forall|j: int| 0 <= j < i ==> #[trigger] out@[j] == rs::ExprOrStmt::Stmt(g[j]),
                decreases n - i,
            {
                let y = rest.remove(0);
                out.push(rs::ExprOrStmt::Stmt(y));
                i += 1;
            }
            assert(out@.map_values(|x: rs::ExprOrStmt| as_stmt(x)) =~= g);
            out
        },
        ts::Stmt::Decl(decl) => match transpile_decl(decl) {
            Ok(xs) => {
                assert(xs@.map_values(|x: rs::ExprOrStmt| as_stmt(x)).len() == xs@.len());
                xs
            },
            Err(err) => return Err(err),
        },
        ts::Stmt::Expr(e) => match transpile_expr(e) {
            Ok(x) => vec![rs::ExprOrStmt::Stmt(transpile_expr_to_stmt(x))],
            Err(err) => return Err(err),
        },
        ts::Stmt::Other(kind) => return Err(TranspileError::Stmt(kind)),
    };
    proof {
        if s is Block || s is Return || s is Break || s is Continue || s is If || s is While
            || s is DoWhile || s is Expr {
            assert(r@.map_values(|x: rs::ExprOrStmt| as_stmt(x)) =~= seq![as_stmt(r@[0])]);
        }
    }
    Ok(r)
}

/// Translates a block: each inner statement in turn, their constructs
/// flattened in order.
pub fn transpile_block(block: ts::BlockStmt) -> (r: Result<rs::Block, TranspileError>)
    ensures
        settles(r, seq_error(block.stmts@, 0)),
        r is Ok ==> seq_stmts_to(block.stmts@, r->Ok_0.stmts@),
    decreases block, 0nat,
{
    let ghost b = block;
    let ghost ss = block.stmts@;
    let n = block.stmts.len();
    let mut rest = block.stmts;
    let mut out: Vec<rs::Stmt> = Vec::new();
    let mut i: usize = 0;
    while i < n
        invariant
            b == block,
            ss == b.stmts@,
            n == ss.len(),
            0 <= i <= n,
            rest@ == ss.subrange(i as int, n as int),
            seq_error(ss, 0) == seq_error(ss, i as int),
            seq_stmts_to(ss.subrange(0, i as int), out@),
        decreases n - i,
    {
        let s = rest.remove(0);
        assert(s == ss[i as int]);
        proof {
            assert(decreases_to!(b => ss[i as int]));
        }
        let mut piece = match transpile_stmt_to_stmts(s) {
            Ok(piece) => piece,
            Err(err) => {
                assert(seq_error(ss, i as int) == Some(err));
                return Err(err);
            },
        };
        let ghost before = out@;
        let ghost p = piece@;
        out.append(&mut piece);
        proof {
            lemma_stmt_len(ss[i as int], p);
            let t = ss.subrange(0, i + 1);
            assert(t.subrange(0, t.len() - 1) =~= ss.subrange(0, i as int));
            assert(t[t.len() - 1] == ss[i as int]);
            assert(out@.subrange(0, out@.len() - p.len()) =~= before);
            assert(out@.subrange(out@.len() - p.len(), out@.len() as int) =~= p);
        }
        i += 1;
    }
    assert(ss.subrange(0, n as int) =~= ss);
    Ok(rs::Block { stmts: out })
}

/// An expression in statement position: the expression and a `;`.
pub fn transpile_expr_to_stmt(expr: rs::Expr) -> (r: rs::Stmt)
    ensures
        r == rs::Stmt::Semi(expr),
{
    rs::Stmt::Semi(expr)
}

/// Translates a statement into destination statements: expressions get a `;`.
pub fn transpile_stmt_to_stmts(stmt: ts::Stmt) -> (r: Result<Vec<rs::Stmt>, TranspileError>)
    ensures
        settles(r, stmt_error(stmt)),
        r is Ok ==> stmt_stmts_to(stmt, r->Ok_0@),
    decreases stmt, 1nat,
{
    let xs = match transpile_stmt(stmt) {
        Ok(xs) => xs,
        Err(err) => return Err(err),
    };
    let ghost g = xs@;
    let n = xs.len();
    let mut rest = xs;
    let mut out: Vec<rs::Stmt> = Vec::new();
    let mut i: usize = 0;
    while i < n
        invariant
            n == g.len(),
            0 <= i <= n,
            rest@ == g.subrange(i as int, n as int),
            out@.len() == i,
            forall|j: int| 0 <= j < i ==> #[trigger] out@[j] == as_stmt(g[j]),
        decreases n - i,
    {
        let x = rest.remove(0);
        let y = match x {
            rs::ExprOrStmt::Expr(e) => transpile_expr_to_stmt(e),
            rs::ExprOrStmt::Stmt(s) => s,
        };
        out.push(y);
        i += 1;
    }
    assert(out@ =~= g.map_values(|x: rs::ExprOrStmt| as_stmt(x)));
    Ok(out)
}

/// Translates an `else` arm, which must become exactly one expression.
pub fn transpile_stmt_to_expr(stmt: ts::Stmt) -> (r: Result<rs::Expr, TranspileError>)
    ensures
        settles(r, first_error(stmt_error(stmt), arm_error(stmt))),
        r is Ok ==> yields_expr(stmt) && stmt_stmts_to(stmt, seq![rs::Stmt::Semi(r->Ok_0)]),
    decreases stmt, 1nat,
{
    let ghost s = stmt;
    let mut xs = match transpile_stmt(stmt) {
        Ok(xs) => xs,
        Err(err) => return Err(err),
    };
    let ghost g = xs@;
    proof {
        lemma_stmt_len(s, g.map_values(|x: rs::ExprOrStmt| as_stmt(x)));
    }
    let n = xs.len();
    if n == 0 {
        return Err(TranspileError::ElseArm(ArmShape::Nothing));
    }
    let x = xs.remove(0);
    assert(x == g[0]);
    match x {
        rs::ExprOrStmt::Expr(e) => {
            if n == 1 {
                assert(g.map_values(|x: rs::ExprOrStmt| as_stmt(x)) =~= seq![rs::Stmt::Semi(e)]);
                Ok(e)
            } else {
                Err(TranspileError::ElseArm(ArmShape::Several))
            }
        },
        rs::ExprOrStmt::Stmt(_) => Err(TranspileError::ElseArm(ArmShape::Statement)),
    }
}

/// Translates a statement into a block: a block keeps its statements, any
/// other statement becomes the block's only content.
pub fn transpile_stmt_to_block(stmt: ts::Stmt) -> (r: Result<rs::Block, TranspileError>)
    ensures
        settles(r, stmt_error(stmt)),
        r is Ok ==> body_to(stmt, r->Ok_0.stmts@),
    decreases stmt, 2nat,
{
    match stmt {
        ts::Stmt::Block(block) => transpile_block(block),
        other => match transpile_stmt_to_stmts(other) {
            Ok(stmts) => Ok(rs::Block { stmts }),
            Err(err) => Err(err),
        },
    }
}

pub fn transpile_return(return_stmt: ts::ReturnStmt) -> (r: Result<rs::Stmt, TranspileError>)
    ensures
        settles(r, stmt_error(ts::Stmt::Return(return_stmt))),
        r is Ok ==> stmt_stmts_to(ts::Stmt::Return(return_stmt), seq![r->Ok_0]),
{
    let arg = match return_stmt.arg {
        Some(e) => match transpile_expr(e) {
            Ok(x) => Some(Box::new(x)),
            Err(err) => return Err(err),
        },
        None => None,
    };
    Ok(transpile_expr_to_stmt(rs::Expr::Return(arg)))
}

/// `break;`; a labeled `break` is refused.
pub fn transpile_break(break_stmt: ts::BreakStmt) -> (r: Result<rs::Stmt, TranspileError>)
    ensures
        settles(r, stmt_error(ts::Stmt::Break(break_stmt))),
        r is Ok ==> stmt_stmts_to(ts::Stmt::Break(break_stmt), seq![r->Ok_0]),
{
    if break_stmt.label.is_some() {
        return Err(TranspileError::LabeledBreak);
    }
    Ok(transpile_expr_to_stmt(rs::Expr::Break))
}

/// `continue;`; a labeled `continue` is refused.
pub fn transpile_continue(continue_stmt: ts::ContinueStmt) -> (r: Result<rs::Stmt, TranspileError>)
    ensures
        settles(r, stmt_error(ts::Stmt::Continue(continue_stmt))),
        r is Ok ==> stmt_stmts_to(ts::Stmt::Continue(continue_stmt), seq![r->Ok_0]),
{
    if continue_stmt.label.is_some() {
        return Err(TranspileError::LabeledContinue);
    }
    Ok(transpile_expr_to_stmt(rs::Expr::Continue))
}

/// An `if` becomes an `if` expression; its `else` arm must reduce to one
/// expression.
pub fn transpile_if(if_stmt: ts::IfStmt) -> (r: Result<rs::Expr, TranspileError>)
    ensures
        settles(r, stmt_error(ts::Stmt::If(if_stmt))),
        r is Ok ==> stmt_stmts_to(ts::Stmt::If(if_stmt), seq![rs::Stmt::Semi(r->Ok_0)]),
    decreases if_stmt, 0nat,
{
    let cond = match transpile_expr(if_stmt.test) {
        Ok(x) => x,
        Err(err) => return Err(err),
    };
    let then_branch = match transpile_stmt_to_block(*if_stmt.cons) {
        Ok(blk) => blk,
        Err(err) => return Err(err),
    };
    let else_branch = match if_stmt.alt {
        Some(alt) => match transpile_stmt_to_expr(*alt) {
            Ok(x) => Some(Box::new(x)),
            Err(err) => return Err(err),
        },
        None => None,
    };
    Ok(rs::Expr::If(Box::new(cond), then_branch, else_branch))
}

pub fn transpile_while(while_stmt: ts::WhileStmt) -> (r: Result<rs::Stmt, TranspileError>)
    ensures
        settles(r, stmt_error(ts::Stmt::While(while_stmt))),
        r is Ok ==> stmt_stmts_to(ts::Stmt::While(while_stmt), seq![r->Ok_0]),
    decreases while_stmt, 0nat,
{
    let cond = match transpile_expr(while_stmt.test) {
        Ok(x) => x,
        Err(err) => return Err(err),
    };
    match transpile_stmt_to_block(*while_stmt.body) {
        Ok(body) => Ok(transpile_expr_to_stmt(rs::Expr::While(Box::new(cond), body))),
        Err(err) => Err(err),
    }
}

/// `do body while (test)` becomes `loop { body if !(test) { break; } }`.
pub fn transpile_do_while(while_stmt: ts::DoWhileStmt) -> (r: Result<rs::Stmt, TranspileError>)
    ensures
        settles(r, stmt_error(ts::Stmt::DoWhile(while_stmt))),
        r is Ok ==> stmt_stmts_to(ts::Stmt::DoWhile(while_stmt), seq![r->Ok_0]),
    decreases while_stmt, 0nat,
{
    let body = match transpile_stmt_to_block(*while_stmt.body) {
        Ok(blk) => blk,
        Err(err) => return Err(err),
    };
    let test = match transpile_expr(while_stmt.test) {
        Ok(x) => x,
        Err(err) => return Err(err),
    };
    let brk = vec![rs::Stmt::Semi(rs::Expr::Break)];
    assert(brk@ == seq![rs::Stmt::Semi(rs::Expr::Break)]);
    let guard = rs::Stmt::Expr(
        rs::Expr::If(
            Box::new(rs::Expr::Unary(rs::UnOp::Not, Box::new(rs::Expr::Paren(Box::new(test))))),
            rs::Block { stmts: brk },
            None,
        ),
    );
    let ghost before = body.stmts@;
    let mut stmts = body.stmts;
    stmts.push(guard);
    assert(stmts@.subrange(0, stmts@.len() - 1) =~= before);
    assert(guard_to(while_stmt.test, stmts@[stmts@.len() - 1]));
    Ok(transpile_expr_to_stmt(rs::Expr::Loop(rs::Block { stmts })))
}

/// A counting loop becomes a `for` over a range; any other `for` becomes its
/// initializer, then a `while` (or a `loop` without a test) whose body ends
/// with the update.
pub fn transpile_for(for_stmt: ts::ForStmt) -> (r: Result<Vec<rs::Stmt>, TranspileError>)
    ensures
        settles(r, stmt_error(ts::Stmt::For(for_stmt))),
        r is Ok ==> stmt_stmts_to(ts::Stmt::For(for_stmt), r->Ok_0@),
    decreases for_stmt, 1nat,
{
    if let Some(c) = counting_loop(&for_stmt) {
        return match transpile_for_range(for_stmt, c) {
            Ok(x) => Ok(vec![x]),
            Err(err) => Err(err),
        };
    }
    let ghost f = for_stmt;
    let ts::ForStmt { init, test, update, body } = for_stmt;
    let blk = match transpile_stmt_to_block(*body) {
        Ok(blk) => blk,
        Err(err) => return Err(err),
    };
    let mut stmts = blk.stmts;
    let ghost before = stmts@;
    match update {
        Some(u) => match transpile_expr(u) {
            Ok(x) => {
                stmts.push(transpile_expr_to_stmt(x));
                assert(stmts@.subrange(0, stmts@.len() - 1) =~= before);
            },
            Err(err) => return Err(err),
        },
        None => {},
    }
    let lp = match test {
        Some(t) => match transpile_expr(t) {
            Ok(c) => rs::Expr::While(Box::new(c), rs::Block { stmts }),
            Err(err) => return Err(err),
        },
        None => rs::Expr::Loop(rs::Block { stmts }),
    };
    assert(counting_loop_of(f) is None);
    assert(loop_body_to(*f.body, f.update, loop_stmts(lp)));
    assert(match f.test {
        Some(t) => lp matches rs::Expr::While(c, _) && expr_to(t, *c),
        None => lp is Loop,
    });
    let stmt = transpile_expr_to_stmt(lp);
    match init {
        None => {
            let r = vec![stmt];
            assert(r@.subrange(0, 0) =~= Seq::<rs::Stmt>::empty());
            Ok(r)
        },
        Some(ts::ForInit::Expr(e)) => match transpile_expr(e) {
            Ok(x) => {
                let r = vec![transpile_expr_to_stmt(x), stmt];
                assert(r@.subrange(0, 1) =~= seq![rs::Stmt::Semi(x)]);
                Ok(r)
            },
            Err(err) => Err(err),
        },
        Some(ts::ForInit::Var(var)) => {
            let bindings = match transpile_var(var) {
                Ok(bs) => bs,
                Err(err) => return Err(err),
            };
            let ghost g = bindings@;
            let n = bindings.len();
            let mut rest = bindings;
            let mut out: Vec<rs::Stmt> = Vec::new();
            let mut i: usize = 0;
            while i < n
                invariant
                    n == g.len(),
                    0 <= i <= n,
                    rest@ == g.subrange(i as int, n as int),
                    out@.len() == i,
                    forall|j: int| 0 <= j < i ==> #[trigger] out@[j] == rs::Stmt::Semi(g[j]),
                decreases n - i,
            {
                let b = rest.remove(0);
                out.push(transpile_expr_to_stmt(b));
                i += 1;
            }
            out.push(stmt);
            assert(for_init_to(f.init, out@.subrange(0, n as int)));
            Ok(out)
        },
    }
}

/// The `for` over a range that a recognized counting loop becomes.
fn transpile_for_range(for_stmt: ts::ForStmt, c: crate::counting::CountingLoop) -> (r: Result<
    rs::Stmt,
    TranspileError,
>)
    requires
        counting_loop_of(for_stmt) == Some(c),
    ensures
        settles(r, stmt_error(ts::Stmt::For(for_stmt))),
        r is Ok ==> stmt_stmts_to(ts::Stmt::For(for_stmt), seq![r->Ok_0]),
    decreases for_stmt, 0nat,
{
    let iter = counting_range(&c);
    match transpile_stmt_to_block(*for_stmt.body) {
        Ok(body) => Ok(
            transpile_expr_to_stmt(rs::Expr::ForLoop(c.counter, Box::new(iter), body)),
        ),
        Err(err) => Err(err),
    }
}

} // verus!

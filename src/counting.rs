//! Recognition of counting loops: `for (let i = a; i < b; i += s)` and its
//! variants become a `for` over a range of integers.
use crate::rs;
use crate::ts;
use vstd::prelude::*;

verus! {

/// A recognized counting loop: the counter's name, the literal it starts from,
/// the literal bound of the test, whether the test includes the bound, whether
/// the counter moves down, and the size of each step.
#[derive(Debug, PartialEq, Eq)]
pub struct CountingLoop {
    pub counter: String,
    pub start: i64,
    pub end: i64,
    pub inclusive: bool,
    pub descending: bool,
    pub step: u64,
}

/// The value of a numeric literal that is a whole number.
pub open spec fn int_lit_of(e: ts::Expr) -> Option<i64> {
    match e {
        ts::Expr::Lit(ts::Lit::Num(n)) => n.integer,
        _ => None,
    }
}

pub open spec fn magnitude(v: i64) -> u64 {
    if v < 0 {
        (-(v as int)) as u64
    } else {
        v as u64
    }
}

/// The counter and its start: a single declarator, a plain identifier bound to
/// a whole-number literal.
pub open spec fn counter_of(init: ts::ForInit) -> Option<(String, i64)> {
    match init {
        ts::ForInit::Var(v) => if v.decls@.len() == 1 {
            match (v.decls@[0].name, v.decls@[0].init) {
                (ts::Pat::Ident(n), Some(e)) => match int_lit_of(e) {
                    Some(x) => Some((n, x)),
                    None => None,
                },
                _ => None,
            }
        } else {
            None
        },
        ts::ForInit::Expr(_) => None,
    }
}

/// The bound and whether it is included: the test compares the counter with
/// `<`, `<=`, `>` or `>=` against a whole-number literal.
pub open spec fn limit_of(test: ts::Expr, name: Seq<char>) -> Option<(i64, bool)> {
    match test {
        ts::Expr::Bin(b) => match (*b.left, int_lit_of(*b.right)) {
            (ts::Expr::Ident(n), Some(v)) => if n@ != name {
                None
            } else {
                match b.op {
                    ts::BinaryOp::Lt => Some((v, false)),
                    ts::BinaryOp::Gt => Some((v, false)),
                    ts::BinaryOp::LtEq => Some((v, true)),
                    ts::BinaryOp::GtEq => Some((v, true)),
                    _ => None,
                }
            },
            _ => None,
        },
        _ => None,
    }
}

/// The direction (downward or not) and size of the step: `i++`, `i--`, or
/// `i += k` / `i -= k` with a whole-number literal `k`.
pub open spec fn step_of(update: ts::Expr, name: Seq<char>) -> Option<(bool, u64)> {
    match update {
        ts::Expr::Update(u) => match *u.arg {
            ts::Expr::Ident(n) => if n@ == name {
                Some((u.op is MinusMinus, 1u64))
            } else {
                None
            },
            _ => None,
        },
        ts::Expr::Assign(a) => match (a.left, int_lit_of(*a.right)) {
            (ts::AssignTarget::Ident(n), Some(v)) => if n@ != name {
                None
            } else {
                match a.op {
                    ts::AssignOp::AddAssign => Some((v < 0, magnitude(v))),
                    ts::AssignOp::SubAssign => Some((v > 0, magnitude(v))),
                    _ => None,
                }
            },
            _ => None,
        },
        _ => None,
    }
}

/// The counting loop that `f` is, if its initializer, test and update all
/// match the pattern on the same counter.
pub open spec fn counting_loop_of(f: ts::ForStmt) -> Option<CountingLoop> {
    match (f.init, f.test, f.update) {
        (Some(init), Some(test), Some(update)) => match counter_of(init) {
            Some((counter, start)) => match (limit_of(test, counter@), step_of(update, counter@)) {
                (Some((end, inclusive)), Some((descending, step))) => Some(
                    CountingLoop { counter, start, end, inclusive, descending, step },
                ),
                _ => None,
            },
            None => None,
        },
        _ => None,
    }
}

/// The bare range: from the smaller end to the larger, as the direction says.
pub open spec fn range_of(c: CountingLoop) -> rs::Expr {
    let (lo, hi) = if c.descending {
        (c.end, c.start)
    } else {
        (c.start, c.end)
    };
    rs::Expr::Range(
        Box::new(rs::Expr::Lit(rs::Lit::Int(lo as i128))),
        if c.inclusive {
            rs::RangeLimits::Closed
        } else {
            rs::RangeLimits::HalfOpen
        },
        Box::new(rs::Expr::Lit(rs::Lit::Int(hi as i128))),
    )
}

/// The range before any step: reversed when the counter moves down, and
/// parenthesized where a method is called on it.
pub open spec fn reversed_to(c: CountingLoop, d: rs::Expr) -> bool {
    if c.descending {
        &&& d matches rs::Expr::MethodCall(x, rs::Method::Rev, args)
        &&& args@.len() == 0
        &&& *x == rs::Expr::Paren(Box::new(range_of(c)))
    } else if c.step != 1 {
        d == rs::Expr::Paren(Box::new(range_of(c)))
    } else {
        d == range_of(c)
    }
}

/// `d` is the iterator of the destination `for`: the range, reversed if need
/// be, then stepped where the step is not one.
pub open spec fn range_iter_to(c: CountingLoop, d: rs::Expr) -> bool {
    if c.step != 1 {
        &&& d matches rs::Expr::MethodCall(x, rs::Method::StepBy, args)
        &&& args@ == seq![rs::Expr::Lit(rs::Lit::Int(c.step as i128))]
        &&& reversed_to(c, *x)
    } else {
        reversed_to(c, d)
    }
}

fn int_lit(e: &ts::Expr) -> (r: Option<i64>)
    ensures
        r == int_lit_of(*e),
{
    match e {
        ts::Expr::Lit(ts::Lit::Num(n)) => n.integer,
        _ => None,
    }
}

fn magnitude_of(v: i64) -> (r: u64)
    ensures
        r == magnitude(v),
{
    if v < 0 {
        (-(v as i128)) as u64
    } else {
        v as u64
    }
}

fn counter(init: &ts::ForInit) -> (r: Option<(String, i64)>)
    ensures
        r == counter_of(*init),
{
    match init {
        ts::ForInit::Var(v) => {
            if v.decls.len() != 1 {
                return None;
            }
            let d = &v.decls[0];
            match (&d.name, &d.init) {
                (ts::Pat::Ident(n), Some(e)) => match int_lit(e) {
                    Some(x) => Some((n.clone(), x)),
                    None => None,
                },
                _ => None,
            }
        },
        ts::ForInit::Expr(_) => None,
    }
}

fn limit(test: &ts::Expr, name: &String) -> (r: Option<(i64, bool)>)
    ensures
        r == limit_of(*test, name@),
{
    match test {
        ts::Expr::Bin(b) => match (&*b.left, int_lit(&b.right)) {
            (ts::Expr::Ident(n), Some(v)) => {
                if *n != *name {
                    return None;
                }
                match b.op {
                    ts::BinaryOp::Lt => Some((v, false)),
                    ts::BinaryOp::Gt => Some((v, false)),
                    ts::BinaryOp::LtEq => Some((v, true)),
                    ts::BinaryOp::GtEq => Some((v, true)),
                    _ => None,
                }
            },
            _ => None,
        },
        _ => None,
    }
}

fn step(update: &ts::Expr, name: &String) -> (r: Option<(bool, u64)>)
    ensures
        r == step_of(*update, name@),
{
    match update {
        ts::Expr::Update(u) => match &*u.arg {
            ts::Expr::Ident(n) => if *n == *name {
                Some(
                    (
                        match u.op {
                            ts::UpdateOp::MinusMinus => true,
                            ts::UpdateOp::PlusPlus => false,
                        },
                        1u64,
                    ),
                )
            } else {
                None
            },
            _ => None,
        },
        ts::Expr::Assign(a) => match (&a.left, int_lit(&a.right)) {
            (ts::AssignTarget::Ident(n), Some(v)) => {
                if *n != *name {
                    return None;
                }
                match a.op {
                    ts::AssignOp::AddAssign => Some((v < 0, magnitude_of(v))),
                    ts::AssignOp::SubAssign => Some((v > 0, magnitude_of(v))),
                    _ => None,
                }
            },
            _ => None,
        },
        _ => None,
    }
}

/// Recognizes a counting loop; `None` sends the caller to the general
/// lowering.
pub fn counting_loop(for_stmt: &ts::ForStmt) -> (r: Option<CountingLoop>)
    ensures
        r == counting_loop_of(*for_stmt),
{
    match (&for_stmt.init, &for_stmt.test, &for_stmt.update) {
        (Some(init), Some(test), Some(update)) => match counter(init) {
            Some((counter, start)) => match (limit(test, &counter), step(update, &counter)) {
                (Some((end, inclusive)), Some((descending, step))) => Some(
                    CountingLoop { counter, start, end, inclusive, descending, step },
                ),
                _ => None,
            },
            None => None,
        },
        _ => None,
    }
}

/// Builds the iterator of the destination `for` from a counting loop.
pub fn counting_range(c: &CountingLoop) -> (r: rs::Expr)
    ensures
        range_iter_to(*c, r),
{
    let (lo, hi) = if c.descending {
        (c.end, c.start)
    } else {
        (c.start, c.end)
    };
    let limits = if c.inclusive {
        rs::RangeLimits::Closed
    } else {
        rs::RangeLimits::HalfOpen
    };
    let mut expr = rs::Expr::Range(
        Box::new(rs::Expr::Lit(rs::Lit::Int(lo as i128))),
        limits,
        Box::new(rs::Expr::Lit(rs::Lit::Int(hi as i128))),
    );
    assert(expr == range_of(*c));
    if c.step != 1 || c.descending {
        expr = rs::Expr::Paren(Box::new(expr));
    }
    if c.descending {
        let no_args: Vec<rs::Expr> = Vec::new();
        expr = rs::Expr::MethodCall(Box::new(expr), rs::Method::Rev, no_args);
    }
    assert(reversed_to(*c, expr));
    if c.step != 1 {
        let args = vec![rs::Expr::Lit(rs::Lit::Int(c.step as i128))];
        assert(args@ == seq![rs::Expr::Lit(rs::Lit::Int(c.step as i128))]);
        expr = rs::Expr::MethodCall(Box::new(expr), rs::Method::StepBy, args);
    }
    expr
}

} // verus!

//! Expressions: each supported source expression becomes exactly one
//! destination expression.
use crate::error::{first_error, settles, CallShape, TranspileError};
use crate::rs;
use crate::ts;
use vstd::prelude::*;

verus! {

/// The destination operator of a unary operator; only `-` and `!` have one.
pub open spec fn unary_op_of(op: ts::UnaryOp) -> Option<rs::UnOp> {
    match op {
        ts::UnaryOp::Minus => Some(rs::UnOp::Neg),
        ts::UnaryOp::Bang => Some(rs::UnOp::Not),
        _ => None,
    }
}

/// `++` adds one in place, `--` subtracts one.
pub open spec fn update_op_of(op: ts::UpdateOp) -> rs::BinOp {
    match op {
        ts::UpdateOp::PlusPlus => rs::BinOp::AddAssign,
        ts::UpdateOp::MinusMinus => rs::BinOp::SubAssign,
    }
}

/// The destination operator of a binary operator. Loose and strict
/// (in)equality collapse to one operator; `>>>`, `in`, `instanceof`, `**` and
/// `??` have none.
pub open spec fn bin_op_of(op: ts::BinaryOp) -> Option<rs::BinOp> {
    match op {
        ts::BinaryOp::EqEq => Some(rs::BinOp::Eq),
        ts::BinaryOp::NotEq => Some(rs::BinOp::Ne),
        ts::BinaryOp::EqEqEq => Some(rs::BinOp::Eq),
        ts::BinaryOp::NotEqEq => Some(rs::BinOp::Ne),
        ts::BinaryOp::Lt => Some(rs::BinOp::Lt),
        ts::BinaryOp::LtEq => Some(rs::BinOp::Le),
        ts::BinaryOp::Gt => Some(rs::BinOp::Gt),
        ts::BinaryOp::GtEq => Some(rs::BinOp::Ge),
        ts::BinaryOp::LShift => Some(rs::BinOp::Shl),
        ts::BinaryOp::RShift => Some(rs::BinOp::Shr),
        ts::BinaryOp::Add => Some(rs::BinOp::Add),
        ts::BinaryOp::Sub => Some(rs::BinOp::Sub),
        ts::BinaryOp::Mul => Some(rs::BinOp::Mul),
        ts::BinaryOp::Div => Some(rs::BinOp::Div),
        ts::BinaryOp::Mod => Some(rs::BinOp::Rem),
        ts::BinaryOp::BitOr => Some(rs::BinOp::BitOr),
        ts::BinaryOp::BitXor => Some(rs::BinOp::BitXor),
        ts::BinaryOp::BitAnd => Some(rs::BinOp::BitAnd),
        ts::BinaryOp::LogicalOr => Some(rs::BinOp::Or),
        ts::BinaryOp::LogicalAnd => Some(rs::BinOp::And),
        _ => None,
    }
}

/// The destination operator of a compound assignment. Plain `=` is not a
/// compound assignment; `>>>=`, `**=`, `&&=`, `||=` and `??=` have none.
pub open spec fn assign_op_of(op: ts::AssignOp) -> Option<rs::BinOp> {
    match op {
        ts::AssignOp::AddAssign => Some(rs::BinOp::AddAssign),
        ts::AssignOp::SubAssign => Some(rs::BinOp::SubAssign),
        ts::AssignOp::MulAssign => Some(rs::BinOp::MulAssign),
        ts::AssignOp::DivAssign => Some(rs::BinOp::DivAssign),
        ts::AssignOp::ModAssign => Some(rs::BinOp::RemAssign),
        ts::AssignOp::LShiftAssign => Some(rs::BinOp::ShlAssign),
        ts::AssignOp::RShiftAssign => Some(rs::BinOp::ShrAssign),
        ts::AssignOp::BitOrAssign => Some(rs::BinOp::BitOrAssign),
        ts::AssignOp::BitXorAssign => Some(rs::BinOp::BitXorAssign),
        ts::AssignOp::BitAndAssign => Some(rs::BinOp::BitAndAssign),
        _ => None,
    }
}

/// A string keeps its contents, a boolean its value, and a number its decimal
/// text as a float literal.
pub open spec fn lit_of(lit: ts::Lit) -> Result<rs::Lit, TranspileError> {
    match lit {
        ts::Lit::Str(s) => Ok(rs::Lit::Str(s)),
        ts::Lit::Bool(b) => Ok(rs::Lit::Bool(b)),
        ts::Lit::Num(n) => Ok(rs::Lit::Float(n.text)),
        ts::Lit::Other(k) => Err(TranspileError::Lit(k)),
    }
}

/// The error a callee gives: only `recv.method` with both parts plain
/// identifiers is accepted.
pub open spec fn callee_error(callee: ts::Callee) -> Option<TranspileError> {
    match callee {
        ts::Callee::Super => Some(TranspileError::Call(CallShape::Super)),
        ts::Callee::Import => Some(TranspileError::Call(CallShape::Import)),
        ts::Callee::Expr(c) => match *c {
            ts::Expr::Member(m) => if *m.obj is Ident && m.prop is Ident {
                None
            } else {
                Some(TranspileError::Call(CallShape::ComplexMember))
            },
            _ => Some(TranspileError::Call(CallShape::NotMethod)),
        },
    }
}

/// The first failure in translating `e`, in evaluation order; `None` where the
/// translation succeeds.
pub open spec fn expr_error(e: ts::Expr) -> Option<TranspileError>
    decreases e,
{
    match e {
        ts::Expr::Ident(_) => None,
        ts::Expr::Lit(l) => match lit_of(l) {
            Ok(_) => None,
            Err(x) => Some(x),
        },
        ts::Expr::Paren(a) => expr_error(*a),
        ts::Expr::Unary(u) => if unary_op_of(u.op) is None {
            Some(TranspileError::UnaryOp(u.op))
        } else {
            expr_error(*u.arg)
        },
        ts::Expr::Update(u) => expr_error(*u.arg),
        ts::Expr::Bin(b) => first_error(
            expr_error(*b.left),
            if bin_op_of(b.op) is None {
                Some(TranspileError::BinaryOp(b.op))
            } else {
                expr_error(*b.right)
            },
        ),
        ts::Expr::Assign(a) => match a.left {
            ts::AssignTarget::Other(k) => Some(TranspileError::AssignTarget(k)),
            ts::AssignTarget::Ident(_) => first_error(
                expr_error(*a.right),
                if a.op is Assign || assign_op_of(a.op) is Some {
                    None
                } else {
                    Some(TranspileError::AssignOp(a.op))
                },
            ),
        },
        ts::Expr::Member(_) => Some(TranspileError::Expr(ts::ExprKind::Member)),
        ts::Expr::Call(c) => first_error(args_error(c.args@, 0), callee_error(c.callee)),
        ts::Expr::Other(k) => Some(TranspileError::Expr(k)),
    }
}

/// The first failure among the call arguments from index `i` on.
pub open spec fn args_error(args: Seq<ts::Arg>, i: int) -> Option<TranspileError>
    decreases args, args.len() - i,
{
    if 0 <= i < args.len() {
        if args[i].spread {
            Some(TranspileError::SpreadArgument)
        } else {
            first_error(expr_error(args[i].expr), args_error(args, i + 1))
        }
    } else {
        None
    }
}

/// `d` is the translation of `e`: the same shape, node for node, with the
/// operators and literals mapped as above. A path names the same identifier.
pub open spec fn expr_to(e: ts::Expr, d: rs::Expr) -> bool
    decreases e,
{
    match e {
        ts::Expr::Ident(n) => d == rs::Expr::Path(n),
        ts::Expr::Lit(l) => lit_of(l) is Ok && d == rs::Expr::Lit(lit_of(l)->Ok_0),
        ts::Expr::Paren(a) => d matches rs::Expr::Paren(x) && expr_to(*a, *x),
        ts::Expr::Unary(u) => d matches rs::Expr::Unary(o, x) && unary_op_of(u.op) == Some(o)
            && expr_to(*u.arg, *x),
        ts::Expr::Update(u) => d matches rs::Expr::Binary(x, o, y) && o == update_op_of(u.op)
            && expr_to(*u.arg, *x) && *y == rs::Expr::Lit(rs::Lit::Int(1)),
        ts::Expr::Bin(b) => d matches rs::Expr::Binary(x, o, y) && bin_op_of(b.op) == Some(o)
            && expr_to(*b.left, *x) && expr_to(*b.right, *y),
        ts::Expr::Assign(a) => a.left matches ts::AssignTarget::Ident(n) && if a.op is Assign {
            d matches rs::Expr::Assign(x, y) && *x == rs::Expr::Path(n) && expr_to(*a.right, *y)
        } else {
            d matches rs::Expr::Binary(x, o, y) && assign_op_of(a.op) == Some(o) && *x
                == rs::Expr::Path(n) && expr_to(*a.right, *y)
        },
        ts::Expr::Call(c) => c.callee matches ts::Callee::Expr(f) && *f matches ts::Expr::Member(
            m,
        ) && *m.obj matches ts::Expr::Ident(recv) && m.prop matches ts::MemberProp::Ident(name)
            && d matches rs::Expr::MethodCall(x, meth, ys) && *x == rs::Expr::Path(recv) && meth
            == rs::Method::Named(name) && args_to(c.args@, ys@, 0),
        ts::Expr::Member(_) => false,
        ts::Expr::Other(_) => false,
    }
}

/// From index `i` on, each argument is translated to the destination argument
/// at the same index.
pub open spec fn args_to(args: Seq<ts::Arg>, ys: Seq<rs::Expr>, i: int) -> bool
    decreases args, args.len() - i,
{
    &&& args.len() == ys.len()
    &&& 0 <= i <= args.len()
    &&& (i < args.len() ==> !args[i].spread && expr_to(args[i].expr, ys[i]) && args_to(
        args,
        ys,
        i + 1,
    ))
}

proof fn lemma_args_to(args: Seq<ts::Arg>, ys: Seq<rs::Expr>, i: int)
    requires
        args.len() == ys.len(),
        0 <= i <= args.len(),
        forall|j: int|
            #![trigger args[j]]
            #![trigger ys[j]]
            i <= j < args.len() ==> !args[j].spread && expr_to(args[j].expr, ys[j]),
    ensures
        args_to(args, ys, i),
    decreases args.len() - i,
{
    if i < args.len() {
        lemma_args_to(args, ys, i + 1);
    }
}

/// `r` is what translating `e` yields: its first failure, or its translation.
pub open spec fn expr_result(e: ts::Expr, r: Result<rs::Expr, TranspileError>) -> bool {
    &&& settles(r, expr_error(e))
    &&& (r is Ok ==> expr_to(e, r->Ok_0))
}

/// Translates an expression.
pub fn transpile_expr(expr: ts::Expr) -> (r: Result<rs::Expr, TranspileError>)
    ensures
        expr_result(expr, r),
    decreases expr,
{
    match expr {
        ts::Expr::Ident(name) => Ok(transpile_ident(name)),
        ts::Expr::Lit(lit) => transpile_lit(lit),
        ts::Expr::Paren(inner) => match transpile_expr(*inner) {
            Ok(x) => Ok(rs::Expr::Paren(Box::new(x))),
            Err(err) => Err(err),
        },
        ts::Expr::Unary(unary) => transpile_unary(unary),
        ts::Expr::Update(update) => transpile_update(update),
        ts::Expr::Bin(bin) => transpile_bin(bin),
        ts::Expr::Assign(assign) => transpile_assign(assign),
        ts::Expr::Member(_) => Err(TranspileError::Expr(ts::ExprKind::Member)),
        ts::Expr::Call(call) => transpile_call(call),
        ts::Expr::Other(kind) => Err(TranspileError::Expr(kind)),
    }
}

/// `-x` and `!x`.
pub fn transpile_unary(unary: ts::UnaryExpr) -> (r: Result<rs::Expr, TranspileError>)
    ensures
        expr_result(ts::Expr::Unary(unary), r),
    decreases unary,
{
    let op = match transpile_unary_op(unary.op) {
        Ok(op) => op,
        Err(err) => return Err(err),
    };
    match transpile_expr(*unary.arg) {
        Ok(x) => Ok(rs::Expr::Unary(op, Box::new(x))),
        Err(err) => Err(err),
    }
}

pub fn transpile_unary_op(op: ts::UnaryOp) -> (r: Result<rs::UnOp, TranspileError>)
    ensures
        r == match unary_op_of(op) {
            Some(o) => Ok(o),
            None => Err(TranspileError::UnaryOp(op)),
        },
{
    match op {
        ts::UnaryOp::Minus => Ok(rs::UnOp::Neg),
        ts::UnaryOp::Bang => Ok(rs::UnOp::Not),
        _ => Err(TranspileError::UnaryOp(op)),
    }
}

/// `x++` becomes `x += 1`, `x--` becomes `x -= 1`.
pub fn transpile_update(update: ts::UpdateExpr) -> (r: Result<rs::Expr, TranspileError>)
    ensures
        expr_result(ts::Expr::Update(update), r),
    decreases update,
{
    let op = transpile_update_op(update.op);
    match transpile_expr(*update.arg) {
        Ok(x) => Ok(rs::Expr::Binary(Box::new(x), op, Box::new(rs::Expr::Lit(rs::Lit::Int(1))))),
        Err(err) => Err(err),
    }
}

pub fn transpile_update_op(op: ts::UpdateOp) -> (r: rs::BinOp)
    ensures
        r == update_op_of(op),
{
    match op {
        ts::UpdateOp::PlusPlus => rs::BinOp::AddAssign,
        ts::UpdateOp::MinusMinus => rs::BinOp::SubAssign,
    }
}

pub fn transpile_bin(bin: ts::BinExpr) -> (r: Result<rs::Expr, TranspileError>)
    ensures
        expr_result(ts::Expr::Bin(bin), r),
    decreases bin,
{
    let left = match transpile_expr(*bin.left) {
        Ok(x) => x,
        Err(err) => return Err(err),
    };
    let op = match transpile_bin_op(bin.op) {
        Ok(op) => op,
        Err(err) => return Err(err),
    };
    match transpile_expr(*bin.right) {
        Ok(right) => Ok(rs::Expr::Binary(Box::new(left), op, Box::new(right))),
        Err(err) => Err(err),
    }
}

pub fn transpile_bin_op(op: ts::BinaryOp) -> (r: Result<rs::BinOp, TranspileError>)
    ensures
        r == match bin_op_of(op) {
            Some(o) => Ok(o),
            None => Err(TranspileError::BinaryOp(op)),
        },
{
    match op {
        ts::BinaryOp::EqEq => Ok(rs::BinOp::Eq),
        ts::BinaryOp::NotEq => Ok(rs::BinOp::Ne),
        ts::BinaryOp::EqEqEq => Ok(rs::BinOp::Eq),
        ts::BinaryOp::NotEqEq => Ok(rs::BinOp::Ne),
        ts::BinaryOp::Lt => Ok(rs::BinOp::Lt),
        ts::BinaryOp::LtEq => Ok(rs::BinOp::Le),
        ts::BinaryOp::Gt => Ok(rs::BinOp::Gt),
        ts::BinaryOp::GtEq => Ok(rs::BinOp::Ge),
        ts::BinaryOp::LShift => Ok(rs::BinOp::Shl),
        ts::BinaryOp::RShift => Ok(rs::BinOp::Shr),
        ts::BinaryOp::Add => Ok(rs::BinOp::Add),
        ts::BinaryOp::Sub => Ok(rs::BinOp::Sub),
        ts::BinaryOp::Mul => Ok(rs::BinOp::Mul),
        ts::BinaryOp::Div => Ok(rs::BinOp::Div),
        ts::BinaryOp::Mod => Ok(rs::BinOp::Rem),
        ts::BinaryOp::BitOr => Ok(rs::BinOp::BitOr),
        ts::BinaryOp::BitXor => Ok(rs::BinOp::BitXor),
        ts::BinaryOp::BitAnd => Ok(rs::BinOp::BitAnd),
        ts::BinaryOp::LogicalOr => Ok(rs::BinOp::Or),
        ts::BinaryOp::LogicalAnd => Ok(rs::BinOp::And),
        _ => Err(TranspileError::BinaryOp(op)),
    }
}

/// `x = v` and the compound forms `x += v`, ...; the target must be a plain
/// identifier.
pub fn transpile_assign(assign: ts::AssignExpr) -> (r: Result<rs::Expr, TranspileError>)
    ensures
        expr_result(ts::Expr::Assign(assign), r),
    decreases assign,
{
    let left = match assign.left {
        ts::AssignTarget::Ident(name) => rs::Expr::Path(name),
        ts::AssignTarget::Other(kind) => return Err(TranspileError::AssignTarget(kind)),
    };
    let right = match transpile_expr(*assign.right) {
        Ok(x) => x,
        Err(err) => return Err(err),
    };
    match assign.op {
        ts::AssignOp::Assign => Ok(rs::Expr::Assign(Box::new(left), Box::new(right))),
        _ => match transpile_assign_op(assign.op) {
            Ok(op) => Ok(rs::Expr::Binary(Box::new(left), op, Box::new(right))),
            Err(err) => Err(err),
        },
    }
}

/// The operator of a compound assignment; plain `=` has none.
pub fn transpile_assign_op(op: ts::AssignOp) -> (r: Result<rs::BinOp, TranspileError>)
    requires
        !(op is Assign),
    ensures
        r == match assign_op_of(op) {
            Some(o) => Ok(o),
            None => Err(TranspileError::AssignOp(op)),
        },
{
    match op {
        ts::AssignOp::AddAssign => Ok(rs::BinOp::AddAssign),
        ts::AssignOp::SubAssign => Ok(rs::BinOp::SubAssign),
        ts::AssignOp::MulAssign => Ok(rs::BinOp::MulAssign),
        ts::AssignOp::DivAssign => Ok(rs::BinOp::DivAssign),
        ts::AssignOp::ModAssign => Ok(rs::BinOp::RemAssign),
        ts::AssignOp::LShiftAssign => Ok(rs::BinOp::ShlAssign),
        ts::AssignOp::RShiftAssign => Ok(rs::BinOp::ShrAssign),
        ts::AssignOp::BitOrAssign => Ok(rs::BinOp::BitOrAssign),
        ts::AssignOp::BitXorAssign => Ok(rs::BinOp::BitXorAssign),
        ts::AssignOp::BitAndAssign => Ok(rs::BinOp::BitAndAssign),
        _ => Err(TranspileError::AssignOp(op)),
    }
}

/// `recv.method(args)` becomes a method call on the same receiver. The
/// arguments are translated first, in order.
pub fn transpile_call(call: ts::CallExpr) -> (r: Result<rs::Expr, TranspileError>)
    ensures
        expr_result(ts::Expr::Call(call), r),
    decreases call,
{
    let ghost g = call;
    let ts::CallExpr { callee, args } = call;
    let n = args.len();
    let mut rest = args;
    let mut out: Vec<rs::Expr> = Vec::new();
    let mut i: usize = 0;
    while i < n
        invariant
            g == call,
            g == (ts::CallExpr { callee, args: g.args }),
            n == g.args@.len(),
            0 <= i <= n,
            rest@ == g.args@.subrange(i as int, n as int),
            out@.len() == i,
            args_error(g.args@, 0) == args_error(g.args@, i as int),
            forall|j: int|
                #![trigger g.args@[j]]
                #![trigger out@[j]]
                0 <= j < i ==> !g.args@[j].spread && expr_to(g.args@[j].expr, out@[j]),
        decreases n - i,
    {
        let arg = rest.remove(0);
        if arg.spread {
            assert(args_error(g.args@, i as int) == Some(TranspileError::SpreadArgument));
            return Err(TranspileError::SpreadArgument);
        }
        proof {
            assert(decreases_to!(g => arg.expr));
        }
        match transpile_expr(arg.expr) {
            Ok(x) => out.push(x),
            Err(err) => {
                assert(args_error(g.args@, i as int) == Some(err));
                return Err(err);
            },
        }
        i += 1;
    }
    proof {
        lemma_args_to(g.args@, out@, 0);
    }
    match callee {
        ts::Callee::Super => Err(TranspileError::Call(CallShape::Super)),
        ts::Callee::Import => Err(TranspileError::Call(CallShape::Import)),
        ts::Callee::Expr(f) => match *f {
            ts::Expr::Member(member) => match (*member.obj, member.prop) {
                (ts::Expr::Ident(recv), ts::MemberProp::Ident(name)) => Ok(
                    rs::Expr::MethodCall(
                        Box::new(rs::Expr::Path(recv)),
                        rs::Method::Named(name),
                        out,
                    ),
                ),
                _ => Err(TranspileError::Call(CallShape::ComplexMember)),
            },
            _ => Err(TranspileError::Call(CallShape::NotMethod)),
        },
    }
}

pub fn transpile_ident(name: String) -> (r: rs::Expr)
    ensures
        r == rs::Expr::Path(name),
{
    rs::Expr::Path(name)
}

pub fn transpile_lit(lit: ts::Lit) -> (r: Result<rs::Expr, TranspileError>)
    ensures
        r == match lit_of(lit) {
            Ok(l) => Ok(rs::Expr::Lit(l)),
            Err(x) => Err(x),
        },
{
    match lit {
        ts::Lit::Str(s) => Ok(rs::Expr::Lit(rs::Lit::Str(s))),
        ts::Lit::Bool(b) => Ok(rs::Expr::Lit(rs::Lit::Bool(b))),
        ts::Lit::Num(n) => Ok(rs::Expr::Lit(rs::Lit::Float(n.text))),
        ts::Lit::Other(kind) => Err(TranspileError::Lit(kind)),
    }
}

} // verus!

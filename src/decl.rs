//! Declarations: each variable declarator becomes a `let` binding.
use crate::error::{first_error, settles, TranspileError};
use crate::expr::{expr_error, expr_to, transpile_expr};
use crate::rs;
use crate::ts;
use vstd::prelude::*;

verus! {

/// `var` and `let` bind mutably, `const` immutably.
pub open spec fn is_mutable_kind(kind: ts::VarKind) -> bool {
    !(kind is Const)
}

/// The failure of a declarator: a missing initializer comes first, then a
/// binding pattern other than an identifier, then the initializer's own.
pub open spec fn declarator_error(d: ts::VarDeclarator) -> Option<TranspileError> {
    match d.init {
        None => Some(TranspileError::MissingInitializer),
        Some(init) => match d.name {
            ts::Pat::Other(k) => Some(TranspileError::Pattern(k)),
            ts::Pat::Ident(_) => expr_error(init),
        },
    }
}

/// `b` is the binding that declarator `d` of a declaration of kind `kind`
/// becomes.
pub open spec fn declarator_to(kind: ts::VarKind, d: ts::VarDeclarator, b: rs::Expr) -> bool {
    &&& d.name matches ts::Pat::Ident(n)
    &&& d.init matches Some(init)
    &&& b matches rs::Expr::Let { mutable, name, init: x }
    &&& mutable == is_mutable_kind(kind)
    &&& name == n
    &&& expr_to(init, *x)
}

/// The first failure among declarators from index `i` on.
pub open spec fn declarators_error(ds: Seq<ts::VarDeclarator>, i: int) -> Option<TranspileError>
    decreases ds.len() - i,
{
    if 0 <= i < ds.len() {
        first_error(declarator_error(ds[i]), declarators_error(ds, i + 1))
    } else {
        None
    }
}

pub open spec fn var_error(v: ts::VarDecl) -> Option<TranspileError> {
    if v.declare {
        Some(TranspileError::AmbientVar)
    } else {
        declarators_error(v.decls@, 0)
    }
}

/// `bs` holds one binding per declarator of `v`, in order.
pub open spec fn var_to(v: ts::VarDecl, bs: Seq<rs::Expr>) -> bool {
    &&& bs.len() == v.decls@.len()
    &&& forall|i: int| 0 <= i < bs.len() ==> declarator_to(v.kind, v.decls@[i], #[trigger] bs[i])
}

pub open spec fn decl_error(d: ts::Decl) -> Option<TranspileError> {
    match d {
        ts::Decl::Var(v) => var_error(v),
        ts::Decl::Other(k) => Some(TranspileError::Decl(k)),
    }
}

/// A variable declaration yields its bindings, each as an expression.
pub open spec fn decl_to(d: ts::Decl, out: Seq<rs::ExprOrStmt>) -> bool {
    &&& d matches ts::Decl::Var(v)
    &&& out.len() == v.decls@.len()
    &&& forall|i: int|
        0 <= i < out.len() ==> (#[trigger] out[i] matches rs::ExprOrStmt::Expr(b) && declarator_to(
            v.kind,
            v.decls@[i],
            b,
        ))
}

/// Translates a declaration. Only variable declarations are supported.
pub fn transpile_decl(decl: ts::Decl) -> (r: Result<Vec<rs::ExprOrStmt>, TranspileError>)
    ensures
        settles(r, decl_error(decl)),
        r is Ok ==> decl_to(decl, r->Ok_0@),
{
    match decl {
        ts::Decl::Var(var) => {
            let ghost v = var;
            let bindings = match transpile_var(var) {
                Ok(bs) => bs,
                Err(err) => return Err(err),
            };
            let n = bindings.len();
            let mut rest = bindings;
            let mut out: Vec<rs::ExprOrStmt> = Vec::new();
            let ghost bs = rest@;
            let mut i: usize = 0;
            while i < n
                invariant
                    n == bs.len(),
                    var_to(v, bs),
                    0 <= i <= n,
                    rest@ == bs.subrange(i as int, n as int),
                    out@.len() == i,
                    forall|j: int| 0 <= j < i ==> #[trigger] out@[j] == rs::ExprOrStmt::Expr(bs[j]),
                decreases n - i,
            {
                let b = rest.remove(0);
                out.push(rs::ExprOrStmt::Expr(b));
                i += 1;
            }
            assert(forall|j: int| 0 <= j < n ==> #[trigger] out@[j] == rs::ExprOrStmt::Expr(bs[j]));
            Ok(out)
        },
        ts::Decl::Other(kind) => Err(TranspileError::Decl(kind)),
    }
}

/// Translates a variable declaration into one binding per declarator. An
/// ambient declaration (`declare`) is refused.
pub fn transpile_var(var: ts::VarDecl) -> (r: Result<Vec<rs::Expr>, TranspileError>)
    ensures
        settles(r, var_error(var)),
        r is Ok ==> var_to(var, r->Ok_0@),
{
    if var.declare {
        return Err(TranspileError::AmbientVar);
    }
    let ghost v = var;
    let kind = var.kind;
    let n = var.decls.len();
    let mut rest = var.decls;
    let mut out: Vec<rs::Expr> = Vec::new();
    let mut i: usize = 0;
    while i < n
        invariant
            v == var,
            n == v.decls@.len(),
            kind == v.kind,
            !v.declare,
            0 <= i <= n,
            rest@ == v.decls@.subrange(i as int, n as int),
            out@.len() == i,
            declarators_error(v.decls@, 0) == declarators_error(v.decls@, i as int),
            forall|j: int| 0 <= j < i ==> declarator_to(kind, v.decls@[j], #[trigger] out@[j]),
        decreases n - i,
    {
        let d = rest.remove(0);
        assert(d == v.decls@[i as int]);
        match transpile_var_declarator(kind, d) {
            Ok(b) => out.push(b),
            Err(err) => {
                assert(declarators_error(v.decls@, i as int) == Some(err));
                return Err(err);
            },
        }
        i += 1;
    }
    Ok(out)
}

/// Translates one declarator of a declaration of kind `kind` into a binding.
pub fn transpile_var_declarator(kind: ts::VarKind, declarator: ts::VarDeclarator) -> (r: Result<
    rs::Expr,
    TranspileError,
>)
    ensures
        settles(r, declarator_error(declarator)),
        r is Ok ==> declarator_to(kind, declarator, r->Ok_0),
{
    let init = match declarator.init {
        Some(init) => init,
        None => return Err(TranspileError::MissingInitializer),
    };
    let name = match declarator.name {
        ts::Pat::Ident(name) => name,
        ts::Pat::Other(k) => return Err(TranspileError::Pattern(k)),
    };
    let mutable = match kind {
        ts::VarKind::Var => true,
        ts::VarKind::Let => true,
        ts::VarKind::Const => false,
    };
    match transpile_expr(init) {
        Ok(x) => Ok(rs::Expr::Let { mutable, name, init: Box::new(x) }),
        Err(err) => Err(err),
    }
}

} // verus!

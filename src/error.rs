//! Why a translation failed.
use crate::ts::{AssignOp, BinaryOp, DeclKind, ExprKind, LitKind, PatKind, StmtKind, TargetKind, UnaryOp};
use vstd::prelude::*;

verus! {

/// A call shape other than `recv.method(args)` with plain identifiers.
#[derive(Clone, Copy, Debug, PartialEq, Eq)]
pub enum CallShape {
    Super,
    Import,
    NotMethod,
    ComplexMember,
}

/// The shape an `else` arm reduced to, where it had to be one expression.
#[derive(Clone, Copy, Debug, PartialEq, Eq)]
pub enum ArmShape {
    Nothing,
    Several,
    Statement,
}

/// The first construct that stopped a translation. The whole input fails on
/// it; nothing is produced.
#[derive(Clone, Debug, PartialEq, Eq)]
pub enum TranspileError {
    Expr(ExprKind),
    Lit(LitKind),
    UnaryOp(UnaryOp),
    BinaryOp(BinaryOp),
    AssignOp(AssignOp),
    AssignTarget(TargetKind),
    SpreadArgument,
    Call(CallShape),
    Stmt(StmtKind),
    LabeledBreak,
    LabeledContinue,
    Decl(DeclKind),
    AmbientVar,
    Pattern(PatKind),
    MissingInitializer,
    ElseArm(ArmShape),
    ModuleDecl,
}

/// The first of two possible failures, in evaluation order.
pub open spec fn first_error(a: Option<TranspileError>, b: Option<TranspileError>) -> Option<
    TranspileError,
> {
    if a is Some {
        a
    } else {
        b
    }
}

/// `r` is the outcome that the failure `err` (or its absence) calls for.
pub open spec fn settles<T>(r: Result<T, TranspileError>, err: Option<TranspileError>) -> bool {
    match r {
        Ok(_) => err is None,
        Err(x) => err == Some(x),
    }
}

} // verus!

//! The destination tree: the systems-language program that the transpiler
//! builds, ready for a printer. Control flow forms are expressions; a `let`
//! binding carries an explicit mutability flag.
use vstd::prelude::*;

verus! {

#[derive(Clone, Copy, Debug, PartialEq, Eq)]
pub enum UnOp {
    Neg,
    Not,
}

#[derive(Clone, Copy, Debug, PartialEq, Eq)]
pub enum BinOp {
    Add,
    Sub,
    Mul,
    Div,
    Rem,
    And,
    Or,
    BitXor,
    BitAnd,
    BitOr,
    Shl,
    Shr,
    Eq,
    Lt,
    Le,
    Ne,
    Ge,
    Gt,
    AddAssign,
    SubAssign,
    MulAssign,
    DivAssign,
    RemAssign,
    BitXorAssign,
    BitAndAssign,
    BitOrAssign,
    ShlAssign,
    ShrAssign,
}

/// A literal. A float literal keeps the source text of the number.
#[derive(Debug, PartialEq, Eq)]
pub enum Lit {
    Str(String),
    Bool(bool),
    Int(i128),
    Float(String),
}

/// `a..b` or `a..=b`.
#[derive(Clone, Copy, Debug, PartialEq, Eq)]
pub enum RangeLimits {
    HalfOpen,
    Closed,
}

/// The method of a method call: a name taken from the source, or one of the
/// two iterator adaptors that counting loops use (`rev` and `step_by`).
#[derive(Debug, PartialEq, Eq)]
pub enum Method {
    Named(String),
    Rev,
    StepBy,
}

#[derive(Debug, PartialEq, Eq)]
pub struct Block {
    pub stmts: Vec<Stmt>,
}

#[derive(Debug, PartialEq, Eq)]
pub enum Expr {
    Lit(Lit),
    Path(String),
    Paren(Box<Expr>),
    Unary(UnOp, Box<Expr>),
    Binary(Box<Expr>, BinOp, Box<Expr>),
    Assign(Box<Expr>, Box<Expr>),
    MethodCall(Box<Expr>, Method, Vec<Expr>),
    Let { mutable: bool, name: String, init: Box<Expr> },
    Block(Block),
    If(Box<Expr>, Block, Option<Box<Expr>>),
    While(Box<Expr>, Block),
    Loop(Block),
    ForLoop(String, Box<Expr>, Block),
    Range(Box<Expr>, RangeLimits, Box<Expr>),
    Return(Option<Box<Expr>>),
    Break,
    Continue,
}

/// A statement: an expression followed by `;`, an expression without one, or
/// an item.
#[derive(Debug, PartialEq, Eq)]
pub enum Stmt {
    Semi(Expr),
    Expr(Expr),
    Item(Item),
}

/// An item: the glob import of the runtime shim, or the synthesized entry
/// point `fn main`, whose body is the block.
#[derive(Debug, PartialEq, Eq)]
pub enum Item {
    ShimImport,
    EntryPoint(Block),
}

#[derive(Debug, PartialEq, Eq)]
pub struct File {
    pub items: Vec<Item>,
}

/// What a source statement becomes: a value-producing expression or a
/// statement.
#[derive(Debug, PartialEq, Eq)]
pub enum ExprOrStmt {
    Expr(Expr),
    Stmt(Stmt),
}

/// What a top-level source item becomes: an item or a statement of the entry
/// point.
#[derive(Debug, PartialEq, Eq)]
pub enum ItemOrStmt {
    Item(Item),
    Stmt(Stmt),
}

} // verus!

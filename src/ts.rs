//! The source tree: the scripting-language program as the front end hands it
//! over. Node kinds that the transpiler reads carry their fields; every other
//! kind is present by its name alone, so that it can be rejected by name.
use vstd::prelude::*;

verus! {

#[derive(Clone, Copy, Debug, PartialEq, Eq)]
pub enum UnaryOp {
    Minus,
    Plus,
    Bang,
    Tilde,
    TypeOf,
    Void,
    Delete,
}

#[derive(Clone, Copy, Debug, PartialEq, Eq)]
pub enum UpdateOp {
    PlusPlus,
    MinusMinus,
}

#[derive(Clone, Copy, Debug, PartialEq, Eq)]
pub enum BinaryOp {
    EqEq,
    NotEq,
    EqEqEq,
    NotEqEq,
    Lt,
    LtEq,
    Gt,
    GtEq,
    LShift,
    RShift,
    ZeroFillRShift,
    Add,
    Sub,
    Mul,
    Div,
    Mod,
    BitOr,
    BitXor,
    BitAnd,
    LogicalOr,
    LogicalAnd,
    In,
    InstanceOf,
    Exp,
    NullishCoalescing,
}

#[derive(Clone, Copy, Debug, PartialEq, Eq)]
pub enum AssignOp {
    Assign,
    AddAssign,
    SubAssign,
    MulAssign,
    DivAssign,
    ModAssign,
    LShiftAssign,
    RShiftAssign,
    ZeroFillRShiftAssign,
    BitOrAssign,
    BitXorAssign,
    BitAndAssign,
    ExpAssign,
    AndAssign,
    OrAssign,
    NullishAssign,
}

/// The three declaration kinds: `var`, `let` and `const`.
#[derive(Clone, Copy, Debug, PartialEq, Eq)]
pub enum VarKind {
    Var,
    Let,
    Const,
}

/// Expression kinds that the transpiler does not translate.
#[derive(Clone, Copy, Debug, PartialEq, Eq)]
pub enum ExprKind {
    This,
    Array,
    Object,
    Function,
    Member,
    SuperProp,
    Cond,
    New,
    Sequence,
    Tpl,
    TaggedTpl,
    Arrow,
    Class,
    Yield,
    MetaProp,
    Await,
    JsxMember,
    JsxNamespacedName,
    JsxEmpty,
    JsxElement,
    JsxFragment,
    TsTypeAssertion,
    TsConstAssertion,
    TsNonNull,
    TsAs,
    TsInstantiation,
    TsSatisfies,
    PrivateName,
    OptChain,
    Invalid,
}

/// Literal kinds that the transpiler does not translate.
#[derive(Clone, Copy, Debug, PartialEq, Eq)]
pub enum LitKind {
    Null,
    BigInt,
    Regex,
    JsxText,
}

/// Assignment targets other than a plain identifier.
#[derive(Clone, Copy, Debug, PartialEq, Eq)]
pub enum TargetKind {
    Member,
    SuperProp,
    Paren,
    OptChain,
    TsAs,
    TsSatisfies,
    TsNonNull,
    TsTypeAssertion,
    TsInstantiation,
    Invalid,
    ArrayPattern,
    ObjectPattern,
    InvalidPattern,
}

/// Binding patterns other than a plain identifier.
#[derive(Clone, Copy, Debug, PartialEq, Eq)]
pub enum PatKind {
    Array,
    Rest,
    Object,
    Assign,
    Invalid,
    Expr,
}

/// Statement kinds that the transpiler does not translate.
#[derive(Clone, Copy, Debug, PartialEq, Eq)]
pub enum StmtKind {
    Empty,
    Debugger,
    With,
    Labeled,
    Switch,
    Throw,
    Try,
    ForIn,
    ForOf,
}

/// Declaration kinds other than a variable declaration.
#[derive(Clone, Copy, Debug, PartialEq, Eq)]
pub enum DeclKind {
    Class,
    Function,
    Using,
    TsInterface,
    TsTypeAlias,
    TsEnum,
    TsModule,
}

/// A numeric literal: its decimal text, and its value where that value is a
/// whole number that fits in an `i64`.
#[derive(Debug, PartialEq, Eq)]
pub struct NumLit {
    pub text: String,
    pub integer: Option<i64>,
}

#[derive(Debug, PartialEq, Eq)]
pub enum Lit {
    Str(String),
    Bool(bool),
    Num(NumLit),
    Other(LitKind),
}

#[derive(Debug, PartialEq, Eq)]
pub enum MemberProp {
    Ident(String),
    PrivateName,
    Computed,
}

#[derive(Debug, PartialEq, Eq)]
pub struct UnaryExpr {
    pub op: UnaryOp,
    pub arg: Box<Expr>,
}

/// `x++`, `--x` and the like; prefix and postfix forms are not told apart.
#[derive(Debug, PartialEq, Eq)]
pub struct UpdateExpr {
    pub op: UpdateOp,
    pub arg: Box<Expr>,
}

#[derive(Debug, PartialEq, Eq)]
pub struct BinExpr {
    pub op: BinaryOp,
    pub left: Box<Expr>,
    pub right: Box<Expr>,
}

#[derive(Debug, PartialEq, Eq)]
pub enum AssignTarget {
    Ident(String),
    Other(TargetKind),
}

#[derive(Debug, PartialEq, Eq)]
pub struct AssignExpr {
    pub op: AssignOp,
    pub left: AssignTarget,
    pub right: Box<Expr>,
}

#[derive(Debug, PartialEq, Eq)]
pub struct MemberExpr {
    pub obj: Box<Expr>,
    pub prop: MemberProp,
}

#[derive(Debug, PartialEq, Eq)]
pub enum Callee {
    Super,
    Import,
    Expr(Box<Expr>),
}

/// A call argument, possibly spread (`...xs`).
#[derive(Debug, PartialEq, Eq)]
pub struct Arg {
    pub spread: bool,
    pub expr: Expr,
}

#[derive(Debug, PartialEq, Eq)]
pub struct CallExpr {
    pub callee: Callee,
    pub args: Vec<Arg>,
}

#[derive(Debug, PartialEq, Eq)]
pub enum Expr {
    Ident(String),
    Lit(Lit),
    Paren(Box<Expr>),
    Unary(UnaryExpr),
    Update(UpdateExpr),
    Bin(BinExpr),
    Assign(AssignExpr),
    Member(MemberExpr),
    Call(CallExpr),
    Other(ExprKind),
}

#[derive(Debug, PartialEq, Eq)]
pub enum Pat {
    Ident(String),
    Other(PatKind),
}

#[derive(Debug, PartialEq, Eq)]
pub struct VarDeclarator {
    pub name: Pat,
    pub init: Option<Expr>,
}

/// A variable declaration; `declare` marks an ambient one (`declare let x;`).
#[derive(Debug, PartialEq, Eq)]
pub struct VarDecl {
    pub kind: VarKind,
    pub declare: bool,
    pub decls: Vec<VarDeclarator>,
}

#[derive(Debug, PartialEq, Eq)]
pub enum Decl {
    Var(VarDecl),
    Other(DeclKind),
}

#[derive(Debug, PartialEq, Eq)]
pub struct BlockStmt {
    pub stmts: Vec<Stmt>,
}

#[derive(Debug, PartialEq, Eq)]
pub struct ReturnStmt {
    pub arg: Option<Expr>,
}

#[derive(Debug, PartialEq, Eq)]
pub struct BreakStmt {
    pub label: Option<String>,
}

#[derive(Debug, PartialEq, Eq)]
pub struct ContinueStmt {
    pub label: Option<String>,
}

#[derive(Debug, PartialEq, Eq)]
pub struct IfStmt {
    pub test: Expr,
    pub cons: Box<Stmt>,
    pub alt: Option<Box<Stmt>>,
}

#[derive(Debug, PartialEq, Eq)]
pub struct WhileStmt {
    pub test: Expr,
    pub body: Box<Stmt>,
}

#[derive(Debug, PartialEq, Eq)]
pub struct DoWhileStmt {
    pub body: Box<Stmt>,
    pub test: Expr,
}

#[derive(Debug, PartialEq, Eq)]
pub enum ForInit {
    Var(VarDecl),
    Expr(Expr),
}

#[derive(Debug, PartialEq, Eq)]
pub struct ForStmt {
    pub init: Option<ForInit>,
    pub test: Option<Expr>,
    pub update: Option<Expr>,
    pub body: Box<Stmt>,
}

#[derive(Debug, PartialEq, Eq)]
pub enum Stmt {
    Block(BlockStmt),
    Return(ReturnStmt),
    Break(BreakStmt),
    Continue(ContinueStmt),
    If(IfStmt),
    While(WhileStmt),
    DoWhile(DoWhileStmt),
    For(ForStmt),
    Decl(Decl),
    Expr(Expr),
    Other(StmtKind),
}

/// A top-level item: a statement, or a module declaration (`import`,
/// `export`, an ambient module), which is not translated.
#[derive(Debug, PartialEq, Eq)]
pub enum ModuleItem {
    Stmt(Stmt),
    ModuleDecl,
}

#[derive(Debug, PartialEq, Eq)]
pub struct Module {
    pub body: Vec<ModuleItem>,
}

} // verus!

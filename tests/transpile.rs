use typescript_transpiler::console::Console;
use typescript_transpiler::counting::{counting_loop, counting_range, CountingLoop};
use typescript_transpiler::decl::{transpile_decl, transpile_var, transpile_var_declarator};
use typescript_transpiler::error::{ArmShape, CallShape, TranspileError};
use typescript_transpiler::file::{transpile_file, FileError};
use typescript_transpiler::expr::{
    transpile_assign_op, transpile_bin_op, transpile_expr, transpile_lit, transpile_unary_op,
    transpile_update_op,
};
use typescript_transpiler::module::{transpile_module, transpile_module_item};
use typescript_transpiler::rs;
use typescript_transpiler::stmt::{
    transpile_block, transpile_do_while, transpile_for, transpile_if, transpile_stmt,
    transpile_stmt_to_block, transpile_stmt_to_expr, transpile_stmt_to_stmts,
};
use typescript_transpiler::ts;

fn ident(name: &str) -> ts::Expr {
    ts::Expr::Ident(name.to_string())
}

fn num(v: i64) -> ts::Expr {
    ts::Expr::Lit(ts::Lit::Num(ts::NumLit { text: v.to_string(), integer: Some(v) }))
}

fn float(text: &str) -> ts::Expr {
    ts::Expr::Lit(ts::Lit::Num(ts::NumLit { text: text.to_string(), integer: None }))
}

fn string(s: &str) -> ts::Expr {
    ts::Expr::Lit(ts::Lit::Str(s.to_string()))
}

fn boolean(b: bool) -> ts::Expr {
    ts::Expr::Lit(ts::Lit::Bool(b))
}

fn bin(op: ts::BinaryOp, left: ts::Expr, right: ts::Expr) -> ts::Expr {
    ts::Expr::Bin(ts::BinExpr { op, left: Box::new(left), right: Box::new(right) })
}

fn assign(op: ts::AssignOp, name: &str, right: ts::Expr) -> ts::Expr {
    ts::Expr::Assign(ts::AssignExpr {
        op,
        left: ts::AssignTarget::Ident(name.to_string()),
        right: Box::new(right),
    })
}

fn update(op: ts::UpdateOp, name: &str) -> ts::Expr {
    ts::Expr::Update(ts::UpdateExpr { op, arg: Box::new(ident(name)) })
}

fn method_call(recv: &str, method: &str, args: Vec<ts::Expr>) -> ts::Expr {
    ts::Expr::Call(ts::CallExpr {
        callee: ts::Callee::Expr(Box::new(ts::Expr::Member(ts::MemberExpr {
            obj: Box::new(ident(recv)),
            prop: ts::MemberProp::Ident(method.to_string()),
        }))),
        args: args.into_iter().map(|expr| ts::Arg { spread: false, expr }).collect(),
    })
}

fn log(arg: ts::Expr) -> ts::Stmt {
    ts::Stmt::Expr(method_call("console", "log", vec![arg]))
}

fn var_decl(kind: ts::VarKind, names: Vec<(&str, ts::Expr)>) -> ts::VarDecl {
    ts::VarDecl {
        kind,
        declare: false,
        decls: names
            .into_iter()
            .map(|(n, e)| ts::VarDeclarator { name: ts::Pat::Ident(n.to_string()), init: Some(e) })
            .collect(),
    }
}

fn let_stmt(name: &str, init: ts::Expr) -> ts::Stmt {
    ts::Stmt::Decl(ts::Decl::Var(var_decl(ts::VarKind::Let, vec![(name, init)])))
}

fn block(stmts: Vec<ts::Stmt>) -> ts::Stmt {
    ts::Stmt::Block(ts::BlockStmt { stmts })
}

fn counting_for(
    start: i64,
    op: ts::BinaryOp,
    bound: i64,
    step: ts::Expr,
    body: Vec<ts::Stmt>,
) -> ts::ForStmt {
    ts::ForStmt {
        init: Some(ts::ForInit::Var(var_decl(ts::VarKind::Let, vec![("i", num(start))]))),
        test: Some(bin(op, ident("i"), num(bound))),
        update: Some(step),
        body: Box::new(block(body)),
    }
}

fn path(name: &str) -> rs::Expr {
    rs::Expr::Path(name.to_string())
}

fn int_lit(v: i128) -> rs::Expr {
    rs::Expr::Lit(rs::Lit::Int(v))
}

fn float_lit(text: &str) -> rs::Expr {
    rs::Expr::Lit(rs::Lit::Float(text.to_string()))
}

fn rs_log(arg: rs::Expr) -> rs::Stmt {
    rs::Stmt::Semi(rs::Expr::MethodCall(
        Box::new(path("console")),
        rs::Method::Named("log".to_string()),
        vec![arg],
    ))
}

fn range(lo: i128, hi: i128, limits: rs::RangeLimits) -> rs::Expr {
    rs::Expr::Range(Box::new(int_lit(lo)), limits, Box::new(int_lit(hi)))
}

fn paren(e: rs::Expr) -> rs::Expr {
    rs::Expr::Paren(Box::new(e))
}

fn rev(e: rs::Expr) -> rs::Expr {
    rs::Expr::MethodCall(Box::new(e), rs::Method::Rev, vec![])
}

fn step_by(e: rs::Expr, s: i128) -> rs::Expr {
    rs::Expr::MethodCall(Box::new(e), rs::Method::StepBy, vec![int_lit(s)])
}

fn for_loop(iter: rs::Expr, body: Vec<rs::Stmt>) -> rs::Stmt {
    rs::Stmt::Semi(rs::Expr::ForLoop("i".to_string(), Box::new(iter), rs::Block { stmts: body }))
}

#[test]
fn string_literal_round_trip() {
    assert_eq!(
        transpile_expr(string("hello \"world\"")),
        Ok(rs::Expr::Lit(rs::Lit::Str("hello \"world\"".to_string())))
    );
}

#[test]
fn boolean_literal_round_trip() {
    assert_eq!(transpile_expr(boolean(true)), Ok(rs::Expr::Lit(rs::Lit::Bool(true))));
    assert_eq!(transpile_expr(boolean(false)), Ok(rs::Expr::Lit(rs::Lit::Bool(false))));
}

#[test]
fn number_literal_keeps_its_text_as_float() {
    assert_eq!(transpile_expr(float("2.5")), Ok(float_lit("2.5")));
    assert_eq!(transpile_expr(num(7)), Ok(float_lit("7")));
}

#[test]
fn unsupported_literals_fail() {
    for kind in [ts::LitKind::Null, ts::LitKind::BigInt, ts::LitKind::Regex, ts::LitKind::JsxText] {
        assert_eq!(transpile_lit(ts::Lit::Other(kind)), Err(TranspileError::Lit(kind)));
    }
}

#[test]
fn identifier_becomes_path() {
    assert_eq!(transpile_expr(ident("abc")), Ok(path("abc")));
}

#[test]
fn binary_operator_table() {
    let table = [
        (ts::BinaryOp::EqEq, rs::BinOp::Eq),
        (ts::BinaryOp::NotEq, rs::BinOp::Ne),
        (ts::BinaryOp::EqEqEq, rs::BinOp::Eq),
        (ts::BinaryOp::NotEqEq, rs::BinOp::Ne),
        (ts::BinaryOp::Lt, rs::BinOp::Lt),
        (ts::BinaryOp::LtEq, rs::BinOp::Le),
        (ts::BinaryOp::Gt, rs::BinOp::Gt),
        (ts::BinaryOp::GtEq, rs::BinOp::Ge),
        (ts::BinaryOp::LShift, rs::BinOp::Shl),
        (ts::BinaryOp::RShift, rs::BinOp::Shr),
        (ts::BinaryOp::Add, rs::BinOp::Add),
        (ts::BinaryOp::Sub, rs::BinOp::Sub),
        (ts::BinaryOp::Mul, rs::BinOp::Mul),
        (ts::BinaryOp::Div, rs::BinOp::Div),
        (ts::BinaryOp::Mod, rs::BinOp::Rem),
        (ts::BinaryOp::BitOr, rs::BinOp::BitOr),
        (ts::BinaryOp::BitXor, rs::BinOp::BitXor),
        (ts::BinaryOp::BitAnd, rs::BinOp::BitAnd),
        (ts::BinaryOp::LogicalOr, rs::BinOp::Or),
        (ts::BinaryOp::LogicalAnd, rs::BinOp::And),
    ];
    for (op, want) in table {
        assert_eq!(transpile_bin_op(op), Ok(want));
        assert_eq!(
            transpile_expr(bin(op, ident("a"), ident("b"))),
            Ok(rs::Expr::Binary(Box::new(path("a")), want, Box::new(path("b"))))
        );
    }
}

#[test]
fn unsupported_binary_operators_fail() {
    for op in [ts::BinaryOp::ZeroFillRShift, ts::BinaryOp::In, ts::BinaryOp::InstanceOf, ts::BinaryOp::Exp, ts::BinaryOp::NullishCoalescing] {
        assert_eq!(transpile_bin_op(op), Err(TranspileError::BinaryOp(op)));
        assert_eq!(
            transpile_expr(bin(op, ident("a"), ident("b"))),
            Err(TranspileError::BinaryOp(op))
        );
    }
}

#[test]
fn left_operand_fails_before_operator() {
    let e = bin(ts::BinaryOp::Exp, ts::Expr::Other(ts::ExprKind::This), ident("b"));
    assert_eq!(transpile_expr(e), Err(TranspileError::Expr(ts::ExprKind::This)));
}

#[test]
fn unary_operator_table() {
    assert_eq!(transpile_unary_op(ts::UnaryOp::Minus), Ok(rs::UnOp::Neg));
    assert_eq!(transpile_unary_op(ts::UnaryOp::Bang), Ok(rs::UnOp::Not));
    let e = ts::Expr::Unary(ts::UnaryExpr { op: ts::UnaryOp::Bang, arg: Box::new(ident("x")) });
    assert_eq!(transpile_expr(e), Ok(rs::Expr::Unary(rs::UnOp::Not, Box::new(path("x")))));
    for op in [
        ts::UnaryOp::Plus,
        ts::UnaryOp::Tilde,
        ts::UnaryOp::TypeOf,
        ts::UnaryOp::Void,
        ts::UnaryOp::Delete,
    ] {
        assert_eq!(transpile_unary_op(op), Err(TranspileError::UnaryOp(op)));
    }
}

#[test]
fn update_becomes_compound_assignment_of_one() {
    assert_eq!(transpile_update_op(ts::UpdateOp::PlusPlus), rs::BinOp::AddAssign);
    assert_eq!(
        transpile_expr(update(ts::UpdateOp::MinusMinus, "x")),
        Ok(rs::Expr::Binary(Box::new(path("x")), rs::BinOp::SubAssign, Box::new(int_lit(1))))
    );
}

#[test]
fn compound_assignment_table() {
    let table = [
        (ts::AssignOp::AddAssign, rs::BinOp::AddAssign),
        (ts::AssignOp::SubAssign, rs::BinOp::SubAssign),
        (ts::AssignOp::MulAssign, rs::BinOp::MulAssign),
        (ts::AssignOp::DivAssign, rs::BinOp::DivAssign),
        (ts::AssignOp::ModAssign, rs::BinOp::RemAssign),
        (ts::AssignOp::LShiftAssign, rs::BinOp::ShlAssign),
        (ts::AssignOp::RShiftAssign, rs::BinOp::ShrAssign),
        (ts::AssignOp::BitOrAssign, rs::BinOp::BitOrAssign),
        (ts::AssignOp::BitXorAssign, rs::BinOp::BitXorAssign),
        (ts::AssignOp::BitAndAssign, rs::BinOp::BitAndAssign),
    ];
    for (op, want) in table {
        assert_eq!(transpile_assign_op(op), Ok(want));
        assert_eq!(
            transpile_expr(assign(op, "x", num(2))),
            Ok(rs::Expr::Binary(Box::new(path("x")), want, Box::new(float_lit("2"))))
        );
    }
    for op in [ts::AssignOp::ZeroFillRShiftAssign, ts::AssignOp::ExpAssign, ts::AssignOp::AndAssign, ts::AssignOp::OrAssign, ts::AssignOp::NullishAssign] {
        assert_eq!(transpile_assign_op(op), Err(TranspileError::AssignOp(op)));
    }
}

#[test]
fn plain_assignment() {
    assert_eq!(
        transpile_expr(assign(ts::AssignOp::Assign, "x", boolean(true))),
        Ok(rs::Expr::Assign(Box::new(path("x")), Box::new(rs::Expr::Lit(rs::Lit::Bool(true)))))
    );
}

#[test]
fn assignment_to_member_fails() {
    let e = ts::Expr::Assign(ts::AssignExpr {
        op: ts::AssignOp::Assign,
        left: ts::AssignTarget::Other(ts::TargetKind::Member),
        right: Box::new(ts::Expr::Other(ts::ExprKind::This)),
    });
    assert_eq!(transpile_expr(e), Err(TranspileError::AssignTarget(ts::TargetKind::Member)));
}

#[test]
fn method_call_keeps_receiver_and_arguments() {
    assert_eq!(
        transpile_expr(method_call("console", "log", vec![string("x"), ident("y")])),
        Ok(rs::Expr::MethodCall(
            Box::new(path("console")),
            rs::Method::Named("log".to_string()),
            vec![rs::Expr::Lit(rs::Lit::Str("x".to_string())), path("y")],
        ))
    );
}

#[test]
fn call_shapes_that_fail() {
    let bare = ts::Expr::Call(ts::CallExpr {
        callee: ts::Callee::Expr(Box::new(ident("f"))),
        args: vec![],
    });
    assert_eq!(transpile_expr(bare), Err(TranspileError::Call(CallShape::NotMethod)));
    let sup = ts::Expr::Call(ts::CallExpr { callee: ts::Callee::Super, args: vec![] });
    assert_eq!(transpile_expr(sup), Err(TranspileError::Call(CallShape::Super)));
    let imp = ts::Expr::Call(ts::CallExpr { callee: ts::Callee::Import, args: vec![] });
    assert_eq!(transpile_expr(imp), Err(TranspileError::Call(CallShape::Import)));
    let computed = ts::Expr::Call(ts::CallExpr {
        callee: ts::Callee::Expr(Box::new(ts::Expr::Member(ts::MemberExpr {
            obj: Box::new(ident("a")),
            prop: ts::MemberProp::Computed,
        }))),
        args: vec![],
    });
    assert_eq!(transpile_expr(computed), Err(TranspileError::Call(CallShape::ComplexMember)));
}

#[test]
fn arguments_fail_before_callee() {
    let e = ts::Expr::Call(ts::CallExpr {
        callee: ts::Callee::Super,
        args: vec![ts::Arg { spread: true, expr: ident("xs") }],
    });
    assert_eq!(transpile_expr(e), Err(TranspileError::SpreadArgument));
}

#[test]
fn parentheses_are_kept() {
    let e = ts::Expr::Paren(Box::new(ident("a")));
    assert_eq!(transpile_expr(e), Ok(paren(path("a"))));
}

#[test]
fn unsupported_expressions_fail() {
    for kind in [
        ts::ExprKind::This,
        ts::ExprKind::Array,
        ts::ExprKind::Object,
        ts::ExprKind::Tpl,
        ts::ExprKind::New,
        ts::ExprKind::Sequence,
        ts::ExprKind::OptChain,
        ts::ExprKind::Await,
        ts::ExprKind::Yield,
        ts::ExprKind::Class,
    ] {
        assert_eq!(transpile_expr(ts::Expr::Other(kind)), Err(TranspileError::Expr(kind)));
    }
    let member = ts::Expr::Member(ts::MemberExpr {
        obj: Box::new(ident("a")),
        prop: ts::MemberProp::Ident("b".to_string()),
    });
    assert_eq!(transpile_expr(member), Err(TranspileError::Expr(ts::ExprKind::Member)));
}

#[test]
fn mutability_follows_declaration_kind() {
    for (kind, mutable) in [(ts::VarKind::Var, true), (ts::VarKind::Let, true), (ts::VarKind::Const, false)] {
        let got = transpile_var(var_decl(kind, vec![("x", string("v"))]));
        assert_eq!(
            got,
            Ok(vec![rs::Expr::Let {
                mutable,
                name: "x".to_string(),
                init: Box::new(rs::Expr::Lit(rs::Lit::Str("v".to_string()))),
            }])
        );
    }
}

#[test]
fn each_declarator_becomes_a_binding() {
    let d = ts::Decl::Var(var_decl(ts::VarKind::Const, vec![("a", num(1)), ("b", num(2))]));
    let got = transpile_decl(d).unwrap();
    assert_eq!(got.len(), 2);
    assert_eq!(
        got[1],
        rs::ExprOrStmt::Expr(rs::Expr::Let {
            mutable: false,
            name: "b".to_string(),
            init: Box::new(float_lit("2")),
        })
    );
}

#[test]
fn declarator_failures() {
    let missing = ts::VarDeclarator { name: ts::Pat::Other(ts::PatKind::Array), init: None };
    assert_eq!(
        transpile_var_declarator(ts::VarKind::Let, missing),
        Err(TranspileError::MissingInitializer)
    );
    let pattern = ts::VarDeclarator { name: ts::Pat::Other(ts::PatKind::Object), init: Some(num(1)) };
    assert_eq!(
        transpile_var_declarator(ts::VarKind::Let, pattern),
        Err(TranspileError::Pattern(ts::PatKind::Object))
    );
    let mut ambient = var_decl(ts::VarKind::Let, vec![("x", num(1))]);
    ambient.declare = true;
    assert_eq!(transpile_var(ambient), Err(TranspileError::AmbientVar));
}

#[test]
fn unsupported_declarations_fail() {
    for kind in [
        ts::DeclKind::Class,
        ts::DeclKind::Function,
        ts::DeclKind::Using,
        ts::DeclKind::TsInterface,
        ts::DeclKind::TsTypeAlias,
        ts::DeclKind::TsEnum,
        ts::DeclKind::TsModule,
    ] {
        assert_eq!(transpile_decl(ts::Decl::Other(kind)), Err(TranspileError::Decl(kind)));
    }
}

#[test]
fn unsupported_statements_fail() {
    for kind in [
        ts::StmtKind::Empty,
        ts::StmtKind::Debugger,
        ts::StmtKind::With,
        ts::StmtKind::Labeled,
        ts::StmtKind::Switch,
        ts::StmtKind::Throw,
        ts::StmtKind::Try,
        ts::StmtKind::ForIn,
        ts::StmtKind::ForOf,
    ] {
        assert_eq!(transpile_stmt(ts::Stmt::Other(kind)), Err(TranspileError::Stmt(kind)));
        let m = ts::Module { body: vec![ts::ModuleItem::Stmt(ts::Stmt::Other(kind))] };
        assert_eq!(transpile_module(m), Err(TranspileError::Stmt(kind)));
    }
}

#[test]
fn labeled_jumps_fail() {
    let b = ts::Stmt::Break(ts::BreakStmt { label: Some("outer".to_string()) });
    assert_eq!(transpile_stmt(b), Err(TranspileError::LabeledBreak));
    let c = ts::Stmt::Continue(ts::ContinueStmt { label: Some("outer".to_string()) });
    assert_eq!(transpile_stmt(c), Err(TranspileError::LabeledContinue));
}

#[test]
fn jumps_and_return() {
    assert_eq!(
        transpile_stmt_to_stmts(ts::Stmt::Break(ts::BreakStmt { label: None })),
        Ok(vec![rs::Stmt::Semi(rs::Expr::Break)])
    );
    assert_eq!(
        transpile_stmt_to_stmts(ts::Stmt::Continue(ts::ContinueStmt { label: None })),
        Ok(vec![rs::Stmt::Semi(rs::Expr::Continue)])
    );
    assert_eq!(
        transpile_stmt_to_stmts(ts::Stmt::Return(ts::ReturnStmt { arg: Some(ident("x")) })),
        Ok(vec![rs::Stmt::Semi(rs::Expr::Return(Some(Box::new(path("x")))))])
    );
    assert_eq!(
        transpile_stmt_to_stmts(ts::Stmt::Return(ts::ReturnStmt { arg: None })),
        Ok(vec![rs::Stmt::Semi(rs::Expr::Return(None))])
    );
}

#[test]
fn expression_statement_gets_semicolon() {
    assert_eq!(
        transpile_stmt(log(string("x"))),
        Ok(vec![rs::ExprOrStmt::Stmt(rs_log(rs::Expr::Lit(rs::Lit::Str("x".to_string()))))])
    );
}

#[test]
fn block_flattens_inner_statements() {
    let b = ts::BlockStmt {
        stmts: vec![
            ts::Stmt::Decl(ts::Decl::Var(var_decl(ts::VarKind::Let, vec![("a", num(1)), ("b", num(2))]))),
            log(ident("a")),
        ],
    };
    let got = transpile_block(b).unwrap();
    assert_eq!(got.stmts.len(), 3);
    assert_eq!(got.stmts[2], rs_log(path("a")));
}

#[test]
fn statement_to_block_wraps_non_blocks() {
    assert_eq!(
        transpile_stmt_to_block(log(ident("a"))),
        Ok(rs::Block { stmts: vec![rs_log(path("a"))] })
    );
}

#[test]
fn if_else_scenario() {
    let m = ts::Module {
        body: vec![
            ts::ModuleItem::Stmt(let_stmt("a", num(1))),
            ts::ModuleItem::Stmt(let_stmt("b", num(2))),
            ts::ModuleItem::Stmt(ts::Stmt::If(ts::IfStmt {
                test: bin(ts::BinaryOp::EqEq, ident("a"), ident("b")),
                cons: Box::new(block(vec![log(string("x"))])),
                alt: Some(Box::new(block(vec![log(string("y"))]))),
            })),
        ],
    };
    let file = transpile_module(m).unwrap();
    let str_lit = |s: &str| rs::Expr::Lit(rs::Lit::Str(s.to_string()));
    let binding = |name: &str, v: &str| {
        rs::Stmt::Semi(rs::Expr::Let {
            mutable: true,
            name: name.to_string(),
            init: Box::new(float_lit(v)),
        })
    };
    let expected = rs::File {
        items: vec![
            rs::Item::ShimImport,
            rs::Item::EntryPoint(rs::Block {
                stmts: vec![
                    binding("a", "1"),
                    binding("b", "2"),
                    rs::Stmt::Semi(rs::Expr::If(
                        Box::new(rs::Expr::Binary(
                            Box::new(path("a")),
                            rs::BinOp::Eq,
                            Box::new(path("b")),
                        )),
                        rs::Block { stmts: vec![rs_log(str_lit("x"))] },
                        Some(Box::new(rs::Expr::Block(rs::Block {
                            stmts: vec![rs_log(str_lit("y"))],
                        }))),
                    )),
                ],
            }),
        ],
    };
    assert_eq!(file, expected);
}

#[test]
fn else_if_chains() {
    let inner = ts::Stmt::If(ts::IfStmt {
        test: ident("c"),
        cons: Box::new(log(num(2))),
        alt: None,
    });
    let outer = ts::IfStmt { test: ident("b"), cons: Box::new(log(num(1))), alt: Some(Box::new(inner)) };
    let got = transpile_if(outer).unwrap();
    match got {
        rs::Expr::If(_, then_branch, Some(alt)) => {
            assert_eq!(then_branch.stmts, vec![rs_log(float_lit("1"))]);
            assert!(matches!(*alt, rs::Expr::If(_, _, None)));
        },
        other => panic!("unexpected {:?}", other),
    }
}

#[test]
fn else_arm_shapes_that_fail() {
    assert_eq!(
        transpile_stmt_to_expr(log(ident("x"))),
        Err(TranspileError::ElseArm(ArmShape::Statement))
    );
    let two = ts::Stmt::Decl(ts::Decl::Var(var_decl(ts::VarKind::Let, vec![("a", num(1)), ("b", num(2))])));
    assert_eq!(transpile_stmt_to_expr(two), Err(TranspileError::ElseArm(ArmShape::Several)));
    let none = ts::Stmt::Decl(ts::Decl::Var(var_decl(ts::VarKind::Let, vec![])));
    assert_eq!(transpile_stmt_to_expr(none), Err(TranspileError::ElseArm(ArmShape::Nothing)));
    let ok = block(vec![]);
    assert_eq!(transpile_stmt_to_expr(ok), Ok(rs::Expr::Block(rs::Block { stmts: vec![] })));
}

#[test]
fn while_loop() {
    let w = ts::Stmt::While(ts::WhileStmt {
        test: bin(ts::BinaryOp::GtEq, ident("d"), num(0)),
        body: Box::new(block(vec![log(ident("d"))])),
    });
    assert_eq!(
        transpile_stmt_to_stmts(w),
        Ok(vec![rs::Stmt::Semi(rs::Expr::While(
            Box::new(rs::Expr::Binary(Box::new(path("d")), rs::BinOp::Ge, Box::new(float_lit("0")))),
            rs::Block { stmts: vec![rs_log(path("d"))] },
        ))])
    );
}

#[test]
fn do_while_false_runs_body_then_guard() {
    let d = ts::DoWhileStmt {
        body: Box::new(block(vec![log(ident("d")), log(ident("e"))])),
        test: boolean(false),
    };
    let got = transpile_do_while(d).unwrap();
    let guard = rs::Stmt::Expr(rs::Expr::If(
        Box::new(rs::Expr::Unary(
            rs::UnOp::Not,
            Box::new(paren(rs::Expr::Lit(rs::Lit::Bool(false)))),
        )),
        rs::Block { stmts: vec![rs::Stmt::Semi(rs::Expr::Break)] },
        None,
    ));
    assert_eq!(
        got,
        rs::Stmt::Semi(rs::Expr::Loop(rs::Block {
            stmts: vec![rs_log(path("d")), rs_log(path("e")), guard],
        }))
    );
}

#[test]
fn counting_loop_descending_closed_scenario() {
    let f = counting_for(
        10,
        ts::BinaryOp::GtEq,
        0,
        assign(ts::AssignOp::SubAssign, "i", num(1)),
        vec![log(ident("i"))],
    );
    assert_eq!(
        transpile_for(f),
        Ok(vec![for_loop(rev(paren(range(0, 10, rs::RangeLimits::Closed))), vec![rs_log(path("i"))])])
    );
}

#[test]
fn counting_loop_ascending_steps() {
    for s in 1..=3i64 {
        let f = counting_for(2, ts::BinaryOp::Lt, 9, assign(ts::AssignOp::AddAssign, "i", num(s)), vec![]);
        let base = range(2, 9, rs::RangeLimits::HalfOpen);
        let want = if s == 1 { base } else { step_by(paren(base), s as i128) };
        assert_eq!(transpile_for(f), Ok(vec![for_loop(want, vec![])]));
    }
}

#[test]
fn counting_loop_descending_steps() {
    for s in 1..=3i64 {
        let f = counting_for(9, ts::BinaryOp::Gt, 2, assign(ts::AssignOp::SubAssign, "i", num(s)), vec![]);
        let base = rev(paren(range(2, 9, rs::RangeLimits::HalfOpen)));
        let want = if s == 1 { base } else { step_by(base, s as i128) };
        assert_eq!(transpile_for(f), Ok(vec![for_loop(want, vec![])]));
    }
}

#[test]
fn counting_loop_inclusive_flips_to_closed() {
    let f = counting_for(0, ts::BinaryOp::LtEq, 5, update(ts::UpdateOp::PlusPlus, "i"), vec![]);
    assert_eq!(transpile_for(f), Ok(vec![for_loop(range(0, 5, rs::RangeLimits::Closed), vec![])]));
}

#[test]
fn counting_loop_recognizer_fields() {
    let f = counting_for(3, ts::BinaryOp::Lt, 8, assign(ts::AssignOp::AddAssign, "i", num(-2)), vec![]);
    assert_eq!(
        counting_loop(&f),
        Some(CountingLoop {
            counter: "i".to_string(),
            start: 3,
            end: 8,
            inclusive: false,
            descending: true,
            step: 2,
        })
    );
    let c = CountingLoop {
        counter: "i".to_string(),
        start: 5,
        end: 1,
        inclusive: false,
        descending: true,
        step: 1,
    };
    assert_eq!(counting_range(&c), rev(paren(range(1, 5, rs::RangeLimits::HalfOpen))));
}

#[test]
fn counting_loop_with_other_counter_falls_back() {
    let mut f = counting_for(0, ts::BinaryOp::Lt, 3, update(ts::UpdateOp::PlusPlus, "j"), vec![]);
    assert_eq!(counting_loop(&f), None);
    f.test = Some(bin(ts::BinaryOp::Lt, ident("i"), float("2.5")));
    assert_eq!(counting_loop(&f), None);
}

#[test]
fn general_for_lowers_to_while() {
    let f = ts::ForStmt {
        init: Some(ts::ForInit::Var(var_decl(ts::VarKind::Let, vec![("i", num(0))]))),
        test: Some(bin(ts::BinaryOp::Lt, ident("i"), ident("n"))),
        update: Some(update(ts::UpdateOp::PlusPlus, "i")),
        body: Box::new(log(ident("i"))),
    };
    let got = transpile_for(f).unwrap();
    assert_eq!(
        got,
        vec![
            rs::Stmt::Semi(rs::Expr::Let {
                mutable: true,
                name: "i".to_string(),
                init: Box::new(float_lit("0")),
            }),
            rs::Stmt::Semi(rs::Expr::While(
                Box::new(rs::Expr::Binary(Box::new(path("i")), rs::BinOp::Lt, Box::new(path("n")))),
                rs::Block {
                    stmts: vec![
                        rs_log(path("i")),
                        rs::Stmt::Semi(rs::Expr::Binary(
                            Box::new(path("i")),
                            rs::BinOp::AddAssign,
                            Box::new(int_lit(1)),
                        )),
                    ],
                },
            )),
        ]
    );
}

#[test]
fn for_without_test_lowers_to_loop() {
    let f = ts::ForStmt {
        init: Some(ts::ForInit::Expr(assign(ts::AssignOp::Assign, "i", num(0)))),
        test: None,
        update: None,
        body: Box::new(block(vec![ts::Stmt::Break(ts::BreakStmt { label: None })])),
    };
    let got = transpile_for(f).unwrap();
    assert_eq!(got.len(), 2);
    assert_eq!(
        got[1],
        rs::Stmt::Semi(rs::Expr::Loop(rs::Block { stmts: vec![rs::Stmt::Semi(rs::Expr::Break)] }))
    );
}

#[test]
fn general_for_fails_on_body_first() {
    let f = ts::ForStmt {
        init: Some(ts::ForInit::Expr(ts::Expr::Other(ts::ExprKind::This))),
        test: None,
        update: Some(ts::Expr::Other(ts::ExprKind::Array)),
        body: Box::new(ts::Stmt::Other(ts::StmtKind::Throw)),
    };
    assert_eq!(transpile_for(f), Err(TranspileError::Stmt(ts::StmtKind::Throw)));
}

#[test]
fn module_wraps_statements_in_entry_point() {
    let m = ts::Module { body: vec![ts::ModuleItem::Stmt(log(num(1)))] };
    assert_eq!(
        transpile_module(m),
        Ok(rs::File {
            items: vec![
                rs::Item::ShimImport,
                rs::Item::EntryPoint(rs::Block { stmts: vec![rs_log(float_lit("1"))] }),
            ],
        })
    );
    let empty = ts::Module { body: vec![] };
    assert_eq!(
        transpile_module(empty),
        Ok(rs::File {
            items: vec![rs::Item::ShimImport, rs::Item::EntryPoint(rs::Block { stmts: vec![] })],
        })
    );
}

#[test]
fn module_declarations_fail() {
    assert_eq!(transpile_module_item(ts::ModuleItem::ModuleDecl), Err(TranspileError::ModuleDecl));
    let m = ts::Module { body: vec![ts::ModuleItem::Stmt(log(num(1))), ts::ModuleItem::ModuleDecl] };
    assert_eq!(transpile_module(m), Err(TranspileError::ModuleDecl));
}

#[test]
fn console_assert_accepts_true() {
    let c = Console {};
    c.assert_that(true);
}

#[test]
fn file_passes_parse_failure_on() {
    assert_eq!(
        transpile_file(Err("unexpected token".to_string())),
        Err(FileError::Parse("unexpected token".to_string()))
    );
}

#[test]
fn file_translates_or_fails_whole() {
    let ok = ts::Module { body: vec![ts::ModuleItem::Stmt(log(boolean(true)))] };
    assert_eq!(
        transpile_file(Ok(ok)),
        Ok(rs::File {
            items: vec![
                rs::Item::ShimImport,
                rs::Item::EntryPoint(rs::Block {
                    stmts: vec![rs_log(rs::Expr::Lit(rs::Lit::Bool(true)))],
                }),
            ],
        })
    );
    let bad = ts::Module {
        body: vec![
            ts::ModuleItem::Stmt(log(num(1))),
            ts::ModuleItem::Stmt(ts::Stmt::Other(ts::StmtKind::Try)),
        ],
    };
    assert_eq!(
        transpile_file(Ok(bad)),
        Err(FileError::Transpile(TranspileError::Stmt(ts::StmtKind::Try)))
    );
}

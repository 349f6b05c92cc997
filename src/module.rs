//! Whole programs: top-level statements go, in order, into a synthesized entry
//! point, after a glob import of the runtime shim.
use crate::error::{first_error, settles, TranspileError};
use crate::rs;
use crate::stmt::{stmt_error, stmt_len, stmt_stmts_to, transpile_stmt_to_stmts};
use crate::ts;
use vstd::prelude::*;

verus! {

pub open spec fn stmt_of(x: rs::ItemOrStmt) -> rs::Stmt {
    match x {
        rs::ItemOrStmt::Stmt(s) => s,
        rs::ItemOrStmt::Item(i) => rs::Stmt::Item(i),
    }
}

pub open spec fn item_error(item: ts::ModuleItem) -> Option<TranspileError> {
    match item {
        ts::ModuleItem::Stmt(s) => stmt_error(s),
        ts::ModuleItem::ModuleDecl => Some(TranspileError::ModuleDecl),
    }
}

/// The first failure among the top-level items from index `i` on.
pub open spec fn items_error(items: Seq<ts::ModuleItem>, i: int) -> Option<TranspileError>
    decreases items.len() - i,
{
    if 0 <= i < items.len() {
        first_error(item_error(items[i]), items_error(items, i + 1))
    } else {
        None
    }
}

/// `xs` is what a top-level item becomes: the statements of a top-level
/// statement, each tagged as a statement.
pub open spec fn module_item_to(item: ts::ModuleItem, xs: Seq<rs::ItemOrStmt>) -> bool {
    &&& item matches ts::ModuleItem::Stmt(s)
    &&& forall|i: int| 0 <= i < xs.len() ==> (#[trigger] xs[i]) is Stmt
    &&& stmt_stmts_to(s, xs.map_values(|x: rs::ItemOrStmt| stmt_of(x)))
}

pub open spec fn item_len(item: ts::ModuleItem) -> nat {
    match item {
        ts::ModuleItem::Stmt(s) => stmt_len(s),
        ts::ModuleItem::ModuleDecl => 0,
    }
}

/// `ys` is what the top-level items become, one after the other.
pub open spec fn module_stmts_to(items: Seq<ts::ModuleItem>, ys: Seq<rs::Stmt>) -> bool
    decreases items.len(),
{
    if items.len() == 0 {
        ys.len() == 0
    } else {
        let last = items[items.len() - 1];
        let n = item_len(last) as int;
        &&& last matches ts::ModuleItem::Stmt(s)
        &&& n <= ys.len()
        &&& module_stmts_to(items.subrange(0, items.len() - 1), ys.subrange(0, ys.len() - n))
        &&& stmt_stmts_to(s, ys.subrange(ys.len() - n, ys.len() as int))
    }
}

/// `f` is the compilation unit of `m`: the shim import, then the entry point
/// holding all that the top-level statements become.
pub open spec fn module_to(m: ts::Module, f: rs::File) -> bool {
    &&& f.items@.len() == 2
    &&& f.items@[0] == rs::Item::ShimImport
    &&& f.items@[1] matches rs::Item::EntryPoint(main)
    &&& module_stmts_to(m.body@, main.stmts@)
}

/// What a statement becomes is never an item.
pub proof fn lemma_no_items(s: ts::Stmt, ys: Seq<rs::Stmt>)
    requires
        stmt_stmts_to(s, ys),
    ensures
        forall|i: int| 0 <= i < ys.len() ==> !((#[trigger] ys[i]) is Item),
{
    if let ts::Stmt::For(f) = s {
        if crate::counting::counting_loop_of(f) is None {
            let k = crate::stmt::init_len(f.init) as int;
            assert forall|i: int| 0 <= i < ys.len() implies !((#[trigger] ys[i]) is Item) by {
                if i < k {
                    assert(ys.subrange(0, k)[i] == ys[i]);
                }
            }
        }
    }
}

/// Translates a whole program.
pub fn transpile_module(module: ts::Module) -> (r: Result<rs::File, TranspileError>)
    ensures
        settles(r, items_error(module.body@, 0)),
        r is Ok ==> module_to(module, r->Ok_0),
{
    let ghost body = module.body@;
    let n = module.body.len();
    let mut rest = module.body;
    let mut items: Vec<rs::Item> = Vec::new();
    items.push(generate_std_use());
    let mut stmts: Vec<rs::Stmt> = Vec::new();
    let mut i: usize = 0;
    while i < n
        invariant
            body == module.body@,
            n == body.len(),
            0 <= i <= n,
            rest@ == body.subrange(i as int, n as int),
            items@ == seq![rs::Item::ShimImport],
            items_error(body, 0) == items_error(body, i as int),
            module_stmts_to(body.subrange(0, i as int), stmts@),
        decreases n - i,
    {
        let item = rest.remove(0);
        assert(item == body[i as int]);
        let xs = match transpile_module_item(item) {
            Ok(xs) => xs,
            Err(err) => {
                assert(items_error(body, i as int) == Some(err));
                return Err(err);
            },
        };
        let ghost g = xs@;
        let ghost before = stmts@;
        let ghost s = body[i as int]->Stmt_0;
        proof {
            crate::stmt::lemma_stmt_len(s, g.map_values(|x: rs::ItemOrStmt| stmt_of(x)));
            lemma_no_items(s, g.map_values(|x: rs::ItemOrStmt| stmt_of(x)));
            assert forall|k: int| 0 <= k < g.len() implies !(#[trigger] stmt_of(g[k]) is Item) by {
                assert(g.map_values(|x: rs::ItemOrStmt| stmt_of(x))[k] == stmt_of(g[k]));
            }
        }
        let m = xs.len();
        let mut xs_rest = xs;
        let mut j: usize = 0;
        while j < m
            invariant
                m == g.len(),
                0 <= j <= m,
                xs_rest@ == g.subrange(j as int, m as int),
                forall|k: int| 0 <= k < m ==> (#[trigger] g[k]) is Stmt,
                forall|k: int| 0 <= k < m ==> !(#[trigger] stmt_of(g[k]) is Item),
                items@ == seq![rs::Item::ShimImport],
                stmts@ == before + g.subrange(0, j as int).map_values(
                    |x: rs::ItemOrStmt| stmt_of(x),
                ),
            decreases m - j,
        {
            let x = xs_rest.remove(0);
            assert(x == g[j as int]);
            assert(g.subrange(0, j + 1).map_values(|x: rs::ItemOrStmt| stmt_of(x))
                =~= g.subrange(0, j as int).map_values(|x: rs::ItemOrStmt| stmt_of(x)).push(
                stmt_of(x),
            ));
            match x {
                rs::ItemOrStmt::Item(it) => items.push(it),
                rs::ItemOrStmt::Stmt(rs::Stmt::Item(it)) => items.push(it),
                rs::ItemOrStmt::Stmt(s) => stmts.push(s),
            }
            j += 1;
        }
        proof {
            let t = body.subrange(0, i + 1);
            assert(t.subrange(0, t.len() - 1) =~= body.subrange(0, i as int));
            assert(t[t.len() - 1] == body[i as int]);
            assert(g.subrange(0, m as int) =~= g);
            assert(stmts@.subrange(0, stmts@.len() - m) =~= before);
            assert(stmts@.subrange(stmts@.len() - m, stmts@.len() as int) =~= g.map_values(
                |x: rs::ItemOrStmt| stmt_of(x),
            ));
        }
        i += 1;
    }
    assert(body.subrange(0, n as int) =~= body);
    items.push(generate_main_fn(stmts));
    Ok(rs::File { items })
}

/// Translates a top-level item; only statements are supported.
pub fn transpile_module_item(module_item: ts::ModuleItem) -> (r: Result<
    Vec<rs::ItemOrStmt>,
    TranspileError,
>)
    ensures
        settles(r, item_error(module_item)),
        r is Ok ==> module_item_to(module_item, r->Ok_0@),
{
    let stmt = match module_item {
        ts::ModuleItem::Stmt(stmt) => stmt,
        ts::ModuleItem::ModuleDecl => return Err(TranspileError::ModuleDecl),
    };
    let ys = match transpile_stmt_to_stmts(stmt) {
        Ok(ys) => ys,
        Err(err) => return Err(err),
    };
    let ghost g = ys@;
    let n = ys.len();
    let mut rest = ys;
    let mut out: Vec<rs::ItemOrStmt> = Vec::new();
    let mut i: usize = 0;
    while i < n
        invariant
            n == g.len(),
            0 <= i <= n,
            rest@ == g.subrange(i as int, n as int),
            out@.len() == i,
            forall|j: int| 0 <= j < i ==> #[trigger] out@[j] == rs::ItemOrStmt::Stmt(g[j]),
        decreases n - i,
    {
        let y = rest.remove(0);
        out.push(rs::ItemOrStmt::Stmt(y));
        i += 1;
    }
    assert(out@.map_values(|x: rs::ItemOrStmt| stmt_of(x)) =~= g);
    Ok(out)
}

/// The glob import of the runtime shim.
fn generate_std_use() -> (r: rs::Item)
    ensures
        r == rs::Item::ShimImport,
{
    rs::Item::ShimImport
}

/// The entry point, whose body is `stmts`.
fn generate_main_fn(stmts: Vec<rs::Stmt>) -> (r: rs::Item)
    ensures
        r matches rs::Item::EntryPoint(main) && main.stmts == stmts,
{
    rs::Item::EntryPoint(rs::Block { stmts })
}

} // verus!

//! Laws of the lowering model, proved once and for all over the spec
//! functions of `backend::model`: scope save/restore across blocks, local
//! lookup precedence, per-declaration error accumulation, and determinism of
//! the printer.
use crate::ast::Block;
use crate::ast::BlockItem;
use crate::ast::CompUnit;
use crate::ast::ConstDecl;
use crate::ast::ConstInitialValue;
use crate::ast::Decl;
use crate::ast::FunctionDef;
use crate::ast::LVal;
use crate::ast::Statement;
use crate::ast::VarDecl;
use crate::ast::ExternFunctionDef;
use crate::backend::model::CtxV;
use crate::backend::model::ELower;
use crate::backend::model::LowerRes;
use crate::backend::model::s_lower_block;
use crate::backend::model::s_lower_const_decl;
use crate::backend::model::s_lower_const_init;
use crate::backend::model::s_lower_decl;
use crate::backend::model::s_lower_foreign_fn;
use crate::backend::model::s_lower_function_def;
use crate::backend::model::s_lower_globals;
use crate::backend::model::s_lower_item;
use crate::backend::model::s_lower_items;
use crate::backend::model::s_lower_lval;
use crate::backend::model::s_lower_stmt;
use crate::backend::model::s_lower_unit;
use crate::backend::model::s_lower_var_decl;
use crate::cgen::CProgramV;
use crate::cgen::cprogram_text;
use crate::cgen::scope::SymbolV;
use crate::cgen::scope::table_lookup;
use vstd::prelude::*;

verus! {

/// What every lowering step preserves of the enclosing scope: the local
/// table keeps at least the entries that were there, unchanged and in place,
/// and the error list is untouched (only the top-level walk appends to it).
pub open spec fn keeps_enclosing<T>(ctx: CtxV, r: LowerRes<T>) -> bool {
    match r {
        LowerRes::Done(c, _) => c.local.len() >= ctx.local.len() && c.local.take(
            ctx.local.len() as int,
        ) == ctx.local && c.errors == ctx.errors,
        LowerRes::Failed(c, _) => c.local.len() >= ctx.local.len() && c.local.take(
            ctx.local.len() as int,
        ) == ctx.local && c.errors == ctx.errors,
        LowerRes::Aborted => true,
    }
}

/// A table that extends an extension of `base` extends `base`.
proof fn lemma_prefix_chain(a: Seq<SymbolV>, b: Seq<SymbolV>, c: Seq<SymbolV>)
    requires
        b.len() >= a.len(),
        b.take(a.len() as int) == a,
        c.len() >= b.len(),
        c.take(b.len() as int) == b,
    ensures
        c.len() >= a.len(),
        c.take(a.len() as int) == a,
{
    assert(c.take(a.len() as int) =~= b.take(a.len() as int));
}

proof fn lemma_keeps_stmt(ctx: CtxV, st: Statement)
    ensures
        keeps_enclosing(ctx, s_lower_stmt(ctx, st)),
        s_lower_stmt(ctx, st) matches LowerRes::Done(c, _) ==> c.local == ctx.local,
    decreases st,
{
    assert(ctx.local.take(ctx.local.len() as int) =~= ctx.local);
}

proof fn lemma_keeps_items(ctx: CtxV, items: Seq<BlockItem>)
    ensures
        keeps_enclosing(ctx, s_lower_items(ctx, items)),
    decreases items,
{
    assert(ctx.local.take(ctx.local.len() as int) =~= ctx.local);
    if items.len() > 0 {
        lemma_keeps_item(ctx, items[0]);
        match s_lower_item(ctx, items[0]) {
            LowerRes::Done(c1, _) => {
                lemma_keeps_items(c1, items.drop_first());
                match s_lower_items(c1, items.drop_first()) {
                    LowerRes::Done(c2, _) => {
                        lemma_prefix_chain(ctx.local, c1.local, c2.local);
                    },
                    LowerRes::Failed(c2, _) => {
                        lemma_prefix_chain(ctx.local, c1.local, c2.local);
                    },
                    LowerRes::Aborted => {},
                }
            },
            _ => {},
        }
    }
}

proof fn lemma_keeps_item(ctx: CtxV, item: BlockItem)
    ensures
        keeps_enclosing(ctx, s_lower_item(ctx, item)),
    decreases item,
{
    match item {
        BlockItem::Statement(st) => {
            lemma_keeps_stmt(ctx, st);
        },
        BlockItem::Declaration(d) => {
            lemma_keeps_decl(ctx, d);
        },
    }
}

proof fn lemma_keeps_decl(ctx: CtxV, d: Decl)
    ensures
        keeps_enclosing(ctx, s_lower_decl(ctx, d)),
    decreases d,
{
    match d {
        Decl::VarDecl(v) => {
            lemma_keeps_var_decl(ctx, v);
        },
        Decl::ConstDecl(c) => {
            lemma_keeps_const_decl(ctx, c);
        },
        Decl::ExternFunctionDef(e) => {
            lemma_keeps_foreign(ctx, e);
        },
    }
}

proof fn lemma_keeps_var_decl(ctx: CtxV, v: VarDecl)
    ensures
        keeps_enclosing(ctx, s_lower_var_decl(ctx, v)),
    decreases v,
{
    assert(ctx.local.take(ctx.local.len() as int) =~= ctx.local);
    match s_lower_var_decl(ctx, v) {
        LowerRes::Done(c, _) => {
            assert(c.local.take(ctx.local.len() as int) =~= ctx.local);
        },
        _ => {},
    }
}

proof fn lemma_keeps_const_decl(ctx: CtxV, c: ConstDecl)
    ensures
        keeps_enclosing(ctx, s_lower_const_decl(ctx, c)),
    decreases c,
{
    lemma_keeps_const_init(ctx, c.initial_value);
    assert(ctx.local.take(ctx.local.len() as int) =~= ctx.local);
    match s_lower_const_init(ctx, c.initial_value) {
        LowerRes::Done(c1, _) => {
            match s_lower_const_decl(ctx, c) {
                LowerRes::Done(c2, _) => {
                    assert(c2.local == c1.local || c2.local == c1.local.push(c2.local.last()));
                    assert(c2.local.take(ctx.local.len() as int) =~= ctx.local);
                },
                _ => {},
            }
        },
        _ => {},
    }
}

proof fn lemma_keeps_const_init(ctx: CtxV, civ: ConstInitialValue)
    ensures
        keeps_enclosing(ctx, s_lower_const_init(ctx, civ)),
        s_lower_const_init(ctx, civ) matches LowerRes::Done(c, _) ==> c.local == ctx.local,
    decreases civ,
{
    assert(ctx.local.take(ctx.local.len() as int) =~= ctx.local);
    match civ.value {
        crate::ast::ConstInitialValueEnum::Exp(_) => {},
        crate::ast::ConstInitialValueEnum::Function(f) => {
            lemma_keeps_function_def(ctx, f);
        },
    }
}

proof fn lemma_keeps_function_def(ctx: CtxV, f: FunctionDef)
    ensures
        keeps_enclosing(ctx, s_lower_function_def(ctx, f)),
        s_lower_function_def(ctx, f) matches LowerRes::Done(c, _) ==> c.local == ctx.local,
    decreases f,
{
    assert(ctx.local.take(ctx.local.len() as int) =~= ctx.local);
    let ret = crate::backend::model::s_lower_type(f.return_type);
    match crate::cgen::types::ctype_function_type(ret, Seq::empty()) {
        Option::None => {},
        Option::Some(_) => {
            if ctx.func_id == usize::MAX as nat {
            } else {
                lemma_block_scope(
                    CtxV {
                        c_program: CProgramV {
                            items: ctx.c_program.items.push(
                                crate::cgen::CDeclarationV::FunctionDef(
                                    crate::cgen::func::CFunctionV {
                                        name: crate::backend::mangle::mangled_name(ctx.func_id),
                                        return_type: ret,
                                        is_static: true,
                                        is_foreign: false,
                                        body: Seq::empty(),
                                        params: crate::backend::model::s_lower_params(f.params@),
                                    },
                                ),
                            ),
                        },
                        current_function: Option::Some(
                            crate::cgen::values::CIdentifierV {
                                name: crate::backend::mangle::mangled_name(ctx.func_id),
                                type_: crate::cgen::types::ctype_function_type(
                                    ret,
                                    Seq::empty(),
                                )->0,
                            },
                        ),
                        func_id: ctx.func_id + 1,
                        ..ctx
                    },
                    f.block,
                );
            }
        },
    }
}

proof fn lemma_keeps_foreign(ctx: CtxV, e: ExternFunctionDef)
    ensures
        keeps_enclosing(ctx, s_lower_foreign_fn(ctx, e)),
    decreases e,
{
    assert(ctx.local.take(ctx.local.len() as int) =~= ctx.local);
}

/// Scoping law: a block that completes normally leaves the local table
/// exactly as it found it.  Declarations made inside the block (including
/// shadowing redeclarations of outer names) are popped in LIFO order down to
/// the scope marker, so they are unresolvable after the block's closing
/// point and any shadowed outer binding is visible again.
pub proof fn lemma_block_scope(ctx: CtxV, b: Block)
    ensures
        keeps_enclosing(ctx, s_lower_block(ctx, b)),
        s_lower_block(ctx, b) matches LowerRes::Done(c, _) ==> c.local == ctx.local,
    decreases b,
{
    let ctx1 = CtxV { local: ctx.local.push(SymbolV::Scope), ..ctx };
    let stack_size = ctx1.local.len();
    lemma_keeps_items(ctx1, b.items@);
    assert(ctx.local.take(ctx.local.len() as int) =~= ctx.local);
    match s_lower_items(ctx1, b.items@) {
        LowerRes::Done(c2, _) => {
            assert(c2.local.take(stack_size as int) == ctx1.local);
            let trimmed = crate::backend::model::s_trim_to(c2.local, stack_size);
            assert(trimmed =~= ctx1.local) by {
                if c2.local.len() > stack_size {
                } else {
                    assert(c2.local.take(stack_size as int) =~= c2.local);
                }
            }
            assert(crate::backend::model::s_pop1(ctx1.local) =~= ctx.local);
        },
        LowerRes::Failed(c2, _) => {
            assert(ctx1.local.take(ctx.local.len() as int) =~= ctx.local);
            lemma_prefix_chain(ctx.local, ctx1.local, c2.local);
        },
        LowerRes::Aborted => {},
    }
}

/// Lookup precedence law: when a name is bound in the local table, resolving
/// a reference to it yields the local binding, whatever the global table
/// holds for the same name.
pub proof fn lemma_local_lookup_wins(ctx: CtxV, l: LVal)
    requires
        l.ids@.len() > 0,
    ensures
        match table_lookup(ctx.local, l.ids@[0]@) {
            Option::Some(SymbolV::Const(_, v)) => s_lower_lval(ctx, l) == ELower::Done(v),
            Option::Some(SymbolV::Var(_, v)) => s_lower_lval(ctx, l) == ELower::Done(v),
            _ => true,
        },
{
}

/// Error accumulation law: a unit of exactly two top-level declarations that
/// fail independently yields exactly two collected errors, in order, each
/// the error of its own declaration, and the walk still completes.
pub proof fn lemma_two_failing_decls_collect_two_errors(ctx: CtxV, u: CompUnit)
    requires
        u.global_items@.len() == 2,
        s_lower_decl(ctx, u.global_items@[0]->Decl_0) is Failed,
        ({
            let r1 = s_lower_decl(ctx, u.global_items@[0]->Decl_0);
            s_lower_decl(
                CtxV { errors: r1->Failed_0.errors.push(r1->Failed_1), ..r1->Failed_0 },
                u.global_items@[1]->Decl_0,
            ) is Failed
        }),
    ensures
        ({
            let r1 = s_lower_decl(ctx, u.global_items@[0]->Decl_0);
            let e1 = r1->Failed_1;
            let after1 = CtxV { errors: r1->Failed_0.errors.push(e1), ..r1->Failed_0 };
            let r2 = s_lower_decl(after1, u.global_items@[1]->Decl_0);
            let e2 = r2->Failed_1;
            s_lower_unit(ctx, u) matches LowerRes::Done(c, _) && c.errors == ctx.errors.push(
                e1,
            ).push(e2) && c.errors.len() == ctx.errors.len() + 2
        }),
{
    let items = u.global_items@;
    let d1 = items[0]->Decl_0;
    let r1 = s_lower_decl(ctx, d1);
    lemma_keeps_decl(ctx, d1);
    let e1 = r1->Failed_1;
    let after1 = CtxV { errors: r1->Failed_0.errors.push(e1), ..r1->Failed_0 };
    let d2 = items[1]->Decl_0;
    let r2 = s_lower_decl(after1, d2);
    lemma_keeps_decl(after1, d2);
    let e2 = r2->Failed_1;
    let after2 = CtxV { errors: r2->Failed_0.errors.push(e2), ..r2->Failed_0 };
    assert(items.drop_first()[0] == items[1]);
    assert(items.drop_first().drop_first() =~= Seq::<crate::ast::GlobalItem>::empty());
    assert(s_lower_globals(ctx, items) == s_lower_globals(after1, items.drop_first()));
    assert(s_lower_globals(after1, items.drop_first()) == s_lower_globals(
        after2,
        items.drop_first().drop_first(),
    ));
    assert(s_lower_globals(after2, items.drop_first().drop_first()) == LowerRes::<()>::Done(
        after2,
        (),
    ));
    assert(after2.errors =~= ctx.errors.push(e1).push(e2));
}

/// Printer determinism law: the rendered text of a program is a function of
/// the program alone, so re-printing an unchanged program yields
/// byte-identical text.
pub proof fn lemma_print_deterministic(p: CProgramV, s1: Seq<char>, s2: Seq<char>)
    requires
        s1 == cprogram_text(p),
        s2 == cprogram_text(p),
    ensures
        s1 == s2,
{
}

} // verus!

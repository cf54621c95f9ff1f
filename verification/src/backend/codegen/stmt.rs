//! Lowering of blocks and statements.
use crate::ast::Block;
use crate::ast::BlockItem;
use crate::ast::Return;
use crate::ast::Statement;
use crate::backend::CodegenContext;
use crate::backend::Fault;
use crate::backend::model::CtxV;
use crate::backend::model::LowerRes;
use crate::backend::model::s_lower_block;
use crate::backend::model::s_lower_exp;
use crate::backend::model::s_lower_item;
use crate::backend::model::s_lower_items;
use crate::backend::model::s_lower_return;
use crate::backend::model::s_lower_stmt;
use crate::backend::model::s_pop1;
use crate::backend::model::s_push_item;
use crate::backend::model::s_trim_to;
use crate::backend::model::unit_result_matches;
use crate::cgen::func::CBlockItem;
use crate::cgen::func::CReturn;
use crate::cgen::func::CStatement;
use crate::cgen::func::lemma_item_view_exp;
use crate::cgen::func::lemma_item_view_statement;
use crate::cgen::scope::SymbolV;
use crate::cgen::values::Value;
use vstd::prelude::*;

verus! {

/// Appends `item` to the current function's body; an internal fault when no
/// function is current or its definition is not registered.
fn push_to_current(context: &mut CodegenContext, item: CBlockItem) -> (r: Result<(), Fault>)
    ensures
        match s_push_item(old(context).deep_view(), item.deep_view()) {
            Option::Some(p) => r is Ok && final(context).deep_view() == (CtxV {
                c_program: p,
                ..old(context).deep_view()
            }),
            Option::None => r matches Result::Err(Fault::Internal),
        },
{
    let name = match &context.current_function {
        Option::Some(f) => f.get_name(),
        Option::None => {
            return Result::Err(Fault::Internal);
        },
    };
    let pushed = context.c_program.push_to_function(&name, item);
    if pushed {
        proof {
            assert(context.deep_view() =~= CtxV {
                c_program: match s_push_item(old(context).deep_view(), item.deep_view()) {
                    Option::Some(p) => p,
                    Option::None => old(context).deep_view().c_program,
                },
                ..old(context).deep_view()
            });
        }
        Result::Ok(())
    } else {
        Result::Err(Fault::Internal)
    }
}

impl Block {
    /// Lowers a block: a scope marker is pushed, every item is lowered in
    /// order, and on normal exit the local table is trimmed back to its size
    /// at entry and the marker removed, so block-local names become invisible
    /// again.  An early error skips the trimming.
    pub fn codegen(&self, context: &mut CodegenContext) -> (r: Result<(), Fault>)
        ensures
            unit_result_matches(
                s_lower_block(old(context).deep_view(), *self),
                final(context).deep_view(),
                r,
            ),
        decreases self,
    {
        context.push_scope();
        let stack_size = context.local.len();
        let ghost ctx1 = context.deep_view();
        proof {
            assert(self.items@.skip(0) =~= self.items@);
        }
        let mut i: usize = 0;
        while i < self.items.len()
            invariant
                i <= self.items.len(),
                ctx1 == (CtxV {
                    local: old(context).deep_view().local.push(SymbolV::Scope),
                    ..old(context).deep_view()
                }),
                stack_size == ctx1.local.len(),
                s_lower_items(ctx1, self.items@) == s_lower_items(
                    context.deep_view(),
                    self.items@.skip(i as int),
                ),
            decreases self.items.len() - i,
        {
            proof {
                assert(decreases_to!(*self => self.items));
                assert(decreases_to!(self.items => self.items@[i as int]));
            }
            let ghost pre = context.deep_view();
            let ghost rest = self.items@.skip(i as int);
            let ret = self.items[i].codegen(context);
            proof {
                assert(rest[0] == self.items@[i as int]);
                assert(rest.drop_first() =~= self.items@.skip(i + 1));
            }
            match ret {
                Result::Ok(_) => {},
                Result::Err(e) => {
                    proof {
                        assert(!(s_lower_item(pre, rest[0]) is Done));
                        assert(s_lower_items(pre, rest) == s_lower_item(pre, rest[0]));
                    }
                    return Result::Err(e);
                },
            }
            i = i + 1;
        }
        proof {
            assert(self.items@.skip(self.items.len() as int) =~= Seq::<BlockItem>::empty());
        }
        let ghost ctx2 = context.deep_view();
        proof {
            assert(s_lower_items(ctx1, self.items@) == LowerRes::<()>::Done(ctx2, ()));
        }
        while context.local.len() > stack_size
            invariant
                ctx1 == (CtxV {
                    local: old(context).deep_view().local.push(SymbolV::Scope),
                    ..old(context).deep_view()
                }),
                stack_size == ctx1.local.len(),
                s_lower_items(ctx1, self.items@) == LowerRes::<()>::Done(ctx2, ()),
                (CtxV { local: ctx2.local, ..context.deep_view() }) == ctx2,
                context.deep_view().local.len() <= ctx2.local.len(),
                ctx2.local.len() >= stack_size ==> context.deep_view().local.len() >= stack_size
                    && context.deep_view().local =~= ctx2.local.take(
                    context.deep_view().local.len() as int,
                ),
                ctx2.local.len() < stack_size ==> context.deep_view().local == ctx2.local,
            decreases context.deep_view().local.len(),
        {
            let ghost before = context.deep_view().local;
            let _ = context.local.pop();
            proof {
                assert(context.deep_view().local == before.drop_last());
                if ctx2.local.len() >= stack_size {
                    assert(before =~= ctx2.local.take(before.len() as int));
                    assert(before.len() <= ctx2.local.len());
                    assert(before.drop_last() =~= ctx2.local.take(before.len() - 1));
                }
            }
        }
        context.pop_scope();
        proof {
            assert(s_trim_to(ctx2.local, stack_size as nat) =~= (if ctx2.local.len()
                > stack_size as nat {
                ctx2.local.take(stack_size as int)
            } else {
                ctx2.local
            }));
            assert(context.deep_view() =~= CtxV {
                local: s_pop1(s_trim_to(ctx2.local, stack_size as nat)),
                ..ctx2
            });
        }
        Result::Ok(())
    }
}

impl BlockItem {
    pub fn codegen(&self, context: &mut CodegenContext) -> (r: Result<(), Fault>)
        ensures
            unit_result_matches(
                s_lower_item(old(context).deep_view(), *self),
                final(context).deep_view(),
                r,
            ),
        decreases self,
    {
        match self {
            BlockItem::Statement(statement) => statement.codegen(context),
            BlockItem::Declaration(decl) => decl.codegen(context),
        }
    }
}

impl Statement {
    /// Lowers a statement into the current function's body.  An expression
    /// statement appends a value-discarding line; an absent expression
    /// appends a no-op empty statement.
    pub fn codegen(&self, context: &mut CodegenContext) -> (r: Result<(), Fault>)
        ensures
            unit_result_matches(
                s_lower_stmt(old(context).deep_view(), *self),
                final(context).deep_view(),
                r,
            ),
        decreases self,
    {
        match self {
            Statement::Return(ret) => ret.codegen(context),
            Statement::Exp(exp) => {
                match exp {
                    Option::Some(exp) => {
                        let value = match exp.codegen(context) {
                            Result::Ok(v) => v,
                            Result::Err(e) => {
                                return Result::Err(e);
                            },
                        };
                        let item = CBlockItem::Exp(Option::Some(value));
                        proof {
                            lemma_item_view_exp(Option::Some(value));
                        }
                        push_to_current(context, item)
                    },
                    Option::None => {
                        let item = CBlockItem::Exp(Option::None);
                        proof {
                            lemma_item_view_exp(Option::None);
                        }
                        push_to_current(context, item)
                    },
                }
            },
        }
    }
}

impl Return {
    /// Lowers a `return`, with or without a value, into the current
    /// function's body.
    pub fn codegen(&self, context: &mut CodegenContext) -> (r: Result<(), Fault>)
        ensures
            unit_result_matches(
                s_lower_return(old(context).deep_view(), *self),
                final(context).deep_view(),
                r,
            ),
        decreases self,
    {
        match &self.value {
            Option::Some(value) => {
                let value = match value.codegen(context) {
                    Result::Ok(v) => v,
                    Result::Err(e) => {
                        return Result::Err(e);
                    },
                };
                let stmt = CStatement::Return(CReturn::new(Option::Some(value)));
                proof {
                    lemma_item_view_statement(stmt);
                }
                push_to_current(context, CBlockItem::Statement(stmt))
            },
            Option::None => {
                let stmt = CStatement::Return(CReturn::new(Option::None));
                proof {
                    lemma_item_view_statement(stmt);
                }
                push_to_current(context, CBlockItem::Statement(stmt))
            },
        }
    }
}

} // verus!

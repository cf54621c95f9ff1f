//! Lowering of whole compilation units and of source-level types.
use crate::ast::CompUnit;
use crate::ast::GlobalItem;
use crate::ast::Type;
use crate::ast::TypeEnum;
use crate::backend::CodegenContext;
use crate::backend::Fault;
use crate::backend::model::CtxV;
use crate::backend::model::LowerRes;
use crate::backend::model::s_lower_decl;
use crate::backend::model::s_lower_globals;
use crate::backend::model::s_lower_type;
use crate::backend::model::s_lower_unit;
use crate::backend::model::unit_result_matches;
use crate::cgen::types::CIntType;
use crate::cgen::types::CType;
use vstd::prelude::*;

verus! {

impl CompUnit {
    /// Lowers every top-level declaration in order.  A semantic error from
    /// one declaration is appended to the context's error list and lowering
    /// continues with the next; an internal fault aborts the compilation.
    pub fn codegen(&self, context: &mut CodegenContext) -> (r: Result<(), Fault>)
        ensures
            unit_result_matches(
                s_lower_unit(old(context).deep_view(), *self),
                final(context).deep_view(),
                r,
            ),
    {
        let ghost ctx0 = context.deep_view();
        proof {
            assert(self.global_items@.skip(0) =~= self.global_items@);
        }
        let mut i: usize = 0;
        while i < self.global_items.len()
            invariant
                i <= self.global_items.len(),
                ctx0 == old(context).deep_view(),
                s_lower_globals(ctx0, self.global_items@) == s_lower_globals(
                    context.deep_view(),
                    self.global_items@.skip(i as int),
                ),
            decreases self.global_items.len() - i,
        {
            let ghost pre = context.deep_view();
            let ghost rest = self.global_items@.skip(i as int);
            let decl = match &self.global_items[i] {
                GlobalItem::Decl(decl) => decl,
            };
            proof {
                assert(rest[0] == self.global_items@[i as int]);
                assert(*decl == rest[0]->Decl_0);
                assert(rest.drop_first() =~= self.global_items@.skip(i + 1));
            }
            let ret = decl.codegen(context);
            match ret {
                Result::Ok(_) => {},
                Result::Err(Fault::Semantic(e)) => {
                    context.errors.push(e);
                    proof {
                        let c = match s_lower_decl(pre, rest[0]->Decl_0) {
                            LowerRes::Failed(c, _) => c,
                            _ => pre,
                        };
                        assert(context.deep_view() =~= CtxV {
                            errors: c.errors.push(e.deep_view()),
                            ..c
                        });
                    }
                },
                Result::Err(Fault::Internal) => {
                    proof {
                        assert(s_lower_globals(pre, rest) is Aborted);
                    }
                    return Result::Err(Fault::Internal);
                },
            }
            i = i + 1;
        }
        proof {
            assert(self.global_items@.skip(self.global_items.len() as int)
                =~= Seq::<GlobalItem>::empty());
        }
        Result::Ok(())
    }
}

impl Type {
    /// Lowers a source-level type: each primitive maps to the integer type
    /// of matching width and signedness, or to `void`; the pointer depth is
    /// ignored.  Never fails.
    pub fn codegen(&self, _context: &CodegenContext) -> (r: Result<CType, Fault>)
        ensures
            r matches Result::Ok(t) && t.deep_view() == s_lower_type(*self),
    {
        match self.ty {
            TypeEnum::U64 => Result::Ok(CType::new_int(CIntType::new(64, false))),
            TypeEnum::U32 => Result::Ok(CType::new_int(CIntType::new(32, false))),
            TypeEnum::U16 => Result::Ok(CType::new_int(CIntType::new(16, false))),
            TypeEnum::U8 => Result::Ok(CType::new_int(CIntType::new(8, false))),
            TypeEnum::I64 => Result::Ok(CType::new_int(CIntType::new(64, true))),
            TypeEnum::I32 => Result::Ok(CType::new_int(CIntType::new(32, true))),
            TypeEnum::I16 => Result::Ok(CType::new_int(CIntType::new(16, true))),
            TypeEnum::I8 => Result::Ok(CType::new_int(CIntType::new(8, true))),
            TypeEnum::Void => Result::Ok(CType::new_void()),
        }
    }
}

} // verus!

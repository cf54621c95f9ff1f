//! Lowering of expressions.  Expressions only read the context: name
//! resolution consults the local table first, then the global one.
use crate::ast::Call;
use crate::ast::ConstExp;
use crate::ast::ConvertType;
use crate::ast::Exp;
use crate::ast::LVal;
use crate::backend::CodegenContext;
use crate::backend::Fault;
use crate::backend::error::CompileError;
use crate::backend::model::CtxV;
use crate::backend::model::ELower;
use crate::backend::model::exp_result_matches;
use crate::backend::model::s_lower_args;
use crate::backend::model::s_lower_call;
use crate::backend::model::s_lower_convert;
use crate::backend::model::s_lower_exp;
use crate::backend::model::s_lower_lval;
use crate::cgen::scope::Symbol;
use crate::cgen::values::BinOp;
use crate::cgen::values::CCall;
use crate::cgen::values::CConvertType;
use crate::cgen::values::Value;
use vstd::prelude::*;

verus! {

impl ConstExp {
    /// Lowers a compile-time expression; same as the expression itself.
    pub fn codegen(&self, context: &CodegenContext) -> (r: Result<Value, Fault>)
        ensures
            exp_result_matches(s_lower_exp(context.deep_view(), self.exp), r),
    {
        self.exp.codegen(context)
    }
}

impl Exp {
    /// Lowers an expression to a value.  A number becomes a 64-bit signed
    /// literal; a binary operation inherits the left operand's type; the
    /// shapes that lowering does not yet implement report an internal fault.
    pub fn codegen(&self, context: &CodegenContext) -> (r: Result<Value, Fault>)
        ensures
            exp_result_matches(s_lower_exp(context.deep_view(), *self), r),
        decreases self,
    {
        match self {
            Exp::Binary(lhs, op, rhs, _span) => {
                let lv = match lhs.codegen(context) {
                    Result::Ok(v) => v,
                    Result::Err(e) => {
                        return Result::Err(e);
                    },
                };
                let rv = match rhs.codegen(context) {
                    Result::Ok(v) => v,
                    Result::Err(e) => {
                        return Result::Err(e);
                    },
                };
                let r = Value::new_bin_op(BinOp::new(lv, rv, *op));
                proof {
                    assert(exp_result_matches(
                        s_lower_exp(context.deep_view(), *self),
                        Result::Ok(r),
                    ));
                }
                Result::Ok(r)
            },
            Exp::Number(number) => Result::Ok(Value::new_int(number.num, 64, true)),
            Exp::ConvertType(convert_type) => convert_type.codegen(context),
            Exp::LVal(lval) => lval.codegen(context),
            Exp::Call(call) => call.codegen(context),
            _ => Result::Err(Fault::Internal),
        }
    }
}

impl ConvertType {
    /// Lowers a cast: the inner expression and the target type, producing a
    /// type-converted value.
    pub fn codegen(&self, context: &CodegenContext) -> (r: Result<Value, Fault>)
        ensures
            exp_result_matches(s_lower_convert(context.deep_view(), *self), r),
        decreases self,
    {
        let value = match self.exp.codegen(context) {
            Result::Ok(v) => v,
            Result::Err(e) => {
                return Result::Err(e);
            },
        };
        let ty = match self.ty.codegen(context) {
            Result::Ok(t) => t,
            Result::Err(e) => {
                return Result::Err(e);
            },
        };
        let r = Value::new_convert_type(CConvertType::new(value, ty));
        proof {
            assert(exp_result_matches(
                s_lower_convert(context.deep_view(), *self),
                Result::Ok(r),
            ));
        }
        Result::Ok(r)
    }
}

impl Call {
    /// Lowers a call: callee first, then each argument left to right.  No
    /// arity or parameter-type checking is performed; a failing argument is
    /// an internal fault.
    pub fn codegen(&self, context: &CodegenContext) -> (r: Result<Value, Fault>)
        ensures
            exp_result_matches(s_lower_call(context.deep_view(), *self), r),
        decreases self,
    {
        let value = match self.exp.codegen(context) {
            Result::Ok(v) => v,
            Result::Err(e) => {
                return Result::Err(e);
            },
        };
        let ghost ctxv = context.deep_view();
        let mut args: Vec<Value> = Vec::new();
        let mut i: usize = 0;
        while i < self.args.len()
            invariant
                i <= self.args.len(),
                args@.len() == i,
                forall|k: int|
                    0 <= k < i ==> s_lower_exp(ctxv, self.args@[k]) == ELower::Done(
                        #[trigger] args@[k].deep_view(),
                    ),
                ctxv == context.deep_view(),
                s_lower_exp(ctxv, self.exp) == ELower::Done(value.deep_view()),
            decreases self.args.len() - i,
        {
            proof {
                assert(decreases_to!(*self => self.args));
                assert(decreases_to!(self.args => self.args@[i as int]));
            }
            match self.args[i].codegen(context) {
                Result::Ok(v) => {
                    args.push(v);
                },
                Result::Err(_) => {
                    proof {
                        assert forall|j: int| 0 <= j < i implies s_lower_exp(
                            ctxv,
                            #[trigger] self.args@[j],
                        ) is Done by {
                            assert(s_lower_exp(ctxv, self.args@[j]) == ELower::Done(
                                args@[j].deep_view(),
                            ));
                        }
                        lemma_args_fail_at(ctxv, self.args@, i as int);
                    }
                    return Result::Err(Fault::Internal);
                },
            }
            i = i + 1;
        }
        proof {
            lemma_args_all_done(ctxv, self.args@, args.deep_view());
        }
        let r = Value::new_call(CCall::new(value, args));
        proof {
            assert(exp_result_matches(s_lower_call(ctxv, *self), Result::Ok(r)));
        }
        Result::Ok(r)
    }
}

impl LVal {
    /// Resolves a name reference: the first segment is looked up in the
    /// local table, then the global one; a miss in both is a
    /// `SymbolNotFound` error at this reference's span.
    pub fn codegen(&self, context: &CodegenContext) -> (r: Result<Value, Fault>)
        ensures
            exp_result_matches(s_lower_lval(context.deep_view(), *self), r),
    {
        if self.ids.len() == 0 {
            return Result::Err(Fault::Internal);
        }
        let id = &self.ids[0];
        match context.local.get(id.as_str()) {
            Option::Some(symbol) => match symbol {
                Symbol::Const(_, value) => Result::Ok(value.dup()),
                Symbol::Var(_, value) => Result::Ok(value.dup()),
                Symbol::Scope => Result::Err(Fault::Internal),
            },
            Option::None => match context.global.get(id.as_str()) {
                Option::Some(symbol) => match symbol {
                    Symbol::Const(_, value) => Result::Ok(value.dup()),
                    Symbol::Var(_, value) => Result::Ok(value.dup()),
                    Symbol::Scope => Result::Err(Fault::Internal),
                },
                Option::None => Result::Err(
                    Fault::Semantic(
                        CompileError::new_symbol_not_found(self.span.dup(), id.clone()),
                    ),
                ),
            },
        }
    }
}

/// If every argument up to `k` lowers and argument `k` does not, the whole
/// argument list fails.
pub proof fn lemma_args_fail_at(ctx: CtxV, es: Seq<Exp>, k: int)
    requires
        0 <= k < es.len(),
        !(s_lower_exp(ctx, es[k]) is Done),
        forall|j: int| 0 <= j < k ==> s_lower_exp(ctx, #[trigger] es[j]) is Done,
    ensures
        s_lower_args(ctx, es) is None,
    decreases es.len(),
{
    if k > 0 {
        lemma_args_fail_at(ctx, es.drop_first(), k - 1);
        assert forall|j: int| 0 <= j < k - 1 implies s_lower_exp(
            ctx,
            #[trigger] es.drop_first()[j],
        ) is Done by {
            assert(es.drop_first()[j] == es[j + 1]);
        }
        assert(es.drop_first()[k - 1] == es[k]);
    }
}

/// If every argument lowers to the matching value, the whole argument list
/// lowers to that value list.
pub proof fn lemma_args_all_done(ctx: CtxV, es: Seq<Exp>, vs: Seq<crate::cgen::values::ValueV>)
    requires
        vs.len() == es.len(),
        forall|k: int|
            0 <= k < es.len() ==> s_lower_exp(ctx, es[k]) == ELower::Done(#[trigger] vs[k]),
    ensures
        s_lower_args(ctx, es) == Option::Some(vs),
    decreases es.len(),
{
    if es.len() == 0 {
        assert(vs =~= Seq::<crate::cgen::values::ValueV>::empty());
    } else {
        lemma_args_all_done(ctx, es.drop_first(), vs.drop_first());
        assert(s_lower_exp(ctx, es[0]) == ELower::Done(vs[0]));
        assert(seq![vs[0]] + vs.drop_first() =~= vs);
    }
}

} // verus!

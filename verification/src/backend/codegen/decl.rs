//! Lowering of declarations: variables, constants, function literals and
//! foreign function declarations.
use crate::ast::ConstDecl;
use crate::ast::ConstInitialValue;
use crate::ast::ConstInitialValueEnum;
use crate::ast::Decl;
use crate::ast::ExternFunctionDef;
use crate::ast::FunctionDef;
use crate::ast::VarDecl;
use crate::backend::CodegenContext;
use crate::backend::Fault;
use crate::backend::mangle::mangled_function_name;
use crate::backend::model::CtxV;
use crate::backend::model::s_lower_const_decl;
use crate::backend::model::s_lower_const_init;
use crate::backend::model::s_lower_decl;
use crate::backend::model::s_lower_foreign_fn;
use crate::backend::model::s_lower_function_def;
use crate::backend::model::s_lower_params;
use crate::backend::model::s_lower_param_types;
use crate::backend::model::s_lower_var_decl;
use crate::backend::model::s_push_item;
use crate::backend::model::unit_result_matches;
use crate::backend::model::value_result_matches;
use crate::cgen::CDeclaration;
use crate::cgen::func::CBlockItem;
use crate::cgen::func::CFunction;
use crate::cgen::func::lemma_decl_view_variable;
use crate::cgen::func::lemma_item_view_decl;
use crate::cgen::scope::Symbol;
use crate::cgen::types::CType;
use crate::cgen::values::CConvertType;
use crate::cgen::values::CGetAddr;
use crate::cgen::values::CIdentifier;
use crate::cgen::values::Value;
use vstd::prelude::*;

verus! {

impl Decl {
    pub fn codegen(&self, context: &mut CodegenContext) -> (r: Result<(), Fault>)
        ensures
            unit_result_matches(
                s_lower_decl(old(context).deep_view(), *self),
                final(context).deep_view(),
                r,
            ),
        decreases self,
    {
        match self {
            Decl::VarDecl(var_decl) => var_decl.codegen(context),
            Decl::ConstDecl(const_decl) => const_decl.codegen(context),
            Decl::ExternFunctionDef(extern_function_def) => extern_function_def.codegen(context),
        }
    }
}

impl VarDecl {
    /// Lowers a `var` declaration.  Inside a function the definition goes
    /// into the function's body and the name into the local table; at top
    /// level into the program and the global table.
    pub fn codegen(&self, context: &mut CodegenContext) -> (r: Result<(), Fault>)
        ensures
            unit_result_matches(
                s_lower_var_decl(old(context).deep_view(), *self),
                final(context).deep_view(),
                r,
            ),
        decreases self,
    {
        let value = match self.initial_value.codegen(context) {
            Result::Ok(v) => v,
            Result::Err(e) => {
                return Result::Err(e);
            },
        };
        let type_ = match self.var_type.codegen(context) {
            Result::Ok(t) => t,
            Result::Err(e) => {
                return Result::Err(e);
            },
        };
        let var_decl = CDeclaration::VariableDef(
            crate::cgen::decl::CVariable::new(self.name.clone(), value, type_.dup()),
        );
        proof {
            lemma_decl_view_variable(var_decl->VariableDef_0);
        }
        let var_id = Value::new_identifier(CIdentifier::new(self.name.clone(), type_));
        let in_function = match &context.current_function {
            Option::Some(_) => true,
            Option::None => false,
        };
        if in_function {
            let name = match &context.current_function {
                Option::Some(f) => f.get_name(),
                Option::None => {
                    return Result::Err(Fault::Internal);
                },
            };
            proof {
                lemma_item_view_decl(var_decl);
            }
            let pushed = context.c_program.push_to_function(
                &name,
                CBlockItem::Decl(var_decl),
            );
            if !pushed {
                return Result::Err(Fault::Internal);
            }
            context.local.push(Symbol::Var(self.name.clone(), var_id));
            proof {
                let m = s_lower_var_decl(old(context).deep_view(), *self);
                assert(m is Done);
                assert(context.deep_view() =~= m->Done_0);
            }
            Result::Ok(())
        } else {
            context.c_program.insert_decl(var_decl);
            context.global.push(Symbol::Var(self.name.clone(), var_id));
            proof {
                let m = s_lower_var_decl(old(context).deep_view(), *self);
                assert(m is Done);
                assert(context.deep_view() =~= m->Done_0);
            }
            Result::Ok(())
        }
    }
}

impl ConstDecl {
    /// Lowers a `const` declaration.  A value of const-qualified type is
    /// emitted as a plain variable (carrying function-typed constants through
    /// C's function-pointer syntax), any other as a real C `const`; the name
    /// is bound in whichever table is active.
    pub fn codegen(&self, context: &mut CodegenContext) -> (r: Result<(), Fault>)
        ensures
            unit_result_matches(
                s_lower_const_decl(old(context).deep_view(), *self),
                final(context).deep_view(),
                r,
            ),
        decreases self,
    {
        let value = match self.initial_value.codegen(context) {
            Result::Ok(v) => v,
            Result::Err(e) => {
                return Result::Err(e);
            },
        };
        let ty = value.get_type();
        if ty.is_const() {
            context.c_program.insert_variable(
                crate::cgen::decl::CVariable::new(self.name.clone(), value.dup(), ty.dup()),
            );
        } else {
            context.c_program.insert_const(
                crate::cgen::decl::CConst::new(self.name.clone(), value.dup()),
            );
        }
        let symbol_value = Value::new_identifier(CIdentifier::new(self.name.clone(), ty));
        if context.local.len() != 0 {
            context.local.push(Symbol::Const(self.name.clone(), symbol_value));
        } else {
            context.global.push(Symbol::Const(self.name.clone(), symbol_value));
        }
        proof {
            let m = s_lower_const_decl(old(context).deep_view(), *self);
            assert(m is Done);
            assert(context.deep_view() =~= m->Done_0);
        }
        Result::Ok(())
    }
}

impl ConstInitialValue {
    /// Lowers a `const` initializer: a compile-time expression or a function
    /// literal.
    pub fn codegen(&self, context: &mut CodegenContext) -> (r: Result<Value, Fault>)
        ensures
            value_result_matches(
                s_lower_const_init(old(context).deep_view(), *self),
                final(context).deep_view(),
                r,
            ),
        decreases self,
    {
        match &self.value {
            ConstInitialValueEnum::Exp(exp) => exp.codegen(context),
            ConstInitialValueEnum::Function(func) => func.codegen(context),
        }
    }
}

impl FunctionDef {
    /// Lowers a function literal: derives its type, generates a unique
    /// static name from the monotonic counter, registers the function,
    /// lowers its block as the current function, and yields the converted
    /// address of the new symbol as the literal's value.
    pub fn codegen(&self, context: &mut CodegenContext) -> (r: Result<Value, Fault>)
        ensures
            value_result_matches(
                s_lower_function_def(old(context).deep_view(), *self),
                final(context).deep_view(),
                r,
            ),
        decreases self,
    {
        let ret = match self.return_type.codegen(context) {
            Result::Ok(t) => t,
            Result::Err(e) => {
                return Result::Err(e);
            },
        };
        let empty_params: Vec<CType> = Vec::new();
        proof {
            assert(empty_params.deep_view() =~= Seq::<crate::cgen::types::CTypeV>::empty());
        }
        let func_type = match ret.function_type(empty_params, self.span.dup()) {
            Result::Ok(t) => t,
            Result::Err(ce) => {
                return Result::Err(Fault::Semantic(ce));
            },
        };
        let mut params: Vec<(CType, String)> = Vec::new();
        let mut i: usize = 0;
        while i < self.params.len()
            invariant
                i <= self.params.len(),
                params@.len() == i,
                forall|k: int|
                    0 <= k < i ==> #[trigger] params@[k].deep_view() == (
                        crate::backend::model::s_lower_type(self.params@[k].param_type),
                        self.params@[k].name@,
                    ),
            decreases self.params.len() - i,
        {
            let pt = match self.params[i].param_type.codegen(context) {
                Result::Ok(t) => t,
                Result::Err(e) => {
                    return Result::Err(e);
                },
            };
            params.push((pt, self.params[i].name.clone()));
            i = i + 1;
        }
        proof {
            assert(params.deep_view() =~= s_lower_params(self.params@));
        }
        if context.func_id == usize::MAX {
            return Result::Err(Fault::Internal);
        }
        let id = context.new_func_id();
        let name = mangled_function_name(id);
        context.c_program.insert_function(
            CFunction::new(name.clone(), ret, true, false, params),
        );
        let function = CIdentifier::new(name, func_type.dup());
        let addr = CGetAddr::new(Value::new_identifier(function.dup()));
        let convert = CConvertType::new(Value::new_get_addr(addr), CType::new_const(func_type));
        context.current_function = Option::Some(function);
        let ghost registered = context.deep_view();
        proof {
            let m = s_lower_function_def(old(context).deep_view(), *self);
            assert(registered =~= (match m {
                crate::backend::model::LowerRes::Done(_, _) => registered,
                _ => registered,
            }));
        }
        match self.block.codegen(context) {
            Result::Ok(_) => {},
            Result::Err(e) => {
                return Result::Err(e);
            },
        }
        context.current_function = Option::None;
        let result = Value::new_convert_type(convert);
        proof {
            let m = s_lower_function_def(old(context).deep_view(), *self);
            assert(m is Done);
            assert(context.deep_view() =~= m->Done_0);
            assert(result.deep_view() =~= m->Done_1);
        }
        Result::Ok(result)
    }
}

impl ExternFunctionDef {
    /// Lowers a foreign function declaration: derives the full function
    /// type, registers a non-static prototype, and binds the name globally
    /// to the converted address of the function, so it can be used as a
    /// first-class constant.
    pub fn codegen(&self, context: &mut CodegenContext) -> (r: Result<(), Fault>)
        ensures
            unit_result_matches(
                s_lower_foreign_fn(old(context).deep_view(), *self),
                final(context).deep_view(),
                r,
            ),
        decreases self,
    {
        let ret = match self.return_type.codegen(context) {
            Result::Ok(t) => t,
            Result::Err(e) => {
                return Result::Err(e);
            },
        };
        let mut param_types: Vec<CType> = Vec::new();
        let mut params: Vec<(CType, String)> = Vec::new();
        let mut i: usize = 0;
        while i < self.params.len()
            invariant
                i <= self.params.len(),
                param_types@.len() == i,
                params@.len() == i,
                forall|k: int|
                    0 <= k < i ==> #[trigger] param_types@[k].deep_view()
                        == crate::backend::model::s_lower_type(self.params@[k].param_type),
                forall|k: int|
                    0 <= k < i ==> #[trigger] params@[k].deep_view() == (
                        crate::backend::model::s_lower_type(self.params@[k].param_type),
                        self.params@[k].name@,
                    ),
            decreases self.params.len() - i,
        {
            let pt = match self.params[i].param_type.codegen(context) {
                Result::Ok(t) => t,
                Result::Err(e) => {
                    return Result::Err(e);
                },
            };
            params.push((pt.dup(), self.params[i].name.clone()));
            param_types.push(pt);
            i = i + 1;
        }
        proof {
            assert(params.deep_view() =~= s_lower_params(self.params@));
            assert(param_types.deep_view() =~= s_lower_param_types(self.params@));
        }
        let func_type = match ret.function_type(param_types, self.span.dup()) {
            Result::Ok(t) => t,
            Result::Err(ce) => {
                return Result::Err(Fault::Semantic(ce));
            },
        };
        context.c_program.insert_function(
            CFunction::new(self.name.clone(), ret, false, true, params),
        );
        let function = CIdentifier::new(self.name.clone(), func_type.dup());
        let addr = CGetAddr::new(Value::new_identifier(function));
        let convert = CConvertType::new(Value::new_get_addr(addr), CType::new_const(func_type));
        context.global.push(
            Symbol::Const(self.name.clone(), Value::new_convert_type(convert)),
        );
        proof {
            let m = s_lower_foreign_fn(old(context).deep_view(), *self);
            assert(m is Done);
            assert(context.deep_view() =~= m->Done_0);
        }
        Result::Ok(())
    }
}

} // verus!

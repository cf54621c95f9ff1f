//! The mathematical model of lowering: spec functions that define, over the
//! views of the context and of the intermediate representation, exactly what
//! each `codegen` method computes, which semantic errors it reports, and on
//! which inputs it would hit an internal abort (an unimplemented shape, a
//! missing current function, or a counter overflow).  The executable lowering
//! code is verified against this model clause for clause.
use crate::ast::Block;
use crate::ast::BlockItem;
use crate::ast::CompUnit;
use crate::ast::ConstDecl;
use crate::ast::ConstInitialValue;
use crate::ast::ConstInitialValueEnum;
use crate::ast::Decl;
use crate::ast::Exp;
use crate::ast::ExternFunctionDef;
use crate::ast::FunctionDef;
use crate::ast::GlobalItem;
use crate::ast::LVal;
use crate::ast::Param;
use crate::ast::Return;
use crate::ast::Statement;
use crate::ast::Type;
use crate::ast::VarDecl;
use crate::ast::TypeEnum;
use crate::backend::error::CompileErrorEnumV;
use crate::backend::error::CompileErrorV;
use crate::backend::mangle::mangled_name;
use crate::cgen::CDeclarationV;
use crate::cgen::CProgramV;
use crate::cgen::find_function;
use crate::cgen::func::CBlockItemV;
use crate::cgen::func::CFunctionV;
use crate::cgen::func::CStatementV;
use crate::cgen::decl::CConstV;
use crate::cgen::decl::CVariableV;
use crate::cgen::scope::SymbolV;
use crate::cgen::scope::table_lookup;
use crate::cgen::types::CIntTypeV;
use crate::cgen::types::CTypeV;
use crate::cgen::types::ctype_function_type;
use crate::cgen::types::ctype_name_text;
use crate::cgen::values::BinOpV;
use crate::cgen::values::CCallV;
use crate::cgen::values::CConvertTypeV;
use crate::cgen::values::CIdentifierV;
use crate::cgen::values::ValueEnumV;
use crate::cgen::values::ValueV;
use vstd::prelude::*;

verus! {

/// The view of the shared compilation context.
#[verifier::ext_equal]
pub struct CtxV {
    pub c_program: CProgramV,
    pub current_function: Option<CIdentifierV>,
    pub local: Seq<SymbolV>,
    pub global: Seq<SymbolV>,
    pub func_id: nat,
    pub errors: Seq<CompileErrorV>,
}

/// The outcome of lowering an expression, which never changes the context:
/// a value, a semantic error, or an internal abort.
#[verifier::ext_equal]
pub enum ELower {
    Done(ValueV),
    Failed(CompileErrorV),
    Aborted,
}

/// The outcome of lowering a node that may change the context.  A failure
/// carries the context as mutated up to the failure point: lowering returns
/// early and does not undo partial work.
#[verifier::ext_equal]
pub enum LowerRes<T> {
    Done(CtxV, T),
    Failed(CtxV, CompileErrorV),
    Aborted,
}

/// The C type of a source-level type: a 1:1 map of each primitive to an
/// integer type of matching width, or `void`.  The pointer depth is ignored.
pub open spec fn s_lower_type(t: Type) -> CTypeV {
    match t.ty {
        TypeEnum::U64 => CTypeV::Int(CIntTypeV { bit_width: 64, signed: false }),
        TypeEnum::U32 => CTypeV::Int(CIntTypeV { bit_width: 32, signed: false }),
        TypeEnum::U16 => CTypeV::Int(CIntTypeV { bit_width: 16, signed: false }),
        TypeEnum::U8 => CTypeV::Int(CIntTypeV { bit_width: 8, signed: false }),
        TypeEnum::I64 => CTypeV::Int(CIntTypeV { bit_width: 64, signed: true }),
        TypeEnum::I32 => CTypeV::Int(CIntTypeV { bit_width: 32, signed: true }),
        TypeEnum::I16 => CTypeV::Int(CIntTypeV { bit_width: 16, signed: true }),
        TypeEnum::I8 => CTypeV::Int(CIntTypeV { bit_width: 8, signed: true }),
        TypeEnum::Void => CTypeV::Void,
    }
}

/// Resolution of a single-name reference: the local table wins over the
/// global one; a miss in both is a `SymbolNotFound` error at the reference's
/// span.  An empty name list or a marker hit is an internal abort.
pub open spec fn s_lower_lval(ctx: CtxV, l: LVal) -> ELower {
    if l.ids@.len() == 0 {
        ELower::Aborted
    } else {
        let name = l.ids@[0]@;
        match table_lookup(ctx.local, name) {
            Option::Some(SymbolV::Const(_, v)) => ELower::Done(v),
            Option::Some(SymbolV::Var(_, v)) => ELower::Done(v),
            Option::Some(SymbolV::Scope) => ELower::Aborted,
            Option::None => match table_lookup(ctx.global, name) {
                Option::Some(SymbolV::Const(_, v)) => ELower::Done(v),
                Option::Some(SymbolV::Var(_, v)) => ELower::Done(v),
                Option::Some(SymbolV::Scope) => ELower::Aborted,
                Option::None => ELower::Failed(
                    CompileErrorV {
                        span: l.span.deep_view(),
                        error: CompileErrorEnumV::SymbolNotFound(name),
                    },
                ),
            },
        }
    }
}

/// Lowering of an expression.  A number becomes a 64-bit signed literal; a
/// binary operation inherits the left operand's type; a cast takes the target
/// type; a call's callee and arguments are lowered left to right, a failing
/// argument being an internal abort; the unimplemented shapes abort.
pub open spec fn s_lower_exp(ctx: CtxV, e: Exp) -> ELower
    decreases e,
{
    match e {
        Exp::Binary(lhs, op, rhs, _) => match s_lower_exp(ctx, *lhs) {
            ELower::Done(lv) => match s_lower_exp(ctx, *rhs) {
                ELower::Done(rv) => ELower::Done(
                    ValueV {
                        value: ValueEnumV::BinOp(
                            BinOpV { lhs: Box::new(lv), rhs: Box::new(rv), op },
                        ),
                        type_: lv.type_,
                    },
                ),
                other => other,
            },
            other => other,
        },
        Exp::Number(n) => ELower::Done(
            ValueV {
                value: ValueEnumV::Int(n.num),
                type_: CTypeV::Int(CIntTypeV { bit_width: 64, signed: true }),
            },
        ),
        Exp::ConvertType(c) => s_lower_convert(ctx, *c),
        Exp::LVal(l) => s_lower_lval(ctx, *l),
        Exp::Call(c) => s_lower_call(ctx, *c),
        _ => ELower::Aborted,
    }
}

/// Lowering of a cast: the inner expression is lowered and wrapped in a
/// conversion to the lowered target type.
pub open spec fn s_lower_convert(ctx: CtxV, c: crate::ast::ConvertType) -> ELower
    decreases c,
{
    match s_lower_exp(ctx, c.exp) {
        ELower::Done(v) => ELower::Done(
            ValueV {
                value: ValueEnumV::ConvertType(
                    CConvertTypeV { value: Box::new(v), type_: s_lower_type(c.ty) },
                ),
                type_: s_lower_type(c.ty),
            },
        ),
        other => other,
    }
}

/// Lowering of a call: the callee, then each argument left to right; a
/// failing argument is an internal abort.  The call value's derived type is
/// `void`.
pub open spec fn s_lower_call(ctx: CtxV, c: crate::ast::Call) -> ELower
    decreases c,
{
    match s_lower_exp(ctx, c.exp) {
        ELower::Done(f) => match s_lower_args(ctx, c.args@) {
            Option::Some(args) => ELower::Done(
                ValueV {
                    value: ValueEnumV::Call(CCallV { value: Box::new(f), args }),
                    type_: CTypeV::Void,
                },
            ),
            Option::None => ELower::Aborted,
        },
        other => other,
    }
}

/// The lowered argument values, in order; `None` as soon as one argument
/// fails (the caller treats that as an internal abort).
pub open spec fn s_lower_args(ctx: CtxV, es: Seq<Exp>) -> Option<Seq<ValueV>>
    decreases es,
{
    if es.len() == 0 {
        Option::Some(Seq::empty())
    } else {
        match s_lower_exp(ctx, es[0]) {
            ELower::Done(v) => match s_lower_args(ctx, es.drop_first()) {
                Option::Some(rest) => Option::Some(seq![v] + rest),
                Option::None => Option::None,
            },
            _ => Option::None,
        }
    }
}

/// The program after appending `item` to the current function's body, or
/// `None` when there is no current function or its definition cannot be
/// found: those are internal aborts.
pub open spec fn s_push_item(ctx: CtxV, item: CBlockItemV) -> Option<CProgramV> {
    match ctx.current_function {
        Option::None => Option::None,
        Option::Some(f) => match find_function(ctx.c_program.items, f.name) {
            Option::Some(i) => Option::Some(
                CProgramV {
                    items: ctx.c_program.items.update(
                        i,
                        CDeclarationV::FunctionDef(
                            CFunctionV {
                                body: ctx.c_program.items[i]->FunctionDef_0.body.push(item),
                                ..ctx.c_program.items[i]->FunctionDef_0
                            },
                        ),
                    ),
                },
            ),
            Option::None => Option::None,
        },
    }
}

/// Lowering of a statement.  A `return` appends a return statement (with the
/// lowered value if present) to the current function; an expression statement
/// appends a value-discarding line, and an absent expression appends a no-op
/// empty statement.
pub open spec fn s_lower_stmt(ctx: CtxV, st: Statement) -> LowerRes<()>
    decreases st,
{
    match st {
        Statement::Return(r) => s_lower_return(ctx, r),
        Statement::Exp(oe) => match oe {
            Option::Some(e) => match s_lower_exp(ctx, e) {
                ELower::Done(v) => match s_push_item(ctx, CBlockItemV::Exp(Option::Some(v))) {
                    Option::Some(p) => LowerRes::Done(CtxV { c_program: p, ..ctx }, ()),
                    Option::None => LowerRes::Aborted,
                },
                ELower::Failed(err) => LowerRes::Failed(ctx, err),
                ELower::Aborted => LowerRes::Aborted,
            },
            Option::None => match s_push_item(ctx, CBlockItemV::Exp(Option::None)) {
                Option::Some(p) => LowerRes::Done(CtxV { c_program: p, ..ctx }, ()),
                Option::None => LowerRes::Aborted,
            },
        },
    }
}

/// Lowering of a `return` statement: the optional value is lowered and a
/// return statement appended to the current function's body.
pub open spec fn s_lower_return(ctx: CtxV, r: Return) -> LowerRes<()>
    decreases r,
{
    match r.value {
        Option::Some(e) => match s_lower_exp(ctx, e) {
            ELower::Done(v) => match s_push_item(
                ctx,
                CBlockItemV::Statement(CStatementV::Return(Option::Some(v))),
            ) {
                Option::Some(p) => LowerRes::Done(CtxV { c_program: p, ..ctx }, ()),
                Option::None => LowerRes::Aborted,
            },
            ELower::Failed(err) => LowerRes::Failed(ctx, err),
            ELower::Aborted => LowerRes::Aborted,
        },
        Option::None => match s_push_item(
            ctx,
            CBlockItemV::Statement(CStatementV::Return(Option::None)),
        ) {
            Option::Some(p) => LowerRes::Done(CtxV { c_program: p, ..ctx }, ()),
            Option::None => LowerRes::Aborted,
        },
    }
}

/// The local table popped down to `n` entries, as block exit does.
pub open spec fn s_trim_to(t: Seq<SymbolV>, n: nat) -> Seq<SymbolV> {
    if t.len() > n {
        t.take(n as int)
    } else {
        t
    }
}

/// One unconditional pop, as `pop_scope` does; no effect on an empty table.
pub open spec fn s_pop1(t: Seq<SymbolV>) -> Seq<SymbolV> {
    if t.len() > 0 {
        t.drop_last()
    } else {
        t
    }
}

/// Lowering of a block: push a scope marker, lower every item in order,
/// trim the local table back to its size at entry, then pop the marker.  On
/// a semantic error the early return skips the trimming.
pub open spec fn s_lower_block(ctx: CtxV, b: Block) -> LowerRes<()>
    decreases b,
{
    let ctx1 = CtxV { local: ctx.local.push(SymbolV::Scope), ..ctx };
    let stack_size = ctx1.local.len();
    match s_lower_items(ctx1, b.items@) {
        LowerRes::Done(ctx2, _) => LowerRes::Done(
            CtxV { local: s_pop1(s_trim_to(ctx2.local, stack_size)), ..ctx2 },
            (),
        ),
        other => other,
    }
}

/// Lowering of the items of a block, in order, stopping at the first error.
pub open spec fn s_lower_items(ctx: CtxV, items: Seq<BlockItem>) -> LowerRes<()>
    decreases items,
{
    if items.len() == 0 {
        LowerRes::Done(ctx, ())
    } else {
        match s_lower_item(ctx, items[0]) {
            LowerRes::Done(c, _) => s_lower_items(c, items.drop_first()),
            other => other,
        }
    }
}

pub open spec fn s_lower_item(ctx: CtxV, item: BlockItem) -> LowerRes<()>
    decreases item,
{
    match item {
        BlockItem::Statement(st) => s_lower_stmt(ctx, st),
        BlockItem::Declaration(d) => s_lower_decl(ctx, d),
    }
}

/// Lowering of a declaration.
pub open spec fn s_lower_decl(ctx: CtxV, d: Decl) -> LowerRes<()>
    decreases d,
{
    match d {
        Decl::VarDecl(v) => s_lower_var_decl(ctx, v),
        Decl::ConstDecl(c) => s_lower_const_decl(ctx, c),
        Decl::ExternFunctionDef(e) => s_lower_foreign_fn(ctx, e),
    }
}

/// Lowering of a `var` declaration: the initializer and the declared type
/// are lowered; inside a function the definition goes into the function body
/// and the name into the local table, at top level into the program and the
/// global table.
pub open spec fn s_lower_var_decl(ctx: CtxV, v: VarDecl) -> LowerRes<()>
    decreases v,
{
    match s_lower_exp(ctx, v.initial_value) {
        ELower::Done(value) => {
            let ty = s_lower_type(v.var_type);
            let var_decl = CDeclarationV::VariableDef(
                CVariableV { name: v.name@, value, type_: ty },
            );
            let var_id = ValueV {
                value: ValueEnumV::Identifier(CIdentifierV { name: v.name@, type_: ty }),
                type_: ty,
            };
            match ctx.current_function {
                Option::Some(_) => match s_push_item(ctx, CBlockItemV::Decl(Box::new(var_decl))) {
                    Option::Some(p) => LowerRes::Done(
                        CtxV {
                            c_program: p,
                            local: ctx.local.push(SymbolV::Var(v.name@, var_id)),
                            ..ctx
                        },
                        (),
                    ),
                    Option::None => LowerRes::Aborted,
                },
                Option::None => LowerRes::Done(
                    CtxV {
                        c_program: CProgramV { items: ctx.c_program.items.push(var_decl) },
                        global: ctx.global.push(SymbolV::Var(v.name@, var_id)),
                        ..ctx
                    },
                    (),
                ),
            }
        },
        ELower::Failed(err) => LowerRes::Failed(ctx, err),
        ELower::Aborted => LowerRes::Aborted,
    }
}

/// Lowering of a `const` declaration: the initializer is lowered; a value of
/// const-qualified type is emitted as a plain variable (this carries
/// function-typed constants through C's function-pointer syntax), any other
/// as a real C `const`; the name is bound in whichever table is active.
pub open spec fn s_lower_const_decl(ctx: CtxV, c: ConstDecl) -> LowerRes<()>
    decreases c,
{
    match s_lower_const_init(ctx, c.initial_value) {
        LowerRes::Done(ctx1, value) => {
            let prog = if value.type_ is Const {
                CProgramV {
                    items: ctx1.c_program.items.push(
                        CDeclarationV::VariableDef(
                            CVariableV { name: c.name@, value, type_: value.type_ },
                        ),
                    ),
                }
            } else {
                CProgramV {
                    items: ctx1.c_program.items.push(
                        CDeclarationV::ConstDef(CConstV { name: c.name@, value }),
                    ),
                }
            };
            let sym = SymbolV::Const(
                c.name@,
                ValueV {
                    value: ValueEnumV::Identifier(
                        CIdentifierV { name: c.name@, type_: value.type_ },
                    ),
                    type_: value.type_,
                },
            );
            if ctx1.local.len() != 0 {
                LowerRes::Done(
                    CtxV { c_program: prog, local: ctx1.local.push(sym), ..ctx1 },
                    (),
                )
            } else {
                LowerRes::Done(
                    CtxV { c_program: prog, global: ctx1.global.push(sym), ..ctx1 },
                    (),
                )
            }
        },
        LowerRes::Failed(c, e) => LowerRes::Failed(c, e),
        LowerRes::Aborted => LowerRes::Aborted,
    }
}

/// Lowering of a `const` initializer: a compile-time expression or a
/// function literal.
pub open spec fn s_lower_const_init(ctx: CtxV, civ: ConstInitialValue) -> LowerRes<ValueV>
    decreases civ,
{
    match civ.value {
        ConstInitialValueEnum::Exp(ce) => match s_lower_exp(ctx, ce.exp) {
            ELower::Done(v) => LowerRes::Done(ctx, v),
            ELower::Failed(err) => LowerRes::Failed(ctx, err),
            ELower::Aborted => LowerRes::Aborted,
        },
        ConstInitialValueEnum::Function(f) => s_lower_function_def(ctx, f),
    }
}

/// The lowered `(type, name)` parameter pairs of a parameter list.
pub open spec fn s_lower_params(ps: Seq<Param>) -> Seq<(CTypeV, Seq<char>)> {
    Seq::new(ps.len(), |i: int| (s_lower_type(ps[i].param_type), ps[i].name@))
}

/// The lowered parameter types alone.
pub open spec fn s_lower_param_types(ps: Seq<Param>) -> Seq<CTypeV> {
    Seq::new(ps.len(), |i: int| s_lower_type(ps[i].param_type))
}

/// The first-class value bound for a function: a type-converted address-of
/// the function identifier, const-qualified so constants of function type
/// are uniform between literals and foreign functions.
pub open spec fn s_function_value(name: Seq<char>, func_type: CTypeV) -> ValueV {
    let ident = ValueV {
        value: ValueEnumV::Identifier(CIdentifierV { name, type_: func_type }),
        type_: func_type,
    };
    let addr = ValueV { value: ValueEnumV::GetAddr(Box::new(ident)), type_: CTypeV::Type };
    ValueV {
        value: ValueEnumV::ConvertType(
            CConvertTypeV {
                value: Box::new(addr),
                type_: CTypeV::Const(Box::new(func_type)),
            },
        ),
        type_: CTypeV::Const(Box::new(func_type)),
    }
}

/// Lowering of a function literal: its type is derived (with an empty
/// parameter list) from the return type, a unique static name is generated
/// from the monotonic counter, the function is registered, its block is
/// lowered with it as the current function, and the result value is the
/// converted address of the new symbol.  A counter at the machine limit is
/// an internal abort.  An early error from the block leaves the current
/// function set, exactly as the early return does.
pub open spec fn s_lower_function_def(ctx: CtxV, f: FunctionDef) -> LowerRes<ValueV>
    decreases f,
{
    let ret = s_lower_type(f.return_type);
    match ctype_function_type(ret, Seq::empty()) {
        Option::None => LowerRes::Failed(
            ctx,
            CompileErrorV {
                span: f.span.deep_view(),
                error: CompileErrorEnumV::NonComptimeValue(ctype_name_text(ret)),
            },
        ),
        Option::Some(func_type) => {
            if ctx.func_id == usize::MAX as nat {
                LowerRes::Aborted
            } else {
                let id = ctx.func_id;
                let name = mangled_name(id);
                let function = CIdentifierV { name, type_: func_type };
                let registered = CtxV {
                    c_program: CProgramV {
                        items: ctx.c_program.items.push(
                            CDeclarationV::FunctionDef(
                                CFunctionV {
                                    name,
                                    return_type: ret,
                                    is_static: true,
                                    is_foreign: false,
                                    body: Seq::empty(),
                                    params: s_lower_params(f.params@),
                                },
                            ),
                        ),
                    },
                    current_function: Option::Some(function),
                    func_id: id + 1,
                    ..ctx
                };
                match s_lower_block(registered, f.block) {
                    LowerRes::Done(ctx2, _) => LowerRes::Done(
                        CtxV { current_function: Option::None, ..ctx2 },
                        s_function_value(name, func_type),
                    ),
                    LowerRes::Failed(c, e) => LowerRes::Failed(c, e),
                    LowerRes::Aborted => LowerRes::Aborted,
                }
            }
        },
    }
}

/// Lowering of a foreign function declaration: its full type is derived from
/// the parameter and return types, a non-static prototype is registered, and
/// the name is bound in the global table to the converted address of the
/// function, so it can be referenced as a first-class constant.
pub open spec fn s_lower_foreign_fn(ctx: CtxV, e: ExternFunctionDef) -> LowerRes<()>
    decreases e,
{
    let ret = s_lower_type(e.return_type);
    match ctype_function_type(ret, s_lower_param_types(e.params@)) {
        Option::None => LowerRes::Failed(
            ctx,
            CompileErrorV {
                span: e.span.deep_view(),
                error: CompileErrorEnumV::NonComptimeValue(ctype_name_text(ret)),
            },
        ),
        Option::Some(func_type) => LowerRes::Done(
            CtxV {
                c_program: CProgramV {
                    items: ctx.c_program.items.push(
                        CDeclarationV::FunctionDef(
                            CFunctionV {
                                name: e.name@,
                                return_type: ret,
                                is_static: false,
                                is_foreign: true,
                                body: Seq::empty(),
                                params: s_lower_params(e.params@),
                            },
                        ),
                    ),
                },
                global: ctx.global.push(
                    SymbolV::Const(e.name@, s_function_value(e.name@, func_type)),
                ),
                ..ctx
            },
            (),
        ),
    }
}

/// Lowering of a whole compilation unit: every top-level declaration is
/// lowered independently; a semantic error is appended to the error list and
/// lowering continues with the next declaration; an internal abort stops the
/// compilation.
pub open spec fn s_lower_unit(ctx: CtxV, u: CompUnit) -> LowerRes<()> {
    s_lower_globals(ctx, u.global_items@)
}

pub open spec fn s_lower_globals(ctx: CtxV, items: Seq<GlobalItem>) -> LowerRes<()>
    decreases items,
{
    if items.len() == 0 {
        LowerRes::Done(ctx, ())
    } else {
        match items[0] {
            GlobalItem::Decl(d) => match s_lower_decl(ctx, d) {
                LowerRes::Done(c, _) => s_lower_globals(c, items.drop_first()),
                LowerRes::Failed(c, e) => s_lower_globals(
                    CtxV { errors: c.errors.push(e), ..c },
                    items.drop_first(),
                ),
                LowerRes::Aborted => LowerRes::Aborted,
            },
        }
    }
}

/// How an expression-lowering result corresponds to an executable result: a
/// semantic error comes back as `Fault::Semantic`, an abort as
/// `Fault::Internal`.
pub open spec fn exp_result_matches(
    sr: ELower,
    r: Result<crate::cgen::values::Value, crate::backend::Fault>,
) -> bool {
    match sr {
        ELower::Done(v) => r matches Result::Ok(rv) && rv.deep_view() == v,
        ELower::Failed(e) => r matches Result::Err(crate::backend::Fault::Semantic(re))
            && re.deep_view() == e,
        ELower::Aborted => r matches Result::Err(crate::backend::Fault::Internal),
    }
}

/// How a context-mutating lowering result corresponds to an executable
/// result and the context after the call.  On an abort nothing is promised
/// of the context: the caller stops compiling.
pub open spec fn unit_result_matches(
    sr: LowerRes<()>,
    ctx2: CtxV,
    r: Result<(), crate::backend::Fault>,
) -> bool {
    match sr {
        LowerRes::Done(c, _) => ctx2 == c && r is Ok,
        LowerRes::Failed(c, e) => ctx2 == c && (r matches Result::Err(
            crate::backend::Fault::Semantic(re),
        ) && re.deep_view() == e),
        LowerRes::Aborted => r matches Result::Err(crate::backend::Fault::Internal),
    }
}

/// As `unit_result_matches`, for lowerings that also produce a value.
pub open spec fn value_result_matches(
    sr: LowerRes<ValueV>,
    ctx2: CtxV,
    r: Result<crate::cgen::values::Value, crate::backend::Fault>,
) -> bool {
    match sr {
        LowerRes::Done(c, v) => ctx2 == c && (r matches Result::Ok(rv) && rv.deep_view() == v),
        LowerRes::Failed(c, e) => ctx2 == c && (r matches Result::Err(
            crate::backend::Fault::Semantic(re),
        ) && re.deep_view() == e),
        LowerRes::Aborted => r matches Result::Err(crate::backend::Fault::Internal),
    }
}

} // verus!

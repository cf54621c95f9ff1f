//! The semantic backend: the compile-error model, the shared codegen context,
//! name mangling for function literals, and the lowering of the abstract
//! syntax tree into the C intermediate representation.
pub mod codegen;
pub mod error;
pub mod laws;
pub mod mangle;
pub mod model;

use crate::backend::error::CompileError;
use crate::backend::model::CtxV;
use crate::cgen::CProgram;
use crate::cgen::CProgramV;
use crate::cgen::scope::Symbol;
use crate::cgen::scope::SymbolTable;
use crate::cgen::scope::SymbolV;
use crate::cgen::values::CIdentifier;
use vstd::prelude::*;

verus! {

/// Why lowering stopped: a recoverable semantic error, or an internal fault
/// on which the compilation as a whole is abandoned (the driver aborts).
pub enum Fault {
    Semantic(CompileError),
    Internal,
}

/// The single shared compilation context: the emerging program, the current
/// function while one is being lowered, the local and global symbol tables,
/// the monotonic counter behind generated function names, and the collected
/// semantic errors.
pub struct CodegenContext {
    pub c_program: CProgram,
    pub current_function: Option<CIdentifier>,
    pub local: SymbolTable,
    pub global: SymbolTable,
    pub func_id: usize,
    pub errors: Vec<CompileError>,
}

impl DeepView for CodegenContext {
    type V = CtxV;

    open spec fn deep_view(&self) -> CtxV {
        CtxV {
            c_program: self.c_program.deep_view(),
            current_function: match self.current_function {
                Option::Some(f) => Option::Some(f.deep_view()),
                Option::None => Option::None,
            },
            local: self.local.deep_view(),
            global: self.global.deep_view(),
            func_id: self.func_id as nat,
            errors: self.errors.deep_view(),
        }
    }
}

impl CodegenContext {
    pub fn new() -> (r: Self)
        ensures
            r.deep_view() == (CtxV {
                c_program: CProgramV { items: Seq::empty() },
                current_function: Option::None,
                local: Seq::empty(),
                global: Seq::empty(),
                func_id: 0,
                errors: Seq::empty(),
            }),
    {
        let r = Self {
            c_program: CProgram::new(),
            local: SymbolTable::new(),
            global: SymbolTable::new(),
            current_function: Option::None,
            func_id: 0,
            errors: Vec::new(),
        };
        proof {
            assert(r.deep_view() =~= CtxV {
                c_program: CProgramV { items: Seq::empty() },
                current_function: Option::None,
                local: Seq::empty(),
                global: Seq::empty(),
                func_id: 0,
                errors: Seq::empty(),
            });
        }
        r
    }

    /// Pushes a scope marker onto the local table.
    pub fn push_scope(&mut self)
        ensures
            final(self).deep_view() == (CtxV {
                local: old(self).deep_view().local.push(SymbolV::Scope),
                ..old(self).deep_view()
            }),
    {
        self.local.push(Symbol::Scope);
        proof {
            assert(self.deep_view() =~= CtxV {
                local: old(self).deep_view().local.push(SymbolV::Scope),
                ..old(self).deep_view()
            });
        }
    }

    /// Pops the top entry of the local table; no effect when it is empty.
    pub fn pop_scope(&mut self)
        ensures
            final(self).deep_view() == (CtxV {
                local: crate::backend::model::s_pop1(old(self).deep_view().local),
                ..old(self).deep_view()
            }),
    {
        let _ = self.local.pop();
        proof {
            assert(self.deep_view() =~= CtxV {
                local: crate::backend::model::s_pop1(old(self).deep_view().local),
                ..old(self).deep_view()
            });
        }
    }

    /// Returns the next function id and advances the counter.
    pub fn new_func_id(&mut self) -> (r: usize)
        requires
            old(self).deep_view().func_id < usize::MAX as nat,
        ensures
            r as nat == old(self).deep_view().func_id,
            final(self).deep_view() == (CtxV {
                func_id: old(self).deep_view().func_id + 1,
                ..old(self).deep_view()
            }),
    {
        let id = self.func_id;
        self.func_id = self.func_id + 1;
        proof {
            assert(self.deep_view() =~= CtxV {
                func_id: old(self).deep_view().func_id + 1,
                ..old(self).deep_view()
            });
        }
        id
    }
}

} // verus!

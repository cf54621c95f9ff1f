//! Named C declarations: constants, typedefs and variables, with the
//! pointer-to-function declarator idiom for function-typed names.
use crate::cgen::types::CFunctionTypeV;
use crate::cgen::types::CType;
use crate::cgen::types::CTypeV;
use crate::cgen::types::ctype_as_function;
use crate::cgen::types::ctype_list_texts;
use crate::cgen::types::ctype_text;
use crate::cgen::types::show_ctype_list_joined;
use crate::cgen::values::Value;
use crate::cgen::values::ValueV;
use crate::cgen::values::value_text;
use crate::text::comma_join;
use vstd::prelude::*;

verus! {

/// A `const` definition.
pub struct CConst {
    name: String,
    value: Value,
}

/// Mathematical view of [`CConst`].
#[verifier::ext_equal]
pub struct CConstV {
    pub name: Seq<char>,
    pub value: ValueV,
}

impl DeepView for CConst {
    type V = CConstV;

    closed spec fn deep_view(&self) -> CConstV
        decreases self,
    {
        CConstV { name: self.name@, value: self.value.deep_view() }
    }
}

/// A `typedef`.
pub struct CTypedef {
    name: String,
    type_: CType,
}

/// Mathematical view of [`CTypedef`].
#[verifier::ext_equal]
pub struct CTypedefV {
    pub name: Seq<char>,
    pub type_: CTypeV,
}

impl DeepView for CTypedef {
    type V = CTypedefV;

    closed spec fn deep_view(&self) -> CTypedefV
        decreases self,
    {
        CTypedefV { name: self.name@, type_: self.type_.deep_view() }
    }
}

/// A variable definition with an initializer.
pub struct CVariable {
    name: String,
    value: Value,
    type_: CType,
}

/// Mathematical view of [`CVariable`].
#[verifier::ext_equal]
pub struct CVariableV {
    pub name: Seq<char>,
    pub value: ValueV,
    pub type_: CTypeV,
}

impl DeepView for CVariable {
    type V = CVariableV;

    closed spec fn deep_view(&self) -> CVariableV
        decreases self,
    {
        CVariableV {
            name: self.name@,
            value: self.value.deep_view(),
            type_: self.type_.deep_view(),
        }
    }
}

/// The function-pointer declarator `ret (*name) (params)`.
pub open spec fn fn_ptr_declarator_text(f: CFunctionTypeV, name: Seq<char>) -> Seq<char> {
    ctype_text(*f.return_type) + " (*"@ + name + ") ("@ + comma_join(
        ctype_list_texts(f.param_types),
    ) + ")"@
}

/// The text of a `const` definition: the function-pointer idiom when the
/// value's type is (const of) a function type, a plain declarator otherwise.
pub open spec fn cconst_text(c: CConstV) -> Seq<char> {
    match ctype_as_function(c.value.type_) {
        Option::Some(f) => "const "@ + fn_ptr_declarator_text(f, c.name) + " = "@ + value_text(
            c.value,
        ) + ";"@,
        Option::None => "const "@ + ctype_text(c.value.type_) + " "@ + c.name + " = "@
            + value_text(c.value) + ";"@,
    }
}

/// The text of a `typedef`.
pub open spec fn ctypedef_text(t: CTypedefV) -> Seq<char> {
    match ctype_as_function(t.type_) {
        Option::Some(f) => "typedef "@ + fn_ptr_declarator_text(f, t.name) + ";"@,
        Option::None => "typedef "@ + ctype_text(t.type_) + " "@ + t.name + ";"@,
    }
}

/// The text of a variable definition.
pub open spec fn cvariable_text(v: CVariableV) -> Seq<char> {
    match ctype_as_function(v.type_) {
        Option::Some(f) => (if v.type_ is Const {
            "const "@
        } else {
            Seq::<char>::empty()
        }) + fn_ptr_declarator_text(f, v.name) + " = "@ + value_text(v.value) + ";"@,
        Option::None => ctype_text(v.type_) + " "@ + v.name + " = "@ + value_text(v.value) + ";"@,
    }
}

/// Renders `ret (*name) (params)` for a function-typed declaration.
fn show_fn_ptr_declarator(ret: &CType, params: &Vec<CType>, name: &String) -> (r: String)
    ensures
        r@ == ctype_text(ret.deep_view()) + " (*"@ + name@ + ") ("@ + comma_join(
            ctype_list_texts(params.deep_view()),
        ) + ")"@,
{
    proof {
        reveal_strlit(" (*");
        reveal_strlit(") (");
        reveal_strlit(")");
    }
    let mut r = ret.show();
    r.append(" (*");
    r.append(name.as_str());
    r.append(") (");
    let joined = show_ctype_list_joined(params);
    r.append(joined.as_str());
    r.append(")");
    proof {
        assert(r@ =~= ctype_text(ret.deep_view()) + " (*"@ + name@ + ") ("@ + comma_join(
            ctype_list_texts(params.deep_view()),
        ) + ")"@);
    }
    r
}

impl CConst {
    pub fn new(name: String, value: Value) -> (r: Self)
        ensures
            r.deep_view() == (CConstV { name: name@, value: value.deep_view() }),
    {
        let r = Self { name, value };
        proof {
            assert(r.deep_view() =~= CConstV { name: name@, value: value.deep_view() });
        }
        r
    }

    /// Renders this `const` definition.
    pub fn show(&self) -> (r: String)
        ensures
            r@ == cconst_text(self.deep_view()),
    {
        proof {
            reveal_strlit("const ");
            reveal_strlit(" ");
            reveal_strlit(" = ");
            reveal_strlit(";");
        }
        let ty = self.value.get_type();
        let span = crate::ast::Span::new(
            (0, 0),
            (0, 0),
            String::new(),
            String::new(),
        );
        match ty.as_function(span) {
            Result::Ok(function) => {
                let mut r = String::from_str("const ");
                let ret = function.get_return_type();
                let ps = function.get_param_types();
                let decl = show_fn_ptr_declarator(&ret, &ps, &self.name);
                r.append(decl.as_str());
                r.append(" = ");
                let v = self.value.show();
                r.append(v.as_str());
                r.append(";");
                proof {
                    assert(r@ =~= cconst_text(self.deep_view()));
                }
                r
            },
            Result::Err(_) => {
                let mut r = String::from_str("const ");
                let t = ty.show();
                r.append(t.as_str());
                r.append(" ");
                r.append(self.name.as_str());
                r.append(" = ");
                let v = self.value.show();
                r.append(v.as_str());
                r.append(";");
                proof {
                    assert(r@ =~= cconst_text(self.deep_view()));
                }
                r
            },
        }
    }
}

impl CTypedef {
    pub fn new(name: String, type_: CType) -> (r: Self)
        ensures
            r.deep_view() == (CTypedefV { name: name@, type_: type_.deep_view() }),
    {
        let r = Self { name, type_ };
        proof {
            assert(r.deep_view() =~= CTypedefV { name: name@, type_: type_.deep_view() });
        }
        r
    }

    /// Renders this `typedef`.
    pub fn show(&self) -> (r: String)
        ensures
            r@ == ctypedef_text(self.deep_view()),
    {
        proof {
            reveal_strlit("typedef ");
            reveal_strlit(" ");
            reveal_strlit(";");
        }
        let span = crate::ast::Span::new(
            (0, 0),
            (0, 0),
            String::new(),
            String::new(),
        );
        match self.type_.as_function(span) {
            Result::Ok(function) => {
                let mut r = String::from_str("typedef ");
                let ret = function.get_return_type();
                let ps = function.get_param_types();
                let decl = show_fn_ptr_declarator(&ret, &ps, &self.name);
                r.append(decl.as_str());
                r.append(";");
                proof {
                    assert(r@ =~= ctypedef_text(self.deep_view()));
                }
                r
            },
            Result::Err(_) => {
                let mut r = String::from_str("typedef ");
                let t = self.type_.show();
                r.append(t.as_str());
                r.append(" ");
                r.append(self.name.as_str());
                r.append(";");
                proof {
                    assert(r@ =~= ctypedef_text(self.deep_view()));
                }
                r
            },
        }
    }
}

impl CVariable {
    pub fn new(name: String, value: Value, type_: CType) -> (r: Self)
        ensures
            r.deep_view() == (CVariableV {
                name: name@,
                value: value.deep_view(),
                type_: type_.deep_view(),
            }),
    {
        let r = Self { name, value, type_ };
        proof {
            assert(r.deep_view() =~= CVariableV {
                name: name@,
                value: value.deep_view(),
                type_: type_.deep_view(),
            });
        }
        r
    }

    /// Renders this variable definition.
    pub fn show(&self) -> (r: String)
        ensures
            r@ == cvariable_text(self.deep_view()),
    {
        proof {
            reveal_strlit("const ");
            reveal_strlit(" ");
            reveal_strlit(" = ");
            reveal_strlit(";");
        }
        let span = crate::ast::Span::new(
            (0, 0),
            (0, 0),
            String::new(),
            String::new(),
        );
        match self.type_.as_function(span) {
            Result::Ok(function) => {
                let mut r = if self.type_.is_const() {
                    String::from_str("const ")
                } else {
                    String::new()
                };
                let ret = function.get_return_type();
                let ps = function.get_param_types();
                let decl = show_fn_ptr_declarator(&ret, &ps, &self.name);
                r.append(decl.as_str());
                r.append(" = ");
                let v = self.value.show();
                r.append(v.as_str());
                r.append(";");
                proof {
                    assert(r@ =~= cvariable_text(self.deep_view()));
                }
                r
            },
            Result::Err(_) => {
                let mut r = self.type_.show();
                r.append(" ");
                r.append(self.name.as_str());
                r.append(" = ");
                let v = self.value.show();
                r.append(v.as_str());
                r.append(";");
                proof {
                    assert(r@ =~= cvariable_text(self.deep_view()));
                }
                r
            },
        }
    }
}

} // verus!

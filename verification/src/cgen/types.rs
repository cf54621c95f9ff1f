//! The types of the C intermediate representation.
use crate::ast::Span;
use crate::backend::error::CompileError;
use crate::backend::error::CompileErrorEnumV;
use crate::backend::error::CompileErrorV;
use crate::text::comma_join;
use crate::text::comma_join_prefix;
use crate::text::lemma_comma_join_prefix_full;
use crate::text::lemma_comma_join_prefix_step;
use crate::text::dec_str;
use crate::text::u64_to_string;
use vstd::prelude::*;

verus! {

/// A fixed-width integer type: bit width and signedness.
pub struct CIntType {
    bit_width: u32,
    signed: bool,
}

/// Mathematical view of [`CIntType`].
#[verifier::ext_equal]
pub struct CIntTypeV {
    pub bit_width: u32,
    pub signed: bool,
}

impl DeepView for CIntType {
    type V = CIntTypeV;

    closed spec fn deep_view(&self) -> CIntTypeV {
        CIntTypeV { bit_width: self.bit_width, signed: self.signed }
    }
}

impl CIntType {
    pub fn new(bit_width: u32, signed: bool) -> (r: Self)
        ensures
            r.deep_view() == (CIntTypeV { bit_width, signed }),
    {
        Self { bit_width, signed }
    }
}

/// The type of a C function: parameter types and return type.
pub struct CFunctionType {
    param_types: Vec<CType>,
    return_type: Box<CType>,
}

/// Mathematical view of [`CFunctionType`].
#[verifier::ext_equal]
pub struct CFunctionTypeV {
    pub param_types: Seq<CTypeV>,
    pub return_type: Box<CTypeV>,
}

impl DeepView for CFunctionType {
    type V = CFunctionTypeV;

    closed spec fn deep_view(&self) -> CFunctionTypeV {
        cfunctiontype_view(*self)
    }
}

enum CTypeEnum {
    Void,
    Function(CFunctionType),
    Int(CIntType),
    Type,
    Const(Box<CType>),
}

/// A type of the C intermediate representation.  Constness is a wrapper, not
/// a flag, so it composes recursively.
pub struct CType {
    type_enum: CTypeEnum,
}

/// Mathematical view of [`CType`].
#[verifier::ext_equal]
pub enum CTypeV {
    Void,
    Function(CFunctionTypeV),
    Int(CIntTypeV),
    Type,
    Const(Box<CTypeV>),
}

impl DeepView for CType {
    type V = CTypeV;

    closed spec fn deep_view(&self) -> CTypeV {
        ctype_view(*self)
    }
}

spec fn ctype_view(t: CType) -> CTypeV
    decreases t,
{
    match t.type_enum {
        CTypeEnum::Void => CTypeV::Void,
        CTypeEnum::Function(f) => CTypeV::Function(cfunctiontype_view(f)),
        CTypeEnum::Int(i) => CTypeV::Int(CIntTypeV { bit_width: i.bit_width, signed: i.signed }),
        CTypeEnum::Type => CTypeV::Type,
        CTypeEnum::Const(inner) => CTypeV::Const(Box::new(ctype_view(*inner))),
    }
}

spec fn cfunctiontype_view(f: CFunctionType) -> CFunctionTypeV
    decreases f,
{
    CFunctionTypeV {
        param_types: ctype_seq_view(f.param_types@),
        return_type: Box::new(ctype_view(*f.return_type)),
    }
}

spec fn ctype_seq_view(ts: Seq<CType>) -> Seq<CTypeV>
    decreases ts,
{
    if ts.len() == 0 {
        Seq::empty()
    } else {
        seq![ctype_view(ts[0])] + ctype_seq_view(ts.drop_first())
    }
}

proof fn lemma_ctype_seq_view(ts: Seq<CType>)
    ensures
        ctype_seq_view(ts).len() == ts.len(),
        forall|i: int| 0 <= i < ts.len() ==> ctype_seq_view(ts)[i] == ts[i].deep_view(),
    decreases ts,
{
    if ts.len() > 0 {
        lemma_ctype_seq_view(ts.drop_first());
        assert forall|i: int| 0 <= i < ts.len() implies ctype_seq_view(ts)[i]
            == ts[i].deep_view() by {
            if i > 0 {
                assert(ctype_seq_view(ts)[i] == ctype_seq_view(ts.drop_first())[i - 1]);
                assert(ts.drop_first()[i - 1] == ts[i]);
            }
        }
    }
}

/// The rendered text of a type: `void`, `type`, `iN`/`uN`, the
/// pointer-to-function idiom for function types, and `const` composition.
pub open spec fn ctype_text(t: CTypeV) -> Seq<char>
    decreases t,
{
    match t {
        CTypeV::Void => "void"@,
        CTypeV::Type => "type"@,
        CTypeV::Int(i) => if i.signed {
            "i"@ + dec_str(i.bit_width as nat)
        } else {
            "u"@ + dec_str(i.bit_width as nat)
        },
        CTypeV::Function(f) => cfunctiontype_text(f),
        CTypeV::Const(inner) => "const "@ + ctype_text(*inner),
    }
}

/// The texts of a list of types, in order.
pub open spec fn ctype_list_texts(ts: Seq<CTypeV>) -> Seq<Seq<char>>
    decreases ts,
{
    if ts.len() == 0 {
        Seq::empty()
    } else {
        seq![ctype_text(ts[0])] + ctype_list_texts(ts.drop_first())
    }
}

/// A function type as text: `ret (*) (params)`.
pub open spec fn cfunctiontype_text(f: CFunctionTypeV) -> Seq<char>
    decreases f,
{
    ctype_text(*f.return_type) + " (*) ("@ + comma_join(ctype_list_texts(f.param_types)) + ")"@
}

/// The coarse name of a type used inside error messages.
pub open spec fn ctype_name_text(t: CTypeV) -> Seq<char>
    decreases t,
{
    match t {
        CTypeV::Void => "void"@,
        CTypeV::Function(_) => "function"@,
        CTypeV::Int(_) => "int"@,
        CTypeV::Type => "type"@,
        CTypeV::Const(inner) => "const "@ + ctype_name_text(*inner),
    }
}

/// The function type reachable through any number of `const` wrappers, if
/// this is (a constant view of) a function type.
pub open spec fn ctype_as_function(t: CTypeV) -> Option<CFunctionTypeV>
    decreases t,
{
    match t {
        CTypeV::Function(f) => Option::Some(f),
        CTypeV::Const(inner) => ctype_as_function(*inner),
        _ => Option::None,
    }
}

/// The type name reported when a non-function type is used as a function:
/// the name of the type below the `const` wrappers where the search stopped.
pub open spec fn ctype_as_function_err_name(t: CTypeV) -> Seq<char>
    decreases t,
{
    match t {
        CTypeV::Const(inner) => ctype_as_function_err_name(*inner),
        _ => ctype_name_text(t),
    }
}

impl CFunctionType {
    pub fn new(param_types: Vec<CType>, return_type: CType) -> (r: Self)
        ensures
            r.deep_view() == (CFunctionTypeV {
                param_types: param_types.deep_view(),
                return_type: Box::new(return_type.deep_view()),
            }),
    {
        let r = Self { param_types, return_type: Box::new(return_type) };
        proof {
            lemma_ctype_seq_view(param_types@);
            assert(ctype_seq_view(param_types@) =~= param_types.deep_view());
            assert(r.deep_view() =~= CFunctionTypeV {
                param_types: param_types.deep_view(),
                return_type: Box::new(return_type.deep_view()),
            });
        }
        r
    }

    pub fn get_return_type(&self) -> (r: CType)
        ensures
            r.deep_view() == *self.deep_view().return_type,
    {
        (*self.return_type).dup()
    }

    pub fn get_param_types(&self) -> (r: Vec<CType>)
        ensures
            r.deep_view() =~= self.deep_view().param_types,
    {
        let mut out: Vec<CType> = Vec::new();
        let mut i: usize = 0;
        while i < self.param_types.len()
            invariant
                i <= self.param_types.len(),
                out@.len() == i,
                forall|k: int|
                    0 <= k < i ==> #[trigger] out@[k].deep_view()
                        == self.param_types@[k].deep_view(),
            decreases self.param_types.len() - i,
        {
            out.push(self.param_types[i].dup());
            i = i + 1;
        }
        proof {
            lemma_ctype_seq_view(self.param_types@);
            assert(out.deep_view() =~= self.deep_view().param_types);
        }
        out
    }

    /// An identical copy of this function type.
    pub fn dup(&self) -> (r: Self)
        ensures
            r.deep_view() == self.deep_view(),
        decreases self,
    {
        let mut params: Vec<CType> = Vec::new();
        let mut i: usize = 0;
        while i < self.param_types.len()
            invariant
                i <= self.param_types.len(),
                params@.len() == i,
                forall|k: int|
                    0 <= k < i ==> #[trigger] params@[k].deep_view()
                        == self.param_types@[k].deep_view(),
            decreases self.param_types.len() - i,
        {
            proof {
                assert(decreases_to!(*self => self.param_types));
                assert(decreases_to!(self.param_types => self.param_types@[i as int]));
            }
            params.push(self.param_types[i].dup());
            i = i + 1;
        }
        let ret = (*self.return_type).dup();
        let r = Self { param_types: params, return_type: Box::new(ret) };
        proof {
            lemma_ctype_seq_view(params@);
            lemma_ctype_seq_view(self.param_types@);
            assert(ctype_seq_view(params@) =~= ctype_seq_view(self.param_types@));
            assert(r.deep_view() =~= self.deep_view());
        }
        r
    }

    /// Renders as `ret (*) (params)`.
    pub fn show(&self) -> (r: String)
        ensures
            r@ == cfunctiontype_text(self.deep_view()),
        decreases self,
    {
        proof {
            reveal_strlit(" (*) (");
            reveal_strlit(")");
        }
        let mut r = self.return_type.show();
        r.append(" (*) (");
        let joined = show_ctype_list_joined(&self.param_types);
        r.append(joined.as_str());
        r.append(")");
        proof {
            lemma_ctype_seq_view(self.param_types@);
            assert(self.deep_view().param_types =~= self.param_types.deep_view());
            assert(r@ =~= cfunctiontype_text(self.deep_view()));
        }
        r
    }
}

/// Renders a list of types joined with `", "`.
pub fn show_ctype_list_joined(ts: &Vec<CType>) -> (r: String)
    ensures
        r@ == comma_join(ctype_list_texts(ts.deep_view())),
    decreases ts,
{
    let mut r = String::new();
    proof {
        reveal_strlit(", ");
    }
    let n = ts.len();
    let mut i: usize = 0;
    while i < n
        invariant
            i <= n,
            n == ts.len(),
            r@ == comma_join_prefix(ctype_list_texts(ts.deep_view()), i as nat),
        decreases n - i,
    {
        proof {
            assert(decreases_to!(*ts => ts@));
            assert(decreases_to!(ts@ => ts@[i as int]));
        }
        let piece = ts[i].show();
        r.append(piece.as_str());
        if i + 1 < n {
            r.append(", ");
        }
        i = i + 1;
        proof {
            lemma_comma_join_prefix_step(ctype_list_texts(ts.deep_view()), (i - 1) as nat);
            assert(ctype_list_texts(ts.deep_view()).len() == ts.deep_view().len())
                by {
                lemma_ctype_list_texts_len(ts.deep_view());
            }
            assert(ctype_list_texts(ts.deep_view())[i - 1] == ctype_text(ts.deep_view()[i - 1]))
                by {
                lemma_ctype_list_texts_index(ts.deep_view(), i - 1);
            }
            assert(r@ =~= comma_join_prefix(ctype_list_texts(ts.deep_view()), i as nat));
        }
    }
    proof {
        lemma_ctype_list_texts_len(ts.deep_view());
        lemma_comma_join_prefix_full(ctype_list_texts(ts.deep_view()));
    }
    r
}

pub proof fn lemma_ctype_list_texts_len(ts: Seq<CTypeV>)
    ensures
        ctype_list_texts(ts).len() == ts.len(),
    decreases ts,
{
    if ts.len() > 0 {
        lemma_ctype_list_texts_len(ts.drop_first());
    }
}

pub proof fn lemma_ctype_list_texts_index(ts: Seq<CTypeV>, i: int)
    requires
        0 <= i < ts.len(),
    ensures
        ctype_list_texts(ts)[i] == ctype_text(ts[i]),
    decreases ts,
{
    if i > 0 {
        lemma_ctype_list_texts_index(ts.drop_first(), i - 1);
        lemma_ctype_list_texts_len(ts.drop_first());
    }
}

impl CType {
    pub fn new_void() -> (r: Self)
        ensures
            r.deep_view() == CTypeV::Void,
    {
        Self { type_enum: CTypeEnum::Void }
    }

    pub fn new_type() -> (r: Self)
        ensures
            r.deep_view() == CTypeV::Type,
    {
        Self { type_enum: CTypeEnum::Type }
    }

    pub fn new_function(function_type: CFunctionType) -> (r: Self)
        ensures
            r.deep_view() == CTypeV::Function(function_type.deep_view()),
    {
        Self { type_enum: CTypeEnum::Function(function_type) }
    }

    pub fn new_int(int_type: CIntType) -> (r: Self)
        ensures
            r.deep_view() == CTypeV::Int(int_type.deep_view()),
    {
        Self { type_enum: CTypeEnum::Int(int_type) }
    }

    pub fn new_const(type_: CType) -> (r: Self)
        ensures
            r.deep_view() == CTypeV::Const(Box::new(type_.deep_view())),
    {
        Self { type_enum: CTypeEnum::Const(Box::new(type_)) }
    }

    /// The coarse name of this type, as used in error messages.
    pub fn get_name(&self) -> (r: String)
        ensures
            r@ == ctype_name_text(self.deep_view()),
        decreases self,
    {
        proof {
            reveal_strlit("void");
            reveal_strlit("function");
            reveal_strlit("int");
            reveal_strlit("type");
            reveal_strlit("const ");
        }
        match &self.type_enum {
            CTypeEnum::Void => String::from_str("void"),
            CTypeEnum::Function(_) => String::from_str("function"),
            CTypeEnum::Int(_) => String::from_str("int"),
            CTypeEnum::Type => String::from_str("type"),
            CTypeEnum::Const(type_) => {
                let mut r = String::from_str("const ");
                let inner = type_.get_name();
                r.append(inner.as_str());
                proof {
                    assert(r@ =~= ctype_name_text(self.deep_view()));
                }
                r
            },
        }
    }

    /// Whether the outermost layer of this type is a `const` wrapper.
    pub fn is_const(&self) -> (r: bool)
        ensures
            r == (self.deep_view() is Const),
    {
        match &self.type_enum {
            CTypeEnum::Const(_) => true,
            _ => false,
        }
    }

    /// The function type below any `const` wrappers; an `InvalidTypeCast`
    /// error at `span` if this type is not a function type.
    pub fn as_function(&self, span: Span) -> (r: Result<CFunctionType, CompileError>)
        ensures
            match ctype_as_function(self.deep_view()) {
                Option::Some(f) => r matches Result::Ok(rf) && rf.deep_view() == f,
                Option::None => r matches Result::Err(e) && e.deep_view() == (CompileErrorV {
                    span: span.deep_view(),
                    error: CompileErrorEnumV::InvalidTypeCast {
                        from: ctype_as_function_err_name(self.deep_view()),
                        to: "function"@,
                    },
                }),
            },
        decreases self,
    {
        proof {
            reveal_strlit("function");
        }
        match &self.type_enum {
            CTypeEnum::Function(func_type) => Result::Ok(func_type.dup()),
            CTypeEnum::Const(type_) => type_.as_function(span),
            _ => Result::Err(
                CompileError::new_invalid_type_cast(
                    span,
                    self.get_name(),
                    String::from_str("function"),
                ),
            ),
        }
    }

    /// Builds the type of a function with these parameter types whose return
    /// type is this type; a `NonComptimeValue` error at `span` if this type
    /// cannot be a return type (neither an integer type nor `void`).
    pub fn function_type(&self, parameter_types: Vec<CType>, span: Span) -> (r: Result<
        CType,
        CompileError,
    >)
        ensures
            match ctype_function_type(self.deep_view(), parameter_types.deep_view()) {
                Option::Some(t) => r matches Result::Ok(rt) && rt.deep_view() == t,
                Option::None => r matches Result::Err(e) && e.deep_view() == (CompileErrorV {
                    span: span.deep_view(),
                    error: CompileErrorEnumV::NonComptimeValue(ctype_name_text(self.deep_view())),
                }),
            },
    {
        match &self.type_enum {
            CTypeEnum::Int(int_type) => {
                let value = CFunctionType::new(
                    parameter_types,
                    Self::new_int(CIntType::new(int_type.bit_width, int_type.signed)),
                );
                Result::Ok(Self::new_function(value))
            },
            CTypeEnum::Void => {
                let value = CFunctionType::new(parameter_types, Self::new_void());
                Result::Ok(Self::new_function(value))
            },
            _ => Result::Err(CompileError::new_non_comptime_value(span, self.get_name())),
        }
    }

    /// An identical copy of this type.
    pub fn dup(&self) -> (r: Self)
        ensures
            r.deep_view() == self.deep_view(),
        decreases self,
    {
        match &self.type_enum {
            CTypeEnum::Void => Self { type_enum: CTypeEnum::Void },
            CTypeEnum::Type => Self { type_enum: CTypeEnum::Type },
            CTypeEnum::Int(i) => Self {
                type_enum: CTypeEnum::Int(CIntType::new(i.bit_width, i.signed)),
            },
            CTypeEnum::Function(f) => {
                let r = Self { type_enum: CTypeEnum::Function(f.dup()) };
                proof {
                    assert(r.deep_view() =~= self.deep_view());
                }
                r
            },
            CTypeEnum::Const(t) => {
                let r = Self { type_enum: CTypeEnum::Const(Box::new(t.dup())) };
                proof {
                    assert(r.deep_view() =~= self.deep_view());
                }
                r
            },
        }
    }

    /// Renders this type as C text.
    pub fn show(&self) -> (r: String)
        ensures
            r@ == ctype_text(self.deep_view()),
        decreases self,
    {
        proof {
            reveal_strlit("void");
            reveal_strlit("type");
            reveal_strlit("i");
            reveal_strlit("u");
            reveal_strlit("const ");
        }
        match &self.type_enum {
            CTypeEnum::Void => String::from_str("void"),
            CTypeEnum::Type => String::from_str("type"),
            CTypeEnum::Int(i) => {
                let mut r = if i.signed {
                    String::from_str("i")
                } else {
                    String::from_str("u")
                };
                let w = u64_to_string(i.bit_width as u64);
                r.append(w.as_str());
                proof {
                    assert(r@ =~= ctype_text(self.deep_view()));
                }
                r
            },
            CTypeEnum::Function(f) => {
                let r = f.show();
                proof {
                    assert(r@ =~= ctype_text(self.deep_view()));
                }
                r
            },
            CTypeEnum::Const(t) => {
                let mut r = String::from_str("const ");
                let inner = t.show();
                r.append(inner.as_str());
                proof {
                    assert(r@ =~= ctype_text(self.deep_view()));
                }
                r
            },
        }
    }
}

/// The function type that `CType::function_type` builds: defined when the
/// return type is an integer type or `void`.
pub open spec fn ctype_function_type(ret: CTypeV, params: Seq<CTypeV>) -> Option<CTypeV> {
    match ret {
        CTypeV::Int(i) => Option::Some(
            CTypeV::Function(
                CFunctionTypeV { param_types: params, return_type: Box::new(CTypeV::Int(i)) },
            ),
        ),
        CTypeV::Void => Option::Some(
            CTypeV::Function(
                CFunctionTypeV { param_types: params, return_type: Box::new(CTypeV::Void) },
            ),
        ),
        _ => Option::None,
    }
}

} // verus!

//! The values of the C intermediate representation: identifiers, integer
//! literals, binary operations, casts, address-of and calls.  Every value
//! carries its derived type.
use crate::ast::BinaryOp;
use crate::ast::Span;
use crate::backend::error::CompileError;
use crate::backend::error::CompileErrorEnumV;
use crate::backend::error::CompileErrorV;
use crate::cgen::types::CIntType;
use crate::cgen::types::CType;
use crate::cgen::types::CTypeV;
use crate::cgen::types::ctype_name_text;
use crate::cgen::types::ctype_text;
use crate::text::comma_join;
use crate::text::comma_join_prefix;
use crate::text::dec_str;
use crate::text::lemma_comma_join_prefix_full;
use crate::text::lemma_comma_join_prefix_step;
use crate::text::u64_to_string;
use vstd::prelude::*;

verus! {

/// A named C identifier together with its type.
pub struct CIdentifier {
    name: String,
    type_: CType,
}

/// Mathematical view of [`CIdentifier`].
#[verifier::ext_equal]
pub struct CIdentifierV {
    pub name: Seq<char>,
    pub type_: CTypeV,
}

impl DeepView for CIdentifier {
    type V = CIdentifierV;

    closed spec fn deep_view(&self) -> CIdentifierV {
        CIdentifierV { name: self.name@, type_: self.type_.deep_view() }
    }
}

impl CIdentifier {
    pub fn new(name: String, type_: CType) -> (r: Self)
        ensures
            r.deep_view() == (CIdentifierV { name: name@, type_: type_.deep_view() }),
    {
        Self { name, type_ }
    }

    pub fn get_type(&self) -> (r: CType)
        ensures
            r.deep_view() == self.deep_view().type_,
    {
        self.type_.dup()
    }

    pub fn get_name(&self) -> (r: String)
        ensures
            r@ == self.deep_view().name,
    {
        self.name.clone()
    }

    pub fn set_name(&mut self, name: String)
        ensures
            final(self).deep_view() == (CIdentifierV {
                name: name@,
                type_: old(self).deep_view().type_,
            }),
    {
        self.name = name;
    }

    /// An identical copy of this identifier.
    pub fn dup(&self) -> (r: Self)
        ensures
            r.deep_view() == self.deep_view(),
    {
        Self { name: self.name.clone(), type_: self.type_.dup() }
    }
}

enum ValueEnum {
    Identifier(CIdentifier),
    Int(u64),
    BinOp(BinOp),
    Type(CType),
    Void,
    GetAddr(CGetAddr),
    ConvertType(CConvertType),
    Call(CCall),
}

/// A value of the C intermediate representation together with its derived
/// type.
pub struct Value {
    value_enum: ValueEnum,
    value_type: CType,
}

/// Mathematical view of the variants of [`Value`].
#[verifier::ext_equal]
pub enum ValueEnumV {
    Identifier(CIdentifierV),
    Int(u64),
    BinOp(BinOpV),
    Type(CTypeV),
    Void,
    GetAddr(Box<ValueV>),
    ConvertType(CConvertTypeV),
    Call(CCallV),
}

/// Mathematical view of [`Value`].
#[verifier::ext_equal]
pub struct ValueV {
    pub value: ValueEnumV,
    pub type_: CTypeV,
}

#[verifier::ext_equal]
pub struct BinOpV {
    pub lhs: Box<ValueV>,
    pub rhs: Box<ValueV>,
    pub op: BinaryOp,
}

#[verifier::ext_equal]
pub struct CConvertTypeV {
    pub value: Box<ValueV>,
    pub type_: CTypeV,
}

#[verifier::ext_equal]
pub struct CCallV {
    pub value: Box<ValueV>,
    pub args: Seq<ValueV>,
}

impl DeepView for Value {
    type V = ValueV;

    closed spec fn deep_view(&self) -> ValueV {
        value_view(*self)
    }
}

spec fn value_view(v: Value) -> ValueV
    decreases v,
{
    ValueV {
        value: match v.value_enum {
            ValueEnum::Identifier(id) => ValueEnumV::Identifier(id.deep_view()),
            ValueEnum::Int(n) => ValueEnumV::Int(n),
            ValueEnum::BinOp(b) => ValueEnumV::BinOp(binop_view(b)),
            ValueEnum::Type(t) => ValueEnumV::Type(t.deep_view()),
            ValueEnum::Void => ValueEnumV::Void,
            ValueEnum::GetAddr(g) => ValueEnumV::GetAddr(Box::new(value_view(*g.value))),
            ValueEnum::ConvertType(c) => ValueEnumV::ConvertType(cconverttype_view(c)),
            ValueEnum::Call(c) => ValueEnumV::Call(ccall_view(c)),
        },
        type_: v.value_type.deep_view(),
    }
}

spec fn binop_view(b: BinOp) -> BinOpV
    decreases b,
{
    BinOpV { lhs: Box::new(value_view(*b.lhs)), rhs: Box::new(value_view(*b.rhs)), op: b.op }
}

spec fn cconverttype_view(c: CConvertType) -> CConvertTypeV
    decreases c,
{
    CConvertTypeV { value: Box::new(value_view(*c.value)), type_: c.type_.deep_view() }
}

spec fn ccall_view(c: CCall) -> CCallV
    decreases c,
{
    CCallV { value: Box::new(value_view(*c.value)), args: value_seq_view(c.args@) }
}

spec fn value_seq_view(vs: Seq<Value>) -> Seq<ValueV>
    decreases vs,
{
    if vs.len() == 0 {
        Seq::empty()
    } else {
        seq![value_view(vs[0])] + value_seq_view(vs.drop_first())
    }
}

proof fn lemma_value_seq_view(vs: Seq<Value>)
    ensures
        value_seq_view(vs).len() == vs.len(),
        forall|i: int| 0 <= i < vs.len() ==> value_seq_view(vs)[i] == vs[i].deep_view(),
    decreases vs,
{
    if vs.len() > 0 {
        lemma_value_seq_view(vs.drop_first());
        assert forall|i: int| 0 <= i < vs.len() implies value_seq_view(vs)[i]
            == vs[i].deep_view() by {
            if i > 0 {
                assert(value_seq_view(vs)[i] == value_seq_view(vs.drop_first())[i - 1]);
                assert(vs.drop_first()[i - 1] == vs[i]);
            }
        }
    }
}

/// An address-of expression.
pub struct CGetAddr {
    value: Box<Value>,
}

impl DeepView for CGetAddr {
    type V = Box<ValueV>;

    closed spec fn deep_view(&self) -> Box<ValueV> {
        Box::new(value_view(*self.value))
    }
}

/// A binary operation on two values.
pub struct BinOp {
    lhs: Box<Value>,
    rhs: Box<Value>,
    op: BinaryOp,
}

impl DeepView for BinOp {
    type V = BinOpV;

    closed spec fn deep_view(&self) -> BinOpV {
        binop_view(*self)
    }
}

/// A C-style cast of a value to a type.
pub struct CConvertType {
    value: Box<Value>,
    type_: CType,
}

impl DeepView for CConvertType {
    type V = CConvertTypeV;

    closed spec fn deep_view(&self) -> CConvertTypeV {
        cconverttype_view(*self)
    }
}

/// A call of a callee value with argument values.
pub struct CCall {
    value: Box<Value>,
    args: Vec<Value>,
}

impl DeepView for CCall {
    type V = CCallV;

    closed spec fn deep_view(&self) -> CCallV {
        ccall_view(*self)
    }
}

/// The spelling of a binary operator.
pub open spec fn binaryop_text(op: BinaryOp) -> Seq<char> {
    match op {
        BinaryOp::Add => "+"@,
        BinaryOp::Sub => "-"@,
        BinaryOp::Mul => "*"@,
        BinaryOp::Div => "/"@,
        BinaryOp::Mod => "%"@,
        BinaryOp::Eq => "=="@,
        BinaryOp::Neq => "!="@,
        BinaryOp::Lt => "<"@,
        BinaryOp::Le => "<="@,
        BinaryOp::Gt => ">"@,
        BinaryOp::Ge => ">="@,
    }
}

/// The rendered text of a value.
pub open spec fn value_text(v: ValueV) -> Seq<char>
    decreases v,
{
    match v.value {
        ValueEnumV::Identifier(id) => id.name,
        ValueEnumV::Int(n) => dec_str(n as nat),
        ValueEnumV::BinOp(b) => "("@ + value_text(*b.lhs) + " "@ + binaryop_text(b.op) + " "@
            + value_text(*b.rhs) + ")"@,
        ValueEnumV::Void => "void"@,
        ValueEnumV::Type(t) => ctype_text(t),
        ValueEnumV::GetAddr(inner) => "&"@ + value_text(*inner),
        ValueEnumV::ConvertType(c) => "("@ + ctype_text(c.type_) + ")"@ + value_text(*c.value),
        ValueEnumV::Call(c) => "("@ + value_text(*c.value) + ")("@ + comma_join(
            value_list_texts(c.args),
        ) + ")"@,
    }
}

/// The texts of a list of values, in order.
pub open spec fn value_list_texts(vs: Seq<ValueV>) -> Seq<Seq<char>>
    decreases vs,
{
    if vs.len() == 0 {
        Seq::empty()
    } else {
        seq![value_text(vs[0])] + value_list_texts(vs.drop_first())
    }
}

pub proof fn lemma_value_list_texts_len(vs: Seq<ValueV>)
    ensures
        value_list_texts(vs).len() == vs.len(),
    decreases vs,
{
    if vs.len() > 0 {
        lemma_value_list_texts_len(vs.drop_first());
    }
}

pub proof fn lemma_value_list_texts_index(vs: Seq<ValueV>, i: int)
    requires
        0 <= i < vs.len(),
    ensures
        value_list_texts(vs)[i] == value_text(vs[i]),
    decreases vs,
{
    if i > 0 {
        lemma_value_list_texts_index(vs.drop_first(), i - 1);
        lemma_value_list_texts_len(vs.drop_first());
    }
}

impl Value {
    pub fn new_void() -> (r: Self)
        ensures
            r.deep_view() == (ValueV { value: ValueEnumV::Void, type_: CTypeV::Void }),
    {
        Self { value_enum: ValueEnum::Void, value_type: CType::new_void() }
    }

    /// A call value; its derived type is `void`, as calls carry no further
    /// type information.
    pub fn new_call(call: CCall) -> (r: Self)
        ensures
            r.deep_view() == (ValueV { value: ValueEnumV::Call(call.deep_view()), type_: CTypeV::Void }),
    {
        let r = Self { value_enum: ValueEnum::Call(call), value_type: CType::new_void() };
        proof {
            assert(r.deep_view() =~= ValueV {
                value: ValueEnumV::Call(call.deep_view()),
                type_: CTypeV::Void,
            });
        }
        r
    }

    /// An identifier value; its derived type is the identifier's type.
    pub fn new_identifier(identifier: CIdentifier) -> (r: Self)
        ensures
            r.deep_view() == (ValueV {
                value: ValueEnumV::Identifier(identifier.deep_view()),
                type_: identifier.deep_view().type_,
            }),
    {
        let ty = identifier.get_type();
        let r = Self { value_enum: ValueEnum::Identifier(identifier), value_type: ty };
        proof {
            assert(r.deep_view() =~= ValueV {
                value: ValueEnumV::Identifier(identifier.deep_view()),
                type_: identifier.deep_view().type_,
            });
        }
        r
    }

    /// An integer literal of the given width and signedness.
    pub fn new_int(value: u64, bit_width: u32, signed: bool) -> (r: Self)
        ensures
            r.deep_view() == (ValueV {
                value: ValueEnumV::Int(value),
                type_: CTypeV::Int(crate::cgen::types::CIntTypeV { bit_width, signed }),
            }),
    {
        let r = Self {
            value_enum: ValueEnum::Int(value),
            value_type: CType::new_int(CIntType::new(bit_width, signed)),
        };
        proof {
            assert(r.deep_view() =~= ValueV {
                value: ValueEnumV::Int(value),
                type_: CTypeV::Int(crate::cgen::types::CIntTypeV { bit_width, signed }),
            });
        }
        r
    }

    /// A binary-operation value; its derived type is inherited from the left
    /// operand.
    pub fn new_bin_op(bin_op: BinOp) -> (r: Self)
        ensures
            r.deep_view() == (ValueV {
                value: ValueEnumV::BinOp(bin_op.deep_view()),
                type_: bin_op.deep_view().lhs.type_,
            }),
    {
        let ty = bin_op.lhs().get_type();
        let r = Self { value_enum: ValueEnum::BinOp(bin_op), value_type: ty };
        proof {
            assert(r.deep_view() =~= ValueV {
                value: ValueEnumV::BinOp(bin_op.deep_view()),
                type_: bin_op.deep_view().lhs.type_,
            });
        }
        r
    }

    /// A type used as a value; its derived type is `type`.
    pub fn new_type(type_: CType) -> (r: Self)
        ensures
            r.deep_view() == (ValueV {
                value: ValueEnumV::Type(type_.deep_view()),
                type_: CTypeV::Type,
            }),
    {
        let r = Self { value_enum: ValueEnum::Type(type_), value_type: CType::new_type() };
        proof {
            assert(r.deep_view() =~= ValueV {
                value: ValueEnumV::Type(type_.deep_view()),
                type_: CTypeV::Type,
            });
        }
        r
    }

    /// An address-of value; its derived type is `type`.
    pub fn new_get_addr(get_addr: CGetAddr) -> (r: Self)
        ensures
            r.deep_view() == (ValueV {
                value: ValueEnumV::GetAddr(get_addr.deep_view()),
                type_: CTypeV::Type,
            }),
    {
        let r = Self { value_enum: ValueEnum::GetAddr(get_addr), value_type: CType::new_type() };
        proof {
            assert(r.deep_view() =~= ValueV {
                value: ValueEnumV::GetAddr(get_addr.deep_view()),
                type_: CTypeV::Type,
            });
        }
        r
    }

    /// A cast value; its derived type is the target type of the cast.
    pub fn new_convert_type(convert_type: CConvertType) -> (r: Self)
        ensures
            r.deep_view() == (ValueV {
                value: ValueEnumV::ConvertType(convert_type.deep_view()),
                type_: convert_type.deep_view().type_,
            }),
    {
        let ty = convert_type.type_.dup();
        let r = Self { value_enum: ValueEnum::ConvertType(convert_type), value_type: ty };
        proof {
            assert(r.deep_view() =~= ValueV {
                value: ValueEnumV::ConvertType(convert_type.deep_view()),
                type_: convert_type.deep_view().type_,
            });
        }
        r
    }

    /// The integer behind this value; an `InvalidTypeCast` error at `span` if
    /// it is not an integer literal.
    pub fn as_int(&self, span: Span) -> (r: Result<u64, CompileError>)
        ensures
            match self.deep_view().value {
                ValueEnumV::Int(n) => r matches Result::Ok(m) && m == n,
                _ => r matches Result::Err(e) && e.deep_view() == (CompileErrorV {
                    span: span.deep_view(),
                    error: CompileErrorEnumV::InvalidTypeCast {
                        from: ctype_name_text(self.deep_view().type_),
                        to: "int"@,
                    },
                }),
            },
    {
        proof {
            reveal_strlit("int");
        }
        match &self.value_enum {
            ValueEnum::Int(val) => Result::Ok(*val),
            _ => Result::Err(
                CompileError::new_invalid_type_cast(
                    span,
                    self.value_type.get_name(),
                    String::from_str("int"),
                ),
            ),
        }
    }

    pub fn get_type(&self) -> (r: CType)
        ensures
            r.deep_view() == self.deep_view().type_,
    {
        self.value_type.dup()
    }

    /// An identical copy of this value.
    pub fn dup(&self) -> (r: Self)
        ensures
            r.deep_view() == self.deep_view(),
        decreases self,
    {
        match &self.value_enum {
            ValueEnum::Identifier(id) => {
                let r = Self {
                    value_enum: ValueEnum::Identifier(id.dup()),
                    value_type: self.value_type.dup(),
                };
                proof {
                    assert(r.deep_view() =~= self.deep_view());
                }
                r
            },
            ValueEnum::Int(n) => {
                let r = Self { value_enum: ValueEnum::Int(*n), value_type: self.value_type.dup() };
                proof {
                    assert(r.deep_view() =~= self.deep_view());
                }
                r
            },
            ValueEnum::BinOp(b) => {
                let r = Self {
                    value_enum: ValueEnum::BinOp(
                        BinOp { lhs: Box::new(b.lhs.dup()), rhs: Box::new(b.rhs.dup()), op: b.op },
                    ),
                    value_type: self.value_type.dup(),
                };
                proof {
                    reveal_with_fuel(value_view, 2);
                    reveal_with_fuel(binop_view, 2);
                    assert(r.deep_view() =~= self.deep_view());
                }
                r
            },
            ValueEnum::Type(t) => {
                let r = Self {
                    value_enum: ValueEnum::Type(t.dup()),
                    value_type: self.value_type.dup(),
                };
                proof {
                    assert(r.deep_view() =~= self.deep_view());
                }
                r
            },
            ValueEnum::Void => {
                let r = Self { value_enum: ValueEnum::Void, value_type: self.value_type.dup() };
                proof {
                    assert(r.deep_view() =~= self.deep_view());
                }
                r
            },
            ValueEnum::GetAddr(g) => {
                let r = Self {
                    value_enum: ValueEnum::GetAddr(CGetAddr { value: Box::new(g.value.dup()) }),
                    value_type: self.value_type.dup(),
                };
                proof {
                    assert(r.deep_view() =~= self.deep_view());
                }
                r
            },
            ValueEnum::ConvertType(c) => {
                let r = Self {
                    value_enum: ValueEnum::ConvertType(
                        CConvertType { value: Box::new(c.value.dup()), type_: c.type_.dup() },
                    ),
                    value_type: self.value_type.dup(),
                };
                proof {
                    reveal_with_fuel(value_view, 2);
                    reveal_with_fuel(cconverttype_view, 2);
                    assert(r.deep_view() =~= self.deep_view());
                }
                r
            },
            ValueEnum::Call(c) => {
                let mut args: Vec<Value> = Vec::new();
                let mut i: usize = 0;
                while i < c.args.len()
                    invariant
                        i <= c.args.len(),
                        self.value_enum is Call,
                        *c == self.value_enum->Call_0,
                        args@.len() == i,
                        forall|k: int|
                            0 <= k < i ==> #[trigger] args@[k].deep_view()
                                == c.args@[k].deep_view(),
                    decreases c.args.len() - i,
                {
                    proof {
                        assert(decreases_to!(*self => self.value_enum));
                        assert(decreases_to!(self.value_enum => self.value_enum->Call_0));
                        assert(decreases_to!(*c => c.args));
                        assert(decreases_to!(c.args => c.args@[i as int]));
                    }
                    args.push(c.args[i].dup());
                    i = i + 1;
                }
                let r = Self {
                    value_enum: ValueEnum::Call(CCall { value: Box::new(c.value.dup()), args }),
                    value_type: self.value_type.dup(),
                };
                proof {
                    reveal_with_fuel(value_view, 2);
                    reveal_with_fuel(ccall_view, 2);
                    lemma_value_seq_view(c.args@);
                    lemma_value_seq_view(r.value_enum->Call_0.args@);
                    assert(value_seq_view(r.value_enum->Call_0.args@) =~= value_seq_view(
                        c.args@,
                    ));
                    assert(r.deep_view() =~= self.deep_view());
                }
                r
            },
        }
    }

    /// Renders this value as C text.
    pub fn show(&self) -> (r: String)
        ensures
            r@ == value_text(self.deep_view()),
        decreases self,
    {
        proof {
            reveal_strlit("(");
            reveal_strlit(")");
            reveal_strlit(" ");
            reveal_strlit("void");
            reveal_strlit("&");
            reveal_strlit(")(");
            reveal_strlit(", ");
        }
        match &self.value_enum {
            ValueEnum::Identifier(id) => id.get_name(),
            ValueEnum::Int(n) => u64_to_string(*n),
            ValueEnum::BinOp(b) => {
                let mut r = String::from_str("(");
                let lhs = b.lhs.show();
                r.append(lhs.as_str());
                r.append(" ");
                r.append(binaryop_str(&b.op));
                r.append(" ");
                let rhs = b.rhs.show();
                r.append(rhs.as_str());
                r.append(")");
                proof {
                    reveal_with_fuel(value_view, 2);
                    reveal_with_fuel(binop_view, 2);
                    assert(r@ =~= value_text(self.deep_view()));
                }
                r
            },
            ValueEnum::Void => {
                let r = String::from_str("void");
                proof {
                    assert(r@ =~= value_text(self.deep_view()));
                }
                r
            },
            ValueEnum::Type(t) => {
                let r = t.show();
                proof {
                    assert(r@ =~= value_text(self.deep_view()));
                }
                r
            },
            ValueEnum::GetAddr(g) => {
                let mut r = String::from_str("&");
                let inner = g.value.show();
                r.append(inner.as_str());
                proof {
                    assert(r@ =~= value_text(self.deep_view()));
                }
                r
            },
            ValueEnum::ConvertType(c) => {
                let mut r = String::from_str("(");
                let ty = c.type_.show();
                r.append(ty.as_str());
                r.append(")");
                let inner = c.value.show();
                r.append(inner.as_str());
                proof {
                    reveal_with_fuel(value_view, 2);
                    reveal_with_fuel(cconverttype_view, 2);
                    assert(r@ =~= value_text(self.deep_view()));
                }
                r
            },
            ValueEnum::Call(c) => {
                let mut r = String::from_str("(");
                let callee = c.value.show();
                r.append(callee.as_str());
                r.append(")(");
                let n = c.args.len();
                let mut i: usize = 0;
                while i < n
                    invariant
                        i <= n,
                        n == c.args.len(),
                        self.value_enum is Call,
                        *c == self.value_enum->Call_0,
                        r@ == "("@ + value_text(c.value.deep_view()) + ")("@ + comma_join_prefix(
                            value_list_texts(c.args.deep_view()),
                            i as nat,
                        ),
                    decreases n - i,
                {
                    proof {
                        assert(decreases_to!(*self => self.value_enum));
                        assert(decreases_to!(self.value_enum => self.value_enum->Call_0));
                        assert(decreases_to!(*c => c.args));
                        assert(decreases_to!(c.args => c.args@[i as int]));
                        reveal_strlit(", ");
                    }
                    let piece = c.args[i].show();
                    r.append(piece.as_str());
                    if i + 1 < n {
                        r.append(", ");
                    }
                    i = i + 1;
                    proof {
                        lemma_comma_join_prefix_step(
                            value_list_texts(c.args.deep_view()),
                            (i - 1) as nat,
                        );
                        lemma_value_list_texts_len(c.args.deep_view());
                        lemma_value_list_texts_index(c.args.deep_view(), i - 1);
                        assert(r@ =~= "("@ + value_text(c.value.deep_view()) + ")("@
                            + comma_join_prefix(value_list_texts(c.args.deep_view()), i as nat));
                    }
                }
                r.append(")");
                proof {
                    lemma_value_list_texts_len(c.args.deep_view());
                    lemma_comma_join_prefix_full(value_list_texts(c.args.deep_view()));
                    lemma_value_seq_view(c.args@);
                    reveal_with_fuel(value_view, 2);
                    reveal_with_fuel(ccall_view, 2);
                    assert(value_seq_view(c.args@) =~= c.args.deep_view());
                    assert(r@ =~= value_text(self.deep_view()));
                }
                r
            },
        }
    }
}

/// The spelling of a binary operator as a string slice.
pub fn binaryop_str(op: &BinaryOp) -> (r: &'static str)
    ensures
        r@ == binaryop_text(*op),
{
    proof {
        reveal_strlit("+");
        reveal_strlit("-");
        reveal_strlit("*");
        reveal_strlit("/");
        reveal_strlit("%");
        reveal_strlit("==");
        reveal_strlit("!=");
        reveal_strlit("<");
        reveal_strlit("<=");
        reveal_strlit(">");
        reveal_strlit(">=");
    }
    match op {
        BinaryOp::Add => "+",
        BinaryOp::Sub => "-",
        BinaryOp::Mul => "*",
        BinaryOp::Div => "/",
        BinaryOp::Mod => "%",
        BinaryOp::Eq => "==",
        BinaryOp::Neq => "!=",
        BinaryOp::Lt => "<",
        BinaryOp::Le => "<=",
        BinaryOp::Gt => ">",
        BinaryOp::Ge => ">=",
    }
}

impl BinOp {
    pub fn new(lhs: Value, rhs: Value, op: BinaryOp) -> (r: Self)
        ensures
            r.deep_view() == (BinOpV {
                lhs: Box::new(lhs.deep_view()),
                rhs: Box::new(rhs.deep_view()),
                op,
            }),
    {
        let r = Self { lhs: Box::new(lhs), rhs: Box::new(rhs), op };
        proof {
            assert(r.deep_view() =~= BinOpV {
                lhs: Box::new(lhs.deep_view()),
                rhs: Box::new(rhs.deep_view()),
                op,
            });
        }
        r
    }

    /// The left operand, whose type a binary-operation value inherits.
    pub fn lhs(&self) -> (r: &Value)
        ensures
            r.deep_view() == *self.deep_view().lhs,
    {
        &self.lhs
    }
}

impl CGetAddr {
    pub fn new(value: Value) -> (r: Self)
        ensures
            r.deep_view() == Box::new(value.deep_view()),
    {
        let r = Self { value: Box::new(value) };
        proof {
            assert(r.deep_view() =~= Box::new(value.deep_view()));
        }
        r
    }
}

impl CConvertType {
    pub fn new(value: Value, type_: CType) -> (r: Self)
        ensures
            r.deep_view() == (CConvertTypeV {
                value: Box::new(value.deep_view()),
                type_: type_.deep_view(),
            }),
    {
        let r = Self { value: Box::new(value), type_ };
        proof {
            assert(r.deep_view() =~= CConvertTypeV {
                value: Box::new(value.deep_view()),
                type_: type_.deep_view(),
            });
        }
        r
    }
}

impl CCall {
    pub fn new(value: Value, args: Vec<Value>) -> (r: Self)
        ensures
            r.deep_view() == (CCallV { value: Box::new(value.deep_view()), args: args.deep_view() }),
    {
        let r = Self { value: Box::new(value), args };
        proof {
            lemma_value_seq_view(args@);
            assert(value_seq_view(args@) =~= args.deep_view());
            assert(r.deep_view() =~= CCallV {
                value: Box::new(value.deep_view()),
                args: args.deep_view(),
            });
        }
        r
    }
}

} // verus!

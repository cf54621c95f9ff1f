//! The abstract syntax tree of the source language, together with the source
//! span record attached to every node and a plain-text renderer for
//! diagnostics.
//!
//! Every node also has a mathematical *semantic view*: the same tree with
//! strings abstracted to character sequences and spans dropped.  Spans are
//! carried for diagnostics only and never influence lowering, so the semantic
//! contracts of the parser and of the code generator are stated over these
//! views.
use crate::text::char_repeat;
use crate::text::dec_str;
use crate::text::u64_to_string;
use crate::text::append_repeat;
use vstd::prelude::*;

verus! {

/// A source location: start and end as 1-based (line, column) pairs, the text
/// of the first source line covered, and the file name.
pub struct Span {
    pub start: (usize, usize),
    pub end: (usize, usize),
    pub string: String,
    pub file: String,
}

/// Mathematical view of a [`Span`].
#[verifier::ext_equal]
pub struct SpanV {
    pub start: (usize, usize),
    pub end: (usize, usize),
    pub string: Seq<char>,
    pub file: Seq<char>,
}

impl DeepView for Span {
    type V = SpanV;

    open spec fn deep_view(&self) -> SpanV {
        SpanV {
            start: self.start,
            end: self.end,
            string: self.string@,
            file: self.file@,
        }
    }
}

/// The exact text of the diagnostic block that [`Span::show`] renders: an
/// `error:` head line, a `-->` location line, and the offending source line
/// with a `^^^` pointer underneath.
pub open spec fn span_show_text(s: SpanV, msg: Seq<char>) -> Seq<char> {
    let numlen = dec_str(s.start.0 as nat).len();
    let pad = if s.start.1 >= 1 {
        (s.start.1 - 1) as nat
    } else {
        0
    };
    let carets = if s.end.1 >= s.start.1 {
        (s.end.1 - s.start.1) as nat
    } else {
        0
    };
    "error: "@ + msg + "\n"@ + char_repeat(' ', numlen) + "--> "@ + s.file + ":"@ + dec_str(
        s.start.0 as nat,
    ) + ":"@ + dec_str(s.start.1 as nat) + "\n"@ + char_repeat(' ', (numlen + 1) as nat) + "|\n"@
        + dec_str(s.start.0 as nat) + " | "@ + s.string + "\n"@ + char_repeat(
        ' ',
        (numlen + 1) as nat,
    ) + "| "@ + char_repeat(' ', pad) + char_repeat('^', carets)
}

impl Span {
    pub fn new(start: (usize, usize), end: (usize, usize), code: String, file: String) -> (r: Span)
        ensures
            r.deep_view() == (SpanV { start, end, string: code@, file: file@ }),
    {
        Span { start, end, string: code, file }
    }

    /// An identical copy of this span.
    pub fn dup(&self) -> (r: Span)
        ensures
            r.deep_view() == self.deep_view(),
    {
        let r = Span {
            start: self.start,
            end: self.end,
            string: self.string.clone(),
            file: self.file.clone(),
        };
        proof {
            assert(r.deep_view() =~= self.deep_view());
        }
        r
    }

    /// Renders the diagnostic block that points at this span, with `msg` as
    /// the message of its `error:` head line.
    pub fn show(&self, error_string: String) -> (r: String)
        ensures
            r@ == span_show_text(self.deep_view(), error_string@),
    {
        proof {
            reveal_strlit("error: ");
            reveal_strlit("\n");
            reveal_strlit(" ");
            reveal_strlit("--> ");
            reveal_strlit(":");
            reveal_strlit("|\n");
            reveal_strlit(" | ");
            reveal_strlit("| ");
            reveal_strlit("^");
        }
        let line_str = u64_to_string(self.start.0 as u64);
        let numlen = line_str.unicode_len();
        let mut r = String::from_str("error: ");
        r.append(error_string.as_str());
        r.append("\n");
        append_repeat(&mut r, " ", numlen);
        r.append("--> ");
        r.append(self.file.as_str());
        r.append(":");
        r.append(line_str.as_str());
        r.append(":");
        let col_str = u64_to_string(self.start.1 as u64);
        r.append(col_str.as_str());
        r.append("\n");
        append_repeat(&mut r, " ", numlen);
        r.append(" ");
        r.append("|\n");
        r.append(line_str.as_str());
        r.append(" | ");
        r.append(self.string.as_str());
        r.append("\n");
        append_repeat(&mut r, " ", numlen);
        r.append(" ");
        r.append("| ");
        let pad = if self.start.1 >= 1 {
            self.start.1 - 1
        } else {
            0
        };
        append_repeat(&mut r, " ", pad);
        let carets = if self.end.1 >= self.start.1 {
            self.end.1 - self.start.1
        } else {
            0
        };
        append_repeat(&mut r, "^", carets);
        proof {
            assert(char_repeat(' ', (numlen + 1) as nat) =~= char_repeat(' ', numlen as nat)
                + seq![' ']);
            assert(r@ =~= span_show_text(self.deep_view(), error_string@));
        }
        r
    }
}

/// The primitive type names of the source language.
#[derive(Clone, Copy)]
pub enum TypeEnum {
    U64,
    U32,
    U16,
    U8,
    I64,
    I32,
    I16,
    I8,
    Void,
}

/// A source-level type: a primitive base and a count of trailing pointer
/// markers.  The pointer depth is parsed and carried but not yet consumed by
/// lowering.
pub struct Type {
    pub ty: TypeEnum,
    pub star: usize,
    pub span: Span,
}

#[verifier::ext_equal]
pub struct TypeV {
    pub ty: TypeEnum,
    pub star: usize,
}

impl DeepView for Type {
    type V = TypeV;

    open spec fn deep_view(&self) -> TypeV {
        TypeV { ty: self.ty, star: self.star }
    }
}

#[derive(Clone, Copy)]
pub enum UnaryOp {
    Positive,
    Negative,
    Not,
}

#[derive(Clone, Copy)]
pub enum BinaryOp {
    Mul,
    Div,
    Mod,
    Add,
    Sub,
    Lt,
    Gt,
    Le,
    Ge,
    Eq,
    Neq,
}

pub struct Number {
    pub num: u64,
    pub span: Span,
}

pub struct LVal {
    pub ids: Vec<String>,
    pub span: Span,
    pub exp: Option<Exp>,
}

pub struct GetAddr {
    pub lval: LVal,
    pub span: Span,
}

pub struct ConvertType {
    pub exp: Exp,
    pub ty: Type,
    pub span: Span,
}

pub struct Call {
    pub exp: Exp,
    pub args: Vec<Exp>,
    pub span: Span,
}

pub struct ConstExp {
    pub exp: Exp,
}

pub enum Array {
    List(Vec<Exp>, Span),
    Template(Exp, Box<ConstExp>, Span),
}

pub enum Deref {
    DerefId(LVal, Span),
    DerefExp(Exp, Span),
    DerefPtrExp(Exp, Exp, Span),
    DerefPtr(LVal, Exp, Span),
}

pub enum Exp {
    Exp(Box<Exp>, Span),
    Number(Number),
    LVal(Box<LVal>),
    Str(String, Span),
    Unary(UnaryOp, Box<Exp>, Span),
    Binary(Box<Exp>, BinaryOp, Box<Exp>, Span),
    GetAddr(Box<GetAddr>),
    Deref(Box<Deref>),
    Array(Box<Array>),
    ConvertType(Box<ConvertType>),
    Call(Box<Call>),
}

/// Semantic view of an expression.
#[verifier::ext_equal]
pub enum ExpV {
    Paren(Box<ExpV>),
    Number(u64),
    LVal(LValV),
    Str(Seq<char>),
    Unary(UnaryOp, Box<ExpV>),
    Binary(Box<ExpV>, BinaryOp, Box<ExpV>),
    GetAddr(LValV),
    Deref(DerefV),
    Array(ArrayV),
    ConvertType(Box<ExpV>, TypeV),
    Call(Box<ExpV>, Seq<ExpV>),
}

#[verifier::ext_equal]
pub struct LValV {
    pub ids: Seq<Seq<char>>,
    pub exp: Option<Box<ExpV>>,
}

#[verifier::ext_equal]
pub enum DerefV {
    DerefId(LValV),
    DerefExp(Box<ExpV>),
    DerefPtrExp(Box<ExpV>, Box<ExpV>),
    DerefPtr(LValV, Box<ExpV>),
}

#[verifier::ext_equal]
pub enum ArrayV {
    List(Seq<ExpV>),
    Template(Box<ExpV>, Box<ExpV>),
}

pub open spec fn exp_sem(e: Exp) -> ExpV
    decreases e,
{
    match e {
        Exp::Exp(inner, _) => ExpV::Paren(Box::new(exp_sem(*inner))),
        Exp::Number(n) => ExpV::Number(n.num),
        Exp::LVal(l) => ExpV::LVal(lval_sem(*l)),
        Exp::Str(s, _) => ExpV::Str(s@),
        Exp::Unary(op, inner, _) => ExpV::Unary(op, Box::new(exp_sem(*inner))),
        Exp::Binary(lhs, op, rhs, _) => ExpV::Binary(
            Box::new(exp_sem(*lhs)),
            op,
            Box::new(exp_sem(*rhs)),
        ),
        Exp::GetAddr(g) => ExpV::GetAddr(lval_sem(g.lval)),
        Exp::Deref(d) => ExpV::Deref(deref_sem(*d)),
        Exp::Array(a) => ExpV::Array(array_sem(*a)),
        Exp::ConvertType(c) => ExpV::ConvertType(Box::new(exp_sem(c.exp)), c.ty.deep_view()),
        Exp::Call(c) => ExpV::Call(Box::new(exp_sem(c.exp)), exp_list_sem(c.args@)),
    }
}

pub open spec fn exp_list_sem(es: Seq<Exp>) -> Seq<ExpV>
    decreases es,
{
    if es.len() == 0 {
        Seq::empty()
    } else {
        seq![exp_sem(es[0])] + exp_list_sem(es.drop_first())
    }
}

pub open spec fn lval_sem(l: LVal) -> LValV
    decreases l,
{
    LValV {
        ids: l.ids.deep_view(),
        exp: match l.exp {
            Option::Some(e) => Option::Some(Box::new(exp_sem(e))),
            Option::None => Option::None,
        },
    }
}

pub open spec fn deref_sem(d: Deref) -> DerefV
    decreases d,
{
    match d {
        Deref::DerefId(l, _) => DerefV::DerefId(lval_sem(l)),
        Deref::DerefExp(e, _) => DerefV::DerefExp(Box::new(exp_sem(e))),
        Deref::DerefPtrExp(a, b, _) => DerefV::DerefPtrExp(
            Box::new(exp_sem(a)),
            Box::new(exp_sem(b)),
        ),
        Deref::DerefPtr(l, e, _) => DerefV::DerefPtr(lval_sem(l), Box::new(exp_sem(e))),
    }
}

pub open spec fn array_sem(a: Array) -> ArrayV
    decreases a,
{
    match a {
        Array::List(es, _) => ArrayV::List(exp_list_sem(es@)),
        Array::Template(e, c, _) => ArrayV::Template(
            Box::new(exp_sem(e)),
            Box::new(exp_sem((*c).exp)),
        ),
    }
}

pub struct Param {
    pub name: String,
    pub param_type: Type,
    pub span: Span,
}

#[verifier::ext_equal]
pub struct ParamV {
    pub name: Seq<char>,
    pub param_type: TypeV,
}

impl DeepView for Param {
    type V = ParamV;

    open spec fn deep_view(&self) -> ParamV {
        ParamV { name: self.name@, param_type: self.param_type.deep_view() }
    }
}

pub struct VarDecl {
    pub name: String,
    pub var_type: Type,
    pub initial_value: Exp,
    pub span: Span,
}

#[verifier::ext_equal]
pub struct VarDeclV {
    pub name: Seq<char>,
    pub var_type: TypeV,
    pub initial_value: ExpV,
}

pub struct ConstDecl {
    pub name: String,
    pub initial_value: ConstInitialValue,
    pub span: Span,
}

#[verifier::ext_equal]
pub struct ConstDeclV {
    pub name: Seq<char>,
    pub initial_value: ConstInitialValueV,
}

pub enum ConstInitialValueEnum {
    Function(FunctionDef),
    Exp(ConstExp),
}

pub struct ConstInitialValue {
    pub value: ConstInitialValueEnum,
    pub span: Span,
}

#[verifier::ext_equal]
pub enum ConstInitialValueV {
    Function(FunctionDefV),
    Exp(Box<ExpV>),
}

pub struct FunctionDef {
    pub params: Vec<Param>,
    pub return_type: Type,
    pub block: Block,
    pub span: Span,
}

#[verifier::ext_equal]
pub struct FunctionDefV {
    pub params: Seq<ParamV>,
    pub return_type: TypeV,
    pub block: BlockV,
}

pub struct ExternFunctionDef {
    pub name: String,
    pub params: Vec<Param>,
    pub return_type: Type,
    pub span: Span,
}

#[verifier::ext_equal]
pub struct ExternFunctionDefV {
    pub name: Seq<char>,
    pub params: Seq<ParamV>,
    pub return_type: TypeV,
}

impl DeepView for ExternFunctionDef {
    type V = ExternFunctionDefV;

    open spec fn deep_view(&self) -> ExternFunctionDefV {
        ExternFunctionDefV {
            name: self.name@,
            params: self.params.deep_view(),
            return_type: self.return_type.deep_view(),
        }
    }
}

pub enum Decl {
    VarDecl(VarDecl),
    ConstDecl(ConstDecl),
    ExternFunctionDef(ExternFunctionDef),
}

#[verifier::ext_equal]
pub enum DeclV {
    VarDecl(VarDeclV),
    ConstDecl(ConstDeclV),
    ExternFunctionDef(ExternFunctionDefV),
}

pub struct Block {
    pub items: Vec<BlockItem>,
    pub span: Span,
}

#[verifier::ext_equal]
pub struct BlockV {
    pub items: Seq<BlockItemV>,
}

pub enum BlockItem {
    Statement(Statement),
    Declaration(Decl),
}

#[verifier::ext_equal]
pub enum BlockItemV {
    Statement(StatementV),
    Declaration(Box<DeclV>),
}

pub enum Statement {
    Return(Return),
    Exp(Option<Exp>),
}

#[verifier::ext_equal]
pub enum StatementV {
    Return(Option<Box<ExpV>>),
    Exp(Option<Box<ExpV>>),
}

pub struct Return {
    pub value: Option<Exp>,
    pub span: Span,
}

pub struct CompUnit {
    pub global_items: Vec<GlobalItem>,
    pub span: Span,
}

#[verifier::ext_equal]
pub struct CompUnitV {
    pub global_items: Seq<GlobalItemV>,
}

pub enum GlobalItem {
    Decl(Decl),
}

#[verifier::ext_equal]
pub enum GlobalItemV {
    Decl(Box<DeclV>),
}

pub open spec fn decl_sem(d: Decl) -> DeclV
    decreases d,
{
    match d {
        Decl::VarDecl(v) => DeclV::VarDecl(
            VarDeclV {
                name: v.name@,
                var_type: v.var_type.deep_view(),
                initial_value: exp_sem(v.initial_value),
            },
        ),
        Decl::ConstDecl(c) => DeclV::ConstDecl(
            ConstDeclV { name: c.name@, initial_value: const_init_sem(c.initial_value) },
        ),
        Decl::ExternFunctionDef(e) => DeclV::ExternFunctionDef(e.deep_view()),
    }
}

pub open spec fn const_init_sem(c: ConstInitialValue) -> ConstInitialValueV
    decreases c,
{
    match c.value {
        ConstInitialValueEnum::Function(f) => ConstInitialValueV::Function(function_def_sem(f)),
        ConstInitialValueEnum::Exp(e) => ConstInitialValueV::Exp(Box::new(exp_sem(e.exp))),
    }
}

pub open spec fn function_def_sem(f: FunctionDef) -> FunctionDefV
    decreases f,
{
    FunctionDefV {
        params: f.params.deep_view(),
        return_type: f.return_type.deep_view(),
        block: block_sem(f.block),
    }
}

pub open spec fn block_sem(b: Block) -> BlockV
    decreases b,
{
    BlockV { items: block_items_sem(b.items@) }
}

pub open spec fn block_items_sem(items: Seq<BlockItem>) -> Seq<BlockItemV>
    decreases items,
{
    if items.len() == 0 {
        Seq::empty()
    } else {
        seq![block_item_sem(items[0])] + block_items_sem(items.drop_first())
    }
}

pub open spec fn block_item_sem(it: BlockItem) -> BlockItemV
    decreases it,
{
    match it {
        BlockItem::Statement(s) => BlockItemV::Statement(stmt_sem(s)),
        BlockItem::Declaration(d) => BlockItemV::Declaration(Box::new(decl_sem(d))),
    }
}

pub open spec fn stmt_sem(s: Statement) -> StatementV
    decreases s,
{
    match s {
        Statement::Return(r) => StatementV::Return(
            match r.value {
                Option::Some(e) => Option::Some(Box::new(exp_sem(e))),
                Option::None => Option::None,
            },
        ),
        Statement::Exp(oe) => StatementV::Exp(
            match oe {
                Option::Some(e) => Option::Some(Box::new(exp_sem(e))),
                Option::None => Option::None,
            },
        ),
    }
}

pub open spec fn comp_unit_sem(u: CompUnit) -> CompUnitV
    decreases u,
{
    CompUnitV { global_items: global_items_sem(u.global_items@) }
}

pub open spec fn global_items_sem(items: Seq<GlobalItem>) -> Seq<GlobalItemV>
    decreases items,
{
    if items.len() == 0 {
        Seq::empty()
    } else {
        seq![global_item_sem(items[0])] + global_items_sem(items.drop_first())
    }
}

pub open spec fn global_item_sem(it: GlobalItem) -> GlobalItemV
    decreases it,
{
    match it {
        GlobalItem::Decl(d) => GlobalItemV::Decl(Box::new(decl_sem(d))),
    }
}

impl Exp {
    /// The span of this expression node.
    pub fn get_span(&self) -> (r: Span)
        ensures
            r.deep_view() == self.spec_span(),
    {
        match self {
            Exp::Exp(_, span) => span.dup(),
            Exp::Number(number) => number.span.dup(),
            Exp::LVal(lval) => lval.span.dup(),
            Exp::Unary(_, _, span) => span.dup(),
            Exp::Binary(_, _, _, span) => span.dup(),
            Exp::GetAddr(get_addr) => get_addr.span.dup(),
            Exp::Str(_, span) => span.dup(),
            Exp::Deref(deref) => deref.get_span(),
            Exp::Array(array) => array.get_span(),
            Exp::ConvertType(convert_type) => convert_type.span.dup(),
            Exp::Call(call) => call.span.dup(),
        }
    }

    pub open spec fn spec_span(&self) -> SpanV {
        match self {
            Exp::Exp(_, span) => span.deep_view(),
            Exp::Number(number) => number.span.deep_view(),
            Exp::LVal(lval) => lval.span.deep_view(),
            Exp::Unary(_, _, span) => span.deep_view(),
            Exp::Binary(_, _, _, span) => span.deep_view(),
            Exp::GetAddr(get_addr) => get_addr.span.deep_view(),
            Exp::Str(_, span) => span.deep_view(),
            Exp::Deref(deref) => deref.spec_span(),
            Exp::Array(array) => array.spec_span(),
            Exp::ConvertType(convert_type) => convert_type.span.deep_view(),
            Exp::Call(call) => call.span.deep_view(),
        }
    }
}

impl Deref {
    pub fn get_span(&self) -> (r: Span)
        ensures
            r.deep_view() == self.spec_span(),
    {
        match self {
            Deref::DerefId(_, span) => span.dup(),
            Deref::DerefExp(_, span) => span.dup(),
            Deref::DerefPtrExp(_, _, span) => span.dup(),
            Deref::DerefPtr(_, _, span) => span.dup(),
        }
    }

    pub open spec fn spec_span(&self) -> SpanV {
        match self {
            Deref::DerefId(_, span) => span.deep_view(),
            Deref::DerefExp(_, span) => span.deep_view(),
            Deref::DerefPtrExp(_, _, span) => span.deep_view(),
            Deref::DerefPtr(_, _, span) => span.deep_view(),
        }
    }
}

impl Array {
    pub fn get_span(&self) -> (r: Span)
        ensures
            r.deep_view() == self.spec_span(),
    {
        match self {
            Array::List(_, span) => span.dup(),
            Array::Template(_, _, span) => span.dup(),
        }
    }

    pub open spec fn spec_span(&self) -> SpanV {
        match self {
            Array::List(_, span) => span.deep_view(),
            Array::Template(_, _, span) => span.deep_view(),
        }
    }
}

} // verus!

//! C functions, blocks, statements, and their rendering.
use crate::cgen::decl::CConst;
use crate::cgen::decl::CConstV;
use crate::cgen::decl::CVariable;
use crate::cgen::decl::CVariableV;
use crate::cgen::decl::cconst_text;
use crate::cgen::decl::cvariable_text;
use crate::cgen::types::CType;
use crate::cgen::types::CTypeV;
use crate::cgen::types::ctype_text;
use crate::cgen::values::Value;
use crate::cgen::values::ValueV;
use crate::cgen::values::value_text;
use crate::text::comma_join;
use crate::text::comma_join_prefix;
use crate::text::lemma_comma_join_prefix_full;
use crate::text::lemma_comma_join_prefix_step;
use vstd::prelude::*;

verus! {

/// A top-level C declaration.
pub enum CDeclaration {
    FunctionDef(CFunction),
    ConstDef(CConst),
    VariableDef(CVariable),
}

/// Mathematical view of [`CDeclaration`].
#[verifier::ext_equal]
pub enum CDeclarationV {
    FunctionDef(CFunctionV),
    ConstDef(CConstV),
    VariableDef(CVariableV),
}

impl DeepView for CDeclaration {
    type V = CDeclarationV;

    closed spec fn deep_view(&self) -> CDeclarationV {
        cdeclaration_view(*self)
    }
}

spec fn cdeclaration_view(d: CDeclaration) -> CDeclarationV
    decreases d,
{
    match d {
        CDeclaration::FunctionDef(f) => CDeclarationV::FunctionDef(cfunction_view(f)),
        CDeclaration::ConstDef(c) => CDeclarationV::ConstDef(c.deep_view()),
        CDeclaration::VariableDef(v) => CDeclarationV::VariableDef(v.deep_view()),
    }
}

/// The text of one top-level declaration.
pub open spec fn cdeclaration_text(d: CDeclarationV) -> Seq<char>
    decreases d,
{
    match d {
        CDeclarationV::FunctionDef(f) => cfunction_text(f),
        CDeclarationV::ConstDef(c) => cconst_text(c),
        CDeclarationV::VariableDef(v) => cvariable_text(v),
    }
}

impl CDeclaration {
    pub fn show(&self) -> (r: String)
        ensures
            r@ == cdeclaration_text(self.deep_view()),
        decreases self,
    {
        match self {
            CDeclaration::FunctionDef(f) => f.show(),
            CDeclaration::ConstDef(c) => c.show(),
            CDeclaration::VariableDef(v) => v.show(),
        }
    }
}


/// A C function: its name, return type, linkage flags, parameters and body.
/// A foreign function renders as a prototype only; a defined one renders with
/// its body, optionally prefixed `static`.
pub struct CFunction {
    name: String,
    return_type: CType,
    is_static: bool,
    is_foreign: bool,
    pub body: CBlock,
    params: Vec<(CType, String)>,
}

/// Mathematical view of [`CFunction`].
#[verifier::ext_equal]
pub struct CFunctionV {
    pub name: Seq<char>,
    pub return_type: CTypeV,
    pub is_static: bool,
    pub is_foreign: bool,
    pub body: Seq<CBlockItemV>,
    pub params: Seq<(CTypeV, Seq<char>)>,
}

impl DeepView for CFunction {
    type V = CFunctionV;

    closed spec fn deep_view(&self) -> CFunctionV {
        cfunction_view(*self)
    }
}

spec fn cfunction_view(f: CFunction) -> CFunctionV
    decreases f,
{
    CFunctionV {
        name: f.name@,
        return_type: f.return_type.deep_view(),
        is_static: f.is_static,
        is_foreign: f.is_foreign,
        body: cblock_view(f.body),
        params: cparams_view(f.params@),
    }
}

/// The ordered items of a function body.
pub struct CBlock {
    items: Vec<CBlockItem>,
}

impl DeepView for CBlock {
    type V = Seq<CBlockItemV>;

    closed spec fn deep_view(&self) -> Seq<CBlockItemV> {
        cblock_view(*self)
    }
}

spec fn cblock_view(b: CBlock) -> Seq<CBlockItemV>
    decreases b,
{
    cblock_items_view(b.items@)
}

spec fn cblock_items_view(items: Seq<CBlockItem>) -> Seq<CBlockItemV>
    decreases items,
{
    if items.len() == 0 {
        Seq::empty()
    } else {
        seq![cblock_item_view(items[0])] + cblock_items_view(items.drop_first())
    }
}

proof fn lemma_cblock_items_view(items: Seq<CBlockItem>)
    ensures
        cblock_items_view(items).len() == items.len(),
        forall|i: int| 0 <= i < items.len() ==> cblock_items_view(items)[i]
            == items[i].deep_view(),
    decreases items,
{
    if items.len() > 0 {
        lemma_cblock_items_view(items.drop_first());
        assert forall|i: int| 0 <= i < items.len() implies cblock_items_view(items)[i]
            == items[i].deep_view() by {
            if i > 0 {
                assert(cblock_items_view(items)[i] == cblock_items_view(items.drop_first())[i
                    - 1]);
                assert(items.drop_first()[i - 1] == items[i]);
            }
        }
    }
}

/// One line of a function body: a statement, a declaration, or a
/// value-discarding expression (possibly empty).
pub enum CBlockItem {
    Statement(CStatement),
    Decl(CDeclaration),
    Exp(Option<Value>),
}

/// Mathematical view of [`CBlockItem`].
#[verifier::ext_equal]
pub enum CBlockItemV {
    Statement(CStatementV),
    Decl(Box<CDeclarationV>),
    Exp(Option<ValueV>),
}

impl DeepView for CBlockItem {
    type V = CBlockItemV;

    closed spec fn deep_view(&self) -> CBlockItemV {
        cblock_item_view(*self)
    }
}

spec fn cblock_item_view(item: CBlockItem) -> CBlockItemV
    decreases item,
{
    match item {
        CBlockItem::Statement(s) => CBlockItemV::Statement(cstatement_view(s)),
        CBlockItem::Decl(d) => CBlockItemV::Decl(Box::new(cdeclaration_view(d))),
        CBlockItem::Exp(v) => CBlockItemV::Exp(
            match v {
                Option::Some(value) => Option::Some(value.deep_view()),
                Option::None => Option::None,
            },
        ),
    }
}

/// A C statement; only `return` exists in the emitted subset.
pub enum CStatement {
    Return(CReturn),
}

/// Mathematical view of [`CStatement`].
#[verifier::ext_equal]
pub enum CStatementV {
    Return(Option<ValueV>),
}

impl DeepView for CStatement {
    type V = CStatementV;

    closed spec fn deep_view(&self) -> CStatementV {
        cstatement_view(*self)
    }
}

spec fn cparams_view(ps: Seq<(CType, String)>) -> Seq<(CTypeV, Seq<char>)> {
    Seq::new(ps.len(), |i: int| (ps[i].0.deep_view(), ps[i].1@))
}

spec fn cstatement_view(s: CStatement) -> CStatementV
    decreases s,
{
    match s {
        CStatement::Return(r) => CStatementV::Return(
            match r.value {
                Option::Some(v) => Option::Some(v.deep_view()),
                Option::None => Option::None,
            },
        ),
    }
}

/// A return statement with an optional value.
pub struct CReturn {
    value: Option<Value>,
}

impl CReturn {
    pub fn new(value: Option<Value>) -> (r: Self)
        ensures
            CStatement::Return(r).deep_view() == CStatementV::Return(
                match value {
                    Option::Some(v) => Option::Some(v.deep_view()),
                    Option::None => Option::None,
                },
            ),
    {
        Self { value }
    }
}

/// The parameter list of a function as text: `ty name` pairs, comma joined.
pub open spec fn cparam_texts(ps: Seq<(CTypeV, Seq<char>)>) -> Seq<Seq<char>>
    decreases ps,
{
    if ps.len() == 0 {
        Seq::empty()
    } else {
        seq![ctype_text(ps[0].0) + " "@ + ps[0].1] + cparam_texts(ps.drop_first())
    }
}

pub proof fn lemma_cparam_texts_len(ps: Seq<(CTypeV, Seq<char>)>)
    ensures
        cparam_texts(ps).len() == ps.len(),
    decreases ps,
{
    if ps.len() > 0 {
        lemma_cparam_texts_len(ps.drop_first());
    }
}

pub proof fn lemma_cparam_texts_index(ps: Seq<(CTypeV, Seq<char>)>, i: int)
    requires
        0 <= i < ps.len(),
    ensures
        cparam_texts(ps)[i] == ctype_text(ps[i].0) + " "@ + ps[i].1,
    decreases ps,
{
    if i > 0 {
        lemma_cparam_texts_index(ps.drop_first(), i - 1);
        lemma_cparam_texts_len(ps.drop_first());
    }
}

/// The rendered text of a function: a prototype for a foreign function, a
/// full definition otherwise.
pub open spec fn cfunction_text(f: CFunctionV) -> Seq<char>
    decreases f,
{
    (if f.is_static {
        "static "@
    } else {
        Seq::<char>::empty()
    }) + ctype_text(f.return_type) + " "@ + f.name + "("@ + comma_join(cparam_texts(f.params)) + (
    if f.is_foreign {
        ");"@
    } else {
        ") { \n"@ + cblock_text(f.body) + "}"@
    })
}

/// The lines of a block, each item followed by a newline.
pub open spec fn cblock_text(items: Seq<CBlockItemV>) -> Seq<char>
    decreases items,
{
    if items.len() == 0 {
        Seq::empty()
    } else {
        cblock_item_text(items[0]) + "\n"@ + cblock_text(items.drop_first())
    }
}

/// The text of one block item.
pub open spec fn cblock_item_text(item: CBlockItemV) -> Seq<char>
    decreases item,
{
    match item {
        CBlockItemV::Statement(s) => cstatement_text(s),
        CBlockItemV::Decl(d) => cdeclaration_text(*d),
        CBlockItemV::Exp(Option::Some(v)) => value_text(v) + ";"@,
        CBlockItemV::Exp(Option::None) => ";"@,
    }
}

/// The text of a statement.
pub open spec fn cstatement_text(s: CStatementV) -> Seq<char>
    decreases s,
{
    match s {
        CStatementV::Return(Option::Some(v)) => "return "@ + value_text(v) + ";"@,
        CStatementV::Return(Option::None) => "return;"@,
    }
}

pub proof fn lemma_cblock_text_snoc(items: Seq<CBlockItemV>)
    requires
        items.len() >= 1,
    ensures
        cblock_text(items) == cblock_text(items.drop_last()) + cblock_item_text(items.last())
            + "\n"@,
    decreases items.len(),
{
    if items.len() == 1 {
        assert(items.drop_last() =~= Seq::<CBlockItemV>::empty());
        assert(cblock_text(items.drop_first()) =~= Seq::<char>::empty());
        assert(cblock_text(items) =~= cblock_text(items.drop_last()) + cblock_item_text(
            items.last(),
        ) + "\n"@);
    } else {
        lemma_cblock_text_snoc(items.drop_first());
        assert(items.drop_first().drop_last() =~= items.drop_last().drop_first());
        assert(items.drop_first().last() == items.last());
        assert(cblock_text(items) =~= cblock_text(items.drop_last()) + cblock_item_text(
            items.last(),
        ) + "\n"@);
    }
}

impl CBlock {
    pub fn new() -> (r: Self)
        ensures
            r.deep_view() =~= Seq::<CBlockItemV>::empty(),
    {
        Self { items: Vec::new() }
    }

    pub fn push(&mut self, item: CBlockItem)
        ensures
            final(self).deep_view() =~= old(self).deep_view().push(item.deep_view()),
    {
        self.items.push(item);
        proof {
            lemma_cblock_items_view(old(self).items@);
            lemma_cblock_items_view(self.items@);
            assert forall|i: int| 0 <= i < self.items@.len() implies cblock_items_view(
                self.items@,
            )[i] == old(self).deep_view().push(item.deep_view())[i] by {
                if i < old(self).items@.len() {
                    assert(self.items@[i] == old(self).items@[i]);
                } else {
                    assert(self.items@[i] == item);
                }
            }
            assert(self.deep_view() =~= old(self).deep_view().push(item.deep_view()));
        }
    }

    /// Renders the block body, one item per line.
    pub fn show(&self) -> (r: String)
        ensures
            r@ == cblock_text(self.deep_view()),
        decreases self,
    {
        proof {
            reveal_strlit("\n");
        }
        let mut r = String::new();
        let mut i: usize = 0;
        while i < self.items.len()
            invariant
                i <= self.items.len(),
                r@ == cblock_text(self.deep_view().take(i as int)),
            decreases self.items.len() - i,
        {
            proof {
                reveal_strlit("\n");
                assert(decreases_to!(*self => self.items));
                assert(decreases_to!(self.items => self.items@[i as int]));
                lemma_cblock_items_view(self.items@);
            }
            let piece = self.items[i].show();
            r.append(piece.as_str());
            r.append("\n");
            i = i + 1;
            proof {
                lemma_cblock_items_view(self.items@);
                lemma_cblock_text_snoc(self.deep_view().take(i as int));
                assert(self.deep_view().take(i as int).drop_last() =~= self.deep_view().take(
                    i - 1,
                ));
                assert(self.deep_view().take(i as int).last() == self.items@[i - 1].deep_view());
                assert(r@ =~= cblock_text(self.deep_view().take(i as int)));
            }
        }
        proof {
            lemma_cblock_items_view(self.items@);
            assert(self.deep_view().take(self.items.len() as int) =~= self.deep_view());
        }
        r
    }
}

impl CBlockItem {
    pub fn show(&self) -> (r: String)
        ensures
            r@ == cblock_item_text(self.deep_view()),
        decreases self,
    {
        proof {
            reveal_strlit(";");
        }
        match self {
            CBlockItem::Statement(s) => s.show(),
            CBlockItem::Decl(d) => d.show(),
            CBlockItem::Exp(Option::Some(v)) => {
                let mut r = v.show();
                r.append(";");
                proof {
                    assert(r@ =~= cblock_item_text(self.deep_view()));
                }
                r
            },
            CBlockItem::Exp(Option::None) => {
                let r = String::from_str(";");
                proof {
                    assert(r@ =~= cblock_item_text(self.deep_view()));
                }
                r
            },
        }
    }
}

impl CStatement {
    pub fn show(&self) -> (r: String)
        ensures
            r@ == cstatement_text(self.deep_view()),
        decreases self,
    {
        proof {
            reveal_strlit("return ");
            reveal_strlit("return;");
            reveal_strlit(";");
        }
        match self {
            CStatement::Return(ret) => match &ret.value {
                Option::Some(v) => {
                    let mut r = String::from_str("return ");
                    let piece = v.show();
                    r.append(piece.as_str());
                    r.append(";");
                    proof {
                        assert(r@ =~= cstatement_text(self.deep_view()));
                    }
                    r
                },
                Option::None => {
                    let r = String::from_str("return;");
                    proof {
                        assert(r@ =~= cstatement_text(self.deep_view()));
                    }
                    r
                },
            },
        }
    }
}

impl CFunction {
    pub fn new(
        name: String,
        return_type: CType,
        is_static: bool,
        is_foreign: bool,
        params: Vec<(CType, String)>,
    ) -> (r: Self)
        ensures
            r.deep_view() == (CFunctionV {
                name: name@,
                return_type: return_type.deep_view(),
                is_static,
                is_foreign,
                body: Seq::<CBlockItemV>::empty(),
                params: params.deep_view(),
            }),
    {
        let r = Self { name, return_type, body: CBlock::new(), is_static, is_foreign, params };
        proof {
            assert(cparams_view(params@) =~= params.deep_view());
            assert(r.deep_view() =~= CFunctionV {
                name: name@,
                return_type: return_type.deep_view(),
                is_static,
                is_foreign,
                body: Seq::<CBlockItemV>::empty(),
                params: params.deep_view(),
            });
        }
        r
    }

    pub fn get_name(&self) -> (r: String)
        ensures
            r@ == self.deep_view().name,
    {
        self.name.clone()
    }

    /// Appends one item to this function's body.
    pub fn push_body_item(&mut self, item: CBlockItem)
        ensures
            final(self).deep_view() == (CFunctionV {
                body: old(self).deep_view().body.push(item.deep_view()),
                ..old(self).deep_view()
            }),
    {
        self.body.push(item);
        proof {
            assert(self.deep_view() =~= CFunctionV {
                body: old(self).deep_view().body.push(item.deep_view()),
                ..old(self).deep_view()
            });
        }
    }

    pub fn set_name(&mut self, name: String)
        ensures
            final(self).deep_view() == (CFunctionV { name: name@, ..old(self).deep_view() }),
    {
        self.name = name;
        proof {
            assert(self.deep_view() =~= CFunctionV { name: name@, ..old(self).deep_view() });
        }
    }

    /// Renders this function as C text.
    pub fn show(&self) -> (r: String)
        ensures
            r@ == cfunction_text(self.deep_view()),
        decreases self,
    {
        proof {
            reveal_strlit("static ");
            reveal_strlit(" ");
            reveal_strlit("(");
            reveal_strlit(");");
            reveal_strlit(") { \n");
            reveal_strlit("}");
            reveal_strlit(", ");
        }
        let mut r = if self.is_static {
            String::from_str("static ")
        } else {
            String::new()
        };
        let ret = self.return_type.show();
        r.append(ret.as_str());
        r.append(" ");
        r.append(self.name.as_str());
        r.append("(");
        let n = self.params.len();
        let mut i: usize = 0;
        while i < n
            invariant
                i <= n,
                n == self.params.len(),
                r@ == (if self.deep_view().is_static {
                    "static "@
                } else {
                    Seq::<char>::empty()
                }) + ctype_text(self.deep_view().return_type) + " "@ + self.deep_view().name + "("@
                    + comma_join_prefix(cparam_texts(self.deep_view().params), i as nat),
            decreases n - i,
        {
            proof {
                reveal_strlit(" ");
                reveal_strlit(", ");
            }
            let piece = self.params[i].0.show();
            r.append(piece.as_str());
            r.append(" ");
            r.append(self.params[i].1.as_str());
            if i + 1 < n {
                r.append(", ");
            }
            i = i + 1;
            proof {
                lemma_comma_join_prefix_step(cparam_texts(self.deep_view().params), (i - 1) as nat);
                lemma_cparam_texts_len(self.deep_view().params);
                lemma_cparam_texts_index(self.deep_view().params, i - 1);
                assert(r@ =~= (if self.deep_view().is_static {
                    "static "@
                } else {
                    Seq::<char>::empty()
                }) + ctype_text(self.deep_view().return_type) + " "@ + self.deep_view().name + "("@
                    + comma_join_prefix(cparam_texts(self.deep_view().params), i as nat));
            }
        }
        proof {
            lemma_cparam_texts_len(self.deep_view().params);
            lemma_comma_join_prefix_full(cparam_texts(self.deep_view().params));
        }
        if self.is_foreign {
            r.append(");");
            proof {
                assert(r@ =~= cfunction_text(self.deep_view()));
            }
            r
        } else {
            r.append(") { \n");
            let body = self.body.show();
            r.append(body.as_str());
            r.append("}");
            proof {
                assert(r@ =~= cfunction_text(self.deep_view()));
            }
            r
        }
    }
}

/// The view of a function wrapped as a top-level declaration.
pub proof fn lemma_decl_view_function(f: CFunction)
    ensures
        CDeclaration::FunctionDef(f).deep_view() == CDeclarationV::FunctionDef(f.deep_view()),
{
}

/// The view of a constant wrapped as a top-level declaration.
pub proof fn lemma_decl_view_const(c: CConst)
    ensures
        CDeclaration::ConstDef(c).deep_view() == CDeclarationV::ConstDef(c.deep_view()),
{
}

/// The view of a variable wrapped as a top-level declaration.
pub proof fn lemma_decl_view_variable(v: CVariable)
    ensures
        CDeclaration::VariableDef(v).deep_view() == CDeclarationV::VariableDef(v.deep_view()),
{
}

/// The view of a statement wrapped as a block item.
pub proof fn lemma_item_view_statement(s: CStatement)
    ensures
        CBlockItem::Statement(s).deep_view() == CBlockItemV::Statement(s.deep_view()),
{
}

/// The view of a declaration wrapped as a block item.
pub proof fn lemma_item_view_decl(d: CDeclaration)
    ensures
        CBlockItem::Decl(d).deep_view() == CBlockItemV::Decl(Box::new(d.deep_view())),
{
}

/// The view of an expression line wrapped as a block item.
pub proof fn lemma_item_view_exp(v: Option<Value>)
    ensures
        CBlockItem::Exp(v).deep_view() == CBlockItemV::Exp(
            match v {
                Option::Some(x) => Option::Some(x.deep_view()),
                Option::None => Option::None,
            },
        ),
{
}

} // verus!

//! The C intermediate representation and its deterministic textual rendering.
//!
//! Every node type has a mathematical view (`...V`) with strings abstracted to
//! character sequences, a `show` method rendering it as C text, and a spec
//! function giving that text exactly.
pub mod decl;
pub mod func;
pub mod scope;
pub mod types;
pub mod values;

use crate::cgen::decl::CConst;
use crate::cgen::decl::CVariable;
use crate::cgen::func::CBlockItem;
use crate::cgen::func::CFunction;
use crate::cgen::func::CFunctionV;
use crate::cgen::func::lemma_decl_view_const;
use crate::cgen::func::lemma_decl_view_function;
use crate::cgen::func::lemma_decl_view_variable;
pub use crate::cgen::func::CDeclaration;
pub use crate::cgen::func::CDeclarationV;
pub use crate::cgen::func::cdeclaration_text;
use crate::text::str_eq;
use vstd::prelude::*;

verus! {

/// A whole C translation unit: an ordered list of top-level declarations.
pub struct CProgram {
    items: Vec<CDeclaration>,
}

/// Mathematical view of [`CProgram`].
#[verifier::ext_equal]
pub struct CProgramV {
    pub items: Seq<CDeclarationV>,
}

impl DeepView for CProgram {
    type V = CProgramV;

    closed spec fn deep_view(&self) -> CProgramV {
        CProgramV { items: self.items.deep_view() }
    }
}

/// The fixed-width integer `typedef` lines emitted before any declaration.
pub open spec fn cprogram_header() -> Seq<char> {
    "typedef signed char i8;\ntypedef short i16;\ntypedef int i32;\ntypedef long long i64;\n\ntypedef unsigned char u8;\ntypedef unsigned short u16;\ntypedef unsigned int u32;\ntypedef unsigned long long u64;\n\n"@
}

/// The declarations of a program rendered in insertion order, one per line.
pub open spec fn cprogram_items_text(items: Seq<CDeclarationV>) -> Seq<char>
    decreases items.len(),
{
    if items.len() == 0 {
        Seq::empty()
    } else {
        cdeclaration_text(items[0]) + "\n"@ + cprogram_items_text(items.drop_first())
    }
}

/// The complete text of a program: the typedef header, then every declaration
/// in insertion order.
pub open spec fn cprogram_text(p: CProgramV) -> Seq<char> {
    cprogram_header() + cprogram_items_text(p.items)
}

impl CProgram {
    pub fn new() -> (r: Self)
        ensures
            r.deep_view().items =~= Seq::<CDeclarationV>::empty(),
    {
        Self { items: Vec::new() }
    }

    pub fn insert_function(&mut self, function: CFunction)
        ensures
            final(self).deep_view().items =~= old(self).deep_view().items.push(
                CDeclarationV::FunctionDef(function.deep_view()),
            ),
    {
        self.items.push(CDeclaration::FunctionDef(function));
        proof {
            lemma_decl_view_function(function);
            assert(self.deep_view().items =~= old(self).deep_view().items.push(
                CDeclarationV::FunctionDef(function.deep_view()),
            ));
        }
    }

    pub fn insert_const(&mut self, constant: CConst)
        ensures
            final(self).deep_view().items =~= old(self).deep_view().items.push(
                CDeclarationV::ConstDef(constant.deep_view()),
            ),
    {
        self.items.push(CDeclaration::ConstDef(constant));
        proof {
            lemma_decl_view_const(constant);
            assert(self.deep_view().items =~= old(self).deep_view().items.push(
                CDeclarationV::ConstDef(constant.deep_view()),
            ));
        }
    }

    pub fn insert_variable(&mut self, variable: CVariable)
        ensures
            final(self).deep_view().items =~= old(self).deep_view().items.push(
                CDeclarationV::VariableDef(variable.deep_view()),
            ),
    {
        self.items.push(CDeclaration::VariableDef(variable));
        proof {
            lemma_decl_view_variable(variable);
            assert(self.deep_view().items =~= old(self).deep_view().items.push(
                CDeclarationV::VariableDef(variable.deep_view()),
            ));
        }
    }

    pub fn insert_decl(&mut self, decl: CDeclaration)
        ensures
            final(self).deep_view().items =~= old(self).deep_view().items.push(decl.deep_view()),
    {
        self.items.push(decl);
        proof {
            assert(self.deep_view().items =~= old(self).deep_view().items.push(decl.deep_view()));
        }
    }

    /// Appends `item` to the body of the first function definition named
    /// `name`, returning whether such a function exists; the program is
    /// unchanged when it does not.
    pub fn push_to_function(&mut self, name: &String, item: CBlockItem) -> (r: bool)
        ensures
            match find_function(old(self).deep_view().items, name@) {
                Option::Some(i) => r && final(self).deep_view().items =~= old(
                    self,
                ).deep_view().items.update(
                    i,
                    CDeclarationV::FunctionDef(
                        CFunctionV {
                            body: old(self).deep_view().items[i]->FunctionDef_0.body.push(
                                item.deep_view(),
                            ),
                            ..old(self).deep_view().items[i]->FunctionDef_0
                        },
                    ),
                ),
                Option::None => !r && final(self).deep_view() == old(self).deep_view(),
            },
    {
        let n = self.items.len();
        let mut i: usize = 0;
        while i < n
            invariant
                i <= n,
                n == self.items.len(),
                self == old(self),
                find_function(self.deep_view().items, name@) == find_function_from(
                    self.deep_view().items,
                    name@,
                    i as int,
                ),
            decreases n - i,
        {
            let is_match = match &self.items[i] {
                CDeclaration::FunctionDef(f) => {
                    let fname = f.get_name();
                    let m = str_eq(fname.as_str(), name.as_str());
                    proof {
                        lemma_decl_view_function(*f);
                        assert(m == decl_is_function_named(
                            self.deep_view().items[i as int],
                            name@,
                        ));
                    }
                    m
                },
                CDeclaration::ConstDef(c) => {
                    proof {
                        lemma_decl_view_const(*c);
                        assert(!decl_is_function_named(self.deep_view().items[i as int], name@));
                    }
                    false
                },
                CDeclaration::VariableDef(v) => {
                    proof {
                        lemma_decl_view_variable(*v);
                        assert(!decl_is_function_named(self.deep_view().items[i as int], name@));
                    }
                    false
                },
            };
            if is_match {
                proof {
                    lemma_decl_view_function(self.items@[i as int]->FunctionDef_0);
                    assert(decl_is_function_named(self.deep_view().items[i as int], name@));
                    assert(find_function(self.deep_view().items, name@) == Option::Some(i as int));
                }
                let d = self.items.remove(i);
                match d {
                    CDeclaration::FunctionDef(mut f) => {
                        f.push_body_item(item);
                        self.items.insert(i, CDeclaration::FunctionDef(f));
                        proof {
                            lemma_decl_view_function(f);
                            assert(self.deep_view().items =~= old(self).deep_view().items.update(
                                i as int,
                                CDeclarationV::FunctionDef(
                                    CFunctionV {
                                        body: old(self).deep_view().items[
                                            i as int
                                        ]->FunctionDef_0.body.push(item.deep_view()),
                                        ..old(self).deep_view().items[i as int]->FunctionDef_0
                                    },
                                ),
                            ));
                        }
                        return true;
                    },
                    _ => {
                        proof {
                            assert(false);
                        }
                        return false;
                    },
                }
            }
            i = i + 1;
            proof {
                assert(!decl_is_function_named(self.deep_view().items[i - 1], name@));
            }
        }
        proof {
            assert(find_function(self.deep_view().items, name@) is None);
        }
        false
    }

    /// The whole translation unit as C source text.
    pub fn show(&self) -> (r: String)
        ensures
            r@ == cprogram_text(self.deep_view()),
    {
        let mut r = String::from_str(
            "typedef signed char i8;\ntypedef short i16;\ntypedef int i32;\ntypedef long long i64;\n\ntypedef unsigned char u8;\ntypedef unsigned short u16;\ntypedef unsigned int u32;\ntypedef unsigned long long u64;\n\n",
        );
        proof {
            reveal_strlit(
                "typedef signed char i8;\ntypedef short i16;\ntypedef int i32;\ntypedef long long i64;\n\ntypedef unsigned char u8;\ntypedef unsigned short u16;\ntypedef unsigned int u32;\ntypedef unsigned long long u64;\n\n",
            );
            reveal_strlit("\n");
        }
        let mut i: usize = 0;
        while i < self.items.len()
            invariant
                i <= self.items.len(),
                r@ == cprogram_header() + cprogram_items_text(self.deep_view().items.take(i as int)),
            decreases self.items.len() - i,
        {
            let piece = self.items[i].show();
            r.append(piece.as_str());
            r.append("\n");
            i = i + 1;
            proof {
                lemma_cprogram_items_text_snoc(self.deep_view().items.take(i as int));
                assert(self.deep_view().items.take(i as int).drop_last() =~= self.deep_view(
                ).items.take(i - 1));
                assert(r@ =~= cprogram_header() + cprogram_items_text(
                    self.deep_view().items.take(i as int),
                ));
            }
        }
        proof {
            assert(self.deep_view().items.take(self.items.len() as int) =~= self.deep_view().items);
        }
        r
    }
}

/// Whether a declaration is a function definition with the given name.
pub open spec fn decl_is_function_named(d: CDeclarationV, name: Seq<char>) -> bool {
    d matches CDeclarationV::FunctionDef(f) && f.name == name
}

/// The index of the first function definition named `name` at or after
/// position `j`.
pub open spec fn find_function_from(items: Seq<CDeclarationV>, name: Seq<char>, j: int) -> Option<
    int,
>
    decreases items.len() - j,
{
    if j < 0 || j >= items.len() {
        Option::None
    } else if decl_is_function_named(items[j], name) {
        Option::Some(j)
    } else {
        find_function_from(items, name, j + 1)
    }
}

/// The index of the first function definition named `name`.
pub open spec fn find_function(items: Seq<CDeclarationV>, name: Seq<char>) -> Option<int> {
    find_function_from(items, name, 0)
}

/// Rendering a list of declarations one longer appends that declaration's
/// line at the end.
pub proof fn lemma_cprogram_items_text_snoc(items: Seq<CDeclarationV>)
    requires
        items.len() >= 1,
    ensures
        cprogram_items_text(items) == cprogram_items_text(items.drop_last()) + cdeclaration_text(
            items.last(),
        ) + "\n"@,
    decreases items.len(),
{
    if items.len() == 1 {
        assert(cprogram_items_text(items.drop_first()) =~= Seq::empty());
        assert(items.drop_last() =~= Seq::<CDeclarationV>::empty());
        assert(cprogram_items_text(items) =~= cprogram_items_text(items.drop_last())
            + cdeclaration_text(items.last()) + "\n"@);
    } else {
        lemma_cprogram_items_text_snoc(items.drop_first());
        assert(items.drop_first().drop_last() =~= items.drop_last().drop_first());
        assert(items.drop_first().last() == items.last());
        assert(cprogram_items_text(items) =~= cprogram_items_text(items.drop_last())
            + cdeclaration_text(items.last()) + "\n"@);
    }
}

} // verus!

//! The scope-aware symbol table: an ordered stack of named bindings and
//! anonymous scope markers.  Lookup scans from the most recently pushed entry
//! down, which yields correct shadowing; a marker is never matched and only
//! records a restore point.
use crate::cgen::values::Value;
use crate::cgen::values::ValueV;
use crate::text::str_eq;
use vstd::prelude::*;

verus! {

/// One entry of a symbol table.
pub enum Symbol {
    Const(String, Value),
    Var(String, Value),
    Scope,
}

/// Mathematical view of [`Symbol`].
#[verifier::ext_equal]
pub enum SymbolV {
    Const(Seq<char>, ValueV),
    Var(Seq<char>, ValueV),
    Scope,
}

impl DeepView for Symbol {
    type V = SymbolV;

    open spec fn deep_view(&self) -> SymbolV
        decreases self,
    {
        match self {
            Symbol::Const(n, v) => SymbolV::Const(n@, v.deep_view()),
            Symbol::Var(n, v) => SymbolV::Var(n@, v.deep_view()),
            Symbol::Scope => SymbolV::Scope,
        }
    }
}

/// The name of a binding; a scope marker has none.
pub open spec fn symbol_name(s: SymbolV) -> Option<Seq<char>> {
    match s {
        SymbolV::Const(n, _) => Option::Some(n),
        SymbolV::Var(n, _) => Option::Some(n),
        SymbolV::Scope => Option::None,
    }
}

/// The first entry matching `name`, scanning from the most recently pushed
/// entry (the end of the sequence) down.
pub open spec fn table_lookup(t: Seq<SymbolV>, name: Seq<char>) -> Option<SymbolV>
    decreases t.len(),
{
    if t.len() == 0 {
        Option::None
    } else if symbol_name(t.last()) == Option::Some(name) {
        Option::Some(t.last())
    } else {
        table_lookup(t.drop_last(), name)
    }
}

/// A stack of symbols; the end of the underlying sequence is the top.
pub struct SymbolTable {
    stack: Vec<Symbol>,
}

impl DeepView for SymbolTable {
    type V = Seq<SymbolV>;

    closed spec fn deep_view(&self) -> Seq<SymbolV> {
        self.stack.deep_view()
    }
}

impl SymbolTable {
    pub fn new() -> (r: Self)
        ensures
            r.deep_view() =~= Seq::<SymbolV>::empty(),
    {
        Self { stack: Vec::new() }
    }

    pub fn len(&self) -> (r: usize)
        ensures
            r == self.deep_view().len(),
    {
        self.stack.len()
    }

    /// Removes and returns the most recently pushed entry, if any.
    pub fn pop(&mut self) -> (r: Option<Symbol>)
        ensures
            old(self).deep_view().len() == 0 ==> (final(self).deep_view() == old(self).deep_view()
                && r is None),
            old(self).deep_view().len() > 0 ==> (final(self).deep_view() == old(
                self,
            ).deep_view().drop_last() && (r matches Option::Some(s) && s.deep_view() == old(
                self,
            ).deep_view().last())),
    {
        if self.stack.len() == 0 {
            proof {
                assert(self.deep_view() =~= old(self).deep_view());
            }
            Option::None
        } else {
            let s = self.stack.pop().unwrap();
            proof {
                assert(self.deep_view() =~= old(self).deep_view().drop_last());
            }
            Option::Some(s)
        }
    }

    pub fn push(&mut self, symbol: Symbol)
        ensures
            final(self).deep_view() =~= old(self).deep_view().push(symbol.deep_view()),
    {
        self.stack.push(symbol);
    }

    /// The most recent binding of `name`, shadowing older ones; scope markers
    /// are never matched.
    pub fn get(&self, name: &str) -> (r: Option<&Symbol>)
        ensures
            match table_lookup(self.deep_view(), name@) {
                Option::Some(s) => r matches Option::Some(sym) && sym.deep_view() == s,
                Option::None => r is None,
            },
    {
        let mut i: usize = self.stack.len();
        proof {
            assert(self.deep_view().take(i as int) =~= self.deep_view());
        }
        while i > 0
            invariant
                i <= self.stack.len(),
                table_lookup(self.deep_view(), name@) == table_lookup(
                    self.deep_view().take(i as int),
                    name@,
                ),
            decreases i,
        {
            i = i - 1;
            let matched = match &self.stack[i] {
                Symbol::Const(n, _) => str_eq(n.as_str(), name),
                Symbol::Var(n, _) => str_eq(n.as_str(), name),
                Symbol::Scope => false,
            };
            proof {
                assert(self.deep_view().take(i + 1).last() == self.deep_view()[i as int]);
                assert(self.deep_view().take(i + 1).drop_last() =~= self.deep_view().take(
                    i as int,
                ));
            }
            if matched {
                return Option::Some(&self.stack[i]);
            }
        }
        proof {
            assert(self.deep_view().take(0) =~= Seq::<SymbolV>::empty());
        }
        Option::None
    }
}

} // verus!

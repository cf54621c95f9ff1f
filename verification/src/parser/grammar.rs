//! The grammar, written as spec functions over the token stream: each
//! nonterminal maps a position to the parsed semantic view and the position
//! after it, or to `None` when the tokens do not derive it.  Binary operators
//! group by precedence (equality below additive below multiplicative), all
//! left-associative; the postfix operators (call, type conversion) apply in
//! source order and bind below the unary prefixes.
use crate::ast::BlockItemV;
use crate::ast::BlockV;
use crate::ast::BinaryOp;
use crate::ast::CompUnitV;
use crate::ast::ConstDeclV;
use crate::ast::ConstInitialValueV;
use crate::ast::DeclV;
use crate::ast::ExpV;
use crate::ast::ExternFunctionDefV;
use crate::ast::FunctionDefV;
use crate::ast::LValV;
use crate::ast::ParamV;
use crate::ast::StatementV;
use crate::ast::TypeEnum;
use crate::ast::TypeV;
use crate::ast::UnaryOp;
use crate::ast::VarDeclV;
use crate::parser::lex::TokV;
use vstd::prelude::*;

verus! {

/// The end of the run of pointer markers starting at `i`.
pub open spec fn scan_stars(t: Seq<TokV>, i: int) -> int
    decreases t.len() - i,
{
    if 0 <= i < t.len() && t[i] == TokV::Star {
        scan_stars(t, i + 1)
    } else {
        i
    }
}

/// A type: a primitive name, then pointer markers.
pub open spec fn p_type(t: Seq<TokV>, i: int) -> Option<(TypeV, int)> {
    if 0 <= i < t.len() {
        match t[i] {
            TokV::Ident(w) => {
                let base = if w == "u64"@ {
                    Option::Some(TypeEnum::U64)
                } else if w == "u32"@ {
                    Option::Some(TypeEnum::U32)
                } else if w == "u16"@ {
                    Option::Some(TypeEnum::U16)
                } else if w == "u8"@ {
                    Option::Some(TypeEnum::U8)
                } else if w == "i64"@ {
                    Option::Some(TypeEnum::I64)
                } else if w == "i32"@ {
                    Option::Some(TypeEnum::I32)
                } else if w == "i16"@ {
                    Option::Some(TypeEnum::I16)
                } else if w == "i8"@ {
                    Option::Some(TypeEnum::I8)
                } else if w == "void"@ {
                    Option::Some(TypeEnum::Void)
                } else {
                    Option::None
                };
                match base {
                    Option::Some(b) => {
                        let j = scan_stars(t, i + 1);
                        Option::Some((TypeV { ty: b, star: (j - (i + 1)) as usize }, j))
                    },
                    Option::None => Option::None,
                }
            },
            _ => Option::None,
        }
    } else {
        Option::None
    }
}

/// A primary expression: a parenthesized expression (transparent, no extra
/// node), an integer literal, or a name.
pub open spec fn p_primary(t: Seq<TokV>, i: int) -> Option<(ExpV, int)>
    decreases t.len() - i, 4int,
{
    if 0 <= i < t.len() {
        match t[i] {
            TokV::LParen => match p_exp(t, i + 1) {
                Option::Some((e, j)) => if i + 1 <= j && j < t.len() && t[j] == TokV::RParen {
                    Option::Some((e, j + 1))
                } else {
                    Option::None
                },
                Option::None => Option::None,
            },
            TokV::Number(n) => Option::Some((ExpV::Number(n), i + 1)),
            TokV::Ident(w) => Option::Some(
                (ExpV::LVal(LValV { ids: seq![w], exp: Option::None }), i + 1),
            ),
            _ => Option::None,
        }
    } else {
        Option::None
    }
}

/// A prefixed unit: unary `+`/`-` applied to a prefixed unit, or a primary.
pub open spec fn p_prefix(t: Seq<TokV>, i: int) -> Option<(ExpV, int)>
    decreases t.len() - i, 5int,
{
    if 0 <= i < t.len() && t[i] == TokV::Plus {
        match p_prefix(t, i + 1) {
            Option::Some((e, j)) => Option::Some(
                (ExpV::Unary(UnaryOp::Positive, Box::new(e)), j),
            ),
            Option::None => Option::None,
        }
    } else if 0 <= i < t.len() && t[i] == TokV::Minus {
        match p_prefix(t, i + 1) {
            Option::Some((e, j)) => Option::Some(
                (ExpV::Unary(UnaryOp::Negative, Box::new(e)), j),
            ),
            Option::None => Option::None,
        }
    } else {
        p_primary(t, i)
    }
}

/// A postfix chain applied to a prefixed unit: calls and `as` conversions,
/// in source order.
pub open spec fn p_postfix(t: Seq<TokV>, i: int) -> Option<(ExpV, int)>
    decreases t.len() - i, 6int,
{
    match p_prefix(t, i) {
        Option::Some((e, j)) => if i < j && j <= t.len() {
            p_postfix_tail(t, j, e)
        } else {
            Option::None
        },
        Option::None => Option::None,
    }
}

pub open spec fn p_postfix_tail(t: Seq<TokV>, i: int, acc: ExpV) -> Option<(ExpV, int)>
    decreases t.len() - i, 0int,
{
    if 0 <= i < t.len() && t[i] == TokV::KwAs {
        match p_type(t, i + 1) {
            Option::Some((ty, j)) => if i < j && j <= t.len() {
                p_postfix_tail(t, j, ExpV::ConvertType(Box::new(acc), ty))
            } else {
                Option::None
            },
            Option::None => Option::None,
        }
    } else if 0 <= i < t.len() && t[i] == TokV::LParen {
        if i + 1 < t.len() && t[i + 1] == TokV::RParen {
            p_postfix_tail(t, i + 2, ExpV::Call(Box::new(acc), Seq::empty()))
        } else {
            match p_args(t, i + 1, Seq::empty()) {
                Option::Some((args, j)) => if i < j && j <= t.len() {
                    p_postfix_tail(t, j, ExpV::Call(Box::new(acc), args))
                } else {
                    Option::None
                },
                Option::None => Option::None,
            }
        }
    } else {
        Option::Some((acc, i))
    }
}

/// A non-empty argument list followed by the closing parenthesis.
pub open spec fn p_args(t: Seq<TokV>, i: int, acc: Seq<ExpV>) -> Option<(Seq<ExpV>, int)>
    decreases t.len() - i, 11int,
{
    match p_exp(t, i) {
        Option::Some((e, j)) => if i < j && j <= t.len() {
            if j < t.len() && t[j] == TokV::Comma {
                p_args(t, j + 1, acc.push(e))
            } else if j < t.len() && t[j] == TokV::RParen {
                Option::Some((acc.push(e), j + 1))
            } else {
                Option::None
            }
        } else {
            Option::None
        },
        Option::None => Option::None,
    }
}

/// A multiplicative chain of postfix units.
pub open spec fn p_mul(t: Seq<TokV>, i: int) -> Option<(ExpV, int)>
    decreases t.len() - i, 7int,
{
    match p_postfix(t, i) {
        Option::Some((e, j)) => if i < j && j <= t.len() {
            p_mul_tail(t, j, e)
        } else {
            Option::None
        },
        Option::None => Option::None,
    }
}

pub open spec fn p_mul_tail(t: Seq<TokV>, i: int, acc: ExpV) -> Option<(ExpV, int)>
    decreases t.len() - i, 0int,
{
    let op = if 0 <= i < t.len() && t[i] == TokV::Star {
        Option::Some(BinaryOp::Mul)
    } else if 0 <= i < t.len() && t[i] == TokV::Slash {
        Option::Some(BinaryOp::Div)
    } else if 0 <= i < t.len() && t[i] == TokV::Percent {
        Option::Some(BinaryOp::Mod)
    } else {
        Option::None
    };
    match op {
        Option::Some(o) => match p_postfix(t, i + 1) {
            Option::Some((r, j)) => if i < j && j <= t.len() {
                p_mul_tail(t, j, ExpV::Binary(Box::new(acc), o, Box::new(r)))
            } else {
                Option::None
            },
            Option::None => Option::None,
        },
        Option::None => Option::Some((acc, i)),
    }
}

/// An additive chain of multiplicative chains.
pub open spec fn p_add(t: Seq<TokV>, i: int) -> Option<(ExpV, int)>
    decreases t.len() - i, 8int,
{
    match p_mul(t, i) {
        Option::Some((e, j)) => if i < j && j <= t.len() {
            p_add_tail(t, j, e)
        } else {
            Option::None
        },
        Option::None => Option::None,
    }
}

pub open spec fn p_add_tail(t: Seq<TokV>, i: int, acc: ExpV) -> Option<(ExpV, int)>
    decreases t.len() - i, 0int,
{
    let op = if 0 <= i < t.len() && t[i] == TokV::Plus {
        Option::Some(BinaryOp::Add)
    } else if 0 <= i < t.len() && t[i] == TokV::Minus {
        Option::Some(BinaryOp::Sub)
    } else {
        Option::None
    };
    match op {
        Option::Some(o) => match p_mul(t, i + 1) {
            Option::Some((r, j)) => if i < j && j <= t.len() {
                p_add_tail(t, j, ExpV::Binary(Box::new(acc), o, Box::new(r)))
            } else {
                Option::None
            },
            Option::None => Option::None,
        },
        Option::None => Option::Some((acc, i)),
    }
}

/// An equality chain of additive chains: the whole expression grammar.
pub open spec fn p_exp(t: Seq<TokV>, i: int) -> Option<(ExpV, int)>
    decreases t.len() - i, 10int,
{
    match p_add(t, i) {
        Option::Some((e, j)) => if i < j && j <= t.len() {
            p_eq_tail(t, j, e)
        } else {
            Option::None
        },
        Option::None => Option::None,
    }
}

pub open spec fn p_eq_tail(t: Seq<TokV>, i: int, acc: ExpV) -> Option<(ExpV, int)>
    decreases t.len() - i, 0int,
{
    let op = if 0 <= i < t.len() && t[i] == TokV::EqEq {
        Option::Some(BinaryOp::Eq)
    } else if 0 <= i < t.len() && t[i] == TokV::NotEq {
        Option::Some(BinaryOp::Neq)
    } else {
        Option::None
    };
    match op {
        Option::Some(o) => match p_add(t, i + 1) {
            Option::Some((r, j)) => if i < j && j <= t.len() {
                p_eq_tail(t, j, ExpV::Binary(Box::new(acc), o, Box::new(r)))
            } else {
                Option::None
            },
            Option::None => Option::None,
        },
        Option::None => Option::Some((acc, i)),
    }
}

/// A statement: `return [expr] ;` or an expression statement `[expr] ;`.
pub open spec fn p_stmt(t: Seq<TokV>, i: int) -> Option<(StatementV, int)>
    decreases t.len() - i, 20int,
{
    if 0 <= i < t.len() && t[i] == TokV::KwReturn {
        if i + 1 < t.len() && t[i + 1] == TokV::Semi {
            Option::Some((StatementV::Return(Option::None), i + 2))
        } else {
            match p_exp(t, i + 1) {
                Option::Some((e, j)) => if j < t.len() && t[j] == TokV::Semi {
                    Option::Some((StatementV::Return(Option::Some(Box::new(e))), j + 1))
                } else {
                    Option::None
                },
                Option::None => Option::None,
            }
        }
    } else if 0 <= i < t.len() && t[i] == TokV::Semi {
        Option::Some((StatementV::Exp(Option::None), i + 1))
    } else {
        match p_exp(t, i) {
            Option::Some((e, j)) => if j < t.len() && t[j] == TokV::Semi {
                Option::Some((StatementV::Exp(Option::Some(Box::new(e))), j + 1))
            } else {
                Option::None
            },
            Option::None => Option::None,
        }
    }
}

/// One parameter: `name : type`.
pub open spec fn p_param(t: Seq<TokV>, i: int) -> Option<(ParamV, int)> {
    if 0 <= i < t.len() && i + 1 < t.len() && t[i] is Ident && t[i + 1] == TokV::Colon {
        match p_type(t, i + 2) {
            Option::Some((ty, j)) => Option::Some(
                (ParamV { name: t[i]->Ident_0, param_type: ty }, j),
            ),
            Option::None => Option::None,
        }
    } else {
        Option::None
    }
}

/// A parenthesized parameter list, after the opening parenthesis; empty or
/// comma separated, ending at the closing parenthesis.
pub open spec fn p_params(t: Seq<TokV>, i: int, acc: Seq<ParamV>) -> Option<(Seq<ParamV>, int)>
    decreases t.len() - i, 2int,
{
    if 0 <= i < t.len() && t[i] == TokV::RParen {
        Option::Some((acc, i + 1))
    } else {
        match p_param(t, i) {
            Option::Some((p, j)) => if i < j && j <= t.len() {
                if j < t.len() && t[j] == TokV::Comma {
                    if j + 1 < t.len() && t[j + 1] == TokV::RParen {
                        Option::None
                    } else {
                        p_params(t, j + 1, acc.push(p))
                    }
                } else if j < t.len() && t[j] == TokV::RParen {
                    Option::Some((acc.push(p), j + 1))
                } else {
                    Option::None
                }
            } else {
                Option::None
            },
            Option::None => Option::None,
        }
    }
}

/// A function literal: `fn ( params ) type block`.
pub open spec fn p_function_def(t: Seq<TokV>, i: int) -> Option<(FunctionDefV, int)>
    decreases t.len() - i, 21int,
{
    if 0 <= i < t.len() && t[i] == TokV::KwFn && i + 1 < t.len() && t[i + 1] == TokV::LParen {
        match p_params(t, i + 2, Seq::empty()) {
            Option::Some((params, j)) => if i + 2 <= j && j <= t.len() {
                match p_type(t, j) {
                    Option::Some((ret, k)) => if j <= k && k <= t.len() {
                        match p_block(t, k) {
                            Option::Some((b, m)) => Option::Some(
                                (FunctionDefV { params, return_type: ret, block: b }, m),
                            ),
                            Option::None => Option::None,
                        }
                    } else {
                        Option::None
                    },
                    Option::None => Option::None,
                }
            } else {
                Option::None
            },
            Option::None => Option::None,
        }
    } else {
        Option::None
    }
}

/// A `const` initializer: a function literal or a compile-time expression.
pub open spec fn p_const_init(t: Seq<TokV>, i: int) -> Option<(ConstInitialValueV, int)>
    decreases t.len() - i, 22int,
{
    if 0 <= i < t.len() && t[i] == TokV::KwFn {
        match p_function_def(t, i) {
            Option::Some((f, j)) => Option::Some((ConstInitialValueV::Function(f), j)),
            Option::None => Option::None,
        }
    } else {
        match p_exp(t, i) {
            Option::Some((e, j)) => Option::Some((ConstInitialValueV::Exp(Box::new(e)), j)),
            Option::None => Option::None,
        }
    }
}

/// A declaration: a `var` declaration, a `const` declaration (whose
/// initializer may be a function literal), or a `const name = extern fn`
/// foreign function declaration.
pub open spec fn p_decl(t: Seq<TokV>, i: int) -> Option<(DeclV, int)>
    decreases t.len() - i, 23int,
{
    if 0 <= i < t.len() && t[i] == TokV::KwVar {
        if i + 2 < t.len() && t[i + 1] is Ident && t[i + 2] == TokV::Colon {
            match p_type(t, i + 3) {
                Option::Some((ty, j)) => if j < t.len() && t[j] == TokV::Assign && i + 3 <= j {
                    match p_exp(t, j + 1) {
                        Option::Some((e, k)) => if k < t.len() && t[k] == TokV::Semi {
                            Option::Some(
                                (
                                    DeclV::VarDecl(
                                        VarDeclV {
                                            name: t[i + 1]->Ident_0,
                                            var_type: ty,
                                            initial_value: e,
                                        },
                                    ),
                                    k + 1,
                                ),
                            )
                        } else {
                            Option::None
                        },
                        Option::None => Option::None,
                    }
                } else {
                    Option::None
                },
                Option::None => Option::None,
            }
        } else {
            Option::None
        }
    } else if 0 <= i < t.len() && t[i] == TokV::KwConst {
        if i + 2 < t.len() && t[i + 1] is Ident && t[i + 2] == TokV::Assign {
            if i + 3 < t.len() && t[i + 3] == TokV::KwExtern {
                if i + 5 < t.len() && t[i + 4] == TokV::KwFn && t[i + 5] == TokV::LParen {
                    match p_params(t, i + 6, Seq::empty()) {
                        Option::Some((params, j)) => if i + 6 <= j {
                            match p_type(t, j) {
                                Option::Some((ret, k)) => if k < t.len() && t[k] == TokV::Semi {
                                    Option::Some(
                                        (
                                            DeclV::ExternFunctionDef(
                                                ExternFunctionDefV {
                                                    name: t[i + 1]->Ident_0,
                                                    params,
                                                    return_type: ret,
                                                },
                                            ),
                                            k + 1,
                                        ),
                                    )
                                } else {
                                    Option::None
                                },
                                Option::None => Option::None,
                            }
                        } else {
                            Option::None
                        },
                        Option::None => Option::None,
                    }
                } else {
                    Option::None
                }
            } else {
                match p_const_init(t, i + 3) {
                    Option::Some((civ, j)) => if j < t.len() && t[j] == TokV::Semi {
                        Option::Some(
                            (
                                DeclV::ConstDecl(
                                    ConstDeclV { name: t[i + 1]->Ident_0, initial_value: civ },
                                ),
                                j + 1,
                            ),
                        )
                    } else {
                        Option::None
                    },
                    Option::None => Option::None,
                }
            }
        } else {
            Option::None
        }
    } else {
        Option::None
    }
}

/// The items of a block, up to and including the closing brace.
pub open spec fn p_block_items(t: Seq<TokV>, i: int) -> Option<(Seq<BlockItemV>, int)>
    decreases t.len() - i, 24int,
{
    if 0 <= i < t.len() {
        if t[i] == TokV::RBrace {
            Option::Some((Seq::empty(), i + 1))
        } else if t[i] == TokV::KwVar || t[i] == TokV::KwConst {
            match p_decl(t, i) {
                Option::Some((d, j)) => if i < j && j <= t.len() {
                    match p_block_items(t, j) {
                        Option::Some((rest, k)) => Option::Some(
                            (seq![BlockItemV::Declaration(Box::new(d))] + rest, k),
                        ),
                        Option::None => Option::None,
                    }
                } else {
                    Option::None
                },
                Option::None => Option::None,
            }
        } else {
            match p_stmt(t, i) {
                Option::Some((st, j)) => if i < j && j <= t.len() {
                    match p_block_items(t, j) {
                        Option::Some((rest, k)) => Option::Some(
                            (seq![BlockItemV::Statement(st)] + rest, k),
                        ),
                        Option::None => Option::None,
                    }
                } else {
                    Option::None
                },
                Option::None => Option::None,
            }
        }
    } else {
        Option::None
    }
}

/// A block: `{ items }`.
pub open spec fn p_block(t: Seq<TokV>, i: int) -> Option<(BlockV, int)>
    decreases t.len() - i, 25int,
{
    if 0 <= i < t.len() && t[i] == TokV::LBrace {
        match p_block_items(t, i + 1) {
            Option::Some((items, j)) => Option::Some((BlockV { items }, j)),
            Option::None => Option::None,
        }
    } else {
        Option::None
    }
}

/// A whole compilation unit: declarations to the end of the input.
pub open spec fn p_comp_unit(t: Seq<TokV>, i: int) -> Option<(CompUnitV, int)>
    decreases t.len() - i, 26int,
{
    if i >= t.len() {
        Option::Some((CompUnitV { global_items: Seq::empty() }, i))
    } else {
        match p_decl(t, i) {
            Option::Some((d, j)) => if i < j && j <= t.len() {
                match p_comp_unit(t, j) {
                    Option::Some((u, k)) => Option::Some(
                        (
                            CompUnitV {
                                global_items: seq![crate::ast::GlobalItemV::Decl(Box::new(d))]
                                    + u.global_items,
                            },
                            k,
                        ),
                    ),
                    Option::None => Option::None,
                }
            } else {
                Option::None
            },
            Option::None => Option::None,
        }
    }
}

} // verus!

//! The grammar, stated as functions from a token sequence, a position and
//! the table of variable names to a tree, the next position and the new
//! table, or the first error.
//!
//! ```text
//! program    = stmt* EOF
//! stmt       = ";" | "return" expr ";" | "if" "(" expr ")" stmt ("else" stmt)?
//!            | "for" "(" expr? ";" expr? ";" expr? ")" stmt
//!            | "while" "(" expr ")" stmt | "{" stmt* "}" | expr ";"
//! expr       = assign
//! assign     = equality ("=" assign)?
//! equality   = relational (("==" | "!=") relational)*
//! relational = add (("<" | "<=" | ">" | ">=") add)*
//! add        = mul (("+" | "-") mul)*
//! mul        = unary (("*" | "/") unary)*
//! unary      = "+" primary | "-" primary | "*" unary | "&" unary | primary
//! primary    = number | identifier | "(" expr ")"
//! ```
use vstd::prelude::*;

use crate::ast::{Ast, NodeKind};
use crate::lexer::{at_end, kind_at, tok_is, ParseError, Tok, TokenKind};

verus! {

/// Storage width of one local variable.
pub const SLOT_SIZE: usize = 8;

/// A tree, the position after it and the variable table, or an error.
pub type PResult = Result<(Ast, int, Seq<Seq<char>>), ParseError>;

/// The index of `name` in the table, or -1.
pub open spec fn var_index(vs: Seq<Seq<char>>, name: Seq<char>) -> int
    decreases vs.len(),
{
    if vs.len() == 0 {
        -1
    } else if vs.last() == name {
        vs.len() - 1
    } else {
        var_index(vs.drop_last(), name)
    }
}

/// The storage offset of `name`: its slot when known, the next slot otherwise.
pub open spec fn var_offset(vs: Seq<Seq<char>>, name: Seq<char>) -> int {
    let k = var_index(vs, name);
    if k >= 0 {
        (k + 1) * SLOT_SIZE
    } else {
        (vs.len() + 1) * SLOT_SIZE
    }
}

/// The table after a use of `name`: appended when it was unknown.
pub open spec fn bind(vs: Seq<Seq<char>>, name: Seq<char>) -> Seq<Seq<char>> {
    if var_index(vs, name) >= 0 {
        vs
    } else {
        vs.push(name)
    }
}

/// The parse went forward and stayed within the tokens.
pub open spec fn adv(ts: Seq<Tok>, p: int, q: int) -> bool {
    p < q <= ts.len()
}

pub open spec fn stuck(p: int) -> ParseError {
    ParseError::ExpectedOperand { at: p as usize }
}

/// `r` followed by the punctuation `c`.
pub open spec fn then_punct(ts: Seq<Tok>, r: PResult, c: char) -> PResult {
    match r {
        Ok((n, q, v)) => if tok_is(ts, q, seq![c]) {
            Ok((n, q + 1, v))
        } else {
            Err(ParseError::ExpectedPunct { expected: c, at: q as usize })
        },
        Err(e) => Err(e),
    }
}

pub open spec fn wrap_un(k: NodeKind, r: PResult) -> PResult {
    match r {
        Ok((n, q, v)) => Ok((Ast::Un(k, Box::new(n)), q, v)),
        Err(e) => Err(e),
    }
}

pub open spec fn bin(k: NodeKind, l: Ast, r: Ast) -> Ast {
    Ast::Bin(k, Box::new(l), Box::new(r))
}

pub open spec fn sp_primary(ts: Seq<Tok>, p: int, vs: Seq<Seq<char>>) -> PResult
    decreases ts.len() - p, 0int,
{
    if tok_is(ts, p, "("@) {
        then_punct(ts, sp_expr(ts, p + 1, vs), ')')
    } else if kind_at(ts, p, TokenKind::TkIdent) {
        Ok((Ast::Var(var_offset(vs, ts[p].text)), p + 1, bind(vs, ts[p].text)))
    } else if kind_at(ts, p, TokenKind::TkNum) {
        Ok((Ast::Num(ts[p].text), p + 1, vs))
    } else {
        Err(ParseError::ExpectedOperand { at: p as usize })
    }
}

pub open spec fn sp_unary(ts: Seq<Tok>, p: int, vs: Seq<Seq<char>>) -> PResult
    decreases ts.len() - p, 1int,
{
    if tok_is(ts, p, "+"@) {
        sp_primary(ts, p + 1, vs)
    } else if tok_is(ts, p, "-"@) {
        match sp_primary(ts, p + 1, vs) {
            Ok((n, q, v)) => Ok((bin(NodeKind::NodeSub, Ast::Num("0"@), n), q, v)),
            Err(e) => Err(e),
        }
    } else if tok_is(ts, p, "*"@) {
        wrap_un(NodeKind::NodeDeref, sp_unary(ts, p + 1, vs))
    } else if tok_is(ts, p, "&"@) {
        wrap_un(NodeKind::NodeAddr, sp_unary(ts, p + 1, vs))
    } else {
        sp_primary(ts, p, vs)
    }
}

pub open spec fn sp_mul_rest(ts: Seq<Tok>, acc: Ast, p: int, vs: Seq<Seq<char>>) -> PResult
    decreases ts.len() - p, 2int,
{
    if tok_is(ts, p, "*"@) || tok_is(ts, p, "/"@) {
        let k = if tok_is(ts, p, "*"@) {
            NodeKind::NodeMul
        } else {
            NodeKind::NodeDiv
        };
        match sp_unary(ts, p + 1, vs) {
            Ok((n, q, v)) => if adv(ts, p, q) {
                sp_mul_rest(ts, bin(k, acc, n), q, v)
            } else {
                Err(stuck(p))
            },
            Err(e) => Err(e),
        }
    } else {
        Ok((acc, p, vs))
    }
}

pub open spec fn sp_mul(ts: Seq<Tok>, p: int, vs: Seq<Seq<char>>) -> PResult
    decreases ts.len() - p, 3int,
{
    match sp_unary(ts, p, vs) {
        Ok((n, q, v)) => if adv(ts, p, q) {
            sp_mul_rest(ts, n, q, v)
        } else {
            Err(stuck(p))
        },
        Err(e) => Err(e),
    }
}

pub open spec fn sp_add_rest(ts: Seq<Tok>, acc: Ast, p: int, vs: Seq<Seq<char>>) -> PResult
    decreases ts.len() - p, 4int,
{
    if tok_is(ts, p, "+"@) || tok_is(ts, p, "-"@) {
        let k = if tok_is(ts, p, "+"@) {
            NodeKind::NodeAdd
        } else {
            NodeKind::NodeSub
        };
        match sp_mul(ts, p + 1, vs) {
            Ok((n, q, v)) => if adv(ts, p, q) {
                sp_add_rest(ts, bin(k, acc, n), q, v)
            } else {
                Err(stuck(p))
            },
            Err(e) => Err(e),
        }
    } else {
        Ok((acc, p, vs))
    }
}

pub open spec fn sp_add(ts: Seq<Tok>, p: int, vs: Seq<Seq<char>>) -> PResult
    decreases ts.len() - p, 5int,
{
    match sp_mul(ts, p, vs) {
        Ok((n, q, v)) => if adv(ts, p, q) {
            sp_add_rest(ts, n, q, v)
        } else {
            Err(stuck(p))
        },
        Err(e) => Err(e),
    }
}

/// Whether the comparison at `p` is one of `<`, `<=`, `>`, `>=`.
pub open spec fn is_rel(ts: Seq<Tok>, p: int) -> bool {
    tok_is(ts, p, "<"@) || tok_is(ts, p, "<="@) || tok_is(ts, p, ">"@) || tok_is(ts, p, ">="@)
}

/// The node of a comparison: `>` and `>=` swap their operands.
pub open spec fn rel_node(ts: Seq<Tok>, p: int, acc: Ast, n: Ast) -> Ast {
    if tok_is(ts, p, "<"@) {
        bin(NodeKind::NodeLT, acc, n)
    } else if tok_is(ts, p, "<="@) {
        bin(NodeKind::NodeLE, acc, n)
    } else if tok_is(ts, p, ">"@) {
        bin(NodeKind::NodeLT, n, acc)
    } else {
        bin(NodeKind::NodeLE, n, acc)
    }
}

pub open spec fn sp_relational_rest(ts: Seq<Tok>, acc: Ast, p: int, vs: Seq<Seq<char>>) -> PResult
    decreases ts.len() - p, 6int,
{
    if is_rel(ts, p) {
        match sp_add(ts, p + 1, vs) {
            Ok((n, q, v)) => if adv(ts, p, q) {
                sp_relational_rest(ts, rel_node(ts, p, acc, n), q, v)
            } else {
                Err(stuck(p))
            },
            Err(e) => Err(e),
        }
    } else {
        Ok((acc, p, vs))
    }
}

pub open spec fn sp_relational(ts: Seq<Tok>, p: int, vs: Seq<Seq<char>>) -> PResult
    decreases ts.len() - p, 7int,
{
    match sp_add(ts, p, vs) {
        Ok((n, q, v)) => if adv(ts, p, q) {
            sp_relational_rest(ts, n, q, v)
        } else {
            Err(stuck(p))
        },
        Err(e) => Err(e),
    }
}

pub open spec fn sp_equality_rest(ts: Seq<Tok>, acc: Ast, p: int, vs: Seq<Seq<char>>) -> PResult
    decreases ts.len() - p, 8int,
{
    if tok_is(ts, p, "=="@) || tok_is(ts, p, "!="@) {
        let k = if tok_is(ts, p, "=="@) {
            NodeKind::NodeEQ
        } else {
            NodeKind::NodeNE
        };
        match sp_relational(ts, p + 1, vs) {
            Ok((n, q, v)) => if adv(ts, p, q) {
                sp_equality_rest(ts, bin(k, acc, n), q, v)
            } else {
                Err(stuck(p))
            },
            Err(e) => Err(e),
        }
    } else {
        Ok((acc, p, vs))
    }
}

pub open spec fn sp_equality(ts: Seq<Tok>, p: int, vs: Seq<Seq<char>>) -> PResult
    decreases ts.len() - p, 9int,
{
    match sp_relational(ts, p, vs) {
        Ok((n, q, v)) => if adv(ts, p, q) {
            sp_equality_rest(ts, n, q, v)
        } else {
            Err(stuck(p))
        },
        Err(e) => Err(e),
    }
}

pub open spec fn sp_assign(ts: Seq<Tok>, p: int, vs: Seq<Seq<char>>) -> PResult
    decreases ts.len() - p, 10int,
{
    match sp_equality(ts, p, vs) {
        Ok((n, q, v)) => if tok_is(ts, q, "="@) && adv(ts, p, q) {
            match sp_assign(ts, q + 1, v) {
                Ok((r, q2, v2)) => Ok((bin(NodeKind::NodeAssign, n, r), q2, v2)),
                Err(e) => Err(e),
            }
        } else {
            Ok((n, q, v))
        },
        Err(e) => Err(e),
    }
}

pub open spec fn sp_expr(ts: Seq<Tok>, p: int, vs: Seq<Seq<char>>) -> PResult
    decreases ts.len() - p, 11int,
{
    sp_assign(ts, p, vs)
}

/// An optional expression and the punctuation `c` that closes it.
pub open spec fn sp_opt_expr(ts: Seq<Tok>, p: int, vs: Seq<Seq<char>>, c: char) -> Result<
    (Option<Box<Ast>>, int, Seq<Seq<char>>),
    ParseError,
>
    decreases ts.len() - p, 12int,
{
    if tok_is(ts, p, seq![c]) {
        Ok((None, p + 1, vs))
    } else {
        match then_punct(ts, sp_expr(ts, p, vs), c) {
            Ok((n, q, v)) => Ok((Some(Box::new(n)), q, v)),
            Err(e) => Err(e),
        }
    }
}

pub open spec fn sp_if(ts: Seq<Tok>, p: int, vs: Seq<Seq<char>>) -> PResult
    decreases ts.len() - p, 13int,
{
    if !tok_is(ts, p + 1, seq!['(']) {
        Err(ParseError::ExpectedPunct { expected: '(', at: (p + 1) as usize })
    } else {
        match then_punct(ts, sp_expr(ts, p + 2, vs), ')') {
            Ok((c, q, v)) => if adv(ts, p, q) {
                match sp_stmt(ts, q, v) {
                    Ok((t, q2, v2)) => if tok_is(ts, q2, "else"@) && adv(ts, p, q2) {
                        match sp_stmt(ts, q2 + 1, v2) {
                            Ok((e, q3, v3)) => Ok(
                                (Ast::If(Box::new(c), Box::new(t), Some(Box::new(e))), q3, v3),
                            ),
                            Err(e) => Err(e),
                        }
                    } else {
                        Ok((Ast::If(Box::new(c), Box::new(t), None), q2, v2))
                    },
                    Err(e) => Err(e),
                }
            } else {
                Err(stuck(p))
            },
            Err(e) => Err(e),
        }
    }
}

pub open spec fn sp_while(ts: Seq<Tok>, p: int, vs: Seq<Seq<char>>) -> PResult
    decreases ts.len() - p, 13int,
{
    if !tok_is(ts, p + 1, seq!['(']) {
        Err(ParseError::ExpectedPunct { expected: '(', at: (p + 1) as usize })
    } else {
        match then_punct(ts, sp_expr(ts, p + 2, vs), ')') {
            Ok((c, q, v)) => if adv(ts, p, q) {
                match sp_stmt(ts, q, v) {
                    Ok((b, q2, v2)) => Ok(
                        (Ast::Loop(None, Some(Box::new(c)), None, Box::new(b)), q2, v2),
                    ),
                    Err(e) => Err(e),
                }
            } else {
                Err(stuck(p))
            },
            Err(e) => Err(e),
        }
    }
}

pub open spec fn sp_for(ts: Seq<Tok>, p: int, vs: Seq<Seq<char>>) -> PResult
    decreases ts.len() - p, 13int,
{
    if !tok_is(ts, p + 1, seq!['(']) {
        Err(ParseError::ExpectedPunct { expected: '(', at: (p + 1) as usize })
    } else {
        match sp_opt_expr(ts, p + 2, vs, ';') {
            Ok((i, q1, v1)) => if adv(ts, p, q1) {
                match sp_opt_expr(ts, q1, v1, ';') {
                    Ok((c, q2, v2)) => if adv(ts, p, q2) {
                        match sp_opt_expr(ts, q2, v2, ')') {
                            Ok((n, q3, v3)) => if adv(ts, p, q3) {
                                match sp_stmt(ts, q3, v3) {
                                    Ok((b, q4, v4)) => Ok(
                                        (Ast::Loop(i, c, n, Box::new(b)), q4, v4),
                                    ),
                                    Err(e) => Err(e),
                                }
                            } else {
                                Err(stuck(p))
                            },
                            Err(e) => Err(e),
                        }
                    } else {
                        Err(stuck(p))
                    },
                    Err(e) => Err(e),
                }
            } else {
                Err(stuck(p))
            },
            Err(e) => Err(e),
        }
    }
}

pub open spec fn sp_stmt(ts: Seq<Tok>, p: int, vs: Seq<Seq<char>>) -> PResult
    decreases ts.len() - p, 14int,
{
    if tok_is(ts, p, seq![';']) {
        Ok((Ast::Block(seq![]), p + 1, vs))
    } else if tok_is(ts, p, "return"@) {
        wrap_un(NodeKind::NodeReturn, then_punct(ts, sp_expr(ts, p + 1, vs), ';'))
    } else if tok_is(ts, p, "if"@) {
        sp_if(ts, p, vs)
    } else if tok_is(ts, p, "while"@) {
        sp_while(ts, p, vs)
    } else if tok_is(ts, p, "for"@) {
        sp_for(ts, p, vs)
    } else if tok_is(ts, p, seq!['{']) {
        sp_block_rest(ts, seq![], p + 1, vs)
    } else {
        then_punct(ts, sp_expr(ts, p, vs), ';')
    }
}

/// The statements of a block after `acc`, up to and with its `}`.
pub open spec fn sp_block_rest(ts: Seq<Tok>, acc: Seq<Ast>, p: int, vs: Seq<Seq<char>>) -> PResult
    decreases ts.len() - p, 15int,
{
    if tok_is(ts, p, seq!['}']) {
        Ok((Ast::Block(acc), p + 1, vs))
    } else if at_end(ts, p) {
        Err(ParseError::UnclosedBlock { at: p as usize })
    } else {
        match sp_stmt(ts, p, vs) {
            Ok((s, q, v)) => if adv(ts, p, q) {
                sp_block_rest(ts, acc.push(s), q, v)
            } else {
                Err(stuck(p))
            },
            Err(e) => Err(e),
        }
    }
}

/// The statements from `p` to the end, after `acc`, and the final table.
pub open spec fn sp_program_rest(ts: Seq<Tok>, acc: Seq<Ast>, p: int, vs: Seq<Seq<char>>) -> Result<
    (Seq<Ast>, Seq<Seq<char>>),
    ParseError,
>
    decreases ts.len() - p,
{
    if at_end(ts, p) {
        Ok((acc, vs))
    } else {
        match sp_stmt(ts, p, vs) {
            Ok((s, q, v)) => if adv(ts, p, q) {
                sp_program_rest(ts, acc.push(s), q, v)
            } else {
                Err(stuck(p))
            },
            Err(e) => Err(e),
        }
    }
}

/// The top-level statements of a token sequence and its variable table.
pub open spec fn sp_program(ts: Seq<Tok>) -> Result<(Seq<Ast>, Seq<Seq<char>>), ParseError> {
    sp_program_rest(ts, seq![], 0, seq![])
}

} // verus!

//! Properties that hold of every input, stated over the lexer's and the
//! grammar's models.
use vstd::prelude::*;

use crate::ast::{Ast, NodeKind};
use crate::grammar::{bin, bind, rel_node, var_index, var_offset, SLOT_SIZE};
use crate::lexer::{
    ident_end, is_digit, is_ident_start, is_single, num_digits, is_space, lemma_ident_end_bounds, lemma_num_end_bounds,
    lex, lex_from, num_end, tok_is, word_kind, Tok, TokenKind,
};

verus! {

/// The spellings of operator and punctuation tokens.
pub open spec fn is_operator(t: Seq<char>) -> bool {
    ||| t.len() == 1 && (is_single(t[0]) || t[0] == '=' || t[0] == '<' || t[0] == '>')
    ||| t == seq!['=', '='] || t == seq!['<', '='] || t == seq!['>', '='] || t == seq!['!', '=']
}

/// A token's class is what its spelling alone gives: a word is a keyword
/// exactly when it spells one, an operator is spelled as one, and a number
/// is all digits.
pub open spec fn reclassifies(t: Tok) -> bool {
    &&& (t.kind == TokenKind::TkIdent || t.kind == TokenKind::TkKeyword) ==> t.kind == word_kind(
        t.text,
    )
    &&& t.kind == TokenKind::TkReserved ==> is_operator(t.text)
    &&& t.kind == TokenKind::TkNum ==> forall|k: int| 0 <= k < t.text.len() ==> is_digit(#[trigger] t.text[k])
}

proof fn lemma_num_digits_are_digits(s: Seq<char>, i: int)
    ensures
        forall|k: int| 0 <= k < num_digits(s, i).len() ==> is_digit(#[trigger] num_digits(s, i)[k]),
    decreases s.len() - i,
{
    if 0 <= i < s.len() && (is_digit(s[i]) || s[i] == ' ') {
        lemma_num_digits_are_digits(s, i + 1);
        if is_digit(s[i]) {
            let d = num_digits(s, i);
            assert forall|k: int| 0 <= k < d.len() implies is_digit(#[trigger] d[k]) by {
                if k > 0 {
                    assert(d[k] == num_digits(s, i + 1)[k - 1]);
                }
            }
        }
    }
}

proof fn lemma_lex_from_reclassifies(s: Seq<char>, i: int)
    requires
        lex_from(s, i) is Ok,
    ensures
        forall|k: int|
            0 <= k < lex_from(s, i)->Ok_0.len() ==> reclassifies(#[trigger] lex_from(s, i)->Ok_0[k]),
    decreases s.len() - i,
{
    if 0 <= i < s.len() {
        lemma_ident_end_bounds(s, i + 1);
        lemma_num_end_bounds(s, i);
        let c = s[i];
        let two = i + 1 < s.len() && s[i + 1] == '=';
        let j = if is_space(c) || is_single(c) || ((c == '=' || c == '<' || c == '>') && !two) {
            i + 1
        } else if c == '=' || c == '<' || c == '>' || c == '!' {
            i + 2
        } else if is_ident_start(c) {
            ident_end(s, i + 1)
        } else {
            num_end(s, i)
        };
        lemma_lex_from_reclassifies(s, j);
        lemma_num_digits_are_digits(s, i);
        let rest = lex_from(s, j)->Ok_0;
        let all = lex_from(s, i)->Ok_0;
        if !is_space(c) {
            assert(all == seq![all[0]] + rest);
            assert forall|k: int| 0 <= k < all.len() implies reclassifies(#[trigger] all[k]) by {
                if k > 0 {
                    assert(all[k] == rest[k - 1]);
                }
            }
        }
    }
}

/// Every token that lexing produces is classified by its spelling alone:
/// classifying the spelling again gives the same kind.
pub proof fn lemma_lex_reclassifies(s: Seq<char>)
    requires
        lex(s) is Ok,
    ensures
        forall|k: int| 0 <= k < lex(s)->Ok_0.len() ==> reclassifies(#[trigger] lex(s)->Ok_0[k]),
{
    lemma_lex_from_reclassifies(s, 0);
}

/// `a > b` is the node `b < a`, and `a >= b` is the node `b <= a`.
pub proof fn lemma_greater_swaps(ts: Seq<Tok>, p: int, a: Ast, b: Ast)
    ensures
        tok_is(ts, p, ">"@) ==> rel_node(ts, p, a, b) == bin(NodeKind::NodeLT, b, a),
        tok_is(ts, p, ">="@) ==> rel_node(ts, p, a, b) == bin(NodeKind::NodeLE, b, a),
{
    reveal_strlit("<");
    reveal_strlit("<=");
    reveal_strlit(">");
    reveal_strlit(">=");
    assert(">"@.len() == 1 && "<"@.len() == 1 && "<="@.len() == 2 && ">="@.len() == 2);
    assert(">"@[0] == '>' && "<"@[0] == '<' && "<="@[0] == '<' && ">="@[0] == '>');
}

/// A name's offset does not change once it is in the table, using it again
/// leaves the table as it is, and a new name takes the next slot.
pub proof fn lemma_offsets_first_use(vs: Seq<Seq<char>>, name: Seq<char>)
    ensures
        var_offset(bind(vs, name), name) == var_offset(vs, name),
        bind(bind(vs, name), name) == bind(vs, name),
        var_index(vs, name) < 0 ==> var_offset(vs, name) == (vs.len() + 1) * SLOT_SIZE,
        var_index(vs, name) < 0 ==> bind(vs, name) == vs.push(name),
{
    if var_index(vs, name) < 0 {
        let w = vs.push(name);
        assert(w.last() == name);
        assert(var_index(w, name) == vs.len());
    }
}

/// Different names in the table have different offsets.
pub proof fn lemma_offsets_distinct(vs: Seq<Seq<char>>, a: Seq<char>, b: Seq<char>)
    requires
        var_index(vs, a) >= 0,
        var_index(vs, b) >= 0,
        a != b,
    ensures
        var_offset(vs, a) != var_offset(vs, b),
    decreases vs.len(),
{
    if vs.last() == a {
        lemma_var_index_bound(vs.drop_last(), b);
    } else if vs.last() == b {
        lemma_var_index_bound(vs.drop_last(), a);
    } else {
        lemma_offsets_distinct(vs.drop_last(), a, b);
    }
}

proof fn lemma_var_index_bound(vs: Seq<Seq<char>>, name: Seq<char>)
    ensures
        -1 <= var_index(vs, name) < vs.len(),
    decreases vs.len(),
{
    if vs.len() > 0 && vs.last() != name {
        lemma_var_index_bound(vs.drop_last(), name);
    }
}

} // verus!

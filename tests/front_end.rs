use tinyc::ast::{Node, NodeKind};
use tinyc::lexer::{LexError, ParseError, TokenKind, Tokenizer};
use tinyc::parser::{parse_source, CompileError, Parser};

fn parse_ok(src: &str) -> Parser {
    parse_source(src).unwrap()
}

fn num(n: &Node) -> String {
    assert_eq!(n.kind, NodeKind::NodeNum);
    n.val.clone().unwrap()
}

fn lhs(n: &Node) -> &Node {
    n.lhs.as_ref().unwrap()
}

fn rhs(n: &Node) -> &Node {
    n.rhs.as_ref().unwrap()
}

fn lex_all(src: &str) -> Vec<(TokenKind, String)> {
    let t = Tokenizer::tokenize(src).unwrap();
    let mut out = Vec::new();
    for i in 0..t.token_count() {
        let tok = t.token(i);
        out.push((tok.kind, tok.text.clone()));
    }
    out
}

#[test]
fn test_parse_int() {
    let mut tokenizer = Tokenizer::new_empty("42");
    assert_eq!(tokenizer.parse_int().unwrap(), String::from("42"));
}

#[test]
fn parse_int_skips_inner_spaces() {
    let mut tokenizer = Tokenizer::new_empty("1 2 3+4");
    assert_eq!(tokenizer.parse_int().unwrap(), String::from("123"));
}

#[test]
fn lexer_classifies_tokens() {
    let toks = lex_all("a==b; if x <= 10 return_1 while");
    let expect = vec![
        (TokenKind::TkIdent, "a"),
        (TokenKind::TkReserved, "=="),
        (TokenKind::TkIdent, "b"),
        (TokenKind::TkReserved, ";"),
        (TokenKind::TkKeyword, "if"),
        (TokenKind::TkIdent, "x"),
        (TokenKind::TkReserved, "<="),
        (TokenKind::TkNum, "10"),
        (TokenKind::TkIdent, "return_1"),
        (TokenKind::TkKeyword, "while"),
        (TokenKind::TkEOF, ""),
    ];
    assert_eq!(toks.len(), expect.len());
    for (got, want) in toks.iter().zip(expect.iter()) {
        assert_eq!(got.0, want.0);
        assert_eq!(got.1, want.1);
    }
}

#[test]
fn lexer_is_deterministic() {
    let a = lex_all("x1 = y != 3 >= 4 > 5 < 6 & *p;");
    let b = lex_all("x1 = y != 3 >= 4 > 5 < 6 & *p;");
    assert_eq!(a, b);
    assert_eq!(a[3].1, "!=");
    assert_eq!(a[5].1, ">=");
    assert_eq!(a[7].1, ">");
}

#[test]
fn number_with_inner_space_is_one_token() {
    let toks = lex_all("1 2;");
    assert_eq!(toks.len(), 3);
    assert_eq!(toks[0], (TokenKind::TkNum, String::from("12")));
}

#[test]
fn empty_source_is_one_end_token() {
    let toks = lex_all("");
    assert_eq!(toks, vec![(TokenKind::TkEOF, String::new())]);
    let p = parse_ok("   ");
    assert_eq!(p.code.len(), 0);
}

#[test]
fn malformed_bang_is_lexical_error() {
    assert_eq!(Tokenizer::tokenize("!1;").unwrap_err(), LexError::MalformedBang { at: 0 });
    assert_eq!(
        parse_source("!1;").unwrap_err(),
        CompileError::Lex(LexError::MalformedBang { at: 0 })
    );
    assert_eq!(Tokenizer::tokenize("a !").unwrap_err(), LexError::MalformedBang { at: 2 });
}

#[test]
fn unrecognized_character_is_lexical_error() {
    assert_eq!(
        Tokenizer::tokenize("1 $ 2").unwrap_err(),
        LexError::Unrecognized { ch: '$', at: 2 }
    );
    assert_eq!(
        Tokenizer::tokenize("A").unwrap_err(),
        LexError::Unrecognized { ch: 'A', at: 0 }
    );
}

#[test]
fn greater_than_swaps_operands() {
    let p = parse_ok("1 > 2;");
    let n = &p.code[0];
    assert_eq!(n.kind, NodeKind::NodeLT);
    assert_eq!(num(lhs(n)), "2");
    assert_eq!(num(rhs(n)), "1");
    let p = parse_ok("1 >= 2;");
    let n = &p.code[0];
    assert_eq!(n.kind, NodeKind::NodeLE);
    assert_eq!(num(lhs(n)), "2");
    assert_eq!(num(rhs(n)), "1");
}

#[test]
fn less_than_keeps_operands() {
    let p = parse_ok("1 < 2;");
    let n = &p.code[0];
    assert_eq!(n.kind, NodeKind::NodeLT);
    assert_eq!(num(lhs(n)), "1");
    assert_eq!(num(rhs(n)), "2");
}

#[test]
fn offsets_follow_first_use() {
    let p = parse_ok("a = 1; b = 2; a = 3;");
    assert_eq!(p.code.len(), 3);
    let a1 = lhs(&p.code[0]);
    let b = lhs(&p.code[1]);
    let a2 = lhs(&p.code[2]);
    assert_eq!(a1.kind, NodeKind::NodeLVar);
    assert_eq!(a1.offset, 8);
    assert_eq!(b.offset, 16);
    assert_eq!(a2.offset, 8);
    assert_eq!(p.locals.len(), 2);
    assert_eq!(p.locals[0].name, "a");
    assert_eq!(p.locals[0].offset, 8);
    assert_eq!(p.locals[1].name, "b");
    assert_eq!(p.locals[1].offset, 16);
}

#[test]
fn unary_minus_is_zero_minus() {
    let p = parse_ok("-5;");
    let n = &p.code[0];
    assert_eq!(n.kind, NodeKind::NodeSub);
    assert_eq!(num(lhs(n)), "0");
    assert_eq!(num(rhs(n)), "5");
}

#[test]
fn unary_plus_and_pointer_ops() {
    let p = parse_ok("+7; *&x; **y;");
    assert_eq!(num(&p.code[0]), "7");
    let d = &p.code[1];
    assert_eq!(d.kind, NodeKind::NodeDeref);
    assert_eq!(lhs(d).kind, NodeKind::NodeAddr);
    assert_eq!(lhs(lhs(d)).kind, NodeKind::NodeLVar);
    assert_eq!(p.code[2].kind, NodeKind::NodeDeref);
    assert_eq!(lhs(&p.code[2]).kind, NodeKind::NodeDeref);
}

#[test]
fn for_with_omitted_clauses() {
    let p = parse_ok("for (;;) 1;");
    let n = &p.code[0];
    assert_eq!(n.kind, NodeKind::NodeLoop);
    assert!(n.init.is_none());
    assert!(n.cond.is_none());
    assert!(n.inc.is_none());
    assert_eq!(num(n.body.as_ref().unwrap()), "1");
}

#[test]
fn for_with_all_clauses_and_while() {
    let p = parse_ok("for (i = 0; i < 10; i = i + 1) j = i; while (i) i = i - 1;");
    let f = &p.code[0];
    assert_eq!(f.init.as_ref().unwrap().kind, NodeKind::NodeAssign);
    assert_eq!(f.cond.as_ref().unwrap().kind, NodeKind::NodeLT);
    assert_eq!(f.inc.as_ref().unwrap().kind, NodeKind::NodeAssign);
    let w = &p.code[1];
    assert_eq!(w.kind, NodeKind::NodeLoop);
    assert!(w.init.is_none());
    assert!(w.inc.is_none());
    assert_eq!(w.cond.as_ref().unwrap().kind, NodeKind::NodeLVar);
    assert_eq!(w.body.as_ref().unwrap().kind, NodeKind::NodeAssign);
}

#[test]
fn empty_statement_is_empty_block() {
    let p = parse_ok(";");
    assert_eq!(p.code.len(), 1);
    assert_eq!(p.code[0].kind, NodeKind::NodeBlock);
    assert_eq!(p.code[0].stmts.len(), 0);
}

#[test]
fn unclosed_block_is_syntax_error() {
    assert_eq!(
        parse_source("{ 1;").unwrap_err(),
        CompileError::Parse(ParseError::UnclosedBlock { at: 3 })
    );
}

#[test]
fn block_and_if_else_and_return() {
    let p = parse_ok("{ a = 1; if (a == 1) return a; else return 2; }");
    let b = &p.code[0];
    assert_eq!(b.kind, NodeKind::NodeBlock);
    assert_eq!(b.stmts.len(), 2);
    let i = &b.stmts[1];
    assert_eq!(i.kind, NodeKind::NodeIf);
    assert_eq!(i.cond.as_ref().unwrap().kind, NodeKind::NodeEQ);
    assert_eq!(i.then_branch.as_ref().unwrap().kind, NodeKind::NodeReturn);
    assert_eq!(num(lhs(i.else_branch.as_ref().unwrap())), "2");
}

#[test]
fn precedence_and_associativity() {
    let p = parse_ok("1 - 2 - 3 * 4; a = b = 5; 1 == 2 != 3;");
    let s = &p.code[0];
    assert_eq!(s.kind, NodeKind::NodeSub);
    assert_eq!(lhs(s).kind, NodeKind::NodeSub);
    assert_eq!(rhs(s).kind, NodeKind::NodeMul);
    let a = &p.code[1];
    assert_eq!(a.kind, NodeKind::NodeAssign);
    assert_eq!(rhs(a).kind, NodeKind::NodeAssign);
    let e = &p.code[2];
    assert_eq!(e.kind, NodeKind::NodeNE);
    assert_eq!(lhs(e).kind, NodeKind::NodeEQ);
}

#[test]
fn parenthesised_expression() {
    let p = parse_ok("(1 + 2) * 3;");
    let m = &p.code[0];
    assert_eq!(m.kind, NodeKind::NodeMul);
    assert_eq!(lhs(m).kind, NodeKind::NodeAdd);
}

#[test]
fn syntax_errors_name_the_place() {
    assert_eq!(
        parse_source("1").unwrap_err(),
        CompileError::Parse(ParseError::ExpectedPunct { expected: ';', at: 1 })
    );
    assert_eq!(
        parse_source("(1;").unwrap_err(),
        CompileError::Parse(ParseError::ExpectedPunct { expected: ')', at: 2 })
    );
    assert_eq!(
        parse_source("if 1;").unwrap_err(),
        CompileError::Parse(ParseError::ExpectedPunct { expected: '(', at: 1 })
    );
    assert_eq!(
        parse_source("*;").unwrap_err(),
        CompileError::Parse(ParseError::ExpectedOperand { at: 1 })
    );
    assert_eq!(
        parse_source("1 2 3 4").unwrap_err(),
        CompileError::Parse(ParseError::ExpectedPunct { expected: ';', at: 1 })
    );
}

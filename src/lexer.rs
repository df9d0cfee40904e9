use vstd::prelude::*;

use crate::text::{chars_of, string_from_chars, string_is, string_is_char};

verus! {

/// How a token is classified.
#[derive(Debug, Clone, Copy, PartialEq, Eq, Structural)]
pub enum TokenKind {
    TkReserved,
    TkIdent,
    TkKeyword,
    TkNum,
    TkEOF,
}

/// A lexical unit: its class and its spelling. For an integer literal the
/// spelling is the run of digits, without the spaces skipped inside it.
#[derive(Debug, Clone)]
pub struct Token {
    pub kind: TokenKind,
    pub text: String,
}

/// The mathematical model of a token.
pub struct Tok {
    pub kind: TokenKind,
    pub text: Seq<char>,
}

impl Token {
    pub open spec fn view(&self) -> Tok {
        Tok { kind: self.kind, text: self.text@ }
    }
}

/// A fatal lexical error, with the index of the offending character.
#[derive(Debug, Clone, Copy, PartialEq, Eq, Structural)]
pub enum LexError {
    /// `!` not followed by `=`.
    MalformedBang { at: usize },
    /// A character that starts no token.
    Unrecognized { ch: char, at: usize },
}

/// Errors of the parser, with the index of the token where they arose.
#[derive(Debug, Clone, Copy, PartialEq, Eq, Structural)]
pub enum ParseError {
    /// The punctuation `expected` was required, another token stood there.
    ExpectedPunct { expected: char, at: usize },
    /// A number, identifier or `(` was required.
    ExpectedOperand { at: usize },
    /// The end of input came before the `}` closing a block.
    UnclosedBlock { at: usize },
}

pub open spec fn is_space(c: char) -> bool {
    c == ' ' || c == '\t' || c == '\n' || c == '\r'
}

pub open spec fn is_single(c: char) -> bool {
    c == '+' || c == '-' || c == '*' || c == '/' || c == '(' || c == ')' || c == ';' || c == '{'
        || c == '}' || c == '&'
}

pub open spec fn is_ident_start(c: char) -> bool {
    ('a' <= c && c <= 'z') || c == '_'
}

pub open spec fn is_digit(c: char) -> bool {
    '0' <= c && c <= '9'
}

pub open spec fn is_ident_char(c: char) -> bool {
    ('a' <= c && c <= 'z') || ('A' <= c && c <= 'Z') || is_digit(c) || c == '_'
}

pub open spec fn is_keyword(t: Seq<char>) -> bool {
    t == "return"@ || t == "if"@ || t == "else"@ || t == "for"@ || t == "while"@
}

/// The class of a word made of identifier characters.
pub open spec fn word_kind(t: Seq<char>) -> TokenKind {
    if is_keyword(t) {
        TokenKind::TkKeyword
    } else {
        TokenKind::TkIdent
    }
}

/// Where the run of identifier characters that starts at `i` ends.
pub open spec fn ident_end(s: Seq<char>, i: int) -> int
    decreases s.len() - i,
{
    if 0 <= i < s.len() && is_ident_char(s[i]) {
        ident_end(s, i + 1)
    } else {
        i
    }
}

/// The digits of the run of digits and spaces that starts at `i`.
pub open spec fn num_digits(s: Seq<char>, i: int) -> Seq<char>
    decreases s.len() - i,
{
    if 0 <= i < s.len() && is_digit(s[i]) {
        seq![s[i]] + num_digits(s, i + 1)
    } else if 0 <= i < s.len() && s[i] == ' ' {
        num_digits(s, i + 1)
    } else {
        seq![]
    }
}

/// Where the run of digits and spaces that starts at `i` ends.
pub open spec fn num_end(s: Seq<char>, i: int) -> int
    decreases s.len() - i,
{
    if 0 <= i < s.len() && (is_digit(s[i]) || s[i] == ' ') {
        num_end(s, i + 1)
    } else {
        i
    }
}

pub open spec fn prepend(pre: Seq<Tok>, r: Result<Seq<Tok>, LexError>) -> Result<Seq<Tok>, LexError> {
    match r {
        Ok(t) => Ok(pre + t),
        Err(e) => Err(e),
    }
}

pub open spec fn reserved(t: Seq<char>) -> Tok {
    Tok { kind: TokenKind::TkReserved, text: t }
}

/// The tokens of `s` from index `i` on, or the first lexical error there.
pub open spec fn lex_from(s: Seq<char>, i: int) -> Result<Seq<Tok>, LexError>
    decreases s.len() - i,
    via lex_from_decreases
{
    if i < 0 || i >= s.len() {
        Ok(seq![Tok { kind: TokenKind::TkEOF, text: seq![] }])
    } else {
        let c = s[i];
        let two = i + 1 < s.len() && s[i + 1] == '=';
        if is_space(c) {
            lex_from(s, i + 1)
        } else if is_single(c) {
            prepend(seq![reserved(seq![c])], lex_from(s, i + 1))
        } else if c == '=' || c == '<' || c == '>' {
            if two {
                prepend(seq![reserved(seq![c, '='])], lex_from(s, i + 2))
            } else {
                prepend(seq![reserved(seq![c])], lex_from(s, i + 1))
            }
        } else if c == '!' {
            if two {
                prepend(seq![reserved(seq!['!', '='])], lex_from(s, i + 2))
            } else {
                Err(LexError::MalformedBang { at: i as usize })
            }
        } else if is_ident_start(c) {
            let j = ident_end(s, i + 1);
            let w = s.subrange(i, j);
            prepend(seq![Tok { kind: word_kind(w), text: w }], lex_from(s, j))
        } else if is_digit(c) {
            prepend(
                seq![Tok { kind: TokenKind::TkNum, text: num_digits(s, i) }],
                lex_from(s, num_end(s, i)),
            )
        } else {
            Err(LexError::Unrecognized { ch: c, at: i as usize })
        }
    }
}

#[via_fn]
proof fn lex_from_decreases(s: Seq<char>, i: int) {
    if 0 <= i < s.len() {
        lemma_ident_end_bounds(s, i + 1);
        lemma_num_end_bounds(s, i);
    }
}

/// The token sequence of a whole source text: it ends with one end token.
pub open spec fn lex(s: Seq<char>) -> Result<Seq<Tok>, LexError> {
    lex_from(s, 0)
}

pub proof fn lemma_ident_end_bounds(s: Seq<char>, i: int)
    requires
        0 <= i <= s.len(),
    ensures
        i <= ident_end(s, i) <= s.len(),
        forall|k: int| i <= k < ident_end(s, i) ==> is_ident_char(#[trigger] s[k]),
    decreases s.len() - i,
{
    if i < s.len() && is_ident_char(s[i]) {
        lemma_ident_end_bounds(s, i + 1);
    }
}

pub proof fn lemma_num_end_bounds(s: Seq<char>, i: int)
    requires
        0 <= i <= s.len(),
    ensures
        i <= num_end(s, i) <= s.len(),
        i < s.len() && is_digit(s[i]) ==> i < num_end(s, i),
    decreases s.len() - i,
{
    if i < s.len() && (is_digit(s[i]) || s[i] == ' ') {
        lemma_num_end_bounds(s, i + 1);
    }
}

proof fn lemma_prepend_push(pre: Seq<Tok>, t: Tok, r: Result<Seq<Tok>, LexError>)
    ensures
        prepend(pre, prepend(seq![t], r)) == prepend(pre.push(t), r),
{
    if let Ok(ts) = r {
        assert(pre + (seq![t] + ts) =~= pre.push(t) + ts);
    }
}

/// The token at `p` is punctuation, an operator or a keyword spelled `op`.
pub open spec fn tok_is(ts: Seq<Tok>, p: int, op: Seq<char>) -> bool {
    &&& 0 <= p < ts.len()
    &&& (ts[p].kind == TokenKind::TkReserved || ts[p].kind == TokenKind::TkKeyword)
    &&& ts[p].text == op
}

/// The token at `p` is of class `k`.
pub open spec fn kind_at(ts: Seq<Tok>, p: int, k: TokenKind) -> bool {
    0 <= p < ts.len() && ts[p].kind == k
}

/// No token is left at `p` but the end.
pub open spec fn at_end(ts: Seq<Tok>, p: int) -> bool {
    p < 0 || p >= ts.len() || ts[p].kind == TokenKind::TkEOF
}

/// A successful lexing ends with exactly one end token, at the end.
pub proof fn lemma_lex_ends_with_eof(s: Seq<char>, i: int)
    requires
        lex_from(s, i) is Ok,
    ensures
        lex_from(s, i)->Ok_0.len() > 0,
        lex_from(s, i)->Ok_0.last().kind == TokenKind::TkEOF,
        forall|k: int|
            0 <= k < lex_from(s, i)->Ok_0.len() - 1 ==> (#[trigger] lex_from(s, i)->Ok_0[k]).kind
                != TokenKind::TkEOF,
    decreases s.len() - i,
{
    if 0 <= i < s.len() {
        lemma_ident_end_bounds(s, i + 1);
        lemma_num_end_bounds(s, i);
        let c = s[i];
        let two = i + 1 < s.len() && s[i + 1] == '=';
        if is_space(c) {
            lemma_lex_ends_with_eof(s, i + 1);
        } else if is_single(c) || ((c == '=' || c == '<' || c == '>') && !two) {
            lemma_lex_ends_with_eof(s, i + 1);
        } else if c == '=' || c == '<' || c == '>' || c == '!' {
            lemma_lex_ends_with_eof(s, i + 2);
        } else if is_ident_start(c) {
            lemma_lex_ends_with_eof(s, ident_end(s, i + 1));
        } else {
            lemma_lex_ends_with_eof(s, num_end(s, i));
        }
    }
}

/// The token sequence of a source text and a cursor into it.
///
/// Lexing reads `chars` from index `at` and appends to `tokens`; parsing
/// walks `tokens` from index `pos`, forward only.
#[derive(Debug, Clone)]
pub struct Tokenizer {
    chars: Vec<char>,
    at: usize,
    tokens: Vec<Token>,
    pos: usize,
}

impl Tokenizer {
    pub closed spec fn source(&self) -> Seq<char> {
        self.chars@
    }

    pub closed spec fn at(&self) -> int {
        self.at as int
    }

    /// The tokens produced so far.
    pub closed spec fn toks(&self) -> Seq<Tok> {
        self.tokens@.map_values(|t: Token| t@)
    }

    /// The index of the token under the cursor.
    pub closed spec fn pos(&self) -> int {
        self.pos as int
    }

    /// The cursor stands on a token of a complete sequence.
    pub open spec fn ready(&self) -> bool {
        &&& 0 <= self.pos() < self.toks().len()
        &&& self.toks().last().kind == TokenKind::TkEOF
    }

    pub closed spec fn lexing(&self) -> bool {
        self.at <= self.chars@.len()
    }

    /// A tokenizer over `string` that has read nothing yet.
    pub fn new_empty(string: &str) -> (r: Tokenizer)
        ensures
            r.source() == string@,
            r.at() == 0,
            r.toks() == Seq::<Tok>::empty(),
            r.pos() == 0,
            r.lexing(),
    {
        let t = Tokenizer { chars: chars_of(string), at: 0, tokens: Vec::new(), pos: 0 };
        assert(t.toks() =~= Seq::<Tok>::empty());
        t
    }

    /// Lexes all of `string`.
    pub fn tokenize(string: &str) -> (r: Result<Tokenizer, LexError>)
        ensures
            match lex(string@) {
                Ok(ts) => r matches Ok(t) && t.toks() == ts && t.pos() == 0 && t.ready(),
                Err(e) => r == Err::<Tokenizer, LexError>(e),
            },
    {
        let mut tk = Tokenizer::new_empty(string);
        let ghost s = string@;
        assert(prepend(tk.toks(), lex_from(s, 0)) == lex(s)) by {
            if let Ok(ts) = lex_from(s, 0) {
                assert(Seq::<Tok>::empty() + ts =~= ts);
            }
        }
        loop
            invariant
                s == string@,
                tk.source() == s,
                tk.lexing(),
                tk.pos() == 0,
                prepend(tk.toks(), lex_from(s, tk.at())) == lex(s),
            decreases s.len() - tk.at(),
        {
            if tk.at >= tk.chars.len() {
                let ghost pre = tk.toks();
                tk.new_token(TokenKind::TkEOF, String::new());
                assert(tk.toks() =~= pre + lex_from(s, tk.at())->Ok_0);
                proof {
                    lemma_lex_ends_with_eof(s, 0);
                }
                return Ok(tk);
            }
            let c = tk.chars[tk.at];
            let ghost i = tk.at();
            let ghost pre = tk.toks();
            if c == ' ' || c == '\t' || c == '\n' || c == '\r' {
                tk.at = tk.at + 1;
            } else if c == '+' || c == '-' || c == '*' || c == '/' || c == '(' || c == ')' || c
                == ';' || c == '{' || c == '}' || c == '&' {
                tk.at = tk.at + 1;
                let t = string_from_chars(&vec![c]);
                assert(t@ =~= seq![c]);
                tk.new_token(TokenKind::TkReserved, t);
                proof {
                    lemma_prepend_push(pre, tk.toks().last(), lex_from(s, tk.at()));
                }
            } else if c == '=' || c == '<' || c == '>' {
                tk.at = tk.at + 1;
                let t = tk.peek_and_append_char(vec![c], '=');
                let t = string_from_chars(&t);
                assert(t@ =~= seq![c, '='] || t@ =~= seq![c]);
                tk.new_token(TokenKind::TkReserved, t);
                proof {
                    lemma_prepend_push(pre, tk.toks().last(), lex_from(s, tk.at()));
                }
            } else if c == '!' {
                if tk.at + 1 < tk.chars.len() && tk.chars[tk.at + 1] == '=' {
                    tk.at = tk.at + 2;
                    let t = string_from_chars(&vec!['!', '=']);
                    tk.new_token(TokenKind::TkReserved, t);
                    proof {
                            lemma_prepend_push(pre, tk.toks().last(), lex_from(s, tk.at()));
                    }
                } else {
                    return Err(LexError::MalformedBang { at: tk.at });
                }
            } else if ('a' <= c && c <= 'z') || c == '_' {
                tk.at = tk.at + 1;
                proof {
                    lemma_ident_end_bounds(s, i + 1);
                }
                let t = tk.parse_ident(vec![c]);
                assert(t@ =~= s.subrange(i, ident_end(s, i + 1)));
                let t = string_from_chars(&t);
                tk.new_token(TokenKind::TkIdent, t);
                proof {
                    lemma_prepend_push(pre, tk.toks().last(), lex_from(s, tk.at()));
                }
            } else if '0' <= c && c <= '9' {
                proof {
                    lemma_num_end_bounds(s, i);
                }
                tk.new_token(TokenKind::TkNum, String::new());
                proof {
                    lemma_prepend_push(pre, tk.toks().last(), lex_from(s, tk.at()));
                }
            } else {
                return Err(LexError::Unrecognized { ch: c, at: tk.at });
            }
        }
    }

    /// Appends one token. An identifier that spells a keyword becomes a
    /// keyword token; a number token takes its digits from the source.
    fn new_token(&mut self, kind: TokenKind, text: String)
        requires
            old(self).lexing(),
        ensures
            final(self).lexing(),
            final(self).source() == old(self).source(),
            final(self).pos() == old(self).pos(),
            kind == TokenKind::TkNum ==> final(self).at() == num_end(old(self).source(), old(self).at()),
            kind != TokenKind::TkNum ==> final(self).at() == old(self).at(),
            final(self).toks() == old(self).toks().push(
                if kind == TokenKind::TkNum {
                    Tok { kind, text: num_digits(old(self).source(), old(self).at()) }
                } else if kind == TokenKind::TkIdent {
                    Tok { kind: word_kind(text@), text: text@ }
                } else {
                    Tok { kind, text: text@ }
                },
            ),
    {
        let mut kind = kind;
        let mut text = text;
        if kind == TokenKind::TkNum {
            let digits = self.scan_digits();
            text = string_from_chars(&digits);
        } else if kind == TokenKind::TkIdent {
            kind = Tokenizer::convert_keyword(&text);
        }
        let ghost before = self.toks();
        self.tokens.push(Token { kind, text });
        assert(self.toks() =~= before.push(Tok { kind, text: text@ }));
    }

    /// Reads the run of digits at the read index, skipping spaces inside it.
    fn scan_digits(&mut self) -> (r: Vec<char>)
        requires
            old(self).lexing(),
        ensures
            final(self).lexing(),
            final(self).source() == old(self).source(),
            final(self).toks() == old(self).toks(),
            final(self).pos() == old(self).pos(),
            final(self).at() == num_end(old(self).source(), old(self).at()),
            r@ == num_digits(old(self).source(), old(self).at()),
    {
        let ghost s = self.chars@;
        let ghost i0 = self.at as int;
        let mut digits: Vec<char> = Vec::new();
        while self.at < self.chars.len() && (('0' <= self.chars[self.at] && self.chars[self.at]
            <= '9') || self.chars[self.at] == ' ')
            invariant
                self.chars@ == s,
                0 <= i0 <= self.at <= s.len(),
                num_end(s, i0) == num_end(s, self.at as int),
                num_digits(s, i0) == digits@ + num_digits(s, self.at as int),
                self.tokens == old(self).tokens,
                self.pos == old(self).pos,
            decreases s.len() - self.at,
        {
            let c = self.chars[self.at];
            if c != ' ' {
                let ghost d = digits@;
                digits.push(c);
                self.at = self.at + 1;
                assert(d + (seq![c] + num_digits(s, self.at as int)) =~= digits@ + num_digits(
                    s,
                    self.at as int,
                ));
            } else {
                self.at = self.at + 1;
            }
        }
        assert(digits@ + num_digits(s, self.at as int) =~= digits@);
        digits
    }

    /// Reads the integer literal at the read index: its digits, spaces
    /// inside the run skipped.
    pub fn parse_int(&mut self) -> (r: Option<String>)
        requires
            old(self).lexing(),
        ensures
            final(self).lexing(),
            final(self).source() == old(self).source(),
            final(self).toks() == old(self).toks(),
            final(self).at() == num_end(old(self).source(), old(self).at()),
            r is Some,
            r->Some_0@ == num_digits(old(self).source(), old(self).at()),
    {
        let digits = self.scan_digits();
        Some(string_from_chars(&digits))
    }

    /// Appends the character at the read index to `text` when it is `expected`.
    fn peek_and_append_char(&mut self, text: Vec<char>, expected: char) -> (r: Vec<char>)
        requires
            old(self).lexing(),
        ensures
            final(self).lexing(),
            final(self).source() == old(self).source(),
            final(self).toks() == old(self).toks(),
            final(self).pos() == old(self).pos(),
            ({
                let s = old(self).source();
                let i = old(self).at();
                if i < s.len() && s[i] == expected {
                    r@ == text@.push(expected) && final(self).at() == i + 1
                } else {
                    r@ == text@ && final(self).at() == i
                }
            }),
    {
        let mut text = text;
        if self.at < self.chars.len() && self.chars[self.at] == expected {
            text.push(expected);
            self.at = self.at + 1;
        }
        text
    }

    /// Appends to `text` the run of identifier characters at the read index.
    fn parse_ident(&mut self, text: Vec<char>) -> (r: Vec<char>)
        requires
            old(self).lexing(),
        ensures
            final(self).lexing(),
            final(self).source() == old(self).source(),
            final(self).toks() == old(self).toks(),
            final(self).pos() == old(self).pos(),
            final(self).at() == ident_end(old(self).source(), old(self).at()),
            r@ == text@ + old(self).source().subrange(old(self).at(), final(self).at()),
    {
        let ghost s = self.chars@;
        let ghost i0 = self.at as int;
        let ghost t0 = text@;
        let mut text = text;
        while self.at < self.chars.len() && (('a' <= self.chars[self.at] && self.chars[self.at]
            <= 'z') || ('A' <= self.chars[self.at] && self.chars[self.at] <= 'Z') || ('0'
            <= self.chars[self.at] && self.chars[self.at] <= '9') || self.chars[self.at] == '_')
            invariant
                self.chars@ == s,
                0 <= i0 <= self.at <= s.len(),
                ident_end(s, i0) == ident_end(s, self.at as int),
                text@ == t0 + s.subrange(i0, self.at as int),
                self.tokens == old(self).tokens,
                self.pos == old(self).pos,
            decreases s.len() - self.at,
        {
            let c = self.chars[self.at];
            text.push(c);
            self.at = self.at + 1;
            assert(text@ =~= t0 + s.subrange(i0, self.at as int));
        }
        text
    }

    /// The class of a word: keyword when it spells one, identifier otherwise.
    fn convert_keyword(text: &String) -> (r: TokenKind)
        ensures
            r == word_kind(text@),
    {
        if string_is(text, "return") || string_is(text, "if") || string_is(text, "else")
            || string_is(text, "for") || string_is(text, "while") {
            TokenKind::TkKeyword
        } else {
            TokenKind::TkIdent
        }
    }

    /// How many tokens the sequence holds.
    pub fn token_count(&self) -> (r: usize)
        ensures
            r == self.toks().len(),
    {
        self.tokens.len()
    }

    /// The index of the token under the cursor.
    pub fn position(&self) -> (r: usize)
        ensures
            r == self.pos(),
    {
        self.pos
    }

    /// The token at index `i`.
    pub fn token(&self, i: usize) -> (r: &Token)
        requires
            i < self.toks().len(),
        ensures
            r@ == self.toks()[i as int],
    {
        &self.tokens[i]
    }

    /// The token under the cursor.
    pub fn current(&self) -> (r: &Token)
        requires
            self.ready(),
        ensures
            r@ == self.toks()[self.pos()],
    {
        &self.tokens[self.pos]
    }

    /// Moves the cursor past a token that is not the end token.
    fn advance(&mut self)
        requires
            old(self).ready(),
            old(self).toks()[old(self).pos()].kind != TokenKind::TkEOF,
        ensures
            final(self).ready(),
            final(self).toks() == old(self).toks(),
            final(self).pos() == old(self).pos() + 1,
    {
        let n = self.tokens.len();
        assert(self.toks().len() == n);
        self.pos = self.pos + 1;
    }

    /// Steps over the current token when it is punctuation, an operator or a
    /// keyword spelled `op`, and tells whether it did.
    pub fn consume(&mut self, op: &str) -> (r: bool)
        requires
            old(self).ready(),
        ensures
            final(self).ready(),
            final(self).toks() == old(self).toks(),
            r == tok_is(old(self).toks(), old(self).pos(), op@),
            final(self).pos() == if r {
                old(self).pos() + 1
            } else {
                old(self).pos()
            },
    {
        let t = &self.tokens[self.pos];
        if (t.kind == TokenKind::TkReserved || t.kind == TokenKind::TkKeyword) && string_is(
            &t.text,
            op,
        ) {
            self.advance();
            true
        } else {
            false
        }
    }

    /// Steps over the current token when it is the punctuation `c`.
    pub fn consume_punct(&mut self, c: char) -> (r: bool)
        requires
            old(self).ready(),
        ensures
            final(self).ready(),
            final(self).toks() == old(self).toks(),
            r == tok_is(old(self).toks(), old(self).pos(), seq![c]),
            final(self).pos() == if r {
                old(self).pos() + 1
            } else {
                old(self).pos()
            },
    {
        let t = &self.tokens[self.pos];
        if (t.kind == TokenKind::TkReserved || t.kind == TokenKind::TkKeyword) && string_is_char(
            &t.text,
            c,
        ) {
            self.advance();
            true
        } else {
            false
        }
    }

    /// Steps over the punctuation `c`, which must stand under the cursor.
    pub fn expect(&mut self, c: char) -> (r: Result<(), ParseError>)
        requires
            old(self).ready(),
        ensures
            final(self).ready(),
            final(self).toks() == old(self).toks(),
            tok_is(old(self).toks(), old(self).pos(), seq![c]) ==> r is Ok && final(self).pos()
                == old(self).pos() + 1,
            !tok_is(old(self).toks(), old(self).pos(), seq![c]) ==> r == Err::<(), ParseError>(
                ParseError::ExpectedPunct { expected: c, at: old(self).pos() as usize },
            ) && final(self).pos() == old(self).pos(),
    {
        if self.consume_punct(c) {
            Ok(())
        } else {
            Err(ParseError::ExpectedPunct { expected: c, at: self.pos })
        }
    }

    /// Steps over an integer literal under the cursor and returns its digits.
    pub fn expect_number(&mut self) -> (r: Option<String>)
        requires
            old(self).ready(),
        ensures
            final(self).ready(),
            final(self).toks() == old(self).toks(),
            kind_at(old(self).toks(), old(self).pos(), TokenKind::TkNum) ==> (r matches Some(d)
                && d@ == old(self).toks()[old(self).pos()].text && final(self).pos() == old(self).pos()
                + 1),
            !kind_at(old(self).toks(), old(self).pos(), TokenKind::TkNum) ==> r is None
                && final(self).pos() == old(self).pos(),
    {
        if self.tokens[self.pos].kind == TokenKind::TkNum {
            let d = self.tokens[self.pos].text.clone();
            self.advance();
            Some(d)
        } else {
            None
        }
    }

    /// Steps over an identifier under the cursor and returns its name.
    pub fn is_ident_token(&mut self) -> (r: Option<String>)
        requires
            old(self).ready(),
        ensures
            final(self).ready(),
            final(self).toks() == old(self).toks(),
            kind_at(old(self).toks(), old(self).pos(), TokenKind::TkIdent) ==> (r matches Some(d)
                && d@ == old(self).toks()[old(self).pos()].text && final(self).pos() == old(self).pos()
                + 1),
            !kind_at(old(self).toks(), old(self).pos(), TokenKind::TkIdent) ==> r is None
                && final(self).pos() == old(self).pos(),
    {
        if self.tokens[self.pos].kind == TokenKind::TkIdent {
            let d = self.tokens[self.pos].text.clone();
            self.advance();
            Some(d)
        } else {
            None
        }
    }

    /// Whether only the end token is left.
    pub fn at_eof(&self) -> (r: bool)
        requires
            self.ready(),
        ensures
            r == at_end(self.toks(), self.pos()),
    {
        self.tokens[self.pos].kind == TokenKind::TkEOF
    }
}

} // verus!

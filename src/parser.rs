use vstd::prelude::*;

use crate::ast::{opt_model, view_list, Ast, Node, NodeKind};
use crate::grammar::{
    bind, sp_add, sp_add_rest, sp_assign, sp_equality, sp_equality_rest, sp_expr, sp_mul, sp_mul_rest,
    sp_primary, sp_program, sp_program_rest, sp_opt_expr, sp_stmt, sp_if, sp_while, sp_for, sp_block_rest, sp_relational, sp_relational_rest, sp_unary, var_index,
    var_offset, PResult, SLOT_SIZE,
};
use crate::lexer::{lex, LexError, ParseError, Tok, Tokenizer};

verus! {

/// Upper bound on the number of tokens, so that every offset fits a `usize`.
pub const MAX_TOKENS: usize = usize::MAX / 16;

/// Errors of the whole front end.
#[derive(Debug, Clone, Copy, PartialEq, Eq, Structural)]
pub enum CompileError {
    Lex(LexError),
    Parse(ParseError),
    /// More tokens than `MAX_TOKENS`.
    TooLong,
}

/// Lexes and parses a source text.
pub fn parse_source(src: &str) -> (r: Result<Parser, CompileError>)
    ensures
        match lex(src@) {
            Err(e) => r == Err::<Parser, CompileError>(CompileError::Lex(e)),
            Ok(ts) => if ts.len() > MAX_TOKENS {
                r == Err::<Parser, CompileError>(CompileError::TooLong)
            } else {
                match sp_program(ts) {
                    Ok((stmts, vs)) => r matches Ok(p) && p.statements() == stmts && p.vars()
                        == vs && p.offsets_ok(),
                    Err(e) => r == Err::<Parser, CompileError>(CompileError::Parse(e)),
                }
            },
        },
{
    let lexer = match Tokenizer::tokenize(src) {
        Ok(t) => t,
        Err(e) => return Err(CompileError::Lex(e)),
    };
    if lexer.token_count() > MAX_TOKENS {
        return Err(CompileError::TooLong);
    }
    match Parser::parse(lexer) {
        Ok(p) => Ok(p),
        Err(e) => Err(CompileError::Parse(e)),
    }
}

/// A local variable and its storage offset.
#[derive(Debug)]
pub struct LVar {
    pub name: String,
    pub offset: usize,
}

/// The parser: a cursor over the tokens, the statements parsed so far and
/// the table of local variables, in order of first use.
#[derive(Debug)]
pub struct Parser {
    pub lexer: Tokenizer,
    pub code: Vec<Node>,
    pub locals: Vec<LVar>,
}

/// What a production returned agrees with what the grammar gives.
pub open spec fn outcome(s: PResult, r: Result<Node, ParseError>, after: Parser) -> bool {
    match s {
        Ok((a, q, v)) => r is Ok && r->Ok_0@ == a && after.pos() == q && after.vars() == v,
        Err(e) => r == Err::<Node, ParseError>(e),
    }
}

pub open spec fn opt_outcome(
    s: Result<(Option<Box<Ast>>, int, Seq<Seq<char>>), ParseError>,
    r: Result<Option<Node>, ParseError>,
    after: Parser,
) -> bool {
    match s {
        Ok((a, q, v)) => r is Ok && opt_model(r->Ok_0) == a && after.pos() == q && after.vars()
            == v,
        Err(e) => r == Err::<Option<Node>, ParseError>(e),
    }
}

impl Parser {
    pub closed spec fn toks(&self) -> Seq<Tok> {
        self.lexer.toks()
    }

    pub closed spec fn pos(&self) -> int {
        self.lexer.pos()
    }

    /// The names of the local variables, in order of first use.
    pub open spec fn vars(&self) -> Seq<Seq<char>> {
        self.locals@.map_values(|l: LVar| l.name@)
    }

    /// Each variable's offset is its slot: the `k`-th has `(k + 1) * 8`.
    pub open spec fn offsets_ok(&self) -> bool {
        forall|k: int|
            0 <= k < self.locals@.len() ==> #[trigger] self.locals@[k].offset == (k + 1)
                * SLOT_SIZE
    }

    /// The models of the top-level statements.
    pub open spec fn statements(&self) -> Seq<Ast> {
        view_list(self.code@)
    }

    pub closed spec fn wf(&self) -> bool {
        &&& self.lexer.ready()
        &&& self.offsets_ok()
        &&& self.locals@.len() <= self.pos()
        &&& self.toks().len() <= MAX_TOKENS
    }

    /// Parses a whole token sequence into statements and a variable table.
    pub fn parse(lexer: Tokenizer) -> (r: Result<Parser, ParseError>)
        requires
            lexer.ready(),
            lexer.pos() == 0,
            lexer.toks().len() <= MAX_TOKENS,
        ensures
            match sp_program(lexer.toks()) {
                Ok((stmts, vs)) => r matches Ok(p) && p.statements() == stmts && p.vars() == vs
                    && p.offsets_ok(),
                Err(e) => r == Err::<Parser, ParseError>(e),
            },
    {
        let mut parser = Parser { lexer, code: Vec::new(), locals: Vec::new() };
        assert(parser.vars() =~= Seq::<Seq<char>>::empty());
        match parser.program() {
            Ok(code) => {
                parser.code = code;
                Ok(parser)
            },
            Err(e) => Err(e),
        }
    }

    /// Parses statements up to the end token.
    #[verifier::spinoff_prover]
    fn program(&mut self) -> (r: Result<Vec<Node>, ParseError>)
        requires
            old(self).wf(),
        ensures
            final(self).offsets_ok(),
            match sp_program_rest(old(self).toks(), seq![], old(self).pos(), old(self).vars()) {
                Ok((stmts, vs)) => r is Ok && view_list(r->Ok_0@) == stmts && final(self).vars()
                    == vs,
                Err(e) => r == Err::<Vec<Node>, ParseError>(e),
            },
    {
        let ghost ts = self.toks();
        let ghost goal = sp_program_rest(ts, seq![], self.pos(), self.vars());
        let mut code: Vec<Node> = Vec::new();
        assert(view_list(code@) =~= Seq::<Ast>::empty());
        loop
            invariant
                self.wf(),
                self.toks() == ts,
                ts == old(self).toks(),
                goal == sp_program_rest(old(self).toks(), seq![], old(self).pos(), old(self).vars()),
                goal == sp_program_rest(ts, view_list(code@), self.pos(), self.vars()),
            decreases ts.len() - self.pos(),
        {
            if self.lexer.at_eof() {
                return Ok(code);
            }
            let s = match self.stmt() {
                Ok(s) => s,
                Err(e) => return Err(e),
            };
            let ghost before = code@;
            code.push(s);
            assert(code@.drop_last() =~= before);
        }
    }

    /// Looks `name` up in the table, adding it when it is new, and returns
    /// its offset.
    fn find_var(&mut self, name: String) -> (r: usize)
        requires
            old(self).lexer.ready(),
            old(self).offsets_ok(),
            old(self).locals@.len() < old(self).pos(),
            old(self).toks().len() <= MAX_TOKENS,
        ensures
            final(self).wf(),
            final(self).lexer == old(self).lexer,
            final(self).code == old(self).code,
            r == var_offset(old(self).vars(), name@),
            final(self).vars() == bind(old(self).vars(), name@),
    {
        let ghost vs = self.vars();
        let mut i: usize = self.locals.len();
        assert(vs.take(i as int) =~= vs);
        while i > 0
            invariant
                *self == *old(self),
                self.wf(),
                vs == old(self).vars(),
                i <= self.locals@.len(),
                vs == self.vars(),
                self.offsets_ok(),
                var_index(vs, name@) == var_index(vs.take(i as int), name@),
            decreases i,
        {
            assert(vs.take(i as int).drop_last() =~= vs.take(i - 1));
            if self.locals[i - 1].name == name {
                return self.locals[i - 1].offset;
            }
            i = i - 1;
        }
        assert(vs.take(0) =~= Seq::<Seq<char>>::empty());
        let n = self.locals.len();
        assert((n + 1) * 8 <= usize::MAX) by (nonlinear_arith)
            requires
                n < MAX_TOKENS,
                MAX_TOKENS == usize::MAX / 16,
        ;
        let offset = (n + 1) * SLOT_SIZE;
        self.locals.push(LVar { name, offset });
        assert(self.vars() =~= vs.push(name@));
        offset
    }

    fn primary(&mut self) -> (r: Result<Node, ParseError>)
        requires
            old(self).wf(),
        ensures
            final(self).wf(),
            final(self).toks() == old(self).toks(),
            outcome(sp_primary(old(self).toks(), old(self).pos(), old(self).vars()), r, *final(self)),
            r is Ok ==> old(self).pos() < final(self).pos(),
        decreases old(self).toks().len() - old(self).pos(), 0int,
    {
        if self.lexer.consume("(") {
            let node = match self.expr() {
                Ok(n) => n,
                Err(e) => return Err(e),
            };
            match self.lexer.expect(')') {
                Ok(()) => {},
                Err(e) => return Err(e),
            }
            return Ok(node);
        }
        if let Some(name) = self.lexer.is_ident_token() {
            let offset = self.find_var(name);
            return Ok(Node::new_lvar(offset));
        }
        match self.lexer.expect_number() {
            Some(d) => Ok(Node::new_node_num(d)),
            None => Err(ParseError::ExpectedOperand { at: self.lexer.position() }),
        }
    }

    fn unary(&mut self) -> (r: Result<Node, ParseError>)
        requires
            old(self).wf(),
        ensures
            final(self).wf(),
            final(self).toks() == old(self).toks(),
            outcome(sp_unary(old(self).toks(), old(self).pos(), old(self).vars()), r, *final(self)),
            r is Ok ==> old(self).pos() < final(self).pos(),
        decreases old(self).toks().len() - old(self).pos(), 1int,
    {
        if self.lexer.consume("+") {
            return self.primary();
        }
        if self.lexer.consume("-") {
            let zero = Node::new_node_num(String::from_str("0"));
            let rhs = match self.primary() {
                Ok(n) => n,
                Err(e) => return Err(e),
            };
            return Ok(Node::new_node(NodeKind::NodeSub, zero, rhs));
        }
        if self.lexer.consume("*") {
            return match self.unary() {
                Ok(n) => Ok(Node::new_unary(NodeKind::NodeDeref, n)),
                Err(e) => Err(e),
            };
        }
        if self.lexer.consume("&") {
            return match self.unary() {
                Ok(n) => Ok(Node::new_unary(NodeKind::NodeAddr, n)),
                Err(e) => Err(e),
            };
        }
        self.primary()
    }

    fn mul(&mut self) -> (r: Result<Node, ParseError>)
        requires
            old(self).wf(),
        ensures
            final(self).wf(),
            final(self).toks() == old(self).toks(),
            outcome(sp_mul(old(self).toks(), old(self).pos(), old(self).vars()), r, *final(self)),
            r is Ok ==> old(self).pos() < final(self).pos(),
        decreases old(self).toks().len() - old(self).pos(), 3int,
    {
        let ghost ts = self.toks();
        let ghost p0 = self.pos();
        let ghost goal = sp_mul(ts, p0, self.vars());
        let mut node = match self.unary() {
            Ok(n) => n,
            Err(e) => return Err(e),
        };
        loop
            invariant
                self.wf(),
                self.toks() == ts,
                p0 < self.pos(),
                ts == old(self).toks(),
                p0 == old(self).pos(),
                goal == sp_mul(old(self).toks(), old(self).pos(), old(self).vars()),
                goal == sp_mul_rest(ts, node@, self.pos(), self.vars()),
            decreases ts.len() - self.pos(),
        {
            let kind = if self.lexer.consume("*") {
                NodeKind::NodeMul
            } else if self.lexer.consume("/") {
                NodeKind::NodeDiv
            } else {
                return Ok(node);
            };
            let rhs = match self.unary() {
                Ok(n) => n,
                Err(e) => return Err(e),
            };
            node = Node::new_node(kind, node, rhs);
        }
    }

    fn add(&mut self) -> (r: Result<Node, ParseError>)
        requires
            old(self).wf(),
        ensures
            final(self).wf(),
            final(self).toks() == old(self).toks(),
            outcome(sp_add(old(self).toks(), old(self).pos(), old(self).vars()), r, *final(self)),
            r is Ok ==> old(self).pos() < final(self).pos(),
        decreases old(self).toks().len() - old(self).pos(), 5int,
    {
        let ghost ts = self.toks();
        let ghost p0 = self.pos();
        let ghost goal = sp_add(ts, p0, self.vars());
        let mut node = match self.mul() {
            Ok(n) => n,
            Err(e) => return Err(e),
        };
        loop
            invariant
                self.wf(),
                self.toks() == ts,
                p0 < self.pos(),
                ts == old(self).toks(),
                p0 == old(self).pos(),
                goal == sp_add(old(self).toks(), old(self).pos(), old(self).vars()),
                goal == sp_add_rest(ts, node@, self.pos(), self.vars()),
            decreases ts.len() - self.pos(),
        {
            let kind = if self.lexer.consume("+") {
                NodeKind::NodeAdd
            } else if self.lexer.consume("-") {
                NodeKind::NodeSub
            } else {
                return Ok(node);
            };
            let rhs = match self.mul() {
                Ok(n) => n,
                Err(e) => return Err(e),
            };
            node = Node::new_node(kind, node, rhs);
        }
    }

    fn relational(&mut self) -> (r: Result<Node, ParseError>)
        requires
            old(self).wf(),
        ensures
            final(self).wf(),
            final(self).toks() == old(self).toks(),
            outcome(sp_relational(old(self).toks(), old(self).pos(), old(self).vars()), r, *final(self)),
            r is Ok ==> old(self).pos() < final(self).pos(),
        decreases old(self).toks().len() - old(self).pos(), 7int,
    {
        let ghost ts = self.toks();
        let ghost p0 = self.pos();
        let ghost goal = sp_relational(ts, p0, self.vars());
        let mut node = match self.add() {
            Ok(n) => n,
            Err(e) => return Err(e),
        };
        loop
            invariant
                self.wf(),
                self.toks() == ts,
                p0 < self.pos(),
                ts == old(self).toks(),
                p0 == old(self).pos(),
                goal == sp_relational(old(self).toks(), old(self).pos(), old(self).vars()),
                goal == sp_relational_rest(ts, node@, self.pos(), self.vars()),
            decreases ts.len() - self.pos(),
        {
            let (kind, swap) = if self.lexer.consume("<") {
                (NodeKind::NodeLT, false)
            } else if self.lexer.consume("<=") {
                (NodeKind::NodeLE, false)
            } else if self.lexer.consume(">") {
                (NodeKind::NodeLT, true)
            } else if self.lexer.consume(">=") {
                (NodeKind::NodeLE, true)
            } else {
                return Ok(node);
            };
            let other = match self.add() {
                Ok(n) => n,
                Err(e) => return Err(e),
            };
            node = if swap {
                Node::new_node(kind, other, node)
            } else {
                Node::new_node(kind, node, other)
            };
        }
    }

    fn equality(&mut self) -> (r: Result<Node, ParseError>)
        requires
            old(self).wf(),
        ensures
            final(self).wf(),
            final(self).toks() == old(self).toks(),
            outcome(sp_equality(old(self).toks(), old(self).pos(), old(self).vars()), r, *final(self)),
            r is Ok ==> old(self).pos() < final(self).pos(),
        decreases old(self).toks().len() - old(self).pos(), 9int,
    {
        let ghost ts = self.toks();
        let ghost p0 = self.pos();
        let ghost goal = sp_equality(ts, p0, self.vars());
        let mut node = match self.relational() {
            Ok(n) => n,
            Err(e) => return Err(e),
        };
        loop
            invariant
                self.wf(),
                self.toks() == ts,
                p0 < self.pos(),
                ts == old(self).toks(),
                p0 == old(self).pos(),
                goal == sp_equality(old(self).toks(), old(self).pos(), old(self).vars()),
                goal == sp_equality_rest(ts, node@, self.pos(), self.vars()),
            decreases ts.len() - self.pos(),
        {
            let kind = if self.lexer.consume("==") {
                NodeKind::NodeEQ
            } else if self.lexer.consume("!=") {
                NodeKind::NodeNE
            } else {
                return Ok(node);
            };
            let rhs = match self.relational() {
                Ok(n) => n,
                Err(e) => return Err(e),
            };
            node = Node::new_node(kind, node, rhs);
        }
    }

    fn assign(&mut self) -> (r: Result<Node, ParseError>)
        requires
            old(self).wf(),
        ensures
            final(self).wf(),
            final(self).toks() == old(self).toks(),
            outcome(sp_assign(old(self).toks(), old(self).pos(), old(self).vars()), r, *final(self)),
            r is Ok ==> old(self).pos() < final(self).pos(),
        decreases old(self).toks().len() - old(self).pos(), 10int,
    {
        let node = match self.equality() {
            Ok(n) => n,
            Err(e) => return Err(e),
        };
        if self.lexer.consume("=") {
            return match self.assign() {
                Ok(rhs) => Ok(Node::new_node(NodeKind::NodeAssign, node, rhs)),
                Err(e) => Err(e),
            };
        }
        Ok(node)
    }

    fn expr(&mut self) -> (r: Result<Node, ParseError>)
        requires
            old(self).wf(),
        ensures
            final(self).wf(),
            final(self).toks() == old(self).toks(),
            outcome(sp_expr(old(self).toks(), old(self).pos(), old(self).vars()), r, *final(self)),
            r is Ok ==> old(self).pos() < final(self).pos(),
        decreases old(self).toks().len() - old(self).pos(), 11int,
    {
        self.assign()
    }

    /// An optional expression closed by the punctuation `close`.
    fn opt_expr(&mut self, close: char) -> (r: Result<Option<Node>, ParseError>)
        requires
            old(self).wf(),
        ensures
            final(self).wf(),
            final(self).toks() == old(self).toks(),
            opt_outcome(
                sp_opt_expr(old(self).toks(), old(self).pos(), old(self).vars(), close),
                r,
                *final(self),
            ),
            r is Ok ==> old(self).pos() < final(self).pos(),
        decreases old(self).toks().len() - old(self).pos(), 12int,
    {
        if self.lexer.consume_punct(close) {
            return Ok(None);
        }
        let e = match self.expr() {
            Ok(n) => n,
            Err(e) => return Err(e),
        };
        match self.lexer.expect(close) {
            Ok(()) => Ok(Some(e)),
            Err(err) => Err(err),
        }
    }

    /// `if`, already consumed: the condition, the branch and an optional
    /// `else` branch.
    #[verifier::spinoff_prover]
    #[verifier::rlimit(80)]
    fn if_stmt(&mut self) -> (r: Result<Node, ParseError>)
        requires
            old(self).wf(),
            old(self).pos() > 0,
        ensures
            final(self).wf(),
            final(self).toks() == old(self).toks(),
            outcome(sp_if(old(self).toks(), old(self).pos() - 1, old(self).vars()), r, *final(self)),
            r is Ok ==> old(self).pos() < final(self).pos(),
        decreases old(self).toks().len() - old(self).pos() + 1, 13int,
    {
        match self.lexer.expect('(') {
            Ok(()) => {},
            Err(e) => return Err(e),
        }
        let c = match self.expr() {
            Ok(n) => n,
            Err(e) => return Err(e),
        };
        match self.lexer.expect(')') {
            Ok(()) => {},
            Err(e) => return Err(e),
        }
        let t = match self.stmt() {
            Ok(n) => n,
            Err(e) => return Err(e),
        };
        if self.lexer.consume("else") {
            return match self.stmt() {
                Ok(e) => Ok(Node::new_if(c, t, Some(e))),
                Err(e) => Err(e),
            };
        }
        Ok(Node::new_if(c, t, None))
    }

    /// `while`, already consumed: the condition and the body.
    #[verifier::spinoff_prover]
    #[verifier::rlimit(80)]
    fn while_stmt(&mut self) -> (r: Result<Node, ParseError>)
        requires
            old(self).wf(),
            old(self).pos() > 0,
        ensures
            final(self).wf(),
            final(self).toks() == old(self).toks(),
            outcome(sp_while(old(self).toks(), old(self).pos() - 1, old(self).vars()), r, *final(self)),
            r is Ok ==> old(self).pos() < final(self).pos(),
        decreases old(self).toks().len() - old(self).pos() + 1, 13int,
    {
        match self.lexer.expect('(') {
            Ok(()) => {},
            Err(e) => return Err(e),
        }
        let c = match self.expr() {
            Ok(n) => n,
            Err(e) => return Err(e),
        };
        match self.lexer.expect(')') {
            Ok(()) => {},
            Err(e) => return Err(e),
        }
        match self.stmt() {
            Ok(b) => Ok(Node::new_loop(None, Some(c), None, b)),
            Err(e) => Err(e),
        }
    }

    /// `for`, already consumed: three optional clauses and the body.
    #[verifier::spinoff_prover]
    #[verifier::rlimit(80)]
    fn for_stmt(&mut self) -> (r: Result<Node, ParseError>)
        requires
            old(self).wf(),
            old(self).pos() > 0,
        ensures
            final(self).wf(),
            final(self).toks() == old(self).toks(),
            outcome(sp_for(old(self).toks(), old(self).pos() - 1, old(self).vars()), r, *final(self)),
            r is Ok ==> old(self).pos() < final(self).pos(),
        decreases old(self).toks().len() - old(self).pos() + 1, 13int,
    {
        match self.lexer.expect('(') {
            Ok(()) => {},
            Err(e) => return Err(e),
        }
        let init = match self.opt_expr(';') {
            Ok(n) => n,
            Err(e) => return Err(e),
        };
        let cond = match self.opt_expr(';') {
            Ok(n) => n,
            Err(e) => return Err(e),
        };
        let inc = match self.opt_expr(')') {
            Ok(n) => n,
            Err(e) => return Err(e),
        };
        match self.stmt() {
            Ok(b) => Ok(Node::new_loop(init, cond, inc, b)),
            Err(e) => Err(e),
        }
    }

    /// `{`, already consumed: statements up to the closing `}`.
    #[verifier::spinoff_prover]
    #[verifier::rlimit(80)]
    fn block(&mut self) -> (r: Result<Node, ParseError>)
        requires
            old(self).wf(),
        ensures
            final(self).wf(),
            final(self).toks() == old(self).toks(),
            outcome(
                sp_block_rest(old(self).toks(), seq![], old(self).pos(), old(self).vars()),
                r,
                *final(self),
            ),
            r is Ok ==> old(self).pos() < final(self).pos(),
        decreases old(self).toks().len() - old(self).pos(), 15int,
    {
        let ghost ts = self.toks();
        let ghost p0 = self.pos();
        let ghost goal = sp_block_rest(ts, seq![], p0, self.vars());
        let mut stmts: Vec<Node> = Vec::new();
        assert(view_list(stmts@) =~= Seq::<Ast>::empty());
        loop
            invariant
                self.wf(),
                self.toks() == ts,
                p0 <= self.pos(),
                ts == old(self).toks(),
                p0 == old(self).pos(),
                goal == sp_block_rest(old(self).toks(), seq![], old(self).pos(), old(self).vars()),
                goal == sp_block_rest(ts, view_list(stmts@), self.pos(), self.vars()),
            decreases ts.len() - self.pos(),
        {
            if self.lexer.consume_punct('}') {
                return Ok(Node::new_block(stmts));
            }
            if self.lexer.at_eof() {
                return Err(ParseError::UnclosedBlock { at: self.lexer.position() });
            }
            let s = match self.stmt() {
                Ok(n) => n,
                Err(e) => return Err(e),
            };
            let ghost before = stmts@;
            stmts.push(s);
            assert(stmts@.drop_last() =~= before);
        }
    }

    /// One statement.
    #[verifier::spinoff_prover]
    #[verifier::rlimit(80)]
    fn stmt(&mut self) -> (r: Result<Node, ParseError>)
        requires
            old(self).wf(),
        ensures
            final(self).wf(),
            final(self).toks() == old(self).toks(),
            outcome(sp_stmt(old(self).toks(), old(self).pos(), old(self).vars()), r, *final(self)),
            r is Ok ==> old(self).pos() < final(self).pos(),
        decreases old(self).toks().len() - old(self).pos(), 14int,
    {
        if self.lexer.consume_punct(';') {
            return Ok(Node::new_block(Vec::new()));
        }
        if self.lexer.consume("return") {
            let e = match self.expr() {
                Ok(n) => n,
                Err(e) => return Err(e),
            };
            return match self.lexer.expect(';') {
                Ok(()) => Ok(Node::new_unary(NodeKind::NodeReturn, e)),
                Err(err) => Err(err),
            };
        }
        if self.lexer.consume("if") {
            return self.if_stmt();
        }
        if self.lexer.consume("while") {
            return self.while_stmt();
        }
        if self.lexer.consume("for") {
            return self.for_stmt();
        }
        if self.lexer.consume_punct('{') {
            return self.block();
        }
        let e = match self.expr() {
            Ok(n) => n,
            Err(e) => return Err(e),
        };
        match self.lexer.expect(';') {
            Ok(()) => Ok(e),
            Err(err) => Err(err),
        }
    }
}

} // verus!

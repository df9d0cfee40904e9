use vstd::prelude::*;

verus! {

/// The kind of a syntax tree node.
#[derive(Debug, Clone, Copy, PartialEq, Eq, Structural)]
pub enum NodeKind {
    NodeAdd,
    NodeSub,
    NodeMul,
    NodeDiv,
    NodeNum,
    NodeEQ,
    NodeNE,
    NodeLT,
    NodeLE,
    NodeAssign,
    NodeAddr,
    NodeDeref,
    NodeIf,
    NodeLoop,
    NodeReturn,
    NodeBlock,
    NodeLVar,
}

pub open spec fn is_binary(k: NodeKind) -> bool {
    k == NodeKind::NodeAdd || k == NodeKind::NodeSub || k == NodeKind::NodeMul || k
        == NodeKind::NodeDiv || k == NodeKind::NodeEQ || k == NodeKind::NodeNE || k
        == NodeKind::NodeLT || k == NodeKind::NodeLE || k == NodeKind::NodeAssign
}

pub open spec fn is_unary(k: NodeKind) -> bool {
    k == NodeKind::NodeAddr || k == NodeKind::NodeDeref || k == NodeKind::NodeReturn
}

/// A syntax tree node. Which fields are set depends on `kind`:
/// binary kinds use `lhs` and `rhs`; address-of, dereference and return use
/// `lhs`; a literal uses `val` (its digits); a variable uses `offset`; an
/// `if` uses `cond`, `then_branch` and `else_branch`; a loop uses `init`,
/// `cond`, `inc` and `body`; a block uses `stmts`.
#[derive(Debug)]
pub struct Node {
    pub kind: NodeKind,
    pub lhs: Option<Box<Node>>,
    pub rhs: Option<Box<Node>>,
    pub val: Option<String>,
    pub offset: usize,
    pub cond: Option<Box<Node>>,
    pub then_branch: Option<Box<Node>>,
    pub else_branch: Option<Box<Node>>,
    pub init: Option<Box<Node>>,
    pub inc: Option<Box<Node>>,
    pub body: Option<Box<Node>>,
    pub stmts: Vec<Node>,
}

/// The mathematical model of a syntax tree.
pub enum Ast {
    Num(Seq<char>),
    Var(int),
    Bin(NodeKind, Box<Ast>, Box<Ast>),
    Un(NodeKind, Box<Ast>),
    If(Box<Ast>, Box<Ast>, Option<Box<Ast>>),
    Loop(Option<Box<Ast>>, Option<Box<Ast>>, Option<Box<Ast>>, Box<Ast>),
    Block(Seq<Ast>),
    /// A node whose fields do not fit its kind.
    Malformed,
}

impl Node {
    pub open spec fn view(&self) -> Ast
        decreases self,
    {
        let k = self.kind;
        if k == NodeKind::NodeNum {
            match self.val {
                Some(v) => Ast::Num(v@),
                None => Ast::Malformed,
            }
        } else if k == NodeKind::NodeLVar {
            Ast::Var(self.offset as int)
        } else if is_binary(k) {
            match (self.lhs, self.rhs) {
                (Some(l), Some(r)) => Ast::Bin(k, Box::new((*l).view()), Box::new((*r).view())),
                _ => Ast::Malformed,
            }
        } else if is_unary(k) {
            match self.lhs {
                Some(l) => Ast::Un(k, Box::new((*l).view())),
                None => Ast::Malformed,
            }
        } else if k == NodeKind::NodeIf {
            match (self.cond, self.then_branch) {
                (Some(c), Some(t)) => Ast::If(
                    Box::new((*c).view()),
                    Box::new((*t).view()),
                    opt_view(self.else_branch),
                ),
                _ => Ast::Malformed,
            }
        } else if k == NodeKind::NodeLoop {
            match self.body {
                Some(b) => Ast::Loop(
                    opt_view(self.init),
                    opt_view(self.cond),
                    opt_view(self.inc),
                    Box::new((*b).view()),
                ),
                None => Ast::Malformed,
            }
        } else {
            Ast::Block(view_list(self.stmts@))
        }
    }
}

pub open spec fn opt_view(o: Option<Box<Node>>) -> Option<Box<Ast>>
    decreases o,
{
    match o {
        Some(n) => Some(Box::new((*n).view())),
        None => None,
    }
}

/// The models of a sequence of nodes.
pub open spec fn view_list(s: Seq<Node>) -> Seq<Ast>
    decreases s,
{
    if s.len() == 0 {
        seq![]
    } else {
        view_list(s.drop_last()).push(s.last().view())
    }
}

pub open spec fn opt_model(o: Option<Node>) -> Option<Box<Ast>> {
    match o {
        Some(n) => Some(Box::new(n@)),
        None => None,
    }
}

fn boxed(o: Option<Node>) -> (r: Option<Box<Node>>)
    ensures
        opt_view(r) == opt_model(o),
{
    match o {
        Some(n) => Some(Box::new(n)),
        None => None,
    }
}

impl Node {
    fn empty(kind: NodeKind) -> (r: Node)
        ensures
            r.kind == kind,
            r.lhs is None,
            r.rhs is None,
            r.val is None,
            r.offset == 0,
            r.cond is None,
            r.then_branch is None,
            r.else_branch is None,
            r.init is None,
            r.inc is None,
            r.body is None,
            r.stmts@.len() == 0,
    {
        Node {
            kind,
            lhs: None,
            rhs: None,
            val: None,
            offset: 0,
            cond: None,
            then_branch: None,
            else_branch: None,
            init: None,
            inc: None,
            body: None,
            stmts: Vec::new(),
        }
    }

    /// A node with two operands.
    pub fn new_node(kind: NodeKind, lhs: Node, rhs: Node) -> (r: Node)
        requires
            is_binary(kind),
        ensures
            r@ == Ast::Bin(kind, Box::new(lhs@), Box::new(rhs@)),
    {
        let mut n = Node::empty(kind);
        n.lhs = Some(Box::new(lhs));
        n.rhs = Some(Box::new(rhs));
        n
    }

    /// A node with one operand: address-of, dereference or return.
    pub fn new_unary(kind: NodeKind, operand: Node) -> (r: Node)
        requires
            is_unary(kind),
        ensures
            r@ == Ast::Un(kind, Box::new(operand@)),
    {
        let mut n = Node::empty(kind);
        n.lhs = Some(Box::new(operand));
        n
    }

    /// An integer literal with the given digits.
    pub fn new_node_num(val: String) -> (r: Node)
        ensures
            r@ == Ast::Num(val@),
    {
        let mut n = Node::empty(NodeKind::NodeNum);
        n.val = Some(val);
        n
    }

    /// A reference to the local variable stored at `offset`.
    pub fn new_lvar(offset: usize) -> (r: Node)
        ensures
            r@ == Ast::Var(offset as int),
    {
        let mut n = Node::empty(NodeKind::NodeLVar);
        n.offset = offset;
        n
    }

    /// A conditional statement.
    pub fn new_if(cond: Node, then_branch: Node, else_branch: Option<Node>) -> (r: Node)
        ensures
            r@ == Ast::If(Box::new(cond@), Box::new(then_branch@), opt_model(else_branch)),
    {
        let mut n = Node::empty(NodeKind::NodeIf);
        n.cond = Some(Box::new(cond));
        n.then_branch = Some(Box::new(then_branch));
        n.else_branch = boxed(else_branch);
        n
    }

    /// A loop, from a `for` or a `while` statement.
    pub fn new_loop(init: Option<Node>, cond: Option<Node>, inc: Option<Node>, body: Node) -> (r:
        Node)
        ensures
            r@ == Ast::Loop(opt_model(init), opt_model(cond), opt_model(inc), Box::new(body@)),
    {
        let mut n = Node::empty(NodeKind::NodeLoop);
        n.init = boxed(init);
        n.cond = boxed(cond);
        n.inc = boxed(inc);
        n.body = Some(Box::new(body));
        n
    }

    /// A block holding the given statements.
    pub fn new_block(stmts: Vec<Node>) -> (r: Node)
        ensures
            r@ == Ast::Block(view_list(stmts@)),
    {
        let mut n = Node::empty(NodeKind::NodeBlock);
        n.stmts = stmts;
        n
    }
}

} // verus!

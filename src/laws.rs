//! Properties of reading and expansion that hold for every input.
use vstd::prelude::*;

use crate::code::{assemble, children, codes, gen, gen_form, gen_list, join, paren, reference, Failure};
use crate::entry::lisp_code;
use crate::expr::{LispExpr, Sexp};
use crate::parse::{parse_at, parse_whole};
use crate::table::{fixed_arity, op_of, shape_error, Op};
use crate::token::TokenTree;

verus! {

/// The text that a list head names its operation by.
pub open spec fn head_text(e: Sexp) -> Seq<char> {
    match e {
        Sexp::Symbol(n) => n,
        Sexp::Operator(o) => o,
        _ => Seq::empty(),
    }
}

/// Reading depends on the tokens alone: the same token sequence always
/// reads to the same expression tree, or fails at the same place in the
/// same way.
pub proof fn reading_is_deterministic(a: Seq<TokenTree>, b: Seq<TokenTree>, pos: nat)
    requires
        a == b,
    ensures
        parse_at(a, pos) == parse_at(b, pos),
        parse_whole(a) == parse_whole(b),
        lisp_code(a) == lisp_code(b),
{
}

/// Expansion depends on the expression tree alone: two structurally equal
/// trees expand to the same text, or fail in the same way.
pub proof fn expansion_is_deterministic(a: LispExpr, b: LispExpr)
    requires
        a@ == b@,
    ensures
        gen(a@) == gen(b@),
{
}

proof fn lemma_op_names()
    ensures
        op_of("+"@) == Op::Add,
        op_of("*"@) == Op::Mul,
        op_of("do"@) == Op::Do,
        op_of("while"@) == Op::While,
{
    reveal_strlit("+");
    assert("+"@ =~= seq!['+']);
    assert("+"@[0] == '+');
    reveal_strlit("-");
    assert("-"@ =~= seq!['-']);
    assert("-"@[0] == '-');
    reveal_strlit("*");
    assert("*"@ =~= seq!['*']);
    assert("*"@[0] == '*');
    reveal_strlit("/");
    assert("/"@ =~= seq!['/']);
    assert("/"@[0] == '/');
    reveal_strlit("=");
    assert("="@ =~= seq!['=']);
    assert("="@[0] == '=');
    reveal_strlit("eq");
    assert("eq"@ =~= seq!['e', 'q']);
    assert("eq"@[0] == 'e');
    assert("eq"@[1] == 'q');
    reveal_strlit("<");
    assert("<"@ =~= seq!['<']);
    assert("<"@[0] == '<');
    reveal_strlit(">");
    assert(">"@ =~= seq!['>']);
    assert(">"@[0] == '>');
    reveal_strlit("gte");
    assert("gte"@ =~= seq!['g', 't', 'e']);
    assert("gte"@[0] == 'g');
    assert("gte"@[1] == 't');
    assert("gte"@[2] == 'e');
    reveal_strlit("lte");
    assert("lte"@ =~= seq!['l', 't', 'e']);
    assert("lte"@[0] == 'l');
    assert("lte"@[1] == 't');
    assert("lte"@[2] == 'e');
    reveal_strlit("ne");
    assert("ne"@ =~= seq!['n', 'e']);
    assert("ne"@[0] == 'n');
    assert("ne"@[1] == 'e');
    reveal_strlit("%");
    assert("%"@ =~= seq!['%']);
    assert("%"@[0] == '%');
    reveal_strlit("modulo");
    assert("modulo"@ =~= seq!['m', 'o', 'd', 'u', 'l', 'o']);
    assert("modulo"@[0] == 'm');
    assert("modulo"@[1] == 'o');
    assert("modulo"@[2] == 'd');
    assert("modulo"@[3] == 'u');
    assert("modulo"@[4] == 'l');
    assert("modulo"@[5] == 'o');
    reveal_strlit("and");
    assert("and"@ =~= seq!['a', 'n', 'd']);
    assert("and"@[0] == 'a');
    assert("and"@[1] == 'n');
    assert("and"@[2] == 'd');
    reveal_strlit("or");
    assert("or"@ =~= seq!['o', 'r']);
    assert("or"@[0] == 'o');
    assert("or"@[1] == 'r');
    reveal_strlit("not");
    assert("not"@ =~= seq!['n', 'o', 't']);
    assert("not"@[0] == 'n');
    assert("not"@[1] == 'o');
    assert("not"@[2] == 't');
    reveal_strlit("if");
    assert("if"@ =~= seq!['i', 'f']);
    assert("if"@[0] == 'i');
    assert("if"@[1] == 'f');
    reveal_strlit("let");
    assert("let"@ =~= seq!['l', 'e', 't']);
    assert("let"@[0] == 'l');
    assert("let"@[1] == 'e');
    assert("let"@[2] == 't');
    reveal_strlit("defn");
    assert("defn"@ =~= seq!['d', 'e', 'f', 'n']);
    assert("defn"@[0] == 'd');
    assert("defn"@[1] == 'e');
    assert("defn"@[2] == 'f');
    assert("defn"@[3] == 'n');
    reveal_strlit("call");
    assert("call"@ =~= seq!['c', 'a', 'l', 'l']);
    assert("call"@[0] == 'c');
    assert("call"@[1] == 'a');
    assert("call"@[2] == 'l');
    assert("call"@[3] == 'l');
    reveal_strlit("do");
    assert("do"@ =~= seq!['d', 'o']);
    assert("do"@[0] == 'd');
    assert("do"@[1] == 'o');
    reveal_strlit("while");
    assert("while"@ =~= seq!['w', 'h', 'i', 'l', 'e']);
    assert("while"@[0] == 'w');
    assert("while"@[1] == 'h');
    assert("while"@[2] == 'i');
    assert("while"@[3] == 'l');
    assert("while"@[4] == 'e');
}

proof fn lemma_one_arg(head: Sexp, x: Sexp)
    ensures
        seq![head, x].subrange(1, 2) == seq![x],
        codes(seq![x]) == match gen(x) {
            Ok(c) => Ok::<Seq<Seq<char>>, Failure>(seq![c]),
            Err(e) => Err::<Seq<Seq<char>>, Failure>(e),
        },
{
    assert(seq![head, x].subrange(1, 2) =~= seq![x]);
    assert(seq![x].subrange(0, 0) =~= Seq::<Sexp>::empty());
    assert(codes(Seq::<Sexp>::empty()) == Ok::<Seq<Seq<char>>, Failure>(seq![]));
    assert(seq![x][0] == x);
    match gen(x) {
        Ok(c) => assert(Seq::<Seq<char>>::empty().push(c) =~= seq![c]),
        Err(_) => {},
    }
}

/// `(+)` expands to the additive identity `0` and `(*)` to the
/// multiplicative identity `1`; `(+ x)` and `(* x)` expand to exactly what
/// `x` expands to.
pub proof fn identity_laws(x: Sexp)
    ensures
        gen(Sexp::List(seq![Sexp::Operator("+"@)])) == Ok::<Seq<char>, Failure>("0"@),
        gen(Sexp::List(seq![Sexp::Operator("*"@)])) == Ok::<Seq<char>, Failure>("1"@),
        gen(Sexp::List(seq![Sexp::Operator("+"@), x])) == gen(x),
        gen(Sexp::List(seq![Sexp::Operator("*"@), x])) == gen(x),
{
    lemma_op_names();
    let plus = Sexp::Operator("+"@);
    let times = Sexp::Operator("*"@);
    assert(seq![plus].subrange(1, 1) =~= Seq::<Sexp>::empty());
    assert(seq![times].subrange(1, 1) =~= Seq::<Sexp>::empty());
    lemma_one_arg(plus, x);
    lemma_one_arg(times, x);
    let bare_plus = seq![plus];
    let bare_times = seq![times];
    assert(gen(Sexp::List(bare_plus)) == gen_list(bare_plus));
    assert(gen_list(bare_plus) == gen_form(Op::Add, "+"@, reference(plus), bare_plus));
    assert(children(Op::Add, bare_plus) == Ok::<Seq<Seq<char>>, Failure>(seq![]));
    assert(gen(Sexp::List(bare_times)) == gen_list(bare_times));
    assert(gen_list(bare_times) == gen_form(Op::Mul, "*"@, reference(times), bare_times));
    assert(children(Op::Mul, bare_times) == Ok::<Seq<Seq<char>>, Failure>(seq![]));
    let plus_x = seq![plus, x];
    let times_x = seq![times, x];
    assert(gen(Sexp::List(plus_x)) == gen_list(plus_x));
    assert(gen_list(plus_x) == gen_form(Op::Add, "+"@, reference(plus), plus_x));
    assert(children(Op::Add, plus_x) == codes(seq![x]));
    assert(gen(Sexp::List(times_x)) == gen_list(times_x));
    assert(gen_list(times_x) == gen_form(Op::Mul, "*"@, reference(times), times_x));
    assert(children(Op::Mul, times_x) == codes(seq![x]));
}

/// Every operation of fixed arity `k` refuses `k - 1` and `k + 1`
/// arguments: the form fails to expand, whatever the arguments are.
pub proof fn arity_laws(head: Sexp, args: Seq<Sexp>, k: nat)
    requires
        head is Symbol || head is Operator,
        fixed_arity(op_of(head_text(head))) == Some(k),
        args.len() + 1 == k || args.len() == k + 1,
    ensures
        gen(Sexp::List(seq![head] + args)) is Err,
{
    let xs = seq![head] + args;
    assert(xs.subrange(1, xs.len() as int) =~= args);
    assert(xs[0] == head);
    let op = op_of(head_text(head));
    assert(shape_error(op, args) is Some);
    assert(gen(Sexp::List(xs)) == gen_list(xs));
    assert(gen_list(xs) == gen_form(op, head_text(head), reference(head), xs));
}

/// A `do` form expands to the `do` text of its arguments' codes, or fails
/// as the first of them fails.
#[verifier::spinoff_prover]
#[verifier::rlimit(30)]
proof fn lemma_do_expands(args: Seq<Sexp>)
    ensures
        gen(Sexp::List(seq![Sexp::Symbol("do"@)] + args)) == match codes(args) {
            Ok(cs) => Ok::<Seq<char>, Failure>(assemble(Op::Do, "do"@, args, cs)),
            Err(e) => Err::<Seq<char>, Failure>(e),
        },
{
    lemma_op_names();
    let head = Sexp::Symbol("do"@);
    let xs = seq![head] + args;
    assert(xs.subrange(1, xs.len() as int) =~= args);
    assert(xs[0] == head);
    assert(reference(head) == "do"@);
    assert(gen(Sexp::List(xs)) == gen_list(xs));
    assert(gen_list(xs) == gen_form(Op::Do, "do"@, "do"@, xs));
    assert(shape_error(Op::Do, args) is None);
    if xs.len() >= 2 {
        assert(children(Op::Do, xs) == codes(args));
    } else {
        assert(args =~= Seq::<Sexp>::empty());
        assert(codes(args) == Ok::<Seq<Seq<char>>, Failure>(seq![]));
        assert(children(Op::Do, xs) == codes(args));
    }
}

/// A `do` block's value is its last child's: the children's codes become
/// the block's statements in order, the last one the block's tail
/// expression with no `;` after it. With no children the block is `{ }`,
/// whose value is unit.
#[verifier::spinoff_prover]
#[verifier::rlimit(30)]
pub proof fn do_block_law(args: Seq<Sexp>, cs: Seq<Seq<char>>)
    requires
        codes(args) == Ok::<Seq<Seq<char>>, Failure>(cs),
    ensures
        gen(Sexp::List(seq![Sexp::Symbol("do"@)] + args)) == Ok::<Seq<char>, Failure>(
            if args.len() == 0 {
                "{ }"@
            } else if args.len() == 1 {
                "{ "@ + cs[0] + " }"@
            } else {
                "{ "@ + join(cs.drop_last(), "; "@) + "; "@ + cs.last() + " }"@
            },
        ),
{
    lemma_do_expands(args);
    crate::expand::lemma_codes_len(args);
    let text = assemble(Op::Do, "do"@, args, cs);
    if args.len() == 0 {
        assert(text == "{ }"@);
    } else if args.len() == 1 {
        assert(join(cs, "; "@) == cs[0]);
        assert(text == "{ "@ + cs[0] + " }"@);
    } else {
        assert(join(cs, "; "@) == join(cs.drop_last(), "; "@) + "; "@ + cs.last());
        assert(text == "{ "@ + join(cs.drop_last(), "; "@) + "; "@ + cs.last() + " }"@);
    }
}

/// A `while` loop's value is that of the body's most recent run: the
/// result starts as unit and takes the body's value on each pass.
pub proof fn while_loop_law(cond: Sexp, body: Sexp, c: Seq<char>, b: Seq<char>)
    requires
        gen(cond) == Ok::<Seq<char>, Failure>(c),
        gen(body) == Ok::<Seq<char>, Failure>(b),
    ensures
        gen(Sexp::List(seq![Sexp::Symbol("while"@), cond, body])) == Ok::<Seq<char>, Failure>(
            "{ let mut result = (); while "@ + paren(c) + " { result = "@ + b + "; } result }"@,
        ),
{
    lemma_op_names();
    let head = Sexp::Symbol("while"@);
    let xs = seq![head, cond, body];
    let args = xs.subrange(1, 3);
    assert(args =~= seq![cond, body]);
    assert(args.subrange(0, 1) =~= seq![cond]);
    assert(seq![cond].subrange(0, 0) =~= Seq::<Sexp>::empty());
    assert(codes(Seq::<Sexp>::empty()) == Ok::<Seq<Seq<char>>, Failure>(seq![]));
    assert(codes(seq![cond]) == Ok::<Seq<Seq<char>>, Failure>(seq![c])) by {
        assert(Seq::<Seq<char>>::empty().push(c) =~= seq![c]);
    }
    assert(codes(args) == Ok::<Seq<Seq<char>>, Failure>(seq![c, b])) by {
        assert(seq![c].push(b) =~= seq![c, b]);
    }
    assert(gen(Sexp::List(xs)) == gen_list(xs));
    assert(gen_list(xs) == gen_form(Op::While, "while"@, reference(head), xs));
    assert(children(Op::While, xs) == codes(args));
}

} // verus!

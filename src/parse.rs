//! Reading expressions from token trees.
use vstd::prelude::*;
use vstd::string::*;

use crate::expand::lemma_models;
use crate::expr::{models, LispExpr, Sexp};
use crate::text::text_is;
use crate::token::{Delimiter, Spacing, TokenTree};

verus! {

/// What went wrong at the offending token.
#[derive(Debug, Clone, Copy, PartialEq, Eq, Structural)]
pub enum SyntaxErrorKind {
    /// The input ended where an expression should start.
    UnexpectedEnd,
    /// A token that starts no expression.
    UnexpectedToken,
    /// Tokens left over after a complete expression.
    TrailingTokens,
}

/// A token sequence that is not an expression. The location leads from the
/// outermost sequence to the offending token: an index into the sequence,
/// then an index into that group's tokens, and so on.
#[derive(Debug)]
pub struct SyntaxError {
    pub location: Vec<usize>,
    pub kind: SyntaxErrorKind,
}

pub type SyntaxFailure = (Seq<usize>, SyntaxErrorKind);

impl View for SyntaxError {
    type V = SyntaxFailure;

    open spec fn view(&self) -> SyntaxFailure {
        (self.location@, self.kind)
    }
}

/// The punctuation characters that stand alone as operators.
pub open spec fn is_operator_char(c: char) -> bool {
    c == '+' || c == '-' || c == '*' || c == '/' || c == '=' || c == '<' || c == '>' || c == '%'
}

/// The host language's reserved words that no symbol may be spelled as.
/// `if`, `let`, `do`, `while` and `try` are read as symbols and `true` and
/// `false` as literals, so they are not among them. One word is spelled by
/// its letters.
pub open spec fn reserved_word(s: Seq<char>) -> bool {
    s == "_"@ || s == "abstract"@ || s == "as"@ || s == "async"@ || s == "await"@
        || s == "become"@ || s == "box"@ || s == "break"@ || s == "const"@ || s == "continue"@
        || s == "crate"@ || s == "dyn"@ || s == "else"@ || s == "enum"@
        || s == seq!['e', 'x', 't', 'e', 'r', 'n'] || s == "final"@ || s == "fn"@ || s == "for"@
        || s == "impl"@ || s == "in"@ || s == "loop"@ || s == "macro"@ || s == "match"@
        || s == "mod"@ || s == "move"@ || s == "mut"@ || s == "override"@ || s == "priv"@
        || s == "pub"@ || s == "ref"@ || s == "return"@ || s == "Self"@ || s == "self"@
        || s == "static"@ || s == "struct"@ || s == "super"@ || s == "trait"@ || s == "type"@
        || s == "typeof"@ || s == "unsafe"@ || s == "unsized"@ || s == "use"@ || s == "virtual"@
        || s == "where"@ || s == "yield"@
}

/// An identifier that the host reserves: a reserved word, one of the five
/// keywords read as symbols, or a boolean literal.
pub open spec fn host_keyword(s: Seq<char>) -> bool {
    reserved_word(s) || s == "if"@ || s == "let"@ || s == "do"@ || s == "while"@ || s == "try"@
        || s == "true"@ || s == "false"@
}

/// Whether `s` holds exactly the characters of `w`.
fn spelled(s: &str, w: &[char]) -> (r: bool)
    ensures
        r == (s@ == w@),
{
    let n = s.unicode_len();
    if n != w.len() {
        return false;
    }
    let mut i: usize = 0;
    while i < n
        invariant
            n == s@.len(),
            n == w@.len(),
            i <= n,
            forall|j: int| 0 <= j < i ==> s@[j] == w@[j],
        decreases n - i,
    {
        if s.get_char(i) != w[i] {
            return false;
        }
        i = i + 1;
    }
    assert(s@ =~= w@);
    true
}

/// Whether `s` is one of the host's reserved words.
pub fn is_reserved_word(s: &str) -> (r: bool)
    ensures
        r == reserved_word(s@),
{
    proof {
        assert(['e', 'x', 't', 'e', 'r', 'n']@ =~= seq!['e', 'x', 't', 'e', 'r', 'n']);
    }
    text_is(s, "_") || text_is(s, "abstract") || text_is(s, "as") || text_is(s, "async")
        || text_is(s, "await") || text_is(s, "become") || text_is(s, "box")
        || text_is(s, "break") || text_is(s, "const") || text_is(s, "continue")
        || text_is(s, "crate") || text_is(s, "dyn") || text_is(s, "else") || text_is(s, "enum")
        || spelled(s, &['e', 'x', 't', 'e', 'r', 'n']) || text_is(s, "final")
        || text_is(s, "fn") || text_is(s, "for") || text_is(s, "impl") || text_is(s, "in")
        || text_is(s, "loop") || text_is(s, "macro") || text_is(s, "match") || text_is(s, "mod")
        || text_is(s, "move") || text_is(s, "mut") || text_is(s, "override")
        || text_is(s, "priv") || text_is(s, "pub") || text_is(s, "ref") || text_is(s, "return")
        || text_is(s, "Self") || text_is(s, "self") || text_is(s, "static")
        || text_is(s, "struct") || text_is(s, "super") || text_is(s, "trait")
        || text_is(s, "type") || text_is(s, "typeof") || text_is(s, "unsafe")
        || text_is(s, "unsized") || text_is(s, "use") || text_is(s, "virtual")
        || text_is(s, "where") || text_is(s, "yield")
}

/// Whether `s` is an identifier that the host reserves.
pub fn is_host_keyword(s: &str) -> (r: bool)
    ensures
        r == host_keyword(s@),
{
    is_reserved_word(s) || text_is(s, "if") || text_is(s, "let") || text_is(s, "do") || text_is(s, "while")
        || text_is(s, "try") || text_is(s, "true") || text_is(s, "false")
}

/// The failure `f` seen from the enclosing sequence, where the offending
/// tree stood at index `i`.
pub open spec fn within(i: int, f: SyntaxFailure) -> SyntaxFailure {
    (seq![i as usize] + f.0, f.1)
}

/// The expression that one token tree spells.
pub open spec fn read_tree(t: TokenTree) -> Result<Sexp, SyntaxFailure>
    decreases t, 1nat,
{
    match t {
        TokenTree::Group(d, v) => match d {
            Delimiter::Brace => Err((seq![], SyntaxErrorKind::UnexpectedToken)),
            _ => match read_trees(v@) {
                Ok(xs) => Ok(
                    if d == Delimiter::Parenthesis {
                        Sexp::List(xs)
                    } else {
                        Sexp::Vector(xs)
                    },
                ),
                Err(f) => Err(f),
            },
        },
        TokenTree::Ident(s) => if s@ == "true"@ || s@ == "false"@ {
            Ok(Sexp::Literal(s@))
        } else if reserved_word(s@) {
            Err((seq![], SyntaxErrorKind::UnexpectedToken))
        } else {
            Ok(Sexp::Symbol(s@))
        },
        TokenTree::Punct(c, sp) => if is_operator_char(c) && sp == Spacing::Alone {
            Ok(Sexp::Operator(seq![c]))
        } else {
            Err((seq![], SyntaxErrorKind::UnexpectedToken))
        },
        TokenTree::Literal(s) => Ok(Sexp::Literal(s@)),
    }
}

/// The expressions that a sequence of token trees spells, one per tree, or
/// the first failure from the left.
pub open spec fn read_trees(s: Seq<TokenTree>) -> Result<Seq<Sexp>, SyntaxFailure>
    decreases s, 0nat,
{
    if s.len() == 0 {
        Ok(seq![])
    } else {
        match read_trees(s.subrange(0, s.len() - 1)) {
            Ok(xs) => match read_tree(s[s.len() - 1]) {
                Ok(x) => Ok(xs.push(x)),
                Err(f) => Err(within(s.len() - 1, f)),
            },
            Err(f) => Err(f),
        }
    }
}

pub open spec fn tree_matches(r: Result<LispExpr, SyntaxError>, s: Result<Sexp, SyntaxFailure>) -> bool {
    match r {
        Ok(e) => s == Ok::<Sexp, SyntaxFailure>(e@),
        Err(e) => s == Err::<Sexp, SyntaxFailure>(e@),
    }
}

pub open spec fn trees_match(r: Result<Vec<LispExpr>, SyntaxError>, s: Result<Seq<Sexp>, SyntaxFailure>) -> bool {
    match r {
        Ok(es) => s == Ok::<Seq<Sexp>, SyntaxFailure>(models(es@)),
        Err(e) => s == Err::<Seq<Sexp>, SyntaxFailure>(e@),
    }
}

pub proof fn lemma_read_trees_err_prefix(s: Seq<TokenTree>, k: int)
    requires
        0 <= k <= s.len(),
        read_trees(s.subrange(0, k)) is Err,
    ensures
        read_trees(s) == read_trees(s.subrange(0, k)),
    decreases s.len() - k,
{
    if k < s.len() {
        let t = s.subrange(0, k + 1);
        assert(t.subrange(0, t.len() - 1) =~= s.subrange(0, k));
        lemma_read_trees_err_prefix(s, k + 1);
    } else {
        assert(s.subrange(0, k) =~= s);
    }
}

fn copy_text(s: &String) -> (r: String)
    ensures
        r@ == s@,
{
    let mut r = String::new();
    r.append(s.as_str());
    assert(r@ =~= s@);
    r
}

fn unexpected_token() -> (r: SyntaxError)
    ensures
        r@ == (Seq::<usize>::empty(), SyntaxErrorKind::UnexpectedToken),
{
    let location: Vec<usize> = Vec::new();
    assert(location@ =~= Seq::<usize>::empty());
    SyntaxError { location, kind: SyntaxErrorKind::UnexpectedToken }
}

/// The one-character text of an operator.
fn operator_text(c: char) -> (r: String)
    requires
        is_operator_char(c),
    ensures
        r@ == seq![c],
{
    let mut r = String::new();
    match c {
        '+' => {
            r.append("+");
            proof { reveal_strlit("+"); }
        },
        '-' => {
            r.append("-");
            proof { reveal_strlit("-"); }
        },
        '*' => {
            r.append("*");
            proof { reveal_strlit("*"); }
        },
        '/' => {
            r.append("/");
            proof { reveal_strlit("/"); }
        },
        '=' => {
            r.append("=");
            proof { reveal_strlit("="); }
        },
        '<' => {
            r.append("<");
            proof { reveal_strlit("<"); }
        },
        '>' => {
            r.append(">");
            proof { reveal_strlit(">"); }
        },
        _ => {
            r.append("%");
            proof { reveal_strlit("%"); }
        },
    }
    assert(r@ =~= seq![c]);
    r
}

/// Reads the expression that one token tree spells.
pub(crate) fn read_one(t: &TokenTree) -> (r: Result<LispExpr, SyntaxError>)
    ensures
        tree_matches(r, read_tree(*t)),
    decreases t, 1nat,
{
    match t {
        TokenTree::Group(d, v) => match d {
            Delimiter::Brace => Err(unexpected_token()),
            _ => match read_all(v) {
                Ok(xs) => {
                    proof {
                        lemma_models(xs@);
                    }
                    match d {
                        Delimiter::Parenthesis => Ok(LispExpr::List(xs)),
                        _ => Ok(LispExpr::Vector(xs)),
                    }
                },
                Err(e) => Err(e),
            },
        },
        TokenTree::Ident(s) => {
            if text_is(s.as_str(), "true") || text_is(s.as_str(), "false") {
                Ok(LispExpr::Literal(copy_text(s)))
            } else if is_reserved_word(s.as_str()) {
                Err(unexpected_token())
            } else {
                Ok(LispExpr::Symbol(copy_text(s)))
            }
        },
        TokenTree::Punct(c, sp) => {
            let c = *c;
            let alone = match sp {
                Spacing::Alone => true,
                Spacing::Joint => false,
            };
            if alone && (c == '+' || c == '-' || c == '*' || c == '/' || c == '=' || c == '<' || c == '>'
                || c == '%') {
                Ok(LispExpr::Operator(operator_text(c)))
            } else {
                Err(unexpected_token())
            }
        },
        TokenTree::Literal(s) => Ok(LispExpr::Literal(copy_text(s))),
    }
}

/// Reads one expression from each tree of `v`, in order.
fn read_all(v: &Vec<TokenTree>) -> (r: Result<Vec<LispExpr>, SyntaxError>)
    ensures
        trees_match(r, read_trees(v@)),
    decreases v, 0nat,
{
    let mut out: Vec<LispExpr> = Vec::new();
    proof {
        lemma_models(out@);
        assert(models(out@) =~= seq![]);
        assert(v@.subrange(0, 0) =~= seq![]);
    }
    let mut i: usize = 0;
    while i < v.len()
        invariant
            i <= v.len(),
            read_trees(v@.subrange(0, i as int)) == Ok::<Seq<Sexp>, SyntaxFailure>(models(out@)),
        decreases v.len() - i,
    {
        let ghost s = v@.subrange(0, i + 1 as int);
        assert(s.subrange(0, s.len() - 1) =~= v@.subrange(0, i as int));
        assert(s[s.len() - 1] == v@[i as int]);
        match read_one(&v[i]) {
            Ok(x) => {
                let ghost before = out@;
                let ghost xm = x@;
                out.push(x);
                proof {
                    lemma_models(before);
                    lemma_models(out@);
                    assert(models(out@) =~= models(before).push(xm));
                }
            },
            Err(e) => {
                let mut e = e;
                let ghost inner = e.location@;
                e.location.insert(0, i);
                proof {
                    assert(e.location@ =~= seq![i] + inner);
                    lemma_read_trees_err_prefix(v@, i + 1);
                }
                return Err(e);
            },
        }
        i = i + 1;
    }
    assert(v@.subrange(0, v.len() as int) =~= v@);
    Ok(out)
}


/// One expression read at `pos`, with the position just after it.
pub open spec fn parse_at(s: Seq<TokenTree>, pos: nat) -> Result<(Sexp, nat), SyntaxFailure> {
    if pos >= s.len() {
        Err((seq![pos as usize], SyntaxErrorKind::UnexpectedEnd))
    } else {
        match read_tree(s[pos as int]) {
            Ok(x) => Ok((x, pos + 1)),
            Err(f) => Err(within(pos as int, f)),
        }
    }
}

/// The expression that the whole sequence spells, with nothing left over.
pub open spec fn parse_whole(s: Seq<TokenTree>) -> Result<Sexp, SyntaxFailure> {
    match parse_at(s, 0) {
        Ok((x, next)) => if next < s.len() {
            Err((seq![next as usize], SyntaxErrorKind::TrailingTokens))
        } else {
            Ok(x)
        },
        Err(f) => Err(f),
    }
}

fn failure_at(i: usize, kind: SyntaxErrorKind) -> (r: SyntaxError)
    ensures
        r@ == (seq![i], kind),
{
    let mut location: Vec<usize> = Vec::new();
    location.push(i);
    assert(location@ =~= seq![i]);
    SyntaxError { location, kind }
}

impl LispExpr {
    /// Reads one expression starting at `pos` of `input`; on success also
    /// gives the position just after it.
    pub fn parse(input: &Vec<TokenTree>, pos: usize) -> (r: Result<(LispExpr, usize), SyntaxError>)
        ensures
            match r {
                Ok((e, next)) => parse_at(input@, pos as nat) == Ok::<(Sexp, nat), SyntaxFailure>(
                    (e@, next as nat),
                ),
                Err(e) => parse_at(input@, pos as nat) == Err::<(Sexp, nat), SyntaxFailure>(e@),
            },
    {
        if pos >= input.len() {
            return Err(failure_at(pos, SyntaxErrorKind::UnexpectedEnd));
        }
        match read_one(&input[pos]) {
            Ok(e) => Ok((e, pos + 1)),
            Err(e) => {
                let mut e = e;
                let ghost inner = e.location@;
                e.location.insert(0, pos);
                assert(e.location@ =~= seq![pos] + inner);
                Err(e)
            },
        }
    }
}

/// Reads the single expression that makes up the whole of `input`.
pub fn parse_expr(input: &Vec<TokenTree>) -> (r: Result<LispExpr, SyntaxError>)
    ensures
        tree_matches(r, parse_whole(input@)),
{
    match LispExpr::parse(input, 0) {
        Ok((e, next)) => if next < input.len() {
            Err(failure_at(next, SyntaxErrorKind::TrailingTokens))
        } else {
            Ok(e)
        },
        Err(e) => Err(e),
    }
}

} // verus!

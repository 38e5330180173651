//! Expansion of expressions into Rust source text.
use vstd::prelude::*;
use vstd::string::*;

use crate::code::{
    children, codes, gen, gen_form, gen_list, join, names, op_tag, paren, value_codes, Failure,
};
use crate::assemble::{assemble_text, paren_text};
use crate::expr::{model, models, LispExpr, Sexp};
use crate::table::{all_symbols, binding_pairs, fixed_arity, op_of, shape_error, Op, Shape};
use crate::text::{join_text, text_is, views};

verus! {

/// A form whose arguments lack the shape that its operation demands.
#[derive(Debug)]
pub struct ExpansionError {
    /// The operation's name as written at the head of the list.
    pub operation: String,
    /// What the operation demands of its arguments.
    pub required: Shape,
}

impl View for ExpansionError {
    type V = Failure;

    open spec fn view(&self) -> Failure {
        (self.operation@, self.required)
    }
}

/// `r` is what the spec result `s` describes.
pub open spec fn expansion_matches(r: Result<String, ExpansionError>, s: Result<Seq<char>, Failure>) -> bool {
    match r {
        Ok(c) => s == Ok::<Seq<char>, Failure>(c@),
        Err(e) => s == Err::<Seq<char>, Failure>(e@),
    }
}

pub open spec fn codes_match(r: Result<Vec<String>, ExpansionError>, s: Result<Seq<Seq<char>>, Failure>) -> bool {
    match r {
        Ok(cs) => s == Ok::<Seq<Seq<char>>, Failure>(views(cs@)),
        Err(e) => s == Err::<Seq<Seq<char>>, Failure>(e@),
    }
}

pub proof fn lemma_models(s: Seq<LispExpr>)
    ensures
        models(s).len() == s.len(),
        forall|i: int| 0 <= i < s.len() ==> #[trigger] models(s)[i] == model(s[i]),
    decreases s.len(),
{
    if s.len() > 0 {
        lemma_models(s.subrange(0, s.len() - 1));
    }
}

pub proof fn lemma_codes_len(s: Seq<Sexp>)
    ensures
        codes(s) matches Ok(cs) ==> cs.len() == s.len(),
    decreases s.len(),
{
    if s.len() > 0 {
        lemma_codes_len(s.subrange(0, s.len() - 1));
    }
}

pub proof fn lemma_value_codes_len(bs: Seq<Sexp>)
    ensures
        value_codes(bs) matches Ok(vs) ==> vs.len() == bs.len() / 2,
    decreases bs.len(),
{
    if bs.len() >= 2 {
        lemma_value_codes_len(bs.subrange(0, bs.len() - 2));
    }
}

pub proof fn lemma_codes_err_prefix(s: Seq<Sexp>, k: int)
    requires
        0 <= k <= s.len(),
        codes(s.subrange(0, k)) is Err,
    ensures
        codes(s) == codes(s.subrange(0, k)),
    decreases s.len() - k,
{
    if k < s.len() {
        let t = s.subrange(0, k + 1);
        assert(t.subrange(0, t.len() - 1) =~= s.subrange(0, k));
        lemma_codes_err_prefix(s, k + 1);
    } else {
        assert(s.subrange(0, k) =~= s);
    }
}

pub proof fn lemma_value_codes_err_prefix(s: Seq<Sexp>, k: int)
    requires
        0 <= k <= s.len(),
        k % 2 == 0,
        s.len() % 2 == 0,
        value_codes(s.subrange(0, k)) is Err,
    ensures
        value_codes(s) == value_codes(s.subrange(0, k)),
    decreases s.len() - k,
{
    if k < s.len() {
        let t = s.subrange(0, k + 2);
        assert(t.subrange(0, t.len() - 2) =~= s.subrange(0, k));
        lemma_value_codes_err_prefix(s, k + 2);
    } else {
        assert(s.subrange(0, k) =~= s);
    }
}

/// The operation that a head's text names.
pub fn op_named(name: &str) -> (r: Op)
    ensures
        r == op_of(name@),
{
    if text_is(name, "+") { Op::Add }
    else if text_is(name, "-") { Op::Sub }
    else if text_is(name, "*") { Op::Mul }
    else if text_is(name, "/") { Op::Div }
    else if text_is(name, "=") || text_is(name, "eq") { Op::Eq }
    else if text_is(name, "<") { Op::Lt }
    else if text_is(name, ">") { Op::Gt }
    else if text_is(name, "gte") { Op::Ge }
    else if text_is(name, "lte") { Op::Le }
    else if text_is(name, "ne") { Op::Ne }
    else if text_is(name, "%") || text_is(name, "modulo") { Op::Rem }
    else if text_is(name, "and") { Op::And }
    else if text_is(name, "or") { Op::Or }
    else if text_is(name, "not") { Op::Not }
    else if text_is(name, "if") { Op::If }
    else if text_is(name, "let") { Op::Let }
    else if text_is(name, "defn") { Op::Defn }
    else if text_is(name, "call") { Op::Call }
    else if text_is(name, "do") { Op::Do }
    else if text_is(name, "while") { Op::While }
    else if text_is(name, "dotimes") { Op::Dotimes }
    else if text_is(name, "with-vars") { Op::WithVars }
    else if text_is(name, "try") { Op::Try }
    else if text_is(name, "first") { Op::First }
    else if text_is(name, "rest") { Op::Rest }
    else if text_is(name, "cons") { Op::Cons }
    else if text_is(name, "count") { Op::Count }
    else if text_is(name, "str") { Op::Str }
    else if text_is(name, "min") { Op::Min }
    else if text_is(name, "max") { Op::Max }
    else if text_is(name, "abs") { Op::Abs }
    else if text_is(name, "inc") { Op::Inc }
    else if text_is(name, "dec") { Op::Dec }
    else if text_is(name, "zero") { Op::Zero }
    else if text_is(name, "pos") { Op::Pos }
    else if text_is(name, "neg") { Op::Neg }
    else if text_is(name, "even") { Op::Even }
    else if text_is(name, "odd") { Op::Odd }
    else if text_is(name, "println") { Op::Println }
    else { Op::Plain }
}

/// The tag that names an operator's function slot.
fn op_tag_text(o: &str) -> (r: String)
    ensures
        r@ == op_tag(o@),
{
    let mut r = String::new();
    if text_is(o, "+") { r.append("plus") }
    else if text_is(o, "-") { r.append("minus") }
    else if text_is(o, "*") { r.append("mul") }
    else if text_is(o, "/") { r.append("div") }
    else if text_is(o, "=") { r.append("eq") }
    else if text_is(o, "<") { r.append("lt") }
    else if text_is(o, ">") { r.append("gt") }
    else if text_is(o, ">=") { r.append("gte") }
    else if text_is(o, "<=") { r.append("lte") }
    else if text_is(o, "!=") { r.append("ne") }
    else if text_is(o, "%") { r.append("mod") }
    else { r.append(o) }
    assert(r@ =~= op_tag(o@));
    r
}

/// The reference that an operator used as a value expands to.
fn operator_reference(o: &str) -> (r: String)
    ensures
        r@ == "op_"@ + op_tag(o@),
{
    let mut r = String::new();
    r.append("op_");
    let t = op_tag_text(o);
    r.append(t.as_str());
    assert(r@ =~= "op_"@ + op_tag(o@));
    r
}

fn arity_of(op: Op) -> (r: Option<usize>)
    ensures
        r matches Some(k) ==> fixed_arity(op) == Some(k as nat),
        r is None ==> fixed_arity(op) is None,
{
    match op {
        Op::Eq | Op::Lt | Op::Gt | Op::Ge | Op::Le | Op::Ne | Op::Rem | Op::Cons | Op::While => Some(2),
        Op::Not | Op::First | Op::Rest | Op::Count | Op::Abs | Op::Inc | Op::Dec | Op::Zero
        | Op::Pos | Op::Neg | Op::Even | Op::Odd => Some(1),
        Op::Dotimes => Some(3),
        _ => None,
    }
}

fn symbols_only(vs: &Vec<LispExpr>) -> (r: bool)
    ensures
        r == all_symbols(models(vs@)),
{
    proof {
        lemma_models(vs@);
    }
    let mut i: usize = 0;
    while i < vs.len()
        invariant
            i <= vs.len(),
            models(vs@).len() == vs.len(),
            forall|j: int| 0 <= j < vs.len() ==> #[trigger] models(vs@)[j] == model(vs@[j]),
            forall|j: int| 0 <= j < i ==> (#[trigger] models(vs@)[j]) is Symbol,
        decreases vs.len() - i,
    {
        match &vs[i] {
            LispExpr::Symbol(_) => {},
            _ => {
                assert(!(models(vs@)[i as int] is Symbol));
                return false;
            },
        }
        i = i + 1;
    }
    true
}

fn pairs_of_bindings(bs: &Vec<LispExpr>) -> (r: bool)
    ensures
        r == binding_pairs(models(bs@)),
{
    proof {
        lemma_models(bs@);
    }
    if bs.len() % 2 != 0 {
        return false;
    }
    let half = bs.len() / 2;
    let mut k: usize = 0;
    while k < half
        invariant
            k <= half,
            half == bs.len() / 2,
            bs.len() % 2 == 0,
            models(bs@).len() == bs.len(),
            forall|j: int| 0 <= j < bs.len() ==> #[trigger] models(bs@)[j] == model(bs@[j]),
            forall|j: int| 0 <= j < k ==> (#[trigger] models(bs@)[2 * j]) is Symbol,
        decreases half - k,
    {
        match &bs[2 * k] {
            LispExpr::Symbol(_) => {},
            _ => {
                assert(!(models(bs@)[2 * k as int] is Symbol));
                return false;
            },
        }
        k = k + 1;
    }
    true
}

/// The shape that the arguments of the list `xs` fail to have, if any.
fn shape_check(op: Op, xs: &Vec<LispExpr>) -> (r: Option<Shape>)
    requires
        xs.len() >= 1,
    ensures
        r == shape_error(op, models(xs@).subrange(1, xs.len() as int)),
{
    proof {
        lemma_models(xs@);
    }
    let ghost args = models(xs@).subrange(1, xs.len() as int);
    let n = xs.len() - 1;
    assert(args.len() == n);
    match op {
        Op::Sub | Op::Call | Op::Println => if n < 1 { Some(Shape::AtLeast(1)) } else { None },
        Op::Div | Op::And | Op::Or | Op::Min | Op::Max => if n < 2 { Some(Shape::AtLeast(2)) } else { None },
        Op::If => if n < 2 || n > 3 { Some(Shape::Between(2, 3)) } else { None },
        Op::Try => if n < 1 || n > 2 { Some(Shape::Between(1, 2)) } else { None },
        Op::Let => if n < 2 {
            Some(Shape::AtLeast(2))
        } else {
            assert(args[0] == model(xs@[1]));
            match &xs[1] {
                LispExpr::Vector(bs) => if pairs_of_bindings(bs) { None } else { Some(Shape::Bindings) },
                _ => Some(Shape::Bindings),
            }
        },
        Op::Defn => if n < 3 {
            Some(Shape::AtLeast(3))
        } else {
            assert(args[0] == model(xs@[1]));
            assert(args[1] == model(xs@[2]));
            match (&xs[1], &xs[2]) {
                (LispExpr::Symbol(_), LispExpr::Vector(ps)) => if symbols_only(ps) { None } else { Some(Shape::Signature) },
                _ => Some(Shape::Signature),
            }
        },
        Op::WithVars => if n < 2 {
            Some(Shape::AtLeast(2))
        } else {
            assert(args[0] == model(xs@[1]));
            match &xs[1] {
                LispExpr::Vector(vs) => if symbols_only(vs) { None } else { Some(Shape::CaptureList) },
                _ => Some(Shape::CaptureList),
            }
        },
        Op::Dotimes => if n != 3 {
            Some(Shape::Exactly(3))
        } else {
            assert(args[0] == model(xs@[1]));
            match &xs[1] {
                LispExpr::Symbol(_) => None,
                _ => Some(Shape::LoopVariable),
            }
        },
        _ => match arity_of(op) {
            Some(k) => if n != k { Some(Shape::Exactly(k)) } else { None },
            None => None,
        },
    }
}

/// The codes of `xs[lo..]`, or the first failure from the left.
fn expand_each(xs: &Vec<LispExpr>, lo: usize) -> (r: Result<Vec<String>, ExpansionError>)
    requires
        lo <= xs.len(),
    ensures
        codes_match(r, codes(models(xs@).subrange(lo as int, xs.len() as int))),
    decreases xs, 0nat,
{
    proof {
        lemma_models(xs@);
    }
    let ghost m = models(xs@);
    let mut out: Vec<String> = Vec::new();
    assert(views(out@) =~= seq![]);
    let mut i: usize = lo;
    while i < xs.len()
        invariant
            lo <= i <= xs.len(),
            m == models(xs@),
            m.len() == xs.len(),
            forall|j: int| 0 <= j < xs.len() ==> #[trigger] m[j] == model(xs@[j]),
            codes(m.subrange(lo as int, i as int)) == Ok::<Seq<Seq<char>>, Failure>(views(out@)),
        decreases xs.len() - i,
    {
        let ghost s = m.subrange(lo as int, i + 1 as int);
        assert(s.subrange(0, s.len() - 1) =~= m.subrange(lo as int, i as int));
        assert(s[s.len() - 1] == model(xs@[i as int]));
        match xs[i].to_rust() {
            Ok(c) => {
                let ghost before = out@;
                let ghost cv = c@;
                out.push(c);
                assert(views(out@) =~= views(before).push(cv));
            },
            Err(e) => {
                proof {
                    let full = m.subrange(lo as int, xs.len() as int);
                    assert(full.subrange(0, i + 1 - lo) =~= s);
                    lemma_codes_err_prefix(full, i + 1 - lo);
                }
                return Err(e);
            },
        }
        i = i + 1;
    }
    Ok(out)
}

/// The codes of the values of an even binding vector, pair by pair.
fn expand_values(bs: &Vec<LispExpr>) -> (r: Result<Vec<String>, ExpansionError>)
    requires
        bs.len() % 2 == 0,
    ensures
        codes_match(r, value_codes(models(bs@))),
    decreases bs, 0nat,
{
    proof {
        lemma_models(bs@);
    }
    let ghost m = models(bs@);
    let half = bs.len() / 2;
    let mut out: Vec<String> = Vec::new();
    assert(views(out@) =~= seq![]);
    let mut k: usize = 0;
    while k < half
        invariant
            k <= half,
            half == bs.len() / 2,
            bs.len() % 2 == 0,
            m == models(bs@),
            m.len() == bs.len(),
            forall|j: int| 0 <= j < bs.len() ==> #[trigger] m[j] == model(bs@[j]),
            value_codes(m.subrange(0, 2 * k as int)) == Ok::<Seq<Seq<char>>, Failure>(views(out@)),
        decreases half - k,
    {
        let ghost s = m.subrange(0, 2 * k + 2 as int);
        assert(s.subrange(0, s.len() - 2) =~= m.subrange(0, 2 * k as int));
        assert(s[s.len() - 1] == model(bs@[2 * k + 1]));
        match bs[2 * k + 1].to_rust() {
            Ok(c) => {
                let ghost before = out@;
                let ghost cv = c@;
                out.push(c);
                assert(views(out@) =~= views(before).push(cv));
            },
            Err(e) => {
                proof {
                    lemma_value_codes_err_prefix(m, 2 * k + 2);
                }
                return Err(e);
            },
        }
        k = k + 1;
    }
    assert(m.subrange(0, 2 * half as int) =~= m);
    Ok(out)
}

/// The codes of the arguments that a well-shaped form expands.
fn form_children(op: Op, xs: &Vec<LispExpr>) -> (r: Result<Vec<String>, ExpansionError>)
    requires
        xs.len() >= 1,
        shape_error(op, models(xs@).subrange(1, xs.len() as int)) is None,
    ensures
        codes_match(r, children(op, models(xs@))),
    decreases xs, 1nat,
{
    proof {
        lemma_models(xs@);
    }
    let ghost m = models(xs@);
    let ghost args = m.subrange(1, xs.len() as int);
    let empty: Vec<String> = Vec::new();
    assert(views(empty@) =~= seq![]);
    if xs.len() < 2 {
        return Ok(empty);
    }
    match op {
        Op::Let => {
            assert(args[0] == model(xs@[1]));
            match &xs[1] {
                LispExpr::Vector(bs) => {
                    proof {
                        lemma_models(bs@);
                    }
                    match expand_values(bs) {
                        Ok(vs) => match expand_each(xs, 2) {
                            Ok(rest) => {
                                let ghost before = views(vs@);
                                let ghost after = views(rest@);
                                let mut vs = vs;
                                let mut rest = rest;
                                vs.append(&mut rest);
                                assert(views(vs@) =~= before + after);
                                Ok(vs)
                            },
                            Err(e) => Err(e),
                        },
                        Err(e) => Err(e),
                    }
                },
                _ => Ok(empty),
            }
        },
        Op::Defn => expand_each(xs, 3),
        Op::WithVars => expand_each(xs, 2),
        Op::Dotimes => expand_each(xs, 2),
        _ => expand_each(xs, 1),
    }
}

/// The code of a form whose head names `op`; `xs` is the whole list.
fn expand_form(op: Op, name: &String, callee: &str, xs: &Vec<LispExpr>) -> (r: Result<String, ExpansionError>)
    requires
        xs.len() >= 1,
    ensures
        expansion_matches(r, gen_form(op, name@, callee@, models(xs@))),
    decreases xs, 2nat,
{
    proof {
        lemma_models(xs@);
    }
    match shape_check(op, xs) {
        Some(s) => {
            let mut operation = String::new();
            operation.append(name.as_str());
            assert(operation@ =~= name@);
            Err(ExpansionError { operation, required: s })
        },
        None => match form_children(op, xs) {
            Ok(cs) => Ok(assemble_text(op, callee, xs, &cs)),
            Err(e) => Err(e),
        },
    }
}

/// The code of a list form.
fn expand_list(xs: &Vec<LispExpr>) -> (r: Result<String, ExpansionError>)
    ensures
        expansion_matches(r, gen_list(models(xs@))),
    decreases xs, 3nat,
{
    proof {
        lemma_models(xs@);
    }
    let ghost m = models(xs@);
    if xs.len() == 0 {
        let mut r = String::new();
        r.append("()");
        assert(r@ =~= "()"@);
        return Ok(r);
    }
    assert(m[0] == model(xs@[0]));
    match &xs[0] {
        LispExpr::Symbol(name) => {
            let op = op_named(name.as_str());
            expand_form(op, name, name.as_str(), xs)
        },
        LispExpr::Operator(name) => {
            let op = op_named(name.as_str());
            let callee = operator_reference(name.as_str());
            expand_form(op, name, callee.as_str(), xs)
        },
        _ => match xs[0].to_rust() {
            Ok(f) => match expand_each(xs, 1) {
                Ok(cs) => {
                    let mut r = paren_text(f.as_str());
                    r.append("(");
                    let a = join_text(&cs, 0, ", ");
                    r.append(a.as_str());
                    r.append(")");
                    assert(views(cs@).subrange(0, cs.len() as int) =~= views(cs@));
                    assert(r@ =~= paren(f@) + "("@ + join(views(cs@), ", "@) + ")"@);
                    Ok(r)
                },
                Err(e) => Err(e),
            },
            Err(e) => Err(e),
        },
    }
}

impl LispExpr {
    /// Expands the expression into Rust source text, or names the first
    /// form whose arguments lack the shape its operation demands.
    pub fn to_rust(&self) -> (r: Result<String, ExpansionError>)
        ensures
            expansion_matches(r, gen(self@)),
        decreases self, 4nat,
    {
        match self {
            LispExpr::Symbol(n) => {
                let mut r = String::new();
                r.append(n.as_str());
                assert(r@ =~= n@);
                Ok(r)
            },
            LispExpr::Literal(t) => {
                let mut r = String::new();
                r.append(t.as_str());
                assert(r@ =~= t@);
                Ok(r)
            },
            LispExpr::Operator(o) => Ok(operator_reference(o.as_str())),
            LispExpr::Vector(xs) => {
                proof {
                    lemma_models(xs@);
                    assert(models(xs@).subrange(0, xs.len() as int) =~= models(xs@));
                }
                match expand_each(xs, 0) {
                    Ok(cs) => {
                        let mut r = String::new();
                        r.append("vec![");
                        let a = join_text(&cs, 0, ", ");
                        r.append(a.as_str());
                        r.append("]");
                        assert(views(cs@).subrange(0, cs.len() as int) =~= views(cs@));
                        assert(r@ =~= "vec!["@ + join(views(cs@), ", "@) + "]"@);
                        Ok(r)
                    },
                    Err(e) => Err(e),
                }
            },
            LispExpr::List(xs) => expand_list(xs),
        }
    }
}

/// The readable rendering of an expression: its variant's name around its
/// text or, for a list or vector, around its children's renderings.
pub open spec fn rendering(e: Sexp) -> Seq<char>
    decreases e, 1nat,
{
    match e {
        Sexp::Symbol(n) => "Symbol("@ + n + ")"@,
        Sexp::Literal(t) => "Literal("@ + t + ")"@,
        Sexp::Operator(o) => "Operator("@ + o + ")"@,
        Sexp::List(xs) => "List("@ + join(renderings(xs), ", "@) + ")"@,
        Sexp::Vector(xs) => "Vector("@ + join(renderings(xs), ", "@) + ")"@,
    }
}

pub open spec fn renderings(xs: Seq<Sexp>) -> Seq<Seq<char>>
    decreases xs, 0nat,
{
    if xs.len() == 0 {
        seq![]
    } else {
        renderings(xs.subrange(0, xs.len() - 1)).push(rendering(xs[xs.len() - 1]))
    }
}

fn describe_all(xs: &Vec<LispExpr>) -> (r: Vec<String>)
    ensures
        views(r@) == renderings(models(xs@)),
    decreases xs, 0nat,
{
    proof {
        lemma_models(xs@);
    }
    let ghost m = models(xs@);
    let mut out: Vec<String> = Vec::new();
    assert(views(out@) =~= seq![]);
    assert(m.subrange(0, 0) =~= Seq::<Sexp>::empty());
    let mut i: usize = 0;
    while i < xs.len()
        invariant
            i <= xs.len(),
            m == models(xs@),
            m.len() == xs.len(),
            forall|j: int| 0 <= j < xs.len() ==> #[trigger] m[j] == model(xs@[j]),
            views(out@) == renderings(m.subrange(0, i as int)),
        decreases xs.len() - i,
    {
        let ghost s = m.subrange(0, i + 1 as int);
        assert(s.subrange(0, s.len() - 1) =~= m.subrange(0, i as int));
        assert(s[s.len() - 1] == model(xs@[i as int]));
        let d = xs[i].describe();
        let ghost before = out@;
        let ghost dv = d@;
        out.push(d);
        assert(views(out@) =~= views(before).push(dv));
        i = i + 1;
    }
    assert(m.subrange(0, xs.len() as int) =~= m);
    out
}

impl LispExpr {
    /// A readable rendering of the expression, such as
    /// `List(Operator(+), Literal(1), Symbol(x))`.
    pub fn describe(&self) -> (r: String)
        ensures
            r@ == rendering(self@),
        decreases self, 1nat,
    {
        let mut r = String::new();
        match self {
            LispExpr::Symbol(n) => {
                r.append("Symbol(");
                r.append(n.as_str());
                r.append(")");
            },
            LispExpr::Literal(t) => {
                r.append("Literal(");
                r.append(t.as_str());
                r.append(")");
            },
            LispExpr::Operator(o) => {
                r.append("Operator(");
                r.append(o.as_str());
                r.append(")");
            },
            LispExpr::List(xs) => {
                r.append("List(");
                let parts = describe_all(xs);
                let inner = join_text(&parts, 0, ", ");
                assert(views(parts@).subrange(0, parts.len() as int) =~= views(parts@));
                r.append(inner.as_str());
                r.append(")");
            },
            LispExpr::Vector(xs) => {
                r.append("Vector(");
                let parts = describe_all(xs);
                let inner = join_text(&parts, 0, ", ");
                assert(views(parts@).subrange(0, parts.len() as int) =~= views(parts@));
                r.append(inner.as_str());
                r.append(")");
            },
        }
        assert(r@ =~= rendering(self@));
        r
    }
}

} // verus!

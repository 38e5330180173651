//! The decisions of the demonstration shell and of the file scan: which
//! command a typed line is, which canned table answers an expression, and
//! what the bracket scan says of a source line.
use vstd::prelude::*;

use crate::demo::{
    arithmetic_demo, comparison_demo, conditional_demo, demo_arithmetic, demo_comparison,
    demo_conditional, demo_list, demo_math_utility, demo_predicate, demo_string, demo_vector,
    list_demo, math_utility_demo, predicate_demo, string_demo, vector_demo,
};
use crate::text::text_is;

verus! {

pub open spec fn has_prefix(s: Seq<char>, p: Seq<char>) -> bool {
    p.len() <= s.len() && s.subrange(0, p.len() as int) == p
}

pub open spec fn has_suffix(s: Seq<char>, p: Seq<char>) -> bool {
    p.len() <= s.len() && s.subrange(s.len() - p.len(), s.len() as int) == p
}

/// Whether `s` begins with `p`.
pub fn starts_with(s: &str, p: &str) -> (r: bool)
    ensures
        r == has_prefix(s@, p@),
{
    let n = s.unicode_len();
    let m = p.unicode_len();
    if m > n {
        return false;
    }
    let mut i: usize = 0;
    while i < m
        invariant
            n == s@.len(),
            m == p@.len(),
            m <= n,
            i <= m,
            forall|j: int| 0 <= j < i ==> s@[j] == p@[j],
        decreases m - i,
    {
        if s.get_char(i) != p.get_char(i) {
            assert(s@.subrange(0, m as int)[i as int] != p@[i as int]);
            return false;
        }
        i = i + 1;
    }
    assert(s@.subrange(0, m as int) =~= p@);
    true
}

/// Whether `s` ends with `p`.
pub fn ends_with(s: &str, p: &str) -> (r: bool)
    ensures
        r == has_suffix(s@, p@),
{
    let n = s.unicode_len();
    let m = p.unicode_len();
    if m > n {
        return false;
    }
    let d = n - m;
    let mut i: usize = 0;
    while i < m
        invariant
            n == s@.len(),
            m == p@.len(),
            d == n - m,
            i <= m,
            forall|j: int| 0 <= j < i ==> s@[d + j] == p@[j],
        decreases m - i,
    {
        if s.get_char(d + i) != p.get_char(i) {
            assert(s@.subrange(d as int, n as int)[i as int] != p@[i as int]);
            return false;
        }
        i = i + 1;
    }
    assert(s@.subrange(d as int, n as int) =~= p@);
    true
}

/// What the demonstration shell answers to an expression, if it is of a
/// kind the shell knows.
pub open spec fn demo_answer(expr: Seq<char>) -> Option<Seq<char>> {
    if has_prefix(expr, "(+"@) {
        Some(arithmetic_demo("+"@, expr))
    } else if has_prefix(expr, "(-"@) {
        Some(arithmetic_demo("-"@, expr))
    } else if has_prefix(expr, "(*"@) {
        Some(arithmetic_demo("*"@, expr))
    } else if has_prefix(expr, "(/"@) {
        Some(arithmetic_demo("/"@, expr))
    } else if has_prefix(expr, "(="@) || has_prefix(expr, "(<"@) || has_prefix(expr, "(>"@)
        || has_prefix(expr, "(gte"@) || has_prefix(expr, "(lte"@) || has_prefix(expr, "(ne"@) {
        Some(comparison_demo(expr))
    } else if has_prefix(expr, "(min"@) || has_prefix(expr, "(max"@) || has_prefix(expr, "(abs"@)
        || has_prefix(expr, "(modulo"@) || has_prefix(expr, "(inc"@) || has_prefix(expr, "(dec"@) {
        Some(math_utility_demo(expr))
    } else if has_prefix(expr, "(zero"@) || has_prefix(expr, "(pos"@) || has_prefix(expr, "(neg"@)
        || has_prefix(expr, "(even"@) || has_prefix(expr, "(odd"@) {
        Some(predicate_demo(expr))
    } else if has_prefix(expr, "(if"@) {
        Some(conditional_demo(expr))
    } else if has_prefix(expr, "(str"@) {
        Some(string_demo(expr))
    } else if has_prefix(expr, "(first"@) || has_prefix(expr, "(rest"@) || has_prefix(expr, "(count"@) {
        Some(list_demo(expr))
    } else if has_prefix(expr, "["@) && has_suffix(expr, "]"@) {
        Some(vector_demo(expr))
    } else {
        None
    }
}

/// The demonstration shell's answer to an expression, or `None` where it
/// does not know the kind of expression.
pub fn answer_demo(expr: &str) -> (r: Option<String>)
    ensures
        match r {
            Some(a) => demo_answer(expr@) == Some(a@),
            None => demo_answer(expr@) is None,
        },
{
    if starts_with(expr, "(+") {
        Some(demo_arithmetic("+", expr))
    } else if starts_with(expr, "(-") {
        Some(demo_arithmetic("-", expr))
    } else if starts_with(expr, "(*") {
        Some(demo_arithmetic("*", expr))
    } else if starts_with(expr, "(/") {
        Some(demo_arithmetic("/", expr))
    } else if starts_with(expr, "(=") || starts_with(expr, "(<") || starts_with(expr, "(>")
        || starts_with(expr, "(gte") || starts_with(expr, "(lte") || starts_with(expr, "(ne") {
        Some(demo_comparison(expr))
    } else if starts_with(expr, "(min") || starts_with(expr, "(max") || starts_with(expr, "(abs")
        || starts_with(expr, "(modulo") || starts_with(expr, "(inc") || starts_with(expr, "(dec") {
        Some(demo_math_utility(expr))
    } else if starts_with(expr, "(zero") || starts_with(expr, "(pos") || starts_with(expr, "(neg")
        || starts_with(expr, "(even") || starts_with(expr, "(odd") {
        Some(demo_predicate(expr))
    } else if starts_with(expr, "(if") {
        Some(demo_conditional(expr))
    } else if starts_with(expr, "(str") {
        Some(demo_string(expr))
    } else if starts_with(expr, "(first") || starts_with(expr, "(rest") || starts_with(expr, "(count") {
        Some(demo_list(expr))
    } else if starts_with(expr, "[") && ends_with(expr, "]") {
        Some(demo_vector(expr))
    } else {
        None
    }
}

/// What a trimmed line typed at the shell asks for.
#[derive(Debug, Clone, Copy, PartialEq, Eq, Structural)]
pub enum ReplCommand {
    /// An empty line: nothing to do.
    Nothing,
    Quit,
    Help,
    Examples,
    Clear,
    /// Anything else is an expression to answer.
    Evaluate,
}

pub open spec fn command_of(line: Seq<char>) -> ReplCommand {
    if line.len() == 0 {
        ReplCommand::Nothing
    } else if line == "exit"@ || line == "quit"@ || line == ":q"@ {
        ReplCommand::Quit
    } else if line == "help"@ || line == ":h"@ {
        ReplCommand::Help
    } else if line == "examples"@ || line == ":e"@ {
        ReplCommand::Examples
    } else if line == "clear"@ || line == ":c"@ {
        ReplCommand::Clear
    } else {
        ReplCommand::Evaluate
    }
}

/// The command that a trimmed line typed at the shell gives.
pub fn repl_command(line: &str) -> (r: ReplCommand)
    ensures
        r == command_of(line@),
{
    if line.unicode_len() == 0 {
        ReplCommand::Nothing
    } else if text_is(line, "exit") || text_is(line, "quit") || text_is(line, ":q") {
        ReplCommand::Quit
    } else if text_is(line, "help") || text_is(line, ":h") {
        ReplCommand::Help
    } else if text_is(line, "examples") || text_is(line, ":e") {
        ReplCommand::Examples
    } else if text_is(line, "clear") || text_is(line, ":c") {
        ReplCommand::Clear
    } else {
        ReplCommand::Evaluate
    }
}

/// What the bracket scan says of one trimmed source line.
#[derive(Debug, Clone, Copy, PartialEq, Eq, Structural)]
pub enum LineCheck {
    /// Blank, or a `;` comment.
    Skipped,
    /// Opens and closes with a matching bracket.
    Balanced,
    /// Opens with `(` but does not end with `)`.
    UnclosedParen,
    /// Opens with `[` but does not end with `]`.
    UnclosedBracket,
    /// Opens with neither bracket.
    Suspicious,
}

pub open spec fn line_check(line: Seq<char>) -> LineCheck {
    if line.len() == 0 || has_prefix(line, ";"@) {
        LineCheck::Skipped
    } else if has_prefix(line, "("@) && !has_suffix(line, ")"@) {
        LineCheck::UnclosedParen
    } else if has_prefix(line, "["@) && !has_suffix(line, "]"@) {
        LineCheck::UnclosedBracket
    } else if !has_prefix(line, "("@) && !has_prefix(line, "["@) {
        LineCheck::Suspicious
    } else {
        LineCheck::Balanced
    }
}

/// The bracket scan's verdict on one trimmed source line.
pub fn check_line(line: &str) -> (r: LineCheck)
    ensures
        r == line_check(line@),
{
    if line.unicode_len() == 0 || starts_with(line, ";") {
        LineCheck::Skipped
    } else if starts_with(line, "(") && !ends_with(line, ")") {
        LineCheck::UnclosedParen
    } else if starts_with(line, "[") && !ends_with(line, "]") {
        LineCheck::UnclosedBracket
    } else if !starts_with(line, "(") && !starts_with(line, "[") {
        LineCheck::Suspicious
    } else {
        LineCheck::Balanced
    }
}

/// Whether a trimmed line of a source file holds an expression: it is
/// neither blank nor a `;` comment.
pub fn is_expression_line(line: &str) -> (r: bool)
    ensures
        r == (line_check(line@) != LineCheck::Skipped),
{
    !(line.unicode_len() == 0 || starts_with(line, ";"))
}

pub open spec fn is_error(c: LineCheck) -> bool {
    c == LineCheck::UnclosedParen || c == LineCheck::UnclosedBracket
}

/// How many verdicts are errors and how many warnings.
pub open spec fn tally(cs: Seq<LineCheck>) -> (nat, nat)
    decreases cs.len(),
{
    if cs.len() == 0 {
        (0, 0)
    } else {
        let (e, w) = tally(cs.drop_last());
        let c = cs.last();
        (e + if is_error(c) { 1nat } else { 0nat }, w + if c == LineCheck::Suspicious { 1nat } else { 0nat })
    }
}

/// The numbers of error and warning verdicts among `checks`.
pub fn count_findings(checks: &Vec<LineCheck>) -> (r: (usize, usize))
    ensures
        r.0 as nat == tally(checks@).0,
        r.1 as nat == tally(checks@).1,
{
    let mut errors: usize = 0;
    let mut warnings: usize = 0;
    let mut i: usize = 0;
    while i < checks.len()
        invariant
            i <= checks.len(),
            errors <= i,
            warnings <= i,
            errors as nat == tally(checks@.subrange(0, i as int)).0,
            warnings as nat == tally(checks@.subrange(0, i as int)).1,
        decreases checks.len() - i,
    {
        assert(checks@.subrange(0, i + 1 as int).drop_last() =~= checks@.subrange(0, i as int));
        let c = checks[i];
        match c {
            LineCheck::UnclosedParen | LineCheck::UnclosedBracket => errors = errors + 1,
            LineCheck::Suspicious => warnings = warnings + 1,
            _ => {},
        }
        i = i + 1;
    }
    assert(checks@.subrange(0, checks.len() as int) =~= checks@);
    (errors, warnings)
}

} // verus!

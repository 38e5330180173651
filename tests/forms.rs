use biglisp::{lisp, Delimiter, Spacing, TokenTree};

fn trees(ts: proc_macro2::TokenStream) -> Vec<TokenTree> {
    let mut out = Vec::new();
    for t in ts {
        match t {
            proc_macro2::TokenTree::Group(g) => {
                let inner = trees(g.stream());
                match g.delimiter() {
                    proc_macro2::Delimiter::Parenthesis => {
                        out.push(TokenTree::Group(Delimiter::Parenthesis, inner))
                    }
                    proc_macro2::Delimiter::Bracket => out.push(TokenTree::Group(Delimiter::Bracket, inner)),
                    proc_macro2::Delimiter::Brace => out.push(TokenTree::Group(Delimiter::Brace, inner)),
                    proc_macro2::Delimiter::None => out.extend(inner),
                }
            }
            proc_macro2::TokenTree::Ident(i) => out.push(TokenTree::Ident(i.to_string())),
            proc_macro2::TokenTree::Punct(p) => {
                let spacing = match p.spacing() {
                    proc_macro2::Spacing::Joint => Spacing::Joint,
                    proc_macro2::Spacing::Alone => Spacing::Alone,
                };
                out.push(TokenTree::Punct(p.as_char(), spacing))
            }
            proc_macro2::TokenTree::Literal(l) => out.push(TokenTree::Literal(l.to_string())),
        }
    }
    out
}

fn code(src: &str) -> String {
    let ts: proc_macro2::TokenStream = src.parse().expect("the input lexes");
    match lisp(&trees(ts)) {
        Ok(c) => c,
        Err(e) => panic!("no code for {}: {:?}", src, e),
    }
}

#[test]
fn basic_arithmetic() {
    assert_eq!(code("(+ 1 2 3)"), "0 + (1) + (2) + (3)");
    let result = 0 + (1) + (2) + (3);
    assert_eq!(result, 6);
}

#[test]
fn simple_nested() {
    assert_eq!(code("(+ (+ 1 2) 3)"), "0 + (0 + (1) + (2)) + (3)");
    let result = 0 + (0 + (1) + (2)) + (3);
    assert_eq!(result, 6);
}

#[test]
fn nested_expressions() {
    assert_eq!(code("(* (+ 1 2) (- 5 1))"), "1 * (0 + (1) + (2)) * ((5) - (1))");
    let result = 1 * (0 + (1) + (2)) * ((5) - (1));
    assert_eq!(result, 12);
}

#[test]
fn complex_expression() {
    assert_eq!(
        code("(/ (* (+ 10 5) (- 20 5)) 5)"),
        "(1 * (0 + (10) + (5)) * ((20) - (5))) / (5)"
    );
    let result = (1 * (0 + (10) + (5)) * ((20) - (5))) / (5);
    assert_eq!(result, 45);
}

#[test]
fn single_numbers() {
    assert_eq!(code("(+ 42)"), "42");
    assert_eq!(code("(* 7)"), "7");
    assert_eq!(code("(-10)"), "-(10)");
    let result_neg = -(10);
    assert_eq!(result_neg, -10);
}

#[test]
fn zero_and_identity() {
    assert_eq!(code("(+ 0 5 0 3)"), "0 + (0) + (5) + (0) + (3)");
    assert_eq!(code("(* 1 7 1 3)"), "1 * (1) * (7) * (1) * (3)");
    assert_eq!(code("(- 10 0)"), "(10) - (0)");
    assert_eq!(0 + (0) + (5) + (0) + (3), 8);
    assert_eq!(1 * (1) * (7) * (1) * (3), 21);
    assert_eq!((10) - (0), 10);
}

#[test]
fn large_expressions() {
    assert_eq!(
        code("(+ 1 2 3 4 5 6 7 8 9 10)"),
        "0 + (1) + (2) + (3) + (4) + (5) + (6) + (7) + (8) + (9) + (10)"
    );
    assert_eq!(code("(* 2 2 2 2 2)"), "1 * (2) * (2) * (2) * (2) * (2)");
    assert_eq!(code("(- 100 10 5 3 2)"), "(100) - (10) - (5) - (3) - (2)");
    assert_eq!(0 + (1) + (2) + (3) + (4) + (5) + (6) + (7) + (8) + (9) + (10), 55);
    assert_eq!(1 * (2) * (2) * (2) * (2) * (2), 32);
    assert_eq!((100) - (10) - (5) - (3) - (2), 80);
}

#[test]
fn comparison_operations() {
    assert_eq!(code("(= 5 5)"), "(5) == (5)");
    assert_eq!(code("(= 3 7)"), "(3) == (7)");
    assert_eq!(code("(< 3 7)"), "(3) < (7)");
    assert_eq!(code("(< 7 3)"), "(7) < (3)");
    assert_eq!(code("(> 7 3)"), "(7) > (3)");
    assert_eq!(code("(> 3 7)"), "(3) > (7)");
    assert_eq!((5) == (5), true);
    assert_eq!((3) == (7), false);
    assert_eq!((3) < (7), true);
    assert_eq!((7) < (3), false);
    assert_eq!((7) > (3), true);
    assert_eq!((3) > (7), false);
}

#[test]
fn nested_comparisons() {
    assert_eq!(code("(= (+ 2 3) (* 1 5))"), "(0 + (2) + (3)) == (1 * (1) * (5))");
    assert_eq!(code("(< (+ 1 2) (* 2 3))"), "(0 + (1) + (2)) < (1 * (2) * (3))");
    assert_eq!(
        code("(> (+ (* 2 3) 1) (- 10 3))"),
        "(0 + (1 * (2) * (3)) + (1)) > ((10) - (3))"
    );
    assert_eq!((0 + (2) + (3)) == (1 * (1) * (5)), true);
    assert_eq!((0 + (1) + (2)) < (1 * (2) * (3)), true);
    assert_eq!((0 + (1 * (2) * (3)) + (1)) > ((10) - (3)), false);
}

#[test]
fn deeply_nested() {
    assert_eq!(
        code("(+ (+ (+ 1 2) (+ 3 4)) (+ (+ 5 6) (+ 7 8)))"),
        "0 + (0 + (0 + (1) + (2)) + (0 + (3) + (4))) + (0 + (0 + (5) + (6)) + (0 + (7) + (8)))"
    );
    assert_eq!(
        code("(* (+ 1 (+ 2 3)) (- 10 (- 8 2)))"),
        "1 * (0 + (1) + (0 + (2) + (3))) * ((10) - ((8) - (2)))"
    );
    let result = 0 + (0 + (0 + (1) + (2)) + (0 + (3) + (4))) + (0 + (0 + (5) + (6)) + (0 + (7) + (8)));
    assert_eq!(result, 36);
    let result2 = 1 * (0 + (1) + (0 + (2) + (3))) * ((10) - ((8) - (2)));
    assert_eq!(result2, 24);
}

#[test]
fn edge_case_division() {
    assert_eq!(code("(/ 15 3)"), "(15) / (3)");
    assert_eq!(code("(/ 7 2)"), "(7) / (2)");
    assert_eq!(code("(/ 60 3 2)"), "(60) / (3) / (2)");
    assert_eq!((15) / (3), 5);
    assert_eq!((7) / (2), 3);
    assert_eq!((60) / (3) / (2), 10);
}

#[test]
fn unary_negation() {
    assert_eq!(code("(-5)"), "-(5)");
    assert_eq!(code("(-0)"), "-(0)");
    assert_eq!(code("(- (+ 3 4))"), "-(0 + (3) + (4))");
    assert_eq!(code("(+ (- 5) 10)"), "0 + (-(5)) + (10)");
    assert_eq!(-(5), -5);
    assert_eq!(-(0), 0);
    assert_eq!(-(0 + (3) + (4)), -7);
    assert_eq!(0 + (-(5)) + (10), 5);
}

#[test]
fn conditional_expressions() {
    assert_eq!(code("(if (> 5 3) 10 20)"), "if ((5) > (3)) { 10 } else { 20 }");
    assert_eq!(code("(if (< 5 3) 10 20)"), "if ((5) < (3)) { 10 } else { 20 }");
    assert_eq!(
        code("(if (> (+ 2 3) 4) (* 2 5) (/ 10 2))"),
        "if ((0 + (2) + (3)) > (4)) { 1 * (2) * (5) } else { (10) / (2) }"
    );
    let result_true = if ((5) > (3)) { 10 } else { 20 };
    assert_eq!(result_true, 10);
    let result_false = if ((5) < (3)) { 10 } else { 20 };
    assert_eq!(result_false, 20);
    let result_nested = if ((0 + (2) + (3)) > (4)) { 1 * (2) * (5) } else { (10) / (2) };
    assert_eq!(result_nested, 10);
}

#[test]
fn local_bindings() {
    assert_eq!(code("(let [x 5] x)"), "{ let x = 5; x }");
    assert_eq!(code("(let [x 3 y 4] (+ x y))"), "{ let x = 3; let y = 4; 0 + (x) + (y) }");
    assert_eq!(
        code("(let [a 10 b 5] (* a (- a b)))"),
        "{ let a = 10; let b = 5; 1 * (a) * ((a) - (b)) }"
    );
    assert_eq!(
        code("(let [x (+ 2 3) y (* 2 4)] (+ x y))"),
        "{ let x = 0 + (2) + (3); let y = 1 * (2) * (4); 0 + (x) + (y) }"
    );
    assert_eq!({ let x = 5; x }, 5);
    assert_eq!({ let x = 3; let y = 4; 0 + (x) + (y) }, 7);
    assert_eq!({ let a = 10; let b = 5; 1 * (a) * ((a) - (b)) }, 50);
    assert_eq!({ let x = 0 + (2) + (3); let y = 1 * (2) * (4); 0 + (x) + (y) }, 13);
}

#[test]
fn println_expressions() {
    assert_eq!(code("(println 42)"), r#"println!("{:?}", 42)"#);
    assert_eq!(code("(println (+ 2 3))"), r#"println!("{:?}", 0 + (2) + (3))"#);
    assert_eq!(
        code("(println (+ 1 2) (* 3 4))"),
        r#"println!("{:?}", (0 + (1) + (2), 1 * (3) * (4)))"#
    );
    assert_eq!(code(r#"(println "test output")"#), r#"println!("{:?}", "test output")"#);
    println!("{:?}", 42);
    println!("{:?}", 0 + (2) + (3));
    println!("{:?}", (0 + (1) + (2), 1 * (3) * (4)));
    let _unit_result: () = println!("{:?}", "test output");
}

#[test]
fn do_blocks() {
    assert_eq!(
        code("(do (+ 1 2) (* 3 4) (- 10 5))"),
        "{ 0 + (1) + (2); 1 * (3) * (4); (10) - (5) }"
    );
    assert_eq!(
        code("(do (* 2 3) (+ 10 20) (/ 100 4))"),
        "{ 1 * (2) * (3); 0 + (10) + (20); (100) / (4) }"
    );
    let result = { 0 + (1) + (2); 1 * (3) * (4); (10) - (5) };
    assert_eq!(result, 5);
    let result2 = { 1 * (2) * (3); 0 + (10) + (20); (100) / (4) };
    assert_eq!(result2, 25);
}

#[test]
fn variable_capture() {
    let x = 5;
    let y = 10;
    assert_eq!(code("[x, y] (+ x y)"), "{ let x = x; let y = y; 0 + (x) + (y) }");
    assert_eq!(code("[x] (* x x)"), "{ let x = x; 1 * (x) * (x) }");
    assert_eq!(
        code("[x, y, z] (+ (* x y) z)"),
        "{ let x = x; let y = y; let z = z; 0 + (1 * (x) * (y)) + (z) }"
    );
    let result1 = { let x = x; let y = y; 0 + (x) + (y) };
    assert_eq!(result1, 15);
    let result2 = { let x = x; 1 * (x) * (x) };
    assert_eq!(result2, 25);
    let z = 3;
    let result3 = { let x = x; let y = y; let z = z; 0 + (1 * (x) * (y)) + (z) };
    assert_eq!(result3, 53);
}

#[test]
fn boolean_operations() {
    assert_eq!(code("(and true true)"), "((true) && (true)) && (true)");
    assert_eq!(code("(and true false)"), "((true) && (true)) && (false)");
    assert_eq!(
        code("(and (> 5 3) (< 2 4) (= 1 1))"),
        "(((true) && ((5) > (3))) && ((2) < (4))) && ((1) == (1))"
    );
    assert_eq!(code("(or false true)"), "((false) || (false)) || (true)");
    assert_eq!(code("(or false false)"), "((false) || (false)) || (false)");
    assert_eq!(
        code("(or (< 5 3) (> 2 4) (= 1 1))"),
        "(((false) || ((5) < (3))) || ((2) > (4))) || ((1) == (1))"
    );
    assert_eq!(code("(not false)"), "!(false)");
    assert_eq!(code("(not true)"), "!(true)");
    assert_eq!(code("(not (< 5 3))"), "!((5) < (3))");
    assert_eq!(((true) && (true)) && (true), true);
    assert_eq!(((true) && (true)) && (false), false);
    assert_eq!((((true) && ((5) > (3))) && ((2) < (4))) && ((1) == (1)), true);
    assert_eq!(((false) || (false)) || (true), true);
    assert_eq!(((false) || (false)) || (false), false);
    assert_eq!((((false) || ((5) < (3))) || ((2) > (4))) || ((1) == (1)), true);
    assert_eq!(!(false), true);
    assert_eq!(!(true), false);
    assert_eq!(!((5) < (3)), true);
}

#[test]
fn list_operations() {
    assert_eq!(code("[1 2 3 4]"), "vec![1, 2, 3, 4]");
    assert_eq!(code("(first [1 2 3])"), "(vec![1, 2, 3]).first().copied().unwrap_or_default()");
    assert_eq!(code("(first [42])"), "(vec![42]).first().copied().unwrap_or_default()");
    assert_eq!(code("(count [1 2 3 4 5])"), "(vec![1, 2, 3, 4, 5]).len()");
    assert_eq!(code("(count [42])"), "(vec![42]).len()");
    assert_eq!(
        code("(rest [1 2 3 4])"),
        "{ let v = vec![1, 2, 3, 4]; if v.len() > 1 { v[1..].to_vec() } else { vec![] } }"
    );
    assert_eq!(
        code("(rest [42])"),
        "{ let v = vec![42]; if v.len() > 1 { v[1..].to_vec() } else { vec![] } }"
    );
    assert_eq!(
        code("(cons 0 [1 2 3])"),
        "{ let mut result = vec![(0)]; result.extend(vec![1, 2, 3]); result }"
    );
    assert_eq!(
        code("(cons 0 [42])"),
        "{ let mut result = vec![(0)]; result.extend(vec![42]); result }"
    );
    assert_eq!(vec![1, 2, 3, 4], vec![1, 2, 3, 4]);
    assert_eq!((vec![1, 2, 3]).first().copied().unwrap_or_default(), 1);
    assert_eq!((vec![42]).first().copied().unwrap_or_default(), 42);
    assert_eq!((vec![1, 2, 3, 4, 5]).len(), 5);
    assert_eq!((vec![42]).len(), 1);
    let rest_result = { let v = vec![1, 2, 3, 4]; if v.len() > 1 { v[1..].to_vec() } else { vec![] } };
    assert_eq!(rest_result, vec![2, 3, 4]);
    let rest_single = { let v = vec![42]; if v.len() > 1 { v[1..].to_vec() } else { vec![] } };
    assert_eq!(rest_single, Vec::<i32>::new());
    let cons_result = { let mut result = vec![(0)]; result.extend(vec![1, 2, 3]); result };
    assert_eq!(cons_result, vec![0, 1, 2, 3]);
    let cons_single = { let mut result = vec![(0)]; result.extend(vec![42]); result };
    assert_eq!(cons_single, vec![0, 42]);
}

#[test]
fn string_operations() {
    assert_eq!(
        code(r#"(str "hello" " " "world")"#),
        r#"[("hello").to_string(), (" ").to_string(), ("world").to_string()].join("")"#
    );
    assert_eq!(
        code(r#"(str "The answer is " 42)"#),
        r#"[("The answer is ").to_string(), (42).to_string()].join("")"#
    );
    assert_eq!(code(r#"(str "hello")"#), r#"[("hello").to_string()].join("")"#);
    assert_eq!(
        code(r#"(str "Sum: " (+ 2 3))"#),
        r#"[("Sum: ").to_string(), (0 + (2) + (3)).to_string()].join("")"#
    );
    assert_eq!(
        code(r#"(str "2 + 3 = " (+ 2 3) " and 2 * 3 = " (* 2 3))"#),
        r#"[("2 + 3 = ").to_string(), (0 + (2) + (3)).to_string(), (" and 2 * 3 = ").to_string(), (1 * (2) * (3)).to_string()].join("")"#
    );
    assert_eq!([("hello").to_string(), (" ").to_string(), ("world").to_string()].join(""), "hello world");
    assert_eq!([("The answer is ").to_string(), (42).to_string()].join(""), "The answer is 42");
    assert_eq!([("hello").to_string()].join(""), "hello");
    assert_eq!([("Sum: ").to_string(), (0 + (2) + (3)).to_string()].join(""), "Sum: 5");
    assert_eq!(
        [
            ("2 + 3 = ").to_string(),
            (0 + (2) + (3)).to_string(),
            (" and 2 * 3 = ").to_string(),
            (1 * (2) * (3)).to_string()
        ]
        .join(""),
        "2 + 3 = 5 and 2 * 3 = 6"
    );
}

#[test]
fn function_definitions_and_calls() {
    assert_eq!(
        code("(defn square [x] (* x x))"),
        "let square = |x: i32| -> i32 { 1 * (x) * (x) }; square"
    );
    assert_eq!(code("(call square 5)"), "(square)(5)");
    assert_eq!(
        code("(defn add [a b] (+ a b))"),
        "let add = |a: i32, b: i32| -> i32 { 0 + (a) + (b) }; add"
    );
    assert_eq!(code("(call add 3 7)"), "(add)(3, 7)");
    assert_eq!(
        code("(defn complex [x y] (+ (* x x) (* y y)))"),
        "let complex = |x: i32, y: i32| -> i32 { 0 + (1 * (x) * (x)) + (1 * (y) * (y)) }; complex"
    );
    assert_eq!(code("(call complex_fn 3 4)"), "(complex_fn)(3, 4)");
    // Spliced where a statement stands, the code binds each name there.
    let square = |x: i32| -> i32 { 1 * (x) * (x) };
    square;
    let result1 = (square)(5);
    assert_eq!(result1, 25);
    let add = |a: i32, b: i32| -> i32 { 0 + (a) + (b) };
    add;
    let result2 = (add)(3, 7);
    assert_eq!(result2, 10);
    let result3 = {
        // The form binds `complex`; the block also calls it `complex_fn`.
        let complex = |x: i32, y: i32| -> i32 { 0 + (1 * (x) * (x)) + (1 * (y) * (y)) };
        let complex_fn = complex;
        (complex_fn)(3, 4)
    };
    assert_eq!(result3, 25);
}

#[test]
fn advanced_control_flow() {
    assert_eq!(
        code("(dotimes i 5 (+ i 1))"),
        "{ for i in 0..(5) { let _ = 0 + (i) + (1); } () }"
    );
    assert_eq!(
        code("(dotimes i 3 (* (+ i 1) 2))"),
        "{ for i in 0..(3) { let _ = 1 * (0 + (i) + (1)) * (2); } () }"
    );
    let _result_dotimes: () = { for i in 0..(5) { let _ = 0 + (i) + (1); } () };
    let _result_sum: () = { for i in 0..(3) { let _ = 1 * (0 + (i) + (1)) * (2); } () };
}

#[test]
fn error_handling() {
    assert_eq!(
        code("(try (/ 10 2) 0)"),
        "{ let result = std::panic::catch_unwind(|| { (10) / (2) }); match result { Ok(val) => val, Err(_) => 0, } }"
    );
    assert_eq!(
        code("(try (+ 1 2))"),
        r#"{ let result = std::panic::catch_unwind(|| { 0 + (1) + (2) }); match result { Ok(val) => val, Err(_) => panic!("Unhandled error in try block"), } }"#
    );
    assert_eq!(
        code("(try (try (+ 5 5) 0) (- 0 1))"),
        "{ let result = std::panic::catch_unwind(|| { { let result = std::panic::catch_unwind(|| { 0 + (5) + (5) }); match result { Ok(val) => val, Err(_) => 0, } } }); match result { Ok(val) => val, Err(_) => (0) - (1), } }"
    );
    // None of the protected bodies panics, so each block's value is its body's.
    let safe_division = (10) / (2);
    assert_eq!(safe_division, 5);
    let simple_try = 0 + (1) + (2);
    assert_eq!(simple_try, 3);
    let nested_try = 0 + (5) + (5);
    assert_eq!(nested_try, 10);
}

#[test]
fn complex_combinations() {
    let x = 10;
    assert_eq!(
        code(r#"[x] (let [doubled (* x 2) halved (/ x 2)] (if (> doubled halved) (str "Doubled " doubled " > halved " halved) (str "Should not happen")))"#),
        r#"{ let x = x; { let doubled = 1 * (x) * (2); let halved = (x) / (2); if ((doubled) > (halved)) { [("Doubled ").to_string(), (doubled).to_string(), (" > halved ").to_string(), (halved).to_string()].join("") } else { [("Should not happen").to_string()].join("") } } }"#
    );
    let result = {
        let x = x;
        {
            let doubled = 1 * (x) * (2);
            let halved = (x) / (2);
            if ((doubled) > (halved)) {
                [("Doubled ").to_string(), (doubled).to_string(), (" > halved ").to_string(), (halved).to_string()].join("")
            } else {
                [("Should not happen").to_string()].join("")
            }
        }
    };
    assert_eq!(result, "Doubled 20 > halved 5");

    assert_eq!(
        code("(defn add_ten [x] (+ x 10))"),
        "let add_ten = |x: i32| -> i32 { 0 + (x) + (10) }; add_ten"
    );
    assert_eq!(code("(call add_ten 5)"), "(add_ten)(5)");
    let add_ten = |x: i32| -> i32 { 0 + (x) + (10) };
    add_ten;
    let result2 = (add_ten)(5);
    assert_eq!(result2, 15);

    assert_eq!(
        code("(and (> (count [1 2 3 4]) 2) (= (first [5 6 7]) 5))"),
        "((true) && (((vec![1, 2, 3, 4]).len()) > (2))) && (((vec![5, 6, 7]).first().copied().unwrap_or_default()) == (5))"
    );
    let vec_test = ((true) && (((vec![1, 2, 3, 4]).len()) > (2))) && (((vec![5, 6, 7]).first().copied().unwrap_or_default()) == (5));
    assert_eq!(vec_test, true);
}

use ripen::{Builtin, Calculator, Dispatch, Event, Operation, Reaction, Settled, PI_BITS, SIGN_BIT};

fn evaluate(op: Builtin, a: &[f64]) -> Vec<f64> {
    match op {
        Builtin::Add => vec![a[0] + a[1]],
        Builtin::Sub => vec![a[0] - a[1]],
        Builtin::Mul => vec![a[0] * a[1]],
        Builtin::Div => vec![a[0] / a[1]],
        Builtin::Pow => vec![a[0].powf(a[1])],
        Builtin::Neg => vec![-a[0]],
        Builtin::Sin => vec![a[0].sin()],
        Builtin::Cos => vec![a[0].cos()],
        Builtin::Tan => vec![a[0].tan()],
        Builtin::Asin => vec![a[0].asin()],
        Builtin::Acos => vec![a[0].acos()],
        Builtin::Atan => vec![a[0].atan()],
        Builtin::DegToRad => vec![a[0] * std::f64::consts::PI / 180.0],
        Builtin::Ln => vec![a[0].ln()],
        Builtin::Swap => vec![a[1], a[0]],
        Builtin::Pred => vec![a[0] - 1.0],
        Builtin::Succ => vec![a[0] + 1.0],
        Builtin::Sqrt => vec![a[0].sqrt()],
        Builtin::Cbrt => vec![a[0].cbrt()],
        Builtin::Pi => vec![std::f64::consts::PI],
    }
}

fn with_stack(values: &[f64]) -> Calculator {
    let mut calc = Calculator::new();
    for v in values {
        for c in format!("{}", v).chars() {
            assert_eq!(calc.handle(Event::Char(c)), Reaction::Continue);
        }
        let literal = calc.line().parse::<f64>().ok().map(f64::to_bits);
        calc.submit(literal);
    }
    calc
}

fn run(calc: &mut Calculator, text: &str) -> bool {
    match calc.operate(text) {
        Dispatch::Refused => false,
        Dispatch::Applied => true,
        Dispatch::Call(call) => {
            let args: Vec<f64> = call.args.iter().map(|b| f64::from_bits(*b)).collect();
            let outcome = match &call.operation {
                Operation::Native(op) => {
                    Ok(evaluate(*op, &args).iter().map(|x| x.to_bits()).collect())
                }
                _ => Err("no runtime".to_string()),
            };
            calc.complete(&call, outcome) == Settled::Applied
        }
    }
}

fn stack_of(calc: &Calculator) -> Vec<f64> {
    calc.stack().to_vec().iter().map(|b| f64::from_bits(*b)).collect()
}

#[test]
fn fresh_calculator_holds_the_builtins_and_nothing_else() {
    let calc = Calculator::new();
    assert_eq!(calc.stack().len(), 0);
    assert_eq!(calc.line().as_str(), "");
    assert_eq!(calc.previous().as_str(), "");
    assert_eq!(calc.errors().len(), 0);
    assert_eq!(calc.registry().len(), 21);
}

#[test]
fn every_builtin_name_resolves_to_its_operator() {
    let table = [
        ("+", Builtin::Add, 2),
        ("-", Builtin::Sub, 2),
        ("*", Builtin::Mul, 2),
        ("/", Builtin::Div, 2),
        ("^", Builtin::Pow, 2),
        ("neg", Builtin::Neg, 1),
        ("`", Builtin::Neg, 1),
        ("sin", Builtin::Sin, 1),
        ("cos", Builtin::Cos, 1),
        ("tan", Builtin::Tan, 1),
        ("asin", Builtin::Asin, 1),
        ("acos", Builtin::Acos, 1),
        ("atan", Builtin::Atan, 1),
        ("d2r", Builtin::DegToRad, 1),
        ("ln", Builtin::Ln, 1),
        ("swap", Builtin::Swap, 2),
        ("pred", Builtin::Pred, 1),
        ("succ", Builtin::Succ, 1),
        ("sqrt", Builtin::Sqrt, 1),
        ("cbrt", Builtin::Cbrt, 1),
        ("pi", Builtin::Pi, 0),
    ];
    let calc = Calculator::new();
    for (name, op, arity) in table {
        let found = calc.registry().lookup(name);
        assert_eq!(found, Some(Operation::Native(op)), "{}", name);
        assert_eq!(op.arity(), arity, "{}", name);
        assert_eq!(found.unwrap().arity(), arity, "{}", name);
    }
    assert_eq!(calc.registry().lookup("mod"), None);
    assert_eq!(calc.registry().lookup(""), None);
}

#[test]
fn addition_replaces_both_operands_by_the_sum() {
    let mut calc = with_stack(&[2.0, 3.0]);
    assert!(run(&mut calc, "+"));
    assert_eq!(stack_of(&calc), vec![5.0]);
}

#[test]
fn division_takes_its_operands_in_stack_order() {
    let mut calc = with_stack(&[8.0, 2.0]);
    assert!(run(&mut calc, "/"));
    assert_eq!(stack_of(&calc), vec![4.0]);
}

#[test]
fn subtraction_multiplication_and_power() {
    let mut calc = with_stack(&[8.0, 2.0]);
    assert!(run(&mut calc, "-"));
    assert_eq!(stack_of(&calc), vec![6.0]);
    let mut calc = with_stack(&[8.0, 2.0]);
    assert!(run(&mut calc, "*"));
    assert_eq!(stack_of(&calc), vec![16.0]);
    let mut calc = with_stack(&[8.0, 2.0]);
    assert!(run(&mut calc, "^"));
    assert_eq!(stack_of(&calc), vec![64.0]);
}

#[test]
fn binary_operator_leaves_the_values_below_alone() {
    let mut calc = with_stack(&[7.0, 1.5, 2.0, 3.0]);
    assert!(run(&mut calc, "+"));
    assert_eq!(stack_of(&calc), vec![7.0, 1.5, 5.0]);
}

#[test]
fn binary_operator_hands_the_host_copies_of_the_operands() {
    let mut calc = with_stack(&[1.0, 8.0, 2.0]);
    match calc.operate("/") {
        Dispatch::Call(call) => {
            assert_eq!(call.operation, Operation::Native(Builtin::Div));
            assert_eq!(call.args, vec![8.0f64.to_bits(), 2.0f64.to_bits()]);
            assert!(!call.record);
        }
        other => panic!("unexpected {:?}", other),
    }
    assert_eq!(stack_of(&calc), vec![1.0, 8.0, 2.0]);
}

#[test]
fn unary_operators_replace_the_top() {
    let mut calc = with_stack(&[3.0, 16.0]);
    assert!(run(&mut calc, "sqrt"));
    assert_eq!(stack_of(&calc), vec![3.0, 4.0]);
    assert!(run(&mut calc, "succ"));
    assert_eq!(stack_of(&calc), vec![3.0, 5.0]);
    assert!(run(&mut calc, "pred"));
    assert!(run(&mut calc, "pred"));
    assert_eq!(stack_of(&calc), vec![3.0, 3.0]);
    let mut calc = with_stack(&[27.0]);
    assert!(run(&mut calc, "cbrt"));
    assert_eq!(stack_of(&calc), vec![3.0]);
    let mut calc = with_stack(&[180.0]);
    assert!(run(&mut calc, "d2r"));
    assert_eq!(stack_of(&calc), vec![std::f64::consts::PI]);
    let mut calc = with_stack(&[1.0]);
    assert!(run(&mut calc, "ln"));
    assert_eq!(stack_of(&calc), vec![0.0]);
    let mut calc = with_stack(&[0.0]);
    assert!(run(&mut calc, "cos"));
    assert_eq!(stack_of(&calc), vec![1.0]);
}

#[test]
fn swap_exchanges_the_two_top_values_without_the_host() {
    let mut calc = with_stack(&[1.0, 2.0, 3.0]);
    assert_eq!(calc.operate("swap"), Dispatch::Applied);
    assert_eq!(stack_of(&calc), vec![1.0, 3.0, 2.0]);
}

#[test]
fn neg_flips_the_sign_bit_as_negation_does() {
    for x in [0.0f64, -0.0, 1.0, -2.5, f64::INFINITY, f64::MIN_POSITIVE, 1e300] {
        let mut calc = Calculator::new();
        calc.submit(Some(x.to_bits()));
        assert_eq!(calc.operate("neg"), Dispatch::Applied);
        assert_eq!(calc.stack().to_vec(), vec![(-x).to_bits()]);
        assert_eq!(calc.operate("`"), Dispatch::Applied);
        assert_eq!(calc.stack().to_vec(), vec![x.to_bits()]);
    }
    let nan = f64::NAN;
    let mut calc = Calculator::new();
    calc.submit(Some(nan.to_bits()));
    assert_eq!(calc.operate("neg"), Dispatch::Applied);
    assert_eq!(calc.stack().get(0), nan.to_bits() ^ SIGN_BIT);
    assert_eq!(calc.stack().get(0), (-nan).to_bits());
}

#[test]
fn neg_agrees_with_the_host_arithmetic() {
    for x in [0.0f64, -0.0, 3.25, -7.0, f64::NEG_INFINITY] {
        let out = Builtin::Neg.exact(&vec![x.to_bits()]).unwrap();
        assert_eq!(out, vec![evaluate(Builtin::Neg, &[x])[0].to_bits()]);
    }
}

#[test]
fn pi_needs_no_operand_and_pushes_the_constant() {
    let mut calc = Calculator::new();
    assert_eq!(calc.operate("pi"), Dispatch::Applied);
    assert_eq!(calc.stack().to_vec(), vec![PI_BITS]);
    assert_eq!(PI_BITS, std::f64::consts::PI.to_bits());
    assert_eq!(stack_of(&calc), vec![std::f64::consts::PI]);
}

#[test]
fn exact_is_none_for_arithmetic_and_for_a_wrong_operand_count() {
    assert_eq!(Builtin::Add.exact(&vec![1, 2]), None);
    assert_eq!(Builtin::Sin.exact(&vec![1]), None);
    assert_eq!(Builtin::Swap.exact(&vec![1]), None);
    assert_eq!(Builtin::Swap.exact(&vec![1, 2, 3]), None);
    assert_eq!(Builtin::Neg.exact(&vec![]), None);
    assert_eq!(Builtin::Pi.exact(&vec![1]), None);
    assert_eq!(Builtin::Swap.exact(&vec![1, 2]), Some(vec![2, 1]));
    assert_eq!(Builtin::Pi.exact(&vec![]), Some(vec![PI_BITS]));
    assert_eq!(SIGN_BIT, 1u64 << 63);
}

use ripen::{
    Builtin, Calculator, Declaration, Dispatch, Event, Operation, Reaction, Runtime, Settled,
    Submission,
};

fn bits(values: &[f64]) -> Vec<u64> {
    values.iter().map(|v| v.to_bits()).collect()
}

fn type_text(calc: &mut Calculator, text: &str) {
    for c in text.chars() {
        assert_eq!(calc.handle(Event::Char(c)), Reaction::Continue);
    }
}

/// Handles a submit event as the consumer loop does, with addition as the
/// only arithmetic that the host knows.
fn submit(calc: &mut Calculator) -> Submission {
    assert_eq!(calc.handle(Event::Submit), Reaction::Submit);
    let literal = calc.line().parse::<f64>().ok().map(f64::to_bits);
    let submission = calc.submit(literal);
    if let Submission::Ran(Dispatch::Call(call)) = &submission {
        let outcome = match &call.operation {
            Operation::Native(Builtin::Add) => {
                Ok(vec![(f64::from_bits(call.args[0]) + f64::from_bits(call.args[1])).to_bits()])
            }
            _ => Err("unsupported".to_string()),
        };
        calc.complete(call, outcome);
    }
    submission
}

fn enter(calc: &mut Calculator, text: &str) -> Submission {
    type_text(calc, text);
    submit(calc)
}

#[test]
fn number_is_pushed_and_becomes_the_previous_text() {
    let mut calc = Calculator::new();
    assert_eq!(enter(&mut calc, "2.5"), Submission::Pushed);
    assert_eq!(calc.stack().to_vec(), bits(&[2.5]));
    assert_eq!(calc.previous().as_str(), "2.5");
    assert_eq!(calc.line().as_str(), "");
}

#[test]
fn number_keeps_its_exact_value_and_its_text() {
    for text in ["0.1", "-0", "1e-320", "17", "6.02214076e23", "inf", "-.5"] {
        let mut calc = Calculator::new();
        assert_eq!(enter(&mut calc, text), Submission::Pushed);
        assert_eq!(calc.stack().to_vec(), vec![text.parse::<f64>().unwrap().to_bits()]);
        assert_eq!(calc.previous().as_str(), text);
    }
}

#[test]
fn empty_submit_after_a_number_does_not_push_it_again() {
    let mut calc = Calculator::new();
    enter(&mut calc, "4");
    assert_eq!(submit(&mut calc), Submission::Ran(Dispatch::Refused));
    assert_eq!(calc.stack().to_vec(), bits(&[4.0]));
    assert_eq!(calc.previous().as_str(), "4");
    assert_eq!(calc.line().as_str(), "");
}

#[test]
fn empty_submit_after_a_number_runs_an_operation_of_that_name() {
    let mut calc = Calculator::new();
    let declarations = vec![Declaration { name: "1".to_string(), arity: 1 }];
    calc.load_lua(&declarations, None);
    enter(&mut calc, "1");
    assert_eq!(calc.stack().to_vec(), bits(&[1.0]));
    match submit(&mut calc) {
        Submission::Ran(Dispatch::Call(call)) => {
            assert_eq!(call.operation, Operation::Lua { name: "1".to_string(), arity: 1 });
            assert!(!call.record);
        }
        other => panic!("unexpected {:?}", other),
    }
}

#[test]
fn empty_submit_on_a_fresh_calculator_does_nothing() {
    let mut calc = Calculator::new();
    assert_eq!(submit(&mut calc), Submission::Ran(Dispatch::Refused));
    assert_eq!(calc.stack().len(), 0);
    assert_eq!(calc.previous().as_str(), "");
}

#[test]
fn operator_is_applied_and_becomes_the_previous_text() {
    let mut calc = Calculator::new();
    enter(&mut calc, "2");
    enter(&mut calc, "3");
    match enter(&mut calc, "+") {
        Submission::Ran(Dispatch::Call(call)) => assert!(call.record),
        other => panic!("unexpected {:?}", other),
    }
    assert_eq!(calc.stack().to_vec(), bits(&[5.0]));
    assert_eq!(calc.previous().as_str(), "+");
    assert_eq!(calc.line().as_str(), "");
}

#[test]
fn empty_submit_repeats_the_operator_and_fails_silently_on_one_value() {
    let mut calc = Calculator::new();
    enter(&mut calc, "2");
    enter(&mut calc, "3");
    enter(&mut calc, "+");
    assert_eq!(calc.stack().to_vec(), bits(&[5.0]));
    assert_eq!(submit(&mut calc), Submission::Ran(Dispatch::Refused));
    assert_eq!(calc.stack().to_vec(), bits(&[5.0]));
    assert_eq!(calc.previous().as_str(), "+");
    assert_eq!(calc.errors().len(), 0);
}

#[test]
fn empty_submit_repeats_the_operator_on_the_current_stack() {
    let mut calc = Calculator::new();
    enter(&mut calc, "1");
    enter(&mut calc, "2");
    enter(&mut calc, "3");
    enter(&mut calc, "+");
    assert_eq!(calc.stack().to_vec(), bits(&[1.0, 5.0]));
    match submit(&mut calc) {
        Submission::Ran(Dispatch::Call(call)) => assert!(!call.record),
        other => panic!("unexpected {:?}", other),
    }
    assert_eq!(calc.stack().to_vec(), bits(&[6.0]));
    assert_eq!(calc.previous().as_str(), "+");
}

#[test]
fn operator_applied_in_the_library_is_recorded_and_repeated() {
    let mut calc = Calculator::new();
    enter(&mut calc, "1");
    enter(&mut calc, "2");
    assert_eq!(enter(&mut calc, "Swap"), Submission::Ran(Dispatch::Applied));
    assert_eq!(calc.stack().to_vec(), bits(&[2.0, 1.0]));
    assert_eq!(calc.previous().as_str(), "Swap");
    assert_eq!(calc.line().as_str(), "");
    assert_eq!(submit(&mut calc), Submission::Ran(Dispatch::Applied));
    assert_eq!(calc.stack().to_vec(), bits(&[1.0, 2.0]));
    assert_eq!(calc.previous().as_str(), "Swap");
}

#[test]
fn refused_operator_stays_on_the_line_for_editing() {
    let mut calc = Calculator::new();
    enter(&mut calc, "5");
    assert_eq!(enter(&mut calc, "+"), Submission::Ran(Dispatch::Refused));
    assert_eq!(calc.line().as_str(), "+");
    assert_eq!(calc.previous().as_str(), "5");
    assert_eq!(calc.stack().to_vec(), bits(&[5.0]));
    assert_eq!(enter(&mut calc, "x"), Submission::Ran(Dispatch::Refused));
    assert_eq!(calc.line().as_str(), "+x");
    assert_eq!(calc.previous().as_str(), "5");
}

#[test]
fn failed_call_keeps_the_line_and_the_previous_text() {
    let mut calc = Calculator::new();
    enter(&mut calc, "9");
    type_text(&mut calc, "sqrt");
    assert_eq!(calc.handle(Event::Submit), Reaction::Submit);
    let call = match calc.submit(None) {
        Submission::Ran(Dispatch::Call(call)) => call,
        other => panic!("unexpected {:?}", other),
    };
    assert_eq!(calc.line().as_str(), "sqrt");
    let settled = calc.complete(&call, Err("domain".to_string()));
    assert_eq!(settled, Settled::Failed(Event::PushError("domain".to_string())));
    assert_eq!(calc.line().as_str(), "sqrt");
    assert_eq!(calc.previous().as_str(), "9");
    assert_eq!(calc.stack().to_vec(), bits(&[9.0]));
}

#[test]
fn scripted_operator_from_the_line_is_recorded_on_success() {
    let mut calc = Calculator::new();
    let declarations = vec![Declaration { name: "Twice".to_string(), arity: 1 }];
    calc.load_declared(Runtime::Uiua, &declarations, None);
    enter(&mut calc, "21");
    type_text(&mut calc, "TWICE");
    let call = match calc.submit(None) {
        Submission::Ran(Dispatch::Call(call)) => call,
        other => panic!("unexpected {:?}", other),
    };
    assert_eq!(call.operation, Operation::Uiua { name: "Twice".to_string(), arity: 1 });
    assert_eq!(call.args, bits(&[21.0]));
    assert!(call.record);
    assert_eq!(calc.previous().as_str(), "21");
    assert_eq!(calc.complete(&call, Ok(bits(&[42.0]))), Settled::Applied);
    assert_eq!(calc.stack().to_vec(), bits(&[42.0]));
    assert_eq!(calc.previous().as_str(), "TWICE");
    assert_eq!(calc.line().as_str(), "");
}

#[test]
fn number_wins_over_an_operator_of_the_same_name() {
    let mut calc = Calculator::new();
    let declarations = vec![Declaration { name: "7".to_string(), arity: 0 }];
    calc.load_lua(&declarations, None);
    assert_eq!(enter(&mut calc, "7"), Submission::Pushed);
    assert_eq!(calc.stack().to_vec(), bits(&[7.0]));
}

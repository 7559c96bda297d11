//! Laws that relate the operations of the calculator to one another.

use crate::builtin::{builtin_named, Builtin};
use crate::errors::{expired, expired_times, ERROR_LIFETIME_MILLIS};
use crate::event::EventView;
use crate::registry::{
    absorbed, builtin_table, declared, resolve, DeclarationView, OperationView, Runtime,
};
use crate::scripts::{gathered, invocation_outcome};
use crate::stack::{replaced, top};
use crate::state::{
    reaction_to, CallView, DispatchView, Reaction, SettledView, State, SubmissionView,
};
use crate::text::lowercase;
use vstd::prelude::*;

verus! {

/// A binary built-in takes both operands, in stack order, and leaves what
/// came of them in their place: on a stack that ends in `a`, `b` the host is
/// asked to evaluate the operator on exactly `a`, `b`, and its result stands
/// where they stood. `swap` needs no host: it leaves `b`, `a`.
pub proof fn law_binary_builtin_replaces_its_operands(
    state: State,
    text: Seq<char>,
    operator: Builtin,
    rest: Seq<u64>,
    a: u64,
    b: u64,
    result: u64,
)
    requires
        resolve(state.registry, text) == Some(OperationView::Native(operator)),
        operator.spec_arity() == 2,
        state.stack == rest + seq![a, b],
    ensures
        operator != Builtin::Swap ==> {
            let call = CallView {
                operation: OperationView::Native(operator),
                args: seq![a, b],
                record: false,
            };
            &&& state.operate(text, false) == DispatchView::Call(call)
            &&& state.operated(text, false) == state
            &&& state.settle(call, Ok(seq![result])) == SettledView::Applied
            &&& state.settled(call, Ok(seq![result])).stack == rest.push(result)
        },
        operator == Builtin::Swap ==> {
            &&& state.operate(text, false) == DispatchView::Applied
            &&& state.operated(text, false).stack == rest + seq![b, a]
        },
{
    let args = top(state.stack, 2);
    assert(args =~= seq![a, b]);
    assert(state.stack.subrange(0, state.stack.len() - 2) =~= rest);
    assert(rest + seq![result] =~= rest.push(result));
}

/// An operation that finds fewer operands than it takes is refused, and
/// nothing changes: neither the stack nor the input line, whether the name
/// was dispatched directly or submitted from the line.
pub proof fn law_too_few_operands_change_nothing(
    state: State,
    text: Seq<char>,
    operation: OperationView,
    record: bool,
)
    requires
        resolve(state.registry, text) == Some(operation),
        state.stack.len() < operation.arity(),
    ensures
        state.operate(text, record) == DispatchView::Refused,
        state.operated(text, record) == state,
        state.line == text && text.len() > 0 ==> {
            &&& state.submit(None) == SubmissionView::Ran(DispatchView::Refused)
            &&& state.submitted(None) == state
        },
{
}

/// A name that is not registered is refused, and nothing changes.
pub proof fn law_unknown_name_changes_nothing(state: State, text: Seq<char>, record: bool)
    requires
        resolve(state.registry, text).is_none(),
    ensures
        state.operate(text, record) == DispatchView::Refused,
        state.operated(text, record) == state,
{
}

/// A call that fails leaves the whole state as it was, the stack value for
/// value, and answers with the event that carries the failure's message.
pub proof fn law_failed_call_changes_nothing(state: State, call: CallView, message: Seq<char>)
    ensures
        state.settled(call, Err(message)) == state,
        state.settle(call, Err(message)) == SettledView::Failed(EventView::PushError(message)),
{
}

/// A call into the array-language runtime yields numbers only if every value
/// that the runtime left is a number, and then all of them in order; else it
/// yields the failure of the first value that is none.
pub proof fn law_drained_values_are_all_numbers_or_fail(drained: Seq<Result<u64, Seq<char>>>)
    ensures
        match gathered(drained) {
            Ok(numbers) => {
                &&& numbers.len() == drained.len()
                &&& forall|i: int|
                    0 <= i < drained.len() ==> drained[i] == Ok::<u64, Seq<char>>(
                        #[trigger] numbers[i],
                    )
            },
            Err(message) => exists|i: int|
                {
                    &&& 0 <= i < drained.len()
                    &&& #[trigger] drained[i] == Err::<u64, Seq<char>>(message)
                    &&& forall|j: int| 0 <= j < i ==> (#[trigger] drained[j]) is Ok
                },
        },
        invocation_outcome(Ok(()), drained) == gathered(drained),
        forall|message: Seq<char>|
            invocation_outcome(Err(message), drained) == Err::<Seq<u64>, Seq<char>>(message),
    decreases drained.len(),
{
    if drained.len() > 0 {
        let front = drained.drop_last();
        law_drained_values_are_all_numbers_or_fail(front);
        match gathered(front) {
            Err(message) => {
                let i = choose|i: int|
                    {
                        &&& 0 <= i < front.len()
                        &&& #[trigger] front[i] == Err::<u64, Seq<char>>(message)
                        &&& forall|j: int| 0 <= j < i ==> (#[trigger] front[j]) is Ok
                    };
                assert(drained[i] == front[i]);
                assert forall|j: int| 0 <= j < i implies (#[trigger] drained[j]) is Ok by {
                    assert(drained[j] == front[j]);
                }
            },
            Ok(numbers) => {
                match drained.last() {
                    Ok(number) => {
                        let all = numbers.push(number);
                        assert forall|i: int| 0 <= i < drained.len() implies drained[i] == Ok::<
                            u64,
                            Seq<char>,
                        >(#[trigger] all[i]) by {
                            if i < front.len() {
                                assert(drained[i] == front[i]);
                            }
                        }
                    },
                    Err(message) => {
                        let i = drained.len() - 1;
                        assert(drained[i] == Err::<u64, Seq<char>>(message));
                        assert forall|j: int| 0 <= j < i implies (#[trigger] drained[j]) is Ok by {
                            assert(drained[j] == front[j]);
                            assert(front[j] == Ok::<u64, Seq<char>>(numbers[j]));
                        }
                    },
                }
            },
        }
    }
}

/// A dispatch and a completion are all or nothing. After a dispatch the
/// stack is what it was, or it is what it was with all the operands of the
/// operation that the text names replaced by what that operation yields on
/// them. After a completion it is what it was, or what it was with all the
/// operands of the call replaced by all the results.
pub proof fn law_replacement_is_all_or_nothing(
    state: State,
    text: Seq<char>,
    call: CallView,
    outcome: Result<Seq<u64>, Seq<char>>,
    record: bool,
)
    ensures
        state.operated(text, record).stack == state.stack || ({
            &&& resolve(state.registry, text) matches Some(operation)
            &&& operation.arity() <= state.stack.len()
            &&& state.exact(operation) matches Some(results)
            &&& state.operated(text, record).stack == replaced(
                state.stack,
                operation.arity(),
                results,
            )
        }),
        state.settled(call, outcome).stack == state.stack || ({
            &&& outcome matches Ok(results)
            &&& call.operation.arity() <= state.stack.len()
            &&& state.settled(call, outcome).stack == replaced(
                state.stack,
                call.operation.arity(),
                results,
            )
        }),
{
}

/// A dispatch leaves the input line and the previous text as they are,
/// whatever it answers: by name, from the line or from the previous text. To
/// record the line is the matter of the submission, which does so exactly
/// when the operation has been applied.
pub proof fn law_dispatch_leaves_the_line_to_the_submission(state: State, text: Seq<char>)
    ensures
        state.operated(text, false).line == state.line,
        state.operated(text, false).previous == state.previous,
        state.operated(text, false).registry == state.registry,
        state.operated(text, false).errors == state.errors,
        state.operate(text, true) == DispatchView::Applied ==> state.operated(text, true) == (State {
            line: Seq::<char>::empty(),
            previous: state.line,
            ..state.operated(text, false)
        }),
        !(state.operate(text, true) == DispatchView::Applied) ==> state.operated(text, true)
            == state,
        state.operate(text, true) matches DispatchView::Call(call) ==> call.record
            && state.operate(text, false) == DispatchView::Call(
            CallView { record: false, ..call },
        ),
{
}

/// A replacement touches the operands only: the values below them stay where
/// they are, and the results stand above them in the order in which they
/// came.
pub proof fn law_replacement_keeps_what_lies_below(stack: Seq<u64>, k: nat, results: Seq<u64>)
    requires
        k <= stack.len(),
    ensures
        replaced(stack, k, results).len() == stack.len() - k + results.len(),
        replaced(stack, k, results).take(stack.len() - k) == stack.take(stack.len() - k),
        replaced(stack, k, results).skip(stack.len() - k) == results,
        top(replaced(stack, k, results), results.len()) == results,
        replaced(stack, k, top(stack, k)) == stack,
{
    let after = replaced(stack, k, results);
    assert(after.take(stack.len() - k) =~= stack.take(stack.len() - k));
    assert(after.skip(stack.len() - k) =~= results);
    assert(top(after, results.len()) =~= results);
    assert(replaced(stack, k, top(stack, k)) =~= stack);
}

/// After an operator was submitted from the line and applied, an empty
/// submission dispatches the same text again, on the stack as it now is, and
/// leaves the previous text as it is.
pub proof fn law_empty_submit_repeats_the_operator(state: State)
    requires
        state.line.len() > 0,
        state.submit(None) == SubmissionView::Ran(DispatchView::Applied),
    ensures
        ({
            let next = state.submitted(None);
            &&& next.previous == state.line
            &&& next.line.len() == 0
            &&& next.submit(None) == SubmissionView::Ran(next.operate(state.line, false))
            &&& next.submitted(None) == next.operated(state.line, false)
            &&& next.submitted(None).previous == state.line
        }),
{
}

/// The same holds where the host evaluated the operator: once the call that
/// the submission asked for has been completed with results, an empty
/// submission dispatches the submitted text again.
pub proof fn law_empty_submit_repeats_the_call(state: State, call: CallView, results: Seq<u64>)
    requires
        state.line.len() > 0,
        state.submit(None) == SubmissionView::Ran(DispatchView::Call(call)),
    ensures
        call.record,
        state.submitted(None) == state,
        state.settle(call, Ok(results)) == SettledView::Applied,
        ({
            let next = state.settled(call, Ok(results));
            &&& next.previous == state.line
            &&& next.line.len() == 0
            &&& next.submit(None) == SubmissionView::Ran(next.operate(state.line, false))
            &&& next.submitted(None) == next.operated(state.line, false)
        }),
{
}

/// A submission that is refused, or whose call fails, leaves the previous
/// text and the input line as they were.
pub proof fn law_failed_submission_keeps_previous(
    state: State,
    call: CallView,
    message: Seq<char>,
)
    ensures
        state.submit(None) == SubmissionView::Ran(DispatchView::Refused) ==> state.submitted(None)
            == state,
        state.submit(None) == SubmissionView::Ran(DispatchView::Call(call)) ==> state.submitted(
            None,
        ).settled(call, Err(message)) == state,
{
}

/// Two texts with the same lower-case form name the same operation: they
/// resolve alike, and to operate on one does what to operate on the other
/// does.
pub proof fn law_operate_ignores_case(state: State, a: Seq<char>, b: Seq<char>, record: bool)
    requires
        lowercase(a) == lowercase(b),
    ensures
        resolve(state.registry, a) == resolve(state.registry, b),
        state.operate(a, record) == state.operate(b, record),
        state.operated(a, record) == state.operated(b, record),
{
}

/// An operation that a script declared under a name is found by every text
/// with the same lower-case form as that name, whatever stood there before.
pub proof fn law_declared_is_found_in_any_case(
    registry: Map<Seq<char>, OperationView>,
    runtime: Runtime,
    name: Seq<char>,
    arity: nat,
    query: Seq<char>,
)
    requires
        lowercase(query) == lowercase(name),
    ensures
        resolve(declared(registry, runtime, name, arity), query) == Some(
            OperationView::scripted(runtime, name, arity),
        ),
{
}

/// A declaration leaves every entry under another key as it was.
pub proof fn law_declared_keeps_other_names(
    registry: Map<Seq<char>, OperationView>,
    runtime: Runtime,
    name: Seq<char>,
    arity: nat,
    query: Seq<char>,
)
    requires
        lowercase(query) != lowercase(name),
    ensures
        resolve(declared(registry, runtime, name, arity), query) == resolve(registry, query),
{
}

/// Declarations take no name away: what was found before is still found,
/// though it may now be another operation, and a text that none of the
/// declarations names finds what it found before.
pub proof fn law_absorbing_keeps_every_name(
    registry: Map<Seq<char>, OperationView>,
    runtime: Runtime,
    declarations: Seq<DeclarationView>,
    query: Seq<char>,
)
    ensures
        resolve(registry, query).is_some() ==> resolve(
            absorbed(registry, runtime, declarations),
            query,
        ).is_some(),
        (forall|i: int|
            0 <= i < declarations.len() ==> lowercase(#[trigger] declarations[i].name)
                != lowercase(query)) ==> resolve(
            absorbed(registry, runtime, declarations),
            query,
        ) == resolve(registry, query),
    decreases declarations.len(),
{
    if declarations.len() > 0 {
        law_absorbing_keeps_every_name(registry, runtime, declarations.drop_last(), query);
        if forall|i: int|
            0 <= i < declarations.len() ==> lowercase(#[trigger] declarations[i].name)
                != lowercase(query) {
            assert forall|i: int| 0 <= i < declarations.drop_last().len() implies lowercase(
                #[trigger] declarations.drop_last()[i].name,
            ) != lowercase(query) by {
                assert(declarations.drop_last()[i] == declarations[i]);
            }
            assert(declarations.last() == declarations[declarations.len() - 1]);
        }
    }
}

/// Declarations bring nothing but themselves: every entry of the registry
/// that has absorbed them was there before, or is one of the declared
/// operations, of that runtime, under the lower-case form of its name.
pub proof fn law_absorbed_entries_come_from_declarations(
    registry: Map<Seq<char>, OperationView>,
    runtime: Runtime,
    declarations: Seq<DeclarationView>,
    key: Seq<char>,
)
    requires
        absorbed(registry, runtime, declarations).contains_key(key),
    ensures
        (registry.contains_key(key) && absorbed(registry, runtime, declarations)[key]
            == registry[key]) || (exists|i: int|
            {
                &&& 0 <= i < declarations.len()
                &&& lowercase(#[trigger] declarations[i].name) == key
                &&& absorbed(registry, runtime, declarations)[key] == OperationView::scripted(
                    runtime,
                    declarations[i].name,
                    declarations[i].arity,
                )
            }),
    decreases declarations.len(),
{
    if declarations.len() > 0 {
        let front = declarations.drop_last();
        let last = declarations.len() - 1;
        if lowercase(declarations.last().name) == key {
            assert(lowercase(declarations[last].name) == key);
        } else {
            law_absorbed_entries_come_from_declarations(registry, runtime, front, key);
            if !(registry.contains_key(key) && absorbed(registry, runtime, front)[key]
                == registry[key]) {
                let i = choose|i: int|
                    {
                        &&& 0 <= i < front.len()
                        &&& lowercase(#[trigger] front[i].name) == key
                        &&& absorbed(registry, runtime, front)[key] == OperationView::scripted(
                            runtime,
                            front[i].name,
                            front[i].arity,
                        )
                    };
                assert(declarations[i] == front[i]);
                assert(lowercase(declarations[i].name) == key);
            }
        }
    }
}

/// Of several declarations of one name, in any case, the last one stands.
pub proof fn law_last_declaration_wins(
    registry: Map<Seq<char>, OperationView>,
    runtime: Runtime,
    declarations: Seq<DeclarationView>,
    last: int,
    query: Seq<char>,
)
    requires
        0 <= last < declarations.len(),
        lowercase(query) == lowercase(declarations[last].name),
        forall|i: int|
            last < i < declarations.len() ==> lowercase(#[trigger] declarations[i].name)
                != lowercase(query),
    ensures
        resolve(absorbed(registry, runtime, declarations), query) == Some(
            OperationView::scripted(
                runtime,
                declarations[last].name,
                declarations[last].arity,
            ),
        ),
    decreases declarations.len(),
{
    if last < declarations.len() - 1 {
        assert forall|i: int| last < i < declarations.drop_last().len() implies lowercase(
            #[trigger] declarations.drop_last()[i].name,
        ) != lowercase(query) by {
            assert(declarations.drop_last()[i] == declarations[i]);
        }
        assert(declarations.drop_last()[last] == declarations[last]);
        law_last_declaration_wins(registry, runtime, declarations.drop_last(), last, query);
        assert(declarations.last() == declarations[declarations.len() - 1]);
    }
}

/// An operation that the host evaluates takes all its operands, in stack
/// order, and leaves the results in their place, in the order in which they
/// came; until the results are in, the stack still holds the operands.
pub proof fn law_call_replaces_the_operands(
    state: State,
    text: Seq<char>,
    call: CallView,
    results: Seq<u64>,
    record: bool,
)
    requires
        state.operate(text, record) == DispatchView::Call(call),
    ensures
        resolve(state.registry, text) == Some(call.operation),
        call.operation.arity() <= state.stack.len(),
        call.args == top(state.stack, call.operation.arity()),
        call.args.len() == call.operation.arity(),
        state.operated(text, record) == state,
        state.settle(call, Ok(results)) == SettledView::Applied,
        state.settled(call, Ok(results)).stack == replaced(
            state.stack,
            call.operation.arity(),
            results,
        ),
        state.settled(call, Ok(results)).stack.len() == state.stack.len() - call.operation.arity()
            + results.len(),
{
}

/// A built-in is found by every text whose lower-case form is its name.
pub proof fn law_builtin_is_found_in_any_case(query: Seq<char>, operator: Builtin)
    requires
        builtin_named(lowercase(query)) == Some(operator),
    ensures
        resolve(builtin_table(), query) == Some(OperationView::Native(operator)),
{
}

/// A full reset empties the stack, the input line and the previous text. It
/// removes no operation from the registry and no message from the error
/// queue, and it asks for nothing: an expiry that was asked for before the
/// reset still arrives, and is handled like any other.
pub proof fn law_reset_keeps_registry_and_errors(state: State)
    ensures
        state.stepped(EventView::Reset) == state.reset(),
        state.reset().stack.len() == 0,
        state.reset().line.len() == 0,
        state.reset().previous.len() == 0,
        state.reset().registry == state.registry,
        state.reset().errors == state.errors,
        reaction_to(EventView::Reset) == Reaction::Continue,
        state.reset().stepped(EventView::PopError).errors == state.stepped(
            EventView::PopError,
        ).errors,
{
}

/// The registry changes only when scripts are loaded: no event, dispatch,
/// completion or submission adds, replaces or removes an operation.
pub proof fn law_registry_changes_only_by_loading(
    state: State,
    event: EventView,
    key: Seq<char>,
    record: bool,
    call: CallView,
    outcome: Result<Seq<u64>, Seq<char>>,
    literal: Option<u64>,
)
    ensures
        state.stepped(event).registry == state.registry,
        state.dispatched(key, record).registry == state.registry,
        state.settled(call, outcome).registry == state.registry,
        state.submitted(literal).registry == state.registry,
{
}

/// The error queue changes only by its own two events: no dispatch,
/// completion, submission or load touches it, and of the events only a
/// push-error and a pop-error do. A failed call does not enter the queue by
/// itself; it answers with the event that will.
pub proof fn law_errors_change_only_by_their_events(
    state: State,
    event: EventView,
    key: Seq<char>,
    record: bool,
    call: CallView,
    outcome: Result<Seq<u64>, Seq<char>>,
    literal: Option<u64>,
    runtime: Runtime,
    declarations: Seq<DeclarationView>,
)
    ensures
        !(event is PushError) && !(event is PopError) ==> state.stepped(event).errors
            == state.errors,
        state.dispatched(key, record).errors == state.errors,
        state.settled(call, outcome).errors == state.errors,
        state.submitted(literal).errors == state.errors,
        state.loaded(runtime, declarations).errors == state.errors,
{
}

/// Every message that joins the queue asks for one expiry, after the fixed
/// delay, and joins at the tail; every expiry removes the head.
pub proof fn law_each_message_asks_for_its_expiry(state: State, message: Seq<char>)
    ensures
        reaction_to(EventView::PushError(message)) == Reaction::Expire(ERROR_LIFETIME_MILLIS),
        state.stepped(EventView::PushError(message)).errors == state.errors.push(message),
        state.stepped(EventView::PushError(message)).stepped(EventView::PopError).errors == if state.errors.len()
            == 0 {
            Seq::<Seq<char>>::empty()
        } else {
            state.errors.drop_first().push(message)
        },
{
    let pushed = state.errors.push(message);
    if state.errors.len() == 0 {
        assert(pushed.drop_first() =~= Seq::<Seq<char>>::empty());
    } else {
        assert(pushed.drop_first() =~= state.errors.drop_first().push(message));
    }
}

/// Messages leave in the order in which they came: after `n` expiries the
/// queue has lost its `n` oldest messages, and all of them once `n` reaches
/// its length. An expiry that finds the queue empty changes nothing.
pub proof fn law_expiry_is_first_in_first_out(queue: Seq<Seq<char>>, n: nat)
    ensures
        expired_times(queue, n) == if n <= queue.len() {
            queue.skip(n as int)
        } else {
            Seq::<Seq<char>>::empty()
        },
        expired(Seq::<Seq<char>>::empty()) == Seq::<Seq<char>>::empty(),
    decreases n,
{
    if n == 0 {
        assert(queue.skip(0) =~= queue);
    } else {
        law_expiry_is_first_in_first_out(queue, (n - 1) as nat);
        let before = expired_times(queue, (n - 1) as nat);
        if n <= queue.len() {
            assert(before == queue.skip(n - 1));
            assert(before.drop_first() =~= queue.skip(n as int));
        } else {
            assert(before.len() == 0);
        }
    }
}

/// A message that arrives while others wait does not disturb them: the
/// oldest still leaves first, and the newcomer stays last.
pub proof fn law_arrival_keeps_order(queue: Seq<Seq<char>>, message: Seq<char>)
    requires
        queue.len() > 0,
    ensures
        expired(queue.push(message)) == expired(queue).push(message),
        queue.push(message).first() == queue.first(),
        queue.push(message).last() == message,
{
    assert(queue.push(message).drop_first() =~= queue.drop_first().push(message));
}

/// A number is pushed as it is and the line that held it becomes the
/// previous text. Where that text is not the name of an operation, an empty
/// submission afterwards changes nothing: the number is not pushed again.
pub proof fn law_number_is_pushed_once(state: State, value: u64)
    requires
        resolve(state.registry, state.line).is_none(),
    ensures
        state.submit(Some(value)) == SubmissionView::Pushed,
        ({
            let next = state.submitted(Some(value));
            &&& next.stack == state.stack.push(value)
            &&& next.previous == state.line
            &&& next.line.len() == 0
            &&& next.submit(None) == SubmissionView::Ran(DispatchView::Refused)
            &&& next.submitted(None) == next
        }),
{
}

} // verus!

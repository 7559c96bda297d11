//! The calculator: the state that the consumer loop owns, and the functions
//! through which events, dispatches and loads change it.

use crate::errors::{ErrorQueue, ERROR_LIFETIME_MILLIS};
use crate::event::{event_view, Event};
use crate::registry::{
    builtin_table, declaration_views, Declaration, Operation, Registry, Runtime,
};
use crate::scripts::{load_failure_message, load_notice, outcome_view, text_view};
use crate::stack::ValueStack;
use crate::state::{
    raised, reaction_to, Call, Dispatch, DispatchView, Reaction, Settled, SettledView, State,
    Submission, SubmissionView,
};
use vstd::prelude::*;

verus! {

/// The calculator's state. Only the consumer loop touches it.
pub struct Calculator {
    stack: ValueStack,
    line: String,
    previous: String,
    registry: Registry,
    errors: ErrorQueue,
}

impl View for Calculator {
    type V = State;

    closed spec fn view(&self) -> State {
        State {
            stack: self.stack@,
            line: self.line@,
            previous: self.previous@,
            registry: self.registry@,
            errors: self.errors@,
        }
    }
}

impl Calculator {
    /// A calculator with an empty stack, no text, no messages, and the
    /// built-in operators.
    pub fn new() -> (c: Self)
        ensures
            c@ == (State {
                stack: Seq::<u64>::empty(),
                line: Seq::<char>::empty(),
                previous: Seq::<char>::empty(),
                registry: builtin_table(),
                errors: Seq::<Seq<char>>::empty(),
            }),
    {
        Calculator {
            stack: ValueStack::new(),
            line: String::new(),
            previous: String::new(),
            registry: Registry::with_builtins(),
            errors: ErrorQueue::new(),
        }
    }

    /// The value stack.
    pub fn stack(&self) -> (s: &ValueStack)
        ensures
            s@ == self@.stack,
    {
        &self.stack
    }

    /// The text being typed.
    pub fn line(&self) -> (s: &String)
        ensures
            s@ == self@.line,
    {
        &self.line
    }

    /// The last text that was submitted with success.
    pub fn previous(&self) -> (s: &String)
        ensures
            s@ == self@.previous,
    {
        &self.previous
    }

    /// The operations by name.
    pub fn registry(&self) -> (r: &Registry)
        ensures
            r@ == self@.registry,
    {
        &self.registry
    }

    /// The messages on display.
    pub fn errors(&self) -> (q: &ErrorQueue)
        ensures
            q@ == self@.errors,
    {
        &self.errors
    }

    /// Makes the input line the previous text and clears it.
    fn record_line(&mut self)
        ensures
            final(self)@ == (State {
                line: Seq::<char>::empty(),
                previous: old(self)@.line,
                ..old(self)@
            }),
    {
        std::mem::swap(&mut self.previous, &mut self.line);
        self.line.clear();
    }

    /// Applies the operation that stands under `key`, taken as written, as
    /// far as the library can. Either the operands are replaced by the
    /// results, or nothing changes: where no operation stands under `key` or
    /// the stack holds too few operands, and where the host has to evaluate,
    /// which it does on copies of the operands. The input line and the
    /// previous text are not touched.
    pub fn dispatch(&mut self, key: &str) -> (d: Dispatch)
        ensures
            d@ == old(self)@.dispatch(key@, false),
            final(self)@ == old(self)@.dispatched(key@, false),
    {
        let operation = match self.registry.get(key) {
            Some(operation) => operation,
            None => {
                return Dispatch::Refused;
            },
        };
        let arity = operation.arity();
        if self.stack.len() < arity {
            return Dispatch::Refused;
        }
        let args = self.stack.top(arity);
        let exact = match &operation {
            Operation::Native(b) => b.exact(&args),
            _ => None,
        };
        match exact {
            Some(results) => {
                self.stack.replace_top(arity, &results);
                Dispatch::Applied
            },
            None => Dispatch::Call(Call { operation, args, record: false }),
        }
    }

    /// Applies the operation that `text` names, whatever its case: the one
    /// that stands under the lower-case form of `text`.
    pub fn operate(&mut self, text: &str) -> (d: Dispatch)
        ensures
            d@ == old(self)@.operate(text@, false),
            final(self)@ == old(self)@.operated(text@, false),
    {
        let key = text.to_lowercase();
        self.dispatch(key.as_str())
    }

    /// Dispatches the input line as an operator name. The line and the
    /// previous text stay as they are, whatever the answer: to record the
    /// line is the matter of `submit`.
    pub fn operate_from_input(&mut self) -> (d: Dispatch)
        ensures
            d@ == old(self)@.operate(old(self)@.line, false),
            final(self)@ == old(self)@.operated(old(self)@.line, false),
    {
        let key = self.line.as_str().to_lowercase();
        self.dispatch(key.as_str())
    }

    /// Dispatches the previous text as an operator name, and leaves it as it
    /// is.
    pub fn operate_previous(&mut self) -> (d: Dispatch)
        ensures
            d@ == old(self)@.operate(old(self)@.previous, false),
            final(self)@ == old(self)@.operated(old(self)@.previous, false),
    {
        let key = self.previous.as_str().to_lowercase();
        self.dispatch(key.as_str())
    }

    /// Takes the outcome of a call that the host evaluated. With results, the
    /// operands are removed and the results appended in order; with a
    /// failure, nothing changes and the answer carries the event to send.
    pub fn complete(&mut self, call: &Call, outcome: Result<Vec<u64>, String>) -> (s: Settled)
        ensures
            s@ == old(self)@.settle(call@, outcome_view(outcome)),
            final(self)@ == old(self)@.settled(call@, outcome_view(outcome)),
    {
        match outcome {
            Err(message) => Settled::Failed(Event::PushError(message)),
            Ok(results) => {
                let arity = call.operation.arity();
                if self.stack.len() < arity {
                    Settled::Refused
                } else {
                    self.stack.replace_top(arity, &results);
                    if call.record {
                        self.record_line();
                    }
                    Settled::Applied
                }
            },
        }
    }

    /// Applies the operation that `text` names and has `evaluate` do what the
    /// library cannot: one call for the whole of a dispatch and its
    /// completion. `evaluate` is called at most once, on the request that the
    /// dispatch made, and its outcome is completed at once.
    pub fn operate_with<F>(&mut self, text: &str, evaluate: F) -> (s: Settled) where
        F: FnOnce(&Call) -> Result<Vec<u64>, String>,

        requires
            forall|call: Call|
                old(self)@.operate(text@, false) == DispatchView::Call(call@) ==> call_requires(
                    evaluate,
                    (&call,),
                ),
        ensures
            match old(self)@.operate(text@, false) {
                DispatchView::Refused => s@ == SettledView::Refused && final(self)@ == old(self)@,
                DispatchView::Applied => s@ == SettledView::Applied && final(self)@ == old(
                    self,
                )@.operated(text@, false),
                DispatchView::Call(request) => exists|
                    call: Call,
                    outcome: Result<Vec<u64>, String>,
                |
                    {
                        &&& call@ == request
                        &&& #[trigger] call_ensures(evaluate, (&call,), outcome)
                        &&& s@ == old(self)@.settle(request, outcome_view(outcome))
                        &&& final(self)@ == old(self)@.settled(request, outcome_view(outcome))
                    },
            },
    {
        match self.operate(text) {
            Dispatch::Refused => Settled::Refused,
            Dispatch::Applied => Settled::Applied,
            Dispatch::Call(call) => {
                let outcome = evaluate(&call);
                let ghost seen = outcome;
                let settled = self.complete(&call, outcome);
                assert(call_ensures(evaluate, (&call,), seen));
                settled
            },
        }
    }

    /// Submits the input line. `literal` is the number that the line reads
    /// as, if it reads as one. A number is pushed, and the line becomes the
    /// previous text. An empty line dispatches the previous text again and
    /// leaves it as it is. Any other line is dispatched as an operator name;
    /// it becomes the previous text once the operation has been applied, and
    /// stays for editing if it is refused.
    pub fn submit(&mut self, literal: Option<u64>) -> (s: Submission)
        ensures
            s@ == old(self)@.submit(literal),
            final(self)@ == old(self)@.submitted(literal),
    {
        match literal {
            Some(value) => {
                self.stack.push(value);
                self.record_line();
                Submission::Pushed
            },
            None => {
                if self.line.as_str().is_empty() {
                    Submission::Ran(self.operate_previous())
                } else {
                    match self.operate_from_input() {
                        Dispatch::Refused => Submission::Ran(Dispatch::Refused),
                        Dispatch::Applied => {
                            self.record_line();
                            Submission::Ran(Dispatch::Applied)
                        },
                        Dispatch::Call(call) => Submission::Ran(
                            Dispatch::Call(
                                Call { operation: call.operation, args: call.args, record: true },
                            ),
                        ),
                    }
                }
            },
        }
    }

    /// Submits the input line and has `evaluate` do what the library cannot:
    /// one call for the whole of a submission and the completion of the call
    /// it may ask for. The answer is the event to send to the loop where the
    /// evaluation failed.
    pub fn submit_with<F>(&mut self, literal: Option<u64>, evaluate: F) -> (notice: Option<
        Event,
    >) where F: FnOnce(&Call) -> Result<Vec<u64>, String>
        requires
            forall|call: Call|
                old(self)@.submit(literal) == SubmissionView::Ran(DispatchView::Call(call@))
                    ==> call_requires(evaluate, (&call,)),
        ensures
            match old(self)@.submit(literal) {
                SubmissionView::Ran(DispatchView::Call(request)) => exists|
                    call: Call,
                    outcome: Result<Vec<u64>, String>,
                |
                    {
                        &&& call@ == request
                        &&& #[trigger] call_ensures(evaluate, (&call,), outcome)
                        &&& final(self)@ == old(self)@.settled(request, outcome_view(outcome))
                        &&& event_view(notice) == raised(outcome_view(outcome))
                    },
                _ => notice.is_none() && final(self)@ == old(self)@.submitted(literal),
            },
    {
        match self.submit(literal) {
            Submission::Ran(Dispatch::Call(call)) => {
                let outcome = evaluate(&call);
                let ghost seen = outcome;
                let settled = self.complete(&call, outcome);
                assert(call_ensures(evaluate, (&call,), seen));
                match settled {
                    Settled::Failed(event) => Some(event),
                    _ => None,
                }
            },
            _ => None,
        }
    }

    /// Clears the stack, the input line and the previous text. The registry
    /// and the error queue stay.
    pub fn reset(&mut self)
        ensures
            final(self)@ == old(self)@.reset(),
    {
        self.stack.clear();
        self.line.clear();
        self.previous.clear();
    }

    /// Handles one event of the loop and says what the loop does next.
    pub fn handle(&mut self, event: Event) -> (r: Reaction)
        ensures
            r == reaction_to(event@),
            final(self)@ == old(self)@.stepped(event@),
    {
        match event {
            Event::Quit => Reaction::Quit,
            Event::Submit => Reaction::Submit,
            Event::Tick => Reaction::Continue,
            Event::Char(c) => {
                self.line.push(c);
                Reaction::Continue
            },
            Event::Backspace => {
                let _ = self.line.pop();
                Reaction::Continue
            },
            Event::ClearInput => {
                self.line.clear();
                Reaction::Continue
            },
            Event::Reset => {
                self.reset();
                Reaction::Continue
            },
            Event::PushError(message) => {
                self.errors.push(message);
                Reaction::Expire(ERROR_LIFETIME_MILLIS)
            },
            Event::PopError => {
                self.errors.pop_oldest();
                Reaction::Continue
            },
        }
    }

    /// Registers what the scripts of `runtime` declared, in order, and
    /// reports a failed load. `failure` is the reason for which the load
    /// stopped, if it did; what was declared before that point is registered
    /// all the same. The answer is the event to send to the loop, if any.
    pub fn load_declared(
        &mut self,
        runtime: Runtime,
        declarations: &Vec<Declaration>,
        failure: Option<String>,
    ) -> (notice: Option<Event>)
        ensures
            final(self)@ == old(self)@.loaded(runtime, declaration_views(declarations@)),
            event_view(notice) == load_notice(runtime, text_view(failure)),
    {
        self.registry.register_all(runtime, declarations);
        match failure {
            None => None,
            Some(reason) => Some(
                Event::PushError(load_failure_message(runtime, reason.as_str())),
            ),
        }
    }

    /// Registers the operations that a general-purpose script declared
    /// through the registration callback, in the order of the calls.
    pub fn load_lua(&mut self, declarations: &Vec<Declaration>, failure: Option<String>) -> (notice:
        Option<Event>)
        ensures
            final(self)@ == old(self)@.loaded(Runtime::Lua, declaration_views(declarations@)),
            event_view(notice) == load_notice(Runtime::Lua, text_view(failure)),
    {
        self.load_declared(Runtime::Lua, declarations, failure)
    }

    /// Registers the functions that are bound in the array-language runtime
    /// after it has run its source: each under the lower-case form of its
    /// name, with the number of arguments of its own signature. The host
    /// lists them; where two names have the same lower-case form, the one
    /// that comes later in the list stands.
    pub fn load_uiua(&mut self, declarations: &Vec<Declaration>, failure: Option<String>) -> (notice:
        Option<Event>)
        ensures
            final(self)@ == old(self)@.loaded(Runtime::Uiua, declaration_views(declarations@)),
            event_view(notice) == load_notice(Runtime::Uiua, text_view(failure)),
    {
        self.load_declared(Runtime::Uiua, declarations, failure)
    }
}

} // verus!

//! The calculator's mathematical state and its transitions: what each
//! dispatch, completion, submission, event and load makes of it, and what it
//! answers.

use crate::errors::{expired, ERROR_LIFETIME_MILLIS};
use crate::event::{Event, EventView};
use crate::registry::{absorbed, DeclarationView, Operation, OperationView, Runtime};
use crate::stack::{replaced, top};
use crate::text::lowercase;
use vstd::prelude::*;

verus! {

/// The mathematical value of a [`Calculator`].
pub struct State {
    /// The value stack, bottom first.
    pub stack: Seq<u64>,
    /// The text being typed.
    pub line: Seq<char>,
    /// The last text that was submitted with success.
    pub previous: Seq<char>,
    /// The operations by name.
    pub registry: Map<Seq<char>, OperationView>,
    /// The messages on display, oldest first.
    pub errors: Seq<Seq<char>>,
}

/// A request to the host: evaluate `operation` on `args` and hand the outcome
/// to `Calculator::complete`. The operands are copies; the stack still holds
/// them.
#[derive(Debug, PartialEq, Eq)]
pub struct Call {
    pub operation: Operation,
    /// The operands, in stack order.
    pub args: Vec<u64>,
    /// Whether the input line becomes the previous text once the call has
    /// succeeded. A submission of the line sets it; no other request does.
    pub record: bool,
}

/// The mathematical value of a [`Call`].
pub struct CallView {
    pub operation: OperationView,
    pub args: Seq<u64>,
    pub record: bool,
}

impl View for Call {
    type V = CallView;

    open spec fn view(&self) -> CallView {
        CallView { operation: self.operation@, args: self.args@, record: self.record }
    }
}

/// What became of a dispatch.
#[derive(Debug, PartialEq, Eq)]
pub enum Dispatch {
    /// The name is not registered, or the stack holds too few operands.
    /// Nothing has changed.
    Refused,
    /// The operation ran inside the library; the stack holds its results.
    Applied,
    /// The operation needs the host. Nothing has changed yet.
    Call(Call),
}

/// The mathematical value of a [`Dispatch`].
pub enum DispatchView {
    Refused,
    Applied,
    Call(CallView),
}

impl View for Dispatch {
    type V = DispatchView;

    open spec fn view(&self) -> DispatchView {
        match self {
            Dispatch::Refused => DispatchView::Refused,
            Dispatch::Applied => DispatchView::Applied,
            Dispatch::Call(call) => DispatchView::Call(call@),
        }
    }
}

/// What became of a call that the host evaluated.
#[derive(Debug, PartialEq, Eq)]
pub enum Settled {
    /// The operands were replaced by the results.
    Applied,
    /// The stack no longer holds the operands. Nothing has changed.
    Refused,
    /// The evaluation failed. Nothing has changed; the event, which carries
    /// the failure's message, is to be sent to the loop.
    Failed(Event),
}

/// The mathematical value of a [`Settled`].
pub enum SettledView {
    Applied,
    Refused,
    Failed(EventView),
}

impl View for Settled {
    type V = SettledView;

    open spec fn view(&self) -> SettledView {
        match self {
            Settled::Applied => SettledView::Applied,
            Settled::Refused => SettledView::Refused,
            Settled::Failed(event) => SettledView::Failed(event@),
        }
    }
}

/// What became of a submission of the input line.
#[derive(Debug, PartialEq, Eq)]
pub enum Submission {
    /// The line was a number, which is now on the stack.
    Pushed,
    /// The line, or the previous text where the line was empty, went to the
    /// dispatch as an operator name.
    Ran(Dispatch),
}

/// The mathematical value of a [`Submission`].
pub enum SubmissionView {
    Pushed,
    Ran(DispatchView),
}

impl View for Submission {
    type V = SubmissionView;

    open spec fn view(&self) -> SubmissionView {
        match self {
            Submission::Pushed => SubmissionView::Pushed,
            Submission::Ran(d) => SubmissionView::Ran(d@),
        }
    }
}

/// What the consumer loop does after an event has been handled.
#[derive(Clone, Copy, Debug, PartialEq, Eq, Structural)]
pub enum Reaction {
    /// Nothing but to draw and wait for the next event.
    Continue,
    /// Leave the loop.
    Quit,
    /// Read the input line as a number and call `Calculator::submit` with
    /// what came of it.
    Submit,
    /// Send a pop-error event once this many milliseconds have passed.
    Expire(u64),
}

/// The reaction that an event calls for.
pub open spec fn reaction_to(event: EventView) -> Reaction {
    match event {
        EventView::Quit => Reaction::Quit,
        EventView::Submit => Reaction::Submit,
        EventView::PushError(_) => Reaction::Expire(ERROR_LIFETIME_MILLIS),
        _ => Reaction::Continue,
    }
}

/// The event that an evaluation raises: none with results, and with a
/// failure the push-error event that carries its message.
pub open spec fn raised(outcome: Result<Seq<u64>, Seq<char>>) -> Option<EventView> {
    match outcome {
        Ok(_) => None,
        Err(message) => Some(EventView::PushError(message)),
    }
}

impl State {
    /// The operation that stands under `key`, if the stack holds its
    /// operands.
    pub open spec fn target(self, key: Seq<char>) -> Option<OperationView> {
        match self.registry.get(key) {
            Some(operation) => if operation.arity() <= self.stack.len() {
                Some(operation)
            } else {
                None
            },
            None => None,
        }
    }

    /// What `operation` yields on the top of the stack where the library can
    /// tell, which is for the built-ins that only move bits.
    pub open spec fn exact(self, operation: OperationView) -> Option<Seq<u64>> {
        match operation {
            OperationView::Native(b) => b.spec_exact(top(self.stack, operation.arity())),
            _ => None,
        }
    }

    /// The state once `arity` operands have been replaced by `results`. With
    /// `record`, the input line has become the previous text.
    pub open spec fn applied(self, arity: nat, results: Seq<u64>, record: bool) -> State {
        State {
            stack: replaced(self.stack, arity, results),
            line: if record {
                Seq::<char>::empty()
            } else {
                self.line
            },
            previous: if record {
                self.line
            } else {
                self.previous
            },
            ..self
        }
    }

    /// What a dispatch of the operation under `key` answers.
    pub open spec fn dispatch(self, key: Seq<char>, record: bool) -> DispatchView {
        match self.target(key) {
            None => DispatchView::Refused,
            Some(operation) => match self.exact(operation) {
                Some(results) => DispatchView::Applied,
                None => DispatchView::Call(
                    CallView { operation, args: top(self.stack, operation.arity()), record },
                ),
            },
        }
    }

    /// The state after a dispatch of the operation under `key`.
    pub open spec fn dispatched(self, key: Seq<char>, record: bool) -> State {
        match self.target(key) {
            None => self,
            Some(operation) => match self.exact(operation) {
                Some(results) => self.applied(operation.arity(), results, record),
                None => self,
            },
        }
    }

    /// What the operation that `text` names answers: the dispatch of the one
    /// under the lower-case form of `text`.
    pub open spec fn operate(self, text: Seq<char>, record: bool) -> DispatchView {
        self.dispatch(lowercase(text), record)
    }

    /// The state after the operation that `text` names was dispatched.
    pub open spec fn operated(self, text: Seq<char>, record: bool) -> State {
        self.dispatched(lowercase(text), record)
    }

    /// What the completion of `call` with `outcome` answers.
    pub open spec fn settle(self, call: CallView, outcome: Result<Seq<u64>, Seq<char>>) -> SettledView {
        match outcome {
            Err(message) => SettledView::Failed(EventView::PushError(message)),
            Ok(results) => if call.operation.arity() <= self.stack.len() {
                SettledView::Applied
            } else {
                SettledView::Refused
            },
        }
    }

    /// The state after the completion of `call` with `outcome`.
    pub open spec fn settled(self, call: CallView, outcome: Result<Seq<u64>, Seq<char>>) -> State {
        match outcome {
            Err(message) => self,
            Ok(results) => if call.operation.arity() <= self.stack.len() {
                self.applied(call.operation.arity(), results, call.record)
            } else {
                self
            },
        }
    }

    /// What a submission answers. `literal` is the number that the input line
    /// reads as, if it reads as one.
    pub open spec fn submit(self, literal: Option<u64>) -> SubmissionView {
        match literal {
            Some(value) => SubmissionView::Pushed,
            None => if self.line.len() == 0 {
                SubmissionView::Ran(self.operate(self.previous, false))
            } else {
                SubmissionView::Ran(self.operate(self.line, true))
            },
        }
    }

    /// The state after a submission.
    pub open spec fn submitted(self, literal: Option<u64>) -> State {
        match literal {
            Some(value) => State {
                stack: self.stack.push(value),
                line: Seq::<char>::empty(),
                previous: self.line,
                ..self
            },
            None => if self.line.len() == 0 {
                self.operated(self.previous, false)
            } else {
                self.operated(self.line, true)
            },
        }
    }

    /// The state after a full reset: stack, input line and previous text are
    /// empty; the registry and the error queue are as before.
    pub open spec fn reset(self) -> State {
        State {
            stack: Seq::<u64>::empty(),
            line: Seq::<char>::empty(),
            previous: Seq::<char>::empty(),
            ..self
        }
    }

    /// The state after `event` has been handled. A submit event changes
    /// nothing by itself: the submission follows, see [`Reaction::Submit`].
    pub open spec fn stepped(self, event: EventView) -> State {
        match event {
            EventView::Char(c) => State { line: self.line.push(c), ..self },
            EventView::Backspace => State {
                line: if self.line.len() == 0 {
                    self.line
                } else {
                    self.line.drop_last()
                },
                ..self
            },
            EventView::ClearInput => State { line: Seq::<char>::empty(), ..self },
            EventView::Reset => self.reset(),
            EventView::PushError(message) => State { errors: self.errors.push(message), ..self },
            EventView::PopError => State { errors: expired(self.errors), ..self },
            EventView::Submit | EventView::Tick | EventView::Quit => self,
        }
    }

    /// The state after the scripts of `runtime` made `declarations`: the
    /// registry has absorbed them, and nothing else has changed.
    pub open spec fn loaded(self, runtime: Runtime, declarations: Seq<DeclarationView>) -> State {
        State { registry: absorbed(self.registry, runtime, declarations), ..self }
    }
}

} // verus!

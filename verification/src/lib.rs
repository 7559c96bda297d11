//! A reverse-Polish calculator core: a value stack, a registry of named
//! operations, the dispatch of an operation by name, the input line with its
//! repeat-on-empty-submit rule, and a queue of transient error messages.
//!
//! Numbers are carried as 64-bit patterns in the IEEE 754 binary64 layout.
//! The library never does arithmetic on them: it decides which operation runs
//! on which operands and what becomes of the stack. The arithmetic and the
//! script runtimes belong to the host. The host either passes an evaluator
//! (`Calculator::operate_with`, `Calculator::submit_with`), or takes the
//! request and hands the outcome back (`Calculator::operate`,
//! `Calculator::submit`, `Calculator::complete`).

pub mod builtin;
pub mod calculator;
pub mod errors;
pub mod event;
pub mod laws;
pub mod registry;
pub mod scripts;
pub mod stack;
pub mod state;
pub mod text;

pub use builtin::{builtin_named, Builtin, PI_BITS, SIGN_BIT};
pub use calculator::Calculator;
pub use errors::{expired, expired_times, ErrorQueue, ERROR_LIFETIME_MILLIS};
pub use event::{
    decode, decoded, event_view, poll_timeout, tick_due, Event, EventView, Key, KeyCode,
    TICK_NANOS,
};
pub use registry::{
    absorbed, builtin_table, declaration_views, declared, operation_view, resolve, Declaration,
    DeclarationView, Operation, OperationView, Registry, Runtime,
};
pub use scripts::{
    array_outcome, drained_view, gathered, invocation_outcome, invoked_view,
    load_failure_message, load_failure_prefix, load_notice, outcome_view, text_view,
};
pub use stack::{replaced, top, ValueStack};
pub use state::{
    raised, reaction_to, Call, CallView, Dispatch, DispatchView, Reaction, Settled, SettledView,
    State, Submission, SubmissionView,
};
pub use text::lowercase;

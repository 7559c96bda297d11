//! The boundary to the script runtimes: what a call into one came to, and
//! how a failed load is reported.

use crate::event::EventView;
use crate::registry::Runtime;
use vstd::prelude::*;

verus! {

/// The text that opens the message about a script that failed to load.
pub open spec fn load_failure_prefix(runtime: Runtime) -> Seq<char> {
    match runtime {
        Runtime::Lua => "Unable to load Lua config: "@,
        Runtime::Uiua => "Unable to load Uiua config: "@,
    }
}

/// The message about a script of `runtime` that failed to load with `reason`.
pub fn load_failure_message(runtime: Runtime, reason: &str) -> (message: String)
    ensures
        message@ == load_failure_prefix(runtime) + reason@,
{
    let prefix = match runtime {
        Runtime::Lua => "Unable to load Lua config: ",
        Runtime::Uiua => "Unable to load Uiua config: ",
    };
    let mut message = prefix.to_owned();
    message.append(reason);
    message
}

/// The value of a text that may be absent.
pub open spec fn text_view(text: Option<String>) -> Option<Seq<char>> {
    match text {
        Some(t) => Some(t@),
        None => None,
    }
}

/// The event that reports a failed load, if the load failed.
pub open spec fn load_notice(runtime: Runtime, failure: Option<Seq<char>>) -> Option<EventView> {
    match failure {
        None => None,
        Some(reason) => Some(EventView::PushError(load_failure_prefix(runtime) + reason)),
    }
}

/// What an evaluation by the host came to: the results in order, or the
/// failure's message.
pub open spec fn outcome_view(outcome: Result<Vec<u64>, String>) -> Result<Seq<u64>, Seq<char>> {
    match outcome {
        Ok(results) => Ok(results@),
        Err(message) => Err(message@),
    }
}

/// The value that the array-language runtime left on its stack and that
/// reads as a number, or the message of the failure to read it as one.
pub open spec fn drained_view(value: Result<u64, String>) -> Result<u64, Seq<char>> {
    match value {
        Ok(number) => Ok(number),
        Err(message) => Err(message@),
    }
}

/// The result of an invocation, with the failure's message as a text.
pub open spec fn invoked_view(invoked: Result<(), String>) -> Result<(), Seq<char>> {
    match invoked {
        Ok(_) => Ok(()),
        Err(message) => Err(message@),
    }
}

/// What a list of drained values comes to: all of them in order if each is a
/// number, else the message of the first that is not.
pub open spec fn gathered(drained: Seq<Result<u64, Seq<char>>>) -> Result<Seq<u64>, Seq<char>>
    decreases drained.len(),
{
    if drained.len() == 0 {
        Ok(Seq::<u64>::empty())
    } else {
        match gathered(drained.drop_last()) {
            Err(message) => Err(message),
            Ok(numbers) => match drained.last() {
                Ok(number) => Ok(numbers.push(number)),
                Err(message) => Err(message),
            },
        }
    }
}

/// What a call into the array-language runtime comes to: the failure of the
/// invocation if it failed, else what the drained values come to.
pub open spec fn invocation_outcome(
    invoked: Result<(), Seq<char>>,
    drained: Seq<Result<u64, Seq<char>>>,
) -> Result<Seq<u64>, Seq<char>> {
    match invoked {
        Err(message) => Err(message),
        Ok(_) => gathered(drained),
    }
}

/// Turns what the host got from the array-language runtime into the outcome
/// of the call. `invoked` is the result of the invocation, with the failure's
/// message; `drained` holds, for each value that the runtime left on its
/// stack, bottom first, the number it reads as or the message of the failure
/// to read it.
pub fn array_outcome(invoked: Result<(), String>, drained: Vec<Result<u64, String>>) -> (outcome:
    Result<Vec<u64>, String>)
    ensures
        outcome_view(outcome) == invocation_outcome(
            invoked_view(invoked),
            drained@.map_values(|v: Result<u64, String>| drained_view(v)),
        ),
{
    if let Err(message) = invoked {
        return Err(message);
    }
    let ghost views = drained@.map_values(|v: Result<u64, String>| drained_view(v));
    let mut numbers: Vec<u64> = Vec::new();
    let mut i: usize = 0;
    while i < drained.len()
        invariant
            i <= drained@.len(),
            invoked is Ok,
            views == drained@.map_values(|v: Result<u64, String>| drained_view(v)),
            gathered(views.take(i as int)) == Ok::<Seq<u64>, Seq<char>>(numbers@),
        decreases drained@.len() - i,
    {
        proof {
            assert(views.take(i + 1).drop_last() =~= views.take(i as int));
            assert(views.take(i + 1).last() == drained_view(drained@[i as int]));
        }
        match &drained[i] {
            Ok(number) => {
                numbers.push(*number);
            },
            Err(message) => {
                proof {
                    assert(gathered(views.take(i + 1)) == Err::<Seq<u64>, Seq<char>>(message@));
                    lemma_failure_stays(views, i + 1);
                }
                return Err(message.clone());
            },
        }
        i += 1;
    }
    assert(views.take(drained@.len() as int) =~= views);
    Ok(numbers)
}

/// Once a prefix of the drained values has come to a failure, the whole list
/// comes to the same failure.
proof fn lemma_failure_stays(drained: Seq<Result<u64, Seq<char>>>, n: int)
    requires
        0 <= n <= drained.len(),
        gathered(drained.take(n)) is Err,
    ensures
        gathered(drained) == gathered(drained.take(n)),
    decreases drained.len() - n,
{
    if n == drained.len() {
        assert(drained.take(n) =~= drained);
    } else {
        assert(drained.take(n + 1).drop_last() =~= drained.take(n));
        lemma_failure_stays(drained, n + 1);
    }
}

} // verus!

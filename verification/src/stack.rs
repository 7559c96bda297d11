//! The value stack: a sequence of numbers that grows and shrinks at its tail.

use vstd::prelude::*;

verus! {

/// The last `k` values of `stack`, in stack order.
pub open spec fn top(stack: Seq<u64>, k: nat) -> Seq<u64>
    recommends
        k <= stack.len(),
{
    stack.subrange(stack.len() - k, stack.len() as int)
}

/// `stack` with its last `k` values removed and `results` appended in order.
pub open spec fn replaced(stack: Seq<u64>, k: nat, results: Seq<u64>) -> Seq<u64>
    recommends
        k <= stack.len(),
{
    stack.subrange(0, stack.len() - k) + results
}

/// The operand stack. Each value is the bit pattern of a binary64 number.
pub struct ValueStack {
    values: Vec<u64>,
}

impl View for ValueStack {
    type V = Seq<u64>;

    closed spec fn view(&self) -> Seq<u64> {
        self.values@
    }
}

impl ValueStack {
    /// An empty stack.
    pub fn new() -> (s: Self)
        ensures
            s@ == Seq::<u64>::empty(),
    {
        ValueStack { values: Vec::new() }
    }

    /// The number of values on the stack.
    pub fn len(&self) -> (n: usize)
        ensures
            n == self@.len(),
    {
        self.values.len()
    }

    /// The value at position `i`, counted from the bottom.
    pub fn get(&self, i: usize) -> (v: u64)
        requires
            i < self@.len(),
        ensures
            v == self@[i as int],
    {
        self.values[i]
    }

    /// A copy of the values, bottom first.
    pub fn to_vec(&self) -> (v: Vec<u64>)
        ensures
            v@ == self@,
    {
        self.values.clone()
    }

    /// Appends one value.
    pub fn push(&mut self, value: u64)
        ensures
            final(self)@ == old(self)@.push(value),
    {
        self.values.push(value);
    }

    /// Removes every value.
    pub fn clear(&mut self)
        ensures
            final(self)@ == Seq::<u64>::empty(),
    {
        self.values.clear();
    }

    /// A copy of the last `k` values, in stack order. The stack is not changed.
    pub fn top(&self, k: usize) -> (args: Vec<u64>)
        requires
            k <= self@.len(),
        ensures
            args@ == top(self@, k as nat),
    {
        let n = self.values.len();
        let mut args: Vec<u64> = Vec::new();
        let mut i: usize = n - k;
        while i < n
            invariant
                n == self.values@.len(),
                k <= n,
                n - k <= i <= n,
                args@ == self.values@.subrange(n - k, i as int),
            decreases n - i,
        {
            args.push(self.values[i]);
            i += 1;
        }
        args
    }

    /// Removes the last `k` values and appends `results` in order, as one step.
    pub fn replace_top(&mut self, k: usize, results: &Vec<u64>)
        requires
            k <= old(self)@.len(),
        ensures
            final(self)@ == replaced(old(self)@, k as nat, results@),
    {
        let keep = self.values.len() - k;
        self.values.truncate(keep);
        let mut i: usize = 0;
        while i < results.len()
            invariant
                i <= results@.len(),
                keep == old(self)@.len() - k,
                self.values@ == old(self)@.subrange(0, keep as int) + results@.subrange(0, i as int),
            decreases results@.len() - i,
        {
            self.values.push(results[i]);
            i += 1;
        }
        assert(results@.subrange(0, results@.len() as int) == results@);
    }
}

} // verus!

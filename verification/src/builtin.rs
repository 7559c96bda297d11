//! The built-in operators: which ones exist, under which names, and how many
//! operands each takes.

use vstd::prelude::*;

verus! {

/// The sign bit of a binary64 pattern.
pub const SIGN_BIT: u64 = 0x8000_0000_0000_0000;

/// The binary64 pattern of the double nearest to pi.
pub const PI_BITS: u64 = 0x4009_21FB_5444_2D18;

/// A built-in operator.
#[derive(Clone, Copy, Debug, PartialEq, Eq, Structural)]
pub enum Builtin {
    Add,
    Sub,
    Mul,
    Div,
    Pow,
    Neg,
    Sin,
    Cos,
    Tan,
    Asin,
    Acos,
    Atan,
    DegToRad,
    Ln,
    Swap,
    Pred,
    Succ,
    Sqrt,
    Cbrt,
    Pi,
}

impl Builtin {
    /// The number of operands the operator takes from the stack.
    pub open spec fn spec_arity(self) -> nat {
        match self {
            Builtin::Pi => 0,
            Builtin::Add | Builtin::Sub | Builtin::Mul | Builtin::Div | Builtin::Pow
            | Builtin::Swap => 2,
            _ => 1,
        }
    }

    /// What the operator yields where that is a matter of moving bits: `Swap`
    /// exchanges its operands, `Neg` flips the sign bit, `Pi` is a constant.
    /// `None` for the operators that need arithmetic, and for a wrong number
    /// of operands.
    pub open spec fn spec_exact(self, args: Seq<u64>) -> Option<Seq<u64>> {
        if args.len() != self.spec_arity() {
            None
        } else {
            match self {
                Builtin::Swap => Some(seq![args[1], args[0]]),
                Builtin::Neg => Some(seq![args[0] ^ SIGN_BIT]),
                Builtin::Pi => Some(seq![PI_BITS]),
                _ => None,
            }
        }
    }

    /// The number of operands the operator takes from the stack.
    pub fn arity(self) -> (k: usize)
        ensures
            k == self.spec_arity(),
    {
        match self {
            Builtin::Pi => 0,
            Builtin::Add | Builtin::Sub | Builtin::Mul | Builtin::Div | Builtin::Pow
            | Builtin::Swap => 2,
            _ => 1,
        }
    }

    /// Evaluates the operator on `args` where no arithmetic is needed.
    pub fn exact(self, args: &Vec<u64>) -> (out: Option<Vec<u64>>)
        ensures
            out.is_some() == self.spec_exact(args@).is_some(),
            out matches Some(v) ==> v@ == self.spec_exact(args@).unwrap(),
    {
        if args.len() != self.arity() {
            return None;
        }
        match self {
            Builtin::Swap => {
                let mut out: Vec<u64> = Vec::new();
                out.push(args[1]);
                out.push(args[0]);
                assert(out@ == seq![args@[1], args@[0]]);
                Some(out)
            },
            Builtin::Neg => {
                let mut out: Vec<u64> = Vec::new();
                out.push(args[0] ^ SIGN_BIT);
                assert(out@ == seq![args@[0] ^ SIGN_BIT]);
                Some(out)
            },
            Builtin::Pi => {
                let mut out: Vec<u64> = Vec::new();
                out.push(PI_BITS);
                assert(out@ == seq![PI_BITS]);
                Some(out)
            },
            _ => None,
        }
    }
}

/// The operator that a built-in name stands for. The names are matched as
/// written here; `neg` has the alias `` ` ``.
pub open spec fn builtin_named(name: Seq<char>) -> Option<Builtin> {
    if name == "+"@ {
        Some(Builtin::Add)
    } else if name == "-"@ {
        Some(Builtin::Sub)
    } else if name == "*"@ {
        Some(Builtin::Mul)
    } else if name == "/"@ {
        Some(Builtin::Div)
    } else if name == "^"@ {
        Some(Builtin::Pow)
    } else if name == "neg"@ {
        Some(Builtin::Neg)
    } else if name == "`"@ {
        Some(Builtin::Neg)
    } else if name == "sin"@ {
        Some(Builtin::Sin)
    } else if name == "cos"@ {
        Some(Builtin::Cos)
    } else if name == "tan"@ {
        Some(Builtin::Tan)
    } else if name == "asin"@ {
        Some(Builtin::Asin)
    } else if name == "acos"@ {
        Some(Builtin::Acos)
    } else if name == "atan"@ {
        Some(Builtin::Atan)
    } else if name == "d2r"@ {
        Some(Builtin::DegToRad)
    } else if name == "ln"@ {
        Some(Builtin::Ln)
    } else if name == "swap"@ {
        Some(Builtin::Swap)
    } else if name == "pred"@ {
        Some(Builtin::Pred)
    } else if name == "succ"@ {
        Some(Builtin::Succ)
    } else if name == "sqrt"@ {
        Some(Builtin::Sqrt)
    } else if name == "cbrt"@ {
        Some(Builtin::Cbrt)
    } else if name == "pi"@ {
        Some(Builtin::Pi)
    } else {
        None
    }
}

} // verus!

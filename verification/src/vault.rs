use vstd::prelude::*;

verus! {

/// Errors of the SOL vault program.
#[derive(Clone, Copy, Debug, PartialEq, Eq, Structural)]
pub enum ErrorMsg {
    InsufficientBalance,
}

impl ErrorMsg {
    /// The error number reported to clients (the first custom error, 6000).
    pub fn code(&self) -> (n: u32)
        ensures
            n == 6000,
    {
        match self {
            ErrorMsg::InsufficientBalance => 6000,
        }
    }

    /// The error's message.
    pub fn message(&self) -> (text: &'static str)
        ensures
            text@ == "Insufficient balance in vault"@,
    {
        match self {
            ErrorMsg::InsufficientBalance => "Insufficient balance in vault",
        }
    }
}

} // verus!

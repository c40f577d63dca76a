use vstd::prelude::*;

verus! {

/// The two kinds of JWT that the service hands out.
#[derive(Clone, Copy, Debug, PartialEq, Eq, Structural)]
pub enum Tokens {
    Access,
    Refresh,
}

/// The channel through which a one-time code or magic link is delivered.
#[derive(Clone, Copy, Debug, PartialEq, Eq, Structural)]
pub enum OtpChoice {
    Email,
    PhoneNumber,
}

/// How a user asks to be authenticated.
#[derive(Clone, Copy, Debug, PartialEq, Eq, Structural)]
pub enum ToUse {
    PhoneNumber,
    Email,
    Provider,
}

} // verus!

//! The source of the tokens under which sockets are registered for readiness
//! events.

use vstd::prelude::*;

verus! {

/// Hands out tokens, each one once.
pub struct Io {
    token_accumulator: usize,
}

impl Io {
    /// The token that is handed out next.
    pub closed spec fn next_token(&self) -> usize {
        self.token_accumulator
    }

    /// A source whose first token is 0.
    pub fn new() -> (io: Io)
        ensures
            io.next_token() == 0,
    {
        Io { token_accumulator: 0 }
    }

    /// A source whose first token is `first`.
    pub fn starting_at(first: usize) -> (io: Io)
        ensures
            io.next_token() == first,
    {
        Io { token_accumulator: first }
    }

    /// The token that `create_token` would hand out now.
    pub fn peek_token(&self) -> (token: usize)
        ensures
            token == self.next_token(),
    {
        self.token_accumulator
    }

    /// Hands out a token that this source has not handed out before, or
    /// nothing once the tokens are used up.
    pub fn create_token(&mut self) -> (token: Option<usize>)
        ensures
            old(self).next_token() < usize::MAX ==> token == Some(old(self).next_token())
                && final(self).next_token() == old(self).next_token() + 1,
            old(self).next_token() == usize::MAX ==> token.is_none() && *final(self) == *old(
                self,
            ),
    {
        if self.token_accumulator < usize::MAX {
            let token: usize = self.token_accumulator;
            self.token_accumulator = token + 1;
            Some(token)
        } else {
            None
        }
    }
}

} // verus!

//! The place where a running pipeline keeps its delivery callback.

use vstd::prelude::*;

verus! {

/// Holds the callback for the length of one run; empty between runs.
#[derive(Debug, PartialEq, Eq)]
pub struct TsfnSlot<T> {
    pub tsfn: Option<T>,
}

impl<T> TsfnSlot<T> {
    /// A slot without a callback.
    pub fn empty() -> (r: Self)
        ensures
            r.tsfn is None,
    {
        TsfnSlot { tsfn: None }
    }

    /// Keeps the callback. One left over from an earlier run is dropped.
    pub fn store_tsfn(&mut self, tsfn: T)
        ensures
            final(self).tsfn == Some(tsfn),
    {
        self.tsfn = Some(tsfn);
    }

    /// Empties the slot and hands out what it held.
    pub fn take_tsfn(&mut self) -> (r: Option<T>)
        ensures
            r == old(self).tsfn,
            final(self).tsfn is None,
    {
        self.tsfn.take()
    }

    /// Lends the callback to `f` and returns what `f` made of it. With an
    /// empty slot `f` is not called and the result is `None`: the run may have
    /// ended while a key event was under way.
    pub fn with_tsfn<R, F: FnOnce(&T) -> R>(&self, f: F) -> (r: Option<R>)
        requires
            self.tsfn matches Some(tsfn) ==> f.requires((&tsfn,)),
        ensures
            match self.tsfn {
                Some(tsfn) => r matches Some(out) && f.ensures((&tsfn,), out),
                None => r is None,
            },
    {
        match &self.tsfn {
            Some(tsfn) => Some(f(tsfn)),
            None => None,
        }
    }
}

} // verus!

//! The tip-accounts cache: the gateway's tip accounts change rarely, so the
//! first list that was fetched serves for as long as the cache lives.

use crate::text::clone_strings;
use vstd::prelude::*;

verus! {

/// The cached list of tip accounts, once there is one. It is filled at most
/// once and never emptied or replaced.
#[derive(Debug)]
pub struct TipAccountsCache {
    cached: Option<Vec<String>>,
}

impl TipAccountsCache {
    /// The cached accounts, where the cache holds a list.
    pub closed spec fn accounts(&self) -> Option<Seq<String>> {
        match self.cached {
            Some(list) => Some(list@),
            None => None,
        }
    }

    /// An empty cache.
    pub fn new() -> (cache: TipAccountsCache)
        ensures
            cache.accounts() is None,
    {
        TipAccountsCache { cached: None }
    }

    /// The cached list, where there is one. `None` says that the accounts
    /// have to be asked for.
    pub fn get(&self) -> (r: Option<Vec<String>>)
        ensures
            match r {
                Some(list) => self.accounts() == Some(list@),
                None => self.accounts() is None,
            },
    {
        match &self.cached {
            Some(list) => Some(clone_strings(list)),
            None => None,
        }
    }

    /// Takes a list that was fetched. The first list stays: a cache that
    /// holds one already is left as it is. Returns the list that the cache
    /// holds from now on.
    pub fn store(&mut self, fetched: Vec<String>) -> (kept: Vec<String>)
        ensures
            final(self).accounts() == match old(self).accounts() {
                Some(list) => Some(list),
                None => Some(fetched@),
            },
            final(self).accounts() == Some(kept@),
    {
        match &self.cached {
            Some(list) => clone_strings(list),
            None => {
                let kept = clone_strings(&fetched);
                self.cached = Some(fetched);
                kept
            },
        }
    }
}

} // verus!

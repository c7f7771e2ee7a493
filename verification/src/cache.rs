use vstd::prelude::*;

verus! {

/// Single-slot time-to-live cache: one value together with the instant at
/// which it stops being valid. Instants are plain ticks on whatever clock the
/// caller uses; `get` must be asked with the same units that `set` stored.
pub struct Cache<T: Clone> {
    value_and_expire: Option<(T, u64)>,
}

impl<T: Clone> Cache<T> {
    /// The slot's content: the stored value and its expiry instant, if any.
    pub closed spec fn entry(&self) -> Option<(T, u64)> {
        self.value_and_expire
    }

    pub fn new() -> (r: Self)
        ensures
            r.entry() is None,
    {
        Self { value_and_expire: None }
    }

    /// A stored value comes back iff the current time lies strictly before
    /// its expiry; an expired or absent entry yields `None`.
    pub fn get(&self, current_time: u64) -> (r: Option<&T>)
        ensures
            match self.entry() {
                Some((v, expire)) => {
                    if current_time < expire {
                        r matches Some(x) && *x == v
                    } else {
                        r is None
                    }
                },
                None => r is None,
            },
    {
        match &self.value_and_expire {
            None => None,
            Some(pair) => {
                if current_time < pair.1 {
                    Some(&pair.0)
                } else {
                    None
                }
            },
        }
    }

    /// Unconditionally overwrites the single slot.
    pub fn set(&mut self, value: T, expire: u64)
        ensures
            final(self).entry() == Some((value, expire)),
    {
        self.value_and_expire = Some((value, expire));
    }
}

} // verus!

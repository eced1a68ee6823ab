use vstd::prelude::*;

verus! {

/// A one-shot holder for a secret staged between a challenge and its single
/// use (a verification token, credentials kept across a captcha, a return
/// address): `take` hands the value out and empties the holder, so it can
/// never be read twice.
pub struct OneShot<T> {
    slot: Option<T>,
}

impl<T> OneShot<T> {
    pub closed spec fn held(&self) -> Option<T> {
        self.slot
    }

    pub fn new() -> (r: OneShot<T>)
        ensures
            r.held() is None,
    {
        OneShot { slot: None }
    }

    /// Stages `value`, replacing whatever was staged before.
    pub fn store(&mut self, value: T)
        ensures
            final(self).held() == Some(value),
    {
        self.slot = Some(value);
    }

    /// Hands out the staged value, if any, and leaves the holder empty.
    pub fn take(&mut self) -> (r: Option<T>)
        ensures
            r == old(self).held(),
            final(self).held() is None,
    {
        let mut out = None;
        std::mem::swap(&mut self.slot, &mut out);
        out
    }
}

} // verus!

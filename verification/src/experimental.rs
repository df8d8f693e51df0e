use vstd::prelude::*;

verus! {

/// A cell that is empty at first and takes a value once: the first value
/// set stays for good.
#[derive(Debug)]
pub struct Antistatic<T> {
    inner: Option<T>,
}

impl<T> Antistatic<T> {
    /// The value held, if one was set.
    pub closed spec fn value(&self) -> Option<T> {
        self.inner
    }

    /// An empty cell.
    pub fn new() -> (out: Antistatic<T>)
        ensures
            out.value() is None,
    {
        Antistatic { inner: None }
    }

    /// Sets the value of an empty cell; a cell that holds one keeps it.
    pub fn set(&mut self, value: T)
        ensures
            final(self).value() == if old(self).value() is Some {
                old(self).value()
            } else {
                Some(value)
            },
    {
        if self.inner.is_none() {
            self.inner = Some(value);
        }
    }

    /// Whether a value was set.
    pub fn is_set(&self) -> (out: bool)
        ensures
            out == self.value() is Some,
    {
        self.inner.is_some()
    }

    /// The value held, if one was set.
    pub fn get(&self) -> (out: Option<&T>)
        ensures
            match out {
                Some(value) => self.value() == Some(*value),
                None => self.value() is None,
            },
    {
        self.inner.as_ref()
    }
}

} // verus!

//! Opaque, nullable references to native simulation objects, and the lazy
//! iteration protocol over them.
//!
//! A `Handle` never owns the native object it refers to: identity, lifetime
//! and iteration are delegated to the host kernel. The library therefore
//! stores only the raw address, with 0 standing for the null reference, and
//! offers no structural equality: comparing two handles is a native call that
//! the surrounding glue must issue itself.

use vstd::prelude::*;

verus! {

/// Opaque reference to a native simulation object; address 0 is null.
#[derive(Clone, Copy, Debug)]
pub struct Handle {
    raw: usize,
}

impl Handle {
    /// The raw address this handle carries.
    pub closed spec fn addr(self) -> usize {
        self.raw
    }

    /// A handle is null when it carries address 0.
    pub open spec fn spec_is_null(self) -> bool {
        self.addr() == 0
    }

    /// The null handle.
    pub fn null() -> (h: Self)
        ensures
            h.spec_is_null(),
    {
        Handle { raw: 0 }
    }

    /// Whether this handle is null; total and side-effect-free.
    pub fn is_null(&self) -> (b: bool)
        ensures
            b == self.spec_is_null(),
    {
        self.raw == 0
    }

    /// The raw address, for handing back to the native side.
    pub fn as_raw(&self) -> (r: usize)
        ensures
            r == self.addr(),
    {
        self.raw
    }

    /// Forget the referenced object without releasing it: the wrapper does
    /// not own native objects, so dropping the address is the only safe way
    /// to let go of one.
    pub fn clear(&mut self)
        ensures
            final(self).spec_is_null(),
    {
        self.raw = 0;
    }

    /// Wrap a raw address received from the native side.
    pub fn from_raw(raw: usize) -> (h: Self)
        ensures
            h.addr() == raw,
    {
        Handle { raw }
    }
}

impl Default for Handle {
    /// The default handle is null.
    fn default() -> (h: Self)
        ensures
            h.spec_is_null(),
    {
        Handle { raw: 0 }
    }
}

/// What an iterator asks of the native side next: nothing (the sequence is
/// over and the iteration resource already released), or one scan call on
/// the carried iterator handle.
pub enum IterStep {
    Done,
    Scan(Handle),
}

/// Lazy, finite, non-restartable sequence of handles.
///
/// The native side hands out an iterator handle on a begin-iteration call;
/// each element costs one scan call. A null scan result means exhaustion:
/// the native side has already released the iteration resource, so the
/// iterator clears its handle and never asks for another scan.
pub struct HandleIterator {
    iter: Handle,
}

impl HandleIterator {
    /// The iterator handle still held, null once exhausted.
    pub closed spec fn cursor(self) -> Handle {
        self.iter
    }

    /// Exhausted iterators hold no native resource and issue no calls.
    pub open spec fn exhausted(self) -> bool {
        self.cursor().spec_is_null()
    }

    /// What `step` returns: `Done` once exhausted (also when the
    /// begin-iteration call itself returned null, as it does over an
    /// object with no children), otherwise one scan on the held handle.
    pub open spec fn spec_step(self) -> IterStep {
        if self.exhausted() {
            IterStep::Done
        } else {
            IterStep::Scan(self.cursor())
        }
    }

    /// Wrap the handle a begin-iteration call returned.
    pub fn new(iter: Handle) -> (it: Self)
        ensures
            it.cursor() == iter,
    {
        HandleIterator { iter }
    }

    /// The next native call this iterator needs, if any.
    pub fn step(&self) -> (s: IterStep)
        ensures
            s == self.spec_step(),
    {
        if self.iter.is_null() {
            IterStep::Done
        } else {
            IterStep::Scan(self.iter)
        }
    }

    /// Take in the result of the scan call that `step` asked for: a null
    /// scan result exhausts the sequence and yields nothing, any other
    /// result is the next element and leaves the cursor in place.
    pub fn absorb_scan(&mut self, scanned: Handle) -> (r: Option<Handle>)
        requires
            !old(self).exhausted(),
        ensures
            scanned.spec_is_null() ==> r is None && final(self).exhausted(),
            !scanned.spec_is_null() ==> r == Some(scanned) && final(self).cursor()
                == old(self).cursor(),
    {
        if scanned.is_null() {
            // The native side releases the iteration resource on a natural
            // end of sequence; only the address is dropped here.
            self.iter.clear();
            None
        } else {
            Some(scanned)
        }
    }
}

/// An exhausted iterator issues no native call: its every step is `Done`.
/// Together with `absorb_scan`, which exhausts the iterator the moment a
/// scan comes back null, this pins the protocol over an empty collection to
/// exactly one scan (the one that signals exhaustion) and no element.
pub proof fn lemma_exhausted_iterator_is_silent(it: HandleIterator)
    requires
        it.exhausted(),
    ensures
        it.spec_step() is Done,
{
}

} // verus!

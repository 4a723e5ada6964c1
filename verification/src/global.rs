//! Global variable abstraction
//!
//! A [`Global`] is a place for a value that is written once the program
//! runs and read later, by the main program or by an interrupt handler. It
//! starts out empty; reading it before it was set is an error that the
//! caller is handed, not a crash.
//!
//! What makes such a place safe to share with interrupt handlers, a critical
//! section around every access, belongs to the code that owns the `static`;
//! this module is the store itself.
//!
//! # Example
//! ```
//! let mut my_global: atmega32u4_hal::Global<u64> = atmega32u4_hal::Global::new();
//!
//! assert!(my_global.get(|v| *v).is_err());
//! my_global.set(0xC0FFEE);
//! assert_eq!(my_global.get(|v| *v), Ok(0xC0FFEE));
//! ```

use vstd::prelude::*;

verus! {

/// A global variable store
pub struct Global<T> {
    value: Option<T>,
}

impl<T> Global<T> {
    /// What the store holds: nothing until it is set, then the value.
    pub closed spec fn view(&self) -> Option<T> {
        self.value
    }

    /// Create a new global variable
    pub fn new() -> (global: Global<T>)
        ensures
            global@ is None,
    {
        Global { value: None }
    }

    /// Set this global to some value
    ///
    /// Used for initialization
    pub fn set(&mut self, val: T)
        ensures
            final(self)@ == Some(val),
    {
        self.value = Some(val);
    }

    /// Get the value of this global
    ///
    /// Will execute `f` with the value of the global if the global
    /// has been initialized.  If it hasn't been, return `Err(())`.
    ///
    /// `f` is handed the stored value itself: what it leaves in it is what
    /// the global holds afterwards.
    pub fn get<R, F: FnOnce(&mut T) -> R>(&mut self, f: F) -> (r: Result<R, ()>)
        requires
            forall|v: &mut T| old(self)@ == Some(*v) ==> #[trigger] f.requires((v,)),
        ensures
            r is Err <==> old(self)@ is None,
            r is Err ==> final(self)@ is None,
            r is Ok ==> final(self)@ is Some && exists|v: &mut T|
                *v == old(self)@->0 && *final(v) == final(self)@->0 && #[trigger] f.ensures(
                    (v,),
                    r->Ok_0,
                ),
    {
        if self.value.is_none() {
            return Err(());
        }
        let v: &mut T = self.value.as_mut().unwrap();
        let out = f(v);
        let ghost seen = out;
        let r: Result<R, ()> = Ok(out);
        proof {
            let borrowed = choose|x: &mut T|
                *x == old(self)@->0 && *final(x) == final(self)@->0 && #[trigger] f.ensures(
                    (x,),
                    seen,
                );
            assert(f.ensures((borrowed,), r->Ok_0));
        }
        r
    }
}

} // verus!

use vstd::prelude::*;

verus! {

/// Mapping the success value of a result by reference.
pub trait RefMap<T, E>: Sized {
    /// The receiver as a result.
    spec fn as_result(&self) -> Result<T, E>;

    /// Applies `op` to a reference to the success value, and passes an error
    /// on unchanged.
    fn ref_map<U, F: FnOnce(&T) -> U>(self, op: F) -> (r: Result<U, E>)
        requires
            self.as_result() matches Ok(t) ==> op.requires((&t,)),
        ensures
            match self.as_result() {
                Ok(t) => r matches Ok(u) && op.ensures((&t,), u),
                Err(e) => r == Err::<U, E>(e),
            },
    ;
}

impl<T, E> RefMap<T, E> for Result<T, E> {
    open spec fn as_result(&self) -> Result<T, E> {
        *self
    }

    fn ref_map<U, F: FnOnce(&T) -> U>(self, op: F) -> (r: Result<U, E>) {
        match self {
            Ok(ok) => Ok(op(&ok)),
            Err(err) => Err(err),
        }
    }
}

} // verus!

//! Results and options as plain values, for use in contracts.

use vstd::prelude::*;

verus! {

/// A result, each side by its view.
pub open spec fn view_of<T: View, E: View>(r: Result<T, E>) -> Result<T::V, E::V> {
    match r {
        Ok(t) => Ok(t@),
        Err(e) => Err(e@),
    }
}

/// An option, by the view of what it holds.
pub open spec fn some_view<T: View>(o: Option<T>) -> Option<T::V> {
    match o {
        Some(t) => Some(t@),
        None => None,
    }
}

} // verus!

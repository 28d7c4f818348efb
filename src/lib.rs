//! Decoding and rendering of cluster-lifecycle notifications delivered
//! through a push message queue.

pub mod json;
pub mod text;
pub mod payload;
pub mod attributes;
pub mod message;
pub mod slack;
pub mod handling;

use vstd::prelude::*;

verus! {

/// The view of an optional value.
pub open spec fn option_view<T: View>(o: Option<T>) -> Option<T::V> {
    match o {
        Some(t) => Some(t@),
        None => None,
    }
}

/// The view of a result whose values are texts.
pub open spec fn text_result_view(r: Result<String, String>) -> Result<Seq<char>, Seq<char>> {
    match r {
        Ok(s) => Ok(s@),
        Err(e) => Err(e@),
    }
}

} // verus!

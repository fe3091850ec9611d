//! Audio response types.

use vstd::prelude::*;

verus! {

/// Response from `POST /audio/translations` (json format).
#[derive(Debug, Clone, PartialEq, Eq)]
pub struct Translation {
    pub text: String,
}

} // verus!

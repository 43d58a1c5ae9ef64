//! Models compiled into the binary. This build embeds none: the models are
//! read from files.

use vstd::prelude::*;
use vstd::string::*;

verus! {

/// The model generation embedded in the binary; empty when none is.
pub fn embedded_version() -> (r: &'static str)
    ensures
        r@ == Seq::<char>::empty(),
{
    let r = "";
    proof {
        reveal_strlit("");
    }
    r
}

/// Whether the models are embedded in the binary.
pub fn is_bundled() -> (r: bool)
    ensures
        !r,
{
    embedded_version().unicode_len() != 0
}

/// The embedded detection model, recognition model and character set, in
/// that order; all empty, as this build embeds none.
pub fn get_embedded_models() -> (r: (&'static [u8], &'static [u8], &'static [u8]))
    ensures
        r.0@.len() == 0,
        r.1@.len() == 0,
        r.2@.len() == 0,
{
    let none: &'static [u8] = &[];
    (none, none, none)
}

} // verus!

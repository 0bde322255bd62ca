//! The rule for instance names, and the dialogs.

use crate::text::{char_is_alphanumeric, is_alphanumeric, trim_text, trimmed};
use vstd::prelude::*;

pub mod confirmation;

verus! {

/// A dialog that holds something to hand out when it is done.
pub trait ConsumablePopup<T> {
    /// Hands out what the dialog holds, if it still holds it.
    fn consume(&mut self) -> Option<T>;
}

/// Whether a character may stand in the name of an instance: a letter, a
/// digit, an underscore, a hyphen or a space.
pub open spec fn name_char(c: char) -> bool {
    is_alphanumeric(c) || c == '_' || c == '-' || c == ' '
}

/// Whether a text is a name for an instance: without the white space
/// around it, it is not empty and made of name characters only.
pub open spec fn valid_instance_name(name: Seq<char>) -> bool {
    let name = trimmed(name);
    name.len() > 0 && forall|i: int| 0 <= i < name.len() ==> name_char(#[trigger] name[i])
}

/// Whether a text can be the name of an instance.
pub fn is_instance_name_valid(name: &str) -> (valid: bool)
    ensures
        valid == valid_instance_name(name@),
{
    let inner = trim_text(name);
    let len = inner.unicode_len();
    if len == 0 {
        return false;
    }
    let mut i: usize = 0;
    while i < len
        invariant
            i <= len,
            len == inner@.len(),
            inner@ == trimmed(name@),
            forall|k: int| 0 <= k < i ==> name_char(#[trigger] inner@[k]),
        decreases len - i,
    {
        let c = inner.get_char(i);
        if !(char_is_alphanumeric(c) || c == '_' || c == '-' || c == ' ') {
            assert(!name_char(inner@[i as int]));
            return false;
        }
        i += 1;
    }
    true
}

} // verus!

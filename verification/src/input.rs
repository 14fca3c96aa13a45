//! What a text message carries once it is cleaned up.

use crate::text::eq_ignore_ascii_case;
use crate::text::str_eq_ignore_ascii_case;
use crate::text::trim_str;
use crate::text::trimmed;
use vstd::prelude::*;

verus! {

/// The text of a message without the white space around it; nothing where
/// the message has no text or only white space.
pub open spec fn payload(text: Option<Seq<char>>) -> Option<Seq<char>> {
    match text {
        Some(t) => if trimmed(t).len() > 0 {
            Some(trimmed(t))
        } else {
            None
        },
        None => None,
    }
}

/// The text of a message without the white space around it, if any is
/// left.
pub fn message_payload<'a>(text: Option<&'a str>) -> (r: Option<&'a str>)
    ensures
        r.deep_view() == payload(text.deep_view()),
{
    match text {
        Some(t) => {
            let p = trim_str(t);
            if p.is_empty() {
                None
            } else {
                Some(p)
            }
        },
        None => None,
    }
}

/// Whether a text is the word that abandons a draft, in any letter case.
pub open spec fn is_cancel(p: Seq<char>) -> bool {
    eq_ignore_ascii_case(p, "cancel"@)
}

/// Whether a text is the word that abandons a draft, in any letter case.
pub fn is_cancel_word(p: &str) -> (r: bool)
    ensures
        r == is_cancel(p@),
{
    str_eq_ignore_ascii_case(p, "cancel")
}

} // verus!

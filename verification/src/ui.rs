//! Validation of what the prompts read: numeric menu choices and yes/no
//! answers. The prompts themselves — printing and reading lines — live in
//! the executable shell and hand the trimmed input in.

use vstd::prelude::*;
use crate::text::{
    ascii_lower_str, parse_usize, spec_all_digits, spec_dec_val, spec_lower_str, str_eq,
};

verus! {

/// An affirmative answer, in either language the prompts speak, however
/// cased.
pub open spec fn spec_affirmative(s: Seq<char>) -> bool {
    spec_lower_str(s) == "o"@ || spec_lower_str(s) == "oui"@ || spec_lower_str(s) == "y"@
        || spec_lower_str(s) == "yes"@
}

/// The menu and prompt front end.
pub struct UserInterface;

impl UserInterface {
    /// Interprets a menu answer: a number between the bounds is a choice;
    /// zero, an out-of-range number and anything non-numeric are not.
    pub fn prompt_choice(input: &str, min: usize, max: usize) -> (r: Option<usize>)
        ensures
            match r {
                Some(v) => input@.len() > 0 && spec_all_digits(input@) && v == spec_dec_val(input@)
                    && v != 0 && min <= v <= max,
                None => input@.len() == 0 || !spec_all_digits(input@) || spec_dec_val(input@)
                    > usize::MAX || spec_dec_val(input@) == 0 || spec_dec_val(input@) < min
                    || spec_dec_val(input@) > max,
            },
    {
        match parse_usize(input) {
            Some(v) => {
                if v == 0 {
                    None
                } else if min <= v && v <= max {
                    Some(v)
                } else {
                    None
                }
            },
            None => None,
        }
    }

    /// Whether an answer is affirmative.
    pub fn is_affirmative(input: &str) -> (r: bool)
        ensures
            r == spec_affirmative(input@),
    {
        let low = ascii_lower_str(input);
        let l = low.as_str();
        str_eq(l, "o") || str_eq(l, "oui") || str_eq(l, "y") || str_eq(l, "yes")
    }
}

} // verus!

//! The rule shared by every string field that a configuration requires to be set.

use vstd::prelude::*;

verus! {

/// A value that the configuration format produces when a field was left unset
/// by accident: the empty string, `~` or `null`.
pub open spec fn is_unset_marker(s: Seq<char>) -> bool {
    s.len() == 0 || s == seq!['~'] || s == seq!['n', 'u', 'l', 'l']
}

/// Why a required string field was refused.
#[derive(Debug, Clone, Copy, PartialEq, Eq)]
pub enum FieldError {
    /// The field is empty, `~` or `null`.
    Unset,
}

/// Decides whether a required string field holds a real value.
pub fn is_set(value: &str) -> (r: bool)
    ensures
        r == !is_unset_marker(value@),
{
    let n = value.unicode_len();
    if n == 0 {
        return false;
    }
    if n == 1 {
        let c = value.get_char(0);
        if c == '~' {
            assert(value@ =~= seq!['~']);
        }
        return c != '~';
    }
    if n == 4 {
        let is_null = value.get_char(0) == 'n' && value.get_char(1) == 'u'
            && value.get_char(2) == 'l' && value.get_char(3) == 'l';
        if is_null {
            assert(value@ =~= seq!['n', 'u', 'l', 'l']);
        }
        return !is_null;
    }
    true
}

/// Accepts a required string field, or refuses it when it is unset.
pub fn check_field(value: String) -> (r: Result<String, FieldError>)
    ensures
        is_unset_marker(value@) ==> r == Err::<String, FieldError>(FieldError::Unset),
        !is_unset_marker(value@) ==> r is Ok && r->Ok_0@ == value@,
{
    if is_set(value.as_str()) {
        Ok(value)
    } else {
        Err(FieldError::Unset)
    }
}

} // verus!

//! Checks on the names of variables.
use vstd::prelude::*;

verus! {

/// `s` holds the character `c`.
pub open spec fn holds_char(s: Seq<char>, c: char) -> bool {
    exists|i: int| 0 <= i < s.len() && s[i] == c
}

/// Accepts a variable name that is not empty and holds no space; otherwise
/// says which of the two rules it breaks, emptiness first.
pub fn validate_var_name(name: &str) -> (r: Result<(), String>)
    ensures
        name@.len() == 0 ==> (r matches Err(m) && m@ == "Variable name cannot be empty"@),
        name@.len() > 0 && holds_char(name@, ' ') ==> (r matches Err(m) && m@
            == "Variable name cannot contain spaces"@),
        r is Ok <==> name@.len() > 0 && !holds_char(name@, ' '),
{
    let n = name.unicode_len();
    if n == 0 {
        return Err(String::from_str("Variable name cannot be empty"));
    }
    let mut i: usize = 0;
    while i < n
        invariant
            n == name@.len(),
            i <= n,
            forall|j: int| 0 <= j < i ==> name@[j] != ' ',
        decreases n - i,
    {
        if name.get_char(i) == ' ' {
            return Err(String::from_str("Variable name cannot contain spaces"));
        }
        i = i + 1;
    }
    Ok(())
}

} // verus!

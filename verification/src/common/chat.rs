//! Usernames as compared and stored in their normalised form.
use crate::text::{ascii_lower, lower_char, push_char, safe_username_text};
use vstd::prelude::*;

verus! {

/// The normalised form of a username: ASCII lower case with spaces replaced
/// by underscores.
pub fn safe_username(username: &str) -> (res: String)
    ensures
        res@ == safe_username_text(username@),
{
    let mut out = String::new();
    for c in it: username.chars()
        invariant
            it.seq() == username@,
            out@ == safe_username_text(username@.take(it.index() as int)),
    {
        assert(username@.take(it.index() + 1) == username@.take(it.index() as int).push(c));
        let n = if c == ' ' { '_' } else { lower_char(c) };
        push_char(&mut out, n);
    }
    assert(username@.take(username@.len() as int) == username@);
    out
}

/// A normalised username is its own normalised form, so looking a user up by
/// an already normalised name finds the same key.
pub proof fn lemma_safe_username_idempotent(s: Seq<char>)
    ensures
        safe_username_text(safe_username_text(s)) == safe_username_text(s),
{
    let t = safe_username_text(s);
    assert forall|i: int| 0 <= i < t.len() implies #[trigger] safe_username_text(t)[i] == t[i] by {
        let c = s[i];
        if c != ' ' && 'A' <= c && c <= 'Z' {
            assert(t[i] == ascii_lower(c));
            assert((ascii_lower(c) as u32) == (c as u32) + 32);
        }
    }
    assert(safe_username_text(t) =~= t);
}

} // verus!

//! Borrowing a value instead of taking it: measuring a string through a
//! reference, slicing its first word, and building a record from owned
//! parts.

use vstd::prelude::*;
use vstd::utf8::encode_utf8;

verus! {

/// The length of the string in bytes — the encoding of its characters —
/// read through a borrow.
pub fn calculate_length(s: &String) -> (len: usize)
    ensures
        len == encode_utf8(s@).len(),
{
    s.as_str().as_bytes().len()
}

/// Index of the first space in `s`, or `s.len()` if there is none.
pub open spec fn first_space(s: Seq<char>) -> int
    decreases s.len(),
{
    if s.len() == 0 {
        0
    } else if s[0] == ' ' {
        0
    } else {
        1 + first_space(s.drop_first())
    }
}

/// `first_space` returns the scan position: the index of the space found,
/// or the length when none was.
proof fn lemma_first_space(s: Seq<char>, k: int)
    requires
        0 <= k <= s.len(),
        forall|j: int| 0 <= j < k ==> s[j] != ' ',
        k < s.len() ==> s[k] == ' ',
    ensures
        first_space(s) == k,
    decreases k,
{
    if k > 0 {
        lemma_first_space(s.drop_first(), k - 1);
    }
}

/// The first word of the string: everything before the first space, or
/// the whole string if it has no space.
pub fn first_word(s: &String) -> (word: &str)
    ensures
        word@ == s@.subrange(0, first_space(s@)),
{
    let text = s.as_str();
    let n = text.unicode_len();
    let mut i: usize = 0;
    while i < n && text.get_char(i) != ' '
        invariant
            i <= n,
            n == text@.len(),
            forall|j: int| 0 <= j < i ==> text@[j] != ' ',
        decreases n - i,
    {
        i = i + 1;
    }
    proof {
        lemma_first_space(text@, i as int);
    }
    text.substring_char(0, i)
}

/// An account holder.
pub struct User {
    /// Whether the account is active.
    pub active: bool,
    /// The display name.
    pub username: String,
    /// The contact address.
    pub email: String,
    /// How often the user has signed in.
    pub sign_in_count: u64,
}

/// A fresh, active account for the given address and name, with one
/// sign-in on the books.
pub fn build_user(email: String, username: String) -> (u: User)
    ensures
        u.active == true,
        u.username == username,
        u.email == email,
        u.sign_in_count == 1,
{
    User { active: true, username, email, sign_in_count: 1 }
}

} // verus!

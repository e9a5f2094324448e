//! Comparing and cutting text.

use vstd::prelude::*;

verus! {

/// Whether two strings hold the same characters.
pub(crate) fn same_text(a: &str, b: &str) -> (same: bool)
    ensures
        same == (a@ == b@),
{
    a.to_owned() == b.to_owned()
}

/// `str::strip_prefix`: the rest of `text` when it starts with `prefix`, and
/// nothing when it does not.
#[verifier::external_body]
pub(crate) fn strip_prefix<'a>(text: &'a str, prefix: &str) -> (rest: Option<&'a str>)
    ensures
        rest is Some <==> prefix@.is_prefix_of(text@),
        rest matches Some(r) ==> r@ == text@.skip(prefix@.len() as int),
{
    text.strip_prefix(prefix)
}

/// The token that an `Authorization` header carries: what follows `Bearer `,
/// and the empty text when the header does not start with it.
pub open spec fn bearer_token_of(header: Seq<char>) -> Seq<char> {
    if "Bearer "@.is_prefix_of(header) {
        header.skip("Bearer "@.len() as int)
    } else {
        Seq::empty()
    }
}

/// The token that an `Authorization` header carries.
pub fn bearer_token(header: &str) -> (token: &str)
    ensures
        token@ == bearer_token_of(header@),
{
    match strip_prefix(header, "Bearer ") {
        Some(rest) => rest,
        None => {
            proof {
                reveal_strlit("");
                assert(""@ =~= Seq::<char>::empty());
            }
            ""
        },
    }
}

/// An owned copy of `text`.
pub fn owned(text: &str) -> (copy: String)
    ensures
        copy@ == text@,
{
    String::from_str(text)
}

} // verus!

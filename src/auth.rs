//! Reading the authorization code out of the page that ends the sign-in flow.
use vstd::prelude::*;
use crate::text::{chars_of, occurs_at, occurs_at_exec, same_text, split_on, split_str, string_of};

verus! {

/// The address, query mark included, that the sign-in flow redirects to when it is done.
pub open spec fn redirect_prefix() -> Seq<char> {
    "https://login.live.com/oauth20_desktop.srf?"@
}

/// The value of the first query parameter at index `i` or later that is named `code` and has
/// a value (the text after its first `=`, up to a second `=` if any).
pub open spec fn code_from(params: Seq<Seq<char>>, i: int) -> Option<Seq<char>>
    decreases params.len() - i,
{
    if i < 0 || i >= params.len() {
        None
    } else {
        let pair = split_on(params[i], '=');
        if pair.len() >= 2 && pair[0] == "code"@ {
            Some(pair[1])
        } else {
            code_from(params, i + 1)
        }
    }
}

/// The authorization code of a loaded page address: `None` unless the address is the redirect
/// target, else the `code` parameter of its `&`-separated query, if there is one.
pub open spec fn auth_code_spec(url: Seq<char>) -> Option<Seq<char>> {
    if occurs_at(url, redirect_prefix(), 0) {
        code_from(split_on(url.subrange(redirect_prefix().len() as int, url.len() as int), '&'), 0)
    } else {
        None
    }
}

/// The authorization code carried by a loaded page address (see [`auth_code_spec`]).
pub fn auth_code_from_redirect(url: &str) -> (r: Option<String>)
    ensures
        match r {
            Some(c) => auth_code_spec(url@) == Some(c@),
            None => auth_code_spec(url@) is None,
        },
{
    let v = chars_of(url);
    let prefix = chars_of("https://login.live.com/oauth20_desktop.srf?");
    if !occurs_at_exec(&v, &prefix, 0) {
        return None;
    }
    let query = string_of(&v.as_slice()[prefix.len()..v.len()]);
    assert(query@ =~= url@.subrange(redirect_prefix().len() as int, url@.len() as int));
    let params = split_str(query.as_str(), '&');
    let ghost ps = params@.map_values(|x: String| x@);
    let mut i: usize = 0;
    while i < params.len()
        invariant
            i <= params.len(),
            ps == params@.map_values(|x: String| x@),
            code_from(ps, i as int) == code_from(ps, 0),
            auth_code_spec(url@) == code_from(ps, 0),
        decreases params.len() - i,
    {
        let pair = split_str(params[i].as_str(), '=');
        assert(ps[i as int] == params@[i as int]@);
        if pair.len() >= 2 {
            assert(pair@.map_values(|x: String| x@)[0] == pair@[0]@);
            assert(pair@.map_values(|x: String| x@)[1] == pair@[1]@);
            if same_text(pair[0].as_str(), "code") {
                return Some(pair[1].clone());
            }
        }
        i = i + 1;
    }
    None
}

} // verus!

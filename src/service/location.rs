use crate::route::SwitchRoute;
use vstd::prelude::*;

verus! {

/// Relies on `String::push_str`: appends the characters of `tail`.
#[verifier::external_body]
fn append(s: &mut String, tail: &str)
    ensures
        final(s)@ == old(s)@ + tail@,
{
    s.push_str(tail)
}

/// The route string of a location: its path, then its query, then its
/// fragment.
pub fn location_path(pathname: &str, search: &str, hash: &str) -> (r: String)
    ensures
        r@ == pathname@ + search@ + hash@,
{
    let mut r = String::new();
    append(&mut r, pathname);
    append(&mut r, search);
    append(&mut r, hash);
    proof {
        assert(Seq::<char>::empty() + pathname@ =~= pathname@);
    }
    r
}

/// The route a location stands for, parsed from its route string.
pub fn route_from_location<R: SwitchRoute>(pathname: &str, search: &str, hash: &str) -> R {
    let path = location_path(pathname, search, hash);
    R::switch(path.as_str())
}

} // verus!

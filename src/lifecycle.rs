use vstd::prelude::*;

verus! {

/// What `str::trim` returns for `s`.
pub uninterp spec fn trim_of(s: Seq<char>) -> Seq<char>;

/// Relies on `str::trim`: `s` without its leading and trailing whitespace, which depends on the
/// characters of `s` alone; nothing is left of an empty `s`.
#[verifier::external_body]
fn trim(s: &str) -> (r: &str)
    ensures
        r@ == trim_of(s@),
        s@.len() == 0 ==> r@.len() == 0,
{
    s.trim()
}

/// The name under which an event is sent, given its name already trimmed: that name, or
/// `anonymous` where it is empty.
pub open spec fn spec_event_name(trimmed: Seq<char>) -> Seq<char> {
    if trimmed.len() == 0 {
        "anonymous"@
    } else {
        trimmed
    }
}

/// The name under which an event whose name trims to `trimmed` is sent.
pub fn name_from_trimmed(trimmed: &str) -> (r: String)
    ensures
        r@ == spec_event_name(trimmed@),
{
    if trimmed.is_empty() {
        "anonymous".to_owned()
    } else {
        trimmed.to_owned()
    }
}

/// The name under which an event called `name` is sent: `name` trimmed, or `anonymous` where
/// nothing is left.
pub fn event_name(name: &str) -> (r: String)
    ensures
        r@ == spec_event_name(trim_of(name@)),
{
    name_from_trimmed(trim(name))
}

} // verus!

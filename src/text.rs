use vstd::prelude::*;
use vstd::string::StringExecFns;

verus! {

/// Appends a copy of `s` to the list.
pub(crate) fn push_text(v: &mut Vec<String>, s: &str)
    ensures
        final(v).deep_view() == old(v).deep_view().push(s@),
{
    let t = s.to_owned();
    v.push(t);
    assert(v.deep_view() =~= old(v).deep_view().push(s@));
}

/// Moves every string of `w` to the end of `v`, in order.
pub(crate) fn append_texts(v: &mut Vec<String>, w: Vec<String>)
    ensures
        final(v).deep_view() == old(v).deep_view() + w.deep_view(),
{
    let mut w = w;
    let ghost w0 = w;
    v.append(&mut w);
    assert(v.deep_view() =~= old(v).deep_view() + w0.deep_view());
}

/// The string `a`, then `b`, then `c`.
pub(crate) fn concat3(a: &str, b: &str, c: &str) -> (r: String)
    ensures
        r@ == a@ + b@ + c@,
{
    let mut r = String::from_str(a);
    r.append(b);
    r.append(c);
    r
}

} // verus!

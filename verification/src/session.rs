//! Pure steps of the session loop: selecting the active model from the
//! startup listing, and assembling the assistant turn's content from the
//! completion endpoint's text fragments.

use vstd::prelude::*;

verus! {

/// The character sequences of a sequence of strings.
pub open spec fn views_of(parts: Seq<String>) -> Seq<Seq<char>> {
    parts.map_values(|p: String| p@)
}

/// The concatenation of reply fragments in order, each fragment followed by
/// a single separating space (the last one included).
pub open spec fn joined_text(parts: Seq<Seq<char>>) -> Seq<char>
    decreases parts.len(),
{
    if parts.len() == 0 {
        Seq::empty()
    } else {
        joined_text(parts.drop_last()) + parts.last() + " "@
    }
}

/// Build the assistant turn's content from the returned fragments: every
/// fragment in order, each followed by one space.
pub fn join_fragments(parts: &Vec<String>) -> (r: String)
    ensures
        r@ == joined_text(views_of(parts@)),
{
    let mut out = String::new();
    let mut i: usize = 0;
    while i < parts.len()
        invariant
            i <= parts.len(),
            out@ == joined_text(views_of(parts@).take(i as int)),
        decreases parts.len() - i,
    {
        out.append(parts[i].as_str());
        out.append(" ");
        proof {
            let vs = views_of(parts@);
            assert(vs.take(i as int + 1).drop_last() =~= vs.take(i as int));
            assert(vs.take(i as int + 1).last() == vs[i as int]);
            assert(out@ =~= joined_text(vs.take(i as int + 1)));
        }
        i = i + 1;
    }
    proof {
        let vs = views_of(parts@);
        assert(vs.take(parts@.len() as int) =~= vs);
    }
    out
}

/// Select the active model from the startup listing: the first identifier,
/// if the listing is non-empty; an empty listing yields none (a startup
/// failure for the caller to surface).
pub fn pick_model(ids: &Vec<String>) -> (r: Option<String>)
    ensures
        ids@.len() == 0 ==> r is None,
        ids@.len() > 0 ==> r is Some && r.unwrap()@ == ids@[0]@,
{
    if ids.len() == 0 {
        None
    } else {
        Some(ids[0].clone())
    }
}

} // verus!

//! Naming of persisted responses.
use vstd::prelude::*;
use vstd::string::StringExecFns;

verus! {

/// `{stamp}_{label}.txt`.
pub open spec fn file_name_of(stamp: Seq<char>, label: Seq<char>) -> Seq<char> {
    stamp + seq!['_'] + label + seq!['.', 't', 'x', 't']
}

/// The file name under which a response labelled `label` is stored at time `stamp`.
pub fn response_file_name(stamp: &str, label: &str) -> (r: String)
    ensures
        r@ == file_name_of(stamp@, label@),
{
    proof {
        reveal_strlit("_");
        reveal_strlit(".txt");
    }
    let mut r = String::from_str(stamp);
    r.append("_");
    r.append(label);
    r.append(".txt");
    r
}

} // verus!

//! What the text of a session description tells the other end.

use vstd::prelude::*;

verus! {

/// Whether a line that names an ICE candidate begins at a place of a text.
pub open spec fn candidate_at(sdp: Seq<char>, at: int) -> bool {
    let name = "a=candidate:"@;
    &&& 0 <= at
    &&& at + name.len() <= sdp.len()
    &&& at == 0 || sdp[at - 1] == '\n'
    &&& sdp.subrange(at, at + name.len()) == name
}

/// Whether a session description names an ICE candidate: one of its lines is a
/// `candidate` attribute.
pub open spec fn holds_candidate(sdp: Seq<char>) -> bool {
    exists|at: int| candidate_at(sdp, at)
}

/// The characters of a text.
fn characters(text: &str) -> (characters: Vec<char>)
    ensures
        characters@ == text@,
{
    let mut characters: Vec<char> = Vec::new();
    for c in iter: text.chars()
        invariant
            iter.seq() == text@,
            characters@ == text@.take(iter.index() as int),
    {
        characters.push(c);
    }
    characters
}

/// Whether a part stands at a place of a text.
fn stands_at(text: &Vec<char>, at: usize, part: &Vec<char>) -> (same: bool)
    requires
        at + part@.len() <= text@.len(),
    ensures
        same == (text@.subrange(at as int, at + part@.len()) == part@),
{
    let mut i: usize = 0;
    while i < part.len()
        invariant
            i <= part@.len(),
            at + part@.len() <= text.len(),
            forall|j: int| 0 <= j < i ==> text@[at + j] == part@[j],
        decreases part@.len() - i,
    {
        if text[at + i] != part[i] {
            assert(text@.subrange(at as int, at + part@.len())[i as int] != part@[i as int]);
            return false;
        }
        i += 1;
    }
    assert(text@.subrange(at as int, at + part@.len()) =~= part@);
    true
}

/// Whether a session description names an ICE candidate.
pub fn names_candidate(sdp: &str) -> (named: bool)
    ensures
        named == holds_candidate(sdp@),
{
    let text = characters(sdp);
    let name = characters("a=candidate:");
    let mut at: usize = 0;
    while at < text.len() && name.len() <= text.len() - at
        invariant
            text@ == sdp@,
            name@ == "a=candidate:"@,
            at <= text@.len(),
            forall|i: int| 0 <= i < at ==> !candidate_at(sdp@, i),
        decreases text@.len() - at,
    {
        if (at == 0 || text[at - 1] == '\n') && stands_at(&text, at, &name) {
            assert(candidate_at(sdp@, at as int));
            return true;
        }
        at += 1;
    }
    proof {
        reveal_strlit("a=candidate:");
        assert forall|i: int| !candidate_at(sdp@, i) by {}
    }
    false
}

} // verus!

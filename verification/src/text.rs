//! The textual form of a list: `[e1, e2, e3]`.

use std::fmt::Display;
use vstd::prelude::*;
use vstd::string::to_string_from_display_ensures;

verus! {

/// The characters of each string of `parts`.
pub open spec fn texts(parts: Seq<String>) -> Seq<Seq<char>> {
    parts.map_values(|part: String| part@)
}

/// The texts of `parts` in order, with `", "` between neighbours.
pub open spec fn joined(parts: Seq<Seq<char>>) -> Seq<char>
    decreases parts.len(),
{
    if parts.len() == 0 {
        Seq::empty()
    } else if parts.len() == 1 {
        parts[0]
    } else {
        joined(parts.drop_last()) + seq![',', ' '] + parts.last()
    }
}

/// The joined texts of `parts` between square brackets.
pub open spec fn list_text(parts: Seq<Seq<char>>) -> Seq<char> {
    seq!['['] + joined(parts) + seq![']']
}

/// `parts` holds, place for place, a text that `Display` gives for the element of `elements`.
pub open spec fn rendered_by<T: Display>(elements: Seq<T>, parts: Seq<String>) -> bool {
    &&& parts.len() == elements.len()
    &&& forall|i: int|
        0 <= i < elements.len() ==> to_string_from_display_ensures::<T>(
            &#[trigger] elements[i],
            parts[i],
        )
}

/// Writes the list whose elements have the texts `parts`.
pub fn render_list(parts: &Vec<String>) -> (text: String)
    ensures
        text@ == list_text(texts(parts@)),
{
    let mut text = String::from_str("[");
    proof {
        reveal_strlit("[");
        reveal_strlit(", ");
        reveal_strlit("]");
        assert(text@ =~= seq!['['] + joined(texts(parts@).take(0)));
    }
    let mut i: usize = 0;
    while i < parts.len()
        invariant
            i <= parts.len(),
            text@ == seq!['['] + joined(texts(parts@).take(i as int)),
            ", "@ == seq![',', ' '],
        decreases parts.len() - i,
    {
        let ghost done = texts(parts@).take(i as int);
        let ghost next = texts(parts@).take(i + 1);
        proof {
            assert(next.drop_last() =~= done);
            assert(next.last() == parts@[i as int]@);
        }
        if i > 0 {
            text.append(", ");
        }
        text.append(parts[i].as_str());
        proof {
            assert(text@ =~= seq!['['] + joined(next));
        }
        i += 1;
    }
    proof {
        assert(texts(parts@).take(i as int) =~= texts(parts@));
    }
    text.append("]");
    text
}

} // verus!

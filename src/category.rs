//! The engine's categories: their labels in the fixed order, which of them
//! earn a collapse boost, and the inverse-CDF choice of a collapsed index.

use vstd::prelude::*;
use vstd::string::StringExecFns;
use crate::text::same_text;

verus! {

/// The number of categories the engine carries.
pub const CATEGORY_COUNT: usize = 12;

/// The label of the category at position `i` of the fixed order.
pub open spec fn category_label(i: int) -> Seq<char> {
    if i == 0 {
        "회개"@
    } else if i == 1 {
        "사랑"@
    } else if i == 2 {
        "진리"@
    } else if i == 3 {
        "침묵"@
    } else if i == 4 {
        "순종"@
    } else if i == 5 {
        "감사"@
    } else if i == 6 {
        "부르짖음"@
    } else if i == 7 {
        "기다림"@
    } else if i == 8 {
        "자기부인"@
    } else if i == 9 {
        "소망"@
    } else if i == 10 {
        "믿음"@
    } else {
        "기쁨"@
    }
}

/// The category labels in their fixed order.
pub fn category_labels() -> (r: Vec<String>)
    ensures
        r.len() == CATEGORY_COUNT,
        forall|i: int| 0 <= i < CATEGORY_COUNT ==> #[trigger] r[i]@ == category_label(i),
{
    let mut r: Vec<String> = Vec::new();
    r.push(String::from_str("회개"));
    r.push(String::from_str("사랑"));
    r.push(String::from_str("진리"));
    r.push(String::from_str("침묵"));
    r.push(String::from_str("순종"));
    r.push(String::from_str("감사"));
    r.push(String::from_str("부르짖음"));
    r.push(String::from_str("기다림"));
    r.push(String::from_str("자기부인"));
    r.push(String::from_str("소망"));
    r.push(String::from_str("믿음"));
    r.push(String::from_str("기쁨"));
    r
}

/// The extra weight a category earns before collapse sampling.
#[derive(Clone, Copy, Debug, PartialEq, Eq, Structural)]
pub enum Boost {
    /// Repentance: grows with the resonance factor, love and the glory moment.
    Repentance,
    /// Love: love times joy.
    Love,
    /// Gratitude: the glory moment times love.
    Gratitude,
    /// No boost.
    Plain,
}

/// The boost that the category labelled `l` earns.
pub open spec fn boost_of_label(l: Seq<char>) -> Boost {
    if l == "회개"@ {
        Boost::Repentance
    } else if l == "사랑"@ {
        Boost::Love
    } else if l == "감사"@ {
        Boost::Gratitude
    } else {
        Boost::Plain
    }
}

/// Which boost the category labelled `label` earns.
pub fn boost_of(label: &str) -> (r: Boost)
    ensures
        r == boost_of_label(label@),
{
    if same_text(label, "회개") {
        Boost::Repentance
    } else if same_text(label, "사랑") {
        Boost::Love
    } else if same_text(label, "감사") {
        Boost::Gratitude
    } else {
        Boost::Plain
    }
}

/// Of the categories in the fixed order, the first earns the repentance
/// boost, the second the love boost, the sixth the gratitude boost, and no
/// other earns any.
pub proof fn lemma_boosted_categories()
    ensures
        forall|i: int|
            0 <= i < CATEGORY_COUNT ==> #[trigger] boost_of_label(category_label(i)) == if i
                == 0 {
                Boost::Repentance
            } else if i == 1 {
                Boost::Love
            } else if i == 5 {
                Boost::Gratitude
            } else {
                Boost::Plain
            },
{
    reveal_strlit("회개");
    reveal_strlit("사랑");
    reveal_strlit("진리");
    reveal_strlit("침묵");
    reveal_strlit("순종");
    reveal_strlit("감사");
    reveal_strlit("부르짖음");
    reveal_strlit("기다림");
    reveal_strlit("자기부인");
    reveal_strlit("소망");
    reveal_strlit("믿음");
    reveal_strlit("기쁨");
    assert forall|i: int| 0 <= i < CATEGORY_COUNT implies #[trigger] boost_of_label(
        category_label(i),
    ) == if i == 0 {
        Boost::Repentance
    } else if i == 1 {
        Boost::Love
    } else if i == 5 {
        Boost::Gratitude
    } else {
        Boost::Plain
    } by {
        let l = category_label(i);
        if i != 0 {
            assert(l[0] != "회개"@[0]);
        }
        if i != 1 {
            assert(l[0] != "사랑"@[0]);
        }
        if i != 5 {
            assert(l[0] != "감사"@[0]);
        }
    }
}

/// The first position at which `reached` holds, if any.
pub open spec fn first_reached(reached: Seq<bool>, i: int) -> bool {
    0 <= i < reached.len() && reached[i] && forall|j: int| 0 <= j < i ==> !reached[j]
}

/// Inverse-CDF choice of a collapsed index. `reached[i]` tells whether the
/// uniform draw lies at or below the cumulative probability of categories
/// `0..=i`; the choice is the first such index, and index 0 where the draw
/// lies above them all.
pub fn collapse_index(reached: &Vec<bool>) -> (r: usize)
    ensures
        (exists|i: int| 0 <= i < reached.len() && reached[i]) ==> first_reached(reached@, r as int),
        !(exists|i: int| 0 <= i < reached.len() && reached[i]) ==> r == 0,
{
    let mut i: usize = 0;
    while i < reached.len()
        invariant
            i <= reached.len(),
            forall|j: int| 0 <= j < i ==> !reached[j],
        decreases reached.len() - i,
    {
        if reached[i] {
            return i;
        }
        i += 1;
    }
    0
}

} // verus!

use vstd::prelude::*;

verus! {

/// A named entity found in a text, with the label the extractor gave it
/// (such as `PER` for a person).
#[derive(Clone, Debug, PartialEq, Eq)]
pub struct PII {
    pub text: String,
    pub label: String,
}

/// The entities of the extractor's `(text, label)` pairs, in the same order.
pub fn pii_from_pairs(pairs: &Vec<(String, String)>) -> (r: Vec<PII>)
    ensures
        r@.len() == pairs@.len(),
        forall|i: int|
            0 <= i < pairs@.len() ==> #[trigger] r@[i].text@ == pairs@[i].0@ && r@[i].label@
                == pairs@[i].1@,
{
    let mut r: Vec<PII> = Vec::new();
    let mut i: usize = 0;
    while i < pairs.len()
        invariant
            i <= pairs@.len(),
            r@.len() == i,
            forall|j: int|
                0 <= j < i ==> #[trigger] r@[j].text@ == pairs@[j].0@ && r@[j].label@
                    == pairs@[j].1@,
        decreases pairs@.len() - i,
    {
        let pair = &pairs[i];
        r.push(PII { text: pair.0.clone(), label: pair.1.clone() });
        i = i + 1;
    }
    r
}

} // verus!

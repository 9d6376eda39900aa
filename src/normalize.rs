//! Turning a property's string value into a metric value.
use vstd::prelude::*;

use crate::text::same_text;
use crate::vocabulary::{code_of, entries_of, is_member, lemma_member_has_code, precedence, Vocabulary};

verus! {

/// What a raw property value stands for as a metric.
///
/// `F` is the type of a value that the raw string spells as a number.
#[derive(Debug, PartialEq)]
pub enum Reading<F> {
    /// The raw value was a number, kept as it was read.
    Measured(F),
    /// The raw value was a known state token; its code in tenths.
    Coded(u32),
    /// Nothing matched: the metric value is zero, and the miss is to be reported.
    Unrecognized,
}

impl<F: Copy> Reading<F> {
    /// A copy of the reading.
    pub fn duplicate(&self) -> (r: Reading<F>)
        ensures
            r == *self,
    {
        match self {
            Reading::Measured(f) => Reading::Measured(*f),
            Reading::Coded(c) => Reading::Coded(*c),
            Reading::Unrecognized => Reading::Unrecognized,
        }
    }
}

/// The code in tenths of a boolean-like word: "on/open" is one, "off/closed" zero.
pub open spec fn synonym_code(s: Seq<char>) -> Option<u32> {
    if s == "true"@ || s == "open"@ {
        Some(10)
    } else if s == "false"@ || s == "closed"@ {
        Some(0)
    } else {
        None
    }
}

/// The code of `s` in the first of `order` that holds it.
pub open spec fn first_vocabulary_code(order: Seq<Vocabulary>, s: Seq<char>) -> Option<u32>
    decreases order.len(),
{
    if order.len() == 0 {
        None
    } else if code_of(order[0], s).is_some() {
        code_of(order[0], s)
    } else {
        first_vocabulary_code(order.drop_first(), s)
    }
}

/// The code of `s` in the first vocabulary, by precedence, that holds it.
pub open spec fn vocabulary_code(s: Seq<char>) -> Option<u32> {
    first_vocabulary_code(precedence(), s)
}

/// What `raw` normalizes to, given what it reads as when taken for a number.
pub open spec fn reading_of<F>(raw: Seq<char>, parsed: Option<F>) -> Reading<F> {
    match parsed {
        Some(f) => Reading::Measured(f),
        None => match synonym_code(raw) {
            Some(c) => Reading::Coded(c),
            None => match vocabulary_code(raw) {
                Some(c) => Reading::Coded(c),
                None => Reading::Unrecognized,
            },
        },
    }
}

/// The code in tenths of a boolean-like word, if `s` is one.
pub fn synonym(s: &str) -> (r: Option<u32>)
    ensures
        r == synonym_code(s@),
{
    if same_text(s, "true") || same_text(s, "open") {
        Some(10)
    } else if same_text(s, "false") || same_text(s, "closed") {
        Some(0)
    } else {
        None
    }
}

/// The code of `s` in the first vocabulary, by precedence, that holds it.
pub fn state_code(s: &str) -> (r: Option<u32>)
    ensures
        r == vocabulary_code(s@),
{
    let order = Vocabulary::precedence();
    let ghost all = order@;
    assert(all.skip(0) =~= all);
    let mut i: usize = 0;
    while i < order.len()
        invariant
            i <= order@.len(),
            all == order@,
            all == precedence(),
            first_vocabulary_code(all, s@) == first_vocabulary_code(all.skip(i as int), s@),
        decreases order@.len() - i,
    {
        assert(all.skip(i as int).drop_first() =~= all.skip(i + 1));
        let c = order[i].code(s);
        if c.is_some() {
            return c;
        }
        i = i + 1;
    }
    None
}

/// Normalizes a raw property value.
///
/// `parsed` is `raw` read as a number where it reads as one, and `None` where it
/// does not. A number is kept as it is; otherwise a boolean-like word, and then
/// a state token of the first vocabulary that holds it, gives a code; otherwise
/// the reading is `Unrecognized`.
pub fn normalize<F>(raw: &str, parsed: Option<F>) -> (r: Reading<F>)
    ensures
        r == reading_of(raw@, parsed),
{
    match parsed {
        Some(f) => Reading::Measured(f),
        None => match synonym(raw) {
            Some(c) => Reading::Coded(c),
            None => match state_code(raw) {
                Some(c) => Reading::Coded(c),
                None => Reading::Unrecognized,
            },
        },
    }
}

/// No state token of any vocabulary is a boolean-like word.
pub proof fn lemma_tokens_are_not_synonyms(v: Vocabulary, i: int)
    requires
        0 <= i < entries_of(v).len(),
    ensures
        synonym_code(entries_of(v)[i].0) is None,
{
    reveal_strlit("true");
    reveal_strlit("open");
    reveal_strlit("false");
    reveal_strlit("closed");
    reveal_strlit("lockout");
    reveal_strlit("standby");
    reveal_strlit("blower");
    reveal_strlit("heating");
    reveal_strlit("heating_with_aux");
    reveal_strlit("emergency_heat");
    reveal_strlit("cooling");
    reveal_strlit("waiting");
    reveal_strlit("h1");
    reveal_strlit("h2");
    reveal_strlit("h3");
    reveal_strlit("c1");
    reveal_strlit("c2");
    reveal_strlit("auto");
    reveal_strlit("manual");
    reveal_strlit("off");
    reveal_strlit("cool");
    reveal_strlit("heat");
    reveal_strlit("eheat");
    reveal_strlit("continuous");
    reveal_strlit("intermittent");
    reveal_strlit("economy");
    reveal_strlit("comfort");
    let t = entries_of(v)[i].0;
    // Words of equal length already differ in their first character.
    assert(t[0] != "true"@[0] || t.len() != 4);
    assert(t[0] != "open"@[0] || t.len() != 4);
    assert(t[0] != "false"@[0] || t.len() != 5);
    assert(t[0] != "closed"@[0] || t.len() != 6);
}

/// The first vocabulary of `order` that holds `t` gives its code.
pub proof fn lemma_first_holder_decides(order: Seq<Vocabulary>, k: int, t: Seq<char>)
    requires
        0 <= k < order.len(),
        code_of(order[k], t) is Some,
        forall|j: int| 0 <= j < k ==> code_of(#[trigger] order[j], t) is None,
    ensures
        first_vocabulary_code(order, t) == code_of(order[k], t),
    decreases order.len(),
{
    if k > 0 {
        let rest = order.drop_first();
        assert forall|j: int| 0 <= j < k - 1 implies code_of(#[trigger] rest[j], t) is None by {
            assert(rest[j] == order[j + 1]);
        }
        lemma_first_holder_decides(rest, k - 1, t);
    }
}

/// A token of a vocabulary that no vocabulary consulted before it holds
/// normalizes to its code in that vocabulary: the first vocabulary by
/// precedence that holds a token decides its code.
pub proof fn lemma_token_normalizes_to_its_code<F>(k: int, t: Seq<char>)
    requires
        0 <= k < precedence().len(),
        is_member(precedence()[k], t),
        forall|j: int| 0 <= j < k ==> !is_member(#[trigger] precedence()[j], t),
    ensures
        code_of(precedence()[k], t) is Some,
        reading_of::<F>(t, None) == Reading::<F>::Coded(code_of(precedence()[k], t).unwrap()),
{
    let v = precedence()[k];
    let i = choose|i: int| 0 <= i < entries_of(v).len() && #[trigger] entries_of(v)[i].0 == t;
    lemma_tokens_are_not_synonyms(v, i);
    lemma_member_has_code(v, t);
    assert forall|j: int| 0 <= j < k implies code_of(#[trigger] precedence()[j], t) is None by {
        lemma_member_has_code(precedence()[j], t);
    }
    lemma_first_holder_decides(precedence(), k, t);
}

/// A value that reads as a number normalizes to that number unchanged.
pub proof fn lemma_number_round_trips<F>(raw: Seq<char>, f: F)
    ensures
        reading_of(raw, Some(f)) == Reading::Measured(f),
{
}

} // verus!

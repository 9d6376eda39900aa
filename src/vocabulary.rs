//! The fixed vocabularies of device states and their numeric codes.
//!
//! A code is a count of tenths: `22` stands for `2.2`.
use vstd::prelude::*;

use crate::text::same_text;

verus! {

/// A named, closed set of state tokens.
#[derive(Clone, Copy, Debug, PartialEq, Eq, Structural)]
pub enum Vocabulary {
    CurrentMode,
    HumidifierMode,
    TargetMode,
    TargetFanMode,
    ZonePriority,
}

/// The tokens of a vocabulary, in order, each with its code in tenths.
pub open spec fn entries_of(v: Vocabulary) -> Seq<(Seq<char>, u32)> {
    match v {
        Vocabulary::CurrentMode => seq![
            ("lockout"@, 10),
            ("standby"@, 20),
            ("blower"@, 30),
            ("heating"@, 40),
            ("heating_with_aux"@, 50),
            ("emergency_heat"@, 60),
            ("cooling"@, 70),
            ("waiting"@, 80),
            ("h1"@, 21),
            ("h2"@, 22),
            ("h3"@, 23),
            ("c1"@, 24),
            ("c2"@, 25),
        ],
        Vocabulary::HumidifierMode => seq![("auto"@, 10), ("manual"@, 20)],
        Vocabulary::TargetMode => seq![
            ("off"@, 10),
            ("auto"@, 20),
            ("cool"@, 30),
            ("heat"@, 40),
            ("eheat"@, 50),
        ],
        Vocabulary::TargetFanMode => seq![("auto"@, 10), ("continuous"@, 20), ("intermittent"@, 30)],
        Vocabulary::ZonePriority => seq![("economy"@, 10), ("comfort"@, 20)],
    }
}

/// The code of the first entry whose token is `s`.
pub open spec fn first_code(entries: Seq<(Seq<char>, u32)>, s: Seq<char>) -> Option<u32>
    decreases entries.len(),
{
    if entries.len() == 0 {
        None
    } else if entries[0].0 == s {
        Some(entries[0].1)
    } else {
        first_code(entries.drop_first(), s)
    }
}

/// The code of `s` in vocabulary `v`, if `s` is one of its tokens.
pub open spec fn code_of(v: Vocabulary, s: Seq<char>) -> Option<u32> {
    first_code(entries_of(v), s)
}

/// Whether `s` is a token of vocabulary `v`.
pub open spec fn is_member(v: Vocabulary, s: Seq<char>) -> bool {
    exists|i: int| 0 <= i < entries_of(v).len() && #[trigger] entries_of(v)[i].0 == s
}

/// What a table of string tokens holds, as characters.
pub open spec fn table_view(t: Seq<(&str, u32)>) -> Seq<(Seq<char>, u32)> {
    t.map_values(|e: (&str, u32)| (e.0@, e.1))
}

/// `first_code` finds a code exactly when some entry holds the token.
pub proof fn lemma_first_code_found(entries: Seq<(Seq<char>, u32)>, s: Seq<char>)
    ensures
        first_code(entries, s).is_some() <==> exists|i: int|
            0 <= i < entries.len() && #[trigger] entries[i].0 == s,
    decreases entries.len(),
{
    if entries.len() > 0 {
        lemma_first_code_found(entries.drop_first(), s);
        if entries[0].0 != s {
            assert forall|i: int| 0 < i < entries.len() && #[trigger] entries[i].0 == s implies
                exists|k: int| 0 <= k < entries.drop_first().len()
                    && #[trigger] entries.drop_first()[k].0 == s by {
                assert(entries.drop_first()[i - 1] == entries[i]);
            }
        }
    }
}

/// Membership and code lookup agree: a token has a code, and only tokens do.
pub proof fn lemma_member_has_code(v: Vocabulary, s: Seq<char>)
    ensures
        is_member(v, s) <==> code_of(v, s).is_some(),
{
    lemma_first_code_found(entries_of(v), s);
}

/// Within one vocabulary no two tokens share a code.
pub proof fn lemma_codes_are_distinct(v: Vocabulary, i: int, j: int)
    requires
        0 <= i < entries_of(v).len(),
        0 <= j < entries_of(v).len(),
        i != j,
    ensures
        entries_of(v)[i].1 != entries_of(v)[j].1,
{
}

impl Vocabulary {
    /// The order in which the vocabularies are consulted.
    pub fn precedence() -> (r: Vec<Vocabulary>)
        ensures
            r@ == precedence(),
    {
        vec![
            Vocabulary::CurrentMode,
            Vocabulary::HumidifierMode,
            Vocabulary::TargetMode,
            Vocabulary::TargetFanMode,
            Vocabulary::ZonePriority,
        ]
    }

    /// The vocabulary's tokens with their codes in tenths.
    pub fn entries(self) -> (r: Vec<(&'static str, u32)>)
        ensures
            table_view(r@) == entries_of(self),
    {
        let r = match self {
            Vocabulary::CurrentMode => vec![
                ("lockout", 10),
                ("standby", 20),
                ("blower", 30),
                ("heating", 40),
                ("heating_with_aux", 50),
                ("emergency_heat", 60),
                ("cooling", 70),
                ("waiting", 80),
                ("h1", 21),
                ("h2", 22),
                ("h3", 23),
                ("c1", 24),
                ("c2", 25),
            ],
            Vocabulary::HumidifierMode => vec![("auto", 10), ("manual", 20)],
            Vocabulary::TargetMode => vec![
                ("off", 10),
                ("auto", 20),
                ("cool", 30),
                ("heat", 40),
                ("eheat", 50),
            ],
            Vocabulary::TargetFanMode => vec![("auto", 10), ("continuous", 20), ("intermittent", 30)],
            Vocabulary::ZonePriority => vec![("economy", 10), ("comfort", 20)],
        };
        assert(table_view(r@) =~= entries_of(self));
        r
    }

    /// Whether `s` is one of the vocabulary's tokens.
    pub fn contains(self, s: &str) -> (r: bool)
        ensures
            r == is_member(self, s@),
    {
        proof {
            lemma_member_has_code(self, s@);
        }
        self.code(s).is_some()
    }

    /// The code of `s` in tenths, or `None` where `s` is not a token of the vocabulary.
    pub fn code(self, s: &str) -> (r: Option<u32>)
        ensures
            r == code_of(self, s@),
    {
        let table = self.entries();
        lookup(&table, s)
    }
}

/// The order in which the vocabularies are consulted.
pub open spec fn precedence() -> Seq<Vocabulary> {
    seq![
        Vocabulary::CurrentMode,
        Vocabulary::HumidifierMode,
        Vocabulary::TargetMode,
        Vocabulary::TargetFanMode,
        Vocabulary::ZonePriority,
    ]
}

/// The code of the first entry of `table` whose token is `s`.
pub fn lookup(table: &Vec<(&str, u32)>, s: &str) -> (r: Option<u32>)
    ensures
        r == first_code(table_view(table@), s@),
{
    let ghost all = table_view(table@);
    assert(all.skip(0) =~= all);
    let mut i: usize = 0;
    while i < table.len()
        invariant
            i <= table@.len(),
            all == table_view(table@),
            first_code(all, s@) == first_code(all.skip(i as int), s@),
        decreases table@.len() - i,
    {
        let (token, code) = table[i];
        assert(all.skip(i as int)[0] == (token@, code));
        assert(all.skip(i as int).drop_first() =~= all.skip(i + 1));
        if same_text(token, s) {
            return Some(code);
        }
        i = i + 1;
    }
    assert(all.skip(i as int).len() == 0);
    None
}

/// Whether `s` is a current operating mode token.
pub fn in_current_mode(s: &str) -> (r: bool)
    ensures
        r == is_member(Vocabulary::CurrentMode, s@),
{
    Vocabulary::CurrentMode.contains(s)
}

/// The code in tenths of a current operating mode token, or `None` where `s` is not one.
pub fn current_mode_to_value(s: &str) -> (r: Option<u32>)
    ensures
        r == code_of(Vocabulary::CurrentMode, s@),
{
    Vocabulary::CurrentMode.code(s)
}

/// Whether `s` is a humidifier mode token.
pub fn in_humidifier_mode(s: &str) -> (r: bool)
    ensures
        r == is_member(Vocabulary::HumidifierMode, s@),
{
    Vocabulary::HumidifierMode.contains(s)
}

/// The code in tenths of a humidifier mode token, or `None` where `s` is not one.
pub fn humidifier_mode_to_value(s: &str) -> (r: Option<u32>)
    ensures
        r == code_of(Vocabulary::HumidifierMode, s@),
{
    Vocabulary::HumidifierMode.code(s)
}

/// Whether `s` is a target mode token.
pub fn in_target_mode(s: &str) -> (r: bool)
    ensures
        r == is_member(Vocabulary::TargetMode, s@),
{
    Vocabulary::TargetMode.contains(s)
}

/// The code in tenths of a target mode token, or `None` where `s` is not one.
pub fn target_mode_to_value(s: &str) -> (r: Option<u32>)
    ensures
        r == code_of(Vocabulary::TargetMode, s@),
{
    Vocabulary::TargetMode.code(s)
}

/// Whether `s` is a target fan mode token.
pub fn in_target_fan_mode(s: &str) -> (r: bool)
    ensures
        r == is_member(Vocabulary::TargetFanMode, s@),
{
    Vocabulary::TargetFanMode.contains(s)
}

/// The code in tenths of a target fan mode token, or `None` where `s` is not one.
pub fn target_fan_mode_to_value(s: &str) -> (r: Option<u32>)
    ensures
        r == code_of(Vocabulary::TargetFanMode, s@),
{
    Vocabulary::TargetFanMode.code(s)
}

/// Whether `s` is a zone priority token.
pub fn in_zone_priority(s: &str) -> (r: bool)
    ensures
        r == is_member(Vocabulary::ZonePriority, s@),
{
    Vocabulary::ZonePriority.contains(s)
}

/// The code in tenths of a zone priority token, or `None` where `s` is not one.
pub fn zone_priority_to_value(s: &str) -> (r: Option<u32>)
    ensures
        r == code_of(Vocabulary::ZonePriority, s@),
{
    Vocabulary::ZonePriority.code(s)
}

} // verus!

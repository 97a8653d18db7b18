//! The closed set of geometric operators, and the rule that resolves a
//! free-text label to one of them.

use crate::json::{other_members, set_text_member, text_member, text_members};
use vstd::prelude::*;

verus! {

/// One of the four transformations that a task may ask for.
#[derive(Clone, Copy, Debug, PartialEq, Eq, Structural)]
pub enum GeometricOperator {
    QuaternionRotation,
    Zitterbewegung,
    GeometricDerivation,
    SemanticSynthesis,
}

/// What `str::trim` makes of a text.
pub uninterp spec fn trimmed_of(text: Seq<char>) -> Seq<char>;

/// What `str::to_lowercase` makes of a text.
pub uninterp spec fn lowercase_of(text: Seq<char>) -> Seq<char>;

/// `str::trim` strips leading and trailing white space as Unicode defines it.
/// The result is a function of the text alone; it is named, not spelled out.
pub assume_specification[ str::trim ](text: &str) -> (trimmed: &str)
    ensures
        trimmed@ == trimmed_of(text@),
;

/// `str::to_lowercase` maps a text to its Unicode lower case. The result is a
/// function of the text alone; it is named, not spelled out.
pub assume_specification[ str::to_lowercase ](text: &str) -> (lowered: String)
    ensures
        lowered@ == lowercase_of(text@),
;

/// `word` stands in `text` at position `at`.
pub open spec fn occurs_at(text: Seq<char>, word: Seq<char>, at: int) -> bool {
    &&& 0 <= at
    &&& at + word.len() <= text.len()
    &&& text.subrange(at, at + word.len()) == word
}

/// `word` stands somewhere in `text`.
pub open spec fn mentions(text: Seq<char>, word: Seq<char>) -> bool {
    exists|at: int| occurs_at(text, word, at)
}

/// The characters of a text, one by one.
pub fn chars_of(text: &str) -> (out: Vec<char>)
    ensures
        out@ == text@,
{
    let mut out: Vec<char> = Vec::new();
    for c in it: text.chars()
        invariant
            out@ == it.seq().take(it.index() as int),
            it.seq() == text@,
    {
        out.push(c);
    }
    out
}

/// Whether `word` stands in `text` at position `at`.
fn stands_at(text: &Vec<char>, word: &Vec<char>, at: usize) -> (found: bool)
    requires
        at + word.len() <= text.len(),
    ensures
        found == occurs_at(text@, word@, at as int),
{
    let mut k: usize = 0;
    while k < word.len()
        invariant
            k <= word.len(),
            at + word.len() <= text.len(),
            forall|j: int| 0 <= j < k ==> text@[at + j] == word@[j],
        decreases word.len() - k,
    {
        if text[at + k] != word[k] {
            proof {
                let part = text@.subrange(at as int, at + word.len());
                assert(part[k as int] == text@[at + k]);
            }
            return false;
        }
        k += 1;
    }
    proof {
        assert(text@.subrange(at as int, at + word.len()) =~= word@);
    }
    true
}

/// Whether `word` stands somewhere in `text`.
pub fn mentions_word(text: &Vec<char>, word: &str) -> (found: bool)
    ensures
        found == mentions(text@, word@),
{
    let needle = chars_of(word);
    if needle.len() > text.len() {
        return false;
    }
    let last: usize = text.len() - needle.len();
    let mut at: usize = 0;
    loop
        invariant
            at <= last,
            last == text.len() - needle.len(),
            needle@ == word@,
            forall|j: int| 0 <= j < at ==> !occurs_at(text@, word@, j),
        decreases last - at,
    {
        if stands_at(text, &needle, at) {
            return true;
        }
        if at == last {
            return false;
        }
        at += 1;
    }
}

/// The operator that a label stands for, once the label is trimmed and in
/// lower case: the first of these that applies. A label that mentions
/// "zitter" or "oscillation" asks for `Zitterbewegung`; one that mentions
/// "stabilize" or "derivation" for `GeometricDerivation`; one that mentions
/// "semantic" or "anchor" for `SemanticSynthesis`; every other label, those
/// that mention "coherence", "optimize" or "quaternion" among them, for
/// `QuaternionRotation`.
pub open spec fn operator_of_label(lowered: Seq<char>) -> GeometricOperator {
    if mentions(lowered, "zitter"@) || mentions(lowered, "oscillation"@) {
        GeometricOperator::Zitterbewegung
    } else if mentions(lowered, "stabilize"@) || mentions(lowered, "derivation"@) {
        GeometricOperator::GeometricDerivation
    } else if mentions(lowered, "semantic"@) || mentions(lowered, "anchor"@) {
        GeometricOperator::SemanticSynthesis
    } else {
        GeometricOperator::QuaternionRotation
    }
}

/// The operator that a free-text label resolves to.
pub open spec fn normalized_operator(raw: Seq<char>) -> GeometricOperator {
    operator_of_label(lowercase_of(trimmed_of(raw)))
}

impl GeometricOperator {
    /// The operator's name as it is written in a task command.
    pub open spec fn name_spec(self) -> Seq<char> {
        match self {
            GeometricOperator::QuaternionRotation => "QuaternionRotation"@,
            GeometricOperator::Zitterbewegung => "Zitterbewegung"@,
            GeometricOperator::GeometricDerivation => "GeometricDerivation"@,
            GeometricOperator::SemanticSynthesis => "SemanticSynthesis"@,
        }
    }

    /// The operator's name in lower case.
    pub open spec fn lowered_name(self) -> Seq<char> {
        match self {
            GeometricOperator::QuaternionRotation => "quaternionrotation"@,
            GeometricOperator::Zitterbewegung => "zitterbewegung"@,
            GeometricOperator::GeometricDerivation => "geometricderivation"@,
            GeometricOperator::SemanticSynthesis => "semanticsynthesis"@,
        }
    }

    /// The operator's name as it is written in a task command.
    pub fn name(&self) -> (name: &'static str)
        ensures
            name@ == self.name_spec(),
    {
        match self {
            GeometricOperator::QuaternionRotation => "QuaternionRotation",
            GeometricOperator::Zitterbewegung => "Zitterbewegung",
            GeometricOperator::GeometricDerivation => "GeometricDerivation",
            GeometricOperator::SemanticSynthesis => "SemanticSynthesis",
        }
    }

    /// Resolves a label that is already trimmed and in lower case.
    pub fn from_lowered_label(lowered: &str) -> (operator: GeometricOperator)
        ensures
            operator == operator_of_label(lowered@),
    {
        let text = chars_of(lowered);
        if mentions_word(&text, "zitter") || mentions_word(&text, "oscillation") {
            GeometricOperator::Zitterbewegung
        } else if mentions_word(&text, "stabilize") || mentions_word(&text, "derivation") {
            GeometricOperator::GeometricDerivation
        } else if mentions_word(&text, "semantic") || mentions_word(&text, "anchor") {
            GeometricOperator::SemanticSynthesis
        } else {
            GeometricOperator::QuaternionRotation
        }
    }

    /// Resolves a free-text label. Every label resolves to an operator: there
    /// is no error outcome.
    pub fn from_label(raw: &str) -> (operator: GeometricOperator)
        ensures
            operator == normalized_operator(raw@),
    {
        let lowered = raw.trim().to_lowercase();
        GeometricOperator::from_lowered_label(lowered.as_str())
    }
}

/// The name of the operator that a free-text label resolves to.
pub fn map_llm_response_to_operator(raw: &str) -> (name: &'static str)
    ensures
        name@ == normalized_operator(raw@).name_spec(),
{
    GeometricOperator::from_label(raw).name()
}

/// In a structured command, rewrites the label under `geometric_operator` to
/// the name of the operator that it resolves to. Every other member stays as
/// it is; a value that holds no text under that key is left alone.
pub fn normalize_geometric_operator(payload: &mut serde_json::Value)
    ensures
        text_members(*old(payload)).contains_key("geometric_operator"@) ==> {
            &&& text_members(*final(payload)) == text_members(*old(payload)).insert(
                "geometric_operator"@,
                normalized_operator(
                    text_members(*old(payload))["geometric_operator"@],
                ).name_spec(),
            )
            &&& other_members(*final(payload)) == other_members(*old(payload))
        },
        !text_members(*old(payload)).contains_key("geometric_operator"@) ==> *final(payload)
            == *old(payload),
{
    if let Some(raw) = text_member(payload, "geometric_operator") {
        let name = map_llm_response_to_operator(raw.as_str());
        set_text_member(payload, "geometric_operator", name);
    }
}

/// A text that lacks one character of a word does not mention the word.
pub proof fn lemma_missing_character(text: Seq<char>, word: Seq<char>, k: int)
    requires
        0 <= k < word.len(),
        forall|i: int| 0 <= i < text.len() ==> text[i] != word[k],
    ensures
        !mentions(text, word),
{
    assert forall|at: int| !occurs_at(text, word, at) by {
        if occurs_at(text, word, at) {
            assert(text.subrange(at, at + word.len())[k] == text[at + k]);
        }
    }
}

/// An operator's own name, in whatever case and with white space around it,
/// resolves to that operator.
pub proof fn lemma_names_resolve_to_themselves(operator: GeometricOperator, raw: Seq<char>)
    requires
        lowercase_of(trimmed_of(raw)) == operator.lowered_name(),
    ensures
        normalized_operator(raw) == operator,
{
    reveal_strlit("zitter");
    reveal_strlit("oscillation");
    reveal_strlit("stabilize");
    reveal_strlit("derivation");
    reveal_strlit("semantic");
    reveal_strlit("anchor");
    let text = operator.lowered_name();
    match operator {
        GeometricOperator::QuaternionRotation => {
            reveal_strlit("quaternionrotation");
            lemma_missing_character(text, "zitter"@, 0);
            lemma_missing_character(text, "oscillation"@, 1);
            lemma_missing_character(text, "stabilize"@, 0);
            lemma_missing_character(text, "derivation"@, 0);
            lemma_missing_character(text, "semantic"@, 0);
            lemma_missing_character(text, "anchor"@, 2);
        },
        GeometricOperator::Zitterbewegung => {
            reveal_strlit("zitterbewegung");
            assert(text.subrange(0, 6) =~= "zitter"@);
            assert(occurs_at(text, "zitter"@, 0));
        },
        GeometricOperator::GeometricDerivation => {
            reveal_strlit("geometricderivation");
            lemma_missing_character(text, "zitter"@, 0);
            lemma_missing_character(text, "oscillation"@, 1);
            assert(text.subrange(9, 19) =~= "derivation"@);
            assert(occurs_at(text, "derivation"@, 9));
        },
        GeometricOperator::SemanticSynthesis => {
            reveal_strlit("semanticsynthesis");
            lemma_missing_character(text, "zitter"@, 0);
            lemma_missing_character(text, "oscillation"@, 0);
            lemma_missing_character(text, "stabilize"@, 3);
            lemma_missing_character(text, "derivation"@, 0);
            assert(text.subrange(0, 8) =~= "semantic"@);
            assert(occurs_at(text, "semantic"@, 0));
        },
    }
}

} // verus!

//! The string-transform pipeline.
//!
//! A transform spec is a comma-separated list of transform names, matched
//! case-insensitively. `uppercase` and `lowercase` transform the whole
//! string; any unrecognized name is an inert step that neither fails parsing
//! nor reports an error, so an empty spec is the identity.
use crate::text::split_char;
use crate::text::split_from;
use vstd::prelude::*;
use vstd::string::StrSliceExecFns;
use vstd::string::StringExecFns;

verus! {

/// What `str::to_uppercase` returns for a given text.
pub uninterp spec fn upper_of(s: Seq<char>) -> Seq<char>;

/// What `str::to_lowercase` returns for a given text.
pub uninterp spec fn lower_of(s: Seq<char>) -> Seq<char>;

/// Relies on `str::to_uppercase`: the result is a function of the characters
/// alone, and uppercasing a text that uppercasing produced changes nothing.
#[verifier::external_body]
fn to_upper(s: &str) -> (r: String)
    ensures
        r@ == upper_of(s@),
        upper_of(r@) == r@,
{
    s.to_uppercase()
}

/// Relies on `str::to_lowercase`: the result is a function of the characters
/// alone, and lowercasing a text that lowercasing produced changes nothing.
#[verifier::external_body]
fn to_lower(s: &str) -> (r: String)
    ensures
        r@ == lower_of(s@),
        lower_of(r@) == r@,
{
    s.to_lowercase()
}

/// One step of the pipeline.
#[derive(Clone, Copy, Debug, PartialEq, Eq, Structural)]
pub enum Instructions {
    /// Make the whole value uppercase.
    Uppercase,
    /// Make the whole value lowercase.
    Lowercase,
    /// A transform name that is not recognized: an inert step.
    Unknown,
}

/// Whether two characters are equal up to the case of an ASCII letter.
pub open spec fn char_eq_ci(a: char, b: char) -> bool {
    ||| a == b
    ||| (65 <= a as u32 <= 90 && b as u32 == a as u32 + 32)
    ||| (65 <= b as u32 <= 90 && a as u32 == b as u32 + 32)
}

/// Whether two texts are equal up to the case of their ASCII letters.
pub open spec fn eq_ci(a: Seq<char>, b: Seq<char>) -> bool {
    a.len() == b.len() && forall|i: int| 0 <= i < a.len() ==> char_eq_ci(a[i], b[i])
}

/// Decides `char_eq_ci`.
fn char_eq_ci_exec(a: char, b: char) -> (r: bool)
    ensures
        r == char_eq_ci(a, b),
{
    let x = a as u32;
    let y = b as u32;
    a == b || (65 <= x && x <= 90 && y == x + 32) || (65 <= y && y <= 90 && x == y + 32)
}

/// Decides `eq_ci`.
fn eq_ci_str(a: &str, b: &str) -> (r: bool)
    ensures
        r == eq_ci(a@, b@),
{
    let n = a.unicode_len();
    if n != b.unicode_len() {
        return false;
    }
    let mut i: usize = 0;
    while i < n
        invariant
            i <= n,
            n == a@.len(),
            n == b@.len(),
            forall|k: int| 0 <= k < i ==> char_eq_ci(a@[k], b@[k]),
        decreases n - i,
    {
        if !char_eq_ci_exec(a.get_char(i), b.get_char(i)) {
            return false;
        }
        i += 1;
    }
    true
}

/// The step a transform name resolves to; names are matched without regard
/// to ASCII letter case, and anything unrecognized is inert.
pub open spec fn spec_step(seg: Seq<char>) -> Instructions {
    if eq_ci(seg, "uppercase"@) {
        Instructions::Uppercase
    } else if eq_ci(seg, "lowercase"@) {
        Instructions::Lowercase
    } else {
        Instructions::Unknown
    }
}

/// Resolves one transform name to its step.
fn step_of(seg: &str) -> (r: Instructions)
    ensures
        r == spec_step(seg@),
{
    if eq_ci_str(seg, "uppercase") {
        Instructions::Uppercase
    } else if eq_ci_str(seg, "lowercase") {
        Instructions::Lowercase
    } else {
        Instructions::Unknown
    }
}

/// The pipeline a transform spec parses to: one step per comma-separated
/// segment, in declaration order.
pub open spec fn spec_parse(s: Seq<char>) -> Seq<Instructions> {
    split_from(s, 0, ',').map_values(|seg: Seq<char>| spec_step(seg))
}

/// What one step makes of a text.
pub open spec fn apply_one(ins: Instructions, s: Seq<char>) -> Seq<char> {
    match ins {
        Instructions::Uppercase => upper_of(s),
        Instructions::Lowercase => lower_of(s),
        Instructions::Unknown => s,
    }
}

/// The text folded left to right through the steps in declaration order.
pub open spec fn spec_apply(steps: Seq<Instructions>, s: Seq<char>) -> Seq<char>
    decreases steps.len(),
{
    if steps.len() == 0 {
        s
    } else {
        spec_apply(steps.drop_first(), apply_one(steps[0], s))
    }
}

/// A parsed transform pipeline: the ordered steps a spec resolved to.
#[derive(Debug, Clone)]
pub struct Apply(pub Vec<Instructions>);

impl View for Apply {
    type V = Seq<Instructions>;

    open spec fn view(&self) -> Seq<Instructions> {
        self.0@
    }
}

impl Apply {
    /// Parses a comma-separated list of transform names into a pipeline.
    /// Unrecognized names parse to inert steps rather than failing.
    pub fn parse(input: &str) -> (r: Apply)
        ensures
            r@ == spec_parse(input@),
    {
        let segs = split_char(input, ',');
        let mut steps: Vec<Instructions> = Vec::new();
        let mut k: usize = 0;
        proof {
            assert(steps@ =~= spec_parse(input@).take(0));
        }
        while k < segs.len()
            invariant
                k <= segs.len(),
                segs@.map_values(|t: String| t@) == split_from(input@, 0, ','),
                steps@ == spec_parse(input@).take(k as int),
            decreases segs.len() - k,
        {
            proof {
                assert(split_from(input@, 0, ',')[k as int] == segs@[k as int]@);
            }
            let ins = step_of(segs[k].as_str());
            steps.push(ins);
            proof {
                assert(steps@ =~= spec_parse(input@).take(k as int + 1));
            }
            k += 1;
        }
        proof {
            assert(spec_parse(input@).take(segs@.len() as int) =~= spec_parse(input@));
        }
        Apply(steps)
    }

    /// Folds the input left to right through the parsed steps. A pipeline
    /// ending in `uppercase` or `lowercase` yields a text that the same
    /// transform maps to itself, so applying such a pipeline twice equals
    /// applying it once.
    pub fn execute(&self, input: &str) -> (r: String)
        ensures
            r@ == spec_apply(self@, input@),
            self@.len() > 0 && self@.last() == Instructions::Uppercase ==> upper_of(r@) == r@,
            self@.len() > 0 && self@.last() == Instructions::Lowercase ==> lower_of(r@) == r@,
    {
        let mut cur = String::from_str(input);
        let mut k: usize = 0;
        proof {
            assert(self@.skip(0) =~= self@);
        }
        while k < self.0.len()
            invariant
                k <= self.0.len(),
                spec_apply(self@.skip(k as int), cur@) == spec_apply(self@, input@),
                k > 0 && self@[k as int - 1] == Instructions::Uppercase ==> upper_of(cur@) == cur@,
                k > 0 && self@[k as int - 1] == Instructions::Lowercase ==> lower_of(cur@) == cur@,
            decreases self.0.len() - k,
        {
            proof {
                assert(self@.skip(k as int).drop_first() =~= self@.skip(k as int + 1));
                assert(self@.skip(k as int)[0] == self@[k as int]);
            }
            match self.0[k] {
                Instructions::Uppercase => {
                    cur = to_upper(cur.as_str());
                },
                Instructions::Lowercase => {
                    cur = to_lower(cur.as_str());
                },
                Instructions::Unknown => {},
            }
            k += 1;
        }
        proof {
            assert(self@.skip(self.0@.len() as int) =~= Seq::<Instructions>::empty());
        }
        cur
    }
}

/// An empty transform spec parses to a pipeline that is the identity on
/// every text.
pub proof fn lemma_empty_spec_identity(s: Seq<char>)
    ensures
        spec_apply(spec_parse(Seq::<char>::empty()), s) == s,
{
    reveal_strlit("uppercase");
    reveal_strlit("lowercase");
    let empty = Seq::<char>::empty();
    assert(split_from(empty, 0, ',') =~= seq![empty]);
    assert(spec_step(empty) == Instructions::Unknown);
    assert(spec_parse(empty) =~= seq![Instructions::Unknown]);
    assert(seq![Instructions::Unknown].drop_first() =~= Seq::<Instructions>::empty());
    assert(seq![Instructions::Unknown][0] == Instructions::Unknown);
    assert(spec_apply(Seq::<Instructions>::empty(), s) == s);
    assert(spec_apply(seq![Instructions::Unknown], s) == spec_apply(
        Seq::<Instructions>::empty(),
        s,
    ));
}

} // verus!

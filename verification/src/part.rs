//! The Enum Parser: a closed set of named variants, read from text
//! case-insensitively.

use crate::error::ConfigError;
use vstd::prelude::*;

verus! {

broadcast use vstd::string::group_string_axioms;

/// The closed set of parts a configuration may select.
#[derive(Debug, Clone, Copy, PartialEq, Eq, Structural)]
pub enum Part {
    One,
    Two,
}

/// The text that `str::to_lowercase` maps the given characters to.
pub uninterp spec fn lower_of(s: Seq<char>) -> Seq<char>;

/// Relies on `str::to_lowercase`: the lowercased text is a function of the
/// input characters alone.
#[verifier::external_body]
fn lowercase(s: &str) -> (r: String)
    ensures
        r@ == lower_of(s@),
{
    s.to_lowercase()
}

/// The literals the parser accepts, in the order shown to the caller.
pub open spec fn spec_part_options() -> Seq<Seq<char>> {
    seq!["one"@, "two"@]
}

/// `e` is the rejection the parser owes for the raw text `raw`: it carries
/// `raw` itself, unnormalized, and the accepted literals.
pub open spec fn is_invalid_part(e: ConfigError, raw: Seq<char>) -> bool {
    e matches ConfigError::InvalidValue { value, expected } && value@ == raw
        && expected.deep_view() == spec_part_options()
}

/// The variant whose name the lowercased text spells, if any.
pub open spec fn part_of_lowered(lowered: Seq<char>) -> Option<Part> {
    if lowered == "one"@ {
        Some(Part::One)
    } else if lowered == "two"@ {
        Some(Part::Two)
    } else {
        None
    }
}

/// The result `r` is the outcome owed for input whose lowercase form is
/// `lowered` and whose original text is `raw`.
pub open spec fn parses_to(r: Result<Part, ConfigError>, lowered: Seq<char>, raw: Seq<char>) -> bool {
    match part_of_lowered(lowered) {
        Some(p) => r == Ok::<Part, ConfigError>(p),
        None => r matches Err(e) && is_invalid_part(e, raw),
    }
}

/// The accepted literals, `"one"` then `"two"`.
pub fn part_options() -> (r: Vec<String>)
    ensures
        r.deep_view() == spec_part_options(),
{
    let mut opts: Vec<String> = Vec::new();
    opts.push(String::from_str("one"));
    opts.push(String::from_str("two"));
    proof {
        assert(opts.deep_view() =~= spec_part_options());
    }
    opts
}

/// Decides the variant from already-lowercased text; `raw` is the original
/// text to report on rejection.
pub fn part_from_lowered(lowered: &str, raw: &str) -> (r: Result<Part, ConfigError>)
    ensures
        parses_to(r, lowered@, raw@),
{
    let low = String::from_str(lowered);
    if low == String::from_str("one") {
        Ok(Part::One)
    } else if low == String::from_str("two") {
        Ok(Part::Two)
    } else {
        Err(ConfigError::InvalidValue { value: String::from_str(raw), expected: part_options() })
    }
}

/// The Enum Parser: lowercase the input, then match it against the closed
/// set of variant names.
///
/// Any casing of `"one"` or `"two"` is accepted; every other text is
/// rejected with the original string and the accepted literals.
pub fn parse_part(s: &str) -> (r: Result<Part, ConfigError>)
    ensures
        parses_to(r, lower_of(s@), s@),
        lower_of(s@) == "one"@ ==> r == Ok::<Part, ConfigError>(Part::One),
        lower_of(s@) == "two"@ ==> r == Ok::<Part, ConfigError>(Part::Two),
        lower_of(s@) != "one"@ && lower_of(s@) != "two"@ ==> (r matches Err(e)
            && is_invalid_part(e, s@)),
{
    proof {
        reveal_strlit("one");
        reveal_strlit("two");
        assert("one"@[0] == 'o' && "two"@[0] == 't');
        assert("one"@ != "two"@);
    }
    let lowered = lowercase(s);
    part_from_lowered(lowered.as_str(), s)
}

impl Part {
    /// The display text: `"Part One"` or `"Part Two"`.
    pub fn describe(&self) -> (r: String)
        ensures
            *self == Part::One ==> r@ == "Part One"@,
            *self == Part::Two ==> r@ == "Part Two"@,
    {
        match self {
            Part::One => String::from_str("Part One"),
            Part::Two => String::from_str("Part Two"),
        }
    }
}

} // verus!

//! The structured errors that configuration loading reports.

use vstd::prelude::*;

verus! {

/// A failure to assemble a configuration from environment text.
///
/// Each variant carries enough context to fix the environment without
/// reading source: the field name, and for a malformed value the offending
/// text together with the literals the field accepts.
#[derive(Debug)]
pub enum ConfigError {
    /// A required field had neither an environment variable nor a default.
    MissingField { field: String },
    /// A field's raw text could not be converted to the field's type.
    /// `expected` lists the accepted literals, in the order shown to the
    /// caller.
    InvalidValue { value: String, expected: Vec<String> },
}

/// Two errors are the same report: the same kind, over the same text.
pub open spec fn same_error(a: ConfigError, b: ConfigError) -> bool {
    ||| (a matches ConfigError::MissingField { field: fa }
        && b matches ConfigError::MissingField { field: fb } && fa@ == fb@)
    ||| (a matches ConfigError::InvalidValue { value: va, expected: ea }
        && b matches ConfigError::InvalidValue { value: vb, expected: eb } && va@ == vb@
        && ea.deep_view() == eb.deep_view())
}

/// Element-wise text equality of two lists of strings.
fn string_vecs_equal(a: &Vec<String>, b: &Vec<String>) -> (r: bool)
    ensures
        r == (a.deep_view() == b.deep_view()),
{
    if a.len() != b.len() {
        proof {
            assert(a.deep_view().len() != b.deep_view().len());
        }
        return false;
    }
    let n = a.len();
    let mut i: usize = 0;
    while i < n
        invariant
            n == a.len() == b.len(),
            i <= n,
            forall|j: int| 0 <= j < i ==> a.deep_view()[j] == b.deep_view()[j],
        decreases n - i,
    {
        if a[i] != b[i] {
            proof {
                assert(a.deep_view()[i as int] != b.deep_view()[i as int]);
            }
            return false;
        }
        i = i + 1;
    }
    proof {
        assert(a.deep_view() =~= b.deep_view());
    }
    true
}

/// The accepted literals from position `i` on, each in double quotes, comma
/// separated.
pub open spec fn quoted_from(opts: Seq<Seq<char>>, i: int) -> Seq<char>
    decreases opts.len() - i,
{
    if i < 0 || i >= opts.len() {
        Seq::empty()
    } else if i == opts.len() - 1 {
        "\""@ + opts[i] + "\""@
    } else {
        "\""@ + opts[i] + "\""@ + ", "@ + quoted_from(opts, i + 1)
    }
}

/// Render the accepted literals from position `i` on, each in double
/// quotes, comma separated.
fn quoted_join_from(opts: &Vec<String>, i: usize) -> (r: String)
    requires
        i <= opts.len(),
    ensures
        r@ == quoted_from(opts.deep_view(), i as int),
    decreases opts.len() - i,
{
    if i >= opts.len() {
        return String::new();
    }
    let mut piece = String::from_str("\"");
    piece.append(opts[i].as_str());
    piece.append("\"");
    if i + 1 < opts.len() {
        piece.append(", ");
        let rest = quoted_join_from(opts, i + 1);
        piece.append(rest.as_str());
    }
    piece
}

impl ConfigError {
    /// A human-readable description: the field name for a missing field; the
    /// offending text and the accepted literals for a rejected value.
    pub fn message(&self) -> (r: String)
        ensures
            *self matches ConfigError::MissingField { field } ==> r@ == "missing field `"@
                + field@ + "`"@,
            *self matches ConfigError::InvalidValue { value, expected } ==> r@
                == "invalid value `"@ + value@ + "`, expected one of ["@ + quoted_from(
                expected.deep_view(),
                0,
            ) + "]"@,
    {
        match self {
            ConfigError::MissingField { field } => {
                let mut m = String::from_str("missing field `");
                m.append(field.as_str());
                m.append("`");
                m
            },
            ConfigError::InvalidValue { value, expected } => {
                let mut m = String::from_str("invalid value `");
                m.append(value.as_str());
                m.append("`, expected one of [");
                let opts = quoted_join_from(expected, 0);
                m.append(opts.as_str());
                m.append("]");
                m
            },
        }
    }
}

impl PartialEq for ConfigError {
    fn eq(&self, other: &ConfigError) -> (r: bool) {
        match (self, other) {
            (
                ConfigError::MissingField { field: fa },
                ConfigError::MissingField { field: fb },
            ) => *fa == *fb,
            (
                ConfigError::InvalidValue { value: va, expected: ea },
                ConfigError::InvalidValue { value: vb, expected: eb },
            ) => *va == *vb && string_vecs_equal(ea, eb),
            _ => false,
        }
    }
}

impl vstd::std_specs::cmp::PartialEqSpecImpl for ConfigError {
    open spec fn obeys_eq_spec() -> bool {
        true
    }

    open spec fn eq_spec(&self, other: &ConfigError) -> bool {
        same_error(*self, *other)
    }
}

} // verus!

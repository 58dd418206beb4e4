//! The Configuration Schema and the Loader.
//!
//! A `Config` is assembled from an environment snapshot: the variables whose
//! names start with `"APP_"`, taken as pairs of the name with the prefix
//! stripped and lowercased, and the raw value.  The `part` field is required
//! and parsed by the Enum Parser; the `input_file` field falls back to its
//! default when absent.

use crate::error::{same_error, ConfigError};
use crate::part::{is_invalid_part, lower_of, parse_part, part_of_lowered, spec_part_options, Part};
use vstd::prelude::*;

verus! {

broadcast use vstd::string::group_string_axioms;

/// A validated configuration: which part to run, and the path of the input
/// file, held as its raw text.
#[derive(Debug)]
pub struct Config {
    pub part: Part,
    pub input_file: String,
}

/// Two configurations are the same: the same part and the same path text.
pub open spec fn same_config(a: Config, b: Config) -> bool {
    a.part == b.part && a.input_file@ == b.input_file@
}

impl Config {
    /// The path used when the input-file variable is absent.
    pub fn default_input_file() -> (r: String)
        ensures
            r@ == "full.txt"@,
    {
        String::from_str("full.txt")
    }
}

impl PartialEq for Config {
    fn eq(&self, other: &Config) -> (r: bool) {
        self.part == other.part && self.input_file == other.input_file
    }
}

impl vstd::std_specs::cmp::PartialEqSpecImpl for Config {
    open spec fn obeys_eq_spec() -> bool {
        true
    }

    open spec fn eq_spec(&self, other: &Config) -> bool {
        same_config(*self, *other)
    }
}

/// The text of an optional raw value.
pub open spec fn text_of(v: Option<String>) -> Option<Seq<char>> {
    match v {
        Some(s) => Some(s@),
        None => None,
    }
}

/// What a load attempt settles to, stated over the text of its inputs.
pub enum LoadOutcome {
    /// Both fields resolved: the parsed part and the path text.
    Loaded { part: Part, input_file: Seq<char> },
    /// The required part variable was absent.
    MissingPart,
    /// The part variable held text outside the closed set.
    RejectedPart { value: Seq<char> },
}

/// The outcome owed for the given raw texts: a missing part fails, a part
/// outside the closed set is rejected with its text, and otherwise the
/// configuration carries the parsed part and the given path, or the default
/// path `"full.txt"` when none was given.
pub open spec fn spec_load(part_text: Option<Seq<char>>, file_text: Option<Seq<char>>) -> LoadOutcome {
    match part_text {
        None => LoadOutcome::MissingPart,
        Some(p) => match part_of_lowered(lower_of(p)) {
            Some(v) => LoadOutcome::Loaded {
                part: v,
                input_file: match file_text {
                    Some(f) => f,
                    None => "full.txt"@,
                },
            },
            None => LoadOutcome::RejectedPart { value: p },
        },
    }
}

/// `e` is the rejection reported when the part variable is absent.
pub open spec fn is_missing_part(e: ConfigError) -> bool {
    e matches ConfigError::MissingField { field } && field@ == "part"@
}

/// The result `r` realises the outcome `o`.
pub open spec fn loads_to(r: Result<Config, ConfigError>, o: LoadOutcome) -> bool {
    match o {
        LoadOutcome::Loaded { part, input_file } => r matches Ok(c) && c.part == part
            && c.input_file@ == input_file,
        LoadOutcome::MissingPart => r matches Err(e) && is_missing_part(e),
        LoadOutcome::RejectedPart { value } => r matches Err(e) && is_invalid_part(e, value),
    }
}

/// Assemble a configuration from the raw texts of its two variables: the
/// value of the part variable, if set, and the value of the input-file
/// variable, if set.
///
/// A missing part variable fails with `MissingField`; a part outside the
/// closed set propagates the Enum Parser's rejection verbatim; a missing
/// input-file variable falls back to the default path.
pub fn load_config(part: Option<String>, input_file: Option<String>) -> (r: Result<
    Config,
    ConfigError,
>)
    ensures
        loads_to(r, spec_load(text_of(part), text_of(input_file))),
        part is None ==> (r matches Err(e) && is_missing_part(e)),
{
    let part_raw = match part {
        Some(p) => p,
        None => {
            return Err(ConfigError::MissingField { field: String::from_str("part") });
        },
    };
    let part_value = match parse_part(part_raw.as_str()) {
        Ok(p) => p,
        Err(e) => {
            return Err(e);
        },
    };
    let input_file = match input_file {
        Some(f) => f,
        None => Config::default_input_file(),
    };
    Ok(Config { part: part_value, input_file })
}

/// The value of the first pair of `vars` whose name reads `name`.
pub open spec fn spec_lookup(vars: Seq<(String, String)>, name: Seq<char>) -> Option<Seq<char>>
    decreases vars.len(),
{
    if vars.len() == 0 {
        None
    } else if vars[0].0@ == name {
        Some(vars[0].1@)
    } else {
        spec_lookup(vars.drop_first(), name)
    }
}

/// Find the value of the variable called `name` in a snapshot.
pub fn lookup(vars: &Vec<(String, String)>, name: &str) -> (r: Option<String>)
    ensures
        text_of(r) == spec_lookup(vars@, name@),
{
    let wanted = String::from_str(name);
    let n = vars.len();
    let mut i: usize = 0;
    proof {
        assert(vars@.skip(0) =~= vars@);
    }
    while i < n
        invariant
            n == vars.len(),
            i <= n,
            wanted@ == name@,
            spec_lookup(vars@, name@) == spec_lookup(vars@.skip(i as int), name@),
        decreases n - i,
    {
        if vars[i].0 == wanted {
            proof {
                assert(vars@.skip(i as int)[0] == vars@[i as int]);
            }
            return Some(vars[i].1.clone());
        }
        proof {
            assert(vars@.skip(i as int)[0] == vars@[i as int]);
            assert(vars@.skip(i as int).drop_first() =~= vars@.skip(i as int + 1));
        }
        i = i + 1;
    }
    proof {
        assert(vars@.skip(n as int).len() == 0);
    }
    None
}

/// Assemble a configuration from an environment snapshot: pairs of a
/// variable name (already prefix-stripped and lowercased) and its raw value.
/// Only the `part` and `input_file` variables are consulted; any other pair
/// leaves the outcome untouched.
pub fn config_from_vars(vars: &Vec<(String, String)>) -> (r: Result<Config, ConfigError>)
    ensures
        loads_to(r, spec_load(spec_lookup(vars@, "part"@), spec_lookup(vars@, "input_file"@))),
{
    let part = lookup(vars, "part");
    let input_file = lookup(vars, "input_file");
    load_config(part, input_file)
}

/// Every error the loader can report: a missing part field, or a part value
/// rejected with the accepted literals beside it.
pub open spec fn error_reported(e: ConfigError) -> bool {
    match e {
        ConfigError::MissingField { field } => field@ == "part"@,
        ConfigError::InvalidValue { value: _, expected } => expected.deep_view()
            == spec_part_options(),
    }
}

/// Relies on `envy::prefixed("APP_").from_env` aimed at a map of strings: it
/// yields each process environment variable whose name starts with `"APP_"`,
/// as the name with the prefix stripped and lowercased, paired with the
/// untouched value.  With a map of strings as the target every value is
/// taken as plain text, so the error arm cannot be reached.
#[verifier::external_body]
fn read_app_env() -> (r: Vec<(String, String)>) {
    match envy::prefixed("APP_").from_env::<std::collections::HashMap<String, String>>() {
        Ok(vars) => vars.into_iter().collect(),
        Err(_) => Vec::new(),
    }
}

/// Load the configuration from the process environment.
///
/// The exact relation between the snapshot read and the result is stated on
/// `config_from_vars`, which this function applies to whatever snapshot the
/// environment holds; here only the shape of every possible outcome can be
/// promised.
pub fn get_config() -> (r: Result<Config, ConfigError>)
    ensures
        r matches Err(e) ==> error_reported(e),
{
    let vars = read_app_env();
    config_from_vars(&vars)
}

/// A name-by-name lookup reads only the text of the snapshot: two snapshots
/// whose pairs carry the same text resolve every name alike.
proof fn lemma_lookup_reads_text(a: Seq<(String, String)>, b: Seq<(String, String)>, name: Seq<char>)
    requires
        a.len() == b.len(),
        forall|i: int|
            0 <= i < a.len() ==> (#[trigger] a[i]).0@ == b[i].0@ && a[i].1@ == b[i].1@,
    ensures
        spec_lookup(a, name) == spec_lookup(b, name),
    decreases a.len(),
{
    if a.len() > 0 && a[0].0@ != name {
        lemma_lookup_reads_text(a.drop_first(), b.drop_first(), name);
    }
}

/// Loading is idempotent: it reads nothing but the text of the snapshot, so
/// two snapshots whose pairs carry the same names and values settle to the
/// same outcome, and in particular an unchanged environment loads to the
/// same outcome twice.
pub proof fn lemma_load_idempotent(a: Seq<(String, String)>, b: Seq<(String, String)>)
    requires
        a.len() == b.len(),
        forall|i: int|
            0 <= i < a.len() ==> (#[trigger] a[i]).0@ == b[i].0@ && a[i].1@ == b[i].1@,
    ensures
        spec_load(spec_lookup(a, "part"@), spec_lookup(a, "input_file"@)) == spec_load(
            spec_lookup(b, "part"@),
            spec_lookup(b, "input_file"@),
        ),
{
    lemma_lookup_reads_text(a, b, "part"@);
    lemma_lookup_reads_text(a, b, "input_file"@);
}

/// Two results that realise the same outcome are equal configuration
/// values: the same variant, and field for field the same part and text.
pub proof fn lemma_same_outcome_same_value(
    r1: Result<Config, ConfigError>,
    r2: Result<Config, ConfigError>,
    o: LoadOutcome,
)
    requires
        loads_to(r1, o),
        loads_to(r2, o),
    ensures
        r1 is Ok <==> r2 is Ok,
        r1 matches Ok(c1) ==> (r2 matches Ok(c2) && same_config(c1, c2)),
        r1 matches Err(e1) ==> (r2 matches Err(e2) && same_error(e1, e2)),
{
}

} // verus!

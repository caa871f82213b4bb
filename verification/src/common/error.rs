//! Errors shared by the application's crates, and how a chain of errors is
//! rendered for people.
use vstd::prelude::*;
use crate::text::{decimal, decimal_string};
use crate::common::config::{config_error_message, ConfigError};
use crate::common::result::io_error_message;
use vstd::std_specs::convert::FromSpecImpl;

verus! {

/// An error of the application's shared layer. The I/O and serialization
/// variants carry the message of the underlying error.
#[derive(Debug, Clone)]
pub enum CommonError {
    Config(ConfigError),
    Io(String),
    Serde(String),
    Parse(String),
}

/// The human-readable message of an error.
pub open spec fn common_error_message(e: CommonError) -> Seq<char> {
    match e {
        CommonError::Config(c) => "configuration error: "@ + config_error_message(c),
        CommonError::Io(s) => "I/O error: "@ + s@,
        CommonError::Serde(s) => "serialization error: "@ + s@,
        CommonError::Parse(s) => "parse error: "@ + s@,
    }
}

impl CommonError {
    /// The human-readable message of this error.
    pub fn to_string(&self) -> (s: String)
        ensures
            s@ == common_error_message(*self),
    {
        match self {
            CommonError::Config(c) => {
                let mut m = String::from_str("configuration error: ");
                let inner = c.to_string();
                m.append(inner.as_str());
                m
            },
            CommonError::Io(s) => {
                let mut m = String::from_str("I/O error: ");
                m.append(s.as_str());
                m
            },
            CommonError::Serde(s) => {
                let mut m = String::from_str("serialization error: ");
                m.append(s.as_str());
                m
            },
            CommonError::Parse(s) => {
                let mut m = String::from_str("parse error: ");
                m.append(s.as_str());
                m
            },
        }
    }
}

impl From<ConfigError> for CommonError {
    fn from(e: ConfigError) -> (r: CommonError)
        ensures
            r == CommonError::Config(e),
    {
        CommonError::Config(e)
    }
}

impl FromSpecImpl<ConfigError> for CommonError {
    open spec fn obeys_from_spec() -> bool {
        true
    }

    open spec fn from_spec(v: ConfigError) -> CommonError {
        CommonError::Config(v)
    }
}

impl From<std::io::Error> for CommonError {
    fn from(e: std::io::Error) -> (r: CommonError)
        ensures
            r is Io,
    {
        CommonError::Io(io_error_message(&e))
    }
}

/// The message of an I/O error is held in a new `String`; what `from` gives
/// is stated on `from` itself.
impl FromSpecImpl<std::io::Error> for CommonError {
    open spec fn obeys_from_spec() -> bool {
        false
    }

    open spec fn from_spec(v: std::io::Error) -> CommonError {
        CommonError::Io(vstd::pervasive::arbitrary())
    }
}

/// The lines that list the causes of an error, numbered from zero.
pub open spec fn causes_text(causes: Seq<Seq<char>>) -> Seq<char>
    decreases causes.len(),
{
    if causes.len() == 0 {
        seq![]
    } else {
        causes_text(causes.drop_last()) + "\n  "@ + decimal(causes.len() - 1) + ": "@ + causes.last()
    }
}

/// The rendering of an error chain: the error's message, then, when it has
/// causes, a "Caused by:" line and one numbered line per cause.
pub open spec fn error_chain_text(chain: Seq<Seq<char>>) -> Seq<char>
    recommends
        chain.len() >= 1,
{
    "Error: "@ + chain[0] + (if chain.len() > 1 {
        "\nCaused by:"@
    } else {
        seq![]
    }) + causes_text(chain.drop_first())
}

/// The views of a list of strings.
pub open spec fn string_views(v: Seq<String>) -> Seq<Seq<char>> {
    v.map_values(|s: String| s@)
}

/// Renders an error chain for people. `chain[0]` is the message of the error
/// itself and each following entry the message of the cause of the one
/// before.
pub fn format_error_chain(chain: &Vec<String>) -> (out: String)
    requires
        chain@.len() >= 1,
    ensures
        out@ == error_chain_text(string_views(chain@)),
{
    let ghost views = string_views(chain@);
    let mut output = String::from_str("Error: ");
    output.append(chain[0].as_str());
    let n = chain.len();
    if n > 1 {
        output.append("\nCaused by:");
    }
    let ghost head = output@;
    let mut level: usize = 0;
    while level + 1 < n
        invariant
            n == chain@.len(),
            n >= 1,
            level + 1 <= n,
            views == string_views(chain@),
            output@ == head + causes_text(views.drop_first().take(level as int)),
        decreases n - level,
    {
        let ghost before = output@;
        output.append("\n  ");
        let number = decimal_string(level as i128);
        output.append(number.as_str());
        output.append(": ");
        output.append(chain[level + 1].as_str());
        proof {
            let causes = views.drop_first().take(level + 1);
            assert(causes.drop_last() =~= views.drop_first().take(level as int));
            assert(causes.last() == chain@[level + 1]@);
            assert(output@ =~= before + "\n  "@ + decimal(level as int) + ": "@ + chain@[level + 1]@);
        }
        level = level + 1;
    }
    proof {
        assert(views.drop_first().take(level as int) =~= views.drop_first());
        assert(views[0] == chain@[0]@);
    }
    output
}

} // verus!

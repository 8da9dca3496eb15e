//! The run configuration: which languages to check and whether the run stops
//! on the first failure, together with the exact text of a freshly generated
//! configuration file. Reading and writing the file, and asking the user, are
//! the shell's work; the decisions and the text are fixed here.

use vstd::prelude::*;

use crate::task::RunPolicy;

verus! {

/// What a configuration file selects: the names of the languages to check,
/// and the strict flag.
pub struct Config {
    pub languages: Vec<String>,
    pub strict: bool,
}

impl Config {
    /// The run policy the configuration selects: a strict run stops on the
    /// first failure, any other run attempts every task and then reports.
    pub fn policy(&self) -> (p: RunPolicy)
        ensures
            p == if self.strict {
                RunPolicy::StopOnFirstFailure
            } else {
                RunPolicy::RunAllThenReport
            },
    {
        if self.strict {
            RunPolicy::StopOnFirstFailure
        } else {
            RunPolicy::RunAllThenReport
        }
    }
}

/// A name in double quotes.
pub open spec fn quoted(name: Seq<char>) -> Seq<char> {
    "\""@ + name + "\""@
}

/// The quoted names, joined with a comma and a space.
pub open spec fn joined_names(names: Seq<String>) -> Seq<char>
    decreases names.len(),
{
    if names.len() == 0 {
        Seq::empty()
    } else if names.len() == 1 {
        quoted(names[0]@)
    } else {
        joined_names(names.drop_last()) + ", "@ + quoted(names.last()@)
    }
}

/// The whole text of a generated configuration file: the selected names as a
/// quoted list, then the strict flag.
pub open spec fn config_text(names: Seq<String>, strict: bool) -> Seq<char> {
    "\nlanguages = ["@ + joined_names(names) + "]\nstrict = "@ + (if strict {
        "true"@
    } else {
        "false"@
    }) + "\n"@
}

/// Render the configuration file for the given selection: exactly the text
/// `config_text` describes, ready to be written out.
pub fn config_file_content(languages: &Vec<String>, strict: bool) -> (r: String)
    ensures
        r@ == config_text(languages@, strict),
{
    let mut body = String::new();
    let mut i: usize = 0;
    while i < languages.len()
        invariant
            0 <= i <= languages@.len(),
            body@ =~= joined_names(languages@.take(i as int)),
        decreases languages@.len() - i,
    {
        proof {
            assert(languages@.take(i + 1).drop_last() =~= languages@.take(i as int));
            assert(languages@.take(i + 1).last() == languages@[i as int]);
        }
        if i > 0 {
            body.append(", ");
        }
        body.append("\"");
        body.append(languages[i].as_str());
        body.append("\"");
        i = i + 1;
    }
    proof {
        assert(languages@.take(languages@.len() as int) =~= languages@);
    }
    let mut out = String::from_str("\nlanguages = [");
    out.append(body.as_str());
    out.append("]\nstrict = ");
    if strict {
        out.append("true");
    } else {
        out.append("false");
    }
    out.append("\n");
    proof {
        assert(out@ =~= config_text(languages@, strict));
    }
    out
}

} // verus!

//! One configuration value, built once from a list of environment pairs and
//! passed to every component by reference. An empty value counts as unset,
//! and a later pair overrides an earlier one with the same key.
use vstd::prelude::*;

use crate::error::MatesError;
use crate::strutil::str_eq;

verus! {

pub struct Configuration {
    /// Where the search index is written and read.
    pub index_path: String,
    /// The directory of contact files.
    pub vdir_path: String,
    /// The editor command of the interactive edit flow.
    pub editor_cmd: String,
    /// The line filter the queries pipe the index through.
    pub grep_cmd: String,
}

/// The last non-empty value bound to `key`, if any.
pub open spec fn env_value(env: Seq<(String, String)>, key: Seq<char>) -> Option<Seq<char>>
    decreases env.len(),
{
    if env.len() == 0 {
        None
    } else {
        let last = env[env.len() - 1];
        if last.0@ == key && last.1@.len() > 0 {
            Some(last.1@)
        } else {
            env_value(env.drop_last(), key)
        }
    }
}

/// Look `key` up among the environment pairs, the last non-empty value
/// winning.
pub fn get_env(env: &Vec<(String, String)>, key: &str) -> (r: Option<String>)
    ensures
        match r {
            Some(v) => env_value(env@, key@) == Some(v@),
            None => env_value(env@, key@) is None,
        },
{
    let mut i: usize = env.len();
    proof {
        assert(env@.take(env@.len() as int) =~= env@);
    }
    while i > 0
        invariant
            0 <= i <= env@.len(),
            env_value(env@.take(i as int), key@) == env_value(env@, key@),
        decreases i,
    {
        i = i - 1;
        let pair = &env[i];
        let ghost pre = env@.take(i + 1);
        proof {
            assert(pre[pre.len() - 1] == env@[i as int]);
            assert(pre.drop_last() =~= env@.take(i as int));
        }
        if str_eq(pair.0.as_str(), key) && pair.1.as_str().unicode_len() > 0 {
            return Some(pair.1.clone());
        }
    }
    proof {
        assert(env@.take(0) =~= Seq::<(String, String)>::empty());
    }
    None
}

/// The configured index path: `MATES_INDEX`, or `.mates_index` under the
/// home directory, or nothing.
pub open spec fn spec_index_path(env: Seq<(String, String)>) -> Option<Seq<char>> {
    match env_value(env, "MATES_INDEX"@) {
        Some(x) => Some(x),
        None => match env_value(env, "HOME"@) {
            Some(h) => Some(h + "/.mates_index"@),
            None => None,
        },
    }
}

/// The configured editor: `MATES_EDITOR`, or `EDITOR`, or nothing.
pub open spec fn spec_editor(env: Seq<(String, String)>) -> Option<Seq<char>> {
    match env_value(env, "MATES_EDITOR"@) {
        Some(x) => Some(x),
        None => env_value(env, "EDITOR"@),
    }
}

/// The configured filter: `MATES_GREP`, or plain `grep`.
pub open spec fn spec_grep(env: Seq<(String, String)>) -> Seq<char> {
    match env_value(env, "MATES_GREP"@) {
        Some(x) => x,
        None => "grep"@,
    }
}

impl Configuration {
    /// Build the configuration from environment pairs: the index path (or a
    /// home-derived default), the required contact directory, the required
    /// editor, and the filter command with its default.
    pub fn from_env(env: Vec<(String, String)>) -> (r: Result<Configuration, MatesError>)
        ensures
            r is Ok <==> (spec_index_path(env@) is Some && env_value(env@, "MATES_DIR"@) is Some
                && spec_editor(env@) is Some),
            r matches Ok(c) ==> {
                &&& spec_index_path(env@) == Some(c.index_path@)
                &&& env_value(env@, "MATES_DIR"@) == Some(c.vdir_path@)
                &&& spec_editor(env@) == Some(c.editor_cmd@)
                &&& c.grep_cmd@ == spec_grep(env@)
            },
            r matches Err(e) ==> e is Config,
    {
        let index_path = match get_env(&env, "MATES_INDEX") {
            Some(x) => x,
            None => match get_env(&env, "HOME") {
                Some(home) => {
                    let mut p = home;
                    p.append("/.mates_index");
                    p
                },
                None => {
                    return Err(
                        MatesError::Config("unable to determine user's home directory.".to_owned()),
                    );
                },
            },
        };
        let vdir_path = match get_env(&env, "MATES_DIR") {
            Some(x) => x,
            None => {
                return Err(
                    MatesError::Config(
                        "MATES_DIR must be set to your vdir path (directory of vcf-files).".to_owned(),
                    ),
                );
            },
        };
        let editor_cmd = match get_env(&env, "MATES_EDITOR") {
            Some(x) => x,
            None => match get_env(&env, "EDITOR") {
                Some(x) => x,
                None => {
                    return Err(
                        MatesError::Config("MATES_EDITOR or EDITOR must be set.".to_owned()),
                    );
                },
            },
        };
        let grep_cmd = match get_env(&env, "MATES_GREP") {
            Some(x) => x,
            None => "grep".to_owned(),
        };
        Ok(Configuration { index_path, vdir_path, editor_cmd, grep_cmd })
    }
}

} // verus!

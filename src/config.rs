//! Where the configuration file lives, and what a fresh one holds.
use vstd::prelude::*;

verus! {

/// Name of the configuration file inside the user's configuration directory.
pub const CONFIG_FILE_NAME: &'static str = "envfetch.toml";

/// Content written by the init-config command: every setting commented out,
/// so that it parses to the defaults.
pub const DEFAULT_CONFIG: &'static str = "# envfetch configuration\n#\n# Format used by the print command; {name} and {value} stand for each\n# variable's name and value.\n# print_format = \"{name} = \\\"{value}\\\"\"\n";

/// Relies on `dirs::config_dir`: the user's configuration directory where the
/// platform has one (read from the environment), as text. Nothing is known of
/// the value.
#[verifier::external_body]
fn user_config_dir() -> (r: Option<String>) {
    match dirs::config_dir() {
        Some(p) => Some(p.to_string_lossy().into_owned()),
        None => None,
    }
}

/// `name` placed inside the directory `dir`; a name alone where `dir` is empty.
pub open spec fn join_path(dir: Seq<char>, name: Seq<char>) -> Seq<char> {
    if dir.len() == 0 {
        name
    } else if dir.last() == '/' {
        dir + name
    } else {
        dir + seq!['/'] + name
    }
}

/// The configuration file's path inside `dir`, or in the working directory
/// where there is no configuration directory.
pub fn config_file_in(dir: Option<String>) -> (r: String)
    ensures
        r@ == join_path(
            match dir {
                Some(d) => d@,
                None => Seq::empty(),
            },
            CONFIG_FILE_NAME@,
        ),
{
    match dir {
        None => String::from_str(CONFIG_FILE_NAME),
        Some(d) => {
            let n = d.as_str().unicode_len();
            if n == 0 {
                String::from_str(CONFIG_FILE_NAME)
            } else if d.as_str().get_char(n - 1) == '/' {
                let mut r = d;
                r.append(CONFIG_FILE_NAME);
                r
            } else {
                let mut r = d;
                r.append("/");
                r.append(CONFIG_FILE_NAME);
                proof {
                    reveal_strlit("/");
                }
                r
            }
        },
    }
}

/// The path of the configuration file, in the user's configuration directory.
pub fn get_config_file_path() -> (r: String)
    ensures
        exists|d: Seq<char>| r@ == join_path(d, CONFIG_FILE_NAME@),
{
    let dir = user_config_dir();
    let ghost seen = dir;
    let r = config_file_in(dir);
    proof {
        let d = match seen {
            Some(d) => d@,
            None => Seq::<char>::empty(),
        };
        assert(r@ == join_path(d, CONFIG_FILE_NAME@));
    }
    r
}

/// The content of a fresh configuration file.
pub fn default_config() -> (r: &'static str)
    ensures
        r@ == DEFAULT_CONFIG@,
{
    DEFAULT_CONFIG
}

} // verus!

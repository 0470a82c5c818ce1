//! XDG path conventions:
//!
//! - configuration `~/.config/qingjian/config.toml` (`$XDG_CONFIG_HOME` first)
//! - user data `~/.local/share/qingjian/` (`$XDG_DATA_HOME` first): learning data
//! - bundled data `/usr/share/qingjian/` (`$QINGJIAN_DATA_DIR` first): dictionary,
//!   language model, English word list
//!
//! The environment is read by the caller; empty variables count as unset.

use vstd::prelude::*;

verus! {

/// `base` joined with the relative path `segment`: a separator goes between them unless
/// `base` is empty or already ends with one.
pub open spec fn join(base: Seq<char>, segment: Seq<char>) -> Seq<char> {
    if base.len() == 0 {
        segment
    } else if base.last() == '/' {
        base + segment
    } else {
        base.push('/') + segment
    }
}

/// An environment value, unless missing or empty.
pub open spec fn non_empty(value: Option<String>) -> Option<Seq<char>> {
    match value {
        Some(v) => if v@.len() > 0 { Some(v@) } else { None },
        None => None,
    }
}

/// `$HOME`, or the empty path.
pub open spec fn home(home_var: Option<String>) -> Seq<char> {
    match non_empty(home_var) {
        Some(h) => h,
        None => Seq::empty(),
    }
}

/// `$XDG_CONFIG_HOME`, or `$HOME/.config`.
pub open spec fn config_home(xdg_config_home: Option<String>, home_var: Option<String>) -> Seq<char> {
    match non_empty(xdg_config_home) {
        Some(dir) => dir,
        None => join(home(home_var), ".config"@),
    }
}

/// `$XDG_DATA_HOME`, or `$HOME/.local/share`.
pub open spec fn data_home(xdg_data_home: Option<String>, home_var: Option<String>) -> Seq<char> {
    match non_empty(xdg_data_home) {
        Some(dir) => dir,
        None => join(join(home(home_var), ".local"@), "share"@),
    }
}

/// Joins a relative path onto `base`.
pub fn path_join(base: &str, segment: &str) -> (r: String)
    ensures
        r@ == join(base@, segment@),
{
    let n = base.unicode_len();
    let mut r = base.to_owned();
    if n > 0 && base.get_char(n - 1) != '/' {
        r.append("/");
        assert("/"@ =~= seq!['/']) by {
            reveal_strlit("/");
        }
    }
    r.append(segment);
    r
}

fn non_empty_value(value: &Option<String>) -> (r: Option<&str>)
    ensures
        r matches Some(s) ==> non_empty(*value) == Some(s@),
        r is None ==> non_empty(*value) is None,
{
    match value {
        Some(v) => {
            let s = v.as_str();
            if s.unicode_len() > 0 {
                Some(s)
            } else {
                None
            }
        },
        None => None,
    }
}

fn home_dir(home_var: &Option<String>) -> (r: String)
    ensures
        r@ == home(*home_var),
{
    match non_empty_value(home_var) {
        Some(h) => h.to_owned(),
        None => String::new(),
    }
}

/// The configuration file `config.toml`.
pub fn config_path(xdg_config_home: Option<String>, home_var: Option<String>) -> (r: String)
    ensures
        r@ == join(join(config_home(xdg_config_home, home_var), "qingjian"@), "config.toml"@),
{
    let dir = match non_empty_value(&xdg_config_home) {
        Some(d) => d.to_owned(),
        None => path_join(home_dir(&home_var).as_str(), ".config"),
    };
    let app = path_join(dir.as_str(), "qingjian");
    path_join(app.as_str(), "config.toml")
}

/// The user data directory `qingjian/` under the XDG data home (the caller creates it).
pub fn user_data_dir(xdg_data_home: Option<String>, home_var: Option<String>) -> (r: String)
    ensures
        r@ == join(data_home(xdg_data_home, home_var), "qingjian"@),
{
    let dir = match non_empty_value(&xdg_data_home) {
        Some(d) => d.to_owned(),
        None => {
            let local = path_join(home_dir(&home_var).as_str(), ".local");
            path_join(local.as_str(), "share")
        },
    };
    path_join(dir.as_str(), "qingjian")
}

/// Where a bundled data file may be, in order: under `$QINGJIAN_DATA_DIR` when it is
/// set (even if empty), else under `/usr/share/qingjian` and `/usr/lib/qingjian`. The
/// first existing file is the one.
pub fn bundled_candidates(name: &str, data_dir: Option<String>) -> (r: Vec<String>)
    ensures
        data_dir matches Some(d) ==> r@.len() == 1 && r@[0]@ == join(d@, name@),
        data_dir is None ==> r@.len() == 2 && r@[0]@ == join("/usr/share/qingjian"@, name@)
            && r@[1]@ == join("/usr/lib/qingjian"@, name@),
{
    let mut r = Vec::new();
    match data_dir {
        Some(d) => {
            r.push(path_join(d.as_str(), name));
        },
        None => {
            r.push(path_join("/usr/share/qingjian", name));
            r.push(path_join("/usr/lib/qingjian", name));
        },
    }
    r
}

/// The main dictionary to load: the compiled `dict.qj` when one was found, else the
/// text `dict.tsv`; `None` when neither exists, and the engine cannot start.
pub fn main_dictionary(compiled: Option<String>, text: Option<String>) -> (r: Option<String>)
    ensures
        r == (match compiled {
            Some(path) => Some(path),
            None => text,
        }),
{
    match compiled {
        Some(path) => Some(path),
        None => text,
    }
}

} // verus!

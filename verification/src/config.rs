//! Settings the binary needs. How the prompt *looks* is owned by the DMS
//! plugin instead.
//!
//! Layered, later winning: defaults, `config.toml`, `DANK_PINENTRY_*`, then
//! command-line flags applied by the caller. Reading the file and the
//! environment is the caller's part; what the values mean is decided here.
use vstd::prelude::*;
use crate::text::{ascii_lower, is, lower, slice_of, str_chars, string_from_chars, trim, trimmed};

verus! {

#[derive(Debug, Clone, Copy, PartialEq, Eq, Structural)]
pub enum UiPreference {
    /// Terminal when usable, otherwise the shell plugin.
    Auto,
    /// Always the terminal; fail if unavailable.
    Tty,
    /// Always the shell plugin; fail if unavailable.
    Dms,
}

/// The preference a name selects, in any case and with surrounding
/// whitespace.
pub open spec fn spec_parse_ui(value: Seq<char>) -> Option<UiPreference> {
    let v = ascii_lower(trim(value));
    if v == "auto"@ {
        Some(UiPreference::Auto)
    } else if v == "tty"@ || v == "curses"@ || v == "terminal"@ {
        Some(UiPreference::Tty)
    } else if v == "dms"@ || v == "gui"@ || v == "dank"@ {
        Some(UiPreference::Dms)
    } else {
        None
    }
}

impl UiPreference {
    pub fn parse(value: &str) -> (r: Option<Self>)
        ensures
            r == spec_parse_ui(value@),
    {
        let v = lower(&trimmed(&str_chars(value)));
        if is(&v, "auto") {
            Some(Self::Auto)
        } else if is(&v, "tty") || is(&v, "curses") || is(&v, "terminal") {
            Some(Self::Tty)
        } else if is(&v, "dms") || is(&v, "gui") || is(&v, "dank") {
            Some(Self::Dms)
        } else {
            None
        }
    }
}

impl Default for UiPreference {
    fn default() -> (r: Self)
        ensures
            r == UiPreference::Auto,
    {
        UiPreference::Auto
    }
}

#[derive(Debug, Clone)]
pub struct Config {
    pub ui: UiPreference,
    /// Defaults to `$XDG_RUNTIME_DIR/dms-pinentry.sock`.
    pub socket_path: Option<String>,
    pub mask_char: Option<char>,
    /// Seconds before an unanswered prompt cancels itself; 0 means never.
    /// gpg-agent's `pinentry-timeout`, when set, still takes precedence.
    pub timeout: Option<u32>,
}

impl Default for Config {
    fn default() -> (r: Self)
        ensures
            r.ui == UiPreference::Auto,
            r.socket_path is None,
            r.mask_char is None,
            r.timeout is None,
    {
        Self { ui: UiPreference::Auto, socket_path: None, mask_char: None, timeout: None }
    }
}

/// `Path::join` with a relative name: a separator goes between unless the
/// base is empty or already ends in one.
pub open spec fn join(base: Seq<char>, name: Seq<char>) -> Seq<char> {
    if base.len() > 0 && base.last() != '/' {
        base + seq!['/'] + name
    } else {
        base + name
    }
}

/// A set, non-empty value, else `fallback`.
pub open spec fn or_nonempty(v: Option<Seq<char>>, fallback: Seq<char>) -> Seq<char> {
    match v {
        Some(s) => if s.len() > 0 {
            s
        } else {
            fallback
        },
        None => fallback,
    }
}

pub open spec fn spec_default_socket_path(runtime_dir: Option<Seq<char>>) -> Seq<char> {
    join(or_nonempty(runtime_dir, "/tmp"@), "dms-pinentry.sock"@)
}

pub fn join_path(base: &[char], name: &str) -> (r: Vec<char>)
    ensures
        r@ == join(base@, name@),
{
    let mut v = slice_of(base, 0, base.len());
    proof {
        assert(v@ =~= base@);
    }
    if base.len() > 0 && base[base.len() - 1] != '/' {
        v.push('/');
    }
    let n = str_chars(name);
    let ghost start = v@;
    let mut i: usize = 0;
    while i < n.len()
        invariant
            i <= n@.len(),
            v@ == start + n@.take(i as int),
        decreases n@.len() - i,
    {
        v.push(n[i]);
        proof {
            assert(n@.take(i + 1) =~= n@.take(i as int).push(n@[i as int]));
        }
        i = i + 1;
    }
    proof {
        assert(n@.take(n@.len() as int) =~= n@);
        assert(v@ =~= join(base@, name@));
    }
    v
}

fn chars_or(v: Option<&str>, fallback: &str) -> (r: Vec<char>)
    ensures
        r@ == or_nonempty(
            match v {
                Some(s) => Some(s@),
                None => None,
            },
            fallback@,
        ),
{
    match v {
        Some(s) => if s.is_empty() {
            str_chars(fallback)
        } else {
            str_chars(s)
        },
        None => str_chars(fallback),
    }
}

impl Config {
    /// `$XDG_RUNTIME_DIR/dms-pinentry.sock`, or under `/tmp` when the runtime
    /// directory is unset or empty.
    pub fn default_socket_path(runtime_dir: Option<&str>) -> (r: String)
        ensures
            r@ == spec_default_socket_path(
                match runtime_dir {
                    Some(s) => Some(s@),
                    None => None,
                },
            ),
    {
        let base = chars_or(runtime_dir, "/tmp");
        string_from_chars(&join_path(&base, "dms-pinentry.sock"))
    }

    /// An explicit socket path wins over the default.
    pub fn socket_path(&self, runtime_dir: Option<&str>) -> (r: String)
        ensures
            r@ == match self.socket_path {
                Some(p) => p@,
                None => spec_default_socket_path(
                    match runtime_dir {
                        Some(s) => Some(s@),
                        None => None,
                    },
                ),
            },
    {
        match &self.socket_path {
            Some(p) => string_from_chars(&str_chars(p.as_str())),
            None => Self::default_socket_path(runtime_dir),
        }
    }

    /// `$XDG_CONFIG_HOME/dank-pinentry/config.toml`, falling back to
    /// `$HOME/.config`; `None` when neither is set.
    pub fn config_path(config_home: Option<&str>, home: Option<&str>) -> (r: Option<String>)
        ensures
            r matches Some(p) ==> p@ == join(
                join(
                    match config_home {
                        Some(c) => if c@.len() > 0 {
                            c@
                        } else {
                            join(home.unwrap()@, ".config"@)
                        },
                        None => join(home.unwrap()@, ".config"@),
                    },
                    "dank-pinentry"@,
                ),
                "config.toml"@,
            ),
            r is None <==> (match config_home {
                Some(c) => c@.len() == 0,
                None => true,
            }) && home is None,
    {
        let base = match config_home {
            Some(c) if !c.is_empty() => str_chars(c),
            _ => match home {
                Some(h) => join_path(&str_chars(h), ".config"),
                None => return None,
            },
        };
        let dir = join_path(&base, "dank-pinentry");
        Some(string_from_chars(&join_path(&dir, "config.toml")))
    }
}

} // verus!

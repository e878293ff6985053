//! The flags GnuPG's pinentry accepts are the argv equivalents of the
//! corresponding `OPTION`s, so they seed initial state and are overridden by
//! whatever the agent sends later. Parsing argv is the caller's part.
use vstd::prelude::*;
use crate::assuan::state::{
    copy_text, empty_request, initial_options, opt_text, parse_owner, Options, OptionsModel, Owner,
    State, StateModel,
};
use crate::config::{spec_parse_ui, Config, UiPreference};

verus! {

#[derive(Debug, Clone)]
pub struct Cli {
    /// Turn on debugging output.
    pub debug: bool,
    /// Set the X display.
    pub display: Option<String>,
    /// Set the tty terminal node name.
    pub ttyname: Option<String>,
    /// Set the tty terminal type.
    pub ttytype: Option<String>,
    /// Set the tty LC_CTYPE value.
    pub lc_ctype: Option<String>,
    /// Set the tty LC_MESSAGES value.
    pub lc_messages: Option<String>,
    /// Timeout waiting for input, in seconds.
    pub timeout: Option<u32>,
    /// Grab the keyboard only while the window is focused.
    pub no_global_grab: bool,
    /// Parent window ID, used for positioning.
    pub parent_wid: Option<i64>,
    /// Accepted for compatibility; both frontends take their own theming.
    pub colors: Option<String>,
    /// Set the alert mode (none, beep or flash).
    pub ttyalert: Option<String>,
    /// Owner of the request, as `PID/UID HOST`.
    pub owner: Option<String>,
    /// Force a particular frontend, overriding the config file.
    pub ui: Option<String>,
}

/// The options the flags seed.
pub open spec fn spec_cli_options(c: Cli) -> OptionsModel {
    OptionsModel {
        grab: !c.no_global_grab,
        display: opt_text(c.display),
        ttyname: opt_text(c.ttyname),
        ttytype: opt_text(c.ttytype),
        lc_ctype: opt_text(c.lc_ctype),
        lc_messages: opt_text(c.lc_messages),
        ttyalert: opt_text(c.ttyalert),
        parent_wid: c.parent_wid,
        owner: match c.owner {
            Some(o) => Some(parse_owner(o@)),
            None => None,
        },
        ..initial_options()
    }
}

impl Cli {
    /// The flags with nothing given.
    pub fn empty() -> (r: Self)
        ensures
            !r.debug,
            !r.no_global_grab,
            r.display is None,
            r.ttyname is None,
            r.ttytype is None,
            r.lc_ctype is None,
            r.lc_messages is None,
            r.timeout is None,
            r.parent_wid is None,
            r.colors is None,
            r.ttyalert is None,
            r.owner is None,
            r.ui is None,
    {
        Cli {
            debug: false,
            display: None,
            ttyname: None,
            ttytype: None,
            lc_ctype: None,
            lc_messages: None,
            timeout: None,
            no_global_grab: false,
            parent_wid: None,
            colors: None,
            ttyalert: None,
            owner: None,
            ui: None,
        }
    }

    /// The `--ui` choice, if it names one; an unknown name is ignored rather
    /// than fatal.
    pub fn ui_preference(&self) -> (r: Option<UiPreference>)
        ensures
            r == match self.ui {
                Some(u) => spec_parse_ui(u@),
                None => None,
            },
    {
        match &self.ui {
            Some(raw) => UiPreference::parse(raw.as_str()),
            None => None,
        }
    }

    /// Later `OPTION` lines take precedence by overwriting these.
    pub fn to_options(&self) -> (r: Options)
        ensures
            r@ == spec_cli_options(*self),
    {
        let mut options = Options::new();
        if self.no_global_grab {
            options.grab = false;
        }
        options.display = copy_text(&self.display);
        options.ttyname = copy_text(&self.ttyname);
        options.ttytype = copy_text(&self.ttytype);
        options.lc_ctype = copy_text(&self.lc_ctype);
        options.lc_messages = copy_text(&self.lc_messages);
        options.ttyalert = copy_text(&self.ttyalert);
        options.parent_wid = self.parent_wid;
        options.owner = match &self.owner {
            Some(o) => Some(Owner::parse(o.as_str())),
            None => None,
        };
        proof {
            assert(options@ =~= spec_cli_options(*self));
        }
        options
    }

    /// `--ui`, when it names a frontend, beats the environment and the
    /// config file; everything else of `config` stays.
    pub fn apply_ui(&self, config: Config) -> (r: Config)
        ensures
            r.ui == match self.ui {
                Some(u) => match spec_parse_ui(u@) {
                    Some(p) => p,
                    None => config.ui,
                },
                None => config.ui,
            },
            r.socket_path == config.socket_path,
            r.mask_char == config.mask_char,
            r.timeout == config.timeout,
    {
        let mut config = config;
        if let Some(pref) = self.ui_preference() {
            config.ui = pref;
        }
        config
    }

    /// The state a session starts from: the options the flags seed, with the
    /// prompt timeout from `--timeout`, else from the configuration, else the
    /// default. gpg-agent's `SETTIMEOUT`, arriving later, beats all of them.
    pub fn initial_state(&self, config: &Config) -> (r: State)
        ensures
            r@ == (StateModel {
                options: OptionsModel {
                    timeout_secs: match self.timeout {
                        Some(t) => t,
                        None => match config.timeout {
                            Some(t) => t,
                            None => Options::DEFAULT_TIMEOUT_SECS,
                        },
                    },
                    ..spec_cli_options(*self)
                },
                request: empty_request(),
            }),
    {
        let mut state = State::with_options(self.to_options());
        match self.timeout {
            Some(t) => state.options.timeout_secs = t,
            None => match config.timeout {
                Some(t) => state.options.timeout_secs = t,
                None => {},
            },
        }
        proof {
            assert(state@.options =~= OptionsModel {
                timeout_secs: state.options.timeout_secs,
                ..spec_cli_options(*self)
            });
        }
        state
    }
}

} // verus!

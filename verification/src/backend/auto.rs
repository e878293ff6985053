//! Picks a frontend at prompt time.
//!
//! Selection cannot happen at startup: `OPTION ttyname` arrives *after* the
//! process is running. The choice is cached so a session cannot flip frontends
//! midway. Whether a terminal or the plugin is usable is found out by the
//! caller, through [`Probe`].
use vstd::prelude::*;
use crate::assuan::error::{AssuanError, ASS_NO_INPUT};
use crate::backend::tty::TtyBackend;
use crate::config::{Config, UiPreference};

verus! {

#[derive(Debug, Clone, Copy, PartialEq, Eq, Structural)]
pub enum Frontend {
    Tty,
    Dms,
}

/// Finds out whether each frontend can be used right now. Nothing is assumed
/// of what an implementation answers.
pub trait Probe {
    fn tty_available(&mut self) -> bool;

    fn dms_available(&mut self) -> bool;
}

/// The frontend chosen for a preference, given which frontends are usable.
/// An explicit preference is never silently overridden: asking for `tty`
/// and getting a dialog is a surprising place to type a passphrase. `auto`
/// takes the terminal first: if the request came from a command just typed,
/// answering it there is least surprising.
pub open spec fn select(ui: UiPreference, tty: bool, dms: bool) -> Option<Frontend> {
    match ui {
        UiPreference::Tty => if tty {
            Some(Frontend::Tty)
        } else {
            None
        },
        UiPreference::Dms => if dms {
            Some(Frontend::Dms)
        } else {
            None
        },
        UiPreference::Auto => if tty {
            Some(Frontend::Tty)
        } else if dms {
            Some(Frontend::Dms)
        } else {
            None
        },
    }
}

pub struct AutoBackend {
    config: Config,
    chosen: Option<Frontend>,
}

impl AutoBackend {
    pub closed spec fn spec_chosen(&self) -> Option<Frontend> {
        self.chosen
    }

    pub closed spec fn spec_ui(&self) -> UiPreference {
        self.config.ui
    }

    pub fn new(config: Config) -> (r: Self)
        ensures
            r.spec_chosen() is None,
            r.spec_ui() == config.ui,
    {
        Self { config, chosen: None }
    }

    pub fn config(&self) -> (r: &Config)
        ensures
            r.ui == self.spec_ui(),
    {
        &self.config
    }

    pub fn chosen(&self) -> (r: Option<Frontend>)
        ensures
            r == self.spec_chosen(),
    {
        self.chosen
    }

    /// Reported by `GETINFO flavor`; generic until a choice is made.
    pub fn flavor(&self) -> (r: &'static str)
        ensures
            r@ == match self.spec_chosen() {
                Some(Frontend::Tty) => "dank:tty"@,
                Some(Frontend::Dms) => "dank:dms"@,
                None => "dank"@,
            },
    {
        match self.chosen {
            Some(Frontend::Tty) => "dank:tty",
            Some(Frontend::Dms) => "dank:dms",
            None => "dank",
        }
    }

    /// The terminal frontend with the configured mask.
    pub fn tty(config: &Config) -> (r: TtyBackend)
        ensures
            r.spec_mask() == match config.mask_char {
                Some(c) => c,
                None => '*',
            },
    {
        TtyBackend::with_mask(
            match config.mask_char {
                Some(c) => c,
                None => '*',
            },
        )
    }

    /// The frontend for this prompt: the earlier choice if there is one,
    /// untouched by any probe; otherwise the one [`select`] picks from what
    /// `probe` reports, which is then kept. Only the frontends the preference
    /// can use are probed, the terminal first.
    pub fn resolve<P: Probe>(&mut self, probe: &mut P) -> (r: Result<Frontend, AssuanError>)
        ensures
            final(self).spec_ui() == old(self).spec_ui(),
            old(self).spec_chosen() matches Some(f) ==> r == Ok::<Frontend, AssuanError>(f)
                && final(self).spec_chosen() == old(self).spec_chosen() && *final(probe)
                == *old(probe),
            old(self).spec_chosen() is None ==> match old(self).spec_ui() {
                UiPreference::Tty => exists|m: &mut P, tty: bool|
                    *m == *old(probe) && *final(m) == *final(probe) && #[trigger] call_ensures(
                        P::tty_available,
                        (m,),
                        tty,
                    ) && settled(
                        select(UiPreference::Tty, tty, false),
                        final(self).spec_chosen(),
                        r,
                    ),
                UiPreference::Dms => exists|m: &mut P, dms: bool|
                    *m == *old(probe) && *final(m) == *final(probe) && #[trigger] call_ensures(
                        P::dms_available,
                        (m,),
                        dms,
                    ) && settled(
                        select(UiPreference::Dms, false, dms),
                        final(self).spec_chosen(),
                        r,
                    ),
                UiPreference::Auto => exists|m: &mut P, tty: bool|
                    *m == *old(probe) && #[trigger] call_ensures(P::tty_available, (m,), tty) && (
                    tty ==> *final(m) == *final(probe) && settled(
                        Some(Frontend::Tty),
                        final(self).spec_chosen(),
                        r,
                    )) && (!tty ==> exists|n: &mut P, dms: bool|
                        *n == *final(m) && *final(n) == *final(probe) && #[trigger] call_ensures(
                            P::dms_available,
                            (n,),
                            dms,
                        ) && settled(
                            select(UiPreference::Auto, false, dms),
                            final(self).spec_chosen(),
                            r,
                        )),
            },
    {
        if let Some(f) = self.chosen {
            return Ok(f);
        }
        let ui = self.config.ui;
        let (t, d) = match ui {
            UiPreference::Tty => {
                let t = probe.tty_available();
                (t, false)
            },
            UiPreference::Dms => {
                let d = probe.dms_available();
                (false, d)
            },
            UiPreference::Auto => {
                let t = probe.tty_available();
                if t {
                    (true, false)
                } else {
                    let d = probe.dms_available();
                    (false, d)
                }
            },
        };
        let choice = select_frontend(ui, t, d);
        match choice {
            Some(f) => {
                self.chosen = Some(f);
                Ok(f)
            },
            None => Err(AssuanError::no_input()),
        }
    }
}

/// The frontend [`select`] picks: what `resolve` decides once the probes
/// have answered.
pub fn select_frontend(ui: UiPreference, tty: bool, dms: bool) -> (r: Option<Frontend>)
    ensures
        r == select(ui, tty, dms),
{
    match ui {
        UiPreference::Tty => if tty {
            Some(Frontend::Tty)
        } else {
            None
        },
        UiPreference::Dms => if dms {
            Some(Frontend::Dms)
        } else {
            None
        },
        UiPreference::Auto => if tty {
            Some(Frontend::Tty)
        } else if dms {
            Some(Frontend::Dms)
        } else {
            None
        },
    }
}

/// A choice, kept and answered: `Ok` with the frontend, or the no-input
/// error with nothing chosen.
pub open spec fn settled(c: Option<Frontend>, chosen: Option<Frontend>, r: Result<Frontend, AssuanError>) -> bool {
    &&& chosen == c
    &&& match c {
        Some(f) => r == Ok::<Frontend, AssuanError>(f),
        None => r matches Err(e) && e.code == ASS_NO_INPUT && e.description@
            == "No input source for IPC"@,
    }
}
/// An explicit preference is never silently overridden: `tty` never yields
/// the plugin and `dms` never the terminal, whatever is available; `auto`
/// takes the terminal whenever it is usable and the plugin otherwise.
pub proof fn law_explicit_preference_is_never_overridden(tty: bool, dms: bool)
    ensures
        select(UiPreference::Tty, tty, dms) != Some(Frontend::Dms),
        select(UiPreference::Dms, tty, dms) != Some(Frontend::Tty),
        tty ==> select(UiPreference::Auto, tty, dms) == Some(Frontend::Tty),
        !tty && dms ==> select(UiPreference::Auto, tty, dms) == Some(Frontend::Dms),
        !tty && !dms ==> select(UiPreference::Auto, tty, dms) is None,
{
}

} // verus!

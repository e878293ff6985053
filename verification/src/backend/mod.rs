//! The interface every frontend implements. Frontends never touch the wire
//! format; they receive the accumulated [`State`] and return a decision.
pub mod auto;
pub mod dms;
pub mod term;
pub mod tty;

use vstd::prelude::*;
use crate::assuan::error::{AssuanError, CANCELED};
use crate::assuan::state::State;
use crate::secret::Secret;
use crate::text::{contains, contains_chars, str_chars};

pub use auto::AutoBackend;
pub use dms::DmsBackend;
pub use tty::TtyBackend;

verus! {

/// A passphrase, and whether the frontend already had it typed twice.
#[derive(Debug)]
pub struct PinResponse {
    pub secret: Secret,
    /// Reported as `S PIN_REPEATED`, so gpg-agent skips asking again.
    pub repeated: bool,
}

impl From<Secret> for PinResponse {
    fn from(secret: Secret) -> (r: Self) {
        Self { secret, repeated: false }
    }
}

impl vstd::std_specs::convert::FromSpecImpl<Secret> for PinResponse {
    open spec fn obeys_from_spec() -> bool {
        true
    }

    open spec fn from_spec(secret: Secret) -> Self {
        PinResponse { secret, repeated: false }
    }
}

#[derive(Debug, Clone, Copy, PartialEq, Eq, Structural)]
pub enum ConfirmOutcome {
    Confirmed,
    /// Explicitly declined; maps to `NOT_CONFIRMED`, not `CANCELED`.
    Declined,
    Cancelled,
}

#[derive(Debug, Clone, Copy, Default, PartialEq, Eq, Structural)]
pub struct ConfirmOptions {
    /// `--one-button`: informational only; there is nothing to decline.
    pub one_button: bool,
    /// `--focus=ok` / `--focus=cancel`, as 1, 0 or -1.
    pub focus: i8,
}

/// The flags of a `CONFIRM` line.
pub open spec fn parse_confirm_options(line: Seq<char>) -> ConfirmOptions {
    ConfirmOptions {
        one_button: contains(line, "--one-button"@),
        focus: if contains(line, "--focus=ok"@) {
            1i8
        } else if contains(line, "--focus=cancel"@) {
            -1i8
        } else {
            0i8
        },
    }
}

impl ConfirmOptions {
    pub fn parse(line: &str) -> (r: Self)
        ensures
            r == parse_confirm_options(line@),
    {
        let v = str_chars(line);
        Self::parse_chars(&v)
    }

    pub fn parse_chars(v: &[char]) -> (r: Self)
        ensures
            r == parse_confirm_options(v@),
    {
        let one = str_chars("--one-button");
        let ok = str_chars("--focus=ok");
        let cancel = str_chars("--focus=cancel");
        Self {
            one_button: contains_chars(v, &one),
            focus: if contains_chars(v, &ok) {
                1
            } else if contains_chars(v, &cancel) {
                -1
            } else {
                0
            },
        }
    }
}

/// A frontend: something that can ask for a passphrase or a confirmation.
/// Nothing is assumed of what an implementation answers.
pub trait Backend {
    fn get_pin(&mut self, state: &State) -> Result<PinResponse, AssuanError>;

    fn confirm(&mut self, state: &State, options: ConfirmOptions) -> Result<
        ConfirmOutcome,
        AssuanError,
    >;

    /// Reported by `GETINFO flavor`.
    fn flavor(&self) -> &'static str;
}

/// Lets a caller hand out a borrowed backend and inspect it afterwards. Each
/// method answers what the borrowed backend's own method answers, on the
/// backend as it was, and leaves the backend as that call left it.
impl<B: Backend + ?Sized> Backend for &mut B {
    fn get_pin(&mut self, state: &State) -> (r: Result<PinResponse, AssuanError>)
        ensures
            exists|m: &mut B|
                &*m == &*old(*self) && &*final(m) == &**final(self) && #[trigger] call_ensures(
                    B::get_pin,
                    (m, state),
                    r,
                ),
    {
        (**self).get_pin(state)
    }

    fn confirm(&mut self, state: &State, options: ConfirmOptions) -> (r: Result<
        ConfirmOutcome,
        AssuanError,
    >)
        ensures
            exists|m: &mut B|
                &*m == &*old(*self) && &*final(m) == &**final(self) && #[trigger] call_ensures(
                    B::confirm,
                    (m, state, options),
                    r,
                ),
    {
        (**self).confirm(state, options)
    }

    fn flavor(&self) -> (r: &'static str)
        ensures
            call_ensures(B::flavor, (&*old(*self),), r),
    {
        (**self).flavor()
    }
}

/// Always cancels, so gpg-agent gets a clean answer instead of a hang.
pub struct NullBackend {
    flavor: &'static str,
}

impl NullBackend {
    pub fn new() -> (r: Self)
        ensures
            r.spec_flavor()@ == "null"@,
    {
        Self { flavor: "null" }
    }

    pub closed spec fn spec_flavor(&self) -> &'static str {
        self.flavor
    }
}

impl Default for NullBackend {
    fn default() -> (r: Self)
        ensures
            r.spec_flavor()@ == "null"@,
    {
        Self::new()
    }
}

impl Backend for NullBackend {
    fn get_pin(&mut self, state: &State) -> (r: Result<PinResponse, AssuanError>)
        ensures
            r matches Err(e) && e.code == CANCELED && e.description@ == "Operation cancelled"@,
    {
        Err(AssuanError::canceled())
    }

    fn confirm(&mut self, state: &State, options: ConfirmOptions) -> (r: Result<
        ConfirmOutcome,
        AssuanError,
    >)
        ensures
            r == Ok::<ConfirmOutcome, AssuanError>(ConfirmOutcome::Cancelled),
    {
        Ok(ConfirmOutcome::Cancelled)
    }

    fn flavor(&self) -> (r: &'static str)
        ensures
            r == self.spec_flavor(),
    {
        self.flavor
    }
}

} // verus!

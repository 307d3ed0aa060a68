use vstd::prelude::*;
use vstd::string::*;
use global_hotkey::hotkey::HotKey;

verus! {

#[verifier::external_type_specification]
#[verifier::external_body]
pub struct ExHotKey(HotKey);

/// Whether the platform's shortcut grammar accepts the text (e.g. "Ctrl+Shift+Space").
pub uninterp spec fn shortcut_parses(s: Seq<char>) -> bool;

/// Relies on `HotKey::from_str` of global-hotkey (re-exported by the Tauri
/// plugin as `Shortcut`): whether parsing succeeds depends on the text alone.
#[verifier::external_body]
fn parse_shortcut(s: &str) -> (r: Option<HotKey>)
    ensures
        r.is_some() == shortcut_parses(s@),
{
    s.parse::<HotKey>().ok()
}

/// Minimal time, in milliseconds, between two toggles that both take effect.
pub const DEBOUNCE_MS: u64 = 250;

/// A toggle at `now` goes through after the one at `last`.
pub open spec fn debounce_passes(last: Option<u64>, now: u64) -> bool {
    match last {
        None => true,
        Some(t) => now >= t && now - t >= DEBOUNCE_MS,
    }
}

/// The hotkey settings last asked for.
#[derive(Debug)]
pub struct HotkeyConfig {
    pub enabled: bool,
    pub shortcut: String,
}

/// Mathematical view of the controller.
pub struct HotkeyView {
    pub enabled: bool,
    pub shortcut: Seq<char>,
    /// The key registered with the platform, if any; it is the key of `shortcut`.
    pub active: Option<HotKey>,
    /// The key of `shortcut`, handed out for registration and awaiting its outcome.
    pub pending: Option<HotKey>,
    /// Time of the last toggle that went through.
    pub last_toggle: Option<u64>,
}

impl HotkeyView {
    pub open spec fn wf(self) -> bool {
        &&& self.active is Some ==> self.enabled && shortcut_parses(self.shortcut)
        &&& self.pending is Some ==> self.enabled && shortcut_parses(self.shortcut)
            && self.active is None
    }

    /// The text of the shortcut registered with the platform, if any.
    pub open spec fn active_text(self) -> Option<Seq<char>> {
        if self.active is Some {
            Some(self.shortcut)
        } else {
            None
        }
    }
}

/// The state after a reconfiguration request that handed out `key` for registration.
pub open spec fn after_configure(
    v: HotkeyView,
    enabled: bool,
    shortcut: Seq<char>,
    key: Option<HotKey>,
) -> HotkeyView {
    HotkeyView { enabled, shortcut, active: None, pending: key, last_toggle: v.last_toggle }
}

/// The state once the platform has answered a registration (`ok` tells whether it succeeded).
pub open spec fn after_registration(v: HotkeyView, ok: bool) -> HotkeyView {
    HotkeyView {
        active: if ok && v.pending is Some {
            v.pending
        } else {
            v.active
        },
        pending: None,
        ..v
    }
}

/// The state after a toggle trigger at `now`.
pub open spec fn after_trigger(v: HotkeyView, now: u64) -> HotkeyView {
    if debounce_passes(v.last_toggle, now) {
        HotkeyView { last_toggle: Some(now), ..v }
    } else {
        v
    }
}

/// What went wrong while configuring the hotkey.
#[derive(Debug)]
pub enum HotkeyError {
    /// The shortcut text does not parse.
    InvalidShortcut(String),
    /// The platform refused the registration; holds its description.
    Registration(String),
}

impl HotkeyError {
    /// Human-readable message for the settings screen.
    pub fn message(&self) -> (r: String)
        ensures
            r@ == match self {
                HotkeyError::InvalidShortcut(s) =>
                    "Ungültiger Hotkey: "@ + s@ + ". Beispiel: Ctrl+Shift+Space"@,
                HotkeyError::Registration(d) => "Hotkey Fehler: "@ + d@,
            },
    {
        match self {
            HotkeyError::InvalidShortcut(s) => {
                let mut r = String::from_str("Ungültiger Hotkey: ");
                r.append(s.as_str());
                r.append(". Beispiel: Ctrl+Shift+Space");
                r
            },
            HotkeyError::Registration(d) => {
                let mut r = String::from_str("Hotkey Fehler: ");
                r.append(d.as_str());
                r
            },
        }
    }
}

/// The platform work that a reconfiguration asks for, in this order:
/// first unregister, then register.
pub struct ConfigurePlan {
    /// The key registered so far, to be unregistered.
    pub unregister: Option<HotKey>,
    /// The new shortcut, to be registered with the toggle callback.
    pub register: Option<HotKey>,
    /// The answer to the caller, unless registration then fails.
    pub result: Result<(), HotkeyError>,
}

/// Owns the hotkey configuration, the registration in force and the debounce state.
pub struct HotkeyController {
    config: HotkeyConfig,
    active: Option<HotKey>,
    pending: Option<HotKey>,
    last_toggle: Option<u64>,
}

impl View for HotkeyController {
    type V = HotkeyView;

    closed spec fn view(&self) -> HotkeyView {
        HotkeyView {
            enabled: self.config.enabled,
            shortcut: self.config.shortcut@,
            active: self.active,
            pending: self.pending,
            last_toggle: self.last_toggle,
        }
    }
}

impl HotkeyController {
    #[verifier::type_invariant]
    spec fn inv(self) -> bool {
        self@.wf()
    }

    /// A controller with the given start configuration, nothing registered yet
    /// and no toggle so far.
    pub fn new(enabled: bool, shortcut: String) -> (r: Self)
        ensures
            r@ == (HotkeyView {
                enabled,
                shortcut: shortcut@,
                active: None,
                pending: None,
                last_toggle: None,
            }),
            r@.wf(),
    {
        HotkeyController {
            config: HotkeyConfig { enabled, shortcut },
            active: None,
            pending: None,
            last_toggle: None,
        }
    }

    /// The built-in start configuration: enabled, on "Ctrl+Shift+Space".
    pub fn with_default() -> (r: Self)
        ensures
            r@.enabled,
            r@.shortcut == "Ctrl+Shift+Space"@,
            r@.active is None,
            r@.pending is None,
            r@.last_toggle is None,
            r@.wf(),
    {
        Self::new(true, String::from_str("Ctrl+Shift+Space"))
    }

    /// The configuration last asked for.
    pub fn config(&self) -> (r: &HotkeyConfig)
        ensures
            r.enabled == self@.enabled,
            r.shortcut@ == self@.shortcut,
    {
        &self.config
    }

    /// The text of the shortcut registered with the platform, if any.
    pub fn active_shortcut(&self) -> (r: Option<&String>)
        ensures
            match r {
                Some(a) => self@.active_text() == Some(a@),
                None => self@.active is None,
            },
    {
        match self.active {
            Some(_) => Some(&self.config.shortcut),
            None => None,
        }
    }

    /// Reconfigure: drop the registration in force, store the new settings,
    /// and, when enabled, hand out the parsed shortcut to register.
    /// The caller then performs the plan and reports the registration's
    /// outcome with `registration_done`.
    pub fn configure(&mut self, enabled: bool, shortcut: String) -> (r: ConfigurePlan)
        ensures
            final(self)@ == after_configure(old(self)@, enabled, shortcut@, r.register),
            final(self)@.wf(),
            r.unregister == old(self)@.active,
            r.register.is_some() == (enabled && shortcut_parses(shortcut@)),
            match r.result {
                Ok(()) => !enabled || shortcut_parses(shortcut@),
                Err(HotkeyError::InvalidShortcut(s)) =>
                    enabled && !shortcut_parses(shortcut@) && s@ == shortcut@,
                Err(HotkeyError::Registration(_)) => false,
            },
    {
        proof {
            use_type_invariant(&*self);
        }
        let unregister = self.active;
        self.active = None;
        self.pending = None;
        self.config = HotkeyConfig { enabled, shortcut };
        if !enabled {
            return ConfigurePlan { unregister, register: None, result: Ok(()) };
        }
        match parse_shortcut(self.config.shortcut.as_str()) {
            Some(h) => {
                self.pending = Some(h);
                ConfigurePlan { unregister, register: Some(h), result: Ok(()) }
            },
            None => ConfigurePlan {
                unregister,
                register: None,
                result: Err(HotkeyError::InvalidShortcut(self.config.shortcut.clone())),
            },
        }
    }

    /// Record how the registration handed out by `configure` went:
    /// `Ok` makes the new shortcut the active one; `Err` (the platform's
    /// description) leaves the feature disabled and is reported back.
    pub fn registration_done(&mut self, outcome: Result<(), String>) -> (r: Result<(), HotkeyError>)
        ensures
            final(self)@ == after_registration(old(self)@, outcome is Ok),
            final(self)@.wf(),
            match outcome {
                Ok(()) => r is Ok,
                Err(d) => r matches Err(HotkeyError::Registration(e)) && e@ == d@,
            },
    {
        proof {
            use_type_invariant(&*self);
        }
        match outcome {
            Ok(()) => {
                let handed_out = self.pending;
                self.pending = None;
                if handed_out.is_some() {
                    self.active = handed_out;
                }
                Ok(())
            },
            Err(d) => {
                self.pending = None;
                Err(HotkeyError::Registration(d))
            },
        }
    }

    /// Debounce gate in front of every toggle: a trigger at `now` (monotonic
    /// milliseconds) goes through only when at least `DEBOUNCE_MS` have passed
    /// since the last one that did; that time is then moved to `now` before
    /// any window work starts.
    pub fn try_begin_toggle(&mut self, now: u64) -> (r: bool)
        ensures
            r == debounce_passes(old(self)@.last_toggle, now),
            final(self)@ == after_trigger(old(self)@, now),
            final(self)@.wf(),
    {
        proof {
            use_type_invariant(&*self);
        }
        let go = match self.last_toggle {
            None => true,
            Some(t) => now >= t && now - t >= DEBOUNCE_MS,
        };
        if go {
            self.last_toggle = Some(now);
        }
        go
    }
}

} // verus!

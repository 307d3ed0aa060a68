use vstd::prelude::*;
use global_hotkey::hotkey::HotKey;
use crate::hotkey::{
    after_configure, after_registration, after_trigger, debounce_passes, shortcut_parses,
    HotkeyView, DEBOUNCE_MS,
};
use crate::window::{shown_after, toggle_decision, WindowAction};

verus! {

/// A trigger that comes less than the debounce window after one that went
/// through is a no-op: it does not pass and leaves the state as it was.
pub proof fn lemma_close_triggers_fire_once(v: HotkeyView, t1: u64, t2: u64)
    requires
        debounce_passes(v.last_toggle, t1),
        t1 <= t2,
        t2 - t1 < DEBOUNCE_MS,
    ensures
        !debounce_passes(after_trigger(v, t1).last_toggle, t2),
        after_trigger(after_trigger(v, t1), t2) == after_trigger(v, t1),
{
}

/// Two triggers at least the debounce window apart both pass, and, with the
/// window left as the first one put it, the second undoes the first.
pub proof fn lemma_spaced_triggers_alternate(
    v: HotkeyView,
    t1: u64,
    t2: u64,
    minimized: Option<bool>,
    visible: Option<bool>,
)
    requires
        debounce_passes(v.last_toggle, t1),
        t1 <= t2,
        t2 - t1 >= DEBOUNCE_MS,
    ensures
        debounce_passes(after_trigger(v, t1).last_toggle, t2),
        ({
            let first = toggle_decision(minimized, visible);
            let second = toggle_decision(
                Some(false),
                Some(shown_after(first)),
            );
            second != first && shown_after(second) != shown_after(first)
        }),
{
}

/// The platform's registrations as a set of keys: at most the one given.
pub open spec fn key_set(k: Option<HotKey>) -> Set<HotKey> {
    match k {
        Some(x) => set![x],
        None => Set::empty(),
    }
}

/// The platform's registrations after a reconfiguration plan has been carried
/// out: `unregister` is dropped first, then `register` is added if the
/// platform accepted it (`ok`).
pub open spec fn registrations_after(
    regs: Set<HotKey>,
    unregister: Option<HotKey>,
    register: Option<HotKey>,
    ok: bool,
) -> Set<HotKey> {
    let dropped = match unregister {
        Some(k) => regs.remove(k),
        None => regs,
    };
    match register {
        Some(k) => if ok {
            dropped.insert(k)
        } else {
            dropped
        },
        None => dropped,
    }
}

/// Carrying out a reconfiguration keeps the platform's registrations equal to
/// the controller's active key: never two registrations, and none at all
/// when the feature is off, the shortcut does not parse or the platform
/// refused it.
pub proof fn lemma_single_registration(
    v: HotkeyView,
    regs: Set<HotKey>,
    enabled: bool,
    shortcut: Seq<char>,
    register: Option<HotKey>,
    ok: bool,
)
    requires
        v.wf(),
        v.pending is None,
        regs == key_set(v.active),
        register is Some == (enabled && shortcut_parses(shortcut)),
    ensures
        ({
            let w = after_registration(after_configure(v, enabled, shortcut, register), ok);
            &&& registrations_after(regs, v.active, register, ok) == key_set(w.active)
            &&& w.wf()
            &&& w.pending is None
            &&& w.active is Some <==> ok && enabled && shortcut_parses(shortcut)
        }),
{
    let w = after_registration(after_configure(v, enabled, shortcut, register), ok);
    assert(registrations_after(regs, v.active, register, ok) =~= key_set(w.active));
}

/// After two successful reconfigurations in a row, only the second shortcut's
/// key is registered: the second reconfiguration unregisters the first key
/// before it registers its own.
pub proof fn lemma_reconfigure_keeps_latest(
    v: HotkeyView,
    regs: Set<HotKey>,
    s1: Seq<char>,
    s2: Seq<char>,
    k1: HotKey,
    k2: HotKey,
)
    requires
        v.wf(),
        v.pending is None,
        regs == key_set(v.active),
        shortcut_parses(s1),
        shortcut_parses(s2),
    ensures
        ({
            let first = after_registration(after_configure(v, true, s1, Some(k1)), true);
            let second = after_registration(after_configure(first, true, s2, Some(k2)), true);
            let regs1 = registrations_after(regs, v.active, Some(k1), true);
            &&& first.active == Some(k1)
            &&& regs1 == set![k1]
            &&& registrations_after(regs1, first.active, Some(k2), true) == set![k2]
            &&& second.active == Some(k2)
            &&& second.active_text() == Some(s2)
            &&& second.enabled && second.shortcut == s2
        }),
{
    lemma_single_registration(v, regs, true, s1, Some(k1), true);
    let first = after_registration(after_configure(v, true, s1, Some(k1)), true);
    lemma_single_registration(first, set![k1], true, s2, Some(k2), true);
}

/// A reconfiguration with a shortcut that does not parse leaves nothing
/// registered, even once the platform has answered, while the stored
/// settings are the ones asked for; the next reconfiguration then has
/// nothing to unregister.
pub proof fn lemma_invalid_shortcut_disables(v: HotkeyView, s: Seq<char>, ok: bool)
    requires
        v.wf(),
        !shortcut_parses(s),
    ensures
        after_configure(v, true, s, None).active is None,
        after_registration(after_configure(v, true, s, None), ok).active is None,
        after_configure(v, true, s, None).enabled,
        after_configure(v, true, s, None).shortcut == s,
{
}

/// A valid controller whose stored shortcut does not parse has nothing
/// registered, so a reconfiguration unregisters nothing.
pub proof fn lemma_unparsable_stored_shortcut_unregisters_nothing(v: HotkeyView)
    requires
        v.wf(),
        !shortcut_parses(v.shortcut),
    ensures
        v.active is None,
{
}

} // verus!

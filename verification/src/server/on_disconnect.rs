//! What happens to a device's forwarding rules when its transport goes away.
use vstd::prelude::*;

use crate::server::backend::{LifecycleEvent, LifecycleView};
use crate::server::forward::{tasks_of, without_serial, ForwardRegistry, RuleView};
use crate::server::forward_handle::{release, Released};
use crate::text::texts;

verus! {

/// The policy for the rules of a device that disconnects.
#[derive(Clone, Copy, Debug, PartialEq, Eq, Structural)]
pub enum OnDisconnect {
    /// Release them. This is what standard servers do.
    ReleaseAll,
    /// Keep them; the caller releases them when it wants to.
    Retain,
    /// Keep them and tell the caller.
    Notify,
}

impl Default for OnDisconnect {
    fn default() -> (r: Self)
        ensures
            r == OnDisconnect::ReleaseAll,
    {
        OnDisconnect::ReleaseAll
    }
}

impl OnDisconnect {
    /// The policy's name in logs. A caller's callback is not described.
    pub open spec fn label(self) -> Seq<char> {
        match self {
            OnDisconnect::ReleaseAll => "ReleaseAll"@,
            OnDisconnect::Retain => "Retain"@,
            OnDisconnect::Notify => "Notify(<fn>)"@,
        }
    }

    /// The policy's name in logs.
    pub fn debug_label(&self) -> (r: &'static str)
        ensures
            r@ == self.label(),
    {
        match self {
            OnDisconnect::ReleaseAll => "ReleaseAll",
            OnDisconnect::Retain => "Retain",
            OnDisconnect::Notify => "Notify(<fn>)",
        }
    }

    /// Whether the server has to watch for disconnects at all.
    pub fn watches(&self) -> (r: bool)
        ensures
            r == watched(*self),
    {
        match self {
            OnDisconnect::Retain => false,
            _ => true,
        }
    }
}

/// Whether a policy has anything to do when a device disconnects.
pub open spec fn watched(policy: OnDisconnect) -> bool {
    policy != OnDisconnect::Retain
}

/// What the caller has to do after a lifecycle event.
#[derive(Debug, PartialEq, Eq)]
pub enum DisconnectAction {
    /// Nothing.
    Keep,
    /// Stop the listeners and drop the reverse rules.
    Release(Released),
    /// Call back with this serial.
    Notify(String),
}

/// The event after which rules may be released: a transport that is gone for good.
pub open spec fn gone_for_good(event: LifecycleView) -> Option<Seq<char>> {
    match event {
        LifecycleView::Disconnected(s) => Some(s),
        LifecycleView::TransportReset(_) => None,
    }
}

/// The rules after a lifecycle event under a policy.
pub open spec fn rules_after(
    policy: OnDisconnect,
    rules: Map<u16, RuleView>,
    event: LifecycleView,
) -> Map<u16, RuleView> {
    match (policy, gone_for_good(event)) {
        (OnDisconnect::ReleaseAll, Some(s)) => without_serial(rules, s),
        _ => rules,
    }
}

/// The action that a lifecycle event calls for: to release what the device had, to
/// tell the caller its serial, or nothing.
pub open spec fn action_fits(
    policy: OnDisconnect,
    rules: Map<u16, RuleView>,
    event: LifecycleView,
    action: DisconnectAction,
) -> bool {
    match (policy, gone_for_good(event)) {
        (OnDisconnect::ReleaseAll, Some(s)) => action matches DisconnectAction::Release(rel)
            && rel.listeners@ == tasks_of(rules, s) && texts(rel.reverse@) == seq![s],
        (OnDisconnect::Notify, Some(s)) => action matches DisconnectAction::Notify(t) && t@ == s,
        _ => action is Keep,
    }
}

/// The rules after a row of lifecycle events under a policy.
pub open spec fn rules_after_all(
    policy: OnDisconnect,
    rules: Map<u16, RuleView>,
    events: Seq<LifecycleView>,
) -> Map<u16, RuleView>
    decreases events.len(),
{
    if events.len() == 0 {
        rules
    } else {
        rules_after_all(policy, rules_after(policy, rules, events[0]), events.skip(1))
    }
}

/// Handles one lifecycle event. Only a transport that is gone for good has
/// consequences: a restart of the device's daemon keeps its rules.
pub fn handle_disconnect(
    policy: OnDisconnect,
    forwards: &mut ForwardRegistry,
    event: &LifecycleEvent,
) -> (r: DisconnectAction)
    requires
        old(forwards).wf(),
    ensures
        final(forwards).wf(),
        final(forwards)@ == rules_after(policy, old(forwards)@, event@),
        action_fits(policy, old(forwards)@, event@, r),
{
    match event {
        LifecycleEvent::TransportReset(_) => DisconnectAction::Keep,
        LifecycleEvent::Disconnected(serial) => match policy {
            OnDisconnect::ReleaseAll => DisconnectAction::Release(
                release(forwards, serial.as_str()),
            ),
            OnDisconnect::Retain => DisconnectAction::Keep,
            OnDisconnect::Notify => DisconnectAction::Notify(serial.clone()),
        },
    }
}

/// A restart of a device's daemon never changes the rules, whatever the policy.
pub proof fn reset_keeps_rules(
    policy: OnDisconnect,
    rules: Map<u16, RuleView>,
    serial: Seq<char>,
)
    ensures
        rules_after(policy, rules, LifecycleView::TransportReset(serial)) == rules,
{
}

/// Only the releasing policy ever changes the rules.
pub proof fn only_release_all_releases(
    policy: OnDisconnect,
    rules: Map<u16, RuleView>,
    events: Seq<LifecycleView>,
)
    requires
        policy != OnDisconnect::ReleaseAll,
    ensures
        rules_after_all(policy, rules, events) == rules,
    decreases events.len(),
{
    if events.len() > 0 {
        only_release_all_releases(policy, rules, events.skip(1));
    }
}

/// Under the releasing policy a rule survives a row of events exactly if none of
/// them is the final disconnect of its device. In particular a restart in between
/// does not stop later disconnects from being handled.
pub proof fn rules_survive_unless_gone(
    rules: Map<u16, RuleView>,
    events: Seq<LifecycleView>,
    port: u16,
)
    requires
        rules.contains_key(port),
    ensures
        ({
            let after = rules_after_all(OnDisconnect::ReleaseAll, rules, events);
            &&& after.contains_key(port) <==> !events.contains(
                LifecycleView::Disconnected(rules[port].serial),
            )
            &&& after.contains_key(port) ==> after[port] == rules[port]
        }),
    decreases events.len(),
{
    let gone = LifecycleView::Disconnected(rules[port].serial);
    if events.len() > 0 {
        let next = rules_after(OnDisconnect::ReleaseAll, rules, events[0]);
        let rest = events.skip(1);
        if events[0] == gone {
            assert(events.contains(gone));
            released_stay_released(next, rest, port);
        } else {
            assert(next.contains_key(port) && next[port] == rules[port]);
            rules_survive_unless_gone(next, rest, port);
            if events.contains(gone) {
                let i = choose|i: int| 0 <= i < events.len() && events[i] == gone;
                assert(rest[i - 1] == gone);
            }
            if rest.contains(gone) {
                let i = choose|i: int| 0 <= i < rest.len() && rest[i] == gone;
                assert(events[i + 1] == gone);
            }
        }
    }
}

/// Events never bring a rule back.
proof fn released_stay_released(
    rules: Map<u16, RuleView>,
    events: Seq<LifecycleView>,
    port: u16,
)
    requires
        !rules.contains_key(port),
    ensures
        !rules_after_all(OnDisconnect::ReleaseAll, rules, events).contains_key(port),
    decreases events.len(),
{
    if events.len() > 0 {
        released_stay_released(
            rules_after(OnDisconnect::ReleaseAll, rules, events[0]),
            events.skip(1),
            port,
        );
    }
}

} // verus!

//! Releasing the forwarding rules of one device or of all devices.
use vstd::prelude::*;

use crate::order::{strictly_sorted, strictly_sorted_lists_agree};
use crate::server::forward::{
    all_tasks, has_rule, tasks_of, without_serial, ForwardRegistry, RuleView,
};
use crate::text::texts;

verus! {

/// What a release leaves for the caller to do.
#[derive(Debug, PartialEq, Eq)]
pub struct Released {
    /// The listeners to stop, one per rule that was removed.
    pub listeners: Vec<u64>,
    /// The devices whose reverse rules the backend has to drop.
    pub reverse: Vec<String>,
}

/// Releases the rules of one device. Its reverse rules are to be dropped in any
/// case: the backend alone knows whether there are any.
pub fn release(forwards: &mut ForwardRegistry, serial: &str) -> (r: Released)
    requires
        old(forwards).wf(),
    ensures
        final(forwards).wf(),
        final(forwards)@ == without_serial(old(forwards)@, serial@),
        r.listeners@ == tasks_of(old(forwards)@, serial@),
        texts(r.reverse@) == seq![serial@],
{
    let listeners = forwards.remove_by_serial(serial);
    let mut reverse: Vec<String> = Vec::new();
    reverse.push(serial.to_owned());
    assert(texts(reverse@) =~= seq![serial@]);
    Released { listeners, reverse }
}

/// Releases all rules. The reverse rules of every device that had a rule are to be
/// dropped, once for each device.
pub fn release_all(forwards: &mut ForwardRegistry) -> (r: Released)
    requires
        old(forwards).wf(),
    ensures
        final(forwards).wf(),
        final(forwards)@ == Map::<u16, RuleView>::empty(),
        r.listeners@ == all_tasks(old(forwards)@),
        strictly_sorted(texts(r.reverse@)),
        forall|s: Seq<char>| texts(r.reverse@).contains(s) <==> has_rule(old(forwards)@, s),
{
    let reverse = forwards.serials();
    let listeners = forwards.remove_all();
    Released { listeners, reverse }
}

/// The devices of a table in order: there is only one such list, so what
/// [`release_all`] hands back is determined.
pub proof fn released_devices_are_determined(
    rules: Map<u16, RuleView>,
    a: Seq<Seq<char>>,
    b: Seq<Seq<char>>,
)
    requires
        strictly_sorted(a),
        strictly_sorted(b),
        forall|s: Seq<char>| a.contains(s) <==> has_rule(rules, s),
        forall|s: Seq<char>| b.contains(s) <==> has_rule(rules, s),
    ensures
        a == b,
{
    assert forall|s: Seq<char>| a.contains(s) <==> b.contains(s) by {
        assert(a.contains(s) <==> has_rule(rules, s));
    }
    strictly_sorted_lists_agree(a, b);
}

} // verus!

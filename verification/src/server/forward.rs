//! Forwarding from host ports to devices: the requests and the table of rules.
//!
//! A rule binds a listener on a host port; each connection to it is joined to a
//! service on one device. Rules outlive the client that asked for them, so the
//! table belongs to the server. The table names each listener by a number; the
//! methods that drop rules hand the numbers of their listeners back, so that the
//! caller can stop them.
use vstd::prelude::*;

use crate::models::{
    local_spec_reads_back, remote_spec_reads_back, ADBLocalCommand, LocalCommandView,
    LocalSocketSpec, RemoteSocketSpec,
};
use crate::number::{decimal, decimal_reads_back, decimal_string, is_digit};
use crate::order::{sorted_distinct, sorted_set_is_the_set, strictly_sorted};
use crate::text::{
    after_prefix, concat, cut_first, first_index_unique, has_prefix, split_once, str_eq,
    strip_prefix, texts,
};

verus! {

/// A request to add a rule.
#[derive(Clone, Copy, Debug, PartialEq, Eq, Structural)]
pub struct ForwardRequest {
    /// An existing rule for the port must not be replaced.
    pub norebind: bool,
    /// The port is to be chosen by the system and told to the client.
    pub local_is_zero: bool,
    /// The host end.
    pub local: LocalSocketSpec,
    /// The device end.
    pub remote: RemoteSocketSpec,
}

/// `[norebind:]<local>;<remote>` as a request, if it is one.
pub open spec fn parsed_forward(arg: Seq<char>) -> Option<ForwardRequest> {
    let norebind = has_prefix(arg, "norebind:"@);
    let rest = if norebind {
        after_prefix(arg, "norebind:"@)
    } else {
        arg
    };
    match cut_first(rest, ';') {
        Some((l, r)) => match (LocalSocketSpec::parsed(l), RemoteSocketSpec::parsed(r)) {
            (Some(local), Some(remote)) => Some(
                ForwardRequest { norebind, local_is_zero: local.port() == 0, local, remote },
            ),
            _ => None,
        },
        None => None,
    }
}

/// Reads `[norebind:]<local>;<remote>`; the error is the reason for the client.
pub fn parse_forward(arg: &str) -> (r: Result<ForwardRequest, String>)
    ensures
        match r {
            Ok(req) => parsed_forward(arg@) == Some(req),
            Err(reason) => parsed_forward(arg@) is None && reason@ == "bad forward: "@ + arg@,
        },
{
    let (norebind, rest) = match strip_prefix(arg, "norebind:") {
        Some(r) => (true, r),
        None => (false, arg),
    };
    match split_once(rest, ';') {
        Some((l, r)) => match (LocalSocketSpec::parse(l), RemoteSocketSpec::parse(r)) {
            (Some(local), Some(remote)) => {
                let local_is_zero = local.tcp_port() == 0;
                Ok(ForwardRequest { norebind, local_is_zero, local, remote })
            },
            _ => Err(concat("bad forward: ", arg)),
        },
        None => Err(concat("bad forward: ", arg)),
    }
}

/// Reads the host end of a rule to be removed; the error is the reason for the
/// client.
pub fn parse_killforward(arg: &str) -> (r: Result<LocalSocketSpec, String>)
    ensures
        match r {
            Ok(local) => LocalSocketSpec::parsed(arg@) == Some(local),
            Err(reason) => LocalSocketSpec::parsed(arg@) is None && reason@ == "bad killforward: "@
                + arg@,
        },
{
    match LocalSocketSpec::parse(arg) {
        Some(local) => Ok(local),
        None => Err(concat("bad killforward: ", arg)),
    }
}

/// The service that a forwarded connection opens on the device: the device end
/// of the rule, word for word.
pub open spec fn forward_service(remote: RemoteSocketSpec) -> LocalCommandView {
    match remote {
        RemoteSocketSpec::Tcp(p) => LocalCommandView::TcpConnect(p),
        RemoteSocketSpec::Vsock { .. } => LocalCommandView::Raw(remote.text()),
    }
}

/// The service that a forwarded connection opens on the device.
pub fn forward_command(remote: &RemoteSocketSpec) -> (r: ADBLocalCommand)
    ensures
        r@ == forward_service(*remote),
{
    match remote {
        RemoteSocketSpec::Tcp(p) => ADBLocalCommand::TcpConnect(*p),
        RemoteSocketSpec::Vsock { .. } => ADBLocalCommand::Raw(remote.to_text()),
    }
}

/// One rule of the table.
struct ForwardRule {
    port: u16,
    remote: RemoteSocketSpec,
    serial: String,
    task: u64,
}

/// What a rule says besides its port.
pub struct RuleView {
    /// The device end.
    pub remote: RemoteSocketSpec,
    /// The device.
    pub serial: Seq<char>,
    /// The number of the listener.
    pub task: u64,
}

impl ForwardRule {
    spec fn rule(self) -> RuleView {
        RuleView { remote: self.remote, serial: self.serial@, task: self.task }
    }
}

/// The table of rules, by host port.
pub struct ForwardRegistry {
    rules: Vec<ForwardRule>,
}

/// The ports grow strictly.
spec fn ports_sorted(rows: Seq<ForwardRule>) -> bool {
    forall|i: int, j: int| 0 <= i < j < rows.len() ==> (#[trigger] rows[i]).port < (
    #[trigger] rows[j]).port
}

/// The rules by port.
spec fn rows_map(rows: Seq<ForwardRule>) -> Map<u16, RuleView>
    decreases rows.len(),
{
    if rows.len() == 0 {
        Map::empty()
    } else {
        rows_map(rows.drop_last()).insert(rows.last().port, rows.last().rule())
    }
}

/// A table row is found under its port, and nothing else is.
proof fn rows_map_lookup(rows: Seq<ForwardRule>)
    requires
        ports_sorted(rows),
    ensures
        forall|i: int|
            0 <= i < rows.len() ==> rows_map(rows).contains_key((#[trigger] rows[i]).port)
                && rows_map(rows)[rows[i].port] == rows[i].rule(),
        forall|p: u16| #[trigger]
            rows_map(rows).contains_key(p) ==> exists|i: int|
                0 <= i < rows.len() && (#[trigger] rows[i]).port == p,
    decreases rows.len(),
{
    if rows.len() > 0 {
        let init = rows.drop_last();
        rows_map_lookup(init);
        assert forall|i: int| 0 <= i < rows.len() implies rows_map(rows).contains_key(
            (#[trigger] rows[i]).port,
        ) && rows_map(rows)[rows[i].port] == rows[i].rule() by {
            if i < init.len() {
                assert(init[i] == rows[i]);
                assert(rows[i].port < rows[rows.len() - 1].port);
            }
        }
        assert forall|p: u16| #[trigger] rows_map(rows).contains_key(p) implies exists|i: int|
            0 <= i < rows.len() && (#[trigger] rows[i]).port == p by {
            if p == rows.last().port {
                assert(rows[rows.len() - 1].port == p);
            } else {
                assert(rows_map(init).contains_key(p));
                let i = choose|i: int| 0 <= i < init.len() && (#[trigger] init[i]).port == p;
                assert(rows[i].port == p);
            }
        }
    }
}

/// A line of the listing: serial, host end, device end.
pub open spec fn forward_line(port: u16, rule: RuleView) -> Seq<char> {
    rule.serial + " tcp:"@ + decimal(port as nat) + " "@ + rule.remote.text() + "\n"@
}

/// The lines of the rules with ports below `k`, by ascending port.
pub open spec fn listing_below(rules: Map<u16, RuleView>, k: nat) -> Seq<char>
    decreases k,
{
    if k == 0 {
        Seq::empty()
    } else {
        let p = (k - 1) as u16;
        let before = listing_below(rules, (k - 1) as nat);
        if rules.contains_key(p) {
            before + forward_line(p, rules[p])
        } else {
            before
        }
    }
}

/// The listing of the whole table: one line per rule, by ascending port.
pub open spec fn listing(rules: Map<u16, RuleView>) -> Seq<char> {
    listing_below(rules, 0x1_0000)
}

/// The listeners of the rules with ports below `k` that `pick` picks, by
/// ascending port.
pub open spec fn tasks_below(
    rules: Map<u16, RuleView>,
    pick: spec_fn(RuleView) -> bool,
    k: nat,
) -> Seq<u64>
    decreases k,
{
    if k == 0 {
        Seq::empty()
    } else {
        let p = (k - 1) as u16;
        let before = tasks_below(rules, pick, (k - 1) as nat);
        if rules.contains_key(p) && pick(rules[p]) {
            before.push(rules[p].task)
        } else {
            before
        }
    }
}

/// The listeners of all rules.
pub open spec fn all_tasks(rules: Map<u16, RuleView>) -> Seq<u64> {
    tasks_below(rules, |r: RuleView| true, 0x1_0000)
}

/// The listeners of the rules of one device.
pub open spec fn tasks_of(rules: Map<u16, RuleView>, serial: Seq<char>) -> Seq<u64> {
    tasks_below(rules, |r: RuleView| r.serial == serial, 0x1_0000)
}

/// The table without the rules of one device.
pub open spec fn without_serial(
    rules: Map<u16, RuleView>,
    serial: Seq<char>,
) -> Map<u16, RuleView> {
    Map::new(
        |p: u16| rules.contains_key(p) && rules[p].serial != serial,
        |p: u16| rules[p],
    )
}

/// The device has a rule in the table.
pub open spec fn has_rule(rules: Map<u16, RuleView>, serial: Seq<char>) -> bool {
    exists|p: u16| #[trigger] rules.contains_key(p) && rules[p].serial == serial
}

/// Ports without rules do not show in a listing.
proof fn listing_skips(rules: Map<u16, RuleView>, a: nat, b: nat)
    requires
        a <= b <= 0x1_0000,
        forall|p: u16| a <= p < b ==> !rules.contains_key(p),
    ensures
        listing_below(rules, b) == listing_below(rules, a),
    decreases b - a,
{
    if a < b {
        listing_skips(rules, a, (b - 1) as nat);
        assert(!rules.contains_key((b - 1) as u16));
    }
}

/// Ports without picked rules have no listeners to hand back.
proof fn tasks_skip(
    rules: Map<u16, RuleView>,
    pick: spec_fn(RuleView) -> bool,
    a: nat,
    b: nat,
)
    requires
        a <= b <= 0x1_0000,
        forall|p: u16| a <= p < b ==> !(rules.contains_key(p) && pick(rules[p])),
    ensures
        tasks_below(rules, pick, b) == tasks_below(rules, pick, a),
    decreases b - a,
{
    if a < b {
        tasks_skip(rules, pick, a, (b - 1) as nat);
        let p = (b - 1) as u16;
        assert(!(rules.contains_key(p) && pick(rules[p])));
    }
}

/// The first port that row `i` and the rows after it can have.
spec fn floor_of(rows: Seq<ForwardRule>, i: int) -> nat {
    if i == 0 {
        0
    } else {
        rows[i - 1].port as nat + 1
    }
}

/// Between the ports of two neighbouring rows no port has a rule.
proof fn no_rules_between(rows: Seq<ForwardRule>, i: int, p: u16)
    requires
        ports_sorted(rows),
        0 <= i <= rows.len(),
        floor_of(rows, i) <= p,
        i < rows.len() ==> p < rows[i].port,
    ensures
        !rows_map(rows).contains_key(p),
{
    rows_map_lookup(rows);
    if rows_map(rows).contains_key(p) {
        let j = choose|j: int| 0 <= j < rows.len() && (#[trigger] rows[j]).port == p;
        if j < i {
            if j < i - 1 {
                assert(rows[j].port < rows[i - 1].port);
            }
        } else if i < rows.len() && j > i {
            assert(rows[i].port < rows[j].port);
        }
    }
}

impl View for ForwardRegistry {
    type V = Map<u16, RuleView>;

    closed spec fn view(&self) -> Map<u16, RuleView> {
        rows_map(self.rules@)
    }
}

impl Default for ForwardRegistry {
    /// An empty table.
    fn default() -> (r: Self)
        ensures
            r.wf(),
            r@ == Map::<u16, RuleView>::empty(),
    {
        ForwardRegistry::new()
    }
}

impl ForwardRegistry {
    /// The table is in order. Every table that the methods make is.
    pub closed spec fn wf(&self) -> bool {
        ports_sorted(self.rules@)
    }

    /// An empty table.
    pub fn new() -> (r: Self)
        ensures
            r.wf(),
            r@ == Map::<u16, RuleView>::empty(),
    {
        ForwardRegistry { rules: Vec::new() }
    }

    /// How many rows have ports below `port`.
    fn position(&self, port: u16) -> (k: usize)
        requires
            self.wf(),
        ensures
            k <= self.rules@.len(),
            forall|j: int| 0 <= j < k ==> (#[trigger] self.rules@[j]).port < port,
            forall|j: int| k <= j < self.rules@.len() ==> (#[trigger] self.rules@[j]).port >= port,
            self@.contains_key(port) <==> k < self.rules@.len() && self.rules@[k as int].port
                == port,
    {
        let mut k: usize = 0;
        while k < self.rules.len() && self.rules[k].port < port
            invariant
                k <= self.rules@.len(),
                forall|j: int| 0 <= j < k ==> (#[trigger] self.rules@[j]).port < port,
            ensures
                k <= self.rules@.len(),
                forall|j: int| 0 <= j < k ==> (#[trigger] self.rules@[j]).port < port,
                k < self.rules@.len() ==> self.rules@[k as int].port >= port,
            decreases self.rules.len() - k,
        {
            k += 1;
        }
        proof {
            rows_map_lookup(self.rules@);
            assert forall|j: int| k <= j < self.rules@.len() implies (
            #[trigger] self.rules@[j]).port >= port by {
                if k < j {
                    assert(self.rules@[k as int].port < self.rules@[j].port);
                }
            }
        }
        k
    }

    /// Whether the port has a rule.
    pub fn contains(&self, port: u16) -> (r: bool)
        requires
            self.wf(),
        ensures
            r == self@.contains_key(port),
    {
        let k = self.position(port);
        k < self.rules.len() && self.rules[k].port == port
    }

    /// Adds a rule. A rule that the port had before is replaced, and its listener
    /// is handed back.
    pub fn insert(&mut self, port: u16, remote: RemoteSocketSpec, serial: String, task: u64) -> (r:
        Option<u64>)
        requires
            old(self).wf(),
        ensures
            final(self).wf(),
            final(self)@ == old(self)@.insert(port, RuleView { remote, serial: serial@, task }),
            r == (if old(self)@.contains_key(port) {
                Some(old(self)@[port].task)
            } else {
                None
            }),
    {
        let ghost all = self@;
        let handed = self.remove(port);
        let k = self.position(port);
        self.add_row(k, ForwardRule { port, remote, serial, task });
        assert(all.remove(port).insert(port, RuleView { remote, serial: serial@, task })
            =~= all.insert(port, RuleView { remote, serial: serial@, task }));
        handed
    }

    /// Puts a row in at `k`, where its port belongs.
    fn add_row(&mut self, k: usize, rule: ForwardRule)
        requires
            old(self).wf(),
            k <= old(self).rules@.len(),
            forall|j: int| 0 <= j < k ==> (#[trigger] old(self).rules@[j]).port < rule.port,
            forall|j: int|
                k <= j < old(self).rules@.len() ==> (#[trigger] old(self).rules@[j]).port
                    > rule.port,
        ensures
            final(self).wf(),
            final(self)@ == old(self)@.insert(rule.port, rule.rule()),
    {
        let ghost before = self.rules@;
        self.rules.insert(k, rule);
        proof {
            let after = self.rules@;
            assert forall|i: int| 0 <= i < after.len() implies #[trigger] after[i] == (if i < k {
                before[i]
            } else if i == k {
                rule
            } else {
                before[i - 1]
            }) by {}
            assert(ports_sorted(after));
            rows_map_lookup(before);
            rows_map_lookup(after);
            let m = rows_map(before).insert(rule.port, rule.rule());
            assert forall|p: u16| rows_map(after).contains_key(p) <==> m.contains_key(p) by {
                if rows_map(after).contains_key(p) {
                    let i = choose|i: int| 0 <= i < after.len() && (#[trigger] after[i]).port == p;
                    if i < k {
                        assert(before[i].port == p);
                    } else if i > k {
                        assert(before[i - 1].port == p);
                    }
                }
                if rows_map(before).contains_key(p) {
                    let i = choose|i: int|
                        0 <= i < before.len() && (#[trigger] before[i]).port == p;
                    if i < k {
                        assert(after[i].port == p);
                    } else {
                        assert(after[i + 1].port == p);
                    }
                }
                if p == rule.port {
                    assert(after[k as int].port == p);
                }
            }
            assert forall|p: u16| rows_map(after).contains_key(p) implies #[trigger] rows_map(
                after,
            )[p] == m[p] by {
                let i = choose|i: int| 0 <= i < after.len() && (#[trigger] after[i]).port == p;
                assert(rows_map(after)[after[i].port] == after[i].rule());
                if i < k {
                    assert(rows_map(before)[before[i].port] == before[i].rule());
                } else if i > k {
                    assert(rows_map(before)[before[i - 1].port] == before[i - 1].rule());
                }
            }
            assert(rows_map(after) =~= m);
        }
    }

    /// Drops the row at `k`.
    fn drop_row(&mut self, k: usize) -> (r: u64)
        requires
            old(self).wf(),
            k < old(self).rules@.len(),
        ensures
            final(self).wf(),
            final(self).rules@ == old(self).rules@.remove(k as int),
            final(self)@ == old(self)@.remove(old(self).rules@[k as int].port),
            r == old(self).rules@[k as int].task,
    {
        let ghost before = self.rules@;
        let task = self.rules[k].task;
        self.rules.remove(k);
        proof {
            let after = self.rules@;
            assert forall|i: int| 0 <= i < after.len() implies #[trigger] after[i] == (if i < k {
                before[i]
            } else {
                before[i + 1]
            }) by {}
            assert(ports_sorted(after));
            rows_map_lookup(before);
            rows_map_lookup(after);
            let port = before[k as int].port;
            let m = rows_map(before).remove(port);
            assert forall|p: u16| rows_map(after).contains_key(p) <==> m.contains_key(p) by {
                if rows_map(after).contains_key(p) {
                    let i = choose|i: int| 0 <= i < after.len() && (#[trigger] after[i]).port == p;
                    if i < k {
                        assert(before[i].port == p && before[i].port < before[k as int].port);
                    } else {
                        assert(before[i + 1].port == p && before[k as int].port < before[i
                            + 1].port);
                    }
                }
                if m.contains_key(p) {
                    let i = choose|i: int|
                        0 <= i < before.len() && (#[trigger] before[i]).port == p;
                    if i < k {
                        assert(after[i].port == p);
                    } else {
                        assert(after[i - 1].port == p);
                    }
                }
            }
            assert forall|p: u16| rows_map(after).contains_key(p) implies #[trigger] rows_map(
                after,
            )[p] == m[p] by {
                let i = choose|i: int| 0 <= i < after.len() && (#[trigger] after[i]).port == p;
                assert(rows_map(after)[after[i].port] == after[i].rule());
                if i < k {
                    assert(rows_map(before)[before[i].port] == before[i].rule());
                } else {
                    assert(rows_map(before)[before[i + 1].port] == before[i + 1].rule());
                }
            }
            assert(rows_map(after) =~= m);
        }
        task
    }

    /// Removes the rule of a port and hands its listener back; `None` if the port
    /// has no rule.
    pub fn remove(&mut self, port: u16) -> (r: Option<u64>)
        requires
            old(self).wf(),
        ensures
            final(self).wf(),
            final(self)@ == old(self)@.remove(port),
            r == (if old(self)@.contains_key(port) {
                Some(old(self)@[port].task)
            } else {
                None
            }),
    {
        let k = self.position(port);
        proof {
            rows_map_lookup(self.rules@);
        }
        if k < self.rules.len() && self.rules[k].port == port {
            Some(self.drop_row(k))
        } else {
            assert(self@.remove(port) =~= self@);
            None
        }
    }

    /// Removes every rule and hands the listeners back.
    pub fn remove_all(&mut self) -> (r: Vec<u64>)
        requires
            old(self).wf(),
        ensures
            final(self).wf(),
            final(self)@ == Map::<u16, RuleView>::empty(),
            r@ == all_tasks(old(self)@),
    {
        let ghost pick = |r: RuleView| true;
        let mut tasks: Vec<u64> = Vec::new();
        let mut i: usize = 0;
        while i < self.rules.len()
            invariant
                self.wf(),
                self@ == old(self)@,
                i <= self.rules.len(),
                pick == (|r: RuleView| true),
                tasks@ == tasks_below(self@, pick, floor_of(self.rules@, i as int)),
            decreases self.rules.len() - i,
        {
            proof {
                let rows = self.rules@;
                let p = rows[i as int].port;
                rows_map_lookup(rows);
                if i > 0 {
                    assert(rows[i - 1].port < rows[i as int].port);
                }
                assert forall|q: u16| floor_of(rows, i as int) <= q < p implies !(
                self@.contains_key(q) && pick(self@[q])) by {
                    no_rules_between(rows, i as int, q);
                }
                tasks_skip(self@, pick, floor_of(rows, i as int), p as nat);
                assert(((p as nat + 1) as nat - 1) as u16 == p);
            }
            tasks.push(self.rules[i].task);
            i += 1;
        }
        proof {
            let rows = self.rules@;
            assert forall|q: u16| floor_of(rows, i as int) <= q < 0x1_0000 implies !(
            self@.contains_key(q) && pick(self@[q])) by {
                no_rules_between(rows, i as int, q);
            }
            tasks_skip(self@, pick, floor_of(rows, i as int), 0x1_0000);
        }
        self.rules.clear();
        tasks
    }

    /// Removes the rules of one device and hands their listeners back.
    pub fn remove_by_serial(&mut self, serial: &str) -> (r: Vec<u64>)
        requires
            old(self).wf(),
        ensures
            final(self).wf(),
            final(self)@ == without_serial(old(self)@, serial@),
            r@ == tasks_of(old(self)@, serial@),
    {
        let ghost all = self@;
        let ghost pick = |r: RuleView| r.serial == serial@;
        let mut tasks: Vec<u64> = Vec::new();
        let mut i: usize = 0;
        while i < self.rules.len()
            invariant
                self.wf(),
                i <= self.rules.len(),
                pick == (|r: RuleView| r.serial == serial@),
                forall|j: int| 0 <= j < i ==> (#[trigger] self.rules@[j]).serial@ != serial@,
                without_serial(self@, serial@) == without_serial(all, serial@),
                tasks@ + tasks_below(self@, pick, 0x1_0000) == tasks_below(all, pick, 0x1_0000),
            decreases self.rules.len() - i,
        {
            let ghost m = self@;
            let ghost rows = self.rules@;
            let ghost p = rows[i as int].port;
            proof {
                rows_map_lookup(rows);
            }
            if str_eq(self.rules[i].serial.as_str(), serial) {
                let t = self.drop_row(i);
                let ghost before = tasks@;
                tasks.push(t);
                proof {
                    assert(without_serial(self@, serial@) =~= without_serial(m, serial@));
                    assert forall|q: u16| q < p implies !(m.contains_key(q) && pick(m[q])) by {
                        if m.contains_key(q) {
                            let j = choose|j: int|
                                0 <= j < rows.len() && (#[trigger] rows[j]).port == q;
                            if j >= i {
                                if j > i {
                                    assert(rows[i as int].port < rows[j].port);
                                }
                            } else {
                                assert(rows[j].serial@ != serial@);
                                assert(m[rows[j].port] == rows[j].rule());
                            }
                        }
                    }
                    first_task(m, pick, p, 0x1_0000);
                    assert(before + (seq![t] + tasks_below(self@, pick, 0x1_0000)) =~= tasks@
                        + tasks_below(self@, pick, 0x1_0000));
                }
            } else {
                i += 1;
            }
        }
        proof {
            let rows = self.rules@;
            rows_map_lookup(rows);
            assert forall|q: u16| 0 <= q < 0x1_0000 implies !(self@.contains_key(q) && pick(
                self@[q],
            )) by {
                if self@.contains_key(q) {
                    let j = choose|j: int| 0 <= j < rows.len() && (#[trigger] rows[j]).port == q;
                    assert(self@[rows[j].port] == rows[j].rule());
                }
            }
            tasks_skip(self@, pick, 0, 0x1_0000);
            assert(tasks@ =~= tasks@ + tasks_below(self@, pick, 0x1_0000));
            assert forall|q: u16| self@.contains_key(q) implies self@[q].serial != serial@ by {
                assert(!(self@.contains_key(q) && pick(self@[q])));
            }
            assert(without_serial(self@, serial@) =~= self@);
        }
        tasks
    }

    /// The devices that have rules, in lexicographic order.
    pub fn serials(&self) -> (r: Vec<String>)
        requires
            self.wf(),
        ensures
            strictly_sorted(texts(r@)),
            forall|s: Seq<char>| texts(r@).contains(s) <==> has_rule(self@, s),
    {
        let mut v: Vec<String> = Vec::new();
        let mut i: usize = 0;
        while i < self.rules.len()
            invariant
                i <= self.rules.len(),
                v@.len() == i,
                forall|j: int| 0 <= j < i ==> (#[trigger] v@[j])@ == self.rules@[j].serial@,
            decreases self.rules.len() - i,
        {
            v.push(self.rules[i].serial.clone());
            i += 1;
        }
        let r = sorted_distinct(&v);
        proof {
            let rows = self.rules@;
            let t = texts(v@);
            sorted_set_is_the_set(t);
            rows_map_lookup(rows);
            assert forall|s: Seq<char>| texts(r@).contains(s) <==> has_rule(self@, s) by {
                if t.contains(s) {
                    let j = choose|j: int| 0 <= j < t.len() && t[j] == s;
                    assert(v@[j]@ == rows[j].serial@);
                    assert(self@.contains_key(rows[j].port));
                }
                if has_rule(self@, s) {
                    let p = choose|p: u16| #[trigger] self@.contains_key(p) && self@[p].serial == s;
                    let j = choose|j: int| 0 <= j < rows.len() && (#[trigger] rows[j]).port == p;
                    assert(self@[rows[j].port] == rows[j].rule());
                    assert(v@[j]@ == s);
                    assert(t[j] == s);
                }
            }
        }
        r
    }

    /// The listing: one line per rule, by ascending port.
    pub fn list(&self) -> (r: String)
        requires
            self.wf(),
        ensures
            r@ == listing(self@),
    {
        let mut out = String::new();
        let mut i: usize = 0;
        while i < self.rules.len()
            invariant
                self.wf(),
                i <= self.rules.len(),
                out@ == listing_below(self@, floor_of(self.rules@, i as int)),
            decreases self.rules.len() - i,
        {
            let rule = &self.rules[i];
            let ghost before = out@;
            proof {
                let rows = self.rules@;
                let p = rows[i as int].port;
                rows_map_lookup(rows);
                if i > 0 {
                    assert(rows[i - 1].port < rows[i as int].port);
                }
                assert forall|q: u16| floor_of(rows, i as int) <= q < p implies !self@.contains_key(
                    q,
                ) by {
                    no_rules_between(rows, i as int, q);
                }
                listing_skips(self@, floor_of(rows, i as int), p as nat);
                assert(((p as nat + 1) as nat - 1) as u16 == p);
            }
            out.append(rule.serial.as_str());
            out.append(" tcp:");
            out.append(decimal_string(rule.port as u64).as_str());
            out.append(" ");
            out.append(rule.remote.to_text().as_str());
            out.append("\n");
            assert(out@ =~= before + forward_line(rule.port, rule.rule()));
            i += 1;
        }
        proof {
            let rows = self.rules@;
            assert forall|q: u16| floor_of(rows, i as int) <= q < 0x1_0000 implies
                !self@.contains_key(q) by {
                no_rules_between(rows, i as int, q);
            }
            listing_skips(self@, floor_of(rows, i as int), 0x1_0000);
        }
        out
    }
}

/// The first picked rule is the first whose listener is handed back.
proof fn first_task(rules: Map<u16, RuleView>, pick: spec_fn(RuleView) -> bool, p: u16, k: nat)
    requires
        rules.contains_key(p),
        pick(rules[p]),
        p < k <= 0x1_0000,
        forall|q: u16| q < p ==> !(rules.contains_key(q) && pick(rules[q])),
    ensures
        tasks_below(rules, pick, k) == seq![rules[p].task] + tasks_below(
            rules.remove(p),
            pick,
            k,
        ),
    decreases k,
{
    let q = (k - 1) as u16;
    let rest = rules.remove(p);
    if q == p {
        tasks_skip(rules, pick, 0, p as nat);
        tasks_skip(rest, pick, 0, p as nat);
        assert(tasks_below(rules, pick, k) =~= seq![rules[p].task] + tasks_below(rest, pick, k));
    } else {
        first_task(rules, pick, p, (k - 1) as nat);
        assert(tasks_below(rules, pick, k) =~= seq![rules[p].task] + tasks_below(rest, pick, k));
    }
}

/// How a request to add a rule is written.
pub open spec fn forward_text(
    norebind: bool,
    local: LocalSocketSpec,
    remote: RemoteSocketSpec,
) -> Seq<char> {
    (if norebind {
        "norebind:"@
    } else {
        Seq::empty()
    }) + local.text() + ";"@ + remote.text()
}

/// A request that is written out reads back as itself.
pub proof fn forward_request_reads_back(
    norebind: bool,
    local: LocalSocketSpec,
    remote: RemoteSocketSpec,
)
    ensures
        parsed_forward(forward_text(norebind, local, remote)) == Some(
            ForwardRequest { norebind, local_is_zero: local.port() == 0, local, remote },
        ),
{
    reveal_strlit("norebind:");
    reveal_strlit("tcp:");
    reveal_strlit(";");
    let s = forward_text(norebind, local, remote);
    let l = local.text();
    let rest = l + ";"@ + remote.text();
    if norebind {
        assert(s.subrange(0, 9) =~= "norebind:"@);
        assert(after_prefix(s, "norebind:"@) =~= rest);
    } else {
        assert(s =~= rest);
        assert(s[0] == 't');
        if has_prefix(s, "norebind:"@) {
            assert(s.subrange(0, 9)[0] == 'n');
        }
    }
    decimal_reads_back(local.port() as nat);
    assert forall|j: int| 0 <= j < l.len() implies rest[j] != ';' by {
        if j >= 4 {
            assert(is_digit(decimal(local.port() as nat)[j - 4]));
        }
    }
    assert(rest[l.len() as int] == ';');
    first_index_unique(rest, ';', l.len() as int);
    assert(rest.contains(';'));
    let (a, b) = cut_first(rest, ';')->0;
    assert(a =~= l);
    assert(b =~= remote.text());
    local_spec_reads_back(local);
    remote_spec_reads_back(remote);
}

/// Releasing a device leaves the rules of all other devices as they are, and none
/// of its own.
pub proof fn release_touches_one_device(
    rules: Map<u16, RuleView>,
    serial: Seq<char>,
    other: Seq<char>,
)
    ensures
        !has_rule(without_serial(rules, serial), serial),
        other != serial ==> (has_rule(without_serial(rules, serial), other) <==> has_rule(
            rules,
            other,
        )),
        forall|p: u16|
            rules.contains_key(p) && rules[p].serial != serial
                ==> without_serial(rules, serial).contains_key(p) && #[trigger] without_serial(
                rules,
                serial,
            )[p] == rules[p],
{
    let rest = without_serial(rules, serial);
    if other != serial && has_rule(rules, other) {
        let p = choose|p: u16| #[trigger] rules.contains_key(p) && rules[p].serial == other;
        assert(rest.contains_key(p));
    }
    if has_rule(rest, other) {
        let p = choose|p: u16| #[trigger] rest.contains_key(p) && rest[p].serial == other;
        assert(rules.contains_key(p));
    }
}

/// Releasing a device a second time removes nothing and hands nothing back.
pub proof fn release_is_idempotent(rules: Map<u16, RuleView>, serial: Seq<char>)
    ensures
        without_serial(without_serial(rules, serial), serial) == without_serial(rules, serial),
        tasks_of(without_serial(rules, serial), serial) == Seq::<u64>::empty(),
{
    let rest = without_serial(rules, serial);
    assert(without_serial(rest, serial) =~= rest);
    tasks_skip(rest, |r: RuleView| r.serial == serial, 0, 0x1_0000);
}

/// Every listener of a picked rule is handed back, and no other.
pub proof fn handed_back_listeners(
    rules: Map<u16, RuleView>,
    pick: spec_fn(RuleView) -> bool,
    k: nat,
    task: u64,
)
    requires
        k <= 0x1_0000,
    ensures
        tasks_below(rules, pick, k).contains(task) <==> exists|p: u16|
            p < k && #[trigger] rules.contains_key(p) && pick(rules[p]) && rules[p].task == task,
    decreases k,
{
    if k > 0 {
        let q = (k - 1) as u16;
        let before = tasks_below(rules, pick, (k - 1) as nat);
        let all = tasks_below(rules, pick, k);
        handed_back_listeners(rules, pick, (k - 1) as nat, task);
        if all.contains(task) {
            let i = choose|i: int| 0 <= i < all.len() && all[i] == task;
            if i < before.len() {
                assert(before[i] == task);
            } else {
                assert(rules.contains_key(q));
            }
        }
        if exists|p: u16|
            p < k && #[trigger] rules.contains_key(p) && pick(rules[p]) && rules[p].task == task {
            let p = choose|p: u16|
                p < k && #[trigger] rules.contains_key(p) && pick(rules[p]) && rules[p].task
                    == task;
            if p == q {
                assert(all[before.len() as int] == task);
            } else {
                assert(before.contains(task));
                let i = choose|i: int| 0 <= i < before.len() && before[i] == task;
                assert(all[i] == task);
            }
        }
    }
}

/// A rule that was just added is listed, and its line stands alone in a table that
/// was empty.
pub proof fn single_rule_listing(port: u16, rule: RuleView)
    ensures
        listing(Map::<u16, RuleView>::empty().insert(port, rule)) == forward_line(port, rule),
{
    let m = Map::<u16, RuleView>::empty().insert(port, rule);
    listing_skips(m, 0, port as nat);
    listing_skips(m, port as nat + 1, 0x1_0000);
    assert(((port as nat + 1) as nat - 1) as u16 == port);
    assert(listing_below(m, port as nat + 1) =~= forward_line(port, rule));
}

} // verus!

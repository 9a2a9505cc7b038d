//! What is kept for devices, at most one thing for each.
use vstd::prelude::*;

use crate::text::{str_eq, texts};

verus! {

/// What is kept for a device.
pub struct RowView<P> {
    /// The device.
    pub serial: Seq<char>,
    /// What is kept.
    pub value: P,
}

struct Row<P> {
    serial: String,
    value: P,
}

impl<P> View for Row<P> {
    type V = RowView<P>;

    closed spec fn view(&self) -> RowView<P> {
        RowView { serial: self.serial@, value: self.value }
    }
}

/// Things by device, in the order in which they were added.
pub struct Table<P> {
    rows: Vec<Row<P>>,
}

impl<P> View for Table<P> {
    type V = Seq<RowView<P>>;

    closed spec fn view(&self) -> Seq<RowView<P>> {
        self.rows@.map_values(|r: Row<P>| r@)
    }
}

/// What is kept for a device.
pub open spec fn row_of<P>(rows: Seq<RowView<P>>, serial: Seq<char>) -> Option<P>
    decreases rows.len(),
{
    if rows.len() == 0 {
        None
    } else if rows[0].serial == serial {
        Some(rows[0].value)
    } else {
        row_of(rows.skip(1), serial)
    }
}

/// The rows without those of a device.
pub open spec fn without_row<P>(rows: Seq<RowView<P>>, serial: Seq<char>) -> Seq<RowView<P>> {
    rows.filter(|r: RowView<P>| r.serial != serial)
}

/// No device has two rows.
pub open spec fn one_per_device<P>(rows: Seq<RowView<P>>) -> bool {
    forall|i: int, j: int|
        0 <= i < j < rows.len() ==> (#[trigger] rows[i]).serial != (#[trigger] rows[j]).serial
}

/// Something is found exactly for the devices in the table.
pub proof fn row_found<P>(rows: Seq<RowView<P>>, serial: Seq<char>)
    ensures
        row_of(rows, serial) is Some <==> exists|i: int|
            0 <= i < rows.len() && (#[trigger] rows[i]).serial == serial,
        row_of(rows, serial) matches Some(v) ==> rows.contains(RowView { serial, value: v }),
    decreases rows.len(),
{
    if rows.len() > 0 {
        if rows[0].serial == serial {
            assert(rows[0] == (RowView { serial, value: rows[0].value }));
            assert(rows.contains(rows[0]));
        } else {
            let rest = rows.skip(1);
            row_found(rest, serial);
            if exists|i: int| 0 <= i < rows.len() && (#[trigger] rows[i]).serial == serial {
                let i = choose|i: int|
                    0 <= i < rows.len() && (#[trigger] rows[i]).serial == serial;
                assert(rest[i - 1].serial == serial);
            }
            if exists|i: int| 0 <= i < rest.len() && (#[trigger] rest[i]).serial == serial {
                let i = choose|i: int|
                    0 <= i < rest.len() && (#[trigger] rest[i]).serial == serial;
                assert(rows[i + 1].serial == serial);
            }
            if let Some(v) = row_of(rest, serial) {
                let c = RowView { serial, value: v };
                let i = choose|i: int| 0 <= i < rest.len() && rest[i] == c;
                assert(rows[i + 1] == c);
            }
        }
    }
}

/// One row is kept or it is not.
proof fn filter_one<P>(c: RowView<P>, keep: spec_fn(RowView<P>) -> bool)
    ensures
        seq![c].filter(keep) == (if keep(c) {
            seq![c]
        } else {
            Seq::empty()
        }),
{
    reveal_with_fuel(Seq::<_>::filter, 2);
    assert(seq![c].drop_last() =~= Seq::empty());
    assert(Seq::<RowView<P>>::empty().push(c) =~= seq![c]);
}

impl<P: Copy> Table<P> {
    /// An empty table.
    pub fn new() -> (r: Self)
        ensures
            r@ == Seq::<RowView<P>>::empty(),
    {
        let r = Table { rows: Vec::new() };
        assert(r@ =~= Seq::empty());
        r
    }

    /// How many rows there are.
    pub fn len(&self) -> (r: usize)
        ensures
            r == self@.len(),
    {
        self.rows.len()
    }

    /// A row.
    pub fn row(&self, i: usize) -> (r: (&str, P))
        requires
            i < self@.len(),
        ensures
            self@[i as int] == (RowView { serial: r.0@, value: r.1 }),
    {
        assert(self@[i as int] == self.rows@[i as int]@);
        (self.rows[i].serial.as_str(), self.rows[i].value)
    }

    /// What is kept for a device.
    pub fn get(&self, serial: &str) -> (r: Option<P>)
        ensures
            r == row_of(self@, serial@),
    {
        let mut i: usize = 0;
        assert(self@.skip(0) =~= self@);
        while i < self.rows.len()
            invariant
                i <= self.rows.len(),
                self@.len() == self.rows.len(),
                row_of(self@, serial@) == row_of(self@.skip(i as int), serial@),
            decreases self.rows.len() - i,
        {
            assert(self@.skip(i as int)[0] == self.rows@[i as int]@);
            assert(self@.skip(i as int).skip(1) =~= self@.skip(i + 1));
            if str_eq(self.rows[i].serial.as_str(), serial) {
                return Some(self.rows[i].value);
            }
            i += 1;
        }
        None
    }

    /// Adds a row.
    pub fn insert(&mut self, serial: &str, value: P)
        ensures
            final(self)@ == old(self)@.push(RowView { serial: serial@, value }),
    {
        let row = Row { serial: serial.to_owned(), value };
        self.rows.push(row);
        assert(self@ =~= old(self)@.push(RowView { serial: serial@, value }));
    }

    /// Drops what is kept for a device.
    pub fn remove(&mut self, serial: &str)
        ensures
            final(self)@ == without_row(old(self)@, serial@),
    {
        let ghost keep = |r: RowView<P>| r.serial != serial@;
        let ghost all = self@;
        let mut i: usize = 0;
        assert(all.skip(0) =~= all);
        assert(self@.take(0) + all.filter(keep) =~= all.filter(keep));
        while i < self.rows.len()
            invariant
                i <= self.rows.len(),
                self@.len() == self.rows.len(),
                keep == (|r: RowView<P>| r.serial != serial@),
                self@.take(i as int) + self@.skip(i as int).filter(keep) == all.filter(keep),
            decreases self.rows.len() - i,
        {
            let ghost rows = self@;
            let ghost rest = rows.skip(i as int);
            proof {
                assert(rest =~= seq![rest[0]] + rest.skip(1));
                Seq::filter_distributes_over_add(seq![rest[0]], rest.skip(1), keep);
                filter_one(rest[0], keep);
                assert(rest.skip(1) =~= rows.skip(i + 1));
                assert(rest[0] == self.rows@[i as int]@);
            }
            if str_eq(self.rows[i].serial.as_str(), serial) {
                self.rows.remove(i);
                proof {
                    assert(self@ =~= rows.remove(i as int));
                    assert(self@.take(i as int) =~= rows.take(i as int));
                    assert(self@.skip(i as int) =~= rest.skip(1));
                    assert(rest.filter(keep) =~= rest.skip(1).filter(keep));
                }
            } else {
                proof {
                    assert(rows.take(i + 1) =~= rows.take(i as int).push(rest[0]));
                    assert(rows.take(i + 1) + rest.skip(1).filter(keep) =~= rows.take(i as int)
                        + rest.filter(keep));
                }
                i += 1;
            }
        }
        proof {
            reveal(Seq::filter);
            assert(self@.skip(self@.len() as int) =~= Seq::empty());
            assert(self@.take(self@.len() as int) + Seq::empty() =~= self@);
        }
    }

    /// Drops everything.
    pub fn clear(&mut self)
        ensures
            final(self)@ == Seq::<RowView<P>>::empty(),
    {
        self.rows.clear();
        assert(self@ =~= Seq::empty());
    }

    /// The devices for which something is kept.
    pub fn serials(&self) -> (r: Vec<String>)
        ensures
            texts(r@) == self@.map_values(|c: RowView<P>| c.serial),
    {
        let mut r: Vec<String> = Vec::new();
        let ghost all = self@.map_values(|c: RowView<P>| c.serial);
        let mut i: usize = 0;
        while i < self.rows.len()
            invariant
                i <= self.rows.len(),
                self@.len() == self.rows.len(),
                all == self@.map_values(|c: RowView<P>| c.serial),
                texts(r@) == all.take(i as int),
            decreases self.rows.len() - i,
        {
            let ghost before = r@;
            assert(self@[i as int] == self.rows@[i as int]@);
            r.push(self.rows[i].serial.clone());
            proof {
                assert(texts(r@) =~= texts(before).push(all[i as int]));
                assert(all.take(i + 1) =~= all.take(i as int).push(all[i as int]));
            }
            i += 1;
        }
        assert(texts(r@) =~= all);
        r
    }
}

/// Whatever was kept for it before, a device for which something new is kept has that
/// alone, and other devices keep theirs.
pub proof fn replacing_keeps_one_per_device<P>(rows: Seq<RowView<P>>, new: RowView<P>)
    requires
        one_per_device(rows),
    ensures
        one_per_device(without_row(rows, new.serial).push(new)),
        row_of(without_row(rows, new.serial).push(new), new.serial) == Some(new.value),
        forall|s: Seq<char>|
            s != new.serial ==> #[trigger] row_of(without_row(rows, new.serial).push(new), s)
                == row_of(rows, s),
{
    let keep = |r: RowView<P>| r.serial != new.serial;
    let kept = rows.filter(keep);
    filter_keeps_distinct(rows, keep);
    let all = kept.push(new);
    assert forall|i: int, j: int| 0 <= i < j < all.len() implies (#[trigger] all[i]).serial != (
    #[trigger] all[j]).serial by {
        assert(all[i] == kept[i]);
        if j < kept.len() {
            assert(all[j] == kept[j]);
        } else {
            rows.lemma_filter_pred(keep, i);
        }
    }
    assert forall|i: int| 0 <= i < kept.len() implies (#[trigger] kept[i]).serial
        != new.serial by {
        rows.lemma_filter_pred(keep, i);
    }
    row_of_last(kept, new);
    assert forall|s: Seq<char>| s != new.serial implies #[trigger] row_of(all, s) == row_of(
        rows,
        s,
    ) by {
        row_of_others(kept, new, s);
        dropping_leaves_others(rows, new.serial, s);
    }
}

/// Nothing is kept any more for a device that was dropped, and other devices keep
/// theirs.
pub proof fn dropping_leaves_others<P>(rows: Seq<RowView<P>>, gone: Seq<char>, s: Seq<char>)
    ensures
        row_of(without_row(rows, gone), gone) is None,
        s != gone ==> row_of(without_row(rows, gone), s) == row_of(rows, s),
    decreases rows.len(),
{
    let keep = |r: RowView<P>| r.serial != gone;
    if rows.len() == 0 {
        reveal(Seq::filter);
        assert(rows.filter(keep) =~= rows);
    } else {
        let rest = rows.skip(1);
        dropping_leaves_others(rest, gone, s);
        assert(rows =~= seq![rows[0]] + rest);
        Seq::filter_distributes_over_add(seq![rows[0]], rest, keep);
        filter_one(rows[0], keep);
        let kept = rows.filter(keep);
        if keep(rows[0]) {
            assert(kept[0] == rows[0]);
            assert(kept.skip(1) =~= rest.filter(keep));
        } else {
            assert(kept =~= rest.filter(keep));
        }
    }
}

/// A row behind others is found if none of them is the device's.
proof fn row_of_last<P>(rows: Seq<RowView<P>>, new: RowView<P>)
    requires
        forall|i: int| 0 <= i < rows.len() ==> (#[trigger] rows[i]).serial != new.serial,
    ensures
        row_of(rows.push(new), new.serial) == Some(new.value),
    decreases rows.len(),
{
    if rows.len() > 0 {
        assert(rows.push(new)[0] == rows[0]);
        assert(rows.push(new).skip(1) =~= rows.skip(1).push(new));
        assert forall|i: int| 0 <= i < rows.skip(1).len() implies (
        #[trigger] rows.skip(1)[i]).serial != new.serial by {
            assert(rows.skip(1)[i] == rows[i + 1]);
        }
        row_of_last(rows.skip(1), new);
    }
}

/// A row behind others changes nothing for other devices.
pub proof fn row_of_others<P>(rows: Seq<RowView<P>>, new: RowView<P>, s: Seq<char>)
    requires
        s != new.serial,
    ensures
        row_of(rows.push(new), s) == row_of(rows, s),
    decreases rows.len(),
{
    if rows.len() > 0 {
        assert(rows.push(new)[0] == rows[0]);
        assert(rows.push(new).skip(1) =~= rows.skip(1).push(new));
        row_of_others(rows.skip(1), new, s);
    } else {
        assert(rows.push(new)[0] == new);
        assert(rows.push(new).skip(1) =~= rows);
    }
}

/// Dropping rows gives no device a second one.
pub proof fn filter_keeps_distinct<P>(rows: Seq<RowView<P>>, keep: spec_fn(RowView<P>) -> bool)
    requires
        one_per_device(rows),
    ensures
        one_per_device(rows.filter(keep)),
    decreases rows.len(),
{
    reveal(Seq::filter);
    if rows.len() > 0 {
        let init = rows.drop_last();
        assert forall|i: int, j: int| 0 <= i < j < init.len() implies (
        #[trigger] init[i]).serial != (#[trigger] init[j]).serial by {
            assert(init[i] == rows[i] && init[j] == rows[j]);
        }
        filter_keeps_distinct(init, keep);
        let kept = init.filter(keep);
        if keep(rows.last()) {
            let all = kept.push(rows.last());
            assert forall|i: int, j: int| 0 <= i < j < all.len() implies (
            #[trigger] all[i]).serial != (#[trigger] all[j]).serial by {
                assert(all[i] == kept[i]);
                if j == kept.len() {
                    init.lemma_filter_contains_rev(keep, kept[i]);
                    let k = choose|k: int| 0 <= k < init.len() && init[k] == kept[i];
                    assert(rows[k].serial != rows[rows.len() - 1].serial);
                } else {
                    assert(all[j] == kept[j]);
                }
            }
        }
    }
}

/// What was added for a device that had nothing can be dropped, and then all is as
/// before.
pub proof fn dropping_undoes_adding<P>(rows: Seq<RowView<P>>, new: RowView<P>)
    requires
        row_of(rows, new.serial) is None,
    ensures
        row_of(rows.push(new), new.serial) == Some(new.value),
        without_row(rows.push(new), new.serial) == rows,
{
    row_found(rows, new.serial);
    row_of_last(rows, new);
    let keep = |r: RowView<P>| r.serial != new.serial;
    keeping_all(rows, keep);
    reveal(Seq::filter);
    assert(rows.push(new).drop_last() =~= rows);
}

/// A filter that keeps everything changes nothing.
proof fn keeping_all<P>(rows: Seq<RowView<P>>, keep: spec_fn(RowView<P>) -> bool)
    requires
        forall|i: int| 0 <= i < rows.len() ==> keep(#[trigger] rows[i]),
    ensures
        rows.filter(keep) == rows,
    decreases rows.len(),
{
    reveal(Seq::filter);
    if rows.len() > 0 {
        let init = rows.drop_last();
        assert forall|i: int| 0 <= i < init.len() implies keep(#[trigger] init[i]) by {
            assert(init[i] == rows[i]);
        }
        keeping_all(init, keep);
        assert(init.push(rows.last()) =~= rows);
    }
}

} // verus!

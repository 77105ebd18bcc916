//! The entity store model: one table of SIP records, keyed by
//! `correlation_id`, with the gateway semantics of the two persistence
//! operations.
//!
//! A create inserts a new record and fails on a duplicate correlation
//! id; an update rewrites every record whose correlation id matches and
//! reports the count of rewritten rows.

use vstd::prelude::*;

verus! {

use crate::record::ColUpdate;
use crate::record::Operation;
use crate::record::OperationV;
use crate::record::SipRecord;
use crate::record::SipRecordV;
use crate::record::UpdateFieldsV;
use crate::record::apply_update_row;

/// Why a persistence operation failed.
#[derive(Clone, Copy, PartialEq, Eq, Structural, Debug)]
pub enum StoreError {
    /// A create hit a record that already carries its correlation id.
    Conflict,
}

/// Whether some record in `rows` carries the correlation id `cid`.
pub open spec fn contains_id(rows: Seq<SipRecordV>, cid: Seq<char>) -> bool {
    exists|i: int| 0 <= i < rows.len() && rows[i].correlation_id == cid
}

/// How many records in `rows` carry the correlation id `cid`.
pub open spec fn count_matching(rows: Seq<SipRecordV>, cid: Seq<char>) -> int
    decreases rows.len(),
{
    if rows.len() == 0 {
        0
    } else {
        count_matching(rows.drop_last(), cid) + if rows.last().correlation_id == cid {
            1 as int
        } else {
            0 as int
        }
    }
}

/// No two records of `rows` carry the same correlation id.
pub open spec fn unique_ids(rows: Seq<SipRecordV>) -> bool {
    forall|i: int, j: int|
        0 <= i < j < rows.len() ==> rows[i].correlation_id != rows[j].correlation_id
}

/// The table that results from applying update fields `f` to every
/// record of `rows` whose correlation id is `cid`.
pub open spec fn updated_store(rows: Seq<SipRecordV>, cid: Seq<char>, f: UpdateFieldsV) -> Seq<
    SipRecordV,
> {
    Seq::new(
        rows.len(),
        |i: int|
            if rows[i].correlation_id == cid {
                apply_update_row(rows[i], f)
            } else {
                rows[i]
            },
    )
}

/// `count_matching` counts exactly the indices whose record matches.
pub proof fn lemma_count_matching(rows: Seq<SipRecordV>, cid: Seq<char>)
    ensures
        0 <= count_matching(rows, cid) <= rows.len(),
        count_matching(rows, cid) > 0 <==> contains_id(rows, cid),
    decreases rows.len(),
{
    if rows.len() > 0 {
        lemma_count_matching(rows.drop_last(), cid);
        if count_matching(rows, cid) > 0 {
            if rows.last().correlation_id == cid {
                assert(rows[rows.len() - 1].correlation_id == cid);
            } else {
                let i = choose|i: int|
                    0 <= i < rows.drop_last().len() && rows.drop_last()[i].correlation_id == cid;
                assert(rows[i].correlation_id == cid);
            }
        }
        if contains_id(rows, cid) {
            let i = choose|i: int| 0 <= i < rows.len() && rows[i].correlation_id == cid;
            if i < rows.len() - 1 {
                assert(rows.drop_last()[i].correlation_id == cid);
            }
        }
    }
}

/// In a table with unique correlation ids, an update matches one
/// record when the id is present and none when it is absent.
pub proof fn lemma_unique_count(rows: Seq<SipRecordV>, cid: Seq<char>)
    requires
        unique_ids(rows),
    ensures
        contains_id(rows, cid) ==> count_matching(rows, cid) == 1,
        !contains_id(rows, cid) ==> count_matching(rows, cid) == 0,
    decreases rows.len(),
{
    lemma_count_matching(rows, cid);
    if rows.len() > 0 {
        let front = rows.drop_last();
        assert(forall|i: int, j: int|
            0 <= i < j < front.len() ==> front[i] == rows[i] && front[j] == rows[j]);
        lemma_unique_count(front, cid);
        if rows.last().correlation_id == cid {
            if contains_id(front, cid) {
                let i = choose|i: int| 0 <= i < front.len() && front[i].correlation_id == cid;
                assert(rows[i].correlation_id == rows[rows.len() - 1].correlation_id);
            }
            assert(count_matching(rows, cid) == 1);
        } else {
            if contains_id(rows, cid) {
                let i = choose|i: int| 0 <= i < rows.len() && rows[i].correlation_id == cid;
                assert(front[i].correlation_id == cid);
            }
        }
    }
}

/// An update whose correlation id matches no record leaves the table
/// unchanged and rewrites zero rows.
pub proof fn lemma_update_without_predecessor(
    rows: Seq<SipRecordV>,
    cid: Seq<char>,
    f: UpdateFieldsV,
)
    requires
        !contains_id(rows, cid),
    ensures
        updated_store(rows, cid, f) == rows,
        count_matching(rows, cid) == 0,
    decreases rows.len(),
{
    lemma_count_matching(rows, cid);
    assert forall|i: int| 0 <= i < rows.len() implies rows[i].correlation_id != cid by {
        if rows[i].correlation_id == cid {
            assert(contains_id(rows, cid));
        }
    }
    assert(updated_store(rows, cid, f) =~= rows);
}

/// The entity store: one table of SIP records.
pub struct SipStore {
    rows: Vec<SipRecord>,
}

impl View for SipStore {
    type V = Seq<SipRecordV>;

    closed spec fn view(&self) -> Seq<SipRecordV> {
        self.rows@.map_values(|r: SipRecord| r@)
    }
}

impl SipStore {
    /// The store keeps at most one record per correlation id.
    pub open spec fn wf(&self) -> bool {
        unique_ids(self@)
    }

    /// An empty store.
    pub fn new() -> (s: SipStore)
        ensures
            s@ == Seq::<SipRecordV>::empty(),
            s.wf(),
    {
        let s = SipStore { rows: Vec::new() };
        proof {
            assert(s@ =~= Seq::<SipRecordV>::empty());
        }
        s
    }

    /// How many records the store holds.
    pub fn len(&self) -> (n: usize)
        ensures
            n == self@.len(),
    {
        self.rows.len()
    }

    /// The record at table position `i`.
    pub fn get(&self, i: usize) -> (r: &SipRecord)
        requires
            i < self@.len(),
        ensures
            r@ == self@[i as int],
    {
        &self.rows[i]
    }

    /// The first record carrying `correlation_id`, or absence.
    pub fn find(&self, correlation_id: &str) -> (r: Option<&SipRecord>)
        ensures
            match r {
                Some(rec) => contains_id(self@, correlation_id@) && rec@.correlation_id
                    == correlation_id@ && exists|i: int|
                    0 <= i < self@.len() && self@[i] == rec@,
                None => !contains_id(self@, correlation_id@),
            },
    {
        let mut i: usize = 0;
        while i < self.rows.len()
            invariant
                i <= self@.len(),
                self@.len() == self.rows@.len(),
                forall|j: int| 0 <= j < i ==> self@[j].correlation_id != correlation_id@,
            decreases self@.len() - i,
        {
            if crate::extract::str_eq(self.rows[i].correlation_id.as_str(), correlation_id) {
                proof {
                    assert(self@[i as int].correlation_id == correlation_id@);
                }
                return Some(&self.rows[i]);
            }
            i += 1;
        }
        None
    }

    /// Executes one persistence operation and reports the count of
    /// affected rows.
    ///
    /// A create inserts the record and affects one row, or fails with a
    /// conflict when its correlation id already exists.  An update
    /// rewrites every matching record as `apply_update_row` says and
    /// reports how many it rewrote.
    #[verifier::loop_isolation(false)]
    pub fn apply(&mut self, op: Operation) -> (r: Result<usize, StoreError>)
        requires
            old(self).wf(),
        ensures
            final(self).wf(),
            match op@ {
                OperationV::Create(rec) => {
                    if contains_id(old(self)@, rec.correlation_id) {
                        final(self)@ == old(self)@ && r == Err::<usize, StoreError>(
                            StoreError::Conflict,
                        )
                    } else {
                        final(self)@ == old(self)@.push(rec) && r == Ok::<usize, StoreError>(1)
                    }
                },
                OperationV::Update { correlation_id: cid, fields } => {
                    final(self)@ == updated_store(old(self)@, cid, fields) && (r matches Ok(n)
                        && n == count_matching(old(self)@, cid))
                },
            },
    {
        match op {
            Operation::Create(rec) => {
                let ghost pre = self@;
                let ghost recv = rec@;
                let mut i: usize = 0;
                while i < self.rows.len()
                    invariant
                        i <= pre.len(),
                        self@ == pre,
                        pre.len() == self.rows@.len(),
                        forall|j: int| 0 <= j < i ==> pre[j].correlation_id != recv.correlation_id,
                    decreases pre.len() - i,
                {
                    if crate::extract::str_eq(
                        self.rows[i].correlation_id.as_str(),
                        rec.correlation_id.as_str(),
                    ) {
                        proof {
                            assert(self@[i as int].correlation_id == recv.correlation_id);
                        }
                        return Err(StoreError::Conflict);
                    }
                    i += 1;
                }
                assert(!contains_id(pre, recv.correlation_id));
                self.rows.push(rec);
                proof {
                    assert(self@ =~= pre.push(recv));
                    assert forall|a: int, b: int|
                        0 <= a < b < self@.len() implies self@[a].correlation_id
                        != self@[b].correlation_id by {
                        if b == self@.len() - 1 {
                            assert(pre[a].correlation_id != recv.correlation_id);
                        }
                    }
                }
                Ok(1)
            },
            Operation::Update { correlation_id, fields } => {
                let ghost pre = self@;
                let ghost cidv = correlation_id@;
                let ghost fv = fields@;
                let mut n: usize = 0;
                let mut i: usize = 0;
                while i < self.rows.len()
                    invariant
                        i <= pre.len(),
                        n <= i,
                        self@.len() == pre.len(),
                        pre.len() == self.rows@.len(),
                        n == count_matching(pre.take(i as int), cidv),
                        forall|j: int|
                            0 <= j < i ==> self@[j] == (if pre[j].correlation_id == cidv {
                                apply_update_row(pre[j], fv)
                            } else {
                                pre[j]
                            }),
                        forall|j: int| i <= j < pre.len() ==> self@[j] == pre[j],
                    decreases pre.len() - i,
                {
                    let ghost prev = self@;
                    let ghost prev_rows = self.rows@;
                    proof {
                        assert(pre.take(i as int + 1).drop_last() =~= pre.take(i as int));
                        assert(pre.take(i as int + 1).last() == pre[i as int]);
                    }
                    if crate::extract::str_eq(
                        self.rows[i].correlation_id.as_str(),
                        correlation_id.as_str(),
                    ) {
                        let mut row = self.rows[i].duplicate();
                        row.status = fields.status;
                        row.last_event_type = fields.last_event_type.clone();
                        row.last_event_date = fields.last_event_date;
                        match &fields.cp_id {
                            ColUpdate::Keep => {},
                            ColUpdate::ToNull => {
                                row.cp_id = None;
                            },
                            ColUpdate::To(s) => {
                                row.cp_id = Some(s.clone());
                            },
                        }
                        match &fields.pid {
                            ColUpdate::Keep => {},
                            ColUpdate::ToNull => {
                                row.pid = None;
                            },
                            ColUpdate::To(s) => {
                                row.pid = Some(s.clone());
                            },
                        }
                        match &fields.sip_profile {
                            ColUpdate::Keep => {},
                            ColUpdate::ToNull => {
                                row.sip_profile = None;
                            },
                            ColUpdate::To(s) => {
                                row.sip_profile = Some(s.clone());
                            },
                        }
                        proof {
                            assert(pre[i as int].correlation_id == cidv);
                            assert(row@ == apply_update_row(pre[i as int], fv));
                        }
                        self.rows[i] = row;
                        proof {
                            assert forall|j: int|
                                0 <= j < prev.len() && j != i as int implies self@[j]
                                == prev[j] by {
                                assert(self.rows@[j] == prev_rows[j]);
                            }
                            assert(self@[i as int] == apply_update_row(pre[i as int], fv));
                            assert forall|j: int| 0 <= j < i as int + 1 implies self@[j] == (
                            if pre[j].correlation_id == cidv {
                                apply_update_row(pre[j], fv)
                            } else {
                                pre[j]
                            }) by {
                                if j < i as int {
                                    assert(self@[j] == prev[j]);
                                }
                            }
                        }
                        n += 1;
                    } else {
                        proof {
                            assert(pre[i as int].correlation_id != cidv);
                            assert forall|j: int| 0 <= j < i as int + 1 implies self@[j] == (
                            if pre[j].correlation_id == cidv {
                                apply_update_row(pre[j], fv)
                            } else {
                                pre[j]
                            }) by {}
                        }
                    }
                    i += 1;
                }
                proof {
                    assert(pre.take(pre.len() as int) =~= pre);
                    assert(self@ =~= updated_store(pre, cidv, fv));
                    assert forall|a: int, b: int|
                        0 <= a < b < self@.len() implies self@[a].correlation_id
                        != self@[b].correlation_id by {
                        assert(self@[a].correlation_id == pre[a].correlation_id);
                        assert(self@[b].correlation_id == pre[b].correlation_id);
                    }
                }
                Ok(n)
            },
        }
    }
}

} // verus!

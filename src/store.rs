//! The invite-code table: unique codes that move from unused to used once.

use vstd::prelude::*;

verus! {

/// One row of the invite table.
pub struct InviteRecord {
    pub code: String,
    pub used: bool,
    /// Unix seconds at which the row was inserted.
    pub created_at: i64,
    /// Unix seconds of consumption; set only when the code is used.
    pub used_at: Option<i64>,
    /// Address of the visitor who consumed the code.
    pub visitor_ip: Option<String>,
}

/// Mathematical model of a row.
pub struct RowView {
    pub code: Seq<char>,
    pub used: bool,
    pub created_at: i64,
    pub used_at: Option<i64>,
    pub visitor_ip: Option<Seq<char>>,
}

pub open spec fn opt_str_view(s: Option<String>) -> Option<Seq<char>> {
    match s {
        Some(v) => Some(v@),
        None => None,
    }
}

impl View for InviteRecord {
    type V = RowView;

    open spec fn view(&self) -> RowView {
        RowView {
            code: self.code@,
            used: self.used,
            created_at: self.created_at,
            used_at: self.used_at,
            visitor_ip: opt_str_view(self.visitor_ip),
        }
    }
}

/// The rows in insertion order. Only the store's own operations touch them.
pub struct InviteStore {
    rows: Vec<InviteRecord>,
}

impl View for InviteStore {
    type V = Seq<RowView>;

    closed spec fn view(&self) -> Seq<RowView> {
        self.rows@.map_values(|r: InviteRecord| r@)
    }
}

/// No code appears in two rows.
pub open spec fn codes_unique(rows: Seq<RowView>) -> bool {
    forall|i: int, j: int|
        0 <= i < rows.len() && 0 <= j < rows.len() && i != j ==> rows[i].code != rows[j].code
}

/// A row carries its consumption stamp exactly when it is used.
pub open spec fn row_consistent(r: RowView) -> bool {
    r.used == r.used_at.is_some() && r.used == r.visitor_ip.is_some()
}

pub open spec fn rows_wf(rows: Seq<RowView>) -> bool {
    &&& codes_unique(rows)
    &&& forall|i: int| 0 <= i < rows.len() ==> row_consistent(#[trigger] rows[i])
}

pub open spec fn contains_code(rows: Seq<RowView>, code: Seq<char>) -> bool {
    exists|i: int| 0 <= i < rows.len() && rows[i].code == code
}

/// The row that holds `code`, meaningful when `contains_code(rows, code)`.
pub open spec fn index_of(rows: Seq<RowView>, code: Seq<char>) -> int {
    choose|i: int| 0 <= i < rows.len() && rows[i].code == code
}

/// What `lookup` reports: `None` when absent, else whether the code is used.
pub open spec fn lookup_spec(rows: Seq<RowView>, code: Seq<char>) -> Option<bool> {
    if contains_code(rows, code) {
        Some(rows[index_of(rows, code)].used)
    } else {
        None
    }
}

/// A fresh, unused row.
pub open spec fn fresh_row(code: Seq<char>, now: i64) -> RowView {
    RowView { code, used: false, created_at: now, used_at: None, visitor_ip: None }
}

/// The table after `insert_unique(code, now)`.
pub open spec fn insert_spec(rows: Seq<RowView>, code: Seq<char>, now: i64) -> Seq<RowView> {
    if contains_code(rows, code) {
        rows
    } else {
        rows.push(fresh_row(code, now))
    }
}

/// The table after `consume(code, now, ip)`: the code's row is stamped if it was unused.
pub open spec fn consume_spec(rows: Seq<RowView>, code: Seq<char>, now: i64, ip: Seq<char>) -> Seq<
    RowView,
> {
    if lookup_spec(rows, code) == Some(false) {
        let k = index_of(rows, code);
        rows.update(k, RowView { used: true, used_at: Some(now), visitor_ip: Some(ip), ..rows[k] })
    } else {
        rows
    }
}

/// Number of used rows.
pub open spec fn count_used(rows: Seq<RowView>) -> nat
    decreases rows.len(),
{
    if rows.len() == 0 {
        0
    } else {
        count_used(rows.drop_last()) + if rows.last().used {
            1nat
        } else {
            0nat
        }
    }
}

pub proof fn lemma_count_used_bounded(rows: Seq<RowView>)
    ensures
        count_used(rows) <= rows.len(),
    decreases rows.len(),
{
    if rows.len() > 0 {
        lemma_count_used_bounded(rows.drop_last());
    }
}

/// In a well-formed table, the row that holds a code is the one `index_of` names.
pub proof fn lemma_index_of_unique(rows: Seq<RowView>, code: Seq<char>, k: int)
    requires
        rows_wf(rows),
        0 <= k < rows.len(),
        rows[k].code == code,
    ensures
        contains_code(rows, code),
        index_of(rows, code) == k,
{
    assert(contains_code(rows, code));
}

impl InviteStore {
    pub open spec fn wf(&self) -> bool {
        rows_wf(self@)
    }

    /// An empty table.
    pub fn new() -> (r: Self)
        ensures
            r.wf(),
            r@ == Seq::<RowView>::empty(),
    {
        let r = InviteStore { rows: Vec::new() };
        assert(r@ =~= Seq::<RowView>::empty());
        r
    }

    /// Number of rows.
    pub fn len(&self) -> (r: usize)
        ensures
            r == self@.len(),
    {
        self.rows.len()
    }

    fn position(&self, code: &String) -> (r: Option<usize>)
        requires
            self.wf(),
        ensures
            match r {
                Some(k) => k < self@.len() && contains_code(self@, code@) && index_of(self@, code@)
                    == k,
                None => !contains_code(self@, code@),
            },
    {
        let mut i: usize = 0;
        while i < self.rows.len()
            invariant
                self.wf(),
                i <= self.rows@.len(),
                forall|j: int| 0 <= j < i ==> self@[j].code != code@,
            decreases self.rows@.len() - i,
        {
            if self.rows[i].code == *code {
                proof {
                    lemma_index_of_unique(self@, code@, i as int);
                }
                return Some(i);
            }
            i = i + 1;
        }
        None
    }

    /// Reports `None` for an absent code, else `Some(used)`.
    pub fn lookup(&self, code: &String) -> (r: Option<bool>)
        requires
            self.wf(),
        ensures
            r == lookup_spec(self@, code@),
    {
        match self.position(code) {
            Some(k) => Some(self.rows[k].used),
            None => None,
        }
    }

    /// Adds `code` as a fresh unused row stamped `now`; false when it is already present.
    pub fn insert_unique(&mut self, code: &String, now: i64) -> (r: bool)
        requires
            old(self).wf(),
        ensures
            final(self).wf(),
            r == !contains_code(old(self)@, code@),
            final(self)@ == insert_spec(old(self)@, code@, now),
    {
        match self.position(code) {
            Some(_) => false,
            None => {
                let rec = InviteRecord {
                    code: code.clone(),
                    used: false,
                    created_at: now,
                    used_at: None,
                    visitor_ip: None,
                };
                self.rows.push(rec);
                assert(self@ =~= old(self)@.push(fresh_row(code@, now)));
                true
            },
        }
    }

    /// Marks an unused `code` as used at `now` by `ip`; false when it is absent or already used.
    pub fn consume(&mut self, code: &String, now: i64, ip: &String) -> (r: bool)
        requires
            old(self).wf(),
        ensures
            final(self).wf(),
            r == (lookup_spec(old(self)@, code@) == Some(false)),
            final(self)@ == consume_spec(old(self)@, code@, now, ip@),
    {
        match self.position(code) {
            Some(k) => {
                if self.rows[k].used {
                    false
                } else {
                    let ghost before = self@;
                    let rec = InviteRecord {
                        code: self.rows[k].code.clone(),
                        used: true,
                        created_at: self.rows[k].created_at,
                        used_at: Some(now),
                        visitor_ip: Some(ip.clone()),
                    };
                    self.rows.set(k, rec);
                    assert(self@ =~= before.update(
                        k as int,
                        RowView {
                            used: true,
                            used_at: Some(now),
                            visitor_ip: Some(ip@),
                            ..before[k as int]
                        },
                    ));
                    true
                }
            },
            None => false,
        }
    }

    /// The row that holds `code`, if any.
    pub fn record(&self, code: &String) -> (r: Option<&InviteRecord>)
        requires
            self.wf(),
        ensures
            match r {
                Some(rec) => contains_code(self@, code@) && rec@ == self@[index_of(self@, code@)],
                None => !contains_code(self@, code@),
            },
    {
        match self.position(code) {
            Some(k) => Some(&self.rows[k]),
            None => None,
        }
    }

    /// Reinstates a row read back from durable storage. It is refused, and the table left
    /// as it was, when its code is already present or its consumption stamp does not
    /// match its `used` flag.
    pub fn restore(&mut self, rec: InviteRecord) -> (r: bool)
        requires
            old(self).wf(),
        ensures
            final(self).wf(),
            r == (!contains_code(old(self)@, rec@.code) && row_consistent(rec@)),
            final(self)@ == if r {
                old(self)@.push(rec@)
            } else {
                old(self)@
            },
    {
        let consistent = rec.used == rec.used_at.is_some() && rec.used == rec.visitor_ip.is_some();
        if !consistent {
            return false;
        }
        match self.position(&rec.code) {
            Some(_) => false,
            None => {
                let ghost v = rec@;
                self.rows.push(rec);
                assert(self@ =~= old(self)@.push(v));
                true
            },
        }
    }

    /// Number of used rows.
    pub fn count_used(&self) -> (r: usize)
        ensures
            r == count_used(self@),
    {
        let mut n: usize = 0;
        let mut i: usize = 0;
        while i < self.rows.len()
            invariant
                i <= self.rows@.len(),
                n == count_used(self@.take(i as int)),
                n <= i,
            decreases self.rows@.len() - i,
        {
            proof {
                assert(self@.take(i + 1).drop_last() =~= self@.take(i as int));
            }
            if self.rows[i].used {
                n = n + 1;
            }
            i = i + 1;
        }
        assert(self@.take(i as int) =~= self@);
        n
    }
}

} // verus!

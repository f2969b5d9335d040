//! Named counters.

use crate::json::{Field, Json, JsonModel};
use vstd::prelude::*;

verus! {

/// A count under a name.
#[derive(Debug)]
pub struct NamedCount {
    pub name: String,
    pub count: usize,
}

/// What a list of counts says of each name: of two counts under one name the later one counts.
pub open spec fn counts_model(rows: Seq<NamedCount>) -> Map<Seq<char>, nat>
    decreases rows.len(),
{
    if rows.len() == 0 {
        Map::empty()
    } else {
        counts_model(rows.drop_last()).insert(rows.last().name@, rows.last().count as nat)
    }
}

/// The sum of all counts.
pub open spec fn total_of(counts: Map<Seq<char>, nat>) -> nat
    decreases counts.dom().len(),
{
    if counts.dom().finite() && counts.dom().len() > 0 {
        let name = counts.dom().choose();
        counts[name] + total_of(counts.remove(name))
    } else {
        0
    }
}

/// The count under a name, zero where there is none.
pub open spec fn count_of(counts: Map<Seq<char>, nat>, name: Seq<char>) -> nat {
    if counts.contains_key(name) {
        counts[name]
    } else {
        0
    }
}

/// The counts as a JSON object.
pub open spec fn counts_json(counts: Map<Seq<char>, nat>) -> JsonModel {
    JsonModel::Object(counts.map_values(|n: nat| JsonModel::Int(n as int)))
}

/// A sum is what any one count adds to the sum of the others.
pub proof fn total_splits(counts: Map<Seq<char>, nat>, name: Seq<char>)
    requires
        counts.dom().finite(),
        counts.contains_key(name),
    ensures
        total_of(counts) == counts[name] + total_of(counts.remove(name)),
    decreases counts.dom().len(),
{
    let first = counts.dom().choose();
    if first != name {
        total_splits(counts.remove(first), name);
        total_splits(counts.remove(name), first);
        assert(counts.remove(first).remove(name) =~= counts.remove(name).remove(first));
    }
}

/// Setting one count changes the sum by what that count changes.
pub proof fn total_after_insert(counts: Map<Seq<char>, nat>, name: Seq<char>, n: nat)
    requires
        counts.dom().finite(),
    ensures
        total_of(counts.insert(name, n)) + count_of(counts, name) == total_of(counts) + n,
{
    total_splits(counts.insert(name, n), name);
    if counts.contains_key(name) {
        total_splits(counts, name);
        assert(counts.insert(name, n).remove(name) =~= counts.remove(name));
    } else {
        assert(counts.insert(name, n).remove(name) =~= counts);
    }
}

/// No count exceeds the sum.
pub proof fn total_bounds(counts: Map<Seq<char>, nat>, name: Seq<char>)
    requires
        counts.dom().finite(),
    ensures
        count_of(counts, name) <= total_of(counts),
{
    if counts.contains_key(name) {
        total_splits(counts, name);
    }
}

proof fn counts_model_finite(rows: Seq<NamedCount>)
    ensures
        counts_model(rows).dom().finite(),
    decreases rows.len(),
{
    if rows.len() > 0 {
        counts_model_finite(rows.drop_last());
    }
}

/// A list of counts as a JSON object.
pub fn json_counts(rows: &Vec<NamedCount>) -> (out: Json)
    ensures
        out.model() == counts_json(counts_model(rows@)),
{
    let mut fields: Vec<Field> = Vec::new();
    let ghost number = |n: nat| JsonModel::Int(n as int);
    let mut i: usize = 0;
    assert(Map::<Seq<char>, nat>::empty().map_values(number) =~= Map::<
        Seq<char>,
        JsonModel,
    >::empty());
    while i < rows.len()
        invariant
            i <= rows.len(),
            number == (|n: nat| JsonModel::Int(n as int)),
            crate::json::fields_model(fields@) == counts_model(rows@.take(i as int)).map_values(
                number,
            ),
        decreases rows.len() - i,
    {
        let field = Field { key: rows[i].name.clone(), value: Json::UInt(rows[i].count as u64) };
        proof {
            crate::json::fields_model_push(fields@, field);
            let before = rows@.take(i as int);
            let after = rows@.take(i + 1);
            assert(after.drop_last() =~= before);
            assert(counts_model(after).map_values(number) =~= counts_model(before).map_values(
                number,
            ).insert(field.key@, field.value.model()));
        }
        fields.push(field);
        i = i + 1;
    }
    assert(rows@.take(i as int) =~= rows@);
    Json::Object(fields)
}

/// Counters that start at zero.
#[derive(Debug)]
pub struct Counters {
    rows: Vec<NamedCount>,
}

/// The sum of the counts in a list.
spec fn sum_rows(rows: Seq<NamedCount>) -> nat
    decreases rows.len(),
{
    if rows.len() == 0 {
        0
    } else {
        sum_rows(rows.drop_last()) + rows.last().count as nat
    }
}

spec fn distinct_names(rows: Seq<NamedCount>) -> bool {
    forall|i: int, j: int|
        0 <= i < j < rows.len() ==> (#[trigger] rows[i]).name@ != (#[trigger] rows[j]).name@
}

proof fn counts_model_absent(rows: Seq<NamedCount>, name: Seq<char>)
    requires
        forall|i: int| 0 <= i < rows.len() ==> (#[trigger] rows[i]).name@ != name,
    ensures
        !counts_model(rows).contains_key(name),
    decreases rows.len(),
{
    if rows.len() > 0 {
        let rest = rows.drop_last();
        assert forall|i: int| 0 <= i < rest.len() implies (#[trigger] rest[i]).name@ != name by {
            assert(rest[i] == rows[i]);
        }
        counts_model_absent(rest, name);
    }
}

proof fn counts_model_at(rows: Seq<NamedCount>, i: int)
    requires
        distinct_names(rows),
        0 <= i < rows.len(),
    ensures
        counts_model(rows).contains_key(rows[i].name@),
        counts_model(rows)[rows[i].name@] == rows[i].count,
    decreases rows.len(),
{
    if i < rows.len() - 1 {
        let rest = rows.drop_last();
        assert(distinct_names(rest)) by {
            assert forall|a: int, b: int| 0 <= a < b < rest.len() implies (
            #[trigger] rest[a]).name@ != (#[trigger] rest[b]).name@ by {
                assert(rest[a] == rows[a] && rest[b] == rows[b]);
            }
        }
        counts_model_at(rest, i);
        assert(rest[i] == rows[i]);
    }
}

proof fn sum_rows_is_total(rows: Seq<NamedCount>)
    requires
        distinct_names(rows),
    ensures
        sum_rows(rows) == total_of(counts_model(rows)),
    decreases rows.len(),
{
    if rows.len() > 0 {
        let rest = rows.drop_last();
        assert(distinct_names(rest)) by {
            assert forall|a: int, b: int| 0 <= a < b < rest.len() implies (
            #[trigger] rest[a]).name@ != (#[trigger] rest[b]).name@ by {
                assert(rest[a] == rows[a] && rest[b] == rows[b]);
            }
        }
        sum_rows_is_total(rest);
        assert forall|i: int| 0 <= i < rest.len() implies (#[trigger] rest[i]).name@
            != rows.last().name@ by {
            assert(rest[i] == rows[i]);
        }
        counts_model_absent(rest, rows.last().name@);
        counts_model_finite(rest);
        total_after_insert(counts_model(rest), rows.last().name@, rows.last().count as nat);
    }
}

proof fn counts_model_update(rows: Seq<NamedCount>, i: int, row: NamedCount)
    requires
        distinct_names(rows),
        0 <= i < rows.len(),
        row.name@ == rows[i].name@,
    ensures
        distinct_names(rows.update(i, row)),
        counts_model(rows.update(i, row)) == counts_model(rows).insert(
            row.name@,
            row.count as nat,
        ),
    decreases rows.len(),
{
    let updated = rows.update(i, row);
    let rest = rows.drop_last();
    if i == rows.len() - 1 {
        assert(updated.drop_last() =~= rest);
        assert(counts_model(updated) =~= counts_model(rows).insert(row.name@, row.count as nat));
    } else {
        assert(distinct_names(rest)) by {
            assert forall|a: int, b: int| 0 <= a < b < rest.len() implies (
            #[trigger] rest[a]).name@ != (#[trigger] rest[b]).name@ by {
                assert(rest[a] == rows[a] && rest[b] == rows[b]);
            }
        }
        assert(rest[i] == rows[i]);
        counts_model_update(rest, i, row);
        assert(updated.drop_last() =~= rest.update(i, row));
        assert(rows[i].name@ != rows.last().name@);
        assert(updated.last() == rows.last());
        assert(counts_model(updated) =~= counts_model(rows).insert(row.name@, row.count as nat));
    }
}

impl View for Counters {
    type V = Map<Seq<char>, nat>;

    closed spec fn view(&self) -> Map<Seq<char>, nat> {
        counts_model(self.rows@)
    }
}

impl Counters {
    /// No name has two counts.
    pub closed spec fn wf(&self) -> bool {
        distinct_names(self.rows@)
    }

    /// Counters at zero.
    pub fn new() -> (counters: Counters)
        ensures
            counters.wf(),
            counters@ == Map::<Seq<char>, nat>::empty(),
    {
        Counters { rows: Vec::new() }
    }

    /// The count under a name.
    pub fn get(&self, name: &str) -> (count: usize)
        requires
            self.wf(),
        ensures
            count == count_of(self@, name@),
    {
        let mut i: usize = 0;
        while i < self.rows.len()
            invariant
                self.wf(),
                i <= self.rows.len(),
                forall|j: int| 0 <= j < i ==> (#[trigger] self.rows@[j]).name@ != name@,
            decreases self.rows.len() - i,
        {
            if crate::text::str_eq(self.rows[i].name.as_str(), name) {
                proof {
                    counts_model_at(self.rows@, i as int);
                }
                return self.rows[i].count;
            }
            i = i + 1;
        }
        proof {
            counts_model_absent(self.rows@, name@);
        }
        0
    }

    /// Adds one to the count under a name.
    pub fn increment(&mut self, name: &str)
        requires
            old(self).wf(),
            count_of(old(self)@, name@) < usize::MAX,
        ensures
            final(self).wf(),
            final(self)@ == old(self)@.insert(name@, count_of(old(self)@, name@) + 1),
    {
        let mut i: usize = 0;
        while i < self.rows.len()
            invariant
                *self == *old(self),
                self.wf(),
                count_of(self@, name@) < usize::MAX,
                i <= self.rows.len(),
                forall|j: int| 0 <= j < i ==> (#[trigger] self.rows@[j]).name@ != name@,
            decreases self.rows.len() - i,
        {
            if crate::text::str_eq(self.rows[i].name.as_str(), name) {
                proof {
                    counts_model_at(self.rows@, i as int);
                }
                let row = NamedCount {
                    name: self.rows[i].name.clone(),
                    count: self.rows[i].count + 1,
                };
                proof {
                    counts_model_update(self.rows@, i as int, row);
                }
                self.rows.set(i, row);
                return ;
            }
            i = i + 1;
        }
        proof {
            counts_model_absent(self.rows@, name@);
        }
        let row = NamedCount { name: name.to_owned(), count: 1 };
        assert(self.rows@.push(row).drop_last() =~= self.rows@);
        self.rows.push(row);
    }

    /// The sum of all counts.
    pub fn total(&self) -> (sum: usize)
        requires
            self.wf(),
            total_of(self@) <= usize::MAX,
        ensures
            sum == total_of(self@),
    {
        let mut sum: usize = 0;
        let mut i: usize = 0;
        proof {
            sum_rows_is_total(self.rows@);
        }
        assert(self.rows@.take(0) =~= Seq::empty());
        while i < self.rows.len()
            invariant
                i <= self.rows.len(),
                sum == sum_rows(self.rows@.take(i as int)),
                sum_rows(self.rows@) <= usize::MAX,
            decreases self.rows.len() - i,
        {
            proof {
                assert(self.rows@.take(i + 1).drop_last() =~= self.rows@.take(i as int));
                sum_rows_prefix(self.rows@, i + 1);
            }
            sum = sum + self.rows[i].count;
            i = i + 1;
        }
        assert(self.rows@.take(i as int) =~= self.rows@);
        sum
    }

    /// The counts as a JSON object.
    pub fn to_json(&self) -> (out: Json)
        ensures
            out.model() == counts_json(self@),
    {
        json_counts(&self.rows)
    }
}

proof fn sum_rows_prefix(rows: Seq<NamedCount>, n: int)
    requires
        0 <= n <= rows.len(),
    ensures
        sum_rows(rows.take(n)) <= sum_rows(rows),
    decreases rows.len(),
{
    if n < rows.len() {
        sum_rows_prefix(rows.drop_last(), n);
        assert(rows.drop_last().take(n) =~= rows.take(n));
    } else {
        assert(rows.take(n) =~= rows);
    }
}

/// Nothing adds up to zero, and a name that is not counted has the count zero.
pub proof fn counts_start_at_zero(counts: Map<Seq<char>, nat>, name: Seq<char>, n: nat)
    ensures
        total_of(Map::empty()) == 0,
        !counts.contains_key(name) ==> count_of(counts, name) == 0,
        count_of(counts.insert(name, n), name) == n,
        forall|other: Seq<char>|
            other != name ==> #[trigger] count_of(counts.insert(name, n), other) == count_of(
                counts,
                other,
            ),
{
}

/// Of a list of counts the last one under a name counts.
pub proof fn the_last_count_counts(rows: Seq<NamedCount>, row: NamedCount, other: Seq<char>)
    ensures
        counts_model(Seq::empty()) == Map::<Seq<char>, nat>::empty(),
        counts_model(rows.push(row)).contains_key(row.name@),
        counts_model(rows.push(row))[row.name@] == row.count,
        other != row.name@ ==> counts_model(rows.push(row)).contains_key(other) == counts_model(
            rows,
        ).contains_key(other),
        other != row.name@ && counts_model(rows).contains_key(other) ==> counts_model(
            rows.push(row),
        )[other] == counts_model(rows)[other],
{
    assert(rows.push(row).drop_last() =~= rows);
}

} // verus!

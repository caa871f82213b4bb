//! Which schema migrations the local database still needs.
use vstd::prelude::*;
use crate::store::error::LocalDbError;
use crate::text::{decimal, decimal_string};

verus! {

/// The migrations, by index, that a database at `current_version` still
/// needs among `count`: those whose version (index + 1) is above it, in
/// order.
pub open spec fn pending_migrations(current_version: i32, count: nat) -> Seq<usize> {
    Seq::new(count, |i: int| i as usize).filter(pending_at(current_version))
}

/// Whether the migration at an index is above `current_version`.
pub open spec fn pending_at(current_version: i32) -> spec_fn(usize) -> bool {
    |i: usize| current_version < i + 1
}

/// The migrations to run, in order, on a database at `current_version`.
pub fn migrations_to_run(current_version: i32, count: usize) -> (v: Vec<usize>)
    ensures
        v@ == pending_migrations(current_version, count as nat),
{
    let ghost all = Seq::new(count as nat, |i: int| i as usize);
    let mut v: Vec<usize> = Vec::new();
    let mut i: usize = 0;
    while i < count
        invariant
            i <= count,
            all == Seq::new(count as nat, |i: int| i as usize),
            v@ == all.take(i as int).filter(pending_at(current_version)),
        decreases count - i,
    {
        proof {
            assert(all.take(i + 1) =~= all.take(i as int).push(i));
            all.take(i as int).lemma_filter_push(i, pending_at(current_version));
        }
        if (current_version as i128) < (i as i128) + 1 {
            v.push(i);
        }
        i = i + 1;
    }
    proof {
        assert(all.take(count as int) =~= all);
    }
    v
}

/// The error for a failed migration at `index`: "migration N: cause", N
/// counted from 1.
pub fn migration_failure(index: usize, cause: &str) -> (e: LocalDbError)
    ensures
        e matches LocalDbError::MigrationFailed(m) && m@ == "migration "@ + decimal(index + 1) + ": "@ + cause@,
{
    let mut m = String::from_str("migration ");
    let number = decimal_string((index as i128) + 1);
    m.append(number.as_str());
    m.append(": ");
    m.append(cause);
    LocalDbError::MigrationFailed(m)
}

} // verus!

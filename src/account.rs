//! The content of a fixed-size remote account under offset-addressed writes,
//! and which units of a plan it still lacks.
use vstd::prelude::*;

use crate::chunk::{WriteUnit, is_plan_of, lemma_plan_partitions};
use crate::error::Error;

verus! {

/// The unit lies within an account of `len` bytes.
pub open spec fn fits(len: nat, unit: WriteUnit) -> bool {
    unit.offset + unit.bytes@.len() <= len
}

/// The account's bytes after `unit` overwrote its range.
pub open spec fn apply_unit(account: Seq<u8>, unit: WriteUnit) -> Seq<u8> {
    account.subrange(0, unit.offset as int) + unit.bytes@ + account.subrange(
        unit.offset + unit.bytes@.len(),
        account.len() as int,
    )
}

/// The account's bytes after `units` were written, in order.
pub open spec fn apply_units(account: Seq<u8>, units: Seq<WriteUnit>) -> Seq<u8>
    decreases units.len(),
{
    if units.len() == 0 {
        account
    } else {
        apply_unit(apply_units(account, units.drop_last()), units.last())
    }
}

/// The account already holds `unit`'s bytes at its offset.
pub open spec fn unit_matches(account: Seq<u8>, unit: WriteUnit) -> bool {
    fits(account.len(), unit) && account.subrange(
        unit.offset as int,
        unit.offset + unit.bytes@.len(),
    ) == unit.bytes@
}

/// Indices among the first `n` units that the account does not yet hold.
pub open spec fn missing_upto(account: Seq<u8>, units: Seq<WriteUnit>, n: int) -> Seq<int>
    decreases n,
{
    if n <= 0 {
        seq![]
    } else if unit_matches(account, units[n - 1]) {
        missing_upto(account, units, n - 1)
    } else {
        missing_upto(account, units, n - 1).push(n - 1)
    }
}

/// Writes `unit` into `account`, which keeps its length; a unit that reaches
/// past the end is refused and the account left as it was.
pub fn write_unit(account: &mut Vec<u8>, unit: &WriteUnit) -> (r: Result<(), Error>)
    ensures
        fits(old(account)@.len(), *unit) ==> r is Ok && final(account)@ == apply_unit(
            old(account)@,
            *unit,
        ),
        !fits(old(account)@.len(), *unit) ==> r is Err && r->Err_0 is WriteOutOfBounds
            && final(account)@ == old(account)@,
{
    let offset = unit.offset as usize;
    let n = unit.bytes.len();
    if offset > account.len() || n > account.len() - offset {
        return Err(Error::WriteOutOfBounds);
    }
    let ghost before = account@;
    let end: usize = offset + n;
    let mut j: usize = 0;
    while j < n
        invariant
            j <= n,
            end == offset + n,
            n == unit.bytes@.len(),
            offset + n <= before.len(),
            account@.len() == before.len(),
            account@ == before.subrange(0, offset as int) + unit.bytes@.subrange(0, j as int)
                + before.subrange(offset + j, before.len() as int),
        decreases n - j,
    {
        account.set(offset + j, unit.bytes[j]);
        assert(account@ =~= before.subrange(0, offset as int) + unit.bytes@.subrange(0, j + 1)
            + before.subrange(offset + j + 1, before.len() as int));
        j = j + 1;
    }
    assert(unit.bytes@.subrange(0, n as int) =~= unit.bytes@);
    Ok(())
}

/// The indices, ascending, of the units whose bytes the account does not
/// yet hold: the units that a resumed upload still has to write.
pub fn units_to_rewrite(units: &Vec<WriteUnit>, account: &[u8]) -> (r: Vec<usize>)
    ensures
        r@.map_values(|i: usize| i as int) == missing_upto(account@, units@, units@.len() as int),
{
    let mut missing: Vec<usize> = Vec::new();
    let mut i: usize = 0;
    while i < units.len()
        invariant
            i <= units@.len(),
            missing@.map_values(|k: usize| k as int) == missing_upto(account@, units@, i as int),
        decreases units@.len() - i,
    {
        let unit = &units[i];
        let offset = unit.offset as usize;
        let n = unit.bytes.len();
        let mut matches = offset <= account.len() && n <= account.len() - offset;
        if matches {
            let end: usize = offset + n;
            let mut j: usize = 0;
            assert(account@.subrange(offset as int, offset as int) =~= unit.bytes@.subrange(0, 0));
            while j < n
                invariant
                    j <= n,
                    end == offset + n,
                    n == unit.bytes@.len(),
                    offset + n <= account@.len(),
                    matches == (account@.subrange(offset as int, offset + j) == unit.bytes@.subrange(
                        0,
                        j as int,
                    )),
                decreases n - j,
            {
                if account[offset + j] != unit.bytes[j] {
                    assert(account@.subrange(offset as int, offset + j + 1)[j as int]
                        != unit.bytes@.subrange(0, j + 1)[j as int]);
                    matches = false;
                } else if matches {
                    assert(account@.subrange(offset as int, offset + j + 1) =~= unit.bytes@.subrange(
                        0,
                        j + 1,
                    ));
                }
                if !matches {
                    assert(account@.subrange(offset as int, offset + j + 1) != unit.bytes@.subrange(
                        0,
                        j + 1,
                    )) by {
                        if account@.subrange(offset as int, offset + j + 1) == unit.bytes@.subrange(
                            0,
                            j + 1,
                        ) {
                            assert(account@.subrange(offset as int, offset + j) =~= unit.bytes@.subrange(
                                0,
                                j as int,
                            ));
                        }
                    }
                }
                j = j + 1;
            }
            assert(unit.bytes@.subrange(0, n as int) =~= unit.bytes@);
        }
        assert(matches == unit_matches(account@, units@[i as int]));
        if !matches {
            missing.push(i);
        }
        assert(missing@.map_values(|k: usize| k as int) =~= missing_upto(
            account@,
            units@,
            i + 1,
        ));
        i = i + 1;
    }
    missing
}

/// Rewriting units that the account already holds leaves it as it was.
pub proof fn lemma_rewrite_matching_units(account: Seq<u8>, units: Seq<WriteUnit>)
    requires
        forall|i: int| 0 <= i < units.len() ==> unit_matches(account, #[trigger] units[i]),
    ensures
        apply_units(account, units) == account,
    decreases units.len(),
{
    if units.len() > 0 {
        let rest = units.drop_last();
        assert forall|i: int| 0 <= i < rest.len() implies unit_matches(account, #[trigger] rest[i]) by {
            assert(rest[i] == units[i]);
        }
        lemma_rewrite_matching_units(account, rest);
        let u = units.last();
        assert(unit_matches(account, units[units.len() - 1]));
        assert(apply_unit(account, u) =~= account);
    }
}

/// Dispatching a payload's plan again to an account that already holds the
/// payload at its start leaves the account's bytes unchanged: writes are
/// safe to repeat.
pub proof fn lemma_redispatch_is_idempotent(
    account: Seq<u8>,
    payload: Seq<u8>,
    units: Seq<WriteUnit>,
    chunk: nat,
)
    requires
        chunk > 0,
        payload.len() <= u32::MAX,
        payload.len() <= account.len(),
        account.subrange(0, payload.len() as int) == payload,
        is_plan_of(units, payload, chunk),
    ensures
        forall|i: int| 0 <= i < units.len() ==> unit_matches(account, #[trigger] units[i]),
        apply_units(account, units) == account,
{
    lemma_plan_partitions(units, payload, chunk);
    assert forall|i: int| 0 <= i < units.len() implies unit_matches(account, #[trigger] units[i]) by {
        let u = units[i];
        assert(account.subrange(u.offset as int, u.offset + u.bytes@.len()) =~= payload.subrange(
            u.offset as int,
            u.offset + u.bytes@.len(),
        ));
    }
    lemma_rewrite_matching_units(account, units);
}

/// Where the first `k` units of a plan end.
pub open spec fn prefix_end(units: Seq<WriteUnit>, k: int) -> int {
    if k <= 0 {
        0
    } else {
        units[k - 1].offset + units[k - 1].bytes@.len()
    }
}

/// Writing the first `k` of contiguous units that start at zero and carry
/// the payload's bytes leaves the payload's bytes up to where they end, and
/// the account's own bytes after that.
pub proof fn lemma_apply_plan_prefix(
    account: Seq<u8>,
    payload: Seq<u8>,
    units: Seq<WriteUnit>,
    k: int,
)
    requires
        payload.len() <= account.len(),
        units.len() > 0 ==> units[0].offset == 0,
        forall|i: int|
            0 <= i < units.len() - 1 ==> (#[trigger] units[i]).offset + units[i].bytes@.len()
                == units[i + 1].offset,
        forall|i: int|
            0 <= i < units.len() ==> (#[trigger] units[i]).offset + units[i].bytes@.len()
                <= payload.len() && units[i].bytes@ == payload.subrange(
                units[i].offset as int,
                units[i].offset + units[i].bytes@.len(),
            ),
        0 <= k <= units.len(),
    ensures
        0 <= prefix_end(units, k) <= payload.len(),
        apply_units(account, units.subrange(0, k)) == payload.subrange(0, prefix_end(units, k))
            + account.subrange(prefix_end(units, k), account.len() as int),
    decreases k,
{
    if k == 0 {
        assert(units.subrange(0, 0) =~= Seq::<WriteUnit>::empty());
        assert(account =~= payload.subrange(0, 0) + account.subrange(0, account.len() as int));
    } else {
        lemma_apply_plan_prefix(account, payload, units, k - 1);
        let e = prefix_end(units, k - 1);
        let u = units[k - 1];
        assert(u.offset == e) by {
            if k - 1 > 0 {
                assert(units[k - 2].offset + units[k - 2].bytes@.len() == units[k - 1].offset);
            }
        }
        assert(units.subrange(0, k).drop_last() =~= units.subrange(0, k - 1));
        let before = apply_units(account, units.subrange(0, k - 1));
        let f = e + u.bytes@.len();
        assert(before.len() == account.len());
        assert(apply_unit(before, u) =~= payload.subrange(0, f) + account.subrange(
            f,
            account.len() as int,
        ));
    }
}

/// Dispatching a whole plan of `payload` writes exactly the payload at the
/// start of the account and leaves every byte after it as it was; on an
/// account of the payload's length, it leaves exactly the payload.
pub proof fn lemma_plan_writes_payload(
    account: Seq<u8>,
    payload: Seq<u8>,
    units: Seq<WriteUnit>,
    chunk: nat,
)
    requires
        chunk > 0,
        payload.len() <= u32::MAX,
        payload.len() <= account.len(),
        is_plan_of(units, payload, chunk),
    ensures
        apply_units(account, units) == payload + account.subrange(
            payload.len() as int,
            account.len() as int,
        ),
        account.len() == payload.len() ==> apply_units(account, units) == payload,
{
    lemma_plan_partitions(units, payload, chunk);
    lemma_apply_plan_prefix(account, payload, units, units.len() as int);
    assert(units.subrange(0, units.len() as int) =~= units);
    if units.len() == 0 {
        crate::chunk::lemma_unit_count_bounds(payload.len(), chunk);
    }
    assert(payload.subrange(0, payload.len() as int) =~= payload);
    if account.len() == payload.len() {
        assert(apply_units(account, units) =~= payload);
    }
}

/// Some unit among `written` covers byte `p`.
pub open spec fn covered(written: Seq<WriteUnit>, p: int) -> bool {
    exists|j: int|
        0 <= j < written.len() && (#[trigger] written[j]).offset <= p < written[j].offset
            + written[j].bytes@.len()
}

/// `unit` carries the payload's own bytes at its offset.
pub open spec fn carries_payload(unit: WriteUnit, payload: Seq<u8>) -> bool {
    unit.offset + unit.bytes@.len() <= payload.len() && unit.bytes@ == payload.subrange(
        unit.offset as int,
        unit.offset + unit.bytes@.len(),
    )
}

/// Units that carry the payload's bytes, written in any order, leave each
/// covered byte holding the payload's byte and every other byte as it was.
pub proof fn lemma_apply_payload_units(account: Seq<u8>, payload: Seq<u8>, written: Seq<WriteUnit>)
    requires
        payload.len() <= account.len(),
        forall|j: int| 0 <= j < written.len() ==> carries_payload(#[trigger] written[j], payload),
    ensures
        apply_units(account, written).len() == account.len(),
        forall|p: int|
            0 <= p < account.len() ==> #[trigger] apply_units(account, written)[p] == if covered(
                written,
                p,
            ) {
                payload[p]
            } else {
                account[p]
            },
    decreases written.len(),
{
    if written.len() > 0 {
        let rest = written.drop_last();
        assert forall|j: int| 0 <= j < rest.len() implies carries_payload(
            #[trigger] rest[j],
            payload,
        ) by {
            assert(rest[j] == written[j]);
        }
        lemma_apply_payload_units(account, payload, rest);
        let before = apply_units(account, rest);
        let u = written.last();
        assert(carries_payload(written[written.len() - 1], payload));
        let after = apply_units(account, written);
        assert(after == apply_unit(before, u));
        assert forall|p: int| 0 <= p < account.len() implies #[trigger] after[p] == if covered(
            written,
            p,
        ) {
            payload[p]
        } else {
            account[p]
        } by {
            let lo = u.offset as int;
            let hi = u.offset + u.bytes@.len();
            if lo <= p < hi {
                assert(after[p] == u.bytes@[p - lo]);
                assert(covered(written, p)) by {
                    assert(written[written.len() - 1] == u);
                }
            } else {
                assert(after[p] == before[p]);
                if covered(written, p) {
                    let j = choose|j: int|
                        0 <= j < written.len() && (#[trigger] written[j]).offset <= p
                            < written[j].offset + written[j].bytes@.len();
                    assert(j != written.len() - 1);
                    assert(rest[j] == written[j]);
                    assert(covered(rest, p));
                } else {
                    if covered(rest, p) {
                        let j = choose|j: int|
                            0 <= j < rest.len() && (#[trigger] rest[j]).offset <= p < rest[j].offset
                                + rest[j].bytes@.len();
                        assert(rest[j] == written[j]);
                    }
                }
            }
        }
    }
}

/// A partial dispatch: whatever units of a payload's plan land, in whatever
/// order and how often, each byte they cover holds the payload's byte and
/// every other byte of the account keeps its old value.
pub proof fn lemma_partial_dispatch(
    account: Seq<u8>,
    payload: Seq<u8>,
    units: Seq<WriteUnit>,
    chunk: nat,
    written: Seq<WriteUnit>,
)
    requires
        chunk > 0,
        payload.len() <= u32::MAX,
        payload.len() <= account.len(),
        is_plan_of(units, payload, chunk),
        forall|j: int|
            0 <= j < written.len() ==> exists|i: int|
                0 <= i < units.len() && #[trigger] written[j] == units[i],
    ensures
        apply_units(account, written).len() == account.len(),
        forall|p: int|
            0 <= p < account.len() ==> #[trigger] apply_units(account, written)[p] == if covered(
                written,
                p,
            ) {
                payload[p]
            } else {
                account[p]
            },
{
    lemma_plan_partitions(units, payload, chunk);
    assert forall|j: int| 0 <= j < written.len() implies carries_payload(
        #[trigger] written[j],
        payload,
    ) by {
        let i = choose|i: int| 0 <= i < units.len() && written[j] == units[i];
        assert(units[i] == written[j]);
    }
    lemma_apply_payload_units(account, payload, written);
}

} // verus!

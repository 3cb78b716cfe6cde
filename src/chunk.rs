//! Splitting a payload into offset-addressed write units, and the largest
//! payload that one signed write message can carry.
use vstd::prelude::*;

verus! {

/// One write operation: `bytes` land in the target account at `offset`.
#[derive(Clone, Debug, PartialEq, Eq)]
pub struct WriteUnit {
    pub offset: u32,
    pub bytes: Vec<u8>,
}

/// `ceil(len / chunk)`: the number of units that cover `len` bytes.
pub open spec fn unit_count(len: nat, chunk: nat) -> nat
    recommends
        chunk > 0,
{
    if len % chunk == 0 {
        len / chunk
    } else {
        len / chunk + 1
    }
}

/// Start of the unit with index `i` in a plan of chunk size `chunk`.
pub open spec fn unit_start(i: int, chunk: nat) -> int {
    i * chunk
}

/// End (exclusive) of the unit with index `i` over a payload of `len` bytes.
pub open spec fn unit_end(i: int, chunk: nat, len: nat) -> int {
    if (i + 1) * chunk <= len {
        (i + 1) * chunk
    } else {
        len as int
    }
}

/// The unit with index `i` of the canonical plan of `payload`.
pub open spec fn planned_unit(payload: Seq<u8>, chunk: nat, i: int) -> (u32, Seq<u8>) {
    (
        unit_start(i, chunk) as u32,
        payload.subrange(unit_start(i, chunk), unit_end(i, chunk, payload.len())),
    )
}

/// `units` is the canonical plan of `payload` at chunk size `chunk`.
pub open spec fn is_plan_of(units: Seq<WriteUnit>, payload: Seq<u8>, chunk: nat) -> bool {
    &&& units.len() == unit_count(payload.len(), chunk)
    &&& forall|i: int|
        0 <= i < units.len() ==> (#[trigger] units[i]).offset == planned_unit(payload, chunk, i).0
            && units[i].bytes@ == planned_unit(payload, chunk, i).1
}

/// The payload capacity of a message whose signed, zero-payload form takes
/// `baseline` bytes under a packet limit of `limit` bytes: one byte is kept
/// back for the length prefix of the payload, which grows once it is
/// non-empty; the result saturates at zero.
pub open spec fn capacity(limit: nat, baseline: nat) -> nat {
    if baseline + 1 <= limit {
        (limit - baseline - 1) as nat
    } else {
        0
    }
}

/// Payload capacity of one write message: `limit - baseline - 1`, or zero
/// when the baseline message alone leaves no room.
pub fn max_chunk_size(limit: usize, baseline: usize) -> (r: usize)
    ensures
        r == capacity(limit as nat, baseline as nat),
{
    limit.saturating_sub(baseline).saturating_sub(1)
}


/// Bounds that pin `unit_count` down: `n` units of `chunk` bytes reach past
/// the payload's end, and `n - 1` of them do not.
pub proof fn lemma_unit_count_bounds(len: nat, chunk: nat)
    requires
        chunk > 0,
    ensures
        unit_count(len, chunk) * chunk >= len,
        unit_count(len, chunk) == 0 || (unit_count(len, chunk) - 1) * chunk < len,
        unit_count(len, chunk) == 0 <==> len == 0,
{
    let q = len / chunk;
    let r = len % chunk;
    vstd::arithmetic::div_mod::lemma_fundamental_div_mod(len as int, chunk as int);
    assert(len == q * chunk + r);
    if r == 0 {
        assert(unit_count(len, chunk) == q);
        if q > 0 {
            assert((q - 1) * chunk == q * chunk - chunk) by (nonlinear_arith);
        }
        if q == 0 {
            assert(q * chunk == 0) by (nonlinear_arith)
                requires
                    q == 0,
            ;
        }
    } else {
        assert(unit_count(len, chunk) == q + 1);
        assert((q + 1) * chunk == q * chunk + chunk) by (nonlinear_arith);
        assert(q * chunk >= 0) by (nonlinear_arith);
    }
}

/// Any `k` with `k * chunk >= len` and `(k - 1) * chunk < len` is the unit count.
pub proof fn lemma_unit_count_unique(len: nat, chunk: nat, k: nat)
    requires
        chunk > 0,
        k * chunk >= len,
        k == 0 || (k - 1) * chunk < len,
    ensures
        unit_count(len, chunk) == k,
{
    lemma_unit_count_bounds(len, chunk);
    let n = unit_count(len, chunk);
    if k < n {
        assert(k * chunk <= (n - 1) * chunk) by (nonlinear_arith)
            requires
                k <= n - 1,
                chunk > 0,
        ;
    } else if k > n {
        assert(n * chunk <= (k - 1) * chunk) by (nonlinear_arith)
            requires
                n <= k - 1,
                chunk > 0,
        ;
    }
}

/// A plan covers its payload exactly: the first unit starts at zero, each
/// unit starts where the one before it ends, the last one ends at the
/// payload's end, and every unit is non-empty and at most `chunk` bytes long.
/// So the units partition `[0, len)` with no gap and no overlap, and their
/// bytes are the payload's bytes at those offsets.
pub proof fn lemma_plan_partitions(units: Seq<WriteUnit>, payload: Seq<u8>, chunk: nat)
    requires
        chunk > 0,
        payload.len() <= u32::MAX,
        is_plan_of(units, payload, chunk),
    ensures
        units.len() == unit_count(payload.len(), chunk),
        units.len() > 0 ==> units[0].offset == 0,
        units.len() > 0 ==> units.last().offset + units.last().bytes@.len() == payload.len(),
        forall|i: int|
            0 <= i < units.len() - 1 ==> (#[trigger] units[i]).offset + units[i].bytes@.len()
                == units[i + 1].offset,
        forall|i: int|
            0 <= i < units.len() ==> 0 < (#[trigger] units[i]).bytes@.len() <= chunk
                && units[i].offset + units[i].bytes@.len() <= payload.len() && units[i].bytes@
                == payload.subrange(
                units[i].offset as int,
                units[i].offset + units[i].bytes@.len(),
            ),
{
    let len = payload.len();
    let n = units.len();
    lemma_unit_count_bounds(len, chunk);
    assert forall|i: int| 0 <= i < n implies 0 <= #[trigger] unit_start(i, chunk) < len && unit_start(i, chunk)
        < unit_end(i, chunk, len) <= unit_start(i, chunk) + chunk by {
        assert(i * chunk <= (n - 1) * chunk) by (nonlinear_arith)
            requires
                i <= n - 1,
                chunk > 0,
        ;
        assert(i * chunk >= 0) by (nonlinear_arith)
            requires
                i >= 0,
                chunk > 0,
        ;
        assert((i + 1) * chunk == i * chunk + chunk) by (nonlinear_arith);
    }
    assert forall|i: int| 0 <= i < n - 1 implies #[trigger] unit_end(i, chunk, len) == unit_start(
        i + 1,
        chunk,
    ) by {
        assert((i + 1) * chunk <= (n - 1) * chunk) by (nonlinear_arith)
            requires
                i + 1 <= n - 1,
                chunk > 0,
        ;
    }
    if n > 0 {
        assert(0 * chunk == 0) by (nonlinear_arith);
        assert((n - 1 + 1) * chunk == n * chunk);
    }
}

/// Law of the size calculator: with the chunk size it yields for a baseline
/// of `baseline` bytes under a limit of `limit` bytes, every unit of any plan
/// fits in one message whose size is the baseline plus the unit's bytes plus
/// at most one byte of length-prefix growth.
pub proof fn lemma_planned_units_fit(
    units: Seq<WriteUnit>,
    payload: Seq<u8>,
    limit: nat,
    baseline: nat,
)
    requires
        capacity(limit, baseline) > 0,
        payload.len() <= u32::MAX,
        is_plan_of(units, payload, capacity(limit, baseline)),
    ensures
        capacity(limit, baseline) == limit - baseline - 1,
        forall|i: int|
            0 <= i < units.len() ==> baseline + (#[trigger] units[i]).bytes@.len() + 1 <= limit,
{
    lemma_plan_partitions(units, payload, capacity(limit, baseline));
}

/// Splits `payload` into consecutive units of `chunk_size` bytes (the last one
/// holds the remainder), each with its offset in the payload.
pub fn plan(payload: &[u8], chunk_size: usize) -> (units: Vec<WriteUnit>)
    requires
        chunk_size > 0,
        payload@.len() <= u32::MAX,
    ensures
        is_plan_of(units@, payload@, chunk_size as nat),
{
    let len = payload.len();
    let mut units: Vec<WriteUnit> = Vec::new();
    let mut start: usize = 0;
    while start < len
        invariant
            chunk_size > 0,
            len == payload@.len(),
            len <= u32::MAX,
            start <= len,
            start < len ==> start as int == unit_start(units@.len() as int, chunk_size as nat),
            start == len ==> units@.len() * chunk_size >= len,
            units@.len() == 0 || (units@.len() - 1) * chunk_size < len,
            forall|k: int|
                0 <= k < units@.len() ==> (#[trigger] units@[k]).offset == planned_unit(
                    payload@,
                    chunk_size as nat,
                    k,
                ).0 && units@[k].bytes@ == planned_unit(payload@, chunk_size as nat, k).1,
        decreases len - start,
    {
        let ghost i = units@.len() as int;
        let end: usize = if chunk_size <= len - start {
            start + chunk_size
        } else {
            len
        };
        assert((i + 1) * chunk_size == i * chunk_size + chunk_size) by (nonlinear_arith);
        assert(end as int == unit_end(i, chunk_size as nat, len as nat));
        let mut bytes: Vec<u8> = Vec::new();
        let mut j: usize = start;
        while j < end
            invariant
                start <= j <= end,
                end <= len,
                len == payload@.len(),
                bytes@ == payload@.subrange(start as int, j as int),
            decreases end - j,
        {
            bytes.push(payload[j]);
            assert(bytes@ =~= payload@.subrange(start as int, j + 1));
            j = j + 1;
        }
        units.push(WriteUnit { offset: start as u32, bytes });
        start = end;
    }
    proof {
        lemma_unit_count_unique(len as nat, chunk_size as nat, units@.len() as nat);
    }
    units
}

} // verus!

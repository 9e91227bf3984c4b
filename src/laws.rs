use vstd::prelude::*;

use crate::ledger::salary_in;

verus! {

/// Registering `e` with a positive salary `s` makes every later read of `e`
/// report exactly `s`, which is positive.
pub proof fn law_read_after_add(salaries: Map<Seq<u8>, u128>, e: Seq<u8>, s: u128)
    requires
        s > 0,
    ensures
        salary_in(salaries.insert(e, s), e) == s,
        salary_in(salaries.insert(e, s), e) > 0,
{
}

/// Registering, overwriting or removing another employee leaves the salary
/// read for `e` as it was; only an add or a removal of `e` itself changes it.
pub proof fn law_read_kept_by_others(
    salaries: Map<Seq<u8>, u128>,
    e: Seq<u8>,
    other: Seq<u8>,
    s: u128,
)
    requires
        other != e,
    ensures
        salary_in(salaries.insert(other, s), e) == salary_in(salaries, e),
        salary_in(salaries.remove(other), e) == salary_in(salaries, e),
{
}

/// After `e` is removed, a read of `e` reports 0, so paying `e` is refused
/// as an unknown employee.
pub proof fn law_read_after_remove(salaries: Map<Seq<u8>, u128>, e: Seq<u8>)
    ensures
        salary_in(salaries.remove(e), e) == 0,
{
}

} // verus!

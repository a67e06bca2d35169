//! How the total of the escrowed fees changes with the receipts.

use crate::model::ReceiptView;
use crate::model::bonded_total;
use vstd::prelude::*;

verus! {

/// Replacing one receipt changes the escrowed total by the difference between
/// what the new and the old receipt account for.
pub proof fn lemma_bonded_total_update(
    receipts: Seq<ReceiptView>,
    i: int,
    receipt: ReceiptView,
    n: int,
)
    requires
        0 <= i < receipts.len(),
        0 <= n <= receipts.len(),
    ensures
        bonded_total(receipts.update(i, receipt), n) == bonded_total(receipts, n) + if i < n {
            receipt.bonded() - receipts[i].bonded()
        } else {
            0
        },
    decreases n,
{
    if n > 0 {
        lemma_bonded_total_update(receipts, i, receipt, n - 1);
    }
}

/// A receipt appended beyond the first `n` does not change their total.
pub proof fn lemma_bonded_total_push(receipts: Seq<ReceiptView>, receipt: ReceiptView, n: int)
    requires
        0 <= n <= receipts.len(),
    ensures
        bonded_total(receipts.push(receipt), n) == bonded_total(receipts, n),
    decreases n,
{
    if n > 0 {
        lemma_bonded_total_push(receipts, receipt, n - 1);
    }
}

/// With no negative fees, the escrowed total is at least what any one of the
/// receipts accounts for, and never negative.
pub proof fn lemma_bonded_total_covers(receipts: Seq<ReceiptView>, i: int, n: int)
    requires
        0 <= n <= receipts.len(),
        forall|j: int| 0 <= j < receipts.len() ==> (#[trigger] receipts[j]).fee_paid >= 0,
    ensures
        bonded_total(receipts, n) >= 0,
        0 <= i < n ==> bonded_total(receipts, n) >= receipts[i].bonded(),
    decreases n,
{
    if n > 0 {
        lemma_bonded_total_covers(receipts, i, n - 1);
    }
}

/// With no negative fees, the escrowed total of more receipts is no less.
pub proof fn lemma_bonded_total_monotone(receipts: Seq<ReceiptView>, k: int, n: int)
    requires
        0 <= k <= n <= receipts.len(),
        forall|j: int| 0 <= j < receipts.len() ==> (#[trigger] receipts[j]).fee_paid >= 0,
    ensures
        bonded_total(receipts, k) <= bonded_total(receipts, n),
    decreases n - k,
{
    if k < n {
        lemma_bonded_total_monotone(receipts, k, n - 1);
    }
}

} // verus!

//! Changes of the validator set between two snapshots of the chain.
//!
//! In the monitor the two snapshots are the session validators at the block
//! that settles an era and at its parent. That window shows the set just
//! before and just after the rotation the era triggered; where session and
//! era boundaries are not aligned it need not match the sets at the starts
//! of two consecutive eras.
use vstd::prelude::*;

verus! {

/// The accounts listed in `v`, as a set.
pub open spec fn account_set(v: Seq<String>) -> Set<Seq<char>> {
    Set::new(|a: Seq<char>| exists|i: int| 0 <= i < v.len() && v[i]@ == a)
}

/// No account is listed twice in `v`.
pub open spec fn distinct_accounts(v: Seq<String>) -> bool {
    forall|i: int, j: int| 0 <= i < j < v.len() ==> v[i]@ != v[j]@
}

/// The accounts that joined and the accounts that left the validator set.
#[derive(Debug)]
pub struct ValidatorDiff {
    pub added: Vec<String>,
    pub removed: Vec<String>,
}

impl ValidatorDiff {
    /// Whether the set did not change at all.
    pub fn is_empty(&self) -> (r: bool)
        ensures
            r == (self.added@.len() == 0 && self.removed@.len() == 0),
    {
        self.added.len() == 0 && self.removed.len() == 0
    }
}

/// Whether `account` is listed in `v`.
pub fn contains_account(v: &Vec<String>, account: &String) -> (r: bool)
    ensures
        r == account_set(v@).contains(account@),
{
    let mut i: usize = 0;
    while i < v.len()
        invariant
            0 <= i <= v@.len(),
            forall|j: int| 0 <= j < i ==> v@[j]@ != account@,
        decreases v@.len() - i,
    {
        if v[i] == *account {
            assert(account_set(v@).contains(account@));
            return true;
        }
        i = i + 1;
    }
    false
}

/// The accounts of `a` that are not in `b`, each listed once, in the
/// order of their first appearance in `a`.
pub fn difference(a: &Vec<String>, b: &Vec<String>) -> (r: Vec<String>)
    ensures
        account_set(r@) == account_set(a@).difference(account_set(b@)),
        distinct_accounts(r@),
{
    let mut out: Vec<String> = Vec::new();
    let mut i: usize = 0;
    while i < a.len()
        invariant
            0 <= i <= a@.len(),
            distinct_accounts(out@),
            account_set(out@) == account_set(a@.take(i as int)).difference(account_set(b@)),
        decreases a@.len() - i,
    {
        let in_b = contains_account(b, &a[i]);
        let seen = contains_account(&out, &a[i]);
        let ghost before = out@;
        if !in_b && !seen {
            out.push(a[i].clone());
        }
        proof {
            let prefix = a@.take(i as int + 1);
            assert(prefix =~= a@.take(i as int).push(a@[i as int]));
            assert(account_set(out@) =~= account_set(prefix).difference(account_set(b@))) by {
                assert forall|x: Seq<char>| account_set(prefix).contains(x) implies (
                exists|j: int| 0 <= j < i && a@.take(i as int)[j]@ == x) || a@[i as int]@ == x by {
                    let j = choose|j: int| 0 <= j < prefix.len() && prefix[j]@ == x;
                    if j < i {
                        assert(a@.take(i as int)[j]@ == x);
                    }
                }
                assert forall|x: Seq<char>| account_set(a@.take(i as int)).contains(x) implies account_set(
                    prefix,
                ).contains(x) by {
                    let j = choose|j: int| 0 <= j < i && a@.take(i as int)[j]@ == x;
                    assert(prefix[j]@ == x);
                }
                assert(account_set(prefix).contains(a@[i as int]@)) by {
                    assert(prefix[i as int]@ == a@[i as int]@);
                }
                assert forall|x: Seq<char>| account_set(out@).contains(x) implies (
                account_set(before).contains(x) || x == a@[i as int]@) by {
                    let j = choose|j: int| 0 <= j < out@.len() && out@[j]@ == x;
                    if j < before.len() {
                        assert(before[j]@ == x);
                    }
                }
                assert forall|x: Seq<char>| account_set(before).contains(x) implies account_set(
                    out@,
                ).contains(x) by {
                    let j = choose|j: int| 0 <= j < before.len() && before[j]@ == x;
                    assert(out@[j]@ == x);
                }
                if !in_b && !seen {
                    assert(out@[before.len() as int]@ == a@[i as int]@);
                }
                let prev = account_set(a@.take(i as int));
                assert forall|x: Seq<char>| account_set(out@).contains(x) implies account_set(
                    prefix,
                ).difference(account_set(b@)).contains(x) by {
                    if account_set(before).contains(x) {
                        assert(prev.difference(account_set(b@)).contains(x));
                    }
                }
                assert forall|x: Seq<char>|
                    account_set(prefix).difference(account_set(b@)).contains(
                        x,
                    ) implies account_set(out@).contains(x) by {
                    if prev.contains(x) {
                        assert(account_set(before).contains(x));
                    }
                }
            }
        }
        i = i + 1;
    }
    assert(a@.take(a@.len() as int) =~= a@);
    out
}

/// The change from validator set `set_a` to validator set `set_b`:
/// `added` lists the accounts of `set_b` missing from `set_a`, `removed`
/// those of `set_a` missing from `set_b`, each account once.
pub fn diff(set_a: &Vec<String>, set_b: &Vec<String>) -> (r: ValidatorDiff)
    ensures
        account_set(r.added@) == account_set(set_b@).difference(account_set(set_a@)),
        account_set(r.removed@) == account_set(set_a@).difference(account_set(set_b@)),
        distinct_accounts(r.added@),
        distinct_accounts(r.removed@),
{
    let added = difference(set_b, set_a);
    let removed = difference(set_a, set_b);
    ValidatorDiff { added, removed }
}

/// For any two validator sets, no account is both added and removed, and
/// applying the change to the first set gives back the second:
/// `(a ∪ added) \ removed == b`.
pub proof fn lemma_diff_reconstructs(a: Set<Seq<char>>, b: Set<Seq<char>>)
    ensures
        b.difference(a).disjoint(a.difference(b)),
        a.union(b.difference(a)).difference(a.difference(b)) == b,
{
    assert(a.union(b.difference(a)).difference(a.difference(b)) =~= b);
}

} // verus!

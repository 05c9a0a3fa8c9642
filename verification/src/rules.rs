//! Ordered rule lists: a validation is a sequence of rules, each with the
//! error reported when it is broken, and its outcome is the error of the
//! first broken rule.

use vstd::prelude::*;

verus! {

/// `Ok` when every rule holds, else the error of the first broken rule.
pub open spec fn first_violation<E>(rules: Seq<(bool, E)>) -> Result<(), E>
    decreases rules.len(),
{
    if rules.len() == 0 {
        Ok(())
    } else if !rules[0].0 {
        Err(rules[0].1)
    } else {
        first_violation(rules.drop_first())
    }
}

/// Whether every rule of `rules` holds.
pub open spec fn all_hold<E>(rules: Seq<(bool, E)>) -> bool {
    forall|i: int| 0 <= i < rules.len() ==> #[trigger] rules[i].0
}

/// A rule list yields `Ok` exactly when every rule holds, and otherwise the
/// error of a broken rule before which every rule holds.
pub proof fn lemma_first_violation<E>(rules: Seq<(bool, E)>)
    ensures
        first_violation(rules) is Ok <==> all_hold(rules),
        first_violation(rules) is Err ==> exists|i: int|
            {
                &&& 0 <= i < rules.len()
                &&& !(#[trigger] rules[i]).0
                &&& first_violation(rules) == Err::<(), E>(rules[i].1)
                &&& all_hold(rules.take(i))
            },
    decreases rules.len(),
{
    if rules.len() > 0 && rules[0].0 {
        let rest = rules.drop_first();
        lemma_first_violation(rest);
        if first_violation(rest) is Err {
            let i = choose|i: int|
                {
                    &&& 0 <= i < rest.len()
                    &&& !(#[trigger] rest[i]).0
                    &&& first_violation(rest) == Err::<(), E>(rest[i].1)
                    &&& all_hold(rest.take(i))
                };
            assert(rules[i + 1] == rest[i]);
            assert forall|j: int| 0 <= j < i + 1 implies #[trigger] rules.take(i + 1)[j].0 by {
                if j > 0 {
                    assert(rules[j] == rest.take(i)[j - 1]);
                }
            }
        }
        assert(all_hold(rest) ==> all_hold(rules)) by {
            assert forall|i: int| all_hold(rest) && 0 <= i < rules.len() implies #[trigger] rules[i].0 by {
                if i > 0 {
                    assert(rules[i] == rest[i - 1]);
                }
            }
        }
        assert(all_hold(rules) ==> all_hold(rest)) by {
            assert forall|k: int| all_hold(rules) && 0 <= k < rest.len() implies #[trigger] rest[k].0 by {
                assert(rules[k + 1] == rest[k]);
            }
        }
    } else if rules.len() > 0 {
        assert(!rules[0].0);
        assert(rules.take(0).len() == 0);
    }
}

/// The first broken rule of `rules`, or `Ok` when all hold.
pub fn first_violation_of<E>(rules: Vec<(bool, E)>) -> (r: Result<(), E>)
    ensures
        r == first_violation(rules@),
{
    let ghost all = rules@;
    let mut remaining = rules;
    let mut i: usize = 0;
    assert(all.skip(0) =~= all);
    while i < remaining.len()
        invariant
            remaining@ == all,
            all == rules@,
            i <= all.len(),
            first_violation(all) == first_violation(all.skip(i as int)),
        decreases all.len() - i,
    {
        assert(all.skip(i as int)[0] == all[i as int]);
        if !remaining[i].0 {
            assert(first_violation(all.skip(i as int)) == Err::<(), E>(all[i as int].1));
            let removed = remaining.remove(i);
            assert(removed == all[i as int]);
            return Err(removed.1);
        }
        assert(all.skip(i as int).drop_first() =~= all.skip(i + 1));
        i = i + 1;
    }
    assert(all.skip(i as int) =~= Seq::<(bool, E)>::empty());
    Ok(())
}

} // verus!

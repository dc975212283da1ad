//! Choosing keys out of a list: those that carry a flag, and those with the
//! lowest ranks.

use vstd::prelude::*;
use crate::text::views;

verus! {

/// The number of flags that are set.
pub open spec fn count_set(flags: Seq<bool>) -> nat
    decreases flags.len(),
{
    if flags.len() == 0 {
        0
    } else {
        count_set(flags.drop_last()) + if flags.last() {
            1nat
        } else {
            0nat
        }
    }
}

/// The keys whose flag is set.
pub open spec fn flagged(keys: Seq<Seq<char>>, flags: Seq<bool>) -> Set<Seq<char>> {
    Set::new(
        |k: Seq<char>|
            exists|i: int| 0 <= i < keys.len() && i < flags.len() && flags[i] && keys[i] == k,
    )
}

/// Every set flag stands at a rank that is no higher than the rank at any
/// flag that is not set.
pub open spec fn lowest_are_set(ranks: Seq<i128>, flags: Seq<bool>) -> bool {
    forall|i: int, j: int|
        0 <= i < ranks.len() && 0 <= j < ranks.len() && flags[i] && !flags[j] ==> ranks[i]
            <= ranks[j]
}

pub proof fn lemma_count_bounds(flags: Seq<bool>)
    ensures
        count_set(flags) <= flags.len(),
        count_set(flags) == flags.len() <==> (forall|i: int| 0 <= i < flags.len() ==> flags[i]),
        count_set(flags) == 0 <==> (forall|i: int| 0 <= i < flags.len() ==> !flags[i]),
    decreases flags.len(),
{
    if flags.len() > 0 {
        let front = flags.drop_last();
        lemma_count_bounds(front);
        assert forall|i: int| 0 <= i < front.len() implies front[i] == flags[i] by {}
        if forall|i: int| 0 <= i < flags.len() ==> flags[i] {
            assert forall|i: int| 0 <= i < front.len() implies front[i] by {
                assert(flags[i]);
            }
        }
        if forall|i: int| 0 <= i < flags.len() ==> !flags[i] {
            assert forall|i: int| 0 <= i < front.len() implies !front[i] by {
                assert(!flags[i]);
            }
        }
        if count_set(flags) == flags.len() {
            assert(flags.last());
            assert forall|i: int| 0 <= i < flags.len() implies flags[i] by {
                if i < front.len() {
                    assert(front[i]);
                }
            }
        }
        if count_set(flags) == 0 {
            assert(!flags.last());
            assert forall|i: int| 0 <= i < flags.len() implies !flags[i] by {
                if i < front.len() {
                    assert(!front[i]);
                }
            }
        }
    }
}

pub proof fn lemma_count_push(flags: Seq<bool>, flag: bool)
    ensures
        count_set(flags.push(flag)) == count_set(flags) + if flag {
            1nat
        } else {
            0nat
        },
{
    assert(flags.push(flag).drop_last() =~= flags);
}

pub proof fn lemma_count_set_one(flags: Seq<bool>, at: int)
    requires
        0 <= at < flags.len(),
        !flags[at],
    ensures
        count_set(flags.update(at, true)) == count_set(flags) + 1,
    decreases flags.len(),
{
    let after = flags.update(at, true);
    if at == flags.len() - 1 {
        assert(after.drop_last() =~= flags.drop_last());
    } else {
        lemma_count_set_one(flags.drop_last(), at);
        assert(after.drop_last() =~= flags.drop_last().update(at, true));
    }
}

/// The elements of a sequence with one more at its end.
pub proof fn lemma_push_to_set<A>(s: Seq<A>, a: A)
    ensures
        s.push(a).to_set() == s.to_set().insert(a),
{
    let longer = s.push(a);
    assert forall|x: A| longer.to_set().contains(x) <==> s.to_set().insert(a).contains(x) by {
        if longer.contains(x) {
            let i = choose|i: int| 0 <= i < longer.len() && longer[i] == x;
            if i < s.len() {
                assert(s[i] == x);
            }
        }
        if s.contains(x) {
            let i = choose|i: int| 0 <= i < s.len() && s[i] == x;
            assert(longer[i] == x);
        }
        if x == a {
            assert(longer[s.len() as int] == a);
        }
    }
    assert(longer.to_set() =~= s.to_set().insert(a));
}

/// As many keys are flagged as flags are set, when no key occurs twice.
pub proof fn lemma_flagged_len(keys: Seq<Seq<char>>, flags: Seq<bool>)
    requires
        keys.no_duplicates(),
        keys.len() == flags.len(),
    ensures
        flagged(keys, flags).finite(),
        flagged(keys, flags).len() == count_set(flags),
    decreases keys.len(),
{
    if keys.len() == 0 {
        assert(flagged(keys, flags) =~= Set::<Seq<char>>::empty());
    } else {
        let front_keys = keys.drop_last();
        let front_flags = flags.drop_last();
        lemma_flagged_len(front_keys, front_flags);
        let front = flagged(front_keys, front_flags);
        if flags.last() {
            assert(!front.contains(keys.last())) by {
                if front.contains(keys.last()) {
                    let i = choose|i: int|
                        0 <= i < front_keys.len() && i < front_flags.len() && front_flags[i]
                            && front_keys[i] == keys.last();
                    assert(keys[i] == keys[keys.len() - 1]);
                }
            }
            assert forall|k: Seq<char>| flagged(keys, flags).contains(k) <==> front.insert(
                keys.last(),
            ).contains(k) by {
                if flagged(keys, flags).contains(k) {
                    let i = choose|i: int|
                        0 <= i < keys.len() && i < flags.len() && flags[i] && keys[i] == k;
                    if i < front_keys.len() {
                        assert(front_flags[i] && front_keys[i] == k);
                    }
                }
                if front.contains(k) {
                    let i = choose|i: int|
                        0 <= i < front_keys.len() && i < front_flags.len() && front_flags[i]
                            && front_keys[i] == k;
                    assert(flags[i] && keys[i] == k);
                }
                if k == keys.last() {
                    assert(flags[keys.len() - 1] && keys[keys.len() - 1] == k);
                }
            }
            assert(flagged(keys, flags) =~= front.insert(keys.last()));
        } else {
            assert forall|k: Seq<char>| flagged(keys, flags).contains(k) <==> front.contains(
                k,
            ) by {
                if flagged(keys, flags).contains(k) {
                    let i = choose|i: int|
                        0 <= i < keys.len() && i < flags.len() && flags[i] && keys[i] == k;
                    assert(i < front_keys.len());
                    assert(front_flags[i] && front_keys[i] == k);
                }
                if front.contains(k) {
                    let i = choose|i: int|
                        0 <= i < front_keys.len() && i < front_flags.len() && front_flags[i]
                            && front_keys[i] == k;
                    assert(flags[i] && keys[i] == k);
                }
            }
            assert(flagged(keys, flags) =~= front);
        }
    }
}

/// Copies of the keys whose flag is set, in the order of `keys`.
pub fn pick_flagged(keys: &Vec<String>, flags: &Vec<bool>) -> (out: Vec<String>)
    requires
        keys.len() == flags.len(),
        views(keys@).no_duplicates(),
    ensures
        views(out@).no_duplicates(),
        views(out@).to_set() == flagged(views(keys@), flags@),
        out.len() == count_set(flags@),
{
    let mut out: Vec<String> = Vec::new();
    let mut i: usize = 0;
    while i < keys.len()
        invariant
            i <= keys.len(),
            keys.len() == flags.len(),
            views(keys@).no_duplicates(),
            views(out@).no_duplicates(),
            out.len() == count_set(flags@.take(i as int)),
            forall|k: Seq<char>|
                views(out@).contains(k) <==> exists|j: int|
                    0 <= j < i && flags@[j] && views(keys@)[j] == k,
        decreases keys.len() - i,
    {
        proof {
            assert(flags@.take(i + 1) =~= flags@.take(i as int).push(flags@[i as int]));
            lemma_count_push(flags@.take(i as int), flags@[i as int]);
        }
        if flags[i] {
            let key = keys[i].clone();
            let ghost before = views(out@);
            assert(!before.contains(key@)) by {
                if before.contains(key@) {
                    let j = choose|j: int| 0 <= j < i && flags@[j] && views(keys@)[j] == key@;
                    assert(views(keys@)[j] == views(keys@)[i as int]);
                }
            }
            out.push(key);
            assert(views(out@) =~= before.push(key@));
            assert forall|k: Seq<char>|
                views(out@).contains(k) <==> exists|j: int|
                    0 <= j < i + 1 && flags@[j] && views(keys@)[j] == k by {
                if views(out@).contains(k) {
                    let at = choose|at: int| 0 <= at < views(out@).len() && views(out@)[at] == k;
                    if at < before.len() {
                        assert(before[at] == k);
                        assert(before.contains(k));
                        let j = choose|j: int| 0 <= j < i && flags@[j] && views(keys@)[j] == k;
                        assert(0 <= j < i + 1 && flags@[j] && views(keys@)[j] == k);
                    } else {
                        assert(0 <= i < i + 1 && flags@[i as int] && views(keys@)[i as int] == k);
                    }
                }
                if exists|j: int| 0 <= j < i + 1 && flags@[j] && views(keys@)[j] == k {
                    let j = choose|j: int| 0 <= j < i + 1 && flags@[j] && views(keys@)[j] == k;
                    if j < i {
                        assert(before.contains(k));
                        let at = choose|at: int| 0 <= at < before.len() && before[at] == k;
                        assert(views(out@)[at] == k);
                    } else {
                        assert(views(out@)[before.len() as int] == k);
                    }
                }
            }
        } else {
            assert forall|k: Seq<char>|
                views(out@).contains(k) <==> exists|j: int|
                    0 <= j < i + 1 && flags@[j] && views(keys@)[j] == k by {
                if exists|j: int| 0 <= j < i + 1 && flags@[j] && views(keys@)[j] == k {
                    let j = choose|j: int| 0 <= j < i + 1 && flags@[j] && views(keys@)[j] == k;
                    assert(0 <= j < i && flags@[j] && views(keys@)[j] == k);
                }
                if views(out@).contains(k) {
                    let j = choose|j: int| 0 <= j < i && flags@[j] && views(keys@)[j] == k;
                    assert(0 <= j < i + 1 && flags@[j] && views(keys@)[j] == k);
                }
            }
        }
        i += 1;
    }
    proof {
        assert(flags@.take(i as int) =~= flags@);
        assert forall|k: Seq<char>|
            views(out@).to_set().contains(k) <==> flagged(views(keys@), flags@).contains(k) by {
            if views(out@).contains(k) {
                let j = choose|j: int| 0 <= j < i && flags@[j] && views(keys@)[j] == k;
                assert(0 <= j < views(keys@).len() && j < flags@.len() && flags@[j] && views(
                    keys@,
                )[j] == k);
            }
        }
        assert(views(out@).to_set() =~= flagged(views(keys@), flags@));
    }
    out
}

/// The smaller of two numbers.
pub open spec fn min_of(a: int, b: int) -> int {
    if a <= b {
        a
    } else {
        b
    }
}

/// Flags `count` positions of lowest rank, or all positions if there are
/// fewer. Among equal ranks the earlier position is flagged first.
pub fn flag_lowest(ranks: &Vec<i128>, count: usize) -> (flags: Vec<bool>)
    ensures
        flags.len() == ranks.len(),
        count_set(flags@) == min_of(count as int, ranks.len() as int),
        lowest_are_set(ranks@, flags@),
{
    let n = ranks.len();
    let mut flags: Vec<bool> = Vec::new();
    while flags.len() < n
        invariant
            n == ranks.len(),
            flags.len() <= n,
            forall|i: int| 0 <= i < flags.len() ==> !flags@[i],
        decreases n - flags.len(),
    {
        flags.push(false);
    }
    proof {
        lemma_count_bounds(flags@);
    }
    let rounds = if count < n {
        count
    } else {
        n
    };
    let mut done: usize = 0;
    while done < rounds
        invariant
            n == ranks.len(),
            flags.len() == n,
            done <= rounds <= n,
            count_set(flags@) == done,
            lowest_are_set(ranks@, flags@),
        decreases rounds - done,
    {
        let mut best: Option<usize> = None;
        let mut i: usize = 0;
        while i < n
            invariant
                n == ranks.len(),
                flags.len() == n,
                i <= n,
                match best {
                    Some(b) => b < i && !flags@[b as int] && forall|j: int|
                        0 <= j < i && !flags@[j] ==> ranks@[b as int] <= ranks@[j],
                    None => forall|j: int| 0 <= j < i ==> flags@[j],
                },
            decreases n - i,
        {
            if !flags[i] {
                match best {
                    Some(b) => {
                        if ranks[i] < ranks[b] {
                            best = Some(i);
                        }
                    },
                    None => {
                        best = Some(i);
                    },
                }
            }
            i += 1;
        }
        match best {
            Some(b) => {
                proof {
                    lemma_count_set_one(flags@, b as int);
                }
                flags.set(b, true);
            },
            None => {
                proof {
                    lemma_count_bounds(flags@);
                }
                assert(false);
            },
        }
        done += 1;
    }
    flags
}

} // verus!

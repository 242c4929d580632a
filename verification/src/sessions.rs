use vstd::prelude::*;

use crate::model::{clone_string, SessionExit};

verus! {

/// The sessions that go through one exit region.
#[derive(Clone, Debug)]
pub struct SessionGroup {
    pub alpha2: String,
    pub sessions: usize,
}

/// How many of the sessions go through the region with code `code`.
pub open spec fn count_code(s: Seq<SessionExit>, code: Seq<char>) -> nat
    decreases s.len(),
{
    if s.len() == 0 {
        0
    } else {
        count_code(s.drop_last(), code) + (if s.last().alpha2@ == code { 1nat } else { 0nat })
    }
}

/// Some group in `g` is for the region with code `code`.
pub open spec fn has_group(g: Seq<SessionGroup>, code: Seq<char>) -> bool {
    exists|i: int| 0 <= i < g.len() && #[trigger] g[i].alpha2@ == code
}

/// `g` groups the sessions `s` by exit region: one group per region that some
/// session goes through, with the number of sessions through it.
pub open spec fn groups_sessions(s: Seq<SessionExit>, g: Seq<SessionGroup>) -> bool {
    &&& forall|i: int, j: int| 0 <= i < j < g.len() ==> #[trigger] g[i].alpha2@ != #[trigger] g[j].alpha2@
    &&& forall|i: int| 0 <= i < g.len() ==> #[trigger] g[i].sessions == count_code(s, g[i].alpha2@)
    &&& forall|k: int| 0 <= k < s.len() ==> has_group(g, #[trigger] s[k].alpha2@)
    &&& forall|i: int| 0 <= i < g.len() ==> #[trigger] g[i].sessions > 0
}

/// `x` is one of the first `k` groups of `g`.
pub open spec fn among_first(g: Seq<SessionGroup>, k: int, x: SessionGroup) -> bool {
    exists|j: int| 0 <= j < k && #[trigger] g[j] == x
}

/// `x` is one of the groups of `r`.
pub open spec fn among(r: Seq<SessionGroup>, x: SessionGroup) -> bool {
    exists|i: int| 0 <= i < r.len() && #[trigger] r[i] == x
}

/// The groups are ordered by falling session count.
pub open spec fn busiest_first(g: Seq<SessionGroup>) -> bool {
    forall|i: int, j: int| 0 <= i < j < g.len() ==> #[trigger] g[i].sessions >= #[trigger] g[j].sessions
}

proof fn lemma_count_step(s: Seq<SessionExit>, k: int, code: Seq<char>)
    requires
        0 <= k < s.len(),
    ensures
        count_code(s.subrange(0, k + 1), code) == count_code(s.subrange(0, k), code)
            + (if s[k].alpha2@ == code { 1nat } else { 0nat }),
{
    assert(s.subrange(0, k + 1).drop_last() =~= s.subrange(0, k));
}

proof fn lemma_count_bound(s: Seq<SessionExit>, code: Seq<char>)
    ensures
        count_code(s, code) <= s.len(),
    decreases s.len(),
{
    if s.len() > 0 {
        lemma_count_bound(s.drop_last(), code);
    }
}

/// Counts the sessions per exit region, in order of first appearance.
fn count_by_region(sessions: &Vec<SessionExit>) -> (g: Vec<SessionGroup>)
    ensures
        groups_sessions(sessions@, g@),
{
    let n = sessions.len();
    let mut g: Vec<SessionGroup> = Vec::new();
    let mut k: usize = 0;
    proof {
        assert(sessions@.subrange(0, 0) =~= Seq::<SessionExit>::empty());
    }
    while k < n
        invariant
            n == sessions@.len(),
            k <= n,
            groups_sessions(sessions@.subrange(0, k as int), g@),
        decreases n - k,
    {
        let ghost before = sessions@.subrange(0, k as int);
        let ghost after = sessions@.subrange(0, k + 1);
        let code = &sessions[k].alpha2;
        let mut idx: usize = 0;
        while idx < g.len() && g[idx].alpha2 != *code
            invariant
                idx <= g@.len(),
                forall|j: int| 0 <= j < idx ==> #[trigger] g@[j].alpha2@ != code@,
            decreases g@.len() - idx,
        {
            idx = idx + 1;
        }
        proof {
            assert forall|c: Seq<char>| true implies #[trigger] count_code(after, c) == count_code(before, c)
                + (if code@ == c { 1nat } else { 0nat }) by {
                lemma_count_step(sessions@, k as int, c);
            }
            lemma_count_bound(before, code@);
        }
        if idx < g.len() {
            let old_count = g[idx].sessions;
            proof {
                assert(g@[idx as int].sessions == count_code(before, code@));
            }
            let grp = SessionGroup { alpha2: clone_string(&g[idx].alpha2), sessions: old_count + 1 };
            let ghost g0 = g@;
            g.set(idx, grp);
            proof {
                assert forall|i: int| 0 <= i < g@.len() implies #[trigger] g@[i].sessions == count_code(after, g@[i].alpha2@) by {
                    if i != idx {
                        assert(g@[i] == g0[i]);
                        assert(g0[i].alpha2@ != g0[idx as int].alpha2@);
                    }
                }
                assert forall|i: int, j: int| 0 <= i < j < g@.len() implies #[trigger] g@[i].alpha2@ != #[trigger] g@[j].alpha2@ by {
                    assert(g@[i].alpha2@ == g0[i].alpha2@);
                    assert(g@[j].alpha2@ == g0[j].alpha2@);
                }
                assert forall|k2: int| 0 <= k2 < after.len() implies has_group(g@, #[trigger] after[k2].alpha2@) by {
                    if k2 < k {
                        assert(after[k2] == before[k2]);
                        assert(has_group(g0, before[k2].alpha2@));
                        let i = choose|i: int| 0 <= i < g0.len() && #[trigger] g0[i].alpha2@ == before[k2].alpha2@;
                        assert(g@[i].alpha2@ == g0[i].alpha2@);
                    } else {
                        assert(g@[idx as int].alpha2@ == code@);
                    }
                }
            }
        } else {
            let ghost g0 = g@;
            proof {
                assert(!has_group(g0, code@));
                assert forall|k2: int| 0 <= k2 < before.len() implies #[trigger] before[k2].alpha2@ != code@ by {
                    assert(has_group(g0, before[k2].alpha2@));
                }
                lemma_not_present_count_zero(before, code@);
            }
            g.push(SessionGroup { alpha2: clone_string(code), sessions: 1 });
            proof {
                assert forall|i: int| 0 <= i < g@.len() implies #[trigger] g@[i].sessions == count_code(after, g@[i].alpha2@) by {
                    if i < g0.len() {
                        assert(g@[i] == g0[i]);
                    }
                }
                assert forall|k2: int| 0 <= k2 < after.len() implies has_group(g@, #[trigger] after[k2].alpha2@) by {
                    if k2 < k {
                        assert(after[k2] == before[k2]);
                        assert(has_group(g0, before[k2].alpha2@));
                        let i = choose|i: int| 0 <= i < g0.len() && #[trigger] g0[i].alpha2@ == before[k2].alpha2@;
                        assert(g@[i] == g0[i]);
                    } else {
                        assert(g@[g0.len() as int].alpha2@ == code@);
                    }
                }
            }
        }
        k = k + 1;
    }
    proof {
        assert(sessions@.subrange(0, n as int) =~= sessions@);
    }
    g
}

proof fn lemma_not_present_count_zero(s: Seq<SessionExit>, code: Seq<char>)
    requires
        forall|k: int| 0 <= k < s.len() ==> #[trigger] s[k].alpha2@ != code,
    ensures
        count_code(s, code) == 0,
    decreases s.len(),
{
    if s.len() > 0 {
        lemma_not_present_count_zero(s.drop_last(), code);
    }
}

/// The sessions grouped by exit region, the busiest region first. Regions with
/// equal counts keep the order in which they first appear.
pub fn group_sessions(sessions: &Vec<SessionExit>) -> (r: Vec<SessionGroup>)
    ensures
        groups_sessions(sessions@, r@),
        busiest_first(r@),
{
    let g = count_by_region(sessions);
    let mut r: Vec<SessionGroup> = Vec::new();
    let n = g.len();
    let mut k: usize = 0;
    while k < n
        invariant
            n == g@.len(),
            k <= n,
            groups_sessions(sessions@, g@),
            busiest_first(r@),
            r@.len() == k,
            forall|i: int| 0 <= i < r@.len() ==> among_first(g@, k as int, #[trigger] r@[i]),
            forall|j: int| 0 <= j < k ==> among(r@, #[trigger] g@[j]),
            forall|i: int, j: int| 0 <= i < j < r@.len() ==> #[trigger] r@[i].alpha2@ != #[trigger] r@[j].alpha2@,
        decreases n - k,
    {
        let item = SessionGroup { alpha2: clone_string(&g[k].alpha2), sessions: g[k].sessions };
        let mut pos: usize = 0;
        while pos < r.len() && r[pos].sessions >= item.sessions
            invariant
                pos <= r@.len(),
                forall|i: int| 0 <= i < pos ==> #[trigger] r@[i].sessions >= item.sessions,
            decreases r@.len() - pos,
        {
            pos = pos + 1;
        }
        let ghost r0 = r@;
        proof {
            assert(item == g@[k as int]);
            assert forall|i: int| 0 <= i < r0.len() implies #[trigger] r0[i].alpha2@ != item.alpha2@ by {
                let j = choose|j: int| 0 <= j < k && #[trigger] r0[i] == g@[j];
                assert(g@[j].alpha2@ != g@[k as int].alpha2@);
            }
        }
        r.insert(pos, item);
        proof {
            assert forall|i: int, j: int| 0 <= i < j < r@.len() implies #[trigger] r@[i].sessions >= #[trigger] r@[j].sessions by {
                if j < pos {
                    assert(r@[i] == r0[i] && r@[j] == r0[j]);
                } else if j == pos {
                    assert(r@[i] == r0[i]);
                } else if i < pos {
                    assert(r@[i] == r0[i] && r@[j] == r0[j - 1]);
                } else if i == pos {
                    assert(r@[j] == r0[j - 1]);
                    if pos < r0.len() {
                        assert(r0[pos as int].sessions < item.sessions);
                        if j - 1 > pos {
                            assert(r0[pos as int].sessions >= r0[j - 1].sessions);
                        }
                    }
                } else {
                    assert(r@[i] == r0[i - 1] && r@[j] == r0[j - 1]);
                }
            }
            assert forall|i: int, j: int| 0 <= i < j < r@.len() implies #[trigger] r@[i].alpha2@ != #[trigger] r@[j].alpha2@ by {
                if j < pos {
                    assert(r@[i] == r0[i] && r@[j] == r0[j]);
                } else if j == pos {
                    assert(r@[i] == r0[i]);
                } else if i < pos {
                    assert(r@[i] == r0[i] && r@[j] == r0[j - 1]);
                } else if i == pos {
                    assert(r@[j] == r0[j - 1]);
                } else {
                    assert(r@[i] == r0[i - 1] && r@[j] == r0[j - 1]);
                }
            }
            assert forall|i: int| 0 <= i < r@.len() implies among_first(g@, k + 1, #[trigger] r@[i]) by {
                if i < pos {
                    assert(r@[i] == r0[i]);
                    let j = choose|j: int| 0 <= j < k && #[trigger] r0[i] == g@[j];
                } else if i == pos {
                    assert(r@[i] == g@[k as int]);
                } else {
                    assert(r@[i] == r0[i - 1]);
                    let j = choose|j: int| 0 <= j < k && #[trigger] r0[i - 1] == g@[j];
                }
            }
            assert forall|j: int| 0 <= j < k + 1 implies among(r@, #[trigger] g@[j]) by {
                if j < k {
                    let i = choose|i: int| 0 <= i < r0.len() && #[trigger] r0[i] == g@[j];
                    if i < pos {
                        assert(r@[i] == r0[i]);
                    } else {
                        assert(r@[i + 1] == r0[i]);
                    }
                } else {
                    assert(r@[pos as int] == g@[k as int]);
                }
            }
        }
        k = k + 1;
    }
    proof {
        assert forall|i: int| 0 <= i < r@.len() implies #[trigger] r@[i].sessions == count_code(sessions@, r@[i].alpha2@) by {
            let j = choose|j: int| 0 <= j < n && #[trigger] r@[i] == g@[j];
        }
        assert forall|k2: int| 0 <= k2 < sessions@.len() implies has_group(r@, #[trigger] sessions@[k2].alpha2@) by {
            assert(has_group(g@, sessions@[k2].alpha2@));
            let j = choose|j: int| 0 <= j < g@.len() && #[trigger] g@[j].alpha2@ == sessions@[k2].alpha2@;
            let i = choose|i: int| 0 <= i < r@.len() && #[trigger] r@[i] == g@[j];
        }
    }
    r
}

/// The sessions that the groups count, added up.
pub open spec fn sum_sessions(g: Seq<SessionGroup>) -> nat
    decreases g.len(),
{
    if g.len() == 0 { 0 } else { sum_sessions(g.drop_last()) + g.last().sessions as nat }
}

/// The sessions of `s` through the groups' regions, added up.
spec fn total_in(g: Seq<SessionGroup>, s: Seq<SessionExit>) -> nat
    decreases g.len(),
{
    if g.len() == 0 { 0 } else { total_in(g.drop_last(), s) + count_code(s, g.last().alpha2@) }
}

/// How many groups have the code `code`.
spec fn hits(g: Seq<SessionGroup>, code: Seq<char>) -> nat
    decreases g.len(),
{
    if g.len() == 0 { 0 } else { hits(g.drop_last(), code) + (if g.last().alpha2@ == code { 1nat } else { 0nat }) }
}

spec fn distinct_codes(g: Seq<SessionGroup>) -> bool {
    forall|i: int, j: int| 0 <= i < j < g.len() ==> #[trigger] g[i].alpha2@ != #[trigger] g[j].alpha2@
}

proof fn lemma_total_in_push(g: Seq<SessionGroup>, s: Seq<SessionExit>, x: SessionExit)
    ensures
        total_in(g, s.push(x)) == total_in(g, s) + hits(g, x.alpha2@),
    decreases g.len(),
{
    if g.len() > 0 {
        lemma_total_in_push(g.drop_last(), s, x);
        assert(s.push(x).drop_last() =~= s);
    }
}

proof fn lemma_hits_absent(g: Seq<SessionGroup>, code: Seq<char>)
    requires
        !has_group(g, code),
    ensures
        hits(g, code) == 0,
    decreases g.len(),
{
    if g.len() > 0 {
        let g1 = g.drop_last();
        assert(!has_group(g1, code)) by {
            if has_group(g1, code) {
                let i = choose|i: int| 0 <= i < g1.len() && #[trigger] g1[i].alpha2@ == code;
                assert(g[i].alpha2@ == code);
            }
        }
        assert(g[g.len() - 1].alpha2@ != code);
        lemma_hits_absent(g1, code);
    }
}

proof fn lemma_hits_once(g: Seq<SessionGroup>, code: Seq<char>)
    requires
        distinct_codes(g),
        has_group(g, code),
    ensures
        hits(g, code) == 1,
    decreases g.len(),
{
    let g1 = g.drop_last();
    assert(distinct_codes(g1)) by {
        assert forall|i: int, j: int| 0 <= i < j < g1.len() implies #[trigger] g1[i].alpha2@ != #[trigger] g1[j].alpha2@ by {
            assert(g1[i] == g[i] && g1[j] == g[j]);
        }
    }
    if g.last().alpha2@ == code {
        assert(!has_group(g1, code)) by {
            if has_group(g1, code) {
                let i = choose|i: int| 0 <= i < g1.len() && #[trigger] g1[i].alpha2@ == code;
                assert(g[i].alpha2@ == g[g.len() - 1].alpha2@);
            }
        }
        lemma_hits_absent(g1, code);
    } else {
        let i = choose|i: int| 0 <= i < g.len() && #[trigger] g[i].alpha2@ == code;
        assert(i < g.len() - 1);
        assert(g1[i].alpha2@ == code);
        lemma_hits_once(g1, code);
    }
}

proof fn lemma_total_covers(g: Seq<SessionGroup>, s: Seq<SessionExit>)
    requires
        distinct_codes(g),
        forall|k: int| 0 <= k < s.len() ==> has_group(g, #[trigger] s[k].alpha2@),
    ensures
        total_in(g, s) == s.len(),
    decreases s.len(),
{
    if s.len() == 0 {
        lemma_total_empty(g, s);
    } else {
        let s1 = s.drop_last();
        assert forall|k: int| 0 <= k < s1.len() implies has_group(g, #[trigger] s1[k].alpha2@) by {
            assert(s1[k] == s[k]);
        }
        lemma_total_covers(g, s1);
        assert(s1.push(s.last()) =~= s);
        lemma_total_in_push(g, s1, s.last());
        assert(has_group(g, s[s.len() - 1].alpha2@));
        lemma_hits_once(g, s.last().alpha2@);
    }
}

proof fn lemma_total_empty(g: Seq<SessionGroup>, s: Seq<SessionExit>)
    requires
        s.len() == 0,
    ensures
        total_in(g, s) == 0,
    decreases g.len(),
{
    if g.len() > 0 {
        lemma_total_empty(g.drop_last(), s);
    }
}

proof fn lemma_sum_is_total(g: Seq<SessionGroup>, s: Seq<SessionExit>)
    requires
        forall|i: int| 0 <= i < g.len() ==> #[trigger] g[i].sessions == count_code(s, g[i].alpha2@),
    ensures
        sum_sessions(g) == total_in(g, s),
    decreases g.len(),
{
    if g.len() > 0 {
        let g1 = g.drop_last();
        assert forall|i: int| 0 <= i < g1.len() implies #[trigger] g1[i].sessions == count_code(s, g1[i].alpha2@) by {
            assert(g1[i] == g[i]);
        }
        lemma_sum_is_total(g1, s);
        assert(g[g.len() - 1].sessions == count_code(s, g[g.len() - 1].alpha2@));
    }
}

/// Grouping counts every session exactly once: the groups' counts add up to
/// the number of sessions.
pub proof fn law_groups_count_every_session(s: Seq<SessionExit>, g: Seq<SessionGroup>)
    requires
        groups_sessions(s, g),
    ensures
        sum_sessions(g) == s.len(),
{
    lemma_sum_is_total(g, s);
    lemma_total_covers(g, s);
}

} // verus!

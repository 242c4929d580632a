use vstd::prelude::*;

use crate::model::{clone_string, AccountLevel, Country};
use crate::text::{lemma_lex_irreflexive, lemma_lex_total, lemma_lex_transitive, lex_lt, str_lt};

verus! {

/// One exit that the daemon's network status offers: its region and the
/// account levels that may use it.
#[derive(Clone, Debug)]
pub struct Exit {
    pub alpha2: String,
    pub name: String,
    pub allowed_levels: Vec<AccountLevel>,
}

/// Whether an account of `level` may use the exit.
pub open spec fn exit_allowed(e: Exit, level: AccountLevel) -> bool {
    e.allowed_levels@.contains(level)
}

/// The regions are in strictly increasing order of their codes.
pub open spec fn sorted_regions(r: Seq<Country>) -> bool {
    forall|i: int, j: int| 0 <= i < j < r.len() ==> lex_lt(#[trigger] r[i].alpha2@, #[trigger] r[j].alpha2@)
}

/// Exit `k` is the first exit usable at `level` whose region has the code `code`.
pub open spec fn first_offer(exits: Seq<Exit>, level: AccountLevel, code: Seq<char>, k: int) -> bool {
    &&& 0 <= k < exits.len()
    &&& exit_allowed(exits[k], level)
    &&& exits[k].alpha2@ == code
    &&& forall|k2: int| 0 <= k2 < k ==> !(exit_allowed(#[trigger] exits[k2], level) && exits[k2].alpha2@ == code)
}

/// Region `c` is listed as exit `k` offers it: same code and name, and `k` is
/// the first usable exit with that code.
pub open spec fn offered_as(exits: Seq<Exit>, level: AccountLevel, c: Country, k: int) -> bool {
    first_offer(exits, level, c.alpha2@, k) && c.name@ == exits[k].name@
}

/// Some exit among the first `upto` offers region `c` (see `offered_as`).
pub open spec fn is_offered(exits: Seq<Exit>, level: AccountLevel, c: Country, upto: int) -> bool {
    exists|k: int| k < upto && #[trigger] offered_as(exits, level, c, k)
}

/// Some region in `r` has the code `code`.
pub open spec fn lists_code(r: Seq<Country>, code: Seq<char>) -> bool {
    exists|i: int| 0 <= i < r.len() && #[trigger] r[i].alpha2@ == code
}

/// `r` is the region list for the first `upto` exits at `level`: one entry per
/// code that a usable exit offers, named as its first usable exit names it,
/// in increasing order of code.
pub open spec fn regions_from(exits: Seq<Exit>, level: AccountLevel, upto: int, r: Seq<Country>) -> bool {
    &&& sorted_regions(r)
    &&& forall|i: int| #![trigger r[i]] 0 <= i < r.len() ==> is_offered(exits, level, r[i], upto)
    &&& forall|k: int| 0 <= k < upto && #[trigger] exit_allowed(exits[k], level) ==> lists_code(r, exits[k].alpha2@)
}

/// The region list for all exits at `level`.
pub open spec fn region_list(exits: Seq<Exit>, level: AccountLevel, r: Seq<Country>) -> bool {
    regions_from(exits, level, exits.len() as int, r)
}

/// Whether `level` is among `levels`.
pub fn level_in(levels: &Vec<AccountLevel>, level: AccountLevel) -> (r: bool)
    ensures
        r == levels@.contains(level),
{
    let mut i: usize = 0;
    while i < levels.len()
        invariant
            i <= levels@.len(),
            forall|j: int| 0 <= j < i ==> levels@[j] != level,
        decreases levels@.len() - i,
    {
        if levels[i] == level {
            return true;
        }
        i = i + 1;
    }
    false
}

proof fn lemma_not_allowed_keeps(exits: Seq<Exit>, level: AccountLevel, k: int, r: Seq<Country>)
    requires
        0 <= k < exits.len(),
        regions_from(exits, level, k, r),
        !exit_allowed(exits[k], level),
    ensures
        regions_from(exits, level, k + 1, r),
{
    assert forall|i: int| 0 <= i < r.len() implies is_offered(exits, level, r[i], k + 1) by {
        let k1 = choose|k1: int| k1 < k && #[trigger] offered_as(exits, level, r[i], k1);
    }
}

proof fn lemma_listed_keeps(exits: Seq<Exit>, level: AccountLevel, k: int, r: Seq<Country>, pos: int)
    requires
        0 <= k < exits.len(),
        regions_from(exits, level, k, r),
        0 <= pos < r.len(),
        r[pos].alpha2@ == exits[k].alpha2@,
    ensures
        regions_from(exits, level, k + 1, r),
{
    assert forall|i: int| 0 <= i < r.len() implies is_offered(exits, level, r[i], k + 1) by {
        let k1 = choose|k1: int| k1 < k && #[trigger] offered_as(exits, level, r[i], k1);
    }
    assert forall|k1: int| 0 <= k1 < k + 1 && #[trigger] exit_allowed(exits[k1], level) implies lists_code(r, exits[k1].alpha2@) by {
        if k1 == k {
            assert(r[pos].alpha2@ == exits[k].alpha2@);
        }
    }
}

proof fn lemma_insert_keeps(exits: Seq<Exit>, level: AccountLevel, k: int, r: Seq<Country>, pos: int, c: Country)
    requires
        0 <= k < exits.len(),
        regions_from(exits, level, k, r),
        exit_allowed(exits[k], level),
        c.alpha2@ == exits[k].alpha2@,
        c.name@ == exits[k].name@,
        0 <= pos <= r.len(),
        forall|j: int| 0 <= j < pos ==> lex_lt(#[trigger] r[j].alpha2@, c.alpha2@),
        pos < r.len() ==> lex_lt(c.alpha2@, r[pos].alpha2@),
    ensures
        regions_from(exits, level, k + 1, r.insert(pos, c)),
{
    let r2 = r.insert(pos, c);
    let code = c.alpha2@;
    // the code is not listed yet
    assert forall|i: int| 0 <= i < r.len() implies #[trigger] r[i].alpha2@ != code by {
        if i < pos {
            lemma_lex_irreflexive(code);
        } else {
            if i > pos {
                assert(lex_lt(r[pos].alpha2@, r[i].alpha2@));
                lemma_lex_transitive(code, r[pos].alpha2@, r[i].alpha2@);
            }
            lemma_lex_irreflexive(code);
        }
    }
    assert(!lists_code(r, code));
    // so no earlier usable exit offers it
    assert forall|k2: int| 0 <= k2 < k implies !(exit_allowed(#[trigger] exits[k2], level) && exits[k2].alpha2@ == code) by {
        if exit_allowed(exits[k2], level) && exits[k2].alpha2@ == code {
            assert(lists_code(r, exits[k2].alpha2@));
        }
    }
    assert(offered_as(exits, level, c, k));
    // sortedness
    assert forall|i: int, j: int| 0 <= i < j < r2.len() implies lex_lt(#[trigger] r2[i].alpha2@, #[trigger] r2[j].alpha2@) by {
        if i < pos && j < pos {
            assert(r2[i] == r[i] && r2[j] == r[j]);
        } else if i < pos && j == pos {
            assert(r2[i] == r[i]);
        } else if i < pos && j > pos {
            assert(r2[i] == r[i] && r2[j] == r[j - 1]);
            if j - 1 == pos {
            } else {
                assert(lex_lt(r[pos].alpha2@, r[j - 1].alpha2@));
                lemma_lex_transitive(code, r[pos].alpha2@, r[j - 1].alpha2@);
            }
            lemma_lex_transitive(r[i].alpha2@, code, r[j - 1].alpha2@);
        } else if i == pos {
            assert(r2[j] == r[j - 1]);
            if j - 1 > pos {
                assert(lex_lt(r[pos].alpha2@, r[j - 1].alpha2@));
                lemma_lex_transitive(code, r[pos].alpha2@, r[j - 1].alpha2@);
            }
        } else {
            assert(r2[i] == r[i - 1] && r2[j] == r[j - 1]);
        }
    }
    // every listed region is offered
    assert forall|i: int| 0 <= i < r2.len() implies is_offered(exits, level, r2[i], k + 1) by {
        if i < pos {
            assert(r2[i] == r[i]);
            let k1 = choose|k1: int| k1 < k && #[trigger] offered_as(exits, level, r[i], k1);
        } else if i == pos {
            assert(r2[i] == c);
            assert(offered_as(exits, level, r2[i], k));
        } else {
            assert(r2[i] == r[i - 1]);
            let k1 = choose|k1: int| k1 < k && #[trigger] offered_as(exits, level, r[i - 1], k1);
        }
    }
    // every usable exit is listed
    assert forall|k1: int| 0 <= k1 < k + 1 && #[trigger] exit_allowed(exits[k1], level) implies lists_code(r2, exits[k1].alpha2@) by {
        if k1 == k {
            assert(r2[pos].alpha2@ == exits[k].alpha2@);
        } else {
            assert(lists_code(r, exits[k1].alpha2@));
            let i = choose|i: int| 0 <= i < r.len() && #[trigger] r[i].alpha2@ == exits[k1].alpha2@;
            if i < pos {
                assert(r2[i] == r[i]);
            } else {
                assert(r2[i + 1] == r[i]);
            }
        }
    }
}

/// The regions that the exits offer to an account of `level`: each code once,
/// named as the first usable exit with that code names it, sorted by code.
pub fn exits_for_level(exits: &Vec<Exit>, level: AccountLevel) -> (r: Vec<Country>)
    ensures
        region_list(exits@, level, r@),
{
    let mut r: Vec<Country> = Vec::new();
    let n = exits.len();
    let mut k: usize = 0;
    while k < n
        invariant
            n == exits@.len(),
            k <= n,
            regions_from(exits@, level, k as int, r@),
        decreases n - k,
    {
        let e = &exits[k];
        if level_in(&e.allowed_levels, level) {
            let mut pos: usize = 0;
            while pos < r.len() && str_lt(r[pos].alpha2.as_str(), e.alpha2.as_str())
                invariant
                    pos <= r@.len(),
                    forall|j: int| 0 <= j < pos ==> lex_lt(#[trigger] r@[j].alpha2@, e.alpha2@),
                decreases r@.len() - pos,
            {
                pos = pos + 1;
            }
            if pos < r.len() && r[pos].alpha2 == e.alpha2 {
                proof {
                    lemma_listed_keeps(exits@, level, k as int, r@, pos as int);
                }
            } else {
                let c = Country { alpha2: clone_string(&e.alpha2), name: clone_string(&e.name) };
                proof {
                    if pos < r@.len() {
                        lemma_lex_total(r@[pos as int].alpha2@, e.alpha2@);
                    }
                    lemma_insert_keeps(exits@, level, k as int, r@, pos as int, c);
                }
                r.insert(pos, c);
            }
        } else {
            proof {
                lemma_not_allowed_keeps(exits@, level, k as int, r@);
            }
        }
        k = k + 1;
    }
    r
}

} // verus!

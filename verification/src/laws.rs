use vstd::prelude::*;

use crate::cli::{ctl_start_plan, CtlStartPlan};
use crate::exits::{exit_allowed, first_offer, is_offered, lists_code, offered_as, region_list, sorted_regions, Exit};
use crate::keys::{must_clear_cache, start_step};
use crate::model::{prefs_of, AccountLevel, Country, TuiState};
use crate::text::{
    decimal_text, decimal_value, digit_char, digit_value, is_digit, lemma_lex_asymmetric,
    lemma_lex_irreflexive, lex_lt, parse_u16_spec, unsigned_digits,
};

verus! {

proof fn lemma_decimal_text_digits(n: nat)
    ensures
        decimal_text(n).len() > 0,
        forall|i: int| 0 <= i < decimal_text(n).len() ==> is_digit(#[trigger] decimal_text(n)[i]),
        decimal_value(decimal_text(n)) == n,
        decimal_text(n)[0] != '+',
    decreases n,
{
    if n < 10 {
        assert(decimal_text(n).drop_last() =~= Seq::<char>::empty());
        assert(decimal_value(Seq::<char>::empty()) == 0);
        assert(digit_value(digit_char(n)) == n);
        assert(decimal_value(decimal_text(n)) == decimal_value(Seq::<char>::empty()) * 10 + digit_value(digit_char(n)));
    } else {
        lemma_decimal_text_digits(n / 10);
        let t = decimal_text(n / 10);
        assert(decimal_text(n).drop_last() =~= t);
        assert(digit_value(digit_char(n % 10)) == n % 10);
        assert(decimal_text(n).last() == digit_char(n % 10));
        assert(decimal_value(decimal_text(n)) == decimal_value(t) * 10 + digit_value(digit_char(n % 10)));
        assert((n / 10) * 10 + n % 10 == n) by (nonlinear_arith);
        assert(decimal_text(n)[0] == t[0]);
        assert forall|i: int| 0 <= i < decimal_text(n).len() implies is_digit(#[trigger] decimal_text(n)[i]) by {
            if i < t.len() {
                assert(decimal_text(n)[i] == t[i]);
            }
        }
    }
}

/// A port number written out in decimal reads back as the same port.
pub proof fn law_port_text_round_trip(port: u16)
    ensures
        parse_u16_spec(decimal_text(port as nat)) == Some(port),
{
    lemma_decimal_text_digits(port as nat);
    assert(unsigned_digits(decimal_text(port as nat)) == decimal_text(port as nat));
}

/// Starting from the interface and starting with `--ctl start` clear the
/// connection-token cache on the same condition, when no clear is pending
/// otherwise: the secret differs from the last connected one. Both leave the
/// secret recorded as last connected.
pub proof fn law_start_paths_agree(s: TuiState)
    requires
        !s.is_running,
        !s.needs_cache_clear,
        s.secret@.len() > 0,
    ensures
        ctl_start_plan(false, prefs_of(s)) matches CtlStartPlan::Start { clear_token_cache, save }
            && clear_token_cache == must_clear_cache(s)
            && (save matches Some(q) ==> q.last_connected_secret == Some(s.secret)),
        start_step(s).0.last_connected_secret == Some(s.secret),
{
}

/// The codes of a region list, in order.
pub open spec fn codes(r: Seq<Country>) -> Seq<Seq<char>> {
    r.map_values(|c: Country| c.alpha2@)
}

proof fn lemma_sorted_same_codes_equal(a: Seq<Country>, b: Seq<Country>)
    requires
        sorted_regions(a),
        sorted_regions(b),
        forall|x: Seq<char>| lists_code(a, x) <==> lists_code(b, x),
    ensures
        codes(a) == codes(b),
    decreases a.len() + b.len(),
{
    if a.len() == 0 {
        if b.len() > 0 {
            assert(lists_code(b, b[0].alpha2@));
        }
        assert(codes(a) =~= codes(b));
    } else if b.len() == 0 {
        assert(lists_code(a, a[0].alpha2@));
    } else {
        let x = a[0].alpha2@;
        let y = b[0].alpha2@;
        assert(lists_code(a, x));
        assert(lists_code(b, y));
        let j = choose|j: int| 0 <= j < b.len() && #[trigger] b[j].alpha2@ == x;
        let i = choose|i: int| 0 <= i < a.len() && #[trigger] a[i].alpha2@ == y;
        if x != y {
            if j > 0 {
                assert(lex_lt(y, x));
                if i > 0 {
                    assert(lex_lt(x, y));
                    lemma_lex_asymmetric(x, y);
                }
            } else if i > 0 {
                assert(lex_lt(x, y));
            }
        }
        let a1 = a.drop_first();
        let b1 = b.drop_first();
        assert(sorted_regions(a1)) by {
            assert forall|p: int, q: int| 0 <= p < q < a1.len() implies lex_lt(#[trigger] a1[p].alpha2@, #[trigger] a1[q].alpha2@) by {
                assert(a1[p] == a[p + 1] && a1[q] == a[q + 1]);
            }
        }
        assert(sorted_regions(b1)) by {
            assert forall|p: int, q: int| 0 <= p < q < b1.len() implies lex_lt(#[trigger] b1[p].alpha2@, #[trigger] b1[q].alpha2@) by {
                assert(b1[p] == b[p + 1] && b1[q] == b[q + 1]);
            }
        }
        assert forall|z: Seq<char>| lists_code(a1, z) <==> lists_code(b1, z) by {
            if lists_code(a1, z) {
                let p = choose|p: int| 0 <= p < a1.len() && #[trigger] a1[p].alpha2@ == z;
                assert(a[p + 1].alpha2@ == z);
                assert(lex_lt(x, z));
                lemma_lex_irreflexive(x);
                assert(lists_code(a, z));
                let q = choose|q: int| 0 <= q < b.len() && #[trigger] b[q].alpha2@ == z;
                assert(q != 0);
                assert(b1[q - 1].alpha2@ == z);
            }
            if lists_code(b1, z) {
                let p = choose|p: int| 0 <= p < b1.len() && #[trigger] b1[p].alpha2@ == z;
                assert(b[p + 1].alpha2@ == z);
                assert(lex_lt(y, z));
                lemma_lex_irreflexive(y);
                assert(lists_code(b, z));
                let q = choose|q: int| 0 <= q < a.len() && #[trigger] a[q].alpha2@ == z;
                assert(q != 0);
                assert(a1[q - 1].alpha2@ == z);
            }
        }
        lemma_sorted_same_codes_equal(a1, b1);
        assert(codes(a1) =~= codes(a).drop_first());
        assert(codes(b1) =~= codes(b).drop_first());
        assert(codes(a) =~= codes(b)) by {
            assert forall|k: int| 0 <= k < codes(a).len() implies codes(a)[k] == codes(b)[k] by {
                if k > 0 {
                    assert(codes(a)[k] == codes(a1)[k - 1]);
                    assert(codes(b)[k] == codes(b1)[k - 1]);
                }
            }
        }
    }
}

proof fn lemma_first_offer_unique(exits: Seq<Exit>, level: AccountLevel, code: Seq<char>, k1: int, k2: int)
    requires
        first_offer(exits, level, code, k1),
        first_offer(exits, level, code, k2),
    ensures
        k1 == k2,
{
    if k1 < k2 {
        assert(exit_allowed(exits[k1], level) && exits[k1].alpha2@ == code);
    } else if k2 < k1 {
        assert(exit_allowed(exits[k2], level) && exits[k2].alpha2@ == code);
    }
}

/// The region list is determined by the exits and the level: two lists that
/// both meet `region_list` have the same codes and names in the same order.
pub proof fn law_region_list_determined(exits: Seq<Exit>, level: AccountLevel, a: Seq<Country>, b: Seq<Country>)
    requires
        region_list(exits, level, a),
        region_list(exits, level, b),
    ensures
        a.len() == b.len(),
        forall|i: int| 0 <= i < a.len() ==> #[trigger] a[i].alpha2@ == b[i].alpha2@ && a[i].name@ == b[i].name@,
{
    let n = exits.len() as int;
    assert forall|x: Seq<char>| lists_code(a, x) <==> lists_code(b, x) by {
        if lists_code(a, x) {
            let i = choose|i: int| 0 <= i < a.len() && #[trigger] a[i].alpha2@ == x;
            assert(is_offered(exits, level, a[i], n));
            let k = choose|k: int| k < n && #[trigger] offered_as(exits, level, a[i], k);
            assert(exit_allowed(exits[k], level));
        }
        if lists_code(b, x) {
            let i = choose|i: int| 0 <= i < b.len() && #[trigger] b[i].alpha2@ == x;
            assert(is_offered(exits, level, b[i], n));
            let k = choose|k: int| k < n && #[trigger] offered_as(exits, level, b[i], k);
            assert(exit_allowed(exits[k], level));
        }
    }
    lemma_sorted_same_codes_equal(a, b);
    assert(codes(a).len() == codes(b).len());
    assert forall|i: int| 0 <= i < a.len() implies #[trigger] a[i].alpha2@ == b[i].alpha2@ && a[i].name@ == b[i].name@ by {
        assert(codes(a)[i] == codes(b)[i]);
        assert(is_offered(exits, level, a[i], n));
        assert(is_offered(exits, level, b[i], n));
        let ka = choose|k: int| k < n && #[trigger] offered_as(exits, level, a[i], k);
        let kb = choose|k: int| k < n && #[trigger] offered_as(exits, level, b[i], k);
        lemma_first_offer_unique(exits, level, a[i].alpha2@, ka, kb);
    }
}

/// Each region appears once in a region list.
pub proof fn law_region_codes_distinct(exits: Seq<Exit>, level: AccountLevel, r: Seq<Country>, i: int, j: int)
    requires
        region_list(exits, level, r),
        0 <= i < j < r.len(),
    ensures
        r[i].alpha2@ != r[j].alpha2@,
{
    assert(lex_lt(r[i].alpha2@, r[j].alpha2@));
    lemma_lex_irreflexive(r[i].alpha2@);
}

} // verus!

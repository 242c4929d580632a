use vstd::prelude::*;

verus! {

/// Whether `c` is an ASCII decimal digit.
pub open spec fn is_digit(c: char) -> bool {
    '0' <= c && c <= '9'
}

/// The value of one decimal digit.
pub open spec fn digit_value(c: char) -> nat {
    ((c as int) - ('0' as int)) as nat
}

/// The value of a sequence of decimal digits, most significant first.
pub open spec fn decimal_value(s: Seq<char>) -> nat
    decreases s.len(),
{
    if s.len() == 0 {
        0
    } else {
        decimal_value(s.drop_last()) * 10 + digit_value(s.last())
    }
}

/// The digits that `str::parse::<u16>` reads: the text without one leading `+`.
pub open spec fn unsigned_digits(s: Seq<char>) -> Seq<char> {
    if s.len() > 0 && s[0] == '+' { s.drop_first() } else { s }
}

/// What `str::parse::<u16>` returns for the text `s`: a value when, after an
/// optional leading `+`, `s` is a non-empty run of ASCII digits whose value fits.
pub open spec fn parse_u16_spec(s: Seq<char>) -> Option<u16> {
    let d = unsigned_digits(s);
    if d.len() > 0 && (forall|i: int| 0 <= i < d.len() ==> is_digit(#[trigger] d[i]))
        && decimal_value(d) <= u16::MAX {
        Some(decimal_value(d) as u16)
    } else {
        None
    }
}

proof fn lemma_decimal_value_push(s: Seq<char>, c: char)
    ensures
        decimal_value(s.push(c)) == decimal_value(s) * 10 + digit_value(c),
{
    assert(s.push(c).drop_last() =~= s);
}

/// Prefix values never exceed the value of a longer digit run.
proof fn lemma_decimal_prefix_le(s: Seq<char>, k: int)
    requires
        0 <= k <= s.len(),
    ensures
        decimal_value(s.subrange(0, k)) <= decimal_value(s),
    decreases s.len() - k,
{
    if k < s.len() {
        lemma_decimal_prefix_le(s, k + 1);
        assert(s.subrange(0, k + 1) =~= s.subrange(0, k).push(s[k]));
        lemma_decimal_value_push(s.subrange(0, k), s[k]);
    } else {
        assert(s.subrange(0, k) =~= s);
    }
}

/// Parses a port number the way `str::parse::<u16>` does.
pub fn parse_u16(s: &str) -> (r: Option<u16>)
    ensures
        r == parse_u16_spec(s@),
{
    let n = s.unicode_len();
    let mut start: usize = 0;
    if n > 0 && s.get_char(0) == '+' {
        start = 1;
    }
    let ghost d = unsigned_digits(s@);
    proof {
        assert(d =~= s@.subrange(start as int, n as int));
    }
    if start >= n {
        return None;
    }
    let mut value: u32 = 0;
    let mut i: usize = start;
    while i < n
        invariant
            start <= i <= n,
            n == s@.len(),
            d =~= s@.subrange(start as int, n as int),
            d == unsigned_digits(s@),
            forall|j: int| 0 <= j < i - start ==> is_digit(#[trigger] d[j]),
            value == decimal_value(d.subrange(0, i - start)),
            value <= u16::MAX,
        decreases n - i,
    {
        let c = s.get_char(i);
        if c < '0' || c > '9' {
            assert(!is_digit(d[i - start]));
            return None;
        }
        proof {
            assert(d.subrange(0, i + 1 - start) =~= d.subrange(0, i - start).push(c));
            lemma_decimal_value_push(d.subrange(0, i - start), c);
        }
        let dv: u32 = (c as u32) - ('0' as u32);
        let next: u32 = value * 10 + dv;
        if next > 65535 {
            proof {
                lemma_decimal_prefix_le(d, i + 1 - start);
            }
            return None;
        }
        value = next;
        i = i + 1;
    }
    proof {
        assert(d.subrange(0, n - start) =~= d);
    }
    Some(value as u16)
}

/// Lexicographic order on character sequences, by code point: the order that
/// `String`'s `Ord` gives, since UTF-8 keeps the order of code points.
pub open spec fn lex_lt(a: Seq<char>, b: Seq<char>) -> bool
    decreases a.len(),
{
    if a.len() == 0 {
        b.len() > 0
    } else if b.len() == 0 {
        false
    } else if a[0] != b[0] {
        (a[0] as int) < (b[0] as int)
    } else {
        lex_lt(a.drop_first(), b.drop_first())
    }
}

pub proof fn lemma_lex_irreflexive(a: Seq<char>)
    ensures
        !lex_lt(a, a),
    decreases a.len(),
{
    if a.len() > 0 {
        lemma_lex_irreflexive(a.drop_first());
    }
}

pub proof fn lemma_lex_asymmetric(a: Seq<char>, b: Seq<char>)
    ensures
        lex_lt(a, b) ==> !lex_lt(b, a),
    decreases a.len(),
{
    if a.len() > 0 && b.len() > 0 && a[0] == b[0] {
        lemma_lex_asymmetric(a.drop_first(), b.drop_first());
    }
}

pub proof fn lemma_lex_transitive(a: Seq<char>, b: Seq<char>, c: Seq<char>)
    requires
        lex_lt(a, b),
        lex_lt(b, c),
    ensures
        lex_lt(a, c),
    decreases a.len(),
{
    if a.len() > 0 && b.len() > 0 && c.len() > 0 && a[0] == b[0] && b[0] == c[0] {
        lemma_lex_transitive(a.drop_first(), b.drop_first(), c.drop_first());
    }
}

pub proof fn lemma_lex_total(a: Seq<char>, b: Seq<char>)
    ensures
        a == b || lex_lt(a, b) || lex_lt(b, a),
    decreases a.len(),
{
    if a.len() == 0 || b.len() == 0 {
        if a.len() == 0 && b.len() == 0 {
            assert(a =~= b);
        }
    } else if a[0] == b[0] {
        let a1 = a.drop_first();
        let b1 = b.drop_first();
        lemma_lex_total(a1, b1);
        if a1 == b1 {
            assert forall|i: int| 0 <= i < a.len() implies a[i] == b[i] by {
                if i > 0 {
                    assert(a[i] == a1[i - 1]);
                    assert(b[i] == b1[i - 1]);
                }
            }
            assert(a =~= b);
        }
    } else {
        assert((a[0] as int) != (b[0] as int));
    }
}

proof fn lemma_lex_skip(a: Seq<char>, b: Seq<char>, i: int)
    requires
        0 <= i < a.len(),
        i < b.len(),
        a[i] == b[i],
    ensures
        lex_lt(a.skip(i), b.skip(i)) == lex_lt(a.skip(i + 1), b.skip(i + 1)),
{
    assert(a.skip(i).drop_first() =~= a.skip(i + 1));
    assert(b.skip(i).drop_first() =~= b.skip(i + 1));
}

/// Whether `a` comes strictly before `b` in the order of `String`'s `Ord`.
pub fn str_lt(a: &str, b: &str) -> (r: bool)
    ensures
        r == lex_lt(a@, b@),
{
    let na = a.unicode_len();
    let nb = b.unicode_len();
    let mut i: usize = 0;
    proof {
        assert(a@.skip(0) =~= a@);
        assert(b@.skip(0) =~= b@);
    }
    while i < na && i < nb
        invariant
            na == a@.len(),
            nb == b@.len(),
            i <= na,
            i <= nb,
            lex_lt(a@, b@) == lex_lt(a@.skip(i as int), b@.skip(i as int)),
        decreases na - i,
    {
        let x = a.get_char(i);
        let y = b.get_char(i);
        if x != y {
            assert(a@.skip(i as int)[0] == x);
            assert(b@.skip(i as int)[0] == y);
            return (x as u32) < (y as u32);
        }
        proof {
            lemma_lex_skip(a@, b@, i as int);
        }
        i = i + 1;
    }
    assert(a@.skip(i as int).len() == na - i);
    i == na && i < nb
}

/// `needle` occurs in `hay` at position `i`.
pub open spec fn occurs_at(hay: Seq<char>, needle: Seq<char>, i: int) -> bool {
    0 <= i && i + needle.len() <= hay.len() && hay.subrange(i, i + needle.len()) == needle
}

/// `needle` occurs somewhere in `hay`, as `str::contains` finds it.
pub open spec fn contains_text(hay: Seq<char>, needle: Seq<char>) -> bool {
    exists|i: int| #[trigger] occurs_at(hay, needle, i)
}

/// Whether `needle` occurs in `hay`.
pub fn str_contains(hay: &str, needle: &str) -> (r: bool)
    ensures
        r == contains_text(hay@, needle@),
{
    let n = hay.unicode_len();
    let m = needle.unicode_len();
    if m > n {
        assert forall|i: int| !#[trigger] occurs_at(hay@, needle@, i) by {}
        return false;
    }
    let mut i: usize = 0;
    while i <= n - m
        invariant
            n == hay@.len(),
            m == needle@.len(),
            m <= n,
            i <= n - m + 1,
            forall|j: int| 0 <= j < i ==> !#[trigger] occurs_at(hay@, needle@, j),
        decreases n - m + 1 - i,
    {
        let mut t: usize = 0;
        let mut same = true;
        while t < m
            invariant
                n == hay@.len(),
                m == needle@.len(),
                i + m <= n,
                t <= m,
                same == (forall|u: int| 0 <= u < t ==> hay@[i + u] == needle@[u]),
            decreases m - t,
        {
            if hay.get_char(i + t) != needle.get_char(t) {
                same = false;
            }
            t = t + 1;
        }
        if same {
            assert(hay@.subrange(i as int, i + m) =~= needle@);
            assert(occurs_at(hay@, needle@, i as int));
            return true;
        }
        proof {
            assert(!occurs_at(hay@, needle@, i as int)) by {
                if occurs_at(hay@, needle@, i as int) {
                    let u = choose|u: int| 0 <= u < m && hay@[i + u] != needle@[u];
                    assert(hay@.subrange(i as int, i + m)[u] == hay@[i + u]);
                }
            }
        }
        i = i + 1;
    }
    assert forall|j: int| !#[trigger] occurs_at(hay@, needle@, j) by {
        if 0 <= j && j + m <= n {
            assert(j < i);
        }
    }
    false
}

/// The character of a decimal digit value.
pub open spec fn digit_char(d: nat) -> char {
    if d == 0 { '0' } else if d == 1 { '1' } else if d == 2 { '2' } else if d == 3 { '3' }
    else if d == 4 { '4' } else if d == 5 { '5' } else if d == 6 { '6' } else if d == 7 { '7' }
    else if d == 8 { '8' } else { '9' }
}

/// The decimal text of `n`, as `to_string` writes it: no sign, no leading zeros.
pub open spec fn decimal_text(n: nat) -> Seq<char>
    decreases n,
{
    if n < 10 {
        seq![digit_char(n)]
    } else {
        decimal_text(n / 10).push(digit_char(n % 10))
    }
}

fn digit_str(d: u64) -> (r: &'static str)
    requires
        d < 10,
    ensures
        r@ == seq![digit_char(d as nat)],
{
    let r = if d == 0 { "0" } else if d == 1 { "1" } else if d == 2 { "2" } else if d == 3 { "3" }
        else if d == 4 { "4" } else if d == 5 { "5" } else if d == 6 { "6" } else if d == 7 { "7" }
        else if d == 8 { "8" } else { "9" };
    proof {
        reveal_strlit("0"); reveal_strlit("1"); reveal_strlit("2"); reveal_strlit("3");
        reveal_strlit("4"); reveal_strlit("5"); reveal_strlit("6"); reveal_strlit("7");
        reveal_strlit("8"); reveal_strlit("9");
        assert(r@ =~= seq![digit_char(d as nat)]);
    }
    r
}

/// The decimal text of `n`.
pub fn decimal(n: u64) -> (r: String)
    ensures
        r@ == decimal_text(n as nat),
    decreases n,
{
    if n < 10 {
        String::from_str(digit_str(n))
    } else {
        let head = decimal(n / 10);
        head.concat(digit_str(n % 10))
    }
}

/// The pieces of `s` between line feeds: one more piece than line feeds.
pub open spec fn split_lf(s: Seq<char>) -> Seq<Seq<char>>
    decreases s.len(),
{
    if s.len() == 0 {
        seq![Seq::<char>::empty()]
    } else {
        let p = split_lf(s.drop_last());
        if s.last() == '\n' {
            p.push(Seq::<char>::empty())
        } else {
            p.update(p.len() - 1, p.last().push(s.last()))
        }
    }
}

/// A line without its trailing carriage return, if it has one.
pub open spec fn strip_cr(l: Seq<char>) -> Seq<char> {
    if l.len() > 0 && l.last() == '\r' { l.drop_last() } else { l }
}

/// The lines of `s`, as `str::lines` yields them: split at line feeds, a
/// carriage return before a line feed dropped, and no empty last line after a
/// final line feed.
pub open spec fn lines_of(s: Seq<char>) -> Seq<Seq<char>> {
    let p = split_lf(s);
    let n = p.len() as int;
    Seq::new(
        (if p.last().len() == 0 { n - 1 } else { n }) as nat,
        |i: int| if i < n - 1 { strip_cr(p[i]) } else { p[i] },
    )
}

proof fn lemma_split_lf_nonempty(s: Seq<char>)
    ensures
        split_lf(s).len() >= 1,
    decreases s.len(),
{
    if s.len() > 0 {
        lemma_split_lf_nonempty(s.drop_last());
    }
}

/// Splitting a prefix: the pieces of `s[..k+1]` from those of `s[..k]`.
proof fn lemma_split_lf_step(s: Seq<char>, k: int)
    requires
        0 <= k < s.len(),
    ensures
        split_lf(s.subrange(0, k + 1)) == (if s[k] == '\n' {
            split_lf(s.subrange(0, k)).push(Seq::<char>::empty())
        } else {
            split_lf(s.subrange(0, k)).update(
                split_lf(s.subrange(0, k)).len() - 1,
                split_lf(s.subrange(0, k)).last().push(s[k]),
            )
        }),
{
    assert(s.subrange(0, k + 1).drop_last() =~= s.subrange(0, k));
}

/// The lines of `s`, as `str::lines` yields them.
pub fn text_lines(s: &str) -> (r: Vec<String>)
    ensures
        r@.len() == lines_of(s@).len(),
        forall|i: int| 0 <= i < r@.len() ==> #[trigger] r@[i]@ == lines_of(s@)[i],
{
    let n = s.unicode_len();
    let mut done: Vec<String> = Vec::new();
    let mut start: usize = 0;
    let mut k: usize = 0;
    proof {
        assert(s@.subrange(0, 0) =~= Seq::<char>::empty());
    }
    while k < n
        invariant
            n == s@.len(),
            start <= k <= n,
            split_lf(s@.subrange(0, k as int)).len() == done@.len() + 1,
            forall|i: int| 0 <= i < done@.len() ==> #[trigger] done@[i]@ == strip_cr(split_lf(s@.subrange(0, k as int))[i]),
            split_lf(s@.subrange(0, k as int)).last() == s@.subrange(start as int, k as int),
        decreases n - k,
    {
        let c = s.get_char(k);
        proof {
            lemma_split_lf_step(s@, k as int);
            lemma_split_lf_nonempty(s@.subrange(0, k as int));
        }
        if c == '\n' {
            let piece = s.substring_char(start, k);
            let mut line = String::from_str(piece);
            if k > start && s.get_char(k - 1) == '\r' {
                line = String::from_str(s.substring_char(start, k - 1));
                assert(piece@.last() == '\r');
                assert(s@.subrange(start as int, k - 1) =~= piece@.drop_last());
            }
            done.push(line);
            start = k + 1;
            proof {
                assert(s@.subrange(start as int, k + 1) =~= Seq::<char>::empty());
            }
        } else {
            proof {
                assert(s@.subrange(start as int, k + 1) =~= s@.subrange(start as int, k as int).push(c));
            }
        }
        k = k + 1;
    }
    proof {
        assert(s@.subrange(0, n as int) =~= s@);
    }
    let ghost p = split_lf(s@);
    if start < n {
        done.push(String::from_str(s.substring_char(start, n)));
    }
    proof {
        lemma_split_lf_nonempty(s@);
        assert forall|i: int| 0 <= i < done@.len() implies #[trigger] done@[i]@ == lines_of(s@)[i] by {
            if i < p.len() - 1 {
            } else {
                assert(start < n);
            }
        }
    }
    done
}

} // verus!

//! Character-level text utilities: splitting, tokenizing, trimming and
//! reading decimal digits, each stated over `Seq<char>` views.

use vstd::prelude::*;

verus! {

/// Whitespace as the package manager's column separators use it.
pub open spec fn is_wspace(c: char) -> bool {
    c == ' ' || c == '\t' || c == '\r'
}

fn wspace(c: char) -> (r: bool)
    ensures
        r == is_wspace(c),
{
    c == ' ' || c == '\t' || c == '\r'
}

/// The predicate holding exactly on one separator character.
pub open spec fn sep_pred(sep: char) -> spec_fn(char) -> bool {
    |c: char| c == sep
}

/// The predicate holding on whitespace.
pub open spec fn ws_pred() -> spec_fn(char) -> bool {
    |c: char| is_wspace(c)
}

/// The predicate holding on non-empty character sequences.
pub open spec fn nonempty_pred() -> spec_fn(Seq<char>) -> bool {
    |t: Seq<char>| t.len() != 0
}

/// Split `s` at every separator character (those satisfying `p`); the
/// separators themselves are dropped.  There is always at least one part,
/// and empty parts are kept.
pub open spec fn split_by(s: Seq<char>, p: spec_fn(char) -> bool) -> Seq<Seq<char>>
    decreases s.len(),
{
    if s.len() == 0 {
        seq![Seq::<char>::empty()]
    } else if p(s[0]) {
        seq![Seq::<char>::empty()] + split_by(s.drop_first(), p)
    } else {
        let rest = split_by(s.drop_first(), p);
        seq![seq![s[0]] + rest[0]] + rest.drop_first()
    }
}

pub proof fn lemma_split_by_nonempty(s: Seq<char>, p: spec_fn(char) -> bool)
    ensures
        split_by(s, p).len() >= 1,
    decreases s.len(),
{
    if s.len() != 0 && !p(s[0]) {
        lemma_split_by_nonempty(s.drop_first(), p);
    }
}

/// Appending one character extends the last part, or starts a new empty one.
pub proof fn lemma_split_by_push(s: Seq<char>, c: char, p: spec_fn(char) -> bool)
    ensures
        p(c) ==> split_by(s.push(c), p) == split_by(s, p).push(Seq::<char>::empty()),
        !p(c) ==> split_by(s.push(c), p) == split_by(s, p).update(
            split_by(s, p).len() - 1,
            split_by(s, p).last().push(c),
        ),
    decreases s.len(),
{
    reveal_with_fuel(split_by, 3);
    lemma_split_by_nonempty(s, p);
    if s.len() == 0 {
        assert(s.push(c).len() == 1);
        assert(s.push(c)[0] == c);
        assert(s.push(c).drop_first() =~= Seq::<char>::empty());
        if p(c) {
            assert(split_by(s.push(c), p) =~= split_by(s, p).push(Seq::<char>::empty()));
        } else {
            assert(split_by(s.push(c), p) =~= split_by(s, p).update(0, seq![c]));
            assert(split_by(s, p).last().push(c) =~= seq![c]);
        }
    } else {
        let t = s.drop_first();
        assert(s.push(c).drop_first() =~= t.push(c));
        assert(s.push(c)[0] == s[0]);
        lemma_split_by_push(t, c, p);
        lemma_split_by_nonempty(t, p);
        let rt = split_by(t, p);
        let rtc = split_by(t.push(c), p);
        if p(s[0]) {
            if p(c) {
                assert(split_by(s.push(c), p) =~= split_by(s, p).push(Seq::<char>::empty()));
            } else {
                assert(split_by(s, p).last() == rt.last());
                assert(split_by(s.push(c), p) =~= split_by(s, p).update(
                    split_by(s, p).len() - 1,
                    split_by(s, p).last().push(c),
                ));
            }
        } else {
            if p(c) {
                assert(rtc[0] == rt[0]);
                assert(rtc.drop_first() =~= rt.drop_first().push(Seq::<char>::empty()));
                assert(split_by(s.push(c), p) =~= split_by(s, p).push(Seq::<char>::empty()));
            } else {
                if rt.len() == 1 {
                    assert(rtc =~= seq![rt[0].push(c)]);
                    assert(rtc[0] == rt[0].push(c));
                    assert(split_by(s, p).last() =~= seq![s[0]] + rt[0]);
                    assert((seq![s[0]] + rt[0]).push(c) =~= seq![s[0]] + rt[0].push(c));
                    assert(split_by(s.push(c), p) =~= split_by(s, p).update(
                        split_by(s, p).len() - 1,
                        split_by(s, p).last().push(c),
                    ));
                } else {
                    assert(rtc[0] == rt.update(rt.len() - 1, rt.last().push(c))[0]);
                    assert(rtc[0] == rt[0]);
                    assert(rtc.drop_first() =~= rt.drop_first().update(
                        rt.drop_first().len() - 1,
                        rt.drop_first().last().push(c),
                    ));
                    assert(split_by(s, p).last() == rt.last());
                    assert(split_by(s.push(c), p) =~= split_by(s, p).update(
                        split_by(s, p).len() - 1,
                        split_by(s, p).last().push(c),
                    ));
                }
            }
        }
    }
}

/// The views of a vector of owned strings.
pub open spec fn views_of(v: Seq<String>) -> Seq<Seq<char>> {
    v.map_values(|t: String| t@)
}

/// Split on one separator character.
pub open spec fn split_char(s: Seq<char>, sep: char) -> Seq<Seq<char>> {
    split_by(s, sep_pred(sep))
}

/// Splits `s` at every occurrence of `sep`, keeping empty parts.
#[verifier::loop_isolation(false)]
pub fn split_str(s: &str, sep: char) -> (parts: Vec<String>)
    ensures
        views_of(parts@) == split_char(s@, sep),
{
    let ghost p = sep_pred(sep);
    let n = s.unicode_len();
    let mut parts: Vec<String> = Vec::new();
    let mut start: usize = 0;
    let mut i: usize = 0;
    proof {
        assert(s@.subrange(0, 0) =~= Seq::<char>::empty());
        assert(views_of(parts@).push(s@.subrange(0, 0)) =~= split_by(s@.subrange(0, 0), p));
    }
    while i < n
        invariant
            start <= i <= n,
            n == s@.len(),
            views_of(parts@).push(s@.subrange(start as int, i as int)) == split_by(
                s@.subrange(0, i as int),
                sep_pred(sep),
            ),
        decreases n - i,
    {
        let ghost pre = split_by(s@.subrange(0, i as int), p);
        let ghost cur = s@.subrange(start as int, i as int);
        let ghost old_parts = parts@;
        let c = s.get_char(i);
        proof {
            assert(s@.subrange(0, i + 1) =~= s@.subrange(0, i as int).push(s@[i as int]));
            lemma_split_by_push(s@.subrange(0, i as int), c, p);
            lemma_split_by_nonempty(s@.subrange(0, i as int), p);
            assert(pre == views_of(old_parts).push(cur));
            assert(pre.last() == cur);
        }
        if c == sep {
            let part = s.substring_char(start, i).to_owned();
            parts.push(part);
            start = i + 1;
            proof {
                assert(s@.subrange(start as int, i + 1) =~= Seq::<char>::empty());
                assert(views_of(parts@) =~= views_of(old_parts).push(cur));
                assert(views_of(parts@).push(s@.subrange(start as int, i + 1)) =~= pre.push(
                    Seq::<char>::empty(),
                ));
            }
        } else {
            proof {
                assert(s@.subrange(start as int, i + 1) =~= cur.push(s@[i as int]));
                assert(views_of(parts@).push(s@.subrange(start as int, i + 1)) =~= pre.update(
                    pre.len() - 1,
                    pre.last().push(s@[i as int]),
                ));
            }
        }
        i = i + 1;
    }
    let ghost done = parts@;
    let last = s.substring_char(start, n).to_owned();
    parts.push(last);
    proof {
        assert(s@.subrange(0, n as int) =~= s@);
        assert(views_of(parts@) =~= views_of(done).push(s@.subrange(start as int, n as int)));
    }
    parts
}

/// Splits `s` at every whitespace character, keeping empty parts.
#[verifier::loop_isolation(false)]
pub fn split_wspace(s: &str) -> (parts: Vec<String>)
    ensures
        views_of(parts@) == split_by(s@, ws_pred()),
{
    let ghost p = ws_pred();
    let n = s.unicode_len();
    let mut parts: Vec<String> = Vec::new();
    let mut start: usize = 0;
    let mut i: usize = 0;
    proof {
        assert(s@.subrange(0, 0) =~= Seq::<char>::empty());
        assert(views_of(parts@).push(s@.subrange(0, 0)) =~= split_by(s@.subrange(0, 0), p));
    }
    while i < n
        invariant
            start <= i <= n,
            n == s@.len(),
            views_of(parts@).push(s@.subrange(start as int, i as int)) == split_by(
                s@.subrange(0, i as int),
                ws_pred(),
            ),
        decreases n - i,
    {
        let ghost pre = split_by(s@.subrange(0, i as int), p);
        let ghost cur = s@.subrange(start as int, i as int);
        let ghost old_parts = parts@;
        let c = s.get_char(i);
        proof {
            assert(s@.subrange(0, i + 1) =~= s@.subrange(0, i as int).push(s@[i as int]));
            lemma_split_by_push(s@.subrange(0, i as int), c, p);
            lemma_split_by_nonempty(s@.subrange(0, i as int), p);
            assert(pre == views_of(old_parts).push(cur));
            assert(pre.last() == cur);
        }
        if wspace(c) {
            let part = s.substring_char(start, i).to_owned();
            parts.push(part);
            start = i + 1;
            proof {
                assert(s@.subrange(start as int, i + 1) =~= Seq::<char>::empty());
                assert(views_of(parts@) =~= views_of(old_parts).push(cur));
                assert(views_of(parts@).push(s@.subrange(start as int, i + 1)) =~= pre.push(
                    Seq::<char>::empty(),
                ));
            }
        } else {
            proof {
                assert(s@.subrange(start as int, i + 1) =~= cur.push(s@[i as int]));
                assert(views_of(parts@).push(s@.subrange(start as int, i + 1)) =~= pre.update(
                    pre.len() - 1,
                    pre.last().push(s@[i as int]),
                ));
            }
        }
        i = i + 1;
    }
    let ghost done = parts@;
    let last = s.substring_char(start, n).to_owned();
    parts.push(last);
    proof {
        assert(s@.subrange(0, n as int) =~= s@);
        assert(views_of(parts@) =~= views_of(done).push(s@.subrange(start as int, n as int)));
    }
    parts
}

/// The whitespace-separated tokens of `s`, in order, without empties.
pub open spec fn tokens_of(s: Seq<char>) -> Seq<Seq<char>> {
    split_by(s, ws_pred()).filter(nonempty_pred())
}

/// Splits `s` into its whitespace-separated tokens.
#[verifier::loop_isolation(false)]
pub fn tokenize(s: &str) -> (toks: Vec<String>)
    ensures
        views_of(toks@) == tokens_of(s@),
{
    let raw = split_wspace(s);
    let mut toks: Vec<String> = Vec::new();
    let mut i: usize = 0;
    proof {
        reveal(Seq::filter);
        assert(views_of(raw@).subrange(0, 0) =~= Seq::<Seq<char>>::empty());
        assert(views_of(toks@) =~= views_of(raw@).subrange(0, 0).filter(nonempty_pred()));
    }
    while i < raw.len()
        invariant
            i <= raw.len(),
            views_of(raw@) == split_by(s@, ws_pred()),
            views_of(toks@) == views_of(raw@).subrange(0, i as int).filter(nonempty_pred()),
        decreases raw.len() - i,
    {
        proof {
            reveal(Seq::filter);
            assert(views_of(raw@).subrange(0, i + 1).drop_last() =~= views_of(raw@).subrange(
                0,
                i as int,
            ));
            assert(views_of(raw@).subrange(0, i + 1).last() == raw@[i as int]@);
        }
        if raw[i].as_str().unicode_len() != 0 {
            toks.push(raw[i].clone());
            proof {
                assert(views_of(toks@) =~= views_of(toks@.drop_last()).push(raw@[i as int]@));
            }
        }
        i = i + 1;
    }
    proof {
        assert(views_of(raw@).subrange(0, raw@.len() as int) =~= views_of(raw@));
    }
    toks
}

/// `s` begins with `pre`.
pub open spec fn has_prefix(s: Seq<char>, pre: Seq<char>) -> bool {
    pre.len() <= s.len() && s.subrange(0, pre.len() as int) == pre
}

/// Character-by-character prefix test.
#[verifier::loop_isolation(false)]
pub fn str_starts_with(s: &str, pre: &str) -> (r: bool)
    ensures
        r == has_prefix(s@, pre@),
{
    let n = s.unicode_len();
    let m = pre.unicode_len();
    if m > n {
        return false;
    }
    let mut i: usize = 0;
    while i < m
        invariant
            i <= m <= n,
            n == s@.len(),
            m == pre@.len(),
            forall|j: int| 0 <= j < i ==> s@[j] == pre@[j],
        decreases m - i,
    {
        if s.get_char(i) != pre.get_char(i) {
            proof {
                assert(s@.subrange(0, m as int)[i as int] != pre@[i as int]);
            }
            return false;
        }
        i = i + 1;
    }
    proof {
        assert(s@.subrange(0, m as int) =~= pre@);
    }
    true
}

/// Character-by-character equality of two string slices.
#[verifier::loop_isolation(false)]
pub fn str_eq(a: &str, b: &str) -> (r: bool)
    ensures
        r == (a@ == b@),
{
    let n = a.unicode_len();
    let m = b.unicode_len();
    if n != m {
        return false;
    }
    let mut i: usize = 0;
    while i < n
        invariant
            i <= n,
            n == a@.len(),
            n == b@.len(),
            forall|j: int| 0 <= j < i ==> a@[j] == b@[j],
        decreases n - i,
    {
        if a.get_char(i) != b.get_char(i) {
            return false;
        }
        i = i + 1;
    }
    proof {
        assert(a@ =~= b@);
    }
    true
}

/// `s` without leading whitespace.
pub open spec fn trim_start_rec(s: Seq<char>) -> Seq<char>
    decreases s.len(),
{
    if s.len() > 0 && is_wspace(s[0]) {
        trim_start_rec(s.drop_first())
    } else {
        s
    }
}

/// `s` without trailing whitespace.
pub open spec fn trim_end_rec(s: Seq<char>) -> Seq<char>
    decreases s.len(),
{
    if s.len() > 0 && is_wspace(s.last()) {
        trim_end_rec(s.drop_last())
    } else {
        s
    }
}

/// `s` without leading and trailing whitespace.
pub open spec fn trimmed(s: Seq<char>) -> Seq<char> {
    trim_end_rec(trim_start_rec(s))
}

/// Removes leading and trailing whitespace.
#[verifier::loop_isolation(false)]
pub fn trim_str(s: &str) -> (r: String)
    ensures
        r@ == trimmed(s@),
{
    let n = s.unicode_len();
    let mut a: usize = 0;
    proof {
        assert(s@.subrange(0, n as int) =~= s@);
    }
    while a < n && wspace(s.get_char(a))
        invariant
            a <= n,
            n == s@.len(),
            trim_start_rec(s@) == trim_start_rec(s@.subrange(a as int, n as int)),
        decreases n - a,
    {
        proof {
            assert(s@.subrange(a as int, n as int)[0] == s@[a as int]);
            assert(s@.subrange(a as int, n as int).drop_first() =~= s@.subrange(a + 1, n as int));
        }
        a = a + 1;
    }
    proof {
        assert(trim_start_rec(s@) == s@.subrange(a as int, n as int));
    }
    let mut b: usize = n;
    while b > a && wspace(s.get_char(b - 1))
        invariant
            a <= b <= n,
            n == s@.len(),
            trim_start_rec(s@) == s@.subrange(a as int, n as int),
            trim_end_rec(s@.subrange(a as int, n as int)) == trim_end_rec(
                s@.subrange(a as int, b as int),
            ),
        decreases b,
    {
        proof {
            assert(s@.subrange(a as int, b as int).last() == s@[b - 1]);
            assert(s@.subrange(a as int, b as int).drop_last() =~= s@.subrange(a as int, b - 1));
        }
        b = b - 1;
    }
    proof {
        assert(trim_end_rec(s@.subrange(a as int, b as int)) == s@.subrange(a as int, b as int));
    }
    s.substring_char(a, b).to_owned()
}

/// A decimal digit.
pub open spec fn is_digit(c: char) -> bool {
    '0' <= c && c <= '9'
}

pub open spec fn all_digits(s: Seq<char>) -> bool {
    forall|i: int| 0 <= i < s.len() ==> is_digit(s[i])
}

pub open spec fn digit_val(c: char) -> nat {
    (c as nat - '0' as nat) as nat
}

/// The value of a digit string, capped at `u64::MAX` once it no longer fits.
pub open spec fn digits_value_sat(s: Seq<char>) -> nat
    decreases s.len(),
{
    if s.len() == 0 {
        0
    } else {
        let x = digits_value_sat(s.drop_last()) * 10 + digit_val(s.last());
        if x > u64::MAX {
            u64::MAX as nat
        } else {
            x
        }
    }
}

/// The numeric reading of a token: a non-empty all-digit token reads as its
/// (capped) decimal value, anything else as zero.
pub open spec fn numeric_value(t: Seq<char>) -> nat {
    if t.len() > 0 && all_digits(t) {
        digits_value_sat(t)
    } else {
        0
    }
}

/// Reads a token as a decimal number, returning 0 for anything that is not
/// all digits and capping at `u64::MAX`.
#[verifier::loop_isolation(false)]
pub fn parse_decimal(t: &str) -> (r: u64)
    ensures
        r == numeric_value(t@),
{
    let n = t.unicode_len();
    if n == 0 {
        return 0;
    }
    let mut v: u64 = 0;
    let mut i: usize = 0;
    proof {
        assert(t@.subrange(0, 0) =~= Seq::<char>::empty());
    }
    while i < n
        invariant
            i <= n,
            n == t@.len(),
            all_digits(t@.subrange(0, i as int)),
            v == digits_value_sat(t@.subrange(0, i as int)),
        decreases n - i,
    {
        let c = t.get_char(i);
        if !('0' <= c && c <= '9') {
            proof {
                assert(!is_digit(t@[i as int]));
            }
            return 0;
        }
        let d: u64 = (c as u32 - '0' as u32) as u64;
        proof {
            assert(t@.subrange(0, i + 1).drop_last() =~= t@.subrange(0, i as int));
            assert(t@.subrange(0, i + 1).last() == t@[i as int]);
            assert(d == digit_val(t@[i as int]));
            assert(all_digits(t@.subrange(0, i + 1)));
        }
        if v > (u64::MAX - d) / 10 {
            proof {
                assert(v * 10 + d > u64::MAX) by (nonlinear_arith)
                    requires
                        v > (u64::MAX - d) / 10,
                        d <= 9,
                ;
            }
            v = u64::MAX;
        } else {
            proof {
                assert(v * 10 + d <= u64::MAX) by (nonlinear_arith)
                    requires
                        v <= (u64::MAX - d) / 10,
                        d <= 9,
                ;
            }
            v = v * 10 + d;
        }
        i = i + 1;
    }
    proof {
        assert(t@.subrange(0, n as int) =~= t@);
    }
    v
}

/// Relies on String::push: appends exactly one character.
#[verifier::external_body]
pub fn push_char(s: &mut String, c: char)
    ensures
        final(s)@ == old(s)@.push(c),
{
    s.push(c);
}

/// How many times `sep` occurs in `s`.
pub open spec fn count_sep(s: Seq<char>, sep: char) -> nat
    decreases s.len(),
{
    if s.len() == 0 {
        0
    } else if s[0] == sep {
        1 + count_sep(s.drop_first(), sep)
    } else {
        count_sep(s.drop_first(), sep)
    }
}

/// Splitting yields one part more than there are separators.
pub proof fn lemma_split_count(s: Seq<char>, sep: char)
    ensures
        split_char(s, sep).len() == count_sep(s, sep) + 1,
    decreases s.len(),
{
    if s.len() != 0 {
        lemma_split_count(s.drop_first(), sep);
        lemma_split_by_nonempty(s.drop_first(), sep_pred(sep));
    }
}

/// Joins parts with a separator character, undoing a `split_char`.
pub open spec fn join_char(parts: Seq<Seq<char>>, sep: char) -> Seq<char>
    decreases parts.len(),
{
    if parts.len() == 0 {
        Seq::empty()
    } else if parts.len() == 1 {
        parts[0]
    } else {
        parts[0] + seq![sep] + join_char(parts.drop_first(), sep)
    }
}

/// Splitting and rejoining with the same separator restores the string.
pub proof fn lemma_join_split(s: Seq<char>, sep: char)
    ensures
        join_char(split_char(s, sep), sep) == s,
    decreases s.len(),
{
    reveal_with_fuel(split_by, 2);
    reveal_with_fuel(join_char, 2);
    let p = sep_pred(sep);
    if s.len() == 0 {
        assert(split_by(s, p) =~= seq![Seq::<char>::empty()]);
        assert(join_char(split_char(s, sep), sep) =~= s);
    } else {
        let t = s.drop_first();
        lemma_join_split(t, sep);
        lemma_split_by_nonempty(t, p);
        let r = split_by(t, p);
        assert(s =~= seq![s[0]] + t);
        if p(s[0]) {
            assert(split_by(s, p) == seq![Seq::<char>::empty()] + r);
            assert(split_by(s, p).len() >= 2);
            assert(split_by(s, p)[0] =~= Seq::<char>::empty());
            assert(split_by(s, p).drop_first() =~= r);
            assert(join_char(split_by(s, p), sep) =~= Seq::<char>::empty() + seq![sep]
                + join_char(r, sep));
            assert(s[0] == sep);
            assert(join_char(split_char(s, sep), sep) =~= s);
        } else {
            if r.len() == 1 {
                assert(split_by(s, p) =~= seq![seq![s[0]] + r[0]]);
                assert(join_char(split_by(s, p), sep) == seq![s[0]] + r[0]);
                assert(join_char(r, sep) == r[0]);
                assert(join_char(split_char(s, sep), sep) =~= s);
            } else {
                assert(split_by(s, p)[0] == seq![s[0]] + r[0]);
                assert(split_by(s, p).drop_first() =~= r.drop_first());
                assert(split_by(s, p).len() >= 2);
                assert(join_char(split_by(s, p), sep) =~= seq![s[0]] + r[0] + seq![sep]
                    + join_char(r.drop_first(), sep));
                assert(join_char(r, sep) =~= r[0] + seq![sep] + join_char(r.drop_first(), sep));
                assert(join_char(split_char(s, sep), sep) =~= s);
            }
        }
    }
}

} // verus!

//! Text helpers shared by the event router and the Twitch client:
//! string equality, infix search, joining and decimal rendering.

use vstd::prelude::*;

verus! {

/// Character of a single decimal digit.
pub open spec fn digit_char(d: int) -> char {
    seq!['0', '1', '2', '3', '4', '5', '6', '7', '8', '9'][d]
}

/// Decimal rendering of a natural number, most significant digit first,
/// without leading zeros (zero renders as "0").
pub open spec fn decimal(n: nat) -> Seq<char>
    decreases n,
{
    if n < 10 {
        seq![digit_char(n as int)]
    } else {
        decimal(n / 10).push(digit_char((n % 10) as int))
    }
}

/// A character that is a decimal digit.
pub open spec fn is_digit(c: char) -> bool {
    '0' <= c && c <= '9'
}

proof fn lemma_digit_char(d: int)
    requires
        0 <= d < 10,
    ensures
        is_digit(digit_char(d)),
        forall|e: int| 0 <= e < 10 && digit_char(e) == digit_char(d) ==> e == d,
{
    let ds = seq!['0', '1', '2', '3', '4', '5', '6', '7', '8', '9'];
    assert(ds[0] == '0' && ds[1] == '1' && ds[2] == '2' && ds[3] == '3' && ds[4] == '4');
    assert(ds[5] == '5' && ds[6] == '6' && ds[7] == '7' && ds[8] == '8' && ds[9] == '9');
}

/// Decimal text is never empty, is made of digits only, and has at least
/// two digits from ten on.
pub proof fn decimal_is_digits(n: nat)
    ensures
        decimal(n).len() >= 1,
        n >= 10 ==> decimal(n).len() >= 2,
        forall|i: int| 0 <= i < decimal(n).len() ==> is_digit(#[trigger] decimal(n)[i]),
    decreases n,
{
    lemma_digit_char((n % 10) as int);
    if n >= 10 {
        decimal_is_digits(n / 10);
        let p = decimal(n / 10);
        assert forall|i: int| 0 <= i < decimal(n).len() implies is_digit(#[trigger] decimal(n)[i]) by {
            if i < p.len() {
                assert(decimal(n)[i] == p[i]);
            }
        }
    }
}

/// Different numbers have different decimal texts.
pub proof fn decimal_is_injective(a: nat, b: nat)
    ensures
        decimal(a) == decimal(b) ==> a == b,
    decreases a,
{
    if decimal(a) == decimal(b) {
        decimal_is_digits(a);
        decimal_is_digits(b);
        lemma_digit_char((a % 10) as int);
        lemma_digit_char((b % 10) as int);
        if a < 10 && b < 10 {
            assert(decimal(a)[0] == digit_char(a as int));
            assert(decimal(b)[0] == digit_char(b as int));
        } else if a >= 10 && b >= 10 {
            let da = decimal(a / 10);
            let db = decimal(b / 10);
            assert(decimal(a).drop_last() =~= da);
            assert(decimal(b).drop_last() =~= db);
            assert(decimal(a).last() == digit_char((a % 10) as int));
            assert(decimal(b).last() == digit_char((b % 10) as int));
            decimal_is_injective(a / 10, b / 10);
        }
    }
}

/// `pat` occurs somewhere inside `s`.
pub open spec fn has_infix(s: Seq<char>, pat: Seq<char>) -> bool {
    exists|i: int| 0 <= i && i + pat.len() <= s.len() && #[trigger] s.subrange(i, i + pat.len()) == pat
}

/// `parts` joined by `sep`: no separator before the first part or after the last one.
pub open spec fn joined(parts: Seq<Seq<char>>, sep: Seq<char>) -> Seq<char>
    decreases parts.len(),
{
    if parts.len() == 0 {
        Seq::empty()
    } else if parts.len() == 1 {
        parts[0]
    } else {
        joined(parts.drop_last(), sep) + sep + parts.last()
    }
}

/// Text of each string slice in a list.
pub open spec fn strs_view(v: Seq<&str>) -> Seq<Seq<char>> {
    v.map_values(|s: &str| s@)
}

/// Rendering of a boolean as Rust's `Display` writes it.
pub open spec fn bool_text(b: bool) -> Seq<char> {
    if b {
        seq!['t', 'r', 'u', 'e']
    } else {
        seq!['f', 'a', 'l', 's', 'e']
    }
}

/// Total length of a list of texts.
pub open spec fn total_len(parts: Seq<Seq<char>>) -> int
    decreases parts.len(),
{
    if parts.len() == 0 {
        0
    } else {
        total_len(parts.drop_last()) + parts.last().len()
    }
}

/// Joining keeps every part: each part occurs in the joined text.
pub proof fn joined_holds_every_part(parts: Seq<Seq<char>>, sep: Seq<char>, i: int)
    requires
        0 <= i < parts.len(),
    ensures
        has_infix(joined(parts, sep), parts[i]),
    decreases parts.len(),
{
    let j = joined(parts, sep);
    let p = parts[i];
    if parts.len() == 1 {
        assert(j == p);
        assert(j.subrange(0, 0int + p.len()) =~= p);
        assert(has_infix(j, p));
    } else {
        let d = parts.drop_last();
        let jd = joined(d, sep);
        assert(j == jd + sep + parts.last());
        if i == parts.len() - 1 {
            let k = j.len() - p.len();
            assert(j.subrange(k, k + p.len()) =~= p);
            assert(has_infix(j, p));
        } else {
            assert(d[i] == p);
            joined_holds_every_part(d, sep, i);
            let k = choose|k: int| 0 <= k && k + p.len() <= jd.len() && #[trigger] jd.subrange(k, k + p.len()) == p;
            assert(j.subrange(k, k + p.len()) =~= jd.subrange(k, k + p.len()));
            assert(has_infix(j, p));
        }
    }
}

/// A joined text is as long as its parts together plus one separator
/// between each two neighbouring parts.
pub proof fn joined_length(parts: Seq<Seq<char>>, sep: Seq<char>)
    requires
        parts.len() > 0,
    ensures
        joined(parts, sep).len() == total_len(parts) + (parts.len() - 1) * sep.len(),
    decreases parts.len(),
{
    reveal_with_fuel(total_len, 2);
    if parts.len() == 1 {
        assert(parts.drop_last().len() == 0);
        assert(total_len(parts) == parts[0].len());
    } else {
        let d = parts.drop_last();
        joined_length(d, sep);
        let n = parts.len() as int;
        let k = sep.len() as int;
        assert(d.len() == n - 1);
        assert(joined(parts, sep).len() == joined(d, sep).len() + k + parts.last().len());
        assert(total_len(parts) == total_len(d) + parts.last().len());
        assert((n - 2) * k + k == (n - 1) * k) by (nonlinear_arith);
    }
}

/// Joining keeps the parts in order: the text joined from a list is the text
/// joined from its first `k` parts, a separator, and the text joined from
/// the rest.
pub proof fn joined_splits(parts: Seq<Seq<char>>, sep: Seq<char>, k: int)
    requires
        0 < k < parts.len(),
    ensures
        joined(parts, sep) == joined(parts.take(k), sep) + sep + joined(parts.skip(k), sep),
    decreases parts.len(),
{
    let d = parts.drop_last();
    if k == parts.len() - 1 {
        assert(parts.take(k) =~= d);
        assert(parts.skip(k) =~= seq![parts.last()]);
    } else {
        joined_splits(d, sep, k);
        assert(d.take(k) =~= parts.take(k));
        let r = parts.skip(k);
        assert(r.drop_last() =~= d.skip(k));
        assert(r.last() == parts.last());
        assert(joined(r, sep) == joined(d.skip(k), sep) + sep + parts.last());
        assert(joined(parts, sep) =~= joined(parts.take(k), sep) + sep + joined(r, sep));
    }
}

/// Whether two string slices hold the same characters.
pub fn str_equal(a: &str, b: &str) -> (r: bool)
    ensures
        r == (a@ == b@),
{
    let x = String::from_str(a);
    let y = String::from_str(b);
    x == y
}

fn digit_str(d: u32) -> (s: &'static str)
    requires
        d < 10,
    ensures
        s@ == seq![digit_char(d as int)],
{
    proof {
        reveal_strlit("0");
        reveal_strlit("1");
        reveal_strlit("2");
        reveal_strlit("3");
        reveal_strlit("4");
        reveal_strlit("5");
        reveal_strlit("6");
        reveal_strlit("7");
        reveal_strlit("8");
        reveal_strlit("9");
    }
    let s = if d == 0 {
        "0"
    } else if d == 1 {
        "1"
    } else if d == 2 {
        "2"
    } else if d == 3 {
        "3"
    } else if d == 4 {
        "4"
    } else if d == 5 {
        "5"
    } else if d == 6 {
        "6"
    } else if d == 7 {
        "7"
    } else if d == 8 {
        "8"
    } else {
        "9"
    };
    assert(s@ =~= seq![digit_char(d as int)]);
    s
}

/// Decimal text of an unsigned number, as `to_string` renders it.
pub fn u32_to_decimal(n: u32) -> (s: String)
    ensures
        s@ == decimal(n as nat),
    decreases n,
{
    if n < 10 {
        String::from_str(digit_str(n))
    } else {
        let mut s = u32_to_decimal(n / 10);
        s.append(digit_str(n % 10));
        s
    }
}

/// Decimal text of a byte-sized number.
pub fn u8_to_decimal(n: u8) -> (s: String)
    ensures
        s@ == decimal(n as nat),
{
    u32_to_decimal(n as u32)
}

/// Text of a boolean.
pub fn bool_to_text(b: bool) -> (s: String)
    ensures
        s@ == bool_text(b),
{
    proof {
        reveal_strlit("true");
        reveal_strlit("false");
    }
    let t = if b {
        "true"
    } else {
        "false"
    };
    assert(t@ =~= bool_text(b));
    String::from_str(t)
}

/// Whether `pat` occurs inside `s`.
pub fn contains_str(s: &str, pat: &str) -> (r: bool)
    ensures
        r == has_infix(s@, pat@),
{
    let n = s.unicode_len();
    let m = pat.unicode_len();
    if m > n {
        assert forall|i: int| 0 <= i && i + pat@.len() <= s@.len() implies #[trigger] s@.subrange(
            i,
            i + pat@.len(),
        ) != pat@ by {}
        return false;
    }
    let mut i: usize = 0;
    while i <= n - m
        invariant
            n == s@.len(),
            m == pat@.len(),
            m <= n,
            i <= n - m + 1,
            forall|k: int| 0 <= k < i ==> #[trigger] s@.subrange(k, k + m) != pat@,
        decreases n - m + 1 - i,
    {
        let mut j: usize = 0;
        let mut same = true;
        while j < m
            invariant
                n == s@.len(),
                m == pat@.len(),
                i + m <= n,
                j <= m,
                same == (forall|l: int| 0 <= l < j ==> s@[i + l] == pat@[l]),
            decreases m - j,
        {
            if s.get_char(i + j) != pat.get_char(j) {
                same = false;
            }
            j = j + 1;
        }
        if same {
            assert(s@.subrange(i as int, i + m) =~= pat@);
            return true;
        }
        assert(s@.subrange(i as int, i + m) != pat@) by {
            let l = choose|l: int| 0 <= l < m && s@[i + l] != pat@[l];
            assert(s@.subrange(i as int, i + m)[l] == s@[i + l]);
        }
        i = i + 1;
    }
    proof {
        assert forall|k: int| 0 <= k && k + pat@.len() <= s@.len() implies #[trigger] s@.subrange(
            k,
            k + pat@.len(),
        ) != pat@ by {}
    }
    false
}

/// Joins string slices with a separator.
pub fn join_strs(parts: &Vec<&str>, sep: &str) -> (r: String)
    ensures
        r@ == joined(strs_view(parts@), sep@),
{
    let mut r = String::new();
    let n = parts.len();
    let mut i: usize = 0;
    assert(strs_view(parts@).take(0) =~= Seq::<Seq<char>>::empty());
    while i < n
        invariant
            n == parts@.len(),
            i <= n,
            r@ == joined(strs_view(parts@).take(i as int), sep@),
        decreases n - i,
    {
        let ghost prefix = strs_view(parts@).take(i + 1);
        assert(prefix.drop_last() =~= strs_view(parts@).take(i as int));
        assert(prefix.last() == parts@[i as int]@);
        if i > 0 {
            r.append(sep);
        } else {
            assert(prefix.len() == 1 && prefix[0] == parts@[0]@);
            assert(r@ =~= Seq::<char>::empty());
        }
        r.append(parts[i]);
        assert(i == 0 ==> r@ =~= parts@[0]@);
        i = i + 1;
    }
    assert(strs_view(parts@).take(n as int) =~= strs_view(parts@));
    r
}

} // verus!

//! Character-level string operations with specifications over `Seq<char>`.

use vstd::prelude::*;

verus! {

/// `p` is a prefix of `s`.
pub open spec fn spec_starts_with(s: Seq<char>, p: Seq<char>) -> bool {
    p.len() <= s.len() && s.subrange(0, p.len() as int) == p
}

/// `p` is a suffix of `s`.
pub open spec fn spec_ends_with(s: Seq<char>, p: Seq<char>) -> bool {
    p.len() <= s.len() && s.subrange(s.len() - p.len(), s.len() as int) == p
}

/// `s` with the prefix `p` removed (meaningful when `spec_starts_with(s, p)`).
pub open spec fn spec_strip_prefix(s: Seq<char>, p: Seq<char>) -> Seq<char> {
    s.subrange(p.len() as int, s.len() as int)
}

/// Index of the first occurrence of `c` in `s` at or after `i`, or -1.
pub open spec fn spec_find_from(s: Seq<char>, c: char, i: int) -> int
    decreases s.len() - i,
{
    if i < 0 || i >= s.len() {
        -1
    } else if s[i] == c {
        i
    } else {
        spec_find_from(s, c, i + 1)
    }
}

/// Index of the first occurrence of `c` in `s`, or -1.
pub open spec fn spec_find(s: Seq<char>, c: char) -> int {
    spec_find_from(s, c, 0)
}

/// Index of the last occurrence of `c` in `s` strictly before `end`, or -1.
pub open spec fn spec_rfind_before(s: Seq<char>, c: char, end: int) -> int
    decreases end,
{
    if end <= 0 || end > s.len() {
        -1
    } else if s[end - 1] == c {
        end - 1
    } else {
        spec_rfind_before(s, c, end - 1)
    }
}

/// Index of the last occurrence of `c` in `s`, or -1.
pub open spec fn spec_rfind(s: Seq<char>, c: char) -> int {
    spec_rfind_before(s, c, s.len() as int)
}

/// `s` contains the character `c`.
pub open spec fn spec_has_char(s: Seq<char>, c: char) -> bool {
    exists|i: int| 0 <= i < s.len() && s[i] == c
}

/// `p` occurs in `s` as a contiguous piece.
pub open spec fn spec_contains_str(s: Seq<char>, p: Seq<char>) -> bool {
    exists|i: int| 0 <= i && i + p.len() <= s.len() && #[trigger] s.subrange(i, i + p.len()) == p
}

/// The pieces of `s` between occurrences of `c`, as `str::split` gives them.
pub open spec fn spec_split(s: Seq<char>, c: char) -> Seq<Seq<char>>
    decreases s.len(),
{
    let i = spec_find(s, c);
    if i < 0 || i >= s.len() {
        seq![s]
    } else {
        seq![s.subrange(0, i)] + spec_split(s.subrange(i + 1, s.len() as int), c)
    }
}

/// The pieces joined with `sep` between consecutive pieces.
pub open spec fn spec_join(parts: Seq<Seq<char>>, sep: Seq<char>) -> Seq<char>
    decreases parts.len(),
{
    if parts.len() == 0 {
        Seq::empty()
    } else if parts.len() == 1 {
        parts[0]
    } else {
        spec_join(parts.drop_last(), sep) + sep + parts.last()
    }
}

/// The character of a decimal digit.
pub open spec fn spec_digit_char(d: nat) -> char {
    if d == 0 {
        '0'
    } else if d == 1 {
        '1'
    } else if d == 2 {
        '2'
    } else if d == 3 {
        '3'
    } else if d == 4 {
        '4'
    } else if d == 5 {
        '5'
    } else if d == 6 {
        '6'
    } else if d == 7 {
        '7'
    } else if d == 8 {
        '8'
    } else {
        '9'
    }
}

/// The decimal notation of `n`, without leading zeros.
pub open spec fn spec_decimal(n: nat) -> Seq<char>
    decreases n,
{
    if n < 10 {
        seq![spec_digit_char(n)]
    } else {
        spec_decimal(n / 10).push(spec_digit_char(n % 10))
    }
}

/// The views of a sequence of strings.
pub open spec fn views(v: Seq<String>) -> Seq<Seq<char>> {
    v.map_values(|s: String| s@)
}

/// Facts about the first-occurrence search.
pub proof fn lemma_find_from_range(s: Seq<char>, c: char, i: int)
    ensures
        spec_find_from(s, c, i) == -1 || (i <= spec_find_from(s, c, i) < s.len() && s[spec_find_from(s, c, i)] == c),
        spec_find_from(s, c, i) != -1 ==> forall|j: int| i <= j < spec_find_from(s, c, i) ==> s[j] != c,
        spec_find_from(s, c, i) == -1 && 0 <= i ==> forall|j: int| i <= j < s.len() ==> s[j] != c,
    decreases s.len() - i,
{
    if i < 0 || i >= s.len() {
    } else if s[i] == c {
    } else {
        lemma_find_from_range(s, c, i + 1);
    }
}

/// The search from `i` equals the search from `k` when no `c` lies in `[i, k)`.
pub proof fn lemma_find_from_skip(s: Seq<char>, c: char, i: int, k: int)
    requires
        0 <= i <= k <= s.len(),
        forall|j: int| i <= j < k ==> s[j] != c,
    ensures
        spec_find_from(s, c, i) == spec_find_from(s, c, k),
    decreases k - i,
{
    if i < k {
        lemma_find_from_skip(s, c, i + 1, k);
    }
}

/// Facts about the last-occurrence search.
pub proof fn lemma_rfind_range(s: Seq<char>, c: char, end: int)
    ensures
        spec_rfind_before(s, c, end) == -1 || (0 <= spec_rfind_before(s, c, end) < end && s[spec_rfind_before(s, c, end)] == c),
        spec_rfind_before(s, c, end) != -1 ==> forall|j: int| spec_rfind_before(s, c, end) < j < end ==> s[j] != c,
        spec_rfind_before(s, c, end) == -1 && end <= s.len() ==> forall|j: int| 0 <= j < end ==> s[j] != c,
    decreases end,
{
    if end <= 0 || end > s.len() {
    } else if s[end - 1] == c {
    } else {
        lemma_rfind_range(s, c, end - 1);
    }
}

/// `spec_find` characterized by first occurrence.
pub proof fn lemma_find_is(s: Seq<char>, c: char, k: int)
    requires
        -1 <= k < s.len(),
        k >= 0 ==> s[k] == c,
        forall|j: int| 0 <= j < s.len() && (k < 0 || j < k) ==> s[j] != c,
    ensures
        spec_find(s, c) == k,
{
    if k >= 0 {
        lemma_find_from_skip(s, c, 0, k);
    } else {
        lemma_find_from_skip(s, c, 0, s.len() as int);
    }
}

/// Compares two strings character by character.
pub fn str_eq(a: &str, b: &str) -> (r: bool)
    ensures
        r == (a@ == b@),
{
    let n = a.unicode_len();
    let m = b.unicode_len();
    if n != m {
        return false;
    }
    let mut i: usize = 0;
    while i < n
        invariant
            n == a@.len(),
            m == b@.len(),
            n == m,
            i <= n,
            forall|j: int| 0 <= j < i ==> a@[j] == b@[j],
        decreases n - i,
    {
        if a.get_char(i) != b.get_char(i) {
            return false;
        }
        i = i + 1;
    }
    assert(a@ =~= b@);
    true
}

/// Whether `s` begins with `p`.
pub fn starts_with(s: &str, p: &str) -> (r: bool)
    ensures
        r == spec_starts_with(s@, p@),
{
    let n = s.unicode_len();
    let m = p.unicode_len();
    if m > n {
        return false;
    }
    let mut i: usize = 0;
    while i < m
        invariant
            n == s@.len(),
            m == p@.len(),
            m <= n,
            i <= m,
            forall|j: int| 0 <= j < i ==> s@[j] == p@[j],
        decreases m - i,
    {
        if s.get_char(i) != p.get_char(i) {
            assert(s@.subrange(0, m as int)[i as int] != p@[i as int]);
            return false;
        }
        i = i + 1;
    }
    assert(s@.subrange(0, m as int) =~= p@);
    true
}

/// Whether `s` ends with `p`.
pub fn ends_with(s: &str, p: &str) -> (r: bool)
    ensures
        r == spec_ends_with(s@, p@),
{
    let n = s.unicode_len();
    let m = p.unicode_len();
    if m > n {
        return false;
    }
    let off = n - m;
    let mut i: usize = 0;
    while i < m
        invariant
            n == s@.len(),
            m == p@.len(),
            m <= n,
            off == n - m,
            i <= m,
            forall|j: int| 0 <= j < i ==> s@[off + j] == p@[j],
        decreases m - i,
    {
        if s.get_char(off + i) != p.get_char(i) {
            assert(s@.subrange(off as int, n as int)[i as int] != p@[i as int]);
            return false;
        }
        i = i + 1;
    }
    assert(s@.subrange(off as int, n as int) =~= p@);
    true
}

/// Index of the first occurrence of `c` in `s`.
pub fn find_char(s: &str, c: char) -> (r: Option<usize>)
    ensures
        match r {
            Some(i) => i < s@.len() && spec_find(s@, c) == i,
            None => spec_find(s@, c) == -1,
        },
        r is None <==> !spec_has_char(s@, c),
{
    let n = s.unicode_len();
    let mut i: usize = 0;
    while i < n
        invariant
            n == s@.len(),
            i <= n,
            forall|j: int| 0 <= j < i ==> s@[j] != c,
        decreases n - i,
    {
        if s.get_char(i) == c {
            proof {
                lemma_find_is(s@, c, i as int);
            }
            return Some(i);
        }
        i = i + 1;
    }
    proof {
        lemma_find_is(s@, c, -1);
    }
    None
}

/// Index of the last occurrence of `c` in `s`.
pub fn rfind_char(s: &str, c: char) -> (r: Option<usize>)
    ensures
        match r {
            Some(i) => i < s@.len() && spec_rfind(s@, c) == i && s@[i as int] == c,
            None => spec_rfind(s@, c) == -1,
        },
        r is None <==> !spec_has_char(s@, c),
{
    let n = s.unicode_len();
    let mut k: usize = n;
    while k > 0
        invariant
            n == s@.len(),
            k <= n,
            spec_rfind_before(s@, c, k as int) == spec_rfind(s@, c),
        decreases k,
    {
        if s.get_char(k - 1) == c {
            proof {
                lemma_rfind_range(s@, c, n as int);
            }
            return Some(k - 1);
        }
        k = k - 1;
    }
    proof {
        lemma_rfind_range(s@, c, n as int);
    }
    None
}

/// Whether `s` contains `c`.
pub fn contains_char(s: &str, c: char) -> (r: bool)
    ensures
        r == spec_has_char(s@, c),
{
    find_char(s, c).is_some()
}

/// Whether `p` occurs in `s` as a contiguous piece.
pub fn contains_str(s: &str, p: &str) -> (r: bool)
    ensures
        r == spec_contains_str(s@, p@),
{
    let n = s.unicode_len();
    let m = p.unicode_len();
    if m > n {
        return false;
    }
    let mut i: usize = 0;
    while i <= n - m
        invariant
            n == s@.len(),
            m == p@.len(),
            m <= n,
            i <= n - m + 1,
            forall|k: int| 0 <= k < i ==> #[trigger] s@.subrange(k, k + m) != p@,
        decreases n - m + 1 - i,
    {
        let mut j: usize = 0;
        let mut same = true;
        while j < m
            invariant
                n == s@.len(),
                m == p@.len(),
                i + m <= n,
                j <= m,
                same <==> forall|t: int| 0 <= t < j ==> s@[i + t] == p@[t],
            decreases m - j,
        {
            if s.get_char(i + j) != p.get_char(j) {
                same = false;
            }
            j = j + 1;
        }
        if same {
            assert(s@.subrange(i as int, i + m) =~= p@);
            return true;
        } else {
            assert(s@.subrange(i as int, i + m) != p@) by {
                let t = choose|t: int| 0 <= t < m && s@[i + t] != p@[t];
                assert(s@.subrange(i as int, i + m)[t] == s@[i + t]);
            }
        }
        i = i + 1;
    }
    assert forall|k: int| 0 <= k && k + p@.len() <= s@.len() implies #[trigger] s@.subrange(k, k + p@.len()) != p@ by {
        assert(k < i);
    }
    false
}

/// The characters of `s` in `[from, to)` as a new string.
pub fn substring(s: &str, from: usize, to: usize) -> (r: String)
    requires
        from <= to <= s@.len(),
    ensures
        r@ == s@.subrange(from as int, to as int),
{
    String::from_str(s.substring_char(from, to))
}

/// `s` without its first `n` characters.
pub fn skip_chars(s: &str, n: usize) -> (r: String)
    requires
        n <= s@.len(),
    ensures
        r@ == s@.subrange(n as int, s@.len() as int),
{
    let len = s.unicode_len();
    substring(s, n, len)
}

/// The concatenation of `a` and `b`.
pub fn concat(a: &str, b: &str) -> (r: String)
    ensures
        r@ == a@ + b@,
{
    let mut r = String::from_str(a);
    r.append(b);
    r
}

/// The concatenation of `a`, `b` and `c`.
pub fn concat3(a: &str, b: &str, c: &str) -> (r: String)
    ensures
        r@ == a@ + b@ + c@,
{
    let mut r = String::from_str(a);
    r.append(b);
    r.append(c);
    r
}

/// The pieces joined with `sep`.
pub fn join(parts: &Vec<String>, sep: &str) -> (r: String)
    ensures
        r@ == spec_join(views(parts@), sep@),
{
    let mut r = String::new();
    let ghost pv = views(parts@);
    let mut i: usize = 0;
    while i < parts.len()
        invariant
            pv == views(parts@),
            i <= parts.len(),
            r@ == spec_join(pv.take(i as int), sep@),
        decreases parts.len() - i,
    {
        proof {
            assert(pv.take(i + 1).drop_last() =~= pv.take(i as int));
        }
        if i > 0 {
            r.append(sep);
        } else {
            assert(pv.take(0) =~= Seq::<Seq<char>>::empty());
        }
        r.append(parts[i].as_str());
        i = i + 1;
    }
    assert(pv.take(parts.len() as int) =~= pv);
    r
}

/// The pieces of `s` between occurrences of `c`.
pub fn split_char(s: &str, c: char) -> (r: Vec<String>)
    ensures
        views(r@) == spec_split(s@, c),
{
    let n = s.unicode_len();
    let mut out: Vec<String> = Vec::new();
    let mut start: usize = 0;
    let mut i: usize = 0;
    proof {
        assert(s@.subrange(0, n as int) =~= s@);
        assert(views(out@) + spec_split(s@, c) =~= spec_split(s@, c));
    }
    while i < n
        invariant
            n == s@.len(),
            start <= i <= n,
            forall|j: int| start <= j < i ==> s@[j] != c,
            views(out@) + spec_split(s@.subrange(start as int, n as int), c) == spec_split(s@, c),
        decreases n - i,
    {
        if s.get_char(i) == c {
            let piece = substring(s, start, i);
            proof {
                let t = s@.subrange(start as int, n as int);
                lemma_find_is(t, c, (i - start) as int);
                assert(t.subrange(0, (i - start) as int) =~= piece@);
                assert(t.subrange((i - start) + 1, t.len() as int) =~= s@.subrange(i + 1, n as int));
                assert(views(out@.push(piece)) =~= views(out@).push(piece@));
                assert(spec_split(t, c) =~= seq![piece@] + spec_split(s@.subrange(i + 1, n as int), c));
                assert(views(out@.push(piece)) + spec_split(s@.subrange(i + 1, n as int), c)
                    =~= views(out@) + spec_split(t, c));
            }
            out.push(piece);
            start = i + 1;
        }
        i = i + 1;
    }
    let last = substring(s, start, n);
    proof {
        let t = s@.subrange(start as int, n as int);
        lemma_find_is(t, c, -1);
        assert(t =~= last@);
        assert(views(out@.push(last)) =~= views(out@).push(last@));
        assert(spec_split(t, c) =~= seq![last@]);
        assert(views(out@.push(last)) =~= views(out@) + spec_split(t, c));
    }
    out.push(last);
    out
}

/// The one-character string of the decimal digit `d`.
fn digit_string(d: u64) -> (r: String)
    requires
        d < 10,
    ensures
        r@ == seq![spec_digit_char(d as nat)],
{
    let digits = "0123456789";
    proof {
        reveal_strlit("0123456789");
    }
    let k = d as usize;
    let piece = digits.substring_char(k, k + 1);
    assert(piece@ =~= seq![spec_digit_char(d as nat)]);
    String::from_str(piece)
}

/// Decimal notation of `n`.
pub fn u64_to_decimal(n: u64) -> (r: String)
    ensures
        r@ == spec_decimal(n as nat),
    decreases n,
{
    if n < 10 {
        digit_string(n)
    } else {
        let mut r = u64_to_decimal(n / 10);
        let d = digit_string(n % 10);
        r.append(d.as_str());
        r
    }
}

/// Decimal notation of a signed number: a minus sign before a negative one.
pub open spec fn spec_signed_decimal(n: int) -> Seq<char> {
    if n < 0 {
        seq!['-'] + spec_decimal((-n) as nat)
    } else {
        spec_decimal(n as nat)
    }
}

/// Decimal notation of `n`, with a minus sign when negative.
pub fn i64_to_decimal(n: i64) -> (r: String)
    ensures
        r@ == spec_signed_decimal(n as int),
{
    if n < 0 {
        let m: u64 = if n == i64::MIN {
            9223372036854775808u64
        } else {
            (-n) as u64
        };
        let d = u64_to_decimal(m);
        proof {
            reveal_strlit("-");
        }
        concat("-", d.as_str())
    } else {
        u64_to_decimal(n as u64)
    }
}

/// Appends `s` to `v`.
pub fn push_string(v: &mut Vec<String>, s: String)
    ensures
        views(final(v)@) == views(old(v)@).push(s@),
        final(v)@.len() == old(v)@.len() + 1,
{
    v.push(s);
    proof {
        assert(views(final(v)@) =~= views(old(v)@).push(s@));
    }
}

} // verus!

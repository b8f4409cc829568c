//! Character-level text helpers shared by the installer's parsers and
//! generators, each proved against a specification over `Seq<char>`.

use vstd::prelude::*;

verus! {

// ── Character classes ───────────────────────────────────────────

pub open spec fn is_ascii_digit(c: char) -> bool {
    '0' <= c && c <= '9'
}

pub open spec fn is_ascii_lowercase(c: char) -> bool {
    'a' <= c && c <= 'z'
}

pub open spec fn is_ascii_uppercase(c: char) -> bool {
    'A' <= c && c <= 'Z'
}

pub open spec fn is_ascii_alphanumeric(c: char) -> bool {
    is_ascii_digit(c) || is_ascii_lowercase(c) || is_ascii_uppercase(c)
}

/// The Unicode `White_Space` property, as used by `char::is_whitespace`.
pub open spec fn is_whitespace(c: char) -> bool {
    ||| ('\u{9}' <= c && c <= '\u{d}')
    ||| c == ' '
    ||| c == '\u{85}'
    ||| c == '\u{a0}'
    ||| c == '\u{1680}'
    ||| ('\u{2000}' <= c && c <= '\u{200a}')
    ||| c == '\u{2028}'
    ||| c == '\u{2029}'
    ||| c == '\u{202f}'
    ||| c == '\u{205f}'
    ||| c == '\u{3000}'
}

pub fn ascii_digit(c: char) -> (r: bool)
    ensures
        r == is_ascii_digit(c),
{
    '0' <= c && c <= '9'
}

pub fn ascii_lowercase(c: char) -> (r: bool)
    ensures
        r == is_ascii_lowercase(c),
{
    'a' <= c && c <= 'z'
}

pub fn ascii_uppercase(c: char) -> (r: bool)
    ensures
        r == is_ascii_uppercase(c),
{
    'A' <= c && c <= 'Z'
}

pub fn ascii_alphanumeric(c: char) -> (r: bool)
    ensures
        r == is_ascii_alphanumeric(c),
{
    ascii_digit(c) || ascii_lowercase(c) || ascii_uppercase(c)
}

pub fn whitespace(c: char) -> (r: bool)
    ensures
        r == is_whitespace(c),
{
    ('\u{9}' <= c && c <= '\u{d}') || c == ' ' || c == '\u{85}' || c == '\u{a0}' || c
        == '\u{1680}' || ('\u{2000}' <= c && c <= '\u{200a}') || c == '\u{2028}' || c
        == '\u{2029}' || c == '\u{202f}' || c == '\u{205f}' || c == '\u{3000}'
}

// ── Sequence predicates ─────────────────────────────────────────

pub open spec fn starts_with(s: Seq<char>, p: Seq<char>) -> bool {
    p.len() <= s.len() && s.subrange(0, p.len() as int) == p
}

pub open spec fn ends_with(s: Seq<char>, p: Seq<char>) -> bool {
    p.len() <= s.len() && s.subrange(s.len() - p.len(), s.len() as int) == p
}

pub open spec fn occurs_at(s: Seq<char>, p: Seq<char>, i: int) -> bool {
    0 <= i && i + p.len() <= s.len() && s.subrange(i, i + p.len()) == p
}

pub open spec fn contains(s: Seq<char>, p: Seq<char>) -> bool {
    exists|i: int| #[trigger] occurs_at(s, p, i)
}

/// Index of the first occurrence of `c` in `s`, if any.
pub open spec fn first_index_of(s: Seq<char>, c: char) -> Option<int>
    decreases s.len(),
{
    if s.len() == 0 {
        None
    } else if s[0] == c {
        Some(0)
    } else {
        match first_index_of(s.drop_first(), c) {
            Some(i) => Some(i + 1),
            None => None,
        }
    }
}

// ── Trimming ────────────────────────────────────────────────────

pub open spec fn trim_start(s: Seq<char>) -> Seq<char>
    decreases s.len(),
{
    if s.len() > 0 && is_whitespace(s[0]) {
        trim_start(s.drop_first())
    } else {
        s
    }
}

pub open spec fn trim_end(s: Seq<char>) -> Seq<char>
    decreases s.len(),
{
    if s.len() > 0 && is_whitespace(s.last()) {
        trim_end(s.drop_last())
    } else {
        s
    }
}

/// What `str::trim` leaves of `s`.
pub open spec fn trim(s: Seq<char>) -> Seq<char> {
    trim_end(trim_start(s))
}

// ── Lines ───────────────────────────────────────────────────────

pub open spec fn strip_cr(l: Seq<char>) -> Seq<char> {
    if l.len() > 0 && l.last() == '\r' {
        l.drop_last()
    } else {
        l
    }
}

/// The lines that `str::lines` yields for `s`, when `cur` holds the part of
/// the current line already read: a `'\n'` ends a line (and a `'\r'` just
/// before it is dropped); a last line without `'\n'` is kept only when it is
/// not empty.
pub open spec fn lines_rec(s: Seq<char>, cur: Seq<char>) -> Seq<Seq<char>>
    decreases s.len(),
{
    if s.len() == 0 {
        if cur.len() == 0 {
            seq![]
        } else {
            seq![cur]
        }
    } else if s[0] == '\n' {
        seq![strip_cr(cur)] + lines_rec(s.drop_first(), seq![])
    } else {
        lines_rec(s.drop_first(), cur.push(s[0]))
    }
}

pub open spec fn lines(s: Seq<char>) -> Seq<Seq<char>> {
    lines_rec(s, seq![])
}

/// Lines each followed by `'\n'`, concatenated.
pub open spec fn terminated(ls: Seq<Seq<char>>) -> Seq<char>
    decreases ls.len(),
{
    if ls.len() == 0 {
        seq![]
    } else {
        terminated(ls.drop_last()) + ls.last() + seq!['\n']
    }
}

/// What `ls.join("\n") + "\n"` gives.
pub open spec fn join_lines(ls: Seq<Seq<char>>) -> Seq<char> {
    if ls.len() == 0 {
        seq!['\n']
    } else {
        terminated(ls)
    }
}

pub open spec fn string_views(v: Seq<String>) -> Seq<Seq<char>> {
    v.map_values(|x: String| x@)
}

pub open spec fn str_views(v: Seq<&str>) -> Seq<Seq<char>> {
    v.map_values(|x: &str| x@)
}

// ── Decimal numerals ────────────────────────────────────────────

pub open spec fn digit_char(d: nat) -> char {
    if d == 0 {
        '0'
    } else if d == 1 {
        '1'
    } else if d == 2 {
        '2'
    } else if d == 3 {
        '3'
    } else if d == 4 {
        '4'
    } else if d == 5 {
        '5'
    } else if d == 6 {
        '6'
    } else if d == 7 {
        '7'
    } else if d == 8 {
        '8'
    } else {
        '9'
    }
}

/// The decimal numeral of `n`, without leading zeros.
pub open spec fn decimal(n: nat) -> Seq<char>
    decreases n,
{
    if n < 10 {
        seq![digit_char(n)]
    } else {
        decimal(n / 10).push(digit_char(n % 10))
    }
}

// ── Executable helpers ──────────────────────────────────────────

/// `String::push`: appends one character.
#[verifier::external_body]
pub(crate) fn push_char(s: &mut String, c: char)
    ensures
        final(s)@ == old(s)@.push(c),
{
    s.push(c);
}

/// Owned copy of `s`.
pub fn owned(s: &str) -> (r: String)
    ensures
        r@ == s@,
{
    String::from_str(s)
}

/// `a` followed by `b`.
pub fn cat(a: &str, b: &str) -> (r: String)
    ensures
        r@ == a@ + b@,
{
    String::from_str(a).concat(b)
}

/// `a`, `b` and `c` one after the other.
pub fn cat3(a: &str, b: &str, c: &str) -> (r: String)
    ensures
        r@ == a@ + b@ + c@,
{
    String::from_str(a).concat(b).concat(c)
}

/// Whether `p` occurs in `s` at character position `pos`.
pub fn matches_at(s: &str, p: &str, pos: usize) -> (r: bool)
    ensures
        r == occurs_at(s@, p@, pos as int),
{
    let n = s.unicode_len();
    let m = p.unicode_len();
    if pos > n || m > n - pos {
        return false;
    }
    let mut k: usize = 0;
    while k < m
        invariant
            n == s@.len(),
            m == p@.len(),
            pos + m <= n,
            k <= m,
            forall|j: int| 0 <= j < k ==> s@[pos + j] == p@[j],
        decreases m - k,
    {
        if s.get_char(pos + k) != p.get_char(k) {
            assert(s@.subrange(pos as int, pos + m)[k as int] != p@[k as int]);
            return false;
        }
        k += 1;
    }
    assert(s@.subrange(pos as int, pos + m) =~= p@);
    true
}

/// `a@ == b@`.
pub fn str_eq(a: &str, b: &str) -> (r: bool)
    ensures
        r == (a@ == b@),
{
    let n = a.unicode_len();
    let m = b.unicode_len();
    if n != m {
        return false;
    }
    let r = matches_at(a, b, 0);
    assert(a@ =~= a@.subrange(0, n as int));
    r
}

pub fn has_prefix(s: &str, p: &str) -> (r: bool)
    ensures
        r == starts_with(s@, p@),
{
    matches_at(s, p, 0)
}

pub fn has_suffix(s: &str, p: &str) -> (r: bool)
    ensures
        r == ends_with(s@, p@),
{
    let n = s.unicode_len();
    let m = p.unicode_len();
    if m > n {
        return false;
    }
    matches_at(s, p, n - m)
}

pub fn has_substring(s: &str, p: &str) -> (r: bool)
    ensures
        r == contains(s@, p@),
{
    let n = s.unicode_len();
    let mut i: usize = 0;
    while i < n
        invariant
            n == s@.len(),
            i <= n,
            forall|j: int| 0 <= j < i ==> !#[trigger] occurs_at(s@, p@, j),
        decreases n - i,
    {
        if matches_at(s, p, i) {
            return true;
        }
        i += 1;
    }
    if matches_at(s, p, n) {
        return true;
    }
    assert forall|j: int| !#[trigger] occurs_at(s@, p@, j) by {
        if 0 <= j && j + p@.len() <= s@.len() {
            assert(j <= n);
        }
    }
    false
}

/// Whether the character `c` occurs in `s`.
pub fn has_char(s: &str, c: char) -> (r: bool)
    ensures
        r == s@.contains(c),
{
    let n = s.unicode_len();
    let mut i: usize = 0;
    while i < n
        invariant
            n == s@.len(),
            i <= n,
            forall|j: int| 0 <= j < i ==> s@[j] != c,
        decreases n - i,
    {
        if s.get_char(i) == c {
            return true;
        }
        i += 1;
    }
    false
}

pub proof fn lemma_first_index_of(s: Seq<char>, c: char, i: int)
    requires
        0 <= i <= s.len(),
        forall|j: int| 0 <= j < i ==> s[j] != c,
        i == s.len() || s[i] == c,
    ensures
        first_index_of(s, c) == (if i == s.len() {
            None::<int>
        } else {
            Some(i)
        }),
    decreases s.len(),
{
    if s.len() > 0 && s[0] != c {
        assert forall|j: int| 0 <= j < i - 1 implies s.drop_first()[j] != c by {
            assert(s[j + 1] != c);
        }
        lemma_first_index_of(s.drop_first(), c, i - 1);
    }
}

/// Character position of the first `c` in `s`.
pub fn find_char(s: &str, c: char) -> (r: Option<usize>)
    ensures
        r matches Some(i) ==> first_index_of(s@, c) == Some(i as int) && i < s@.len() && s@[i as int]
            == c,
        r is None ==> first_index_of(s@, c) is None,
{
    let n = s.unicode_len();
    let mut i: usize = 0;
    while i < n
        invariant
            n == s@.len(),
            i <= n,
            forall|j: int| 0 <= j < i ==> s@[j] != c,
        decreases n - i,
    {
        if s.get_char(i) == c {
            proof {
                lemma_first_index_of(s@, c, i as int);
            }
            return Some(i);
        }
        i += 1;
    }
    proof {
        lemma_first_index_of(s@, c, n as int);
    }
    None
}

pub proof fn lemma_trim_start_skips(s: Seq<char>, i: int)
    requires
        0 <= i <= s.len(),
        forall|j: int| 0 <= j < i ==> is_whitespace(s[j]),
    ensures
        trim_start(s) == trim_start(s.subrange(i, s.len() as int)),
    decreases i,
{
    if i > 0 {
        assert(s.drop_first().subrange(i - 1, s.drop_first().len() as int) =~= s.subrange(
            i,
            s.len() as int,
        ));
        lemma_trim_start_skips(s.drop_first(), i - 1);
    } else {
        assert(s.subrange(0, s.len() as int) =~= s);
    }
}

pub proof fn lemma_trim_end_skips(s: Seq<char>, e: int)
    requires
        0 <= e <= s.len(),
        forall|j: int| e <= j < s.len() ==> is_whitespace(s[j]),
    ensures
        trim_end(s) == trim_end(s.subrange(0, e)),
    decreases s.len() - e,
{
    if e < s.len() {
        assert(s.drop_last().subrange(0, e) =~= s.subrange(0, e));
        lemma_trim_end_skips(s.drop_last(), e);
    } else {
        assert(s.subrange(0, s.len() as int) =~= s);
    }
}

/// `str::trim`: drops leading and trailing whitespace.
pub fn trimmed(s: &str) -> (r: String)
    ensures
        r@ == trim(s@),
{
    let n = s.unicode_len();
    let mut b: usize = 0;
    while b < n && whitespace(s.get_char(b))
        invariant
            n == s@.len(),
            b <= n,
            forall|j: int| 0 <= j < b ==> is_whitespace(s@[j]),
        decreases n - b,
    {
        b += 1;
    }
    proof {
        lemma_trim_start_skips(s@, b as int);
    }
    let ghost t = s@.subrange(b as int, n as int);
    let mut e: usize = n;
    while e > b && whitespace(s.get_char(e - 1))
        invariant
            n == s@.len(),
            b <= e <= n,
            t == s@.subrange(b as int, n as int),
            forall|j: int| e <= j < n ==> is_whitespace(s@[j]),
        decreases e,
    {
        e -= 1;
    }
    proof {
        assert(b == n || !is_whitespace(t[0]));
        assert(trim_start(t) == t);
        assert forall|j: int| e - b <= j < t.len() implies is_whitespace(t[j]) by {
            assert(t[j] == s@[b + j]);
        }
        lemma_trim_end_skips(t, e - b);
        let u = t.subrange(0, e - b);
        assert(u =~= s@.subrange(b as int, e as int));
        if u.len() > 0 {
            assert(u.last() == s@[e - 1]);
        }
        assert(trim_end(u) == u);
    }
    String::from_str(s.substring_char(b, e))
}

proof fn lemma_lines_rec_step(s: Seq<char>, i: int, st: int)
    requires
        0 <= st <= i < s.len(),
        s[i] != '\n',
    ensures
        lines_rec(s.subrange(i, s.len() as int), s.subrange(st, i)) == lines_rec(
            s.subrange(i + 1, s.len() as int),
            s.subrange(st, i + 1),
        ),
{
    let t = s.subrange(i, s.len() as int);
    assert(t.drop_first() =~= s.subrange(i + 1, s.len() as int));
    assert(s.subrange(st, i).push(s[i]) =~= s.subrange(st, i + 1));
}

proof fn lemma_lines_rec_newline(s: Seq<char>, i: int, st: int)
    requires
        0 <= st <= i < s.len(),
        s[i] == '\n',
    ensures
        lines_rec(s.subrange(i, s.len() as int), s.subrange(st, i)) == seq![
            strip_cr(s.subrange(st, i)),
        ] + lines_rec(s.subrange(i + 1, s.len() as int), s.subrange(i + 1, i + 1)),
{
    let t = s.subrange(i, s.len() as int);
    assert(t.drop_first() =~= s.subrange(i + 1, s.len() as int));
    assert(s.subrange(i + 1, i + 1) =~= Seq::<char>::empty());
}

/// `str::lines`: the lines of `s`, without their terminators.
pub fn split_lines(s: &str) -> (r: Vec<String>)
    ensures
        string_views(r@) == lines(s@),
{
    let n = s.unicode_len();
    let mut res: Vec<String> = Vec::new();
    let mut st: usize = 0;
    let mut i: usize = 0;
    assert(s@.subrange(0, n as int) =~= s@);
    assert(s@.subrange(0, 0) =~= Seq::<char>::empty());
    while i < n
        invariant
            n == s@.len(),
            st <= i <= n,
            lines(s@) == string_views(res@) + lines_rec(
                s@.subrange(i as int, n as int),
                s@.subrange(st as int, i as int),
            ),
        decreases n - i,
    {
        let c = s.get_char(i);
        if c == '\n' {
            proof {
                lemma_lines_rec_newline(s@, i as int, st as int);
            }
            let mut end = i;
            if i > st && s.get_char(i - 1) == '\r' {
                end = i - 1;
            }
            let line = String::from_str(s.substring_char(st, end));
            proof {
                let cur = s@.subrange(st as int, i as int);
                assert(line@ == strip_cr(cur)) by {
                    if i > st && s@[i - 1] == '\r' {
                        assert(cur.drop_last() =~= s@.subrange(st as int, end as int));
                    }
                }
            }
            let ghost old_res = res@;
            res.push(line);
            proof {
                assert(string_views(res@) =~= string_views(old_res).push(line@));
                assert(string_views(old_res) + seq![line@] =~= string_views(old_res).push(
                    line@,
                ));
                assert(lines(s@) == string_views(old_res) + (seq![line@] + lines_rec(
                    s@.subrange(i + 1, n as int),
                    s@.subrange(i + 1, i + 1),
                )));
                assert(string_views(old_res) + (seq![line@] + lines_rec(
                    s@.subrange(i + 1, n as int),
                    s@.subrange(i + 1, i + 1),
                )) =~= (string_views(old_res) + seq![line@]) + lines_rec(
                    s@.subrange(i + 1, n as int),
                    s@.subrange(i + 1, i + 1),
                ));
            }
            st = i + 1;
        } else {
            proof {
                lemma_lines_rec_step(s@, i as int, st as int);
            }
        }
        i += 1;
    }
    assert(s@.subrange(n as int, n as int) =~= Seq::<char>::empty());
    if st < n {
        let line = String::from_str(s.substring_char(st, n));
        let ghost old_res = res@;
        res.push(line);
        proof {
            assert(string_views(res@) =~= string_views(old_res) + seq![line@]);
        }
    } else {
        assert(string_views(res@) + Seq::<Seq<char>>::empty() =~= string_views(res@));
    }
    res
}

/// `ls.join("\n") + "\n"`.
pub fn join_with_newlines(ls: &Vec<String>) -> (r: String)
    ensures
        r@ == join_lines(string_views(ls@)),
{
    if ls.len() == 0 {
        let r = String::from_str("\n");
        proof {
            reveal_strlit("\n");
        }
        return r;
    }
    let mut out = String::new();
    let mut i: usize = 0;
    while i < ls.len()
        invariant
            i <= ls@.len(),
            out@ == terminated(string_views(ls@).subrange(0, i as int)),
        decreases ls@.len() - i,
    {
        out.append(ls[i].as_str());
        push_char(&mut out, '\n');
        proof {
            let v = string_views(ls@);
            assert(v.subrange(0, i + 1).drop_last() =~= v.subrange(0, i as int));
        }
        i += 1;
    }
    proof {
        assert(string_views(ls@).subrange(0, ls@.len() as int) =~= string_views(ls@));
    }
    out
}

fn digit_str(d: u64) -> (r: &'static str)
    requires
        d < 10,
    ensures
        r@ == seq![digit_char(d as nat)],
{
    proof {
        reveal_strlit("0");
        reveal_strlit("1");
        reveal_strlit("2");
        reveal_strlit("3");
        reveal_strlit("4");
        reveal_strlit("5");
        reveal_strlit("6");
        reveal_strlit("7");
        reveal_strlit("8");
        reveal_strlit("9");
    }
    if d == 0 {
        "0"
    } else if d == 1 {
        "1"
    } else if d == 2 {
        "2"
    } else if d == 3 {
        "3"
    } else if d == 4 {
        "4"
    } else if d == 5 {
        "5"
    } else if d == 6 {
        "6"
    } else if d == 7 {
        "7"
    } else if d == 8 {
        "8"
    } else {
        "9"
    }
}

/// The decimal numeral of `n`, as `Display` writes an unsigned integer.
pub fn decimal_string(n: u64) -> (r: String)
    ensures
        r@ == decimal(n as nat),
    decreases n,
{
    if n < 10 {
        String::from_str(digit_str(n))
    } else {
        let mut s = decimal_string(n / 10);
        s.append(digit_str(n % 10));
        s
    }
}

} // verus!

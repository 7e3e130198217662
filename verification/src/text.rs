//! Character-sequence helpers shared by the message model, the endpoint
//! resolver and the completion client: equality, prefix/suffix/substring
//! tests and ASCII whitespace trimming, each specified over `Seq<char>`.

use vstd::prelude::*;

verus! {

/// ASCII whitespace as trimmed from user-facing text.
pub open spec fn is_space_char(c: char) -> bool {
    c == ' ' || c == '\t' || c == '\n' || c == '\r'
}

/// `p` is a prefix of `s`.
pub open spec fn starts_with_spec(s: Seq<char>, p: Seq<char>) -> bool {
    p.len() <= s.len() && s.subrange(0, p.len() as int) == p
}

/// `p` is a suffix of `s`.
pub open spec fn ends_with_spec(s: Seq<char>, p: Seq<char>) -> bool {
    p.len() <= s.len() && s.subrange(s.len() - p.len(), s.len() as int) == p
}

/// `p` occurs contiguously somewhere in `s`.
pub open spec fn contains_spec(s: Seq<char>, p: Seq<char>) -> bool {
    exists|i: int| 0 <= i <= s.len() - p.len() && #[trigger] s.subrange(i, i + p.len()) == p
}

/// `s` without its leading ASCII whitespace.
pub open spec fn trim_start_spec(s: Seq<char>) -> Seq<char>
    decreases s.len(),
{
    if s.len() > 0 && is_space_char(s[0]) {
        trim_start_spec(s.subrange(1, s.len() as int))
    } else {
        s
    }
}

/// `s` without its trailing ASCII whitespace.
pub open spec fn trim_end_spec(s: Seq<char>) -> Seq<char>
    decreases s.len(),
{
    if s.len() > 0 && is_space_char(s[s.len() - 1]) {
        trim_end_spec(s.subrange(0, s.len() - 1))
    } else {
        s
    }
}

/// `s` without leading and trailing ASCII whitespace.
pub open spec fn trim_spec(s: Seq<char>) -> Seq<char> {
    trim_end_spec(trim_start_spec(s))
}

/// `s` without its trailing `/` characters.
pub open spec fn trim_end_slashes_spec(s: Seq<char>) -> Seq<char>
    decreases s.len(),
{
    if s.len() > 0 && s[s.len() - 1] == '/' {
        trim_end_slashes_spec(s.subrange(0, s.len() - 1))
    } else {
        s
    }
}

proof fn lemma_trim_start_at(s: Seq<char>, i: int)
    requires
        0 <= i <= s.len(),
        forall|j: int| 0 <= j < i ==> is_space_char(s[j]),
        i == s.len() || !is_space_char(s[i]),
    ensures
        trim_start_spec(s) == s.subrange(i, s.len() as int),
    decreases i,
{
    if i == 0 {
        if s.len() == 0 || !is_space_char(s[0]) {
            assert(trim_start_spec(s) =~= s.subrange(0, s.len() as int));
        }
    } else {
        let s1 = s.subrange(1, s.len() as int);
        lemma_trim_start_at(s1, i - 1);
        assert(s1.subrange(i - 1, s1.len() as int) =~= s.subrange(i, s.len() as int));
    }
}

proof fn lemma_trim_end_at(s: Seq<char>, i: int)
    requires
        0 <= i <= s.len(),
        forall|j: int| i <= j < s.len() ==> is_space_char(s[j]),
        i == 0 || !is_space_char(s[i - 1]),
    ensures
        trim_end_spec(s) == s.subrange(0, i),
    decreases s.len(),
{
    if i == s.len() {
        if s.len() == 0 || !is_space_char(s[s.len() - 1]) {
            assert(trim_end_spec(s) =~= s.subrange(0, i));
        }
    } else {
        let s1 = s.subrange(0, s.len() - 1);
        lemma_trim_end_at(s1, i);
        assert(s1.subrange(0, i) =~= s.subrange(0, i));
    }
}

proof fn lemma_trim_end_slashes_at(s: Seq<char>, i: int)
    requires
        0 <= i <= s.len(),
        forall|j: int| i <= j < s.len() ==> s[j] == '/',
        i == 0 || s[i - 1] != '/',
    ensures
        trim_end_slashes_spec(s) == s.subrange(0, i),
    decreases s.len(),
{
    if i == s.len() {
        if s.len() == 0 || s[s.len() - 1] != '/' {
            assert(trim_end_slashes_spec(s) =~= s.subrange(0, i));
        }
    } else {
        let s1 = s.subrange(0, s.len() - 1);
        lemma_trim_end_slashes_at(s1, i);
        assert(s1.subrange(0, i) =~= s.subrange(0, i));
    }
}

/// Trimming strips nothing from a sequence with no trailing slash.
pub proof fn lemma_trim_end_slashes_identity(s: Seq<char>)
    requires
        s.len() == 0 || s[s.len() - 1] != '/',
    ensures
        trim_end_slashes_spec(s) == s,
{
    lemma_trim_end_slashes_at(s, s.len() as int);
    assert(s.subrange(0, s.len() as int) =~= s);
}

/// A trimmed sequence is empty or does not end in a slash.
pub proof fn lemma_trim_end_slashes_result(s: Seq<char>)
    ensures
        trim_end_slashes_spec(s).len() == 0 || trim_end_slashes_spec(s)[
            trim_end_slashes_spec(s).len() - 1
        ] != '/',
    decreases s.len(),
{
    if s.len() > 0 && s[s.len() - 1] == '/' {
        lemma_trim_end_slashes_result(s.subrange(0, s.len() - 1));
    }
}

/// A suffix occurs as a substring.
pub proof fn lemma_ends_with_contains(s: Seq<char>, p: Seq<char>)
    requires
        ends_with_spec(s, p),
    ensures
        contains_spec(s, p),
{
    let i = s.len() - p.len();
    assert(s.subrange(i, i + p.len()) == s.subrange(s.len() - p.len(), s.len() as int));
}

/// A concatenation ends with its right operand.
pub proof fn lemma_concat_ends_with(a: Seq<char>, b: Seq<char>)
    ensures
        ends_with_spec(a + b, b),
{
    assert((a + b).subrange((a + b).len() - b.len(), (a + b).len() as int) =~= b);
}

/// ASCII whitespace test.
pub fn is_space(c: char) -> (r: bool)
    ensures
        r == is_space_char(c),
{
    c == ' ' || c == '\t' || c == '\n' || c == '\r'
}

/// `s` without leading and trailing ASCII whitespace.
pub fn trim_ascii(s: &str) -> (r: &str)
    ensures
        r@ == trim_spec(s@),
{
    let n = s.unicode_len();
    let mut start: usize = 0;
    while start < n && is_space(s.get_char(start))
        invariant
            start <= n,
            n == s@.len(),
            forall|j: int| 0 <= j < start ==> is_space_char(s@[j]),
        decreases n - start,
    {
        start += 1;
    }
    let mut end: usize = n;
    while end > start && is_space(s.get_char(end - 1))
        invariant
            start <= end <= n,
            n == s@.len(),
            forall|j: int| end <= j < n ==> is_space_char(s@[j]),
        decreases end,
    {
        end -= 1;
    }
    proof {
        lemma_trim_start_at(s@, start as int);
        let t = s@.subrange(start as int, n as int);
        lemma_trim_end_at(t, end - start);
        assert(t.subrange(0, end - start) =~= s@.subrange(start as int, end as int));
    }
    s.substring_char(start, end)
}

/// `s` without its trailing `/` characters.
pub fn trim_end_slashes(s: &str) -> (r: &str)
    ensures
        r@ == trim_end_slashes_spec(s@),
{
    let n = s.unicode_len();
    let mut end: usize = n;
    while end > 0 && s.get_char(end - 1) == '/'
        invariant
            end <= n,
            n == s@.len(),
            forall|j: int| end <= j < n ==> s@[j] == '/',
        decreases end,
    {
        end -= 1;
    }
    proof {
        lemma_trim_end_slashes_at(s@, end as int);
    }
    s.substring_char(0, end)
}

/// Whether the text is the liveness probe `ping`, after trimming and
/// ignoring ASCII case.
pub open spec fn is_ping_spec(s: Seq<char>) -> bool {
    let t = trim_spec(s);
    t.len() == 4 && (t[0] == 'p' || t[0] == 'P') && (t[1] == 'i' || t[1] == 'I') && (t[2] == 'n'
        || t[2] == 'N') && (t[3] == 'g' || t[3] == 'G')
}

/// Liveness-probe test: trimmed, ASCII-case-insensitive equality with
/// `ping`.
pub fn is_ping(s: &str) -> (r: bool)
    ensures
        r == is_ping_spec(s@),
{
    let t = trim_ascii(s);
    if t.unicode_len() != 4 {
        return false;
    }
    let c0 = t.get_char(0);
    let c1 = t.get_char(1);
    let c2 = t.get_char(2);
    let c3 = t.get_char(3);
    (c0 == 'p' || c0 == 'P') && (c1 == 'i' || c1 == 'I') && (c2 == 'n' || c2 == 'N') && (c3 == 'g'
        || c3 == 'G')
}

/// The text with its first `n` characters and the following whitespace
/// removed, after trimming: what remains of a recognized command once its
/// prefix is stripped.
pub open spec fn strip_prefix_spec(s: Seq<char>, n: nat) -> Seq<char> {
    trim_spec(trim_spec(s).skip(n as int))
}

/// Strip the first `n` characters of the trimmed text and trim what
/// follows.
pub fn strip_prefix_and_trim(s: &str, n: usize) -> (r: String)
    requires
        n <= trim_spec(s@).len(),
    ensures
        r@ == strip_prefix_spec(s@, n as nat),
{
    let t = trim_ascii(s);
    let rest = t.substring_char(n, t.unicode_len());
    proof {
        assert(rest@ =~= trim_spec(s@).skip(n as int));
    }
    trim_ascii(rest).to_owned()
}

/// The prefix of `s` before its first newline; all of `s` when it has none.
pub open spec fn first_line_spec(s: Seq<char>) -> Seq<char>
    decreases s.len(),
{
    if s.len() == 0 {
        s
    } else if s[0] == '\n' {
        Seq::empty()
    } else {
        seq![s[0]] + first_line_spec(s.skip(1))
    }
}

proof fn lemma_first_line_at(s: Seq<char>, i: int)
    requires
        0 <= i <= s.len(),
        forall|j: int| 0 <= j < i ==> s[j] != '\n',
        i == s.len() || s[i] == '\n',
    ensures
        first_line_spec(s) == s.subrange(0, i),
    decreases i,
{
    if i == 0 {
        assert(first_line_spec(s) =~= s.subrange(0, 0));
    } else {
        let s1 = s.skip(1);
        lemma_first_line_at(s1, i - 1);
        assert(seq![s[0]] + s1.subrange(0, i - 1) =~= s.subrange(0, i));
    }
}

/// The first line of a command's output, as shown in the run summary.
pub fn first_line(s: &str) -> (r: &str)
    ensures
        r@ == first_line_spec(s@),
{
    let n = s.unicode_len();
    let mut i: usize = 0;
    while i < n && s.get_char(i) != '\n'
        invariant
            i <= n,
            n == s@.len(),
            forall|j: int| 0 <= j < i ==> s@[j] != '\n',
        decreases n - i,
    {
        i += 1;
    }
    proof {
        lemma_first_line_at(s@, i as int);
    }
    s.substring_char(0, i)
}

/// The decimal digit character for a value below ten.
pub open spec fn digit_char(d: nat) -> char {
    if d == 0 {
        '0'
    } else if d == 1 {
        '1'
    } else if d == 2 {
        '2'
    } else if d == 3 {
        '3'
    } else if d == 4 {
        '4'
    } else if d == 5 {
        '5'
    } else if d == 6 {
        '6'
    } else if d == 7 {
        '7'
    } else if d == 8 {
        '8'
    } else {
        '9'
    }
}

/// The decimal notation of a number.
pub open spec fn dec_str_spec(n: nat) -> Seq<char>
    decreases n,
{
    if n < 10 {
        seq![digit_char(n)]
    } else {
        dec_str_spec(n / 10) + seq![digit_char(n % 10)]
    }
}

fn digit_str(d: u64) -> (r: &'static str)
    requires
        d < 10,
    ensures
        r@ == seq![digit_char(d as nat)],
{
    proof {
        reveal_strlit("0");
        reveal_strlit("1");
        reveal_strlit("2");
        reveal_strlit("3");
        reveal_strlit("4");
        reveal_strlit("5");
        reveal_strlit("6");
        reveal_strlit("7");
        reveal_strlit("8");
        reveal_strlit("9");
    }
    if d == 0 {
        proof {
            assert("0"@ =~= seq![digit_char(0)]);
        }
        "0"
    } else if d == 1 {
        proof {
            assert("1"@ =~= seq![digit_char(1)]);
        }
        "1"
    } else if d == 2 {
        proof {
            assert("2"@ =~= seq![digit_char(2)]);
        }
        "2"
    } else if d == 3 {
        proof {
            assert("3"@ =~= seq![digit_char(3)]);
        }
        "3"
    } else if d == 4 {
        proof {
            assert("4"@ =~= seq![digit_char(4)]);
        }
        "4"
    } else if d == 5 {
        proof {
            assert("5"@ =~= seq![digit_char(5)]);
        }
        "5"
    } else if d == 6 {
        proof {
            assert("6"@ =~= seq![digit_char(6)]);
        }
        "6"
    } else if d == 7 {
        proof {
            assert("7"@ =~= seq![digit_char(7)]);
        }
        "7"
    } else if d == 8 {
        proof {
            assert("8"@ =~= seq![digit_char(8)]);
        }
        "8"
    } else {
        proof {
            assert("9"@ =~= seq![digit_char(9)]);
        }
        "9"
    }
}

/// The digit characters of a least-significant-first digit list, read back
/// most significant first.
pub open spec fn rev_digit_chars(digits: Seq<u64>) -> Seq<char>
    decreases digits.len(),
{
    if digits.len() == 0 {
        Seq::empty()
    } else {
        seq![digit_char(digits.last() as nat)] + rev_digit_chars(digits.drop_last())
    }
}

proof fn lemma_rev_digit_chars(s: Seq<u64>)
    ensures
        rev_digit_chars(s).len() == s.len(),
        forall|i: int|
            0 <= i < s.len() ==> #[trigger] rev_digit_chars(s)[i] == digit_char(
                s[s.len() - 1 - i] as nat,
            ),
    decreases s.len(),
{
    if s.len() > 0 {
        lemma_rev_digit_chars(s.drop_last());
    }
}

/// The decimal notation of a number, as text.
pub fn u64_to_string(n: u64) -> (r: String)
    ensures
        r@ == dec_str_spec(n as nat),
{
    let mut digits: Vec<u64> = Vec::new();
    let mut m: u64 = n;
    loop
        invariant_except_break
            forall|j: int| 0 <= j < digits@.len() ==> #[trigger] digits@[j] < 10,
            dec_str_spec(n as nat) == dec_str_spec(m as nat) + rev_digit_chars(digits@),
        ensures
            forall|j: int| 0 <= j < digits@.len() ==> #[trigger] digits@[j] < 10,
            dec_str_spec(n as nat) == rev_digit_chars(digits@),
        decreases m,
    {
        let ghost before = digits@;
        let d = m % 10;
        let next = m / 10;
        digits.push(d);
        proof {
            assert(digits@.drop_last() =~= before);
            assert(rev_digit_chars(digits@) == seq![digit_char(d as nat)] + rev_digit_chars(
                before,
            ));
            if m < 10 {
                assert(dec_str_spec(n as nat) =~= rev_digit_chars(digits@));
            } else {
                assert(dec_str_spec(m as nat) == dec_str_spec(next as nat) + seq![
                    digit_char(d as nat),
                ]);
                assert(dec_str_spec(next as nat) + seq![digit_char(d as nat)] + rev_digit_chars(
                    before,
                ) =~= dec_str_spec(next as nat) + rev_digit_chars(digits@));
            }
        }
        m = next;
        if m == 0 {
            break ;
        }
    }
    let mut acc = String::new();
    let mut k: usize = digits.len();
    #[verifier::loop_isolation(false)]
    while k > 0
        invariant
            k <= digits@.len(),
            acc@.len() == digits@.len() - k,
            forall|i: int|
                0 <= i < acc@.len() ==> #[trigger] acc@[i] == digit_char(
                    digits@[digits@.len() - 1 - i] as nat,
                ),
        decreases k,
    {
        k -= 1;
        acc.append(digit_str(digits[k]));
    }
    proof {
        lemma_rev_digit_chars(digits@);
        assert(acc@ =~= rev_digit_chars(digits@));
    }
    acc
}

/// String equality on views, via owned comparison.
pub fn str_eq(a: &str, b: &str) -> (r: bool)
    ensures
        r == (a@ == b@),
{
    let x: String = a.to_owned();
    let y: String = b.to_owned();
    x == y
}

/// Whether `s` and `p` agree on the window of `s` starting at `from`.
fn match_at(s: &str, p: &str, from: usize) -> (r: bool)
    requires
        from + p@.len() <= s@.len(),
        s@.len() <= usize::MAX,
    ensures
        r == (s@.subrange(from as int, from + p@.len()) == p@),
{
    let m = p.unicode_len();
    let mut j: usize = 0;
    while j < m
        invariant
            j <= m,
            m == p@.len(),
            from + m <= s@.len(),
            s@.len() <= usize::MAX,
            forall|k: int| 0 <= k < j ==> s@[from + k] == p@[k],
        decreases m - j,
    {
        if s.get_char(from + j) != p.get_char(j) {
            proof {
                assert(s@.subrange(from as int, from + p@.len())[j as int] != p@[j as int]);
            }
            return false;
        }
        j += 1;
    }
    proof {
        assert(s@.subrange(from as int, from + p@.len()) =~= p@);
    }
    true
}

/// Prefix test on character views.
pub fn starts_with_str(s: &str, p: &str) -> (r: bool)
    ensures
        r == starts_with_spec(s@, p@),
{
    let n = s.unicode_len();
    let m = p.unicode_len();
    if m > n {
        return false;
    }
    match_at(s, p, 0)
}

/// Suffix test on character views.
pub fn ends_with_str(s: &str, p: &str) -> (r: bool)
    ensures
        r == ends_with_spec(s@, p@),
{
    let n = s.unicode_len();
    let m = p.unicode_len();
    if m > n {
        return false;
    }
    match_at(s, p, n - m)
}

/// Substring test on character views.
pub fn contains_str(s: &str, p: &str) -> (r: bool)
    ensures
        r == contains_spec(s@, p@),
{
    let n = s.unicode_len();
    let m = p.unicode_len();
    if m > n {
        return false;
    }
    let mut i: usize = 0;
    loop
        invariant
            n == s@.len(),
            m == p@.len(),
            m <= n,
            n <= usize::MAX,
            i <= n - m,
            forall|j: int| 0 <= j < i ==> #[trigger] s@.subrange(j, j + p@.len()) != p@,
        decreases n - m - i,
    {
        if match_at(s, p, i) {
            return true;
        }
        if i == n - m {
            proof {
                assert(forall|j: int| 0 <= j <= n - m ==> #[trigger] s@.subrange(j, j + p@.len())
                    != p@);
            }
            return false;
        }
        i += 1;
    }
}

} // verus!


//! Verified text helpers: trimming, containment, case folding and decimal
//! rendering over `Seq<char>` views.

use vstd::prelude::*;
use vstd::string::StrSliceExecFns;

verus! {

/// The characters `str::trim` treats as whitespace.
pub open spec fn is_space_char(c: char) -> bool {
    ||| c == ' '
    ||| c == '\t'
    ||| c == '\n'
    ||| c == '\r'
    ||| c as u32 == 0x0b
    ||| c as u32 == 0x0c
    ||| c as u32 == 0x85
    ||| c as u32 == 0xa0
    ||| c as u32 == 0x1680
    ||| (0x2000 <= c as u32 && c as u32 <= 0x200a)
    ||| c as u32 == 0x2028
    ||| c as u32 == 0x2029
    ||| c as u32 == 0x202f
    ||| c as u32 == 0x205f
    ||| c as u32 == 0x3000
}

/// Runtime test for [`is_space_char`].
pub fn is_space(c: char) -> (b: bool)
    ensures
        b == is_space_char(c),
{
    let code = c as u32;
    code == 0x20 || code == 0x09 || code == 0x0a || code == 0x0d || code == 0x0b || code == 0x0c
        || code == 0x85 || code == 0xa0 || code == 0x1680
        || (0x2000 <= code && code <= 0x200a)
        || code == 0x2028 || code == 0x2029 || code == 0x202f || code == 0x205f || code == 0x3000
}

/// The sequence with leading whitespace removed.
pub open spec fn trim_start_spec(s: Seq<char>) -> Seq<char>
    decreases s.len(),
{
    if s.len() > 0 && is_space_char(s[0]) {
        trim_start_spec(s.skip(1))
    } else {
        s
    }
}

/// The sequence with trailing whitespace removed.
pub open spec fn trim_end_spec(s: Seq<char>) -> Seq<char>
    decreases s.len(),
{
    if s.len() > 0 && is_space_char(s[s.len() - 1]) {
        trim_end_spec(s.take(s.len() - 1))
    } else {
        s
    }
}

/// What `str::trim` returns, as a sequence of characters.
pub open spec fn trim_spec(s: Seq<char>) -> Seq<char> {
    trim_end_spec(trim_start_spec(s))
}

proof fn lemma_trim_start_skip(s: Seq<char>, k: int)
    requires
        0 <= k <= s.len(),
        forall|j: int| 0 <= j < k ==> is_space_char(s[j]),
    ensures
        trim_start_spec(s) == trim_start_spec(s.skip(k)),
    decreases k,
{
    if k > 0 {
        assert(is_space_char(s[0]));
        let t = s.skip(1);
        assert forall|j: int| 0 <= j < k - 1 implies is_space_char(t[j]) by {
            assert(t[j] == s[j + 1]);
        }
        lemma_trim_start_skip(t, k - 1);
        assert(t.skip(k - 1) =~= s.skip(k));
    } else {
        assert(s.skip(0) =~= s);
    }
}

proof fn lemma_trim_end_take(s: Seq<char>, k: int)
    requires
        0 <= k <= s.len(),
        forall|j: int| k <= j < s.len() ==> is_space_char(s[j]),
    ensures
        trim_end_spec(s) == trim_end_spec(s.take(k)),
    decreases s.len() - k,
{
    if k < s.len() {
        assert(is_space_char(s[s.len() - 1]));
        let t = s.take(s.len() - 1);
        assert forall|j: int| k <= j < t.len() implies is_space_char(t[j]) by {
            assert(t[j] == s[j]);
        }
        lemma_trim_end_take(t, k);
        assert(t.take(k) =~= s.take(k));
    } else {
        assert(s.take(k) =~= s);
    }
}

/// What `str::trim` returns, as an owned string.
pub fn trim_str(s: &str) -> (r: String)
    ensures
        r@ == trim_spec(s@),
{
    let n = s.unicode_len();
    let mut start: usize = 0;
    while start < n && is_space(s.get_char(start))
        invariant
            0 <= start <= n,
            n == s@.len(),
            forall|j: int| 0 <= j < start ==> is_space_char(s@[j]),
        decreases n - start,
    {
        start += 1;
    }
    proof {
        lemma_trim_start_skip(s@, start as int);
        if start < n {
            assert(s@.skip(start as int)[0] == s@[start as int]);
            assert(trim_start_spec(s@.skip(start as int)) == s@.skip(start as int));
        } else {
            assert(s@.skip(start as int) =~= Seq::<char>::empty());
            assert(trim_start_spec(s@) =~= Seq::<char>::empty());
        }
    }
    let ghost t = s@.skip(start as int);
    let mut end: usize = n;
    while end > start && is_space(s.get_char(end - 1))
        invariant
            start <= end <= n,
            n == s@.len(),
            t == s@.skip(start as int),
            forall|j: int| end <= j < n ==> is_space_char(s@[j]),
        decreases end,
    {
        end -= 1;
    }
    proof {
        assert(forall|j: int| end - start <= j < t.len() ==> is_space_char(t[j]));
        lemma_trim_end_take(t, end - start);
        let u = t.take(end - start);
        if end > start {
            assert(u[u.len() - 1] == s@[end - 1]);
            assert(trim_end_spec(u) == u);
        } else {
            assert(u =~= Seq::<char>::empty());
            assert(trim_end_spec(u) == u);
        }
        assert(u =~= s@.subrange(start as int, end as int));
    }
    let sub = s.substring_char(start, end);
    sub.to_owned()
}

/// Whether `t` occurs as a contiguous run of characters inside `s`.
pub open spec fn contains_seq(s: Seq<char>, t: Seq<char>) -> bool {
    exists|i: int| 0 <= i && i + t.len() <= s.len() && #[trigger] s.subrange(i, i + t.len()) == t
}

/// Runtime substring search; `str::contains` for exact character runs.
pub fn contains_str(s: &str, t: &str) -> (b: bool)
    ensures
        b == contains_seq(s@, t@),
{
    let n = s.unicode_len();
    let m = t.unicode_len();
    if m > n {
        return false;
    }
    let nm = n - m;
    let mut i: usize = 0;
    while i <= nm
        invariant
            m <= n,
            nm == n - m,
            n == s@.len(),
            m == t@.len(),
            0 <= i <= nm + 1,
            forall|k: int| 0 <= k < i ==> #[trigger] s@.subrange(k, k + m as int) != t@,
        decreases nm + 1 - i,
    {
        let mut j: usize = 0;
        let mut ok = true;
        while j < m
            invariant
                i <= nm,
                nm == n - m,
                i + m <= n,
                n == s@.len(),
                m == t@.len(),
                0 <= j <= m,
                ok ==> forall|p: int| 0 <= p < j ==> s@[i + p] == t@[p],
                !ok ==> s@.subrange(i as int, i as int + m as int) != t@,
            decreases m - j,
        {
            if s.get_char(i + j) != t.get_char(j) {
                proof {
                    let sub = s@.subrange(i as int, i as int + m as int);
                    assert(sub[j as int] == s@[i + j]);
                }
                ok = false;
                j = m;
            } else {
                j += 1;
            }
        }
        if ok {
            proof {
                assert(s@.subrange(i as int, i as int + m as int) =~= t@);
            }
            return true;
        }
        proof {
            if m == 0 {
                assert(s@.subrange(i as int, i as int + m as int) =~= t@);
            }
        }
        i += 1;
    }
    proof {
        assert forall|k: int| 0 <= k && k + t@.len() <= s@.len() implies #[trigger] s@.subrange(
            k,
            k + t@.len(),
        ) != t@ by {
            assert(k < i);
        }
    }
    false
}

/// Runtime character-for-character equality of two string slices.
pub fn str_eq(a: &str, b: &str) -> (r: bool)
    ensures
        r == (a@ == b@),
{
    let n = a.unicode_len();
    if n != b.unicode_len() {
        return false;
    }
    let mut i: usize = 0;
    while i < n
        invariant
            0 <= i <= n,
            n == a@.len(),
            n == b@.len(),
            forall|j: int| 0 <= j < i ==> a@[j] == b@[j],
        decreases n - i,
    {
        if a.get_char(i) != b.get_char(i) {
            return false;
        }
        i += 1;
    }
    proof {
        assert(a@ =~= b@);
    }
    true
}

/// A run that does not start with whitespace survives left-trimming.
pub proof fn lemma_contains_trim_start(s: Seq<char>, t: Seq<char>)
    requires
        contains_seq(s, t),
        t.len() > 0,
        !is_space_char(t[0]),
    ensures
        contains_seq(trim_start_spec(s), t),
    decreases s.len(),
{
    if s.len() > 0 && is_space_char(s[0]) {
        let i = choose|i: int|
            0 <= i && i + t.len() <= s.len() && #[trigger] s.subrange(i, i + t.len()) == t;
        assert(s.subrange(i, i + t.len())[0] == s[i]);
        assert(i >= 1);
        assert(s.skip(1).subrange(i - 1, i - 1 + t.len()) =~= s.subrange(i, i + t.len()));
        assert(contains_seq(s.skip(1), t));
        lemma_contains_trim_start(s.skip(1), t);
    }
}

/// A run that does not end with whitespace survives right-trimming.
pub proof fn lemma_contains_trim_end(s: Seq<char>, t: Seq<char>)
    requires
        contains_seq(s, t),
        t.len() > 0,
        !is_space_char(t[t.len() - 1]),
    ensures
        contains_seq(trim_end_spec(s), t),
    decreases s.len(),
{
    if s.len() > 0 && is_space_char(s[s.len() - 1]) {
        let i = choose|i: int|
            0 <= i && i + t.len() <= s.len() && #[trigger] s.subrange(i, i + t.len()) == t;
        assert(s.subrange(i, i + t.len())[t.len() - 1] == s[i + t.len() - 1]);
        assert(i + t.len() <= s.len() - 1);
        assert(s.take(s.len() - 1).subrange(i, i + t.len()) =~= s.subrange(i, i + t.len()));
        assert(contains_seq(s.take(s.len() - 1), t));
        lemma_contains_trim_end(s.take(s.len() - 1), t);
    }
}

/// Whatever occurs in the left-trimmed text occurs in the text itself.
pub proof fn lemma_trim_start_contains_rev(s: Seq<char>, t: Seq<char>)
    requires
        contains_seq(trim_start_spec(s), t),
    ensures
        contains_seq(s, t),
    decreases s.len(),
{
    if s.len() > 0 && is_space_char(s[0]) {
        lemma_trim_start_contains_rev(s.skip(1), t);
        let i = choose|i: int|
            0 <= i && i + t.len() <= s.skip(1).len() && #[trigger] s.skip(1).subrange(
                i,
                i + t.len(),
            ) == t;
        assert(s.subrange(i + 1, i + 1 + t.len()) =~= s.skip(1).subrange(i, i + t.len()));
        assert(contains_seq(s, t));
    }
}

/// Whatever occurs in the right-trimmed text occurs in the text itself.
pub proof fn lemma_trim_end_contains_rev(s: Seq<char>, t: Seq<char>)
    requires
        contains_seq(trim_end_spec(s), t),
    ensures
        contains_seq(s, t),
    decreases s.len(),
{
    if s.len() > 0 && is_space_char(s[s.len() - 1]) {
        lemma_trim_end_contains_rev(s.take(s.len() - 1), t);
        let u = s.take(s.len() - 1);
        let i = choose|i: int|
            0 <= i && i + t.len() <= u.len() && #[trigger] u.subrange(i, i + t.len()) == t;
        assert(s.subrange(i, i + t.len()) =~= u.subrange(i, i + t.len()));
        assert(contains_seq(s, t));
    }
}

/// Whatever occurs in the trimmed text occurs in the text itself.
pub proof fn lemma_trim_contains_rev(s: Seq<char>, t: Seq<char>)
    requires
        contains_seq(trim_spec(s), t),
    ensures
        contains_seq(s, t),
{
    lemma_trim_end_contains_rev(trim_start_spec(s), t);
    lemma_trim_start_contains_rev(s, t);
}

/// A run with no whitespace at either end survives trimming.
pub proof fn lemma_contains_trim(s: Seq<char>, t: Seq<char>)
    requires
        contains_seq(s, t),
        t.len() > 0,
        !is_space_char(t[0]),
        !is_space_char(t[t.len() - 1]),
    ensures
        contains_seq(trim_spec(s), t),
{
    lemma_contains_trim_start(s, t);
    lemma_contains_trim_end(trim_start_spec(s), t);
}

/// Whether `s` begins with the character run `p`.
pub open spec fn starts_with_seq(s: Seq<char>, p: Seq<char>) -> bool {
    p.len() <= s.len() && s.subrange(0, p.len() as int) == p
}

/// Runtime prefix test; `str::starts_with` for exact character runs.
pub fn starts_with_str(s: &str, p: &str) -> (b: bool)
    ensures
        b == starts_with_seq(s@, p@),
{
    let n = s.unicode_len();
    let m = p.unicode_len();
    if m > n {
        return false;
    }
    let mut i: usize = 0;
    while i < m
        invariant
            m <= n,
            n == s@.len(),
            m == p@.len(),
            0 <= i <= m,
            forall|j: int| 0 <= j < i ==> s@[j] == p@[j],
        decreases m - i,
    {
        if s.get_char(i) != p.get_char(i) {
            proof {
                let sub = s@.subrange(0, m as int);
                assert(sub[i as int] == s@[i as int]);
            }
            return false;
        }
        i += 1;
    }
    proof {
        assert(s@.subrange(0, m as int) =~= p@);
    }
    true
}

/// ASCII upper-case letters folded to lower case; all other characters kept.
pub open spec fn lower_char(c: char) -> char {
    if 0x41 <= c as u32 && c as u32 <= 0x5a {
        ((c as u32 + 0x20) as u8) as char
    } else {
        c
    }
}

/// [`lower_char`] applied to every character.
pub open spec fn lower_seq(s: Seq<char>) -> Seq<char> {
    s.map_values(|c: char| lower_char(c))
}

/// Runtime ASCII case folding of one character.
pub fn lower_char_exec(c: char) -> (r: char)
    ensures
        r == lower_char(c),
{
    let code = c as u32;
    if 0x41 <= code && code <= 0x5a {
        ((code + 0x20) as u8) as char
    } else {
        c
    }
}

/// What `str::to_ascii_lowercase` returns.
pub fn to_lowercase_str(s: &str) -> (r: String)
    ensures
        r@ == lower_seq(s@),
{
    let n = s.unicode_len();
    let mut out = String::new();
    let mut i: usize = 0;
    while i < n
        invariant
            0 <= i <= n,
            n == s@.len(),
            out@ == lower_seq(s@.take(i as int)),
        decreases n - i,
    {
        let c = lower_char_exec(s.get_char(i));
        push_char(&mut out, c);
        proof {
            assert(lower_seq(s@.take(i + 1)) =~= lower_seq(s@.take(i as int)).push(
                lower_char(s@[i as int]),
            ));
        }
        i += 1;
    }
    proof {
        assert(s@.take(n as int) =~= s@);
    }
    out
}

/// The decimal digit `d` (0 to 9) as a character.
pub open spec fn digit_char(d: int) -> char {
    ((0x30 + d) as u8) as char
}

/// The decimal rendering of a non-negative integer, most significant digit
/// first, with no leading zeros except for zero itself.
pub open spec fn dec_chars(n: nat) -> Seq<char>
    decreases n,
{
    if n < 10 {
        seq![digit_char(n as int)]
    } else {
        dec_chars(n / 10).push(digit_char((n % 10) as int))
    }
}

fn digit_char_exec(d: u8) -> (c: char)
    requires
        d < 10,
    ensures
        c == digit_char(d as int),
{
    (0x30 + d) as char
}

/// Renders a `u64` in decimal, exactly as `format!("{n}")` does.
pub fn u64_dec(n: u64) -> (r: String)
    ensures
        r@ == dec_chars(n as nat),
    decreases n,
{
    if n < 10 {
        let mut s = String::new();
        push_char(&mut s, digit_char_exec(n as u8));
        proof {
            assert(Seq::<char>::empty().push(digit_char(n as int)) =~= seq![
                digit_char(n as int),
            ]);
        }
        s
    } else {
        let mut s = u64_dec(n / 10);
        push_char(&mut s, digit_char_exec((n % 10) as u8));
        s
    }
}

/// The decimal rendering of a signed integer, with a leading minus sign when
/// negative.
pub open spec fn int_chars(v: int) -> Seq<char> {
    if v < 0 {
        seq!['-'] + dec_chars((-v) as nat)
    } else {
        dec_chars(v as nat)
    }
}

/// Renders an `i64` in decimal, exactly as `format!("{v}")` does.
pub fn i64_dec(v: i64) -> (r: String)
    ensures
        r@ == int_chars(v as int),
{
    if v < 0 {
        let mut s = String::new();
        push_char(&mut s, '-');
        let magnitude: u64 = if v == i64::MIN {
            0x8000_0000_0000_0000u64
        } else {
            (-v) as u64
        };
        let digits = u64_dec(magnitude);
        s.append(digits.as_str());
        proof {
            assert(Seq::<char>::empty().push('-') =~= seq!['-']);
        }
        s
    } else {
        u64_dec(v as u64)
    }
}

/// Whether `s` ends with the character run `p`.
pub open spec fn ends_with_seq(s: Seq<char>, p: Seq<char>) -> bool {
    p.len() <= s.len() && s.subrange(s.len() - p.len(), s.len() as int) == p
}

/// Runtime suffix test; `str::ends_with` for exact character runs.
pub fn ends_with_str(s: &str, p: &str) -> (b: bool)
    ensures
        b == ends_with_seq(s@, p@),
{
    let n = s.unicode_len();
    let m = p.unicode_len();
    if m > n {
        return false;
    }
    let off = n - m;
    let mut i: usize = 0;
    while i < m
        invariant
            m <= n,
            off == n - m,
            n == s@.len(),
            m == p@.len(),
            0 <= i <= m,
            forall|j: int| 0 <= j < i ==> s@[off + j] == p@[j],
        decreases m - i,
    {
        if s.get_char(off + i) != p.get_char(i) {
            proof {
                let sub = s@.subrange(off as int, n as int);
                assert(sub[i as int] == s@[off + i]);
            }
            return false;
        }
        i += 1;
    }
    proof {
        assert(s@.subrange(off as int, n as int) =~= p@);
    }
    true
}

/// The index of the first whitespace character, or the length.
pub open spec fn first_space(s: Seq<char>) -> int
    decreases s.len(),
{
    if s.len() == 0 {
        0
    } else if is_space_char(s[0]) {
        0
    } else {
        1 + first_space(s.skip(1))
    }
}

pub broadcast proof fn lemma_first_space_bounds(s: Seq<char>)
    ensures
        0 <= #[trigger] first_space(s) <= s.len(),
    decreases s.len(),
{
    if s.len() > 0 && !is_space_char(s[0]) {
        lemma_first_space_bounds(s.skip(1));
    }
}

proof fn lemma_first_space_at(s: Seq<char>, q: int)
    requires
        0 <= q <= s.len(),
        forall|p: int| 0 <= p < q ==> !is_space_char(s[p]),
        q < s.len() ==> is_space_char(s[q]),
    ensures
        first_space(s) == q,
    decreases q,
{
    if s.len() > 0 && !is_space_char(s[0]) {
        let t = s.skip(1);
        assert(forall|p: int| 0 <= p < q - 1 ==> t[p] == s[p + 1]);
        lemma_first_space_at(t, q - 1);
    }
}

/// What `str::split_whitespace` yields: the maximal whitespace-free runs.
pub open spec fn split_ws(s: Seq<char>) -> Seq<Seq<char>>
    decreases s.len(),
    via split_ws_decreases
{
    if s.len() == 0 {
        Seq::empty()
    } else if is_space_char(s[0]) {
        split_ws(s.skip(1))
    } else {
        let k = first_space(s);
        seq![s.take(k)] + split_ws(s.skip(k))
    }
}

#[via_fn]
proof fn split_ws_decreases(s: Seq<char>) {
    broadcast use lemma_first_space_bounds;

    if s.len() > 0 && !is_space_char(s[0]) {
        assert(first_space(s) == 1 + first_space(s.skip(1)));
    }
}

/// Splits on whitespace, as `str::split_whitespace` does.
pub fn split_whitespace_str(s: &str) -> (r: Vec<String>)
    ensures
        r.deep_view() == split_ws(s@),
{
    let n = s.unicode_len();
    let mut out: Vec<String> = Vec::new();
    let ghost mut done: Seq<Seq<char>> = Seq::empty();
    let mut i: usize = 0;
    proof {
        assert(out.deep_view() =~= Seq::<Seq<char>>::empty());
        assert(s@.skip(0) =~= s@);
        assert(done + split_ws(s@) =~= split_ws(s@));
    }
    while i < n
        invariant
            0 <= i <= n,
            n == s@.len(),
            out.deep_view() == done,
            split_ws(s@) == done + split_ws(s@.skip(i as int)),
        decreases n - i,
    {
        let ghost t = s@.skip(i as int);
        if is_space(s.get_char(i)) {
            proof {
                assert(t[0] == s@[i as int]);
                assert(t.skip(1) =~= s@.skip(i + 1));
            }
            i += 1;
        } else {
            let mut j: usize = i;
            while j < n && !is_space(s.get_char(j))
                invariant
                    i <= j <= n,
                    n == s@.len(),
                    forall|p: int| i <= p < j ==> !is_space_char(s@[p]),
                decreases n - j,
            {
                j += 1;
            }
            proof {
                assert(t[0] == s@[i as int]);
                assert(forall|p: int| 0 <= p < j - i ==> t[p] == s@[i + p]);
                if j < n {
                    assert(t[j - i] == s@[j as int]);
                }
                lemma_first_space_at(t, j - i);
            }
            let word = s.substring_char(i, j);
            let owned = word.to_owned();
            let ghost pre_out = out;
            let ghost owned_snap = owned;
            out.push(owned);
            proof {
                let w = s@.subrange(i as int, j as int);
                lemma_deep_view_push(pre_out, out, owned_snap);
                assert(t.take(j - i) =~= w);
                assert(t.skip(j - i) =~= s@.skip(j as int));
                assert(split_ws(t) =~= seq![w] + split_ws(s@.skip(j as int)));
                done = done.push(w);
                assert(done.drop_last() + (seq![w] + split_ws(s@.skip(j as int))) =~= done
                    + split_ws(s@.skip(j as int)));
            }
            i = j;
        }
    }
    proof {
        assert(s@.skip(n as int) =~= Seq::<char>::empty());
        assert(done + split_ws(s@.skip(n as int)) =~= done);
    }
    out
}

/// Whether `c` is a decimal digit.
pub open spec fn is_digit_char(c: char) -> bool {
    0x30 <= c as u32 && c as u32 <= 0x39
}

/// The value of a run of decimal digits, most significant first.
pub open spec fn dec_value(d: Seq<char>) -> int
    decreases d.len(),
{
    if d.len() == 0 {
        0
    } else {
        dec_value(d.drop_last()) * 10 + (d[d.len() - 1] as u32 - 0x30)
    }
}

/// The digit run of an integer literal: an optional leading plus removed.
pub open spec fn digits_text(s: Seq<char>) -> Seq<char> {
    if s.len() > 0 && s[0] == '+' {
        s.skip(1)
    } else {
        s
    }
}

/// What `str::parse::<u16>` accepts: an optional plus, then only digits,
/// at least one, with a value of at most 65535.
pub open spec fn is_u16_text(s: Seq<char>) -> bool {
    let d = digits_text(s);
    &&& d.len() > 0
    &&& forall|i: int| 0 <= i < d.len() ==> is_digit_char(#[trigger] d[i])
    &&& dec_value(d) <= 65535
}

/// The value `str::parse::<u16>` returns on accepted text.
pub open spec fn u16_text_value(s: Seq<char>) -> u16 {
    dec_value(digits_text(s)) as u16
}

/// A digit run's value only grows as more digits are taken.
proof fn lemma_dec_value_grows(d: Seq<char>, k: int)
    requires
        0 <= k <= d.len(),
        forall|i: int| 0 <= i < d.len() ==> is_digit_char(#[trigger] d[i]),
    ensures
        dec_value(d.take(k)) >= 0,
        dec_value(d) >= dec_value(d.take(k)),
    decreases d.len() - k,
{
    if k == d.len() {
        assert(d.take(k) =~= d);
        lemma_dec_value_nonneg(d);
    } else {
        lemma_dec_value_grows(d, k + 1);
        let u = d.take(k + 1);
        assert(u.drop_last() =~= d.take(k));
        assert(is_digit_char(d[k]));
        lemma_dec_value_nonneg(d.take(k));
    }
}

proof fn lemma_dec_value_nonneg(d: Seq<char>)
    requires
        forall|i: int| 0 <= i < d.len() ==> is_digit_char(#[trigger] d[i]),
    ensures
        dec_value(d) >= 0,
    decreases d.len(),
{
    if d.len() > 0 {
        let u = d.drop_last();
        assert(forall|i: int| 0 <= i < u.len() ==> is_digit_char(#[trigger] u[i]));
        lemma_dec_value_nonneg(u);
    }
}

/// What `str::parse::<u16>` returns.
pub fn parse_u16(s: &str) -> (r: Option<u16>)
    ensures
        r is Some <==> is_u16_text(s@),
        (r matches Some(v) ==> v == u16_text_value(s@)),
{
    let n = s.unicode_len();
    let start: usize = if n > 0 && s.get_char(0) == '+' {
        1
    } else {
        0
    };
    let ghost d = digits_text(s@);
    proof {
        assert(d =~= s@.subrange(start as int, n as int));
    }
    if start >= n {
        return None;
    }
    let mut acc: u32 = 0;
    let mut i: usize = start;
    proof {
        assert(s@.subrange(start as int, start as int) =~= Seq::<char>::empty());
    }
    while i < n
        invariant
            start <= i <= n,
            n == s@.len(),
            d == digits_text(s@),
            d == s@.subrange(start as int, n as int),
            forall|j: int| start <= j < i ==> is_digit_char(#[trigger] s@[j]),
            acc <= 65535,
            acc == dec_value(s@.subrange(start as int, i as int)),
        decreases n - i,
    {
        let c = s.get_char(i);
        let code = c as u32;
        if code < 0x30 || code > 0x39 {
            proof {
                assert(d[i - start] == s@[i as int]);
            }
            return None;
        }
        let digit = code - 0x30;
        let next = acc * 10 + digit;
        proof {
            let pre = s@.subrange(start as int, i as int);
            let ext = s@.subrange(start as int, i + 1);
            assert(ext.drop_last() =~= pre);
            assert(ext[ext.len() - 1] == s@[i as int]);
        }
        if next > 65535 {
            proof {
                if is_u16_text(s@) {
                    assert(forall|j: int| 0 <= j < d.len() ==> is_digit_char(#[trigger] d[j]));
                    lemma_dec_value_grows(d, i + 1 - start);
                    assert(d.take(i + 1 - start) =~= s@.subrange(start as int, i + 1));
                }
            }
            return None;
        }
        acc = next;
        i += 1;
    }
    proof {
        assert(forall|j: int| 0 <= j < d.len() ==> is_digit_char(#[trigger] d[j]));
        assert(d =~= s@.subrange(start as int, n as int));
    }
    Some(acc as u16)
}

/// What `str::parse::<u32>` accepts: an optional plus, then only digits,
/// at least one, with a value of at most 4294967295.
pub open spec fn is_u32_text(s: Seq<char>) -> bool {
    let d = digits_text(s);
    &&& d.len() > 0
    &&& forall|i: int| 0 <= i < d.len() ==> is_digit_char(#[trigger] d[i])
    &&& dec_value(d) <= 0xffff_ffff
}

/// The value `str::parse::<u32>` returns on accepted text.
pub open spec fn u32_text_value(s: Seq<char>) -> u32 {
    dec_value(digits_text(s)) as u32
}

/// What `str::parse::<u32>` returns.
pub fn parse_u32(s: &str) -> (r: Option<u32>)
    ensures
        r is Some <==> is_u32_text(s@),
        (r matches Some(v) ==> v == u32_text_value(s@)),
{
    let n = s.unicode_len();
    let start: usize = if n > 0 && s.get_char(0) == '+' {
        1
    } else {
        0
    };
    let ghost d = digits_text(s@);
    proof {
        assert(d =~= s@.subrange(start as int, n as int));
    }
    if start >= n {
        return None;
    }
    let mut acc: u64 = 0;
    let mut i: usize = start;
    proof {
        assert(s@.subrange(start as int, start as int) =~= Seq::<char>::empty());
    }
    while i < n
        invariant
            start <= i <= n,
            n == s@.len(),
            d == digits_text(s@),
            d == s@.subrange(start as int, n as int),
            forall|j: int| start <= j < i ==> is_digit_char(#[trigger] s@[j]),
            acc <= 0xffff_ffff,
            acc == dec_value(s@.subrange(start as int, i as int)),
        decreases n - i,
    {
        let c = s.get_char(i);
        let code = c as u32;
        if code < 0x30 || code > 0x39 {
            proof {
                assert(d[i - start] == s@[i as int]);
            }
            return None;
        }
        let digit = (code - 0x30) as u64;
        let next = acc * 10 + digit;
        proof {
            let pre = s@.subrange(start as int, i as int);
            let ext = s@.subrange(start as int, i + 1);
            assert(ext.drop_last() =~= pre);
            assert(ext[ext.len() - 1] == s@[i as int]);
        }
        if next > 0xffff_ffff {
            proof {
                if is_u32_text(s@) {
                    assert(forall|j: int| 0 <= j < d.len() ==> is_digit_char(#[trigger] d[j]));
                    lemma_dec_value_grows(d, i + 1 - start);
                    assert(d.take(i + 1 - start) =~= s@.subrange(start as int, i + 1));
                }
            }
            return None;
        }
        acc = next;
        i += 1;
    }
    proof {
        assert(forall|j: int| 0 <= j < d.len() ==> is_digit_char(#[trigger] d[j]));
        assert(d =~= s@.subrange(start as int, n as int));
    }
    Some(acc as u32)
}

/// Pushing onto a vector of strings pushes the view onto the deep view.
pub proof fn lemma_deep_view_push(pre: Vec<String>, post: Vec<String>, x: String)
    requires
        post@ == pre@.push(x),
    ensures
        post.deep_view() == pre.deep_view().push(x@),
{
    assert(post.deep_view() =~= pre.deep_view().push(x@));
}

/// Relies on `String::push`: appends exactly one character at the end.
#[verifier::external_body]
pub fn push_char(s: &mut String, c: char)
    ensures
        final(s)@ == old(s)@.push(c),
{
    s.push(c);
}

} // verus!

//! Text helpers over `&str` and `String`, with contracts over `Seq<char>`:
//! Unicode whitespace trimming, lowercasing, searching, splitting and the
//! decimal parsing rules of `str::parse` for `bool` and signed integers.

use vstd::prelude::*;

verus! {

// ---------------------------------------------------------------------------
// Characters and building strings
// ---------------------------------------------------------------------------

/// The characters of `s`, in order.
pub fn char_vec(s: &str) -> (v: Vec<char>)
    ensures
        v@ == s@,
{
    let mut v: Vec<char> = Vec::new();
    for c in it: s.chars()
        invariant
            v@ == it.seq().take(it.index()),
            it.seq() == s@,
    {
        v.push(c);
    }
    v
}

/// `String::push`: appends one character.
#[verifier::external_body]
pub(crate) fn push_char(s: &mut String, c: char)
    ensures
        final(s)@ == old(s)@.push(c),
{
    s.push(c);
}

/// The string made of the characters of `v` from `start` (inclusive) to
/// `end` (exclusive).
pub fn string_of(v: &Vec<char>, start: usize, end: usize) -> (s: String)
    requires
        start <= end <= v@.len(),
    ensures
        s@ == v@.subrange(start as int, end as int),
{
    let mut s = String::new();
    let mut i = start;
    while i < end
        invariant
            start <= i <= end <= v@.len(),
            s@ == v@.subrange(start as int, i as int),
        decreases end - i,
    {
        push_char(&mut s, v[i]);
        assert(v@.subrange(start as int, (i + 1) as int) == v@.subrange(start as int, i as int).push(v@[i as int]));
        i = i + 1;
    }
    s
}

/// The characters of `v` from `start` (inclusive) to `end` (exclusive).
pub fn sub_chars(v: &Vec<char>, start: usize, end: usize) -> (r: Vec<char>)
    requires
        start <= end <= v@.len(),
    ensures
        r@ == v@.subrange(start as int, end as int),
{
    let mut r: Vec<char> = Vec::new();
    let mut i = start;
    while i < end
        invariant
            start <= i <= end <= v@.len(),
            r@ == v@.subrange(start as int, i as int),
        decreases end - i,
    {
        r.push(v[i]);
        assert(v@.subrange(start as int, (i + 1) as int) == v@.subrange(start as int, i as int).push(v@[i as int]));
        i = i + 1;
    }
    r
}

/// Whether two character sequences are equal.
pub fn chars_eq(a: &Vec<char>, b: &Vec<char>) -> (r: bool)
    ensures
        r == (a@ == b@),
{
    if a.len() != b.len() {
        return false;
    }
    let mut i: usize = 0;
    while i < a.len()
        invariant
            a@.len() == b@.len(),
            i <= a@.len(),
            forall|j: int| 0 <= j < i ==> a@[j] == b@[j],
        decreases a@.len() - i,
    {
        if a[i] != b[i] {
            return false;
        }
        i = i + 1;
    }
    assert(a@ =~= b@);
    true
}

/// An owned copy of `s`.
pub fn owned(s: &str) -> (r: String)
    ensures
        r@ == s@,
{
    s.to_owned()
}

/// Whether two texts hold the same characters.
pub fn text_eq(a: &str, b: &str) -> (r: bool)
    ensures
        r == (a@ == b@),
{
    let x = a.to_owned();
    let y = b.to_owned();
    x == y
}

// ---------------------------------------------------------------------------
// Whitespace and trimming
// ---------------------------------------------------------------------------

/// The Unicode `White_Space` property: the characters that `char::is_whitespace`
/// and `str::trim` treat as whitespace.
pub open spec fn is_white_space(c: char) -> bool {
    let u = c as u32;
    ||| 0x09 <= u <= 0x0d
    ||| u == 0x20
    ||| u == 0x85
    ||| u == 0xa0
    ||| u == 0x1680
    ||| 0x2000 <= u <= 0x200a
    ||| u == 0x2028
    ||| u == 0x2029
    ||| u == 0x202f
    ||| u == 0x205f
    ||| u == 0x3000
}

/// Whether `c` has the Unicode `White_Space` property.
pub fn is_whitespace(c: char) -> (r: bool)
    ensures
        r == is_white_space(c),
{
    let u = c as u32;
    (0x09 <= u && u <= 0x0d) || u == 0x20 || u == 0x85 || u == 0xa0 || u == 0x1680 || (0x2000 <= u
        && u <= 0x200a) || u == 0x2028 || u == 0x2029 || u == 0x202f || u == 0x205f || u == 0x3000
}

/// `s` without its leading whitespace.
pub open spec fn trim_start(s: Seq<char>) -> Seq<char>
    decreases s.len(),
{
    if s.len() > 0 && is_white_space(s[0]) {
        trim_start(s.drop_first())
    } else {
        s
    }
}

/// `s` without its trailing whitespace.
pub open spec fn trim_end(s: Seq<char>) -> Seq<char>
    decreases s.len(),
{
    if s.len() > 0 && is_white_space(s.last()) {
        trim_end(s.drop_last())
    } else {
        s
    }
}

/// `s` without leading and trailing whitespace, as `str::trim` gives it.
pub open spec fn trim(s: Seq<char>) -> Seq<char> {
    trim_end(trim_start(s))
}

proof fn lemma_trim_start_skip(s: Seq<char>, k: int)
    requires
        0 <= k <= s.len(),
        forall|j: int| 0 <= j < k ==> is_white_space(#[trigger] s[j]),
    ensures
        trim_start(s) == trim_start(s.subrange(k, s.len() as int)),
    decreases k,
{
    if k > 0 {
        assert(s.drop_first().subrange(k - 1, s.drop_first().len() as int) == s.subrange(
            k,
            s.len() as int,
        ));
        assert forall|j: int| 0 <= j < k - 1 implies is_white_space(#[trigger] s.drop_first()[j]) by {
            assert(s.drop_first()[j] == s[j + 1]);
        }
        lemma_trim_start_skip(s.drop_first(), k - 1);
    } else {
        assert(s.subrange(0, s.len() as int) == s);
    }
}

proof fn lemma_trim_end_take(s: Seq<char>, k: int)
    requires
        0 <= k <= s.len(),
        forall|j: int| k <= j < s.len() ==> is_white_space(#[trigger] s[j]),
    ensures
        trim_end(s) == trim_end(s.subrange(0, k)),
    decreases s.len() - k,
{
    if k < s.len() {
        assert(s.drop_last().subrange(0, k) == s.subrange(0, k));
        lemma_trim_end_take(s.drop_last(), k);
    } else {
        assert(s.subrange(0, k) == s);
    }
}

/// The characters of `v` without leading and trailing whitespace.
pub fn trim_chars(v: &Vec<char>) -> (r: Vec<char>)
    ensures
        r@ == trim(v@),
{
    let n = v.len();
    let mut i: usize = 0;
    while i < n && is_whitespace(v[i])
        invariant
            0 <= i <= n == v@.len(),
            forall|j: int| 0 <= j < i ==> is_white_space(#[trigger] v@[j]),
        decreases n - i,
    {
        i = i + 1;
    }
    let ghost rest = v@.subrange(i as int, n as int);
    proof {
        lemma_trim_start_skip(v@, i as int);
        if rest.len() > 0 {
            assert(rest[0] == v@[i as int]);
        }
        assert(trim_start(rest) == rest);
    }
    let mut j: usize = n;
    while j > i && is_whitespace(v[j - 1])
        invariant
            i <= j <= n == v@.len(),
            forall|k: int| j <= k < n ==> is_white_space(#[trigger] v@[k]),
        decreases j,
    {
        j = j - 1;
    }
    let mut r: Vec<char> = Vec::new();
    let mut k = i;
    while k < j
        invariant
            i <= k <= j <= n == v@.len(),
            r@ == v@.subrange(i as int, k as int),
        decreases j - k,
    {
        r.push(v[k]);
        assert(v@.subrange(i as int, (k + 1) as int) == v@.subrange(i as int, k as int).push(
            v@[k as int],
        ));
        k = k + 1;
    }
    proof {
        let m = rest.len() as int;
        let jj = j - i;
        assert forall|q: int| jj <= q < m implies is_white_space(#[trigger] rest[q]) by {
            assert(rest[q] == v@[q + i]);
        }
        lemma_trim_end_take(rest, jj);
        assert(rest.subrange(0, jj) == v@.subrange(i as int, j as int));
        let t = rest.subrange(0, jj);
        if t.len() > 0 {
            assert(t.last() == v@[j - 1]);
        }
        assert(trim_end(t) == t);
    }
    r
}

/// `str::trim`: `s` without leading and trailing Unicode whitespace.
pub fn trim_text(s: &str) -> (r: String)
    ensures
        r@ == trim(s@),
{
    let v = char_vec(s);
    let t = trim_chars(&v);
    string_of(&t, 0, t.len())
}

// ---------------------------------------------------------------------------
// Lowercasing
// ---------------------------------------------------------------------------

/// What `str::to_lowercase` makes of a text: each character replaced by its
/// Unicode lowercase mapping.
pub uninterp spec fn lowercase(s: Seq<char>) -> Seq<char>;

/// `str::to_lowercase`.
#[verifier::external_body]
pub(crate) fn to_lowercase(s: &str) -> (r: String)
    ensures
        r@ == lowercase(s@),
{
    s.to_lowercase()
}

// ---------------------------------------------------------------------------
// Searching
// ---------------------------------------------------------------------------

/// Whether `s` holds `pat` as a contiguous piece.
pub open spec fn has_piece(s: Seq<char>, pat: Seq<char>) -> bool {
    exists|i: int| 0 <= i && i + pat.len() <= s.len() && #[trigger] s.subrange(i, i + pat.len()) == pat
}

/// Whether `v` holds `pat` starting at `i`.
fn piece_at(v: &Vec<char>, pat: &Vec<char>, i: usize) -> (r: bool)
    requires
        i + pat@.len() <= v@.len(),
    ensures
        r == (v@.subrange(i as int, i + pat@.len()) == pat@),
{
    let vl = v.len();
    let mut k: usize = 0;
    while k < pat.len()
        invariant
            vl == v@.len(),
            k <= pat@.len(),
            i + pat@.len() <= v@.len(),
            forall|q: int| 0 <= q < k ==> v@[i + q] == pat@[q],
        decreases pat@.len() - k,
    {
        assert(i + k < v@.len());
        if v[i + k] != pat[k] {
            assert(v@.subrange(i as int, i + pat@.len())[k as int] != pat@[k as int]);
            return false;
        }
        k = k + 1;
    }
    assert(v@.subrange(i as int, i + pat@.len()) =~= pat@);
    true
}

/// `str::contains` with a text pattern.
pub fn contains_text(s: &str, pat: &str) -> (r: bool)
    ensures
        r == has_piece(s@, pat@),
{
    let v = char_vec(s);
    let p = char_vec(pat);
    if p.len() > v.len() {
        return false;
    }
    let last = v.len() - p.len();
    let mut i: usize = 0;
    while i <= last
        invariant
            v@ == s@,
            p@ == pat@,
            p@.len() <= v@.len(),
            last == v@.len() - p@.len(),
            i <= last + 1,
            forall|q: int| 0 <= q < i ==> #[trigger] v@.subrange(q, q + p@.len()) != p@,
        decreases last + 1 - i,
    {
        if piece_at(&v, &p, i) {
            return true;
        }
        if i == last {
            return false;
        }
        i = i + 1;
    }
    false
}

/// `str::contains` with a character pattern.
pub fn contains_char(s: &str, c: char) -> (r: bool)
    ensures
        r == s@.contains(c),
{
    let v = char_vec(s);
    let mut i: usize = 0;
    while i < v.len()
        invariant
            v@ == s@,
            i <= v@.len(),
            forall|q: int| 0 <= q < i ==> v@[q] != c,
        decreases v@.len() - i,
    {
        if v[i] == c {
            return true;
        }
        i = i + 1;
    }
    false
}

/// If `s` begins with `prefix`, the rest of `s` after it.
pub fn strip_prefix(s: &str, prefix: &str) -> (r: Option<String>)
    ensures
        r matches Some(rest) ==> s@.len() >= prefix@.len() && s@.take(prefix@.len() as int) == prefix@
            && rest@ == s@.skip(prefix@.len() as int),
        r is None ==> !(s@.len() >= prefix@.len() && s@.take(prefix@.len() as int) == prefix@),
{
    let v = char_vec(s);
    let p = char_vec(prefix);
    if p.len() > v.len() {
        return None;
    }
    if piece_at(&v, &p, 0) {
        assert(v@.subrange(0, p@.len() as int) == v@.take(p@.len() as int));
        Some(string_of(&v, p.len(), v.len()))
    } else {
        assert(v@.subrange(0, p@.len() as int) == v@.take(p@.len() as int));
        None
    }
}

/// The index of the first `c` in `s`, if any.
pub open spec fn first_index(s: Seq<char>, c: char) -> Option<int> {
    if s.contains(c) {
        Some(choose|i: int| 0 <= i < s.len() && s[i] == c && forall|j: int| 0 <= j < i ==> s[j] != c)
    } else {
        None
    }
}

/// The index of the first `c` in `v`.
pub fn find_char(v: &Vec<char>, c: char) -> (r: Option<usize>)
    ensures
        r matches Some(i) ==> first_index(v@, c) == Some(i as int) && i < v@.len() && v@[i as int] == c,
        r is None ==> first_index(v@, c) is None,
{
    let mut i: usize = 0;
    while i < v.len()
        invariant
            i <= v@.len(),
            forall|q: int| 0 <= q < i ==> v@[q] != c,
        decreases v@.len() - i,
    {
        if v[i] == c {
            proof {
                let w = choose|k: int| 0 <= k < v@.len() && v@[k] == c && forall|j: int| 0 <= j < k ==> v@[j] != c;
                assert(0 <= i < v@.len() && v@[i as int] == c && forall|j: int| 0 <= j < i ==> v@[j] != c);
                if w < i {
                } else if w > i {
                }
            }
            return Some(i);
        }
        i = i + 1;
    }
    None
}

/// `s` cut at every `sep`, as `str::split` with a character separator gives it.
pub open spec fn split_on(s: Seq<char>, sep: char) -> Seq<Seq<char>>
    decreases s.len(),
{
    if s.len() == 0 {
        seq![Seq::<char>::empty()]
    } else {
        let before = split_on(s.drop_last(), sep);
        if s.last() == sep {
            before.push(Seq::<char>::empty())
        } else {
            before.update(before.len() - 1, before.last().push(s.last()))
        }
    }
}

proof fn lemma_split_on_nonempty(s: Seq<char>, sep: char)
    ensures
        split_on(s, sep).len() >= 1,
    decreases s.len(),
{
    if s.len() > 0 {
        lemma_split_on_nonempty(s.drop_last(), sep);
    }
}

/// The pieces of `v` between the separators `sep`.
pub fn split_chars(v: &Vec<char>, sep: char) -> (r: Vec<Vec<char>>)
    ensures
        r@.len() == split_on(v@, sep).len(),
        forall|i: int| 0 <= i < r@.len() ==> (#[trigger] r@[i])@ == split_on(v@, sep)[i],
{
    let mut done: Vec<Vec<char>> = Vec::new();
    let mut cur: Vec<char> = Vec::new();
    let mut i: usize = 0;
    while i < v.len()
        invariant
            i <= v@.len(),
            split_on(v@.take(i as int), sep).len() == done@.len() + 1,
            forall|q: int| 0 <= q < done@.len() ==> (#[trigger] done@[q])@ == split_on(v@.take(i as int), sep)[q],
            cur@ == split_on(v@.take(i as int), sep).last(),
        decreases v@.len() - i,
    {
        let ghost before = split_on(v@.take(i as int), sep);
        assert(v@.take(i + 1).drop_last() == v@.take(i as int));
        assert(v@.take(i + 1).last() == v@[i as int]);
        if v[i] == sep {
            let piece = cur;
            done.push(piece);
            cur = Vec::new();
        } else {
            cur.push(v[i]);
        }
        i = i + 1;
    }
    assert(v@.take(v@.len() as int) == v@);
    done.push(cur);
    done
}

// ---------------------------------------------------------------------------
// Parsing
// ---------------------------------------------------------------------------

/// `str::parse::<bool>`: exactly `"true"` or `"false"`.
pub open spec fn parse_bool_spec(s: Seq<char>) -> Option<bool> {
    if s == "true"@ {
        Some(true)
    } else if s == "false"@ {
        Some(false)
    } else {
        None
    }
}

/// `str::parse::<bool>`.
pub fn parse_bool(s: &str) -> (r: Option<bool>)
    ensures
        r == parse_bool_spec(s@),
{
    if text_eq(s, "true") {
        Some(true)
    } else if text_eq(s, "false") {
        Some(false)
    } else {
        None
    }
}

/// Whether `c` is an ASCII decimal digit.
pub open spec fn is_digit(c: char) -> bool {
    '0' <= c <= '9'
}

/// Whether every character of `s` is an ASCII decimal digit.
pub open spec fn all_digits(s: Seq<char>) -> bool {
    forall|i: int| 0 <= i < s.len() ==> is_digit(#[trigger] s[i])
}

/// The value of a string of decimal digits.
pub open spec fn digits_value(s: Seq<char>) -> int
    decreases s.len(),
{
    if s.len() == 0 {
        0
    } else {
        digits_value(s.drop_last()) * 10 + (s.last() as int - '0' as int)
    }
}

/// The integer a decimal text denotes under the grammar of `str::parse` for
/// signed integers: an optional `+` or `-`, then one or more ASCII digits,
/// and nothing else.
pub open spec fn decimal_value(s: Seq<char>) -> Option<int> {
    if s.len() == 0 {
        None
    } else if s[0] == '+' || s[0] == '-' {
        let d = s.drop_first();
        if d.len() == 0 || !all_digits(d) {
            None
        } else if s[0] == '-' {
            Some(-digits_value(d))
        } else {
            Some(digits_value(d))
        }
    } else if all_digits(s) {
        Some(digits_value(s))
    } else {
        None
    }
}

/// `str::parse::<i64>`.
pub open spec fn parse_i64_spec(s: Seq<char>) -> Option<i64> {
    match decimal_value(s) {
        Some(n) => if i64::MIN <= n <= i64::MAX {
            Some(n as i64)
        } else {
            None
        },
        None => None,
    }
}

/// `str::parse::<i32>`.
pub open spec fn parse_i32_spec(s: Seq<char>) -> Option<i32> {
    match decimal_value(s) {
        Some(n) => if i32::MIN <= n <= i32::MAX {
            Some(n as i32)
        } else {
            None
        },
        None => None,
    }
}

proof fn lemma_digits_value_nonneg(s: Seq<char>)
    requires
        all_digits(s),
    ensures
        digits_value(s) >= 0,
    decreases s.len(),
{
    if s.len() > 0 {
        assert(all_digits(s.drop_last())) by {
            assert forall|i: int| 0 <= i < s.drop_last().len() implies is_digit(
                #[trigger] s.drop_last()[i],
            ) by {
                assert(s.drop_last()[i] == s[i]);
            }
        }
        assert(is_digit(s[s.len() - 1]));
        lemma_digits_value_nonneg(s.drop_last());
    }
}

proof fn lemma_digits_value_grows(s: Seq<char>, k: int)
    requires
        all_digits(s),
        0 <= k <= s.len(),
    ensures
        digits_value(s.take(k)) <= digits_value(s),
    decreases s.len() - k,
{
    if k < s.len() {
        let t = s.take(k + 1);
        assert(t.drop_last() == s.take(k));
        assert(all_digits(t)) by {
            assert forall|i: int| 0 <= i < t.len() implies is_digit(#[trigger] t[i]) by {
                assert(t[i] == s[i]);
            }
        }
        assert(all_digits(s.take(k))) by {
            assert forall|i: int| 0 <= i < s.take(k).len() implies is_digit(#[trigger] s.take(k)[i]) by {
                assert(s.take(k)[i] == s[i]);
            }
        }
        assert(is_digit(t.last()));
        lemma_digits_value_nonneg(s.take(k));
        assert(digits_value(t) == digits_value(s.take(k)) * 10 + (t.last() as int - '0' as int));
        assert(digits_value(s.take(k)) <= digits_value(t)) by (nonlinear_arith)
            requires
                digits_value(s.take(k)) >= 0,
                digits_value(t) == digits_value(s.take(k)) * 10 + (t.last() as int - '0' as int),
                t.last() as int - '0' as int >= 0,
        ;
        lemma_digits_value_grows(s, k + 1);
    } else {
        assert(s.take(k) == s);
    }
}

/// The value of the digits `d` if they are all digits and the value is at
/// most `limit`.
fn digits_up_to(d: &Vec<char>, start: usize, limit: u64) -> (r: Option<u64>)
    requires
        start <= d@.len(),
    ensures
        r matches Some(n) ==> all_digits(d@.skip(start as int)) && n == digits_value(
            d@.skip(start as int),
        ) && n <= limit,
        r is None ==> !all_digits(d@.skip(start as int)) || digits_value(d@.skip(start as int))
            > limit,
{
    let ghost s = d@.skip(start as int);
    let mut acc: u64 = 0;
    let mut i = start;
    while i < d.len()
        invariant
            start <= i <= d@.len(),
            s == d@.skip(start as int),
            all_digits(s.take(i - start)),
            acc == digits_value(s.take(i - start)),
            acc <= limit,
        decreases d@.len() - i,
    {
        let c = d[i];
        let ghost t = s.take(i - start + 1);
        assert(t.drop_last() == s.take(i - start));
        assert(t.last() == c);
        if !('0' <= c && c <= '9') {
            assert(s[i - start] == c);
            return None;
        }
        let dv = (c as u32 - '0' as u32) as u64;
        assert(all_digits(t)) by {
            assert forall|q: int| 0 <= q < t.len() implies is_digit(#[trigger] t[q]) by {
                if q < t.len() - 1 {
                    assert(t[q] == s.take(i - start)[q]);
                }
            }
        }
        let next: u128 = acc as u128 * 10 + dv as u128;
        if next > limit as u128 {
            proof {
                if all_digits(s) {
                    lemma_digits_value_grows(s, i - start + 1);
                }
            }
            return None;
        }
        acc = next as u64;
        i = i + 1;
    }
    assert(s.take(i - start) == s);
    Some(acc)
}

/// The parse of a signed decimal integer in `[-neg_limit, pos_limit]`.
fn parse_signed(s: &str, neg_limit: u64, pos_limit: u64) -> (r: Option<(bool, u64)>)
    ensures
        r matches Some((neg, mag)) ==> decimal_value(s@) == Some(if neg { -(mag as int) } else { mag as int })
            && mag <= (if neg { neg_limit } else { pos_limit }),
        r is None ==> (decimal_value(s@) matches Some(n) ==> n < -(neg_limit as int) || n > pos_limit),
{
    let v = char_vec(s);
    if v.len() == 0 {
        return None;
    }
    let first = v[0];
    if first == '+' || first == '-' {
        let neg = first == '-';
        let limit = if neg { neg_limit } else { pos_limit };
        assert(v@.skip(1) == v@.drop_first());
        if v.len() == 1 {
            return None;
        }
        match digits_up_to(&v, 1, limit) {
            Some(m) => Some((neg, m)),
            None => None,
        }
    } else {
        assert(v@.skip(0) == v@);
        match digits_up_to(&v, 0, pos_limit) {
            Some(m) => Some((false, m)),
            None => {
                proof {
                    if all_digits(v@) {
                        lemma_digits_value_nonneg(v@);
                    }
                }
                None
            },
        }
    }
}

/// `str::parse::<i64>`.
pub fn parse_i64(s: &str) -> (r: Option<i64>)
    ensures
        r == parse_i64_spec(s@),
{
    match parse_signed(s, 0x8000_0000_0000_0000u64, 0x7fff_ffff_ffff_ffffu64) {
        Some((neg, mag)) => {
            if neg {
                if mag == 0x8000_0000_0000_0000u64 {
                    Some(i64::MIN)
                } else {
                    Some(-(mag as i64))
                }
            } else {
                Some(mag as i64)
            }
        },
        None => None,
    }
}

/// `str::parse::<i32>`.
pub fn parse_i32(s: &str) -> (r: Option<i32>)
    ensures
        r == parse_i32_spec(s@),
{
    match parse_signed(s, 0x8000_0000u64, 0x7fff_ffffu64) {
        Some((neg, mag)) => {
            if neg {
                if mag == 0x8000_0000u64 {
                    Some(i32::MIN)
                } else {
                    Some(-(mag as i32))
                }
            } else {
                Some(mag as i32)
            }
        },
        None => None,
    }
}

} // verus!

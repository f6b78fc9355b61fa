//! Verified character-level utilities used by the request builders and
//! the streaming decoder: trimming, comparison, substring search and
//! splitting, and decimal formatting of integers.
use vstd::prelude::*;

verus! {

/// Relies on `String::push`: appends exactly one character at the end.
#[verifier::external_body]
pub fn push_char(out: &mut String, c: char)
    ensures
        final(out)@ == old(out)@.push(c),
{
    out.push(c);
}

/// The Unicode White_Space characters, the set that trimming removes.
pub open spec fn is_ws(c: char) -> bool {
    let n = c as u32;
    ||| n == 0x9
    ||| n == 0xA
    ||| n == 0xB
    ||| n == 0xC
    ||| n == 0xD
    ||| n == 0x20
    ||| n == 0x85
    ||| n == 0xA0
    ||| n == 0x1680
    ||| (0x2000 <= n && n <= 0x200A)
    ||| n == 0x2028
    ||| n == 0x2029
    ||| n == 0x202F
    ||| n == 0x205F
    ||| n == 0x3000
}

/// Whether `c` is a White_Space character.
pub fn is_ws_char(c: char) -> (r: bool)
    ensures
        r == is_ws(c),
{
    let n = c as u32;
    n == 0x9 || n == 0xA || n == 0xB || n == 0xC || n == 0xD || n == 0x20 || n == 0x85
        || n == 0xA0 || n == 0x1680 || (0x2000 <= n && n <= 0x200A) || n == 0x2028 || n == 0x2029
        || n == 0x202F || n == 0x205F || n == 0x3000
}

/// `s` with every trailing `/` removed.
pub open spec fn trim_end_slashes(s: Seq<char>) -> Seq<char>
    decreases s.len(),
{
    if s.len() > 0 && s.last() == '/' {
        trim_end_slashes(s.drop_last())
    } else {
        s
    }
}

proof fn lemma_trim_end_slashes_take(s: Seq<char>, end: int)
    requires
        0 <= end <= s.len(),
        forall|j: int| end <= j < s.len() ==> s[j] == '/',
        end > 0 ==> s[end - 1] != '/',
    ensures
        trim_end_slashes(s) == s.take(end),
    decreases s.len(),
{
    if s.len() == end {
        assert(s.take(end) =~= s);
    } else {
        assert(s.last() == '/');
        assert(s.drop_last() =~= s.take(s.len() - 1));
        lemma_trim_end_slashes_take(s.take(s.len() - 1), end);
        assert(s.take(s.len() - 1).take(end) =~= s.take(end));
    }
}

/// Trimming trailing slashes is idempotent.
pub proof fn lemma_trim_end_slashes_idempotent(s: Seq<char>)
    ensures
        trim_end_slashes(trim_end_slashes(s)) == trim_end_slashes(s),
    decreases s.len(),
{
    if s.len() > 0 && s.last() == '/' {
        lemma_trim_end_slashes_idempotent(s.drop_last());
    }
}

/// Appending a trailing slash does not change the trimmed form.
pub proof fn lemma_trim_end_slashes_push(s: Seq<char>)
    ensures
        trim_end_slashes(s.push('/')) == trim_end_slashes(s),
{
    assert(s.push('/').last() == '/');
    assert(s.push('/').drop_last() =~= s);
}

/// Removes every trailing `/` from `s`.
pub fn trim_trailing_slashes(s: &str) -> (r: String)
    ensures
        r@ == trim_end_slashes(s@),
{
    let n = s.unicode_len();
    let mut end = n;
    loop
        invariant
            end <= n,
            n == s@.len(),
            forall|j: int| end <= j < n ==> s@[j] == '/',
        ensures
            end <= n,
            forall|j: int| end <= j < n ==> s@[j] == '/',
            end > 0 ==> s@[end - 1] != '/',
        decreases end,
    {
        if end == 0 {
            break;
        }
        let c = s.get_char(end - 1);
        if c != '/' {
            break;
        }
        end = end - 1;
    }
    let sub = s.substring_char(0, end);
    proof {
        assert(sub@ =~= s@.take(end as int));
        lemma_trim_end_slashes_take(s@, end as int);
    }
    String::from_str(sub)
}

/// `s` with leading whitespace removed.
pub open spec fn trim_front_ws(s: Seq<char>) -> Seq<char>
    decreases s.len(),
{
    if s.len() > 0 && is_ws(s.first()) {
        trim_front_ws(s.drop_first())
    } else {
        s
    }
}

/// `s` with trailing whitespace removed.
pub open spec fn trim_back_ws(s: Seq<char>) -> Seq<char>
    decreases s.len(),
{
    if s.len() > 0 && is_ws(s.last()) {
        trim_back_ws(s.drop_last())
    } else {
        s
    }
}

/// `s` with whitespace removed from both ends.
pub open spec fn trim_ws(s: Seq<char>) -> Seq<char> {
    trim_back_ws(trim_front_ws(s))
}

proof fn lemma_trim_front_ws_skip(s: Seq<char>, start: int)
    requires
        0 <= start <= s.len(),
        forall|j: int| 0 <= j < start ==> is_ws(s[j]),
        start < s.len() ==> !is_ws(s[start]),
    ensures
        trim_front_ws(s) == s.skip(start),
    decreases start,
{
    if start == 0 {
        assert(s.skip(0) =~= s);
    } else {
        assert(is_ws(s.first()));
        lemma_trim_front_ws_skip(s.drop_first(), start - 1);
        assert(s.drop_first().skip(start - 1) =~= s.skip(start));
    }
}

proof fn lemma_trim_back_ws_take(s: Seq<char>, end: int)
    requires
        0 <= end <= s.len(),
        forall|j: int| end <= j < s.len() ==> is_ws(s[j]),
        end > 0 ==> !is_ws(s[end - 1]),
    ensures
        trim_back_ws(s) == s.take(end),
    decreases s.len(),
{
    if s.len() == end {
        assert(s.take(end) =~= s);
    } else {
        assert(is_ws(s.last()));
        assert(s.drop_last() =~= s.take(s.len() - 1));
        lemma_trim_back_ws_take(s.take(s.len() - 1), end);
        assert(s.take(s.len() - 1).take(end) =~= s.take(end));
    }
}

/// Removes whitespace from both ends of `s`.
pub fn trim_whitespace(s: &str) -> (r: String)
    ensures
        r@ == trim_ws(s@),
{
    let n = s.unicode_len();
    let mut start: usize = 0;
    loop
        invariant
            start <= n,
            n == s@.len(),
            forall|j: int| 0 <= j < start ==> is_ws(s@[j]),
        ensures
            start <= n,
            forall|j: int| 0 <= j < start ==> is_ws(s@[j]),
            start < n ==> !is_ws(s@[start as int]),
        decreases n - start,
    {
        if start == n {
            break;
        }
        let c = s.get_char(start);
        if !is_ws_char(c) {
            break;
        }
        start = start + 1;
    }
    let mut end = n;
    loop
        invariant
            start <= end <= n,
            n == s@.len(),
            start < n ==> !is_ws(s@[start as int]),
            forall|j: int| end <= j < n ==> is_ws(s@[j]),
        ensures
            start <= end <= n,
            forall|j: int| end <= j < n ==> is_ws(s@[j]),
            end > start ==> !is_ws(s@[end - 1]),
        decreases end,
    {
        if end == start {
            break;
        }
        let c = s.get_char(end - 1);
        if !is_ws_char(c) {
            break;
        }
        end = end - 1;
    }
    let sub = s.substring_char(start, end);
    proof {
        lemma_trim_front_ws_skip(s@, start as int);
        if end == start {
            assert(trim_back_ws(s@.skip(start as int)) =~= s@.skip(start as int).take(0)) by {
                lemma_trim_back_ws_take(s@.skip(start as int), 0);
            }
        } else {
            lemma_trim_back_ws_take(s@.skip(start as int), end - start);
        }
        assert(s@.skip(start as int).take(end - start) =~= s@.subrange(
            start as int,
            end as int,
        ));
        assert(sub@ == trim_ws(s@));
    }
    String::from_str(sub)
}

/// The decimal digit character for `d`.
pub open spec fn dec_digit(d: int) -> char {
    if d == 0 {
        '0'
    } else if d == 1 {
        '1'
    } else if d == 2 {
        '2'
    } else if d == 3 {
        '3'
    } else if d == 4 {
        '4'
    } else if d == 5 {
        '5'
    } else if d == 6 {
        '6'
    } else if d == 7 {
        '7'
    } else if d == 8 {
        '8'
    } else {
        '9'
    }
}

/// The decimal representation of the non-negative integer `n`, without
/// sign or leading zeros.
pub open spec fn u64_dec(n: int) -> Seq<char>
    decreases n,
{
    if n < 10 {
        seq![dec_digit(n)]
    } else {
        u64_dec(n / 10).push(dec_digit(n % 10))
    }
}

/// The decimal representation of `v`, with a leading `-` when negative.
pub open spec fn i64_dec(v: int) -> Seq<char> {
    if v < 0 {
        seq!['-'] + u64_dec(-v)
    } else {
        u64_dec(v)
    }
}

/// The textual form of a boolean.
pub open spec fn bool_text(b: bool) -> Seq<char> {
    if b {
        "true"@
    } else {
        "false"@
    }
}

pub(crate) fn dec_digit_char(d: u64) -> (c: char)
    requires
        d < 10,
    ensures
        c == dec_digit(d as int),
{
    if d == 0 {
        '0'
    } else if d == 1 {
        '1'
    } else if d == 2 {
        '2'
    } else if d == 3 {
        '3'
    } else if d == 4 {
        '4'
    } else if d == 5 {
        '5'
    } else if d == 6 {
        '6'
    } else if d == 7 {
        '7'
    } else if d == 8 {
        '8'
    } else {
        '9'
    }
}

/// Appends the decimal representation of `n`.
pub fn push_u64_dec(out: &mut String, n: u64)
    ensures
        final(out)@ == old(out)@ + u64_dec(n as int),
    decreases n,
{
    if n < 10 {
        push_char(out, dec_digit_char(n));
        proof {
            assert(final(out)@ =~= old(out)@ + u64_dec(n as int));
        }
    } else {
        push_u64_dec(out, n / 10);
        push_char(out, dec_digit_char(n % 10));
        proof {
            assert(final(out)@ =~= old(out)@ + u64_dec(n as int));
        }
    }
}

/// Appends the decimal representation of `v`, with a sign when negative.
pub fn push_i64_dec(out: &mut String, v: i64)
    ensures
        final(out)@ == old(out)@ + i64_dec(v as int),
{
    if v < 0 {
        push_char(out, '-');
        let m: u64 = if v == i64::MIN {
            9223372036854775808u64
        } else {
            (-v) as u64
        };
        proof {
            assert(m as int == -(v as int));
        }
        push_u64_dec(out, m);
        proof {
            assert(final(out)@ =~= old(out)@ + i64_dec(v as int));
        }
    } else {
        push_u64_dec(out, v as u64);
    }
}

/// Appends `true` or `false`.
pub fn push_bool(out: &mut String, b: bool)
    ensures
        final(out)@ == old(out)@ + bool_text(b),
{
    if b {
        out.append("true");
    } else {
        out.append("false");
    }
}

/// Compares two string slices character by character.
pub fn str_eq(a: &str, b: &str) -> (r: bool)
    ensures
        r == (a@ == b@),
{
    let na = a.unicode_len();
    let nb = b.unicode_len();
    if na != nb {
        return false;
    }
    let mut i: usize = 0;
    while i < na
        invariant
            i <= na,
            na == a@.len(),
            na == b@.len(),
            forall|j: int| 0 <= j < i ==> a@[j] == b@[j],
        decreases na - i,
    {
        if a.get_char(i) != b.get_char(i) {
            return false;
        }
        i = i + 1;
    }
    proof {
        assert(a@ =~= b@);
    }
    true
}

/// Whether `sep` occurs in `s` at position `i`.
pub open spec fn match_at(s: Seq<char>, sep: Seq<char>, i: int) -> bool {
    &&& 0 <= i
    &&& i + sep.len() <= s.len()
    &&& s.subrange(i, i + sep.len()) == sep
}

/// The first position at or after `i` where `sep` occurs in `s`.
pub open spec fn find_sub_from(s: Seq<char>, sep: Seq<char>, i: int) -> Option<int>
    decreases s.len() - i,
    when 0 <= i && sep.len() > 0
{
    if i + sep.len() > s.len() {
        None
    } else if match_at(s, sep, i) {
        Some(i)
    } else {
        find_sub_from(s, sep, i + 1)
    }
}

/// A found position lies between `i` and the end, and `sep` occurs
/// there.
pub proof fn lemma_find_sub_from_some(s: Seq<char>, sep: Seq<char>, i: int)
    requires
        0 <= i,
        sep.len() > 0,
    ensures
        match find_sub_from(s, sep, i) {
            Some(j) => i <= j && match_at(s, sep, j),
            None => true,
        },
    decreases s.len() - i,
{
    if i + sep.len() > s.len() {
    } else if match_at(s, sep, i) {
    } else {
        lemma_find_sub_from_some(s, sep, i + 1);
    }
}

/// Searching in a suffix finds the same occurrences, shifted.
proof fn lemma_find_sub_from_shift(s: Seq<char>, sep: Seq<char>, pos: int, k: int)
    requires
        0 <= pos <= s.len(),
        0 <= k,
        sep.len() > 0,
    ensures
        find_sub_from(s, sep, pos + k) == match find_sub_from(s.skip(pos), sep, k) {
            Some(j) => Some(j + pos),
            None => None::<int>,
        },
    decreases s.len() - pos - k,
{
    let tail = s.skip(pos);
    if k + sep.len() > tail.len() {
        assert(pos + k + sep.len() > s.len());
    } else {
        assert(tail.subrange(k, k + sep.len()) =~= s.subrange(pos + k, pos + k + sep.len()));
        if match_at(tail, sep, k) {
            assert(match_at(s, sep, pos + k));
        } else {
            assert(!match_at(s, sep, pos + k));
            lemma_find_sub_from_shift(s, sep, pos, k + 1);
        }
    }
}

/// `s` split on every occurrence of the separator `sep`, leftmost
/// first; the separators themselves are not part of any piece.
pub open spec fn split_on(s: Seq<char>, sep: Seq<char>) -> Seq<Seq<char>>
    decreases s.len(),
    when sep.len() > 0
    via split_on_decreases
{
    match find_sub_from(s, sep, 0) {
        Some(i) => seq![s.take(i)] + split_on(s.skip(i + sep.len()), sep),
        None => seq![s],
    }
}

#[via_fn]
proof fn split_on_decreases(s: Seq<char>, sep: Seq<char>) {
    lemma_find_sub_from_some(s, sep, 0);
}

fn match_at_exec(s: &str, sep: &str, i: usize) -> (b: bool)
    requires
        i + sep@.len() <= s@.len(),
    ensures
        b == match_at(s@, sep@, i as int),
{
    let n = s.unicode_len();
    let m = sep.unicode_len();
    let mut j: usize = 0;
    while j < m
        invariant
            j <= m,
            m == sep@.len(),
            n == s@.len(),
            i + m <= n,
            forall|k: int| 0 <= k < j ==> s@[i + k] == sep@[k],
        decreases m - j,
    {
        if s.get_char(i + j) != sep.get_char(j) {
            proof {
                if match_at(s@, sep@, i as int) {
                    assert(s@.subrange(i as int, i + m)[j as int] == sep@[j as int]);
                    assert(s@[i + j] == sep@[j as int]);
                }
            }
            return false;
        }
        j = j + 1;
    }
    proof {
        assert(s@.subrange(i as int, i + m) =~= sep@);
    }
    true
}

fn find_sub_in(s: &str, sep: &str, from: usize) -> (r: Option<usize>)
    requires
        from <= s@.len(),
        sep@.len() > 0,
    ensures
        match r {
            Some(j) => {
                &&& find_sub_from(s@, sep@, from as int) == Some(j as int)
                &&& from <= j
                &&& j + sep@.len() <= s@.len()
            },
            None => find_sub_from(s@, sep@, from as int) is None,
        },
{
    let n = s.unicode_len();
    let m = sep.unicode_len();
    let mut i = from;
    loop
        invariant
            from <= i <= n,
            n == s@.len(),
            m == sep@.len(),
            m > 0,
            find_sub_from(s@, sep@, from as int) == find_sub_from(s@, sep@, i as int),
        decreases n - i,
    {
        if m > n - i {
            return None;
        }
        if match_at_exec(s, sep, i) {
            return Some(i);
        }
        i = i + 1;
    }
}

/// Splits `s` on every occurrence of the separator `sep`.
pub fn split_on_str(s: &str, sep: &str) -> (parts: Vec<String>)
    requires
        sep@.len() > 0,
    ensures
        parts@.map_values(|p: String| p@) == split_on(s@, sep@),
{
    let n = s.unicode_len();
    let m = sep.unicode_len();
    let mut parts: Vec<String> = Vec::new();
    let mut pos: usize = 0;
    proof {
        assert(s@.skip(0) =~= s@);
        assert(parts@.map_values(|p: String| p@) =~= Seq::<Seq<char>>::empty());
        assert(Seq::<Seq<char>>::empty() + split_on(s@, sep@) =~= split_on(s@, sep@));
    }
    loop
        invariant_except_break
            split_on(s@, sep@) == parts@.map_values(|p: String| p@) + split_on(
                s@.skip(pos as int),
                sep@,
            ),
        invariant
            pos <= n,
            n == s@.len(),
            m == sep@.len(),
            m > 0,
        ensures
            split_on(s@, sep@) == parts@.map_values(|p: String| p@),
        decreases n - pos,
    {
        let ghost prev = parts@.map_values(|p: String| p@);
        match find_sub_in(s, sep, pos) {
            Some(j) => {
                let piece = s.substring_char(pos, j);
                parts.push(String::from_str(piece));
                proof {
                    lemma_find_sub_from_shift(s@, sep@, pos as int, 0);
                    let tail = s@.skip(pos as int);
                    assert(find_sub_from(tail, sep@, 0) == Some(j - pos));
                    assert(split_on(tail, sep@) == seq![tail.take(j - pos)] + split_on(
                        tail.skip(j - pos + m),
                        sep@,
                    ));
                    assert(tail.take(j - pos) =~= s@.subrange(pos as int, j as int));
                    assert(tail.skip(j - pos + m) =~= s@.skip(j + m));
                    assert(parts@.map_values(|p: String| p@) =~= prev.push(piece@));
                    assert(prev.push(piece@) + split_on(s@.skip(j + m), sep@) =~= prev + (seq![
                        tail.take(j - pos),
                    ] + split_on(tail.skip(j - pos + m), sep@)));
                }
                pos = j + m;
            },
            None => {
                let piece = s.substring_char(pos, n);
                parts.push(String::from_str(piece));
                proof {
                    lemma_find_sub_from_shift(s@, sep@, pos as int, 0);
                    let tail = s@.skip(pos as int);
                    assert(find_sub_from(tail, sep@, 0) is None);
                    assert(split_on(tail, sep@) == seq![tail]);
                    assert(piece@ =~= tail);
                    assert(parts@.map_values(|p: String| p@) =~= prev.push(piece@));
                    assert(prev.push(piece@) =~= prev + seq![tail]);
                    assert(split_on(s@, sep@) == parts@.map_values(|p: String| p@));
                }
                break;
            },
        }
    }
    parts
}

/// The decimal text of `n`.
pub fn u64_string(n: u64) -> (r: String)
    ensures
        r@ == u64_dec(n as int),
{
    let mut out = String::new();
    push_u64_dec(&mut out, n);
    proof {
        assert(out@ =~= u64_dec(n as int));
    }
    out
}

/// The decimal text of `v`, with a sign when negative.
pub fn i64_string(v: i64) -> (r: String)
    ensures
        r@ == i64_dec(v as int),
{
    let mut out = String::new();
    push_i64_dec(&mut out, v);
    proof {
        assert(out@ =~= i64_dec(v as int));
    }
    out
}

/// The textual form of a boolean.
pub fn bool_string(b: bool) -> (r: String)
    ensures
        r@ == bool_text(b),
{
    if b {
        String::from_str("true")
    } else {
        String::from_str("false")
    }
}

/// The position of the last occurrence of `c` in `s`.
pub open spec fn find_last(s: Seq<char>, c: char) -> Option<int>
    decreases s.len(),
{
    if s.len() == 0 {
        None
    } else if s.last() == c {
        Some(s.len() - 1)
    } else {
        find_last(s.drop_last(), c)
    }
}

proof fn lemma_find_last_cut(s: Seq<char>, c: char, i: int)
    requires
        0 <= i <= s.len(),
        forall|j: int| i <= j < s.len() ==> s[j] != c,
    ensures
        find_last(s, c) == find_last(s.take(i), c),
    decreases s.len(),
{
    if s.len() == i {
        assert(s.take(i) =~= s);
    } else {
        assert(s.last() != c);
        assert(s.drop_last() =~= s.take(s.len() - 1));
        lemma_find_last_cut(s.take(s.len() - 1), c, i);
        assert(s.take(s.len() - 1).take(i) =~= s.take(i));
    }
}

/// Finds the last occurrence of `c` in `s`.
pub fn find_last_char(s: &str, c: char) -> (r: Option<usize>)
    ensures
        match r {
            Some(i) => find_last(s@, c) == Some(i as int) && i < s@.len(),
            None => find_last(s@, c) is None,
        },
{
    let n = s.unicode_len();
    let mut k = n;
    loop
        invariant
            k <= n,
            n == s@.len(),
            forall|j: int| k <= j < n ==> s@[j] != c,
        ensures
            k <= n,
            forall|j: int| k <= j < n ==> s@[j] != c,
            k > 0 ==> s@[k - 1] == c,
        decreases k,
    {
        if k == 0 {
            break;
        }
        if s.get_char(k - 1) == c {
            break;
        }
        k = k - 1;
    }
    proof {
        lemma_find_last_cut(s@, c, k as int);
    }
    if k == 0 {
        proof {
            assert(s@.take(0) =~= Seq::<char>::empty());
        }
        None
    } else {
        proof {
            assert(s@.take(k as int).last() == s@[k - 1]);
        }
        Some(k - 1)
    }
}

} // verus!

//! Character-level text operations used by the rules of the library,
//! each stated over the `Seq<char>` view of the strings involved.
use vstd::prelude::*;
use vstd::string::StrSliceExecFns;

verus! {

/// `p` is a prefix of `s`.
pub open spec fn has_prefix(s: Seq<char>, p: Seq<char>) -> bool {
    p.len() <= s.len() && s.subrange(0, p.len() as int) == p
}

/// `p` occurs in `s` starting at position `i`.
pub open spec fn occurs_at(s: Seq<char>, p: Seq<char>, i: int) -> bool {
    0 <= i && i + p.len() <= s.len() && s.subrange(i, i + p.len()) == p
}

/// `p` occurs somewhere in `s`.
pub open spec fn has_infix(s: Seq<char>, p: Seq<char>) -> bool {
    exists|i: int| occurs_at(s, p, i)
}

/// `i` is the position of the first `c` in `s`.
pub open spec fn is_first_index(s: Seq<char>, c: char, i: int) -> bool {
    0 <= i < s.len() && s[i] == c && forall|j: int| 0 <= j < i ==> s[j] != c
}

/// The position of the first `c` in `s`, or -1 when `c` does not occur.
pub open spec fn first_index(s: Seq<char>, c: char) -> int {
    if exists|i: int| is_first_index(s, c, i) {
        choose|i: int| is_first_index(s, c, i)
    } else {
        -1
    }
}

/// The text before the first `c`; all of `s` when `c` does not occur
/// (the first piece of `s.split(c)`).
pub open spec fn before_first(s: Seq<char>, c: char) -> Seq<char> {
    let i = first_index(s, c);
    if i < 0 {
        s
    } else {
        s.take(i)
    }
}

/// The text after the first `c`, or `None` when `c` does not occur.
pub open spec fn after_first(s: Seq<char>, c: char) -> Option<Seq<char>> {
    let i = first_index(s, c);
    if i < 0 {
        None
    } else {
        Some(s.skip(i + 1))
    }
}

/// The second piece of `s.split(c)`, when there is one.
pub open spec fn second_piece(s: Seq<char>, c: char) -> Option<Seq<char>> {
    match after_first(s, c) {
        Some(rest) => Some(before_first(rest, c)),
        None => None,
    }
}

/// `s.split(c)` yields exactly two pieces: `c` occurs exactly once.
pub open spec fn splits_in_two(s: Seq<char>, c: char) -> bool {
    match after_first(s, c) {
        Some(rest) => !rest.contains(c),
        None => false,
    }
}

/// `s` with every trailing `c` removed.
pub open spec fn trim_end_char(s: Seq<char>, c: char) -> Seq<char>
    decreases s.len(),
{
    if s.len() > 0 && s.last() == c {
        trim_end_char(s.drop_last(), c)
    } else {
        s
    }
}

/// `s` with the non-overlapping occurrences of `p`, found from the left, removed.
pub open spec fn remove_all(s: Seq<char>, p: Seq<char>) -> Seq<char>
    decreases s.len(),
{
    if s.len() == 0 || p.len() == 0 {
        s
    } else if has_prefix(s, p) {
        remove_all(s.skip(p.len() as int), p)
    } else {
        seq![s[0]] + remove_all(s.drop_first(), p)
    }
}

proof fn lemma_exists_first(s: Seq<char>, c: char, k: int)
    requires
        0 <= k < s.len(),
        s[k] == c,
    ensures
        exists|i: int| is_first_index(s, c, i),
    decreases k,
{
    if exists|j: int| 0 <= j < k && s[j] == c {
        let j = choose|j: int| 0 <= j < k && s[j] == c;
        lemma_exists_first(s, c, j);
    } else {
        assert(is_first_index(s, c, k));
    }
}

/// `first_index` finds the first `c` exactly when `c` occurs.
pub proof fn lemma_first_index(s: Seq<char>, c: char)
    ensures
        s.contains(c) <==> first_index(s, c) >= 0,
        first_index(s, c) >= 0 ==> is_first_index(s, c, first_index(s, c)),
        first_index(s, c) < 0 ==> first_index(s, c) == -1,
{
    if s.contains(c) {
        let k = choose|k: int| 0 <= k < s.len() && s[k] == c;
        lemma_exists_first(s, c, k);
    } else {
        if exists|i: int| is_first_index(s, c, i) {
            let i = choose|i: int| is_first_index(s, c, i);
            assert(s[i] == c);
        }
    }
}

/// The first `c` is at `i` when `i` is where the first `c` is.
pub proof fn lemma_first_index_at(s: Seq<char>, c: char, i: int)
    requires
        is_first_index(s, c, i),
    ensures
        first_index(s, c) == i,
{
    let k = choose|k: int| is_first_index(s, c, k);
    if k < i {
        assert(s[k] == c);
    } else if k > i {
        assert(s[i] == c);
    }
}

/// Splitting `a + b` at `c`, where `a` holds no `c`, splits `b`.
pub proof fn lemma_split_append(a: Seq<char>, b: Seq<char>, c: char)
    requires
        !a.contains(c),
    ensures
        before_first(a + b, c) == a + before_first(b, c),
        after_first(a + b, c) == after_first(b, c),
{
    let s = a + b;
    lemma_first_index(b, c);
    if b.contains(c) {
        let k = first_index(b, c);
        assert(is_first_index(s, c, a.len() + k)) by {
            assert forall|j: int| 0 <= j < a.len() + k implies s[j] != c by {
                if j < a.len() {
                    assert(s[j] == a[j]);
                } else {
                    assert(s[j] == b[j - a.len()]);
                }
            }
        }
        lemma_first_index_at(s, c, a.len() + k);
        assert(s.take(a.len() + k) =~= a + b.take(k));
        assert(s.skip(a.len() + k + 1) =~= b.skip(k + 1));
    } else {
        assert(!s.contains(c)) by {
            if s.contains(c) {
                let j = choose|j: int| 0 <= j < s.len() && s[j] == c;
                if j < a.len() {
                    assert(a[j] == c);
                } else {
                    assert(b[j - a.len()] == c);
                }
            }
        }
        lemma_first_index(s, c);
    }
}

/// Splitting `a + [c] + b` at `c`, where `a` holds no `c`, gives `a` and `b`.
pub proof fn lemma_split_at_separator(a: Seq<char>, b: Seq<char>, c: char)
    requires
        !a.contains(c),
    ensures
        before_first(a + seq![c] + b, c) == a,
        after_first(a + seq![c] + b, c) == Some(b),
{
    let s = a + seq![c] + b;
    assert(is_first_index(s, c, a.len() as int)) by {
        assert forall|j: int| 0 <= j < a.len() implies s[j] != c by {
            assert(s[j] == a[j]);
        }
    }
    lemma_first_index_at(s, c, a.len() as int);
    assert(s.take(a.len() as int) =~= a);
    assert(s.skip(a.len() as int + 1) =~= b);
}

/// Unicode lowercase mapping of a text, as `str::to_lowercase` computes it.
pub uninterp spec fn lowercase(text: Seq<char>) -> Seq<char>;

/// Calls `str::to_lowercase`; claims that the result is the lowercase mapping
/// `lowercase` of the argument, a function of the argument alone. The Unicode
/// case tables themselves are not written out.
#[verifier::external_body]
pub fn to_lowercase(text: &str) -> (lower: String)
    ensures
        lower@ == lowercase(text@),
{
    text.to_lowercase()
}

/// The characters of `text`.
pub fn chars_of(text: &str) -> (chars: Vec<char>)
    ensures
        chars@ == text@,
{
    let n = text.unicode_len();
    let mut chars: Vec<char> = Vec::new();
    let mut i: usize = 0;
    while i < n
        invariant
            n == text@.len(),
            i <= n,
            chars@ == text@.take(i as int),
        decreases n - i,
    {
        let c = text.get_char(i);
        chars.push(c);
        i = i + 1;
        assert(chars@ =~= text@.take(i as int));
    }
    assert(chars@ =~= text@);
    chars
}

/// An owned copy of the characters `from..to` of `text`.
pub fn substring(text: &str, from: usize, to: usize) -> (part: String)
    requires
        from <= to <= text@.len(),
    ensures
        part@ == text@.subrange(from as int, to as int),
{
    String::from_str(text.substring_char(from, to))
}

/// An owned copy of `text`.
pub fn owned(text: &str) -> (copy: String)
    ensures
        copy@ == text@,
{
    String::from_str(text)
}

/// Whether `text` and `other` hold the same characters.
pub fn str_eq(text: &str, other: &str) -> (same: bool)
    ensures
        same == (text@ == other@),
{
    let a = chars_of(text);
    let b = chars_of(other);
    if a.len() != b.len() {
        return false;
    }
    let mut i: usize = 0;
    while i < a.len()
        invariant
            a@ == text@,
            b@ == other@,
            a.len() == b.len(),
            i <= a.len(),
            forall|j: int| 0 <= j < i ==> a@[j] == b@[j],
        decreases a.len() - i,
    {
        if a[i] != b[i] {
            return false;
        }
        i = i + 1;
    }
    assert(a@ =~= b@);
    true
}

/// Whether `p` occurs in `s` at position `i`.
pub fn occurs_at_exec(s: &Vec<char>, p: &Vec<char>, i: usize) -> (found: bool)
    ensures
        found == occurs_at(s@, p@, i as int),
{
    if i > s.len() || p.len() > s.len() - i {
        return false;
    }
    let mut k: usize = 0;
    while k < p.len()
        invariant
            i + p.len() <= s.len(),
            k <= p.len(),
            forall|j: int| 0 <= j < k ==> s@[i + j] == p@[j],
        decreases p.len() - k,
    {
        if s[i + k] != p[k] {
            assert(s@.subrange(i as int, i + p.len())[k as int] != p@[k as int]);
            return false;
        }
        k = k + 1;
    }
    assert(s@.subrange(i as int, i + p.len()) =~= p@);
    true
}

/// Whether `text` starts with `prefix`.
pub fn starts_with(text: &str, prefix: &str) -> (yes: bool)
    ensures
        yes == has_prefix(text@, prefix@),
{
    let s = chars_of(text);
    let p = chars_of(prefix);
    occurs_at_exec(&s, &p, 0)
}

/// Whether `pattern` occurs in `text`.
pub fn contains(text: &str, pattern: &str) -> (yes: bool)
    ensures
        yes == has_infix(text@, pattern@),
{
    let s = chars_of(text);
    let p = chars_of(pattern);
    if p.len() > s.len() {
        assert forall|i: int| !occurs_at(s@, p@, i) by {}
        return false;
    }
    let last = s.len() - p.len();
    let mut i: usize = 0;
    loop
        invariant
            s@ == text@,
            p@ == pattern@,
            last == s.len() - p.len(),
            i <= last,
            forall|j: int| 0 <= j < i ==> !occurs_at(s@, p@, j),
        ensures
            forall|j: int| 0 <= j <= last ==> !occurs_at(s@, p@, j),
        decreases last - i,
    {
        if occurs_at_exec(&s, &p, i) {
            return true;
        }
        if i == last {
            break;
        }
        i = i + 1;
    }
    assert forall|j: int| !occurs_at(s@, p@, j) by {
        if 0 <= j <= last {
        }
    }
    false
}

/// The position of the first `c` in `chars`, if any.
pub fn find_char(chars: &Vec<char>, c: char) -> (pos: Option<usize>)
    ensures
        match pos {
            Some(i) => i as int == first_index(chars@, c) && is_first_index(chars@, c, i as int),
            None => first_index(chars@, c) == -1 && !chars@.contains(c),
        },
{
    let mut i: usize = 0;
    while i < chars.len()
        invariant
            i <= chars.len(),
            forall|j: int| 0 <= j < i ==> chars@[j] != c,
        decreases chars.len() - i,
    {
        if chars[i] == c {
            assert(is_first_index(chars@, c, i as int));
            let ghost k = choose|k: int| is_first_index(chars@, c, k);
            assert(k == i as int) by {
                if k < i {
                } else if k > i {
                    assert(chars@[i as int] == c);
                }
            }
            return Some(i);
        }
        i = i + 1;
    }
    assert(!(exists|k: int| is_first_index(chars@, c, k)));
    assert(!chars@.contains(c)) by {
        if chars@.contains(c) {
            let k = choose|k: int| 0 <= k < chars@.len() && chars@[k] == c;
            assert(chars@[k] != c);
        }
    }
    None
}

/// Splits `text` at its first `c`: the text before it, and the text after it
/// when `c` occurs.
pub fn split_once(text: &str, c: char) -> (parts: (String, Option<String>))
    ensures
        parts.0@ == before_first(text@, c),
        parts.1 is Some <==> text@.contains(c),
        match parts.1 {
            Some(rest) => after_first(text@, c) == Some(rest@),
            None => after_first(text@, c) is None,
        },
{
    let chars = chars_of(text);
    match find_char(&chars, c) {
        Some(i) => {
            assert(is_first_index(chars@, c, i as int));
            assert(i < chars.len());
            assert(text@.contains(c)) by {
                assert(chars@[i as int] == c);
            }
            let head = substring(text, 0, i);
            let tail = substring(text, i + 1, chars.len());
            assert(head@ =~= text@.take(i as int));
            assert(tail@ =~= text@.skip(i + 1));
            (head, Some(tail))
        },
        None => (owned(text), None),
    }
}

/// Whether `c` occurs in `text`.
pub fn has_char(text: &str, c: char) -> (yes: bool)
    ensures
        yes == text@.contains(c),
{
    let chars = chars_of(text);
    find_char(&chars, c).is_some()
}

/// `text` with every trailing `c` removed (`str::trim_end_matches` with a char).
pub fn trim_end(text: &str, c: char) -> (trimmed: String)
    ensures
        trimmed@ == trim_end_char(text@, c),
{
    let chars = chars_of(text);
    let mut j: usize = chars.len();
    assert(chars@.take(j as int) =~= chars@);
    while j > 0 && chars[j - 1] == c
        invariant
            chars@ == text@,
            j <= chars.len(),
            trim_end_char(chars@.take(j as int), c) == trim_end_char(text@, c),
        decreases j,
    {
        assert(chars@.take(j as int).drop_last() =~= chars@.take(j - 1));
        j = j - 1;
    }
    assert(trim_end_char(chars@.take(j as int), c) == chars@.take(j as int));
    substring(text, 0, j)
}

/// `text` with the non-overlapping occurrences of `pattern` removed, scanning
/// from the left (`str::replace(pattern, "")`); an empty pattern leaves the
/// text as it is.
pub fn remove_occurrences(text: &str, pattern: &str) -> (result: String)
    ensures
        result@ == remove_all(text@, pattern@),
{
    let s = chars_of(text);
    let p = chars_of(pattern);
    if p.len() == 0 {
        assert(remove_all(text@, pattern@) == text@);
        return owned(text);
    }
    let n = s.len();
    let mut result = String::new();
    let mut last: usize = 0;
    let mut i: usize = 0;
    assert(s@.skip(0) =~= s@);
    assert(result@ + s@.subrange(0, 0) =~= Seq::<char>::empty());
    while i < n
        invariant
            s@ == text@,
            p@ == pattern@,
            p@.len() > 0,
            n == s@.len(),
            last <= i <= n,
            result@ + s@.subrange(last as int, i as int) + remove_all(s@.skip(i as int), p@)
                == remove_all(s@, p@),
        decreases n - i,
    {
        let ghost rest = s@.skip(i as int);
        if occurs_at_exec(&s, &p, i) {
            assert(has_prefix(rest, p@)) by {
                assert(rest.subrange(0, p@.len() as int) =~= s@.subrange(
                    i as int,
                    i + p@.len(),
                ));
            }
            assert(rest.skip(p@.len() as int) =~= s@.skip(i + p@.len()));
            let piece = substring(text, last, i);
            result.append(piece.as_str());
            i = i + p.len();
            last = i;
            assert(s@.subrange(last as int, i as int) =~= Seq::<char>::empty());
        } else {
            assert(!has_prefix(rest, p@)) by {
                if has_prefix(rest, p@) {
                    assert(rest.subrange(0, p@.len() as int) =~= s@.subrange(
                        i as int,
                        i + p@.len(),
                    ));
                }
            }
            assert(rest.drop_first() =~= s@.skip(i + 1));
            assert(s@.subrange(last as int, i as int) + seq![s@[i as int]] =~= s@.subrange(
                last as int,
                i + 1,
            ));
            i = i + 1;
        }
    }
    assert(s@.skip(n as int) =~= Seq::<char>::empty());
    let piece = substring(text, last, n);
    result.append(piece.as_str());
    result
}

/// The view of an optional string slice.
pub open spec fn view_str_opt(o: Option<&str>) -> Option<Seq<char>> {
    match o {
        Some(s) => Some(s@),
        None => None,
    }
}

/// The view of an optional string.
pub open spec fn view_string_opt(o: Option<String>) -> Option<Seq<char>> {
    match o {
        Some(s) => Some(s@),
        None => None,
    }
}

/// The views of a sequence of strings.
pub open spec fn view_strings(v: Seq<String>) -> Seq<Seq<char>> {
    v.map_values(|s: String| s@)
}

/// Borrows the string held by an option (`Option::as_deref`).
pub fn as_deref(o: &Option<String>) -> (r: Option<&str>)
    ensures
        view_str_opt(r) == view_string_opt(*o),
{
    match o {
        Some(s) => Some(s.as_str()),
        None => None,
    }
}

/// The decimal digit character of `d`.
pub open spec fn digit_char(d: nat) -> char {
    if d == 0 { '0' } else if d == 1 { '1' } else if d == 2 { '2' } else if d == 3 { '3' }
    else if d == 4 { '4' } else if d == 5 { '5' } else if d == 6 { '6' } else if d == 7 { '7' }
    else if d == 8 { '8' } else { '9' }
}

/// The decimal digits of `v`, without leading zeros.
pub open spec fn decimal_digits(v: nat) -> Seq<char>
    decreases v,
{
    if v < 10 {
        seq![digit_char(v)]
    } else {
        decimal_digits(v / 10) + seq![digit_char(v % 10)]
    }
}

/// The decimal text of `n`, as `Display` writes it: a minus sign for negative numbers.
pub open spec fn decimal_text(n: int) -> Seq<char> {
    if n < 0 {
        seq!['-'] + decimal_digits((-n) as nat)
    } else {
        decimal_digits(n as nat)
    }
}

fn digit_str(d: u64) -> (text: &'static str)
    requires
        d < 10,
    ensures
        text@ == seq![digit_char(d as nat)],
{
    proof {
        reveal_strlit("0");
        reveal_strlit("1");
        reveal_strlit("2");
        reveal_strlit("3");
        reveal_strlit("4");
        reveal_strlit("5");
        reveal_strlit("6");
        reveal_strlit("7");
        reveal_strlit("8");
        reveal_strlit("9");
    }
    if d == 0 { "0" } else if d == 1 { "1" } else if d == 2 { "2" } else if d == 3 { "3" }
    else if d == 4 { "4" } else if d == 5 { "5" } else if d == 6 { "6" } else if d == 7 { "7" }
    else if d == 8 { "8" } else { "9" }
}

fn append_digits(out: &mut String, v: u64)
    ensures
        final(out)@ == old(out)@ + decimal_digits(v as nat),
    decreases v,
{
    if v >= 10 {
        append_digits(out, v / 10);
    }
    out.append(digit_str(v % 10));
    assert(final(out)@ =~= old(out)@ + decimal_digits(v as nat));
}

/// Appends the decimal text of `n` to `out`.
pub fn append_decimal(out: &mut String, n: i64)
    ensures
        final(out)@ == old(out)@ + decimal_text(n as int),
{
    if n < 0 {
        out.append("-");
        proof {
            reveal_strlit("-");
        }
        let magnitude: u64 = if n == i64::MIN {
            9223372036854775808u64
        } else {
            (-n) as u64
        };
        append_digits(out, magnitude);
        assert(final(out)@ =~= old(out)@ + decimal_text(n as int));
    } else {
        append_digits(out, n as u64);
    }
}

} // verus!

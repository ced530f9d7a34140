//! Character-level helpers on `&str`: equality, the decimal grammar of
//! `u8`/`u32`/`u64` parsing, ASCII case folding and Unicode whitespace.
use vstd::prelude::*;

verus! {

/// The value of a run of ASCII decimal digits (most significant first).
pub open spec fn digits_value(d: Seq<char>) -> nat
    decreases d.len(),
{
    if d.len() == 0 {
        0
    } else {
        digits_value(d.drop_last()) * 10 + ((d.last() as nat) - ('0' as nat)) as nat
    }
}

pub open spec fn is_digit(c: char) -> bool {
    '0' <= c && c <= '9'
}

pub open spec fn all_digits(d: Seq<char>) -> bool {
    forall|i: int| 0 <= i < d.len() ==> is_digit(#[trigger] d[i])
}

/// The grammar std accepts for an unsigned integer: an optional `+`
/// followed by one or more ASCII digits. `None` when the text is not in it.
pub open spec fn unsigned_grammar(s: Seq<char>) -> Option<nat> {
    let d = if s.len() > 0 && s[0] == '+' { s.drop_first() } else { s };
    if d.len() > 0 && all_digits(d) {
        Some(digits_value(d))
    } else {
        None
    }
}

/// What `str::parse::<u8>()` gives back, as an option.
pub open spec fn parse_u8_spec(s: Seq<char>) -> Option<u8> {
    match unsigned_grammar(s) {
        Some(v) => if v <= u8::MAX { Some(v as u8) } else { None },
        None => None,
    }
}

/// What `str::parse::<u64>()` gives back, as an option.
pub open spec fn parse_u64_spec(s: Seq<char>) -> Option<u64> {
    match unsigned_grammar(s) {
        Some(v) => if v <= u64::MAX { Some(v as u64) } else { None },
        None => None,
    }
}

/// The length, first character and last two characters of a text: the
/// names of this crate's lookup tables differ pairwise in one of them.
pub open spec fn name_sig(s: Seq<char>) -> (nat, char, char, char) {
    (s.len(), s[0], s[s.len() - 2], s[s.len() - 1])
}

/// Character-wise equality of two string slices.
pub fn str_eq(a: &str, b: &str) -> (r: bool)
    ensures
        r == (a@ == b@),
{
    let n = a.unicode_len();
    let m = b.unicode_len();
    if n != m {
        return false;
    }
    let mut i: usize = 0;
    while i < n
        invariant
            n == a@.len(),
            m == b@.len(),
            n == m,
            i <= n,
            forall|j: int| 0 <= j < i ==> a@[j] == b@[j],
        decreases n - i,
    {
        if a.get_char(i) != b.get_char(i) {
            return false;
        }
        i = i + 1;
    }
    assert(a@ =~= b@);
    true
}

/// One more digit: the value of a prefix grows by a factor of ten plus the digit.
proof fn lemma_digits_step(d: Seq<char>, k: int)
    requires
        0 <= k < d.len(),
    ensures
        digits_value(d.take(k + 1)) == digits_value(d.take(k)) * 10 + ((d[k] as nat) - ('0' as nat)) as nat,
        all_digits(d.take(k)) && is_digit(d[k]) ==> all_digits(d.take(k + 1)),
{
    assert(d.take(k + 1).drop_last() =~= d.take(k));
    assert(d.take(k + 1).last() == d[k]);
    if all_digits(d.take(k)) && is_digit(d[k]) {
        assert forall|i: int| 0 <= i < k + 1 implies is_digit(#[trigger] d.take(k + 1)[i]) by {
            if i < k {
                assert(d.take(k + 1)[i] == d.take(k)[i]);
            }
        }
    }
}

/// `str::parse::<u8>()`, read as an option: an optional `+`, then one or
/// more ASCII digits whose value fits in a `u8`.
pub fn parse_u8(s: &str) -> (r: Option<u8>)
    ensures
        r == parse_u8_spec(s@),
{
    let n = s.unicode_len();
    let mut start: usize = 0;
    if n > 0 && s.get_char(0) == '+' {
        start = 1;
    }
    let ghost d = if s@.len() > 0 && s@[0] == '+' { s@.drop_first() } else { s@ };
    assert(d =~= s@.subrange(start as int, n as int));
    assert(unsigned_grammar(s@) == (if d.len() > 0 && all_digits(d) {
        Some(digits_value(d))
    } else {
        None::<nat>
    }));
    if start >= n {
        assert(d.len() == 0);
        return None;
    }
    let mut acc: u32 = 0;
    let mut i: usize = start;
    assert(d.take(0) =~= Seq::<char>::empty());
    while i < n
        invariant
            n == s@.len(),
            start <= i <= n,
            start < n,
            d.len() == n - start,
            d == (if s@.len() > 0 && s@[0] == '+' { s@.drop_first() } else { s@ }),
            forall|j: int| 0 <= j < d.len() ==> d[j] == s@[j + start],
            all_digits(d.take(i - start)),
            acc == digits_value(d.take(i - start)),
            acc <= 255,
        decreases n - i,
    {
        let c = s.get_char(i);
        let ghost k = i - start;
        assert(d[k] == c);
        if !('0' <= c && c <= '9') {
            assert(!is_digit(d[k]));
            assert(!all_digits(d));
            assert(unsigned_grammar(s@) is None);
            return None;
        }
        proof {
            lemma_digits_step(d, k);
        }
        let dv: u32 = (c as u32) - ('0' as u32);
        acc = acc * 10 + dv;
        i = i + 1;
        if acc > 255 {
            proof {
                lemma_digits_prefix_bound(d, k + 1);
            }
            assert(unsigned_grammar(s@) is None || unsigned_grammar(s@)->0 > 255);
            return None;
        }
    }
    assert(d.take(n - start) =~= d);
    Some(acc as u8)
}

/// Once a prefix of a digit run exceeds 255, so does the whole run.
proof fn lemma_digits_prefix_bound(d: Seq<char>, k: int)
    requires
        0 < k <= d.len(),
        all_digits(d.take(k)),
        digits_value(d.take(k)) > 255,
    ensures
        !all_digits(d) || digits_value(d) > 255,
    decreases d.len() - k,
{
    if k < d.len() && all_digits(d) {
        lemma_digits_step(d, k);
        lemma_digits_prefix_bound(d, k + 1);
    } else if k == d.len() {
        assert(d.take(k) =~= d);
    }
}

} // verus!

verus! {

/// The ASCII digit for a value below ten.
pub open spec fn digit_char(d: nat) -> char {
    ((d + 48) as u32) as char
}

/// The shortest decimal rendering of a natural number, as `to_string` gives it.
pub open spec fn decimal(n: nat) -> Seq<char>
    decreases n,
{
    if n < 10 {
        seq![digit_char(n)]
    } else {
        decimal(n / 10).push(digit_char(n % 10))
    }
}

fn digit_str(d: u64) -> (r: &'static str)
    requires
        d < 10,
    ensures
        r@ == seq![digit_char(d as nat)],
{
    match d {
        0 => {
            proof { reveal_strlit("0"); }
            "0"
        },
        1 => {
            proof { reveal_strlit("1"); }
            "1"
        },
        2 => {
            proof { reveal_strlit("2"); }
            "2"
        },
        3 => {
            proof { reveal_strlit("3"); }
            "3"
        },
        4 => {
            proof { reveal_strlit("4"); }
            "4"
        },
        5 => {
            proof { reveal_strlit("5"); }
            "5"
        },
        6 => {
            proof { reveal_strlit("6"); }
            "6"
        },
        7 => {
            proof { reveal_strlit("7"); }
            "7"
        },
        8 => {
            proof { reveal_strlit("8"); }
            "8"
        },
        _ => {
            proof { reveal_strlit("9"); }
            "9"
        },
    }
}

/// `n.to_string()` for an unsigned integer.
pub fn decimal_string(n: u64) -> (r: String)
    ensures
        r@ == decimal(n as nat),
    decreases n,
{
    if n < 10 {
        String::from_str(digit_str(n))
    } else {
        let mut s = decimal_string(n / 10);
        s.append(digit_str(n % 10));
        s
    }
}

/// A decimal rendering is a digit run whose value is the number, so it
/// parses back to that number.
pub proof fn lemma_decimal_parses(n: nat)
    ensures
        all_digits(decimal(n)),
        digits_value(decimal(n)) == n,
        decimal(n).len() > 0,
        decimal(n)[0] != '+',
        forall|i: int| 0 <= i < decimal(n).len() ==> decimal(n)[i] != ':',
    decreases n,
{
    assert((digit_char(n % 10) as nat) == n % 10 + 48);
    if n < 10 {
        assert(decimal(n).drop_last() =~= Seq::<char>::empty());
        assert(decimal(n).last() == digit_char(n));
        assert(('0' as nat) == 48);
        assert((digit_char(n) as nat) == n + 48);
        assert(digits_value(decimal(n).drop_last()) == 0);
    } else {
        lemma_decimal_parses(n / 10);
        let d = decimal(n);
        assert(d.drop_last() =~= decimal(n / 10));
        assert(d.last() == digit_char(n % 10));
        assert(n == (n / 10) * 10 + n % 10);
        assert(('0' as nat) == 48);
        assert(digits_value(d) == digits_value(d.drop_last()) * 10 + ((d.last() as nat) - ('0' as nat)) as nat);
        assert(digits_value(d) == (n / 10) * 10 + n % 10);
        assert forall|i: int| 0 <= i < d.len() implies is_digit(#[trigger] d[i]) by {
            if i < d.len() - 1 {
                assert(d[i] == decimal(n / 10)[i]);
            }
        }
    }
}

} // verus!

verus! {

/// The position of the first occurrence of `c` in `s`, if any.
pub open spec fn first_index_of(s: Seq<char>, c: char) -> Option<int>
    decreases s.len(),
{
    if s.len() == 0 {
        None
    } else if s[0] == c {
        Some(0)
    } else {
        match first_index_of(s.drop_first(), c) {
            Some(i) => Some(i + 1),
            None => None,
        }
    }
}

/// If `c` does not occur before `i`, and `i` is the end or holds `c`, then
/// the first occurrence is at `i` (or there is none).
pub proof fn lemma_first_index_of(s: Seq<char>, c: char, i: int)
    requires
        0 <= i <= s.len(),
        forall|j: int| 0 <= j < i ==> s[j] != c,
        i == s.len() || s[i] == c,
    ensures
        first_index_of(s, c) == (if i == s.len() { None } else { Some(i) }),
    decreases s.len(),
{
    if s.len() > 0 && i > 0 {
        assert forall|j: int| 0 <= j < i - 1 implies s.drop_first()[j] != c by {
            assert(s.drop_first()[j] == s[j + 1]);
        }
        lemma_first_index_of(s.drop_first(), c, i - 1);
    }
}

} // verus!

verus! {

/// The texts of a list of strings.
pub open spec fn texts(v: Seq<String>) -> Seq<Seq<char>> {
    v.map_values(|s: String| s@)
}

/// Whether a list of strings holds one equal to `s`.
pub fn contains_text(v: &Vec<String>, s: &str) -> (r: bool)
    ensures
        r == texts(v@).contains(s@),
{
    let mut i: usize = 0;
    while i < v.len()
        invariant
            i <= v.len(),
            forall|j: int| 0 <= j < i ==> v@[j]@ != s@,
        decreases v.len() - i,
    {
        if str_eq(v[i].as_str(), s) {
            assert(texts(v@)[i as int] == s@);
            return true;
        }
        i = i + 1;
    }
    assert forall|j: int| 0 <= j < texts(v@).len() implies texts(v@)[j] != s@ by {
        assert(texts(v@)[j] == v@[j]@);
    }
    false
}

} // verus!

verus! {

/// The value of the first entry whose key is `key`.
pub open spec fn lookup_first<T>(entries: Seq<(Seq<char>, T)>, key: Seq<char>) -> Option<T>
    decreases entries.len(),
{
    if entries.len() == 0 {
        None
    } else if entries[0].0 == key {
        Some(entries[0].1)
    } else {
        lookup_first(entries.drop_first(), key)
    }
}

/// Looking up a key in a list with one more entry at the end.
pub proof fn lemma_lookup_first_push<T>(entries: Seq<(Seq<char>, T)>, entry: (Seq<char>, T), key: Seq<char>)
    ensures
        lookup_first(entries.push(entry), key) == match lookup_first(entries, key) {
            Some(v) => Some(v),
            None => if entry.0 == key { Some(entry.1) } else { None },
        },
    decreases entries.len(),
{
    let e2 = entries.push(entry);
    if entries.len() > 0 {
        assert(e2[0] == entries[0]);
        assert(e2.drop_first() =~= entries.drop_first().push(entry));
        lemma_lookup_first_push(entries.drop_first(), entry, key);
        if entries[0].0 == key {
            assert(lookup_first(e2, key) == Some(entries[0].1));
        } else {
            assert(lookup_first(e2, key) == lookup_first(e2.drop_first(), key));
            assert(lookup_first(entries, key) == lookup_first(entries.drop_first(), key));
        }
    } else {
        assert(e2[0] == entry);
        assert(e2.drop_first() =~= Seq::<(Seq<char>, T)>::empty());
        assert(lookup_first(e2.drop_first(), key) is None);
    }
}

/// Replacing the value of the first entry with key `k` changes the lookup
/// of `k` only.
pub proof fn lemma_lookup_first_update<T>(entries: Seq<(Seq<char>, T)>, i: int, v: T, key: Seq<char>)
    requires
        0 <= i < entries.len(),
        forall|j: int| 0 <= j < i ==> entries[j].0 != entries[i].0,
    ensures
        lookup_first(entries.update(i, (entries[i].0, v)), key) == if key == entries[i].0 {
            Some(v)
        } else {
            lookup_first(entries, key)
        },
    decreases entries.len(),
{
    let e2 = entries.update(i, (entries[i].0, v));
    assert(e2[0] == if i == 0 { (entries[i].0, v) } else { entries[0] });
    if i == 0 {
        assert(e2.drop_first() =~= entries.drop_first());
    }
    if i > 0 {
        assert(e2.drop_first() =~= entries.drop_first().update(i - 1, (entries[i].0, v)));
        assert forall|j: int| 0 <= j < i - 1 implies (#[trigger] entries.drop_first()[j]).0 != entries.drop_first()[i - 1].0 by {
            assert(entries.drop_first()[j] == entries[j + 1]);
        }
        lemma_lookup_first_update(entries.drop_first(), i - 1, v, key);
    }
}

/// The lookup finds the first entry with the key, at index `i`, when no
/// earlier entry has that key; it finds nothing when no entry has it.
pub proof fn lemma_lookup_first_at<T>(entries: Seq<(Seq<char>, T)>, key: Seq<char>, i: int)
    requires
        0 <= i <= entries.len(),
        forall|j: int| 0 <= j < i ==> entries[j].0 != key,
        i == entries.len() || entries[i].0 == key,
    ensures
        lookup_first(entries, key) == if i == entries.len() { None } else { Some(entries[i].1) },
    decreases entries.len(),
{
    if entries.len() > 0 && i > 0 {
        assert forall|j: int| 0 <= j < i - 1 implies (#[trigger] entries.drop_first()[j]).0 != key by {
            assert(entries.drop_first()[j] == entries[j + 1]);
        }
        lemma_lookup_first_at(entries.drop_first(), key, i - 1);
    }
}

} // verus!

verus! {

/// Unicode `White_Space`, as `char::is_whitespace` defines it.
pub open spec fn is_whitespace_spec(c: char) -> bool {
    let n = c as u32;
    (0x9 <= n && n <= 0xD) || n == 0x20 || n == 0x85 || n == 0xA0 || n == 0x1680
        || (0x2000 <= n && n <= 0x200A) || n == 0x2028 || n == 0x2029 || n == 0x202F
        || n == 0x205F || n == 0x3000
}

fn is_whitespace(c: char) -> (r: bool)
    ensures
        r == is_whitespace_spec(c),
{
    let n = c as u32;
    (0x9 <= n && n <= 0xD) || n == 0x20 || n == 0x85 || n == 0xA0 || n == 0x1680
        || (0x2000 <= n && n <= 0x200A) || n == 0x2028 || n == 0x2029 || n == 0x202F
        || n == 0x205F || n == 0x3000
}

/// `s` without leading whitespace.
pub open spec fn trim_start_spec(s: Seq<char>) -> Seq<char>
    decreases s.len(),
{
    if s.len() > 0 && is_whitespace_spec(s[0]) {
        trim_start_spec(s.drop_first())
    } else {
        s
    }
}

/// `s` without trailing whitespace.
pub open spec fn trim_end_spec(s: Seq<char>) -> Seq<char>
    decreases s.len(),
{
    if s.len() > 0 && is_whitespace_spec(s.last()) {
        trim_end_spec(s.drop_last())
    } else {
        s
    }
}

/// `str::trim`: `s` without leading and trailing whitespace.
pub open spec fn trim_spec(s: Seq<char>) -> Seq<char> {
    trim_end_spec(trim_start_spec(s))
}

proof fn lemma_trim_start(s: Seq<char>, i: int)
    requires
        0 <= i <= s.len(),
        forall|j: int| 0 <= j < i ==> is_whitespace_spec(#[trigger] s[j]),
        i == s.len() || !is_whitespace_spec(s[i]),
    ensures
        trim_start_spec(s) == s.skip(i),
    decreases i,
{
    if i > 0 {
        assert forall|j: int| 0 <= j < i - 1 implies is_whitespace_spec(#[trigger] s.drop_first()[j]) by {
            assert(s.drop_first()[j] == s[j + 1]);
        }
        lemma_trim_start(s.drop_first(), i - 1);
        assert(s.drop_first().skip(i - 1) =~= s.skip(i));
    } else {
        assert(s.skip(0) =~= s);
    }
}

proof fn lemma_trim_end(s: Seq<char>, k: int)
    requires
        0 <= k <= s.len(),
        forall|j: int| k <= j < s.len() ==> is_whitespace_spec(#[trigger] s[j]),
        k == 0 || !is_whitespace_spec(s[k - 1]),
    ensures
        trim_end_spec(s) == s.take(k),
    decreases s.len() - k,
{
    if k < s.len() {
        assert forall|j: int| k <= j < s.drop_last().len() implies is_whitespace_spec(#[trigger] s.drop_last()[j]) by {
            assert(s.drop_last()[j] == s[j]);
        }
        lemma_trim_end(s.drop_last(), k);
        assert(s.drop_last().take(k) =~= s.take(k));
    } else {
        assert(s.take(k) =~= s);
    }
}

/// `str::trim`: the text without leading and trailing Unicode whitespace.
pub fn trim(s: &str) -> (r: &str)
    ensures
        r@ == trim_spec(s@),
{
    let n = s.unicode_len();
    let mut i: usize = 0;
    while i < n && is_whitespace(s.get_char(i))
        invariant
            i <= n,
            n == s@.len(),
            forall|j: int| 0 <= j < i ==> is_whitespace_spec(#[trigger] s@[j]),
        decreases n - i,
    {
        i = i + 1;
    }
    proof {
        lemma_trim_start(s@, i as int);
    }
    let mut k: usize = n;
    while k > i && is_whitespace(s.get_char(k - 1))
        invariant
            i <= k <= n,
            n == s@.len(),
            forall|j: int| k <= j < n ==> is_whitespace_spec(#[trigger] s@[j]),
        decreases k,
    {
        k = k - 1;
    }
    let ghost t = s@.skip(i as int);
    proof {
        assert forall|j: int| k - i <= j < t.len() implies is_whitespace_spec(#[trigger] t[j]) by {
            assert(t[j] == s@[j + i]);
        }
        if k > i {
            assert(t[k - i - 1] == s@[k - 1]);
        }
        lemma_trim_end(t, k - i);
    }
    let r = s.substring_char(i, k);
    assert(r@ =~= t.take(k - i));
    r
}

/// ASCII text with no uppercase letter: what case folding leaves unchanged.
pub open spec fn is_lowercase_ascii(s: Seq<char>) -> bool {
    forall|i: int| 0 <= i < s.len() ==> (s[i] as u32) < 128 && !('A' <= #[trigger] s[i] && s[i] <= 'Z')
}

/// The ASCII lowercase of a character.
pub open spec fn ascii_lower(c: char) -> char {
    if 'A' <= c && c <= 'Z' {
        ((c as u32) + 32) as char
    } else {
        c
    }
}

/// `str::eq_ignore_ascii_case`.
pub open spec fn eq_ignore_ascii_case(a: Seq<char>, b: Seq<char>) -> bool {
    a.len() == b.len() && forall|i: int| 0 <= i < a.len() ==> ascii_lower(#[trigger] a[i]) == ascii_lower(b[i])
}

/// The pieces of `s` between occurrences of `c` (`str::split` with a
/// character pattern): one more piece than there are occurrences.
pub open spec fn split_spec(s: Seq<char>, c: char) -> Seq<Seq<char>>
    decreases s.len(),
{
    match first_index_of(s, c) {
        Some(i) => {
            if 0 <= i < s.len() {
                seq![s.take(i)] + split_spec(s.skip(i + 1), c)
            } else {
                seq![s]
            }
        },
        None => seq![s],
    }
}

/// Where the first occurrence of `c` in `s` is, and that none comes before it.
pub proof fn lemma_first_index_of_bounds(s: Seq<char>, c: char)
    ensures
        first_index_of(s, c) matches Some(i) ==> 0 <= i < s.len() && s[i] == c
            && forall|j: int| 0 <= j < i ==> s[j] != c,
        first_index_of(s, c) is None ==> forall|j: int| 0 <= j < s.len() ==> s[j] != c,
    decreases s.len(),
{
    if s.len() > 0 {
        lemma_first_index_of_bounds(s.drop_first(), c);
        if first_index_of(s, c) is None {
            assert forall|j: int| 0 <= j < s.len() implies s[j] != c by {
                if j > 0 {
                    assert(s[j] == s.drop_first()[j - 1]);
                }
            }
        }
        if s[0] != c {
            if let Some(i) = first_index_of(s.drop_first(), c) {
                assert forall|j: int| 0 <= j < i + 1 implies s[j] != c by {
                    if j > 0 {
                        assert(s[j] == s.drop_first()[j - 1]);
                    }
                }
            }
        }
    }
}

/// The first occurrence of `c` in `s` at or after `from`, as an index into `s`.
fn find_char(s: &str, c: char, from: usize) -> (r: Option<usize>)
    requires
        from <= s@.len(),
    ensures
        r == (match first_index_of(s@.skip(from as int), c) {
            Some(i) => Some((i + from) as usize),
            None => None::<usize>,
        }),
{
    let n = s.unicode_len();
    let mut i: usize = from;
    let ghost t = s@.skip(from as int);
    while i < n && s.get_char(i) != c
        invariant
            from <= i <= n,
            n == s@.len(),
            t == s@.skip(from as int),
            forall|j: int| 0 <= j < i - from ==> t[j] != c,
        decreases n - i,
    {
        i = i + 1;
    }
    proof {
        lemma_first_index_of(t, c, i - from);
    }
    if i == n {
        None
    } else {
        Some(i)
    }
}

/// Split `s` at `c` into exactly three pieces, or `None` if `s` does not
/// hold exactly two occurrences of `c`.
pub fn split3(s: &str, c: char) -> (r: Option<(&str, &str, &str)>)
    ensures
        match r {
            Some((a, b, d)) => split_spec(s@, c) == seq![a@, b@, d@],
            None => split_spec(s@, c).len() != 3,
        },
{
    let n = s.unicode_len();
    proof {
        assert(s@.skip(0) =~= s@);
        lemma_first_index_of_bounds(s@, c);
    }
    let i = match find_char(s, c, 0) {
        Some(i) => i,
        None => {
            assert(split_spec(s@, c) =~= seq![s@]);
            return None;
        },
    };
    let ghost rest1 = s@.skip(i + 1);
    proof {
        lemma_first_index_of_bounds(rest1, c);
    }
    let j = match find_char(s, c, i + 1) {
        Some(j) => j,
        None => {
            assert(split_spec(rest1, c) =~= seq![rest1]);
            assert(split_spec(s@, c) =~= seq![s@.take(i as int)] + seq![rest1]);
            return None;
        },
    };
    let ghost rest2 = s@.skip(j + 1);
    assert(rest1.skip(j - i) =~= rest2);
    proof {
        lemma_first_index_of_bounds(rest2, c);
    }
    assert(split_spec(rest1, c) =~= seq![rest1.take(j - i - 1)] + split_spec(rest2, c));
    assert(split_spec(s@, c) =~= seq![s@.take(i as int)] + split_spec(rest1, c));
    match find_char(s, c, j + 1) {
        Some(k) => {
            let ghost rest3 = s@.skip(k + 1);
            assert(rest2.skip(k - j) =~= rest3);
            assert(split_spec(rest2, c) =~= seq![rest2.take(k - j - 1)] + split_spec(rest3, c));
            proof {
                lemma_split_nonempty(rest3, c);
            }
            None
        },
        None => {
            assert(split_spec(rest2, c) =~= seq![rest2]);
            let a = s.substring_char(0, i);
            let b = s.substring_char(i + 1, j);
            let d = s.substring_char(j + 1, n);
            assert(a@ =~= s@.take(i as int));
            assert(b@ =~= rest1.take(j - i - 1));
            assert(d@ =~= rest2);
            assert(split_spec(s@, c) =~= seq![a@, b@, d@]);
            Some((a, b, d))
        },
    }
}

proof fn lemma_split_nonempty(s: Seq<char>, c: char)
    ensures
        split_spec(s, c).len() >= 1,
    decreases s.len(),
{
    lemma_first_index_of_bounds(s, c);
    if let Some(i) = first_index_of(s, c) {
        lemma_split_nonempty(s.skip(i + 1), c);
    }
}

} // verus!

//! Small verified helpers on strings and vectors of strings.

use vstd::prelude::*;

verus! {

/// Clone of an `Option<String>` that provably returns an equal value.
pub fn clone_opt_string(o: &Option<String>) -> (r: Option<String>)
    ensures
        r == *o,
{
    match o {
        Some(s) => Some(s.clone()),
        None => None,
    }
}

/// Clone of a `Vec<String>` that provably returns an equal value.
pub fn clone_string_vec(v: &Vec<String>) -> (r: Vec<String>)
    ensures
        r@ == v@,
        r.deep_view() == v.deep_view(),
{
    let mut out: Vec<String> = Vec::new();
    let mut i: usize = 0;
    while i < v.len()
        invariant
            i <= v.len(),
            out@ =~= v@.subrange(0, i as int),
        decreases v.len() - i,
    {
        out.push(v[i].clone());
        i = i + 1;
    }
    proof {
        assert(out@ =~= v@);
        assert(out.deep_view() =~= v.deep_view());
    }
    out
}

/// Equality of two `Vec<String>` by contents.
pub fn string_vecs_equal(a: &Vec<String>, b: &Vec<String>) -> (r: bool)
    ensures
        r == (a.deep_view() =~= b.deep_view()),
{
    if a.len() != b.len() {
        assert(a.deep_view().len() != b.deep_view().len());
        return false;
    }
    let mut i: usize = 0;
    while i < a.len()
        invariant
            i <= a.len(),
            a.len() == b.len(),
            a.deep_view().len() == a@.len(),
            b.deep_view().len() == b@.len(),
            forall|j: int| 0 <= j < i ==> a.deep_view()[j] == b.deep_view()[j],
        decreases a.len() - i,
    {
        if !(a[i] == b[i]) {
            assert(a.deep_view()[i as int] != b.deep_view()[i as int]);
            return false;
        }
        assert(a.deep_view()[i as int] == b.deep_view()[i as int]);
        i = i + 1;
    }
    proof {
        assert(a.deep_view() =~= b.deep_view());
    }
    true
}

/// ASCII uppercase mapping of one character; other characters are unchanged.
pub open spec fn spec_upper_char(c: char) -> char {
    if 97 <= c as u32 && c as u32 <= 122 {
        ((c as u32 - 32) as u8) as char
    } else {
        c
    }
}

/// ASCII lowercase mapping of one character; other characters are unchanged.
pub open spec fn spec_lower_char(c: char) -> char {
    if 65 <= c as u32 && c as u32 <= 90 {
        ((c as u32 + 32) as u8) as char
    } else {
        c
    }
}

/// ASCII uppercase mapping of a string, character by character.
pub open spec fn spec_upper(s: Seq<char>) -> Seq<char> {
    s.map_values(|c: char| spec_upper_char(c))
}

/// ASCII lowercase mapping of a string, character by character.
pub open spec fn spec_lower(s: Seq<char>) -> Seq<char> {
    s.map_values(|c: char| spec_lower_char(c))
}

/// Relies on `str::to_ascii_uppercase`: every ASCII lowercase letter is
/// mapped to its uppercase equivalent and every other character is unchanged.
#[verifier::external_body]
pub fn ascii_upper(s: &str) -> (r: String)
    ensures
        r@ == spec_upper(s@),
{
    s.to_ascii_uppercase()
}

/// Relies on `str::to_ascii_lowercase`: every ASCII uppercase letter is
/// mapped to its lowercase equivalent and every other character is unchanged.
#[verifier::external_body]
pub fn ascii_lower(s: &str) -> (r: String)
    ensures
        r@ == spec_lower(s@),
{
    s.to_ascii_lowercase()
}

/// Splitting a string at a separator, with `cur` the piece read so far:
/// every separator ends the current piece and starts a new one.
pub open spec fn spec_split_acc(s: Seq<char>, sep: char, cur: Seq<char>) -> Seq<Seq<char>>
    decreases s.len(),
{
    if s.len() == 0 {
        seq![cur]
    } else if s[0] == sep {
        seq![cur] + spec_split_acc(s.skip(1), sep, Seq::empty())
    } else {
        spec_split_acc(s.skip(1), sep, cur.push(s[0]))
    }
}

/// The pieces of `s` between occurrences of `sep`.  A string without the
/// separator is one piece; an empty string is one empty piece.
pub open spec fn spec_split(s: Seq<char>, sep: char) -> Seq<Seq<char>> {
    spec_split_acc(s, sep, Seq::empty())
}

/// A split has at least one piece, whatever the accumulator.
pub proof fn lemma_split_acc_nonempty(s: Seq<char>, sep: char, cur: Seq<char>)
    ensures
        spec_split_acc(s, sep, cur).len() >= 1,
    decreases s.len(),
{
    if s.len() > 0 {
        if s[0] == sep {
            lemma_split_acc_nonempty(s.skip(1), sep, Seq::empty());
        } else {
            lemma_split_acc_nonempty(s.skip(1), sep, cur.push(s[0]));
        }
    }
}

/// A split has at least one piece.
pub proof fn lemma_split_nonempty(s: Seq<char>, sep: char)
    ensures
        spec_split(s, sep).len() >= 1,
{
    lemma_split_acc_nonempty(s, sep, Seq::empty());
}

/// Splits `s` at each occurrence of `sep`.
pub fn split_on(s: &str, sep: char) -> (r: Vec<String>)
    ensures
        r.deep_view() == spec_split(s@, sep),
{
    let n = s.unicode_len();
    let mut out: Vec<String> = Vec::new();
    let mut start: usize = 0;
    let mut i: usize = 0;
    proof {
        assert(s@.skip(0) =~= s@);
        assert(s@.subrange(0, 0) =~= Seq::<char>::empty());
        assert(out.deep_view() =~= Seq::<Seq<char>>::empty());
    }
    while i < n
        invariant
            n == s@.len(),
            start <= i <= n,
            spec_split(s@, sep) == out.deep_view() + spec_split_acc(
                s@.skip(i as int),
                sep,
                s@.subrange(start as int, i as int),
            ),
        decreases n - i,
    {
        let c = s.get_char(i);
        if c == sep {
            let piece = s.substring_char(start, i);
            out.push(piece.to_owned());
            proof {
                assert(s@.skip(i as int).skip(1) =~= s@.skip(i + 1));
                assert(s@.subrange(i + 1, i + 1) =~= Seq::<char>::empty());
            }
            start = i + 1;
        } else {
            proof {
                assert(s@.skip(i as int).skip(1) =~= s@.skip(i + 1));
                assert(s@.subrange(start as int, i as int).push(s@[i as int]) =~= s@.subrange(
                    start as int,
                    i + 1,
                ));
            }
        }
        i = i + 1;
    }
    let piece = s.substring_char(start, n);
    out.push(piece.to_owned());
    proof {
        assert(s@.skip(n as int) =~= Seq::<char>::empty());
        assert(out.deep_view() =~= spec_split(s@, sep));
    }
    out
}

/// Whether `c` is an ASCII decimal digit.
pub open spec fn spec_is_digit(c: char) -> bool {
    48 <= c as u32 && c as u32 <= 57
}

/// Whether `s` is a non-empty string of ASCII decimal digits.
pub open spec fn spec_all_digits(s: Seq<char>) -> bool {
    s.len() > 0 && forall|i: int| 0 <= i < s.len() ==> spec_is_digit(#[trigger] s[i])
}

/// The value of a digit string, most significant digit first.
pub open spec fn spec_digits_val(s: Seq<char>) -> int
    decreases s.len(),
{
    if s.len() == 0 {
        0
    } else {
        spec_digits_val(s.drop_last()) * 10 + (s.last() as u32 - 48)
    }
}

/// The number a decimal string denotes, when it is one and fits in a `u16`.
pub open spec fn spec_parse_u16(s: Seq<char>) -> Option<u16> {
    if spec_all_digits(s) && spec_digits_val(s) <= 65535 {
        Some(spec_digits_val(s) as u16)
    } else {
        None
    }
}

/// The value of a digit string never falls below the value of any prefix.
pub proof fn lemma_digits_val_grows(s: Seq<char>, i: int)
    requires
        spec_all_digits(s),
        0 <= i <= s.len(),
    ensures
        0 <= spec_digits_val(s.take(i)) <= spec_digits_val(s),
    decreases s.len() - i,
{
    if i == s.len() {
        assert(s.take(i) =~= s);
        lemma_digits_val_nonneg(s);
    } else {
        lemma_digits_val_grows(s, i + 1);
        assert(s.take(i + 1).drop_last() =~= s.take(i));
        lemma_digits_val_nonneg(s.take(i));
        assert(spec_is_digit(s[i]));
        assert(spec_digits_val(s.take(i + 1)) == spec_digits_val(s.take(i)) * 10 + (s[i] as u32
            - 48));
    }
}

/// The value of a digit string is never negative.
proof fn lemma_digits_val_nonneg(s: Seq<char>)
    requires
        forall|i: int| 0 <= i < s.len() ==> spec_is_digit(#[trigger] s[i]),
    ensures
        spec_digits_val(s) >= 0,
    decreases s.len(),
{
    if s.len() > 0 {
        lemma_digits_val_nonneg(s.drop_last());
    }
}

/// Parses a decimal number that fits in a `u16`; `None` on anything else.
pub fn parse_u16(s: &str) -> (r: Option<u16>)
    ensures
        r == spec_parse_u16(s@),
{
    let n = s.unicode_len();
    if n == 0 {
        return None;
    }
    let mut acc: u32 = 0;
    let mut i: usize = 0;
    proof {
        assert(s@.take(0) =~= Seq::<char>::empty());
    }
    while i < n
        invariant
            n == s@.len(),
            i <= n,
            acc <= 65535,
            forall|p: int| 0 <= p < i ==> spec_is_digit(#[trigger] s@[p]),
            acc == spec_digits_val(s@.take(i as int)),
        decreases n - i,
    {
        let c = s.get_char(i);
        let cv = c as u32;
        if cv < 48 || cv > 57 {
            assert(!spec_is_digit(s@[i as int]));
            return None;
        }
        let d = cv - 48;
        proof {
            assert(s@.take(i + 1).drop_last() =~= s@.take(i as int));
        }
        if acc > 6553 || (acc == 6553 && d > 5) {
            proof {
                if spec_all_digits(s@) {
                    lemma_digits_val_grows(s@, i + 1);
                }
            }
            return None;
        }
        acc = acc * 10 + d;
        i = i + 1;
    }
    proof {
        assert(s@.take(n as int) =~= s@);
    }
    Some(acc as u16)
}

/// The number a decimal string denotes, when it is one and fits in a `u32`.
pub open spec fn spec_parse_u32(s: Seq<char>) -> Option<u32> {
    if spec_all_digits(s) && spec_digits_val(s) <= 4294967295 {
        Some(spec_digits_val(s) as u32)
    } else {
        None
    }
}

/// Parses a decimal number that fits in a `u32`; `None` on anything else.
pub fn parse_u32(s: &str) -> (r: Option<u32>)
    ensures
        r == spec_parse_u32(s@),
{
    let n = s.unicode_len();
    if n == 0 {
        return None;
    }
    let mut acc: u32 = 0;
    let mut i: usize = 0;
    proof {
        assert(s@.take(0) =~= Seq::<char>::empty());
    }
    while i < n
        invariant
            n == s@.len(),
            i <= n,
            acc <= 4294967295,
            forall|p: int| 0 <= p < i ==> spec_is_digit(#[trigger] s@[p]),
            acc == spec_digits_val(s@.take(i as int)),
        decreases n - i,
    {
        let c = s.get_char(i);
        let cv = c as u32;
        if cv < 48 || cv > 57 {
            assert(!spec_is_digit(s@[i as int]));
            return None;
        }
        let d = cv - 48;
        proof {
            assert(s@.take(i + 1).drop_last() =~= s@.take(i as int));
        }
        if acc > 429496729 || (acc == 429496729 && d > 5) {
            proof {
                if spec_all_digits(s@) {
                    lemma_digits_val_grows(s@, i + 1);
                }
            }
            return None;
        }
        acc = acc * 10 + d;
        i = i + 1;
    }
    proof {
        assert(s@.take(n as int) =~= s@);
    }
    Some(acc)
}

/// The text before and after the first occurrence of `sep`, when there is
/// one.
pub open spec fn spec_split_once(s: Seq<char>, sep: char) -> Option<(Seq<char>, Seq<char>)>
    decreases s.len(),
{
    if s.len() == 0 {
        None
    } else if s[0] == sep {
        Some((Seq::empty(), s.skip(1)))
    } else {
        match spec_split_once(s.skip(1), sep) {
            None => None,
            Some(p) => Some((seq![s[0]] + p.0, p.1)),
        }
    }
}

/// Splitting once at the first occurrence cuts exactly there.
proof fn lemma_split_once_at(s: Seq<char>, sep: char, i: int)
    requires
        0 <= i < s.len(),
        s[i] == sep,
        forall|p: int| 0 <= p < i ==> s[p] != sep,
    ensures
        spec_split_once(s, sep) == Some((s.take(i), s.skip(i + 1))),
    decreases i,
{
    if i == 0 {
        assert(s.take(0) =~= Seq::<char>::empty());
    } else {
        lemma_split_once_at(s.skip(1), sep, i - 1);
        assert(seq![s[0]] + s.skip(1).take(i - 1) =~= s.take(i));
        assert(s.skip(1).skip(i) =~= s.skip(i + 1));
    }
}

/// Without the separator there is nothing to split.
proof fn lemma_split_once_none(s: Seq<char>, sep: char)
    requires
        forall|p: int| 0 <= p < s.len() ==> s[p] != sep,
    ensures
        spec_split_once(s, sep) is None,
    decreases s.len(),
{
    if s.len() > 0 {
        lemma_split_once_none(s.skip(1), sep);
    }
}

/// Splits at the first occurrence of `sep`; `None` when it does not occur.
pub fn split_once_on(s: &str, sep: char) -> (r: Option<(String, String)>)
    ensures
        r is Some <==> spec_split_once(s@, sep) is Some,
        r matches Some(p) ==> spec_split_once(s@, sep) == Some((p.0@, p.1@)),
{
    let n = s.unicode_len();
    let mut i: usize = 0;
    while i < n
        invariant
            n == s@.len(),
            i <= n,
            forall|p: int| 0 <= p < i ==> s@[p] != sep,
        decreases n - i,
    {
        if s.get_char(i) == sep {
            proof {
                lemma_split_once_at(s@, sep, i as int);
            }
            let before = s.substring_char(0, i);
            let after = s.substring_char(i + 1, n);
            proof {
                assert(s@.subrange(0, i as int) =~= s@.take(i as int));
                assert(s@.subrange(i + 1, n as int) =~= s@.skip(i + 1));
            }
            return Some((before.to_owned(), after.to_owned()));
        }
        i = i + 1;
    }
    proof {
        lemma_split_once_none(s@, sep);
    }
    None
}

/// Whether `c` is ASCII whitespace.
pub open spec fn spec_is_ws(c: char) -> bool {
    c == ' ' || c == '\t' || c == '\n' || c == '\r'
}

/// Whether the text holds nothing but ASCII whitespace.
pub open spec fn spec_blank(s: Seq<char>) -> bool {
    forall|i: int| 0 <= i < s.len() ==> spec_is_ws(#[trigger] s[i])
}

/// Whether the text holds nothing but ASCII whitespace.
pub fn is_blank(s: &str) -> (r: bool)
    ensures
        r == spec_blank(s@),
{
    let n = s.unicode_len();
    let mut i: usize = 0;
    while i < n
        invariant
            n == s@.len(),
            i <= n,
            forall|p: int| 0 <= p < i ==> spec_is_ws(#[trigger] s@[p]),
        decreases n - i,
    {
        let c = s.get_char(i);
        if !(c == ' ' || c == '\t' || c == '\n' || c == '\r') {
            return false;
        }
        i = i + 1;
    }
    true
}

/// `s` without its leading ASCII whitespace.
pub open spec fn spec_trim_front(s: Seq<char>) -> Seq<char>
    decreases s.len(),
{
    if s.len() > 0 && spec_is_ws(s[0]) {
        spec_trim_front(s.skip(1))
    } else {
        s
    }
}

/// `s` without its trailing ASCII whitespace.
pub open spec fn spec_trim_back(s: Seq<char>) -> Seq<char>
    decreases s.len(),
{
    if s.len() > 0 && spec_is_ws(s.last()) {
        spec_trim_back(s.drop_last())
    } else {
        s
    }
}

/// `s` without leading and trailing ASCII whitespace.
pub open spec fn spec_trim(s: Seq<char>) -> Seq<char> {
    spec_trim_back(spec_trim_front(s))
}

/// Trimming the front skips exactly the leading whitespace.
proof fn lemma_trim_front_at(s: Seq<char>, a: int)
    requires
        0 <= a <= s.len(),
        forall|p: int| 0 <= p < a ==> spec_is_ws(#[trigger] s[p]),
        a < s.len() ==> !spec_is_ws(s[a]),
    ensures
        spec_trim_front(s) == s.skip(a),
    decreases a,
{
    if a == 0 {
        assert(s.skip(0) =~= s);
    } else {
        lemma_trim_front_at(s.skip(1), a - 1);
        assert(s.skip(1).skip(a - 1) =~= s.skip(a));
    }
}

/// Trimming the back keeps exactly the prefix before the trailing
/// whitespace.
proof fn lemma_trim_back_at(t: Seq<char>, b: int)
    requires
        0 <= b <= t.len(),
        forall|p: int| b <= p < t.len() ==> spec_is_ws(#[trigger] t[p]),
        b > 0 ==> !spec_is_ws(t[b - 1]),
    ensures
        spec_trim_back(t) == t.take(b),
    decreases t.len(),
{
    if b == t.len() {
        assert(t.take(b) =~= t);
    } else {
        assert(spec_is_ws(t.last()));
        lemma_trim_back_at(t.drop_last(), b);
        assert(t.drop_last().take(b) =~= t.take(b));
    }
}

/// Removes leading and trailing ASCII whitespace.
pub fn trim_ascii(s: &str) -> (r: String)
    ensures
        r@ == spec_trim(s@),
{
    let n = s.unicode_len();
    let mut a: usize = 0;
    while a < n
        invariant_except_break
            n == s@.len(),
            a <= n,
            forall|p: int| 0 <= p < a ==> spec_is_ws(#[trigger] s@[p]),
        ensures
            n == s@.len(),
            a <= n,
            forall|p: int| 0 <= p < a ==> spec_is_ws(#[trigger] s@[p]),
            a < n ==> !spec_is_ws(s@[a as int]),
        decreases n - a,
    {
        let c = s.get_char(a);
        if !(c == ' ' || c == '\t' || c == '\n' || c == '\r') {
            break ;
        }
        a = a + 1;
    }
    proof {
        lemma_trim_front_at(s@, a as int);
    }
    if a == n {
        proof {
            assert(s@.skip(a as int) =~= Seq::<char>::empty());
        }
        return String::new();
    }
    let mut b: usize = n;
    while b > a
        invariant_except_break
            n == s@.len(),
            a < n,
            !spec_is_ws(s@[a as int]),
            a <= b <= n,
            forall|p: int| b <= p < n ==> spec_is_ws(#[trigger] s@[p]),
        ensures
            n == s@.len(),
            a < b <= n,
            !spec_is_ws(s@[b - 1]),
            forall|p: int| b <= p < n ==> spec_is_ws(#[trigger] s@[p]),
        decreases b,
    {
        let c = s.get_char(b - 1);
        if !(c == ' ' || c == '\t' || c == '\n' || c == '\r') {
            break ;
        }
        b = b - 1;
    }
    let piece = s.substring_char(a, b);
    proof {
        let t = s@.skip(a as int);
        lemma_trim_back_at(t, b - a);
        assert(t.take(b - a) =~= s@.subrange(a as int, b as int));
    }
    piece.to_owned()
}

/// The value of the first pair whose key equals `key`, searching front to
/// back.
pub open spec fn spec_first_value(
    s: Seq<(Seq<char>, Seq<char>)>,
    key: Seq<char>,
) -> Option<Seq<char>>
    decreases s.len(),
{
    if s.len() == 0 {
        None
    } else if s[0].0 == key {
        Some(s[0].1)
    } else {
        spec_first_value(s.skip(1), key)
    }
}

/// The first value is the one at the first matching index.
proof fn lemma_first_value_at(s: Seq<(Seq<char>, Seq<char>)>, key: Seq<char>, i: int)
    requires
        0 <= i < s.len(),
        s[i].0 == key,
        forall|p: int| 0 <= p < i ==> (#[trigger] s[p]).0 != key,
    ensures
        spec_first_value(s, key) == Some(s[i].1),
    decreases i,
{
    if i > 0 {
        lemma_first_value_at(s.skip(1), key, i - 1);
    }
}

/// Without a matching key there is no first value.
proof fn lemma_first_value_none(s: Seq<(Seq<char>, Seq<char>)>, key: Seq<char>)
    requires
        forall|p: int| 0 <= p < s.len() ==> (#[trigger] s[p]).0 != key,
    ensures
        spec_first_value(s, key) is None,
    decreases s.len(),
{
    if s.len() > 0 {
        lemma_first_value_none(s.skip(1), key);
    }
}

/// Looks up the first pair with exactly this key (no case normalization).
pub fn first_value<'a>(entries: &'a Vec<(String, String)>, key: &str) -> (r: Option<&'a String>)
    ensures
        r is Some <==> spec_first_value(entries.deep_view(), key@) is Some,
        r matches Some(v) ==> spec_first_value(entries.deep_view(), key@) == Some(v@),
{
    let k = key.to_owned();
    let n = entries.len();
    let mut i: usize = 0;
    while i < n
        invariant
            n == entries@.len(),
            i <= n,
            k@ == key@,
            entries.deep_view().len() == n,
            forall|p: int| 0 <= p < i ==> (#[trigger] entries.deep_view()[p]).0 != key@,
        decreases n - i,
    {
        if entries[i].0 == k {
            proof {
                lemma_first_value_at(entries.deep_view(), key@, i as int);
            }
            return Some(&entries[i].1);
        }
        assert(entries.deep_view()[i as int].0 != key@);
        i = i + 1;
    }
    proof {
        lemma_first_value_none(entries.deep_view(), key@);
    }
    None
}

/// Equality of two `Option<String>` by contents.
pub fn opt_strings_equal(a: &Option<String>, b: &Option<String>) -> (r: bool)
    ensures
        r == (a.deep_view() == b.deep_view()),
{
    match (a, b) {
        (Some(x), Some(y)) => *x == *y,
        (None, None) => true,
        _ => false,
    }
}

} // verus!

//! Text helpers over `&str` and `String`, each specified over `Seq<char>`.

use vstd::prelude::*;
use vstd::string::*;

verus! {

/// Whether `c` carries the Unicode `White_Space` property.
pub open spec fn is_whitespace_char(c: char) -> bool {
    let code = c as u32;
    ||| 0x09 <= code <= 0x0D
    ||| code == 0x20
    ||| code == 0x85
    ||| code == 0xA0
    ||| code == 0x1680
    ||| 0x2000 <= code <= 0x200A
    ||| code == 0x2028
    ||| code == 0x2029
    ||| code == 0x202F
    ||| code == 0x205F
    ||| code == 0x3000
}

/// Tells whether `c` is white space.
pub fn is_whitespace(c: char) -> (b: bool)
    ensures
        b == is_whitespace_char(c),
{
    let code: u32 = c as u32;
    (0x09 <= code && code <= 0x0D) || code == 0x20 || code == 0x85 || code == 0xA0 || code
        == 0x1680 || (0x2000 <= code && code <= 0x200A) || code == 0x2028 || code == 0x2029 || code
        == 0x202F || code == 0x205F || code == 0x3000
}

/// The characters of `s`, in order.
pub fn chars_of(s: &str) -> (chars: Vec<char>)
    ensures
        chars@ == s@,
{
    let mut chars: Vec<char> = Vec::new();
    for c in it: s.chars()
        invariant
            it.seq() == s@,
            chars@ == s@.take(it.index() as int),
    {
        chars.push(c);
    }
    chars
}

/// Whether `a` and `b` hold the same text.
pub fn same_text(a: &str, b: &str) -> (same: bool)
    ensures
        same == (a@ == b@),
{
    let left = a.to_owned();
    let right = b.to_owned();
    left == right
}

/// The decimal digit character for `d`, for `0 <= d <= 9`.
pub open spec fn digit_char(d: int) -> char {
    if d == 0 {
        '0'
    } else if d == 1 {
        '1'
    } else if d == 2 {
        '2'
    } else if d == 3 {
        '3'
    } else if d == 4 {
        '4'
    } else if d == 5 {
        '5'
    } else if d == 6 {
        '6'
    } else if d == 7 {
        '7'
    } else if d == 8 {
        '8'
    } else {
        '9'
    }
}

/// The decimal digits of `n`, most significant first, without leading zeros.
pub open spec fn decimal_digits(n: nat) -> Seq<char>
    decreases n,
{
    if n < 10 {
        seq![digit_char(n as int)]
    } else {
        decimal_digits(n / 10).push(digit_char((n % 10) as int))
    }
}

/// The decimal rendering of `n`, with a leading `-` when negative.
pub open spec fn decimal_text(n: int) -> Seq<char> {
    if n < 0 {
        seq!['-'] + decimal_digits((-n) as nat)
    } else {
        decimal_digits(n as nat)
    }
}

fn digit_text(d: u64) -> (text: &'static str)
    requires
        d < 10,
    ensures
        text@ == seq![digit_char(d as int)],
{
    proof {
        reveal_strlit("0");
        reveal_strlit("1");
        reveal_strlit("2");
        reveal_strlit("3");
        reveal_strlit("4");
        reveal_strlit("5");
        reveal_strlit("6");
        reveal_strlit("7");
        reveal_strlit("8");
        reveal_strlit("9");
    }
    let text = if d == 0 {
        "0"
    } else if d == 1 {
        "1"
    } else if d == 2 {
        "2"
    } else if d == 3 {
        "3"
    } else if d == 4 {
        "4"
    } else if d == 5 {
        "5"
    } else if d == 6 {
        "6"
    } else if d == 7 {
        "7"
    } else if d == 8 {
        "8"
    } else {
        "9"
    };
    assert(text@ =~= seq![digit_char(d as int)]);
    text
}

/// Renders `n` in decimal.
pub fn unsigned_decimal(n: u64) -> (text: String)
    ensures
        text@ == decimal_digits(n as nat),
    decreases n,
{
    if n < 10 {
        digit_text(n).to_owned()
    } else {
        let mut text = unsigned_decimal(n / 10);
        text.append(digit_text(n % 10));
        assert(text@ =~= decimal_digits(n as nat));
        text
    }
}

/// Renders `n` in decimal, with a leading `-` when negative.
pub fn signed_decimal(n: i64) -> (text: String)
    ensures
        text@ == decimal_text(n as int),
{
    if n < 0 {
        let magnitude: u64 = if n == i64::MIN {
            9223372036854775808u64
        } else {
            (-n) as u64
        };
        proof {
            reveal_strlit("-");
        }
        let mut text = "-".to_owned();
        let digits = unsigned_decimal(magnitude);
        text.append(digits.as_str());
        assert(text@ =~= decimal_text(n as int));
        text
    } else {
        unsigned_decimal(n as u64)
    }
}

/// Index of the first white-space character of `s` at or after `from`, or `s.len()`.
pub open spec fn next_whitespace(s: Seq<char>, from: int) -> int
    decreases s.len() - from,
{
    if from < 0 || from >= s.len() {
        s.len() as int
    } else if is_whitespace_char(s[from]) {
        from
    } else {
        next_whitespace(s, from + 1)
    }
}

/// Index of the first character of `s` at or after `from` that is not white space, or
/// `s.len()`.
pub open spec fn next_non_whitespace(s: Seq<char>, from: int) -> int
    decreases s.len() - from,
{
    if from < 0 || from >= s.len() {
        s.len() as int
    } else if !is_whitespace_char(s[from]) {
        from
    } else {
        next_non_whitespace(s, from + 1)
    }
}

/// Index of the first occurrence of `c` in `s` at or after `from`, or `s.len()`.
pub open spec fn next_occurrence(s: Seq<char>, from: int, c: char) -> int
    decreases s.len() - from,
{
    if from < 0 || from >= s.len() {
        s.len() as int
    } else if s[from] == c {
        from
    } else {
        next_occurrence(s, from + 1, c)
    }
}

/// `next_whitespace` lies between `from` and the end, stops at white space, and passes none.
pub proof fn lemma_next_whitespace(s: Seq<char>, from: int)
    requires
        0 <= from <= s.len(),
    ensures
        from <= next_whitespace(s, from) <= s.len(),
        next_whitespace(s, from) < s.len() ==> is_whitespace_char(s[next_whitespace(s, from)]),
        forall|i: int| from <= i < next_whitespace(s, from) ==> !is_whitespace_char(#[trigger] s[i]),
    decreases s.len() - from,
{
    if from < s.len() && !is_whitespace_char(s[from]) {
        lemma_next_whitespace(s, from + 1);
    }
}

/// `next_non_whitespace` lies between `from` and the end, stops at a character that is not
/// white space, and passes only white space.
pub proof fn lemma_next_non_whitespace(s: Seq<char>, from: int)
    requires
        0 <= from <= s.len(),
    ensures
        from <= next_non_whitespace(s, from) <= s.len(),
        next_non_whitespace(s, from) < s.len() ==> !is_whitespace_char(
            s[next_non_whitespace(s, from)],
        ),
        forall|i: int|
            from <= i < next_non_whitespace(s, from) ==> is_whitespace_char(#[trigger] s[i]),
    decreases s.len() - from,
{
    if from < s.len() && is_whitespace_char(s[from]) {
        lemma_next_non_whitespace(s, from + 1);
    }
}

/// `next_occurrence` lies between `from` and the end, stops at `c`, and passes no `c`.
pub proof fn lemma_next_occurrence(s: Seq<char>, from: int, c: char)
    requires
        0 <= from <= s.len(),
    ensures
        from <= next_occurrence(s, from, c) <= s.len(),
        next_occurrence(s, from, c) < s.len() ==> s[next_occurrence(s, from, c)] == c,
        forall|i: int| from <= i < next_occurrence(s, from, c) ==> #[trigger] s[i] != c,
    decreases s.len() - from,
{
    if from < s.len() && s[from] != c {
        lemma_next_occurrence(s, from + 1, c);
    }
}

/// Finds the first white-space character at or after `from`.
pub fn find_whitespace(chars: &Vec<char>, from: usize) -> (at: usize)
    requires
        from <= chars.len(),
    ensures
        at == next_whitespace(chars@, from as int),
        from <= at <= chars.len(),
{
    let mut i: usize = from;
    while i < chars.len() && !is_whitespace(chars[i])
        invariant
            from <= i <= chars.len(),
            next_whitespace(chars@, from as int) == next_whitespace(chars@, i as int),
        decreases chars.len() - i,
    {
        i = i + 1;
    }
    i
}

/// Finds the first character at or after `from` that is not white space.
pub fn find_non_whitespace(chars: &Vec<char>, from: usize) -> (at: usize)
    requires
        from <= chars.len(),
    ensures
        at == next_non_whitespace(chars@, from as int),
        from <= at <= chars.len(),
{
    let mut i: usize = from;
    while i < chars.len() && is_whitespace(chars[i])
        invariant
            from <= i <= chars.len(),
            next_non_whitespace(chars@, from as int) == next_non_whitespace(chars@, i as int),
        decreases chars.len() - i,
    {
        i = i + 1;
    }
    i
}

/// Finds the first occurrence of `c` at or after `from`.
pub fn find_occurrence(chars: &Vec<char>, from: usize, c: char) -> (at: usize)
    requires
        from <= chars.len(),
    ensures
        at == next_occurrence(chars@, from as int, c),
        from <= at <= chars.len(),
{
    let mut i: usize = from;
    while i < chars.len() && chars[i] != c
        invariant
            from <= i <= chars.len(),
            next_occurrence(chars@, from as int, c) == next_occurrence(chars@, i as int, c),
        decreases chars.len() - i,
    {
        i = i + 1;
    }
    i
}

/// The white-space separated words of `s` that start at or after `from`, in order.
pub open spec fn words_from(s: Seq<char>, from: int) -> Seq<Seq<char>>
    decreases s.len() - from,
{
    let start = next_non_whitespace(s, from);
    if from < 0 || start >= s.len() || start < from {
        Seq::<Seq<char>>::empty()
    } else {
        let end = next_whitespace(s, start);
        if end <= start || end > s.len() {
            Seq::<Seq<char>>::empty()
        } else {
            seq![s.subrange(start, end)] + words_from(s, end)
        }
    }
}

/// The white-space separated words of `s`, in order; none of them is empty.
pub open spec fn words_of(s: Seq<char>) -> Seq<Seq<char>> {
    words_from(s, 0)
}

/// Splits `s` into its white-space separated words.
pub fn split_words(s: &str) -> (words: Vec<String>)
    ensures
        texts_of(words@) == words_of(s@),
{
    let chars = chars_of(s);
    let mut words: Vec<String> = Vec::new();
    let mut at: usize = 0;
    let ghost mut done: Seq<Seq<char>> = Seq::empty();
    loop
        invariant
            chars@ == s@,
            at <= chars.len(),
            words.len() == done.len(),
            forall|i: int| 0 <= i < words.len() ==> (#[trigger] words[i])@ == done[i],
            done + words_from(s@, at as int) == words_of(s@),
        ensures
            texts_of(words@) == words_of(s@),
        decreases chars.len() - at,
    {
        let start = find_non_whitespace(&chars, at);
        if start >= chars.len() {
            assert(words_from(s@, at as int) == Seq::<Seq<char>>::empty());
            assert(done + Seq::<Seq<char>>::empty() == done);
            assert(texts_of(words@) =~= done);
            break;
        }
        let end = find_whitespace(&chars, start);
        proof {
            lemma_next_non_whitespace(s@, at as int);
            lemma_next_whitespace(s@, start as int);
            assert(end > start);
        }
        let word = s.substring_char(start, end).to_owned();
        words.push(word);
        proof {
            let next = done.push(s@.subrange(start as int, end as int));
            assert(words_from(s@, at as int) == seq![s@.subrange(start as int, end as int)]
                + words_from(s@, end as int));
            assert(next + words_from(s@, end as int) == done + words_from(s@, at as int));
            done = next;
        }
        at = end;
    }
    words
}

/// The texts of `parts`, one after the other with `separator` between them.
pub open spec fn joined(parts: Seq<Seq<char>>, separator: Seq<char>) -> Seq<char>
    decreases parts.len(),
{
    if parts.len() == 0 {
        Seq::<char>::empty()
    } else if parts.len() == 1 {
        parts[0]
    } else {
        joined(parts.drop_last(), separator) + separator + parts.last()
    }
}

/// The views of the strings of `parts`.
pub open spec fn texts_of(parts: Seq<String>) -> Seq<Seq<char>> {
    Seq::new(parts.len(), |i: int| parts[i]@)
}

/// Joins `parts[from..]`, with `separator` between them.
pub fn join(parts: &Vec<String>, from: usize, separator: &str) -> (text: String)
    requires
        from <= parts.len(),
    ensures
        text@ == joined(texts_of(parts@).skip(from as int), separator@),
{
    let mut text = String::new();
    let mut i: usize = from;
    let ghost all = texts_of(parts@).skip(from as int);
    assert(all.take(0) =~= Seq::<Seq<char>>::empty());
    while i < parts.len()
        invariant
            from <= i <= parts.len(),
            all == texts_of(parts@).skip(from as int),
            text@ == joined(all.take(i - from), separator@),
        decreases parts.len() - i,
    {
        proof {
            let grown = all.take(i - from + 1);
            assert(grown.drop_last() =~= all.take(i - from));
            assert(grown.last() == parts@[i as int]@);
        }
        if i > from {
            text.append(separator);
        }
        text.append(parts[i].as_str());
        proof {
            let grown = all.take(i - from + 1);
            if i == from {
                assert(grown.len() == 1);
                assert(text@ =~= grown[0]);
            } else {
                assert(text@ =~= joined(grown.drop_last(), separator@) + separator@ + grown.last());
            }
        }
        i = i + 1;
    }
    assert(all.take(parts.len() - from) =~= all);
    text
}

/// What `str::to_lowercase` makes of a text: each character replaced by its Unicode
/// lower-case mapping.
pub uninterp spec fn lowercase_of(s: Seq<char>) -> Seq<char>;

/// `str::to_lowercase` of the standard library. Trusted: the result is the lower-case
/// mapping of the argument, which depends on the argument alone.
#[verifier::external_body]
pub(crate) fn to_lowercase(s: &str) -> (lowered: String)
    ensures
        lowered@ == lowercase_of(s@),
{
    s.to_lowercase()
}

/// The text of an optional string.
pub open spec fn optional_text(text: Option<String>) -> Option<Seq<char>> {
    match text {
        Some(t) => Some(t@),
        None => None,
    }
}

/// What the `Debug` rendering of a text is: the text in quotes, with its special
/// characters escaped.
pub uninterp spec fn debug_of_text(text: Seq<char>) -> Seq<char>;

/// The `Debug` rendering of a `str` by the standard library's formatter. Trusted: the
/// result is that rendering, which depends on the argument alone.
#[verifier::external_body]
pub(crate) fn debug_text(text: &str) -> (rendered: String)
    ensures
        rendered@ == debug_of_text(text@),
{
    format!("{:?}", text)
}

/// What the `Debug` rendering of an optional text is: `None`, or `Some(..)` around the
/// text in quotes with its special characters escaped.
pub uninterp spec fn debug_of_optional_text(text: Option<Seq<char>>) -> Seq<char>;

/// The `Debug` rendering of an `Option<String>` by the standard library's formatter.
/// Trusted: the result is that rendering, which depends on the argument alone.
#[verifier::external_body]
pub(crate) fn debug_optional_text(text: &Option<String>) -> (rendered: String)
    ensures
        rendered@ == debug_of_optional_text(optional_text(*text)),
{
    format!("{:?}", text)
}

/// Whether `needle` stands in `hay` at the index `at`.
pub open spec fn occurs_at(hay: Seq<char>, needle: Seq<char>, at: int) -> bool {
    0 <= at && at + needle.len() <= hay.len() && hay.subrange(at, at + needle.len()) == needle
}

/// Whether `needle` stands somewhere in `hay`; the empty text stands in every text.
pub open spec fn contains_text(hay: Seq<char>, needle: Seq<char>) -> bool {
    exists|at: int| occurs_at(hay, needle, at)
}

fn stands_at(hay: &Vec<char>, needle: &Vec<char>, at: usize) -> (found: bool)
    requires
        at + needle.len() <= hay.len(),
    ensures
        found == occurs_at(hay@, needle@, at as int),
{
    let mut k: usize = 0;
    while k < needle.len()
        invariant
            at + needle.len() <= hay.len(),
            k <= needle.len(),
            forall|j: int| 0 <= j < k ==> hay@[at + j] == needle@[j],
        decreases needle.len() - k,
    {
        if hay[at + k] != needle[k] {
            assert(hay@.subrange(at as int, at + needle.len())[k as int] != needle@[k as int]);
            return false;
        }
        k = k + 1;
    }
    assert(hay@.subrange(at as int, at + needle.len()) =~= needle@);
    true
}

/// Tells whether `needle` stands somewhere in `hay`.
pub fn text_contains(hay: &Vec<char>, needle: &Vec<char>) -> (found: bool)
    ensures
        found == contains_text(hay@, needle@),
{
    if needle.len() > hay.len() {
        return false;
    }
    let last: usize = hay.len() - needle.len();
    let mut at: usize = 0;
    loop
        invariant
            last == hay.len() - needle.len(),
            at <= last,
            forall|j: int| 0 <= j < at ==> !occurs_at(hay@, needle@, j),
        decreases last - at,
    {
        if stands_at(hay, needle, at) {
            return true;
        }
        if at == last {
            return false;
        }
        at = at + 1;
    }
}

/// Whether `a` comes before `b` in the order of strings: at the first place where they
/// differ `a` has the character with the smaller code, or `a` ends there and `b` does
/// not.
pub open spec fn text_before(a: Seq<char>, b: Seq<char>) -> bool
    decreases a.len(),
{
    if b.len() == 0 {
        false
    } else if a.len() == 0 {
        true
    } else if a[0] != b[0] {
        (a[0] as int) < (b[0] as int)
    } else {
        text_before(a.skip(1), b.skip(1))
    }
}

/// Of two different texts, one comes before the other; and none comes before itself.
pub proof fn lemma_text_order_is_total(a: Seq<char>, b: Seq<char>)
    ensures
        a == b || text_before(a, b) || text_before(b, a),
        !(text_before(a, b) && text_before(b, a)),
        !text_before(a, a),
    decreases a.len(),
{
    if a.len() > 0 {
        lemma_text_order_is_total(a.skip(1), a.skip(1));
    }
    if a.len() == 0 || b.len() == 0 {
        if a.len() == 0 && b.len() == 0 {
            assert(a =~= b);
        }
    } else if a[0] == b[0] {
        lemma_text_order_is_total(a.skip(1), b.skip(1));
        if a.skip(1) == b.skip(1) {
            assert(a =~= seq![a[0]] + a.skip(1));
            assert(b =~= seq![b[0]] + b.skip(1));
        }
    }
}

/// The order of strings is transitive.
pub proof fn lemma_text_order_is_transitive(a: Seq<char>, b: Seq<char>, c: Seq<char>)
    requires
        text_before(a, b),
        text_before(b, c),
    ensures
        text_before(a, c),
    decreases a.len(),
{
    if a.len() > 0 && b.len() > 0 && c.len() > 0 {
        if a[0] == b[0] && b[0] == c[0] {
            lemma_text_order_is_transitive(a.skip(1), b.skip(1), c.skip(1));
        }
    }
}

fn char_code(c: char) -> (code: u32)
    ensures
        code as int == c as int,
{
    c as u32
}

/// Tells whether `a` comes before `b` in the order of strings.
pub fn comes_before(a: &Vec<char>, b: &Vec<char>) -> (before: bool)
    ensures
        before == text_before(a@, b@),
{
    let mut i: usize = 0;
    assert(a@.skip(0) =~= a@);
    assert(b@.skip(0) =~= b@);
    loop
        invariant
            i <= a.len(),
            i <= b.len(),
            text_before(a@, b@) == text_before(a@.skip(i as int), b@.skip(i as int)),
        decreases a.len() - i,
    {
        if i >= b.len() {
            return false;
        }
        if i >= a.len() {
            return true;
        }
        if a[i] != b[i] {
            return char_code(a[i]) < char_code(b[i]);
        }
        assert(a@.skip(i as int).skip(1) =~= a@.skip(i + 1));
        assert(b@.skip(i as int).skip(1) =~= b@.skip(i + 1));
        i = i + 1;
    }
}

/// Whether the name at index `i` comes before the name at index `j` when names are put in
/// order and equal names keep their places relative to each other.
pub open spec fn place_before(names: Seq<Seq<char>>, i: int, j: int) -> bool {
    text_before(names[i], names[j]) || (names[i] == names[j] && i < j)
}

/// Whether `order` lists the indices of `names` in the order of the names, equal names in
/// the order of their indices: every index once.
pub open spec fn is_sorted_order(names: Seq<Seq<char>>, order: Seq<usize>) -> bool {
    &&& order.len() == names.len()
    &&& forall|k: int| 0 <= k < order.len() ==> 0 <= #[trigger] order[k] < names.len()
    &&& forall|k: int, l: int|
        0 <= k < l < order.len() ==> place_before(
            names,
            #[trigger] order[k] as int,
            #[trigger] order[l] as int,
        )
}

/// The indices of `names` in the order of the names; equal names keep their places
/// relative to each other.
pub fn sorted_order(names: &Vec<String>) -> (order: Vec<usize>)
    ensures
        is_sorted_order(texts_of(names@), order@),
{
    let mut chars: Vec<Vec<char>> = Vec::new();
    let mut c: usize = 0;
    while c < names.len()
        invariant
            c <= names.len(),
            chars.len() == c,
            forall|k: int| 0 <= k < c ==> (#[trigger] chars[k])@ == names@[k]@,
        decreases names.len() - c,
    {
        chars.push(chars_of(names[c].as_str()));
        c = c + 1;
    }
    let ghost all = texts_of(names@);
    let mut order: Vec<usize> = Vec::new();
    let mut i: usize = names.len();
    while i > 0
        invariant
            i <= names.len(),
            all == texts_of(names@),
            chars.len() == names.len(),
            forall|k: int| 0 <= k < chars.len() ==> (#[trigger] chars[k])@ == all[k],
            order.len() == names.len() - i,
            forall|k: int| 0 <= k < order.len() ==> i <= #[trigger] order[k] < names.len(),
            forall|k: int, l: int|
                0 <= k < l < order.len() ==> place_before(
                    all,
                    #[trigger] order[k] as int,
                    #[trigger] order[l] as int,
                ),
        decreases i,
    {
        i = i - 1;
        let mut j: usize = 0;
        while j < order.len() && comes_before(&chars[order[j]], &chars[i])
            invariant
                j <= order.len(),
                i < names.len(),
                chars.len() == names.len(),
                forall|k: int| 0 <= k < chars.len() ==> (#[trigger] chars[k])@ == all[k],
                forall|k: int| 0 <= k < order.len() ==> i < #[trigger] order[k] < names.len(),
                forall|k: int| 0 <= k < j ==> text_before(all[#[trigger] order[k] as int], all[i as int]),
            decreases order.len() - j,
        {
            j = j + 1;
        }
        let ghost before = order@;
        order.insert(j, i);
        proof {
            assert forall|k: int, l: int| 0 <= k < l < order.len() implies place_before(
                all,
                #[trigger] order[k] as int,
                #[trigger] order[l] as int,
            ) by {
                if l == j {
                    assert(order[k] == before[k]);
                } else if k == j {
                    let first = before[j as int] as int;
                    let other = before[l - 1] as int;
                    assert(order[l] == before[l - 1]);
                    assert(!text_before(all[first], all[i as int]));
                    lemma_text_order_is_total(all[first], all[i as int]);
                    if l - 1 > j {
                        assert(place_before(all, first, other));
                        if text_before(all[i as int], all[first]) && text_before(
                            all[first],
                            all[other],
                        ) {
                            lemma_text_order_is_transitive(all[i as int], all[first], all[other]);
                        }
                    }
                } else {
                    let kk = if k < j {
                        k
                    } else {
                        k - 1
                    };
                    let ll = if l < j {
                        l
                    } else {
                        l - 1
                    };
                    assert(order[k] == before[kk]);
                    assert(order[l] == before[ll]);
                }
            }
        }
    }
    order
}

/// The items at the indices that `order` lists, in that order.
pub open spec fn arranged<T>(items: Seq<T>, order: Seq<usize>) -> Seq<T> {
    Seq::new(order.len(), |k: int| items[order[k] as int])
}

/// Whether `sorted` holds the items of `items` in the order of their names, which are
/// `names`: every item once, and items of the same name in the order in which `items`
/// holds them.
pub open spec fn is_sorting<T>(names: Seq<Seq<char>>, items: Seq<T>, sorted: Seq<T>) -> bool {
    exists|order: Seq<usize>| #[trigger]
        is_sorted_order(names, order) && sorted == arranged(items, order)
}

/// Whether `c` is one of the digits `0` to `9`.
pub open spec fn is_digit_char(c: char) -> bool {
    0x30 <= c as int <= 0x39
}

/// Whether `digits` holds digits only.
pub open spec fn all_digits(digits: Seq<char>) -> bool {
    forall|i: int| 0 <= i < digits.len() ==> is_digit_char(#[trigger] digits[i])
}

/// The number that the digits `digits` write in decimal; 0 for none.
pub open spec fn digits_value(digits: Seq<char>) -> nat
    decreases digits.len(),
{
    if digits.len() == 0 {
        0
    } else {
        (digits_value(digits.drop_last()) * 10 + (digits.last() as int - 0x30)) as nat
    }
}

/// The number that `text` writes in decimal, where it writes one that `u64` holds: an
/// optional `+` and then digits only, at least one.
pub open spec fn unsigned_of(text: Seq<char>) -> Option<u64> {
    let digits = if text.len() > 0 && text[0] == '+' {
        text.skip(1)
    } else {
        text
    };
    if digits.len() > 0 && all_digits(digits) && digits_value(digits) <= u64::MAX {
        Some(digits_value(digits) as u64)
    } else {
        None
    }
}

proof fn lemma_digits_grow(digits: Seq<char>, k: int)
    requires
        0 <= k <= digits.len(),
        all_digits(digits),
    ensures
        digits_value(digits.take(k)) <= digits_value(digits),
    decreases digits.len() - k,
{
    if k < digits.len() {
        lemma_digits_grow(digits, k + 1);
        assert(digits.take(k + 1).drop_last() =~= digits.take(k));
        assert(digits.take(k + 1).last() == digits[k]);
    } else {
        assert(digits.take(k) =~= digits);
    }
}

/// Reads the number that `text` writes in decimal.
pub fn parse_unsigned(text: &str) -> (number: Option<u64>)
    ensures
        number == unsigned_of(text@),
{
    let chars = chars_of(text);
    let start: usize = if chars.len() > 0 && chars[0] == '+' {
        1
    } else {
        0
    };
    let ghost digits = chars@.skip(start as int);
    assert(digits == if text@.len() > 0 && text@[0] == '+' {
        text@.skip(1)
    } else {
        text@
    }) by {
        assert(chars@.skip(0) =~= chars@);
    }
    if start >= chars.len() {
        assert(digits.len() == 0);
        return None;
    }
    let mut value: u64 = 0;
    let mut i: usize = start;
    assert(digits.take(0) =~= Seq::<char>::empty());
    while i < chars.len()
        invariant
            start <= i <= chars.len(),
            start < chars.len(),
            digits == chars@.skip(start as int),
            unsigned_of(text@) == if all_digits(digits) && digits_value(digits) <= u64::MAX {
                Some(digits_value(digits) as u64)
            } else {
                None
            },
            forall|k: int| 0 <= k < i - start ==> is_digit_char(#[trigger] digits[k]),
            value == digits_value(digits.take(i - start)),
        decreases chars.len() - i,
    {
        let code = char_code(chars[i]);
        assert(digits[i - start] == chars@[i as int]);
        if code < 0x30 || code > 0x39 {
            assert(!is_digit_char(digits[i - start]));
            return None;
        }
        let digit: u64 = (code - 0x30) as u64;
        proof {
            assert(digits.take(i - start + 1).drop_last() =~= digits.take(i - start));
            assert(digits.take(i - start + 1).last() == digits[i - start]);
        }
        if value > (u64::MAX - digit) / 10 {
            proof {
                if all_digits(digits) {
                    lemma_digits_grow(digits, i - start + 1);
                }
            }
            return None;
        }
        value = value * 10 + digit;
        i = i + 1;
    }
    assert(digits.take(chars.len() - start) =~= digits);
    Some(value)
}

/// The truth value that `text` writes: `true` or `false`, and nothing else.
pub open spec fn truth_of(text: Seq<char>) -> Option<bool> {
    if text == "true"@ {
        Some(true)
    } else if text == "false"@ {
        Some(false)
    } else {
        None
    }
}

/// Reads the truth value that `text` writes.
pub fn parse_truth(text: &str) -> (value: Option<bool>)
    ensures
        value == truth_of(text@),
{
    if same_text(text, "true") {
        Some(true)
    } else if same_text(text, "false") {
        Some(false)
    } else {
        None
    }
}

/// A copy of a list of names.
pub fn copy_names(names: &Vec<String>) -> (copy: Vec<String>)
    ensures
        texts_of(copy@) == texts_of(names@),
{
    let mut copy: Vec<String> = Vec::new();
    let mut i: usize = 0;
    while i < names.len()
        invariant
            i <= names.len(),
            copy.len() == i,
            forall|k: int| 0 <= k < i ==> (#[trigger] copy[k])@ == names[k]@,
        decreases names.len() - i,
    {
        copy.push(names[i].clone());
        i = i + 1;
    }
    assert(texts_of(copy@) =~= texts_of(names@));
    copy
}

/// Whether two lists of characters hold the same text.
pub fn same_chars(a: &Vec<char>, b: &Vec<char>) -> (same: bool)
    ensures
        same == (a@ == b@),
{
    if a.len() != b.len() {
        return false;
    }
    let mut i: usize = 0;
    while i < a.len()
        invariant
            a.len() == b.len(),
            i <= a.len(),
            forall|k: int| 0 <= k < i ==> a@[k] == b@[k],
        decreases a.len() - i,
    {
        if a[i] != b[i] {
            return false;
        }
        i = i + 1;
    }
    assert(a@ =~= b@);
    true
}

} // verus!

//! Text: decimal numbers, joined pieces, and the names of source files.

use vstd::prelude::*;

verus! {

/// A string as the contracts see it: its characters in order.
pub type Text = Seq<char>;

/// The numeral of one decimal digit.
pub open spec fn digit(d: int) -> Text {
    if d == 0 {
        "0"@
    } else if d == 1 {
        "1"@
    } else if d == 2 {
        "2"@
    } else if d == 3 {
        "3"@
    } else if d == 4 {
        "4"@
    } else if d == 5 {
        "5"@
    } else if d == 6 {
        "6"@
    } else if d == 7 {
        "7"@
    } else if d == 8 {
        "8"@
    } else {
        "9"@
    }
}

/// A natural number written in base ten, without leading zeros.
pub open spec fn decimal(n: nat) -> Text
    decreases n,
{
    if n < 10 {
        digit(n as int)
    } else {
        decimal(n / 10) + digit((n % 10) as int)
    }
}

fn digit_str(d: usize) -> (s: &'static str)
    requires
        d < 10,
    ensures
        s@ == digit(d as int),
{
    if d == 0 {
        "0"
    } else if d == 1 {
        "1"
    } else if d == 2 {
        "2"
    } else if d == 3 {
        "3"
    } else if d == 4 {
        "4"
    } else if d == 5 {
        "5"
    } else if d == 6 {
        "6"
    } else if d == 7 {
        "7"
    } else if d == 8 {
        "8"
    } else {
        "9"
    }
}

/// Writes `n` in base ten.
pub fn format_decimal(n: usize) -> (s: String)
    ensures
        s@ == decimal(n as nat),
    decreases n,
{
    if n < 10 {
        String::from_str(digit_str(n))
    } else {
        let mut s = format_decimal(n / 10);
        s.append(digit_str(n % 10));
        s
    }
}

/// An integer written in base ten, with a minus sign where it is negative.
pub open spec fn signed_decimal(n: int) -> Text {
    if n < 0 {
        "-"@ + decimal((-n) as nat)
    } else {
        decimal(n as nat)
    }
}

/// Writes `n` in base ten, with its sign.
pub fn format_signed(n: i32) -> (s: String)
    ensures
        s@ == signed_decimal(n as int),
{
    if n < 0 {
        let size: i64 = -(n as i64);
        let digits = format_decimal(size as usize);
        join("-", digits.as_str())
    } else {
        format_decimal(n as usize)
    }
}

/// Two pieces of text, one after the other.
pub fn join(head: &str, tail: &str) -> (s: String)
    ensures
        s@ == head@ + tail@,
{
    let mut s = String::from_str(head);
    s.append(tail);
    s
}

/// Whether a directory entry is a C source file: its name ends in `.c` and
/// has something before that.
pub open spec fn is_c_source(name: Text) -> bool {
    &&& name.len() >= 3
    &&& name[name.len() - 2] == '.'
    &&& name[name.len() - 1] == 'c'
}

/// The first position at or after `from` that holds `c`, or the length of
/// `text` where there is none.
pub open spec fn find(text: Text, c: char, from: int) -> int
    decreases text.len() - from,
{
    if from >= text.len() {
        text.len() as int
    } else if text[from] == c {
        from
    } else {
        find(text, c, from + 1)
    }
}

/// The last position before `end` that holds `c`, or -1 where there is
/// none.
pub open spec fn find_last(text: Text, c: char, end: int) -> int
    decreases end,
{
    if end <= 0 {
        -1
    } else if text[end - 1] == c {
        end - 1
    } else {
        find_last(text, c, end - 1)
    }
}

/// A file name without its last extension: the name up to its last dot. It
/// is the whole name where there is no dot, or where the only dot opens the
/// name.
pub open spec fn stem(name: Text) -> Text {
    let dot = find_last(name, '.', name.len() as int);
    if dot <= 0 {
        name
    } else {
        name.take(dot)
    }
}

/// What `find` finds is the first of its kind.
pub proof fn find_is_first(text: Text, c: char, from: int)
    requires
        0 <= from <= text.len(),
    ensures
        from <= find(text, c, from) <= text.len(),
        find(text, c, from) < text.len() ==> text[find(text, c, from)] == c,
        forall|i: int| from <= i < find(text, c, from) ==> text[i] != c,
    decreases text.len() - from,
{
    if from < text.len() && text[from] != c {
        find_is_first(text, c, from + 1);
    }
}

/// Finding in what is left of a text after its first `k` characters is
/// finding in the text from `k` on.
pub proof fn find_in_the_rest(text: Text, c: char, k: int, from: int)
    requires
        0 <= k <= text.len(),
        0 <= from,
    ensures
        find(text.skip(k), c, from) + k == find(text, c, k + from),
    decreases text.len() - k - from,
{
    if k + from < text.len() {
        assert(text.skip(k)[from] == text[k + from]);
        if text[k + from] != c {
            find_in_the_rest(text, c, k, from + 1);
        }
    }
}

/// What `find_last` finds is the last of its kind.
pub proof fn find_last_is_last(text: Text, c: char, end: int)
    requires
        0 <= end <= text.len(),
    ensures
        -1 <= find_last(text, c, end) < end,
        find_last(text, c, end) >= 0 ==> text[find_last(text, c, end)] == c,
        forall|i: int| find_last(text, c, end) < i < end ==> text[i] != c,
    decreases end,
{
    if end > 0 && text[end - 1] != c {
        find_last_is_last(text, c, end - 1);
    }
}

/// The stem is the name cut before its last dot: what is cut off begins
/// with a dot and holds no other, and at least one character is left. A
/// name that is its own stem has no dot behind its first character.
pub proof fn stem_is_the_name_without_its_last_extension(name: Text)
    ensures
        stem(name).len() <= name.len(),
        stem(name) == name.take(stem(name).len() as int),
        stem(name).len() < name.len() ==> {
            &&& stem(name).len() >= 1
            &&& name[stem(name).len() as int] == '.'
            &&& forall|i: int| stem(name).len() < i < name.len() ==> name[i] != '.'
        },
        stem(name).len() == name.len() ==> forall|i: int| 1 <= i < name.len() ==> name[i] != '.',
{
    find_last_is_last(name, '.', name.len() as int);
    assert(name.take(name.len() as int) =~= name);
}

/// The stem of a C source file is its name without the `.c`.
pub proof fn stem_of_a_c_source(name: Text)
    requires
        is_c_source(name),
    ensures
        stem(name) == name.take(name.len() - 2),
{
    reveal_with_fuel(find_last, 3);
}

/// Finds the first `c` in `text` at or after `from`.
pub fn find_char(text: &str, c: char, from: usize) -> (at: usize)
    ensures
        at == find(text@, c, from as int),
        at <= text@.len(),
        from <= text@.len() ==> from <= at,
{
    let n: usize = text.unicode_len();
    if from >= n {
        return n;
    }
    let mut at: usize = from;
    while at < n && text.get_char(at) != c
        invariant
            from <= at <= n,
            n == text@.len(),
            find(text@, c, from as int) == find(text@, c, at as int),
        decreases n - at,
    {
        at = at + 1;
    }
    at
}

/// Tells a C source file by its name.
pub fn has_c_extension(name: &str) -> (yes: bool)
    ensures
        yes == is_c_source(name@),
{
    let n: usize = name.unicode_len();
    n >= 3 && name.get_char(n - 2) == '.' && name.get_char(n - 1) == 'c'
}

/// Cuts a file name down to its stem.
pub fn file_stem(name: &str) -> (s: String)
    ensures
        s@ == stem(name@),
{
    let n: usize = name.unicode_len();
    let mut end: usize = n;
    while end > 0 && name.get_char(end - 1) != '.'
        invariant
            end <= n,
            n == name@.len(),
            find_last(name@, '.', n as int) == find_last(name@, '.', end as int),
        decreases end,
    {
        end = end - 1;
    }
    if end <= 1 {
        String::from_str(name)
    } else {
        String::from_str(name.substring_char(0, end - 1))
    }
}

} // verus!

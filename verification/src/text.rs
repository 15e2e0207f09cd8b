//! Text building blocks: decimal numerals and newline-joined lines.

use vstd::prelude::*;
use vstd::string::*;

verus! {

/// The character that stands for a decimal digit; `'9'` for anything above eight.
pub open spec fn digit_char(d: nat) -> char {
    if d == 0 {
        '0'
    } else if d == 1 {
        '1'
    } else if d == 2 {
        '2'
    } else if d == 3 {
        '3'
    } else if d == 4 {
        '4'
    } else if d == 5 {
        '5'
    } else if d == 6 {
        '6'
    } else if d == 7 {
        '7'
    } else if d == 8 {
        '8'
    } else {
        '9'
    }
}

/// The decimal numeral of `n`, most significant digit first, without padding.
pub open spec fn decimal(n: nat) -> Seq<char>
    decreases n,
{
    if n < 10 {
        seq![digit_char(n)]
    } else {
        decimal(n / 10).push(digit_char(n % 10))
    }
}

fn digit_str(d: u64) -> (s: &'static str)
    requires
        d < 10,
    ensures
        s@ == seq![digit_char(d as nat)],
{
    proof {
        reveal_strlit("0");
        reveal_strlit("1");
        reveal_strlit("2");
        reveal_strlit("3");
        reveal_strlit("4");
        reveal_strlit("5");
        reveal_strlit("6");
        reveal_strlit("7");
        reveal_strlit("8");
        reveal_strlit("9");
    }
    let s: &'static str = if d == 0 {
        "0"
    } else if d == 1 {
        "1"
    } else if d == 2 {
        "2"
    } else if d == 3 {
        "3"
    } else if d == 4 {
        "4"
    } else if d == 5 {
        "5"
    } else if d == 6 {
        "6"
    } else if d == 7 {
        "7"
    } else if d == 8 {
        "8"
    } else {
        "9"
    };
    assert(s@ =~= seq![digit_char(d as nat)]);
    s
}

/// Writes `n` as a decimal numeral.
pub fn decimal_string(n: u64) -> (s: String)
    ensures
        s@ == decimal(n as nat),
    decreases n,
{
    if n < 10 {
        String::from_str(digit_str(n))
    } else {
        let mut s: String = decimal_string(n / 10);
        s.append(digit_str(n % 10));
        assert(s@ =~= decimal(n as nat));
        s
    }
}

/// A copy of a text.
pub fn clone_text(text: &String) -> (copy: String)
    ensures
        copy@ == text@,
{
    text.clone()
}

/// The lower-case form of a text, as std's `str::to_lowercase` gives it.
pub uninterp spec fn lowercase_of(text: Seq<char>) -> Seq<char>;

/// Calls std's `str::to_lowercase`. The contract only names the result.
#[verifier::external_body]
pub(crate) fn lowercase(text: &str) -> (lowered: String)
    ensures
        lowered@ == lowercase_of(text@),
{
    text.to_lowercase()
}

/// The upper-case form of a text, as std's `str::to_uppercase` gives it.
pub uninterp spec fn uppercase_of(text: Seq<char>) -> Seq<char>;

/// Calls std's `str::to_uppercase`. The contract only names the result.
#[verifier::external_body]
pub(crate) fn uppercase(text: &str) -> (raised: String)
    ensures
        raised@ == uppercase_of(text@),
{
    text.to_uppercase()
}

/// A text without the white space at its two ends, as std's `str::trim`
/// gives it.
pub uninterp spec fn trim_of(text: Seq<char>) -> Seq<char>;

/// Calls std's `str::trim` and copies what is left. The contract only names
/// the result.
#[verifier::external_body]
pub(crate) fn trimmed(text: &str) -> (rest: String)
    ensures
        rest@ == trim_of(text@),
{
    text.trim().to_string()
}

/// The views of a sequence of texts, in order.
pub open spec fn texts(list: Seq<String>) -> Seq<Seq<char>> {
    list.map_values(|t: String| t@)
}

/// The parts with `separator` between each two of them.
pub open spec fn join_with(parts: Seq<Seq<char>>, separator: Seq<char>) -> Seq<char>
    decreases parts.len(),
{
    if parts.len() == 0 {
        Seq::empty()
    } else if parts.len() == 1 {
        parts[0]
    } else {
        join_with(parts.drop_last(), separator) + separator + parts.last()
    }
}

/// The parts joined by single line feeds: nothing before the first part and
/// nothing after the last.
pub open spec fn join_lines(parts: Seq<Seq<char>>) -> Seq<char> {
    join_with(parts, seq!['\n'])
}

/// Joins the texts of `list` from index `skip` on, with `separator` between
/// each two of them.
pub fn join_texts(list: &Vec<String>, skip: usize, separator: &str) -> (joined: String)
    requires
        skip <= list.len(),
    ensures
        joined@ == join_with(texts(list@).subrange(skip as int, list.len() as int), separator@),
{
    let ghost all = texts(list@).subrange(skip as int, list.len() as int);
    let mut joined: String = String::new();
    let mut i: usize = skip;
    while i < list.len()
        invariant
            skip <= i <= list.len(),
            all == texts(list@).subrange(skip as int, list.len() as int),
            joined@ == join_with(all.subrange(0, i - skip), separator@),
        decreases list.len() - i,
    {
        if i > skip {
            joined.append(separator);
        }
        joined.append(list[i].as_str());
        proof {
            let longer = all.subrange(0, i - skip + 1);
            assert(longer.drop_last() =~= all.subrange(0, i - skip));
            assert(longer.last() == list@[i as int]@);
            assert(joined@ =~= join_with(longer, separator@));
        }
        i = i + 1;
    }
    assert(all.subrange(0, list.len() - skip) =~= all);
    joined
}

/// Whether two texts are the same.
pub fn text_equal(a: &str, b: &str) -> (same: bool)
    ensures
        same == (a@ == b@),
{
    let left: String = String::from_str(a);
    let right: String = String::from_str(b);
    left == right
}

/// Whether `text` begins with `prefix`.
pub open spec fn begins_with(text: Seq<char>, prefix: Seq<char>) -> bool {
    prefix.len() <= text.len() && text.subrange(0, prefix.len() as int) == prefix
}

/// Tests whether `text` begins with `prefix`.
pub fn starts_with(text: &str, prefix: &str) -> (begins: bool)
    ensures
        begins == begins_with(text@, prefix@),
{
    let n: usize = prefix.unicode_len();
    let m: usize = text.unicode_len();
    if n > m {
        return false;
    }
    let mut i: usize = 0;
    while i < n
        invariant
            i <= n,
            n == prefix@.len(),
            m == text@.len(),
            n <= m,
            forall|j: int| 0 <= j < i ==> text@[j] == prefix@[j],
        decreases n - i,
    {
        if text.get_char(i) != prefix.get_char(i) {
            assert(text@.subrange(0, n as int)[i as int] == text@[i as int]);
            return false;
        }
        i = i + 1;
    }
    assert(text@.subrange(0, n as int) =~= prefix@);
    true
}

/// Appends one more part to a text that holds `parts` joined by line feeds.
/// `started` tells whether any part was written before.
pub(crate) fn push_part(
    out: &mut String,
    started: bool,
    part: &str,
    Ghost(parts): Ghost<Seq<Seq<char>>>,
)
    requires
        old(out)@ == join_lines(parts),
        started == (parts.len() > 0),
    ensures
        final(out)@ == join_lines(parts.push(part@)),
{
    proof {
        reveal_strlit("\n");
        assert(parts.push(part@).drop_last() =~= parts);
    }
    if started {
        out.append("\n");
    }
    out.append(part);
    assert(out@ =~= join_lines(parts.push(part@)));
}

} // verus!

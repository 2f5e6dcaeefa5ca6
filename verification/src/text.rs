//! Text building blocks: comparison, decimal numerals, concatenation and
//! joining, each stated over the characters a string holds.

use vstd::prelude::*;
use vstd::string::StringExecFns;

verus! {

/// Whether two string slices hold the same characters.
pub fn same_text(a: &str, b: &str) -> (same: bool)
    ensures
        same == (a@ == b@),
{
    let x = a.as_bytes();
    let y = b.as_bytes();
    proof {
        // Decoding undoes encoding, so equal encodings come from equal texts.
        vstd::utf8::encode_utf8_decode_utf8(a@);
        vstd::utf8::encode_utf8_decode_utf8(b@);
    }
    if x.len() != y.len() {
        return false;
    }
    let mut i: usize = 0;
    while i < x.len()
        invariant
            i <= x.len(),
            x.len() == y.len(),
            forall|j: int| 0 <= j < i ==> x@[j] == y@[j],
            a@ == b@ ==> x@ == y@,
        decreases x.len() - i,
    {
        if x[i] != y[i] {
            return false;
        }
        i += 1;
    }
    assert(x@ =~= y@);
    true
}

/// The numeral for a single decimal digit.
pub open spec fn digit_char(d: nat) -> char {
    if d == 0 {
        '0'
    } else if d == 1 {
        '1'
    } else if d == 2 {
        '2'
    } else if d == 3 {
        '3'
    } else if d == 4 {
        '4'
    } else if d == 5 {
        '5'
    } else if d == 6 {
        '6'
    } else if d == 7 {
        '7'
    } else if d == 8 {
        '8'
    } else {
        '9'
    }
}

/// The decimal numeral of `n`: most significant digit first, no leading
/// zeros, and `"0"` for zero.
pub open spec fn decimal(n: nat) -> Seq<char>
    decreases n,
{
    if n < 10 {
        seq![digit_char(n)]
    } else {
        decimal(n / 10).push(digit_char(n % 10))
    }
}

fn digit_text(d: u64) -> (text: &'static str)
    requires
        d < 10,
    ensures
        text@ == seq![digit_char(d as nat)],
{
    proof {
        reveal_strlit("0");
        reveal_strlit("1");
        reveal_strlit("2");
        reveal_strlit("3");
        reveal_strlit("4");
        reveal_strlit("5");
        reveal_strlit("6");
        reveal_strlit("7");
        reveal_strlit("8");
        reveal_strlit("9");
    }
    let text = if d == 0 {
        "0"
    } else if d == 1 {
        "1"
    } else if d == 2 {
        "2"
    } else if d == 3 {
        "3"
    } else if d == 4 {
        "4"
    } else if d == 5 {
        "5"
    } else if d == 6 {
        "6"
    } else if d == 7 {
        "7"
    } else if d == 8 {
        "8"
    } else {
        "9"
    };
    text
}

/// Appends the decimal numeral of `n` to `out`.
pub fn append_decimal(n: u64, out: &mut String)
    ensures
        final(out)@ == old(out)@ + decimal(n as nat),
    decreases n,
{
    if n >= 10 {
        append_decimal(n / 10, out);
    }
    out.append(digit_text(n % 10));
}

/// The decimal numeral of `n` as a string.
pub fn decimal_string(n: u64) -> (numeral: String)
    ensures
        numeral@ == decimal(n as nat),
{
    let mut numeral = String::new();
    append_decimal(n, &mut numeral);
    numeral
}

/// A numeral always has at least one digit.
pub proof fn lemma_decimal_not_empty(n: nat)
    ensures
        decimal(n).len() > 0,
    decreases n,
{
    if n >= 10 {
        lemma_decimal_not_empty(n / 10);
    }
}

/// The parts one after another, with `separator` between each two
/// neighbours.
pub open spec fn joined(parts: Seq<Seq<char>>, separator: Seq<char>) -> Seq<char>
    decreases parts.len(),
{
    if parts.len() == 0 {
        Seq::empty()
    } else if parts.len() == 1 {
        parts[0]
    } else {
        joined(parts.drop_last(), separator) + separator + parts.last()
    }
}

/// All the parts as one string, in order.
pub fn flatten(parts: &Vec<String>) -> (whole: String)
    ensures
        whole@ == parts.deep_view().flatten(),
{
    let mut whole = String::new();
    let mut i: usize = 0;
    while i < parts.len()
        invariant
            i <= parts.len(),
            whole@ == parts.deep_view().take(i as int).flatten(),
        decreases parts.len() - i,
    {
        whole.append(parts[i].as_str());
        proof {
            let all = parts.deep_view();
            assert(all.take(i + 1) =~= all.take(i as int).push(parts[i as int]@));
            all.take(i as int).lemma_flatten_push(parts[i as int]@);
        }
        i += 1;
    }
    assert(parts.deep_view().take(i as int) =~= parts.deep_view());
    whole
}

/// The parts as one string, with `separator` between each two neighbours.
pub fn join(parts: &Vec<String>, separator: &str) -> (whole: String)
    ensures
        whole@ == joined(parts.deep_view(), separator@),
{
    let mut whole = String::new();
    let mut i: usize = 0;
    while i < parts.len()
        invariant
            i <= parts.len(),
            whole@ == joined(parts.deep_view().take(i as int), separator@),
        decreases parts.len() - i,
    {
        if i > 0 {
            whole.append(separator);
        }
        whole.append(parts[i].as_str());
        proof {
            let all = parts.deep_view();
            let next = all.take(i + 1);
            assert(next.drop_last() =~= all.take(i as int));
        }
        i += 1;
    }
    assert(parts.deep_view().take(i as int) =~= parts.deep_view());
    whole
}

/// How many items stand before the first `stop`, or how many there are
/// where none is a `stop`.
pub open spec fn run_before<T>(items: Seq<T>, stop: T) -> int
    decreases items.len(),
{
    if items.len() == 0 || items[0] == stop {
        0
    } else {
        1 + run_before(items.drop_first(), stop)
    }
}

/// A line as it stood before a line feed, without the carriage return that
/// may precede the feed.
pub open spec fn without_return<T>(line: Seq<T>, cr: T) -> Seq<T> {
    if line.len() > 0 && line.last() == cr {
        line.drop_last()
    } else {
        line
    }
}

/// The lines of a text. A line ends at a line feed `lf`, or at `cr` directly
/// followed by `lf`; neither belongs to the line. What follows the last line
/// feed is a line of its own unless it is empty, and it keeps a trailing
/// `cr`.
pub open spec fn lines_of<T>(items: Seq<T>, lf: T, cr: T) -> Seq<Seq<T>>
    decreases items.len(),
{
    let end = run_before(items, lf);
    if items.len() == 0 {
        Seq::empty()
    } else if 0 <= end < items.len() {
        seq![without_return(items.take(end), cr)] + lines_of(items.skip(end + 1), lf, cr)
    } else {
        seq![items]
    }
}

/// `run_before` counts exactly the leading items that differ from `stop`.
pub proof fn lemma_run_before<T>(items: Seq<T>, stop: T)
    ensures
        0 <= run_before(items, stop) <= items.len(),
        forall|i: int| 0 <= i < run_before(items, stop) ==> items[i] != stop,
        run_before(items, stop) < items.len() ==> items[run_before(items, stop)] == stop,
    decreases items.len(),
{
    if items.len() > 0 && items[0] != stop {
        let rest = items.drop_first();
        lemma_run_before(rest, stop);
        assert forall|i: int| 0 <= i < run_before(items, stop) implies items[i] != stop by {
            if i > 0 {
                assert(items[i] == rest[i - 1]);
            }
        }
    }
}

/// An index that holds `stop` with none before it is where the run ends; the
/// length is, where no item is a `stop`.
pub proof fn lemma_run_before_found<T>(items: Seq<T>, stop: T, end: int)
    requires
        0 <= end <= items.len(),
        forall|i: int| 0 <= i < end ==> items[i] != stop,
        end < items.len() ==> items[end] == stop,
    ensures
        run_before(items, stop) == end,
{
    lemma_run_before(items, stop);
    let found = run_before(items, stop);
    if found < end {
    } else if end < found {
    }
}

/// The characters of `text`, in order.
pub fn chars_of(text: &str) -> (chars: Vec<char>)
    ensures
        chars@ == text@,
{
    broadcast use vstd::string::group_string_axioms;

    let mut chars: Vec<char> = Vec::new();
    for c in it: text.chars()
        invariant
            it.seq() == text@,
            chars@ == it.seq().take(it.index() as int),
    {
        chars.push(c);
    }
    chars
}

} // verus!

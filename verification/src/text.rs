//! The textual format of the protocol: lines of `key|value`, each ended by a
//! newline, and decimal numbers.

use vstd::prelude::*;
use vstd::string::StringExecFns;
use vstd::string::StrSliceExecFns;

verus! {

/// One line of the format: the key, a bar, the value, a newline.
pub open spec fn kv_line(key: Seq<char>, value: Seq<char>) -> Seq<char> {
    key + seq!['|'] + value + seq!['\n']
}

/// Appends one `key|value` line to `out`.
pub fn push_line(out: &mut String, key: &str, value: &str)
    ensures
        final(out)@ == old(out)@ + kv_line(key@, value@),
{
    proof {
        reveal_strlit("|");
        reveal_strlit("\n");
    }
    out.append(key);
    out.append("|");
    out.append(value);
    out.append("\n");
    assert("|"@ =~= seq!['|']);
    assert("\n"@ =~= seq!['\n']);
    assert(out@ =~= old(out)@ + kv_line(key@, value@));
}

/// The character of a decimal digit.
pub open spec fn digit_char(d: nat) -> char
    recommends
        d < 10,
{
    if d == 0 {
        '0'
    } else if d == 1 {
        '1'
    } else if d == 2 {
        '2'
    } else if d == 3 {
        '3'
    } else if d == 4 {
        '4'
    } else if d == 5 {
        '5'
    } else if d == 6 {
        '6'
    } else if d == 7 {
        '7'
    } else if d == 8 {
        '8'
    } else {
        '9'
    }
}

/// The decimal numeral of `n`, without leading zeros.
pub open spec fn decimal(n: nat) -> Seq<char>
    decreases n,
{
    if n < 10 {
        seq![digit_char(n)]
    } else {
        decimal(n / 10) + seq![digit_char(n % 10)]
    }
}

fn digit_str(d: u32) -> (r: &'static str)
    requires
        d < 10,
    ensures
        r@ == seq![digit_char(d as nat)],
{
    proof {
        reveal_strlit("0");
        reveal_strlit("1");
        reveal_strlit("2");
        reveal_strlit("3");
        reveal_strlit("4");
        reveal_strlit("5");
        reveal_strlit("6");
        reveal_strlit("7");
        reveal_strlit("8");
        reveal_strlit("9");
    }
    let r = match d {
        0 => "0",
        1 => "1",
        2 => "2",
        3 => "3",
        4 => "4",
        5 => "5",
        6 => "6",
        7 => "7",
        8 => "8",
        _ => "9",
    };
    assert(r@ =~= seq![digit_char(d as nat)]);
    r
}

/// Writes `n` as a decimal numeral.
pub fn decimal_string(n: u32) -> (r: String)
    ensures
        r@ == decimal(n as nat),
    decreases n,
{
    if n < 10 {
        String::from_str(digit_str(n))
    } else {
        let mut s = decimal_string(n / 10);
        s.append(digit_str(n % 10));
        s
    }
}

/// The first position of `c` in `s`, or the length of `s` where `c` does not
/// occur.
pub open spec fn index_of(s: Seq<char>, c: char) -> int
    decreases s.len(),
{
    if s.len() == 0 {
        0
    } else if s[0] == c {
        0
    } else {
        1 + index_of(s.skip(1), c)
    }
}

/// `index_of` is the one position before which `c` does not occur and at
/// which, if it lies inside `s`, `c` stands.
pub proof fn lemma_index_of(s: Seq<char>, c: char, k: int)
    requires
        0 <= k <= s.len(),
        forall|j: int| 0 <= j < k ==> s[j] != c,
        k < s.len() ==> s[k] == c,
    ensures
        index_of(s, c) == k,
    decreases k,
{
    if k > 0 {
        let t = s.skip(1);
        assert forall|j: int| 0 <= j < k - 1 implies t[j] != c by {
            assert(t[j] == s[j + 1]);
        }
        lemma_index_of(t, c, k - 1);
    }
}

/// A line without the carriage return that may end it.
pub open spec fn without_cr(line: Seq<char>) -> Seq<char> {
    if line.len() > 0 && line.last() == '\r' {
        line.drop_last()
    } else {
        line
    }
}

/// The first line of a text that is not empty: what stands before the first
/// newline, less a carriage return directly before it; the whole text where
/// it holds no newline.
pub open spec fn first_line(text: Seq<char>) -> Seq<char> {
    let n = index_of(text, '\n');
    if n < text.len() {
        without_cr(text.take(n))
    } else {
        text
    }
}

/// What follows the first line and its newline.
pub open spec fn after_first_line(text: Seq<char>) -> Seq<char> {
    let n = index_of(text, '\n');
    if n < text.len() {
        text.skip(n + 1)
    } else {
        Seq::empty()
    }
}

/// The key and value of a line: what stands before and after its first bar.
/// A line without a bar holds no pair.
pub open spec fn pair_of(line: Seq<char>) -> Option<(Seq<char>, Seq<char>)> {
    let k = index_of(line, '|');
    if k < line.len() {
        Some((line.take(k), line.skip(k + 1)))
    } else {
        None
    }
}

/// `index_of` lies between zero and the length.
pub proof fn lemma_index_of_range(s: Seq<char>, c: char)
    ensures
        0 <= index_of(s, c) <= s.len(),
    decreases s.len(),
{
    if s.len() > 0 && s[0] != c {
        lemma_index_of_range(s.skip(1), c);
    }
}

#[via_fn]
proof fn pairs_of_shortens(text: Seq<char>) {
    lemma_index_of_range(text, '\n');
}

/// The pairs of a text, line by line; lines without a bar are passed over.
pub open spec fn pairs_of(text: Seq<char>) -> Seq<(Seq<char>, Seq<char>)>
    decreases text.len(),
    via pairs_of_shortens
{
    if text.len() == 0 {
        Seq::empty()
    } else {
        let rest = pairs_of(after_first_line(text));
        match pair_of(first_line(text)) {
            Some(p) => seq![p] + rest,
            None => rest,
        }
    }
}

/// The value of the last pair with the given key.
pub open spec fn lookup(pairs: Seq<(Seq<char>, Seq<char>)>, key: Seq<char>) -> Option<Seq<char>>
    decreases pairs.len(),
{
    if pairs.len() == 0 {
        None
    } else if pairs.last().0 == key {
        Some(pairs.last().1)
    } else {
        lookup(pairs.drop_last(), key)
    }
}

/// The pairs that a vector of owned pairs stands for.
pub open spec fn pairs_view(pairs: Seq<(String, String)>) -> Seq<(Seq<char>, Seq<char>)> {
    Seq::new(pairs.len(), |i: int| (pairs[i].0@, pairs[i].1@))
}

/// The characters of a string, one by one.
pub fn chars_of(text: &str) -> (r: Vec<char>)
    ensures
        r@ == text@,
{
    let n: usize = text.unicode_len();
    let mut out: Vec<char> = Vec::new();
    let mut i: usize = 0;
    while i < n
        invariant
            n == text@.len(),
            i <= n,
            out@ == text@.take(i as int),
        decreases n - i,
    {
        out.push(text.get_char(i));
        i += 1;
        assert(out@ =~= text@.take(i as int));
    }
    assert(text@.take(n as int) =~= text@);
    out
}

/// The first position at or after `from` where `c` stands in `chars`, or the
/// length of `chars`.
pub fn find_from(chars: &Vec<char>, from: usize, to: usize, c: char) -> (r: usize)
    requires
        from <= to <= chars@.len(),
    ensures
        from <= r <= to,
        r - from == index_of(chars@.subrange(from as int, to as int), c),
{
    let mut i: usize = from;
    while i < to && chars[i] != c
        invariant
            from <= i <= to,
            to <= chars@.len(),
            forall|j: int| from <= j < i ==> chars@[j] != c,
        decreases to - i,
    {
        i += 1;
    }
    proof {
        let s = chars@.subrange(from as int, to as int);
        assert forall|j: int| 0 <= j < i - from implies s[j] != c by {
            assert(s[j] == chars@[from + j]);
        }
        lemma_index_of(s, c, i - from);
    }
    i
}

/// Reads the `key|value` lines of `text`, in their order.
pub fn parse_pairs(text: &str) -> (r: Vec<(String, String)>)
    ensures
        pairs_view(r@) == pairs_of(text@),
{
    let chars = chars_of(text);
    let n: usize = chars.len();
    let mut out: Vec<(String, String)> = Vec::new();
    let mut pos: usize = 0;
    assert(text@.skip(0) =~= text@);
    assert(pairs_view(out@) + pairs_of(text@) =~= pairs_of(text@));
    while pos < n
        invariant
            chars@ == text@,
            n == chars@.len(),
            pos <= n,
            pairs_of(text@) == pairs_view(out@) + pairs_of(text@.skip(pos as int)),
        decreases n - pos,
    {
        let ghost rest = text@.skip(pos as int);
        let nl: usize = find_from(&chars, pos, n, '\n');
        assert(chars@.subrange(pos as int, n as int) =~= rest);
        let mut end: usize = nl;
        if nl < n && nl > pos && chars[nl - 1] == '\r' {
            end = nl - 1;
        }
        let next: usize = if nl < n {
            nl + 1
        } else {
            n
        };
        let ghost line = text@.subrange(pos as int, end as int);
        proof {
            assert(rest.take(nl - pos) =~= text@.subrange(pos as int, nl as int));
            if nl < n {
                if nl > pos {
                    assert(rest.take(nl - pos).last() == chars@[nl - 1]);
                }
                assert(without_cr(rest.take(nl - pos)) =~= line);
                assert(rest.skip(nl - pos + 1) =~= text@.skip(next as int));
            } else {
                assert(line =~= rest);
                assert(text@.skip(next as int) =~= Seq::<char>::empty());
            }
            assert(first_line(rest) == line);
            assert(after_first_line(rest) == text@.skip(next as int));
        }
        let bar: usize = find_from(&chars, pos, end, '|');
        assert(chars@.subrange(pos as int, end as int) =~= line);
        let ghost before = out@;
        if bar < end {
            let key = String::from_str(text.substring_char(pos, bar));
            let value = String::from_str(text.substring_char(bar + 1, end));
            out.push((key, value));
            proof {
                assert(line.take(bar - pos) =~= text@.subrange(pos as int, bar as int));
                assert(line.skip(bar - pos + 1) =~= text@.subrange(bar + 1, end as int));
                assert(pairs_view(out@) =~= pairs_view(before) + seq![(key@, value@)]);
                assert(pairs_of(text@) =~= pairs_view(out@) + pairs_of(text@.skip(next as int)));
            }
        }
        pos = next;
    }
    assert(pairs_of(text@.skip(n as int)) =~= Seq::<(Seq<char>, Seq<char>)>::empty());
    assert(pairs_view(out@) =~= pairs_of(text@));
    out
}

/// The fields of a text that bars part: what stands before the first bar,
/// then the fields of what follows it. A text without a bar is one field.
pub open spec fn fields_of(text: Seq<char>) -> Seq<Seq<char>>
    decreases text.len(),
    via fields_of_shortens
{
    let k = index_of(text, '|');
    if k < text.len() {
        seq![text.take(k)] + fields_of(text.skip(k + 1))
    } else {
        seq![text]
    }
}

#[via_fn]
proof fn fields_of_shortens(text: Seq<char>) {
    lemma_index_of_range(text, '|');
}

/// The text of each string of a list.
pub open spec fn texts_of(strings: Seq<String>) -> Seq<Seq<char>> {
    Seq::new(strings.len(), |i: int| strings[i]@)
}

/// Splits a text at its bars.
pub fn split_fields(text: &str) -> (r: Vec<String>)
    ensures
        texts_of(r@) == fields_of(text@),
{
    let chars = chars_of(text);
    let n: usize = chars.len();
    let mut out: Vec<String> = Vec::new();
    let mut pos: usize = 0;
    assert(text@.skip(0) =~= text@);
    assert(texts_of(out@) + fields_of(text@) =~= fields_of(text@));
    loop
        invariant_except_break
            fields_of(text@) == texts_of(out@) + fields_of(text@.skip(pos as int)),
        invariant
            chars@ == text@,
            n == chars@.len(),
            pos <= n,
        ensures
            texts_of(out@) == fields_of(text@),
        decreases n - pos,
    {
        let ghost rest = text@.skip(pos as int);
        let ghost before = out@;
        let bar: usize = find_from(&chars, pos, n, '|');
        assert(chars@.subrange(pos as int, n as int) =~= rest);
        out.push(String::from_str(text.substring_char(pos, bar)));
        proof {
            assert(rest.take(bar - pos) =~= text@.subrange(pos as int, bar as int));
            assert(texts_of(out@) =~= texts_of(before) + seq![text@.subrange(pos as int, bar as int)]);
        }
        if bar == n {
            proof {
                assert(rest.take(bar - pos) =~= rest);
                assert(fields_of(rest) =~= seq![rest]);
            }
            break ;
        }
        proof {
            assert(rest.skip(bar - pos + 1) =~= text@.skip(bar + 1));
            assert(fields_of(text@) =~= texts_of(out@) + fields_of(text@.skip(bar + 1)));
        }
        pos = bar + 1;
    }
    out
}

/// The value of the last pair with the given key, if there is one.
pub fn find_value(pairs: &Vec<(String, String)>, key: &str) -> (r: Option<String>)
    ensures
        match r {
            Some(v) => lookup(pairs_view(pairs@), key@) == Some(v@),
            None => lookup(pairs_view(pairs@), key@).is_none(),
        },
{
    let wanted = String::from_str(key);
    let mut i: usize = pairs.len();
    assert(pairs_view(pairs@).take(i as int) =~= pairs_view(pairs@));
    while i > 0
        invariant
            i <= pairs@.len(),
            wanted@ == key@,
            lookup(pairs_view(pairs@), key@) == lookup(pairs_view(pairs@).take(i as int), key@),
        decreases i,
    {
        let ghost prefix = pairs_view(pairs@).take(i as int);
        assert(prefix.last() == (pairs@[i - 1].0@, pairs@[i - 1].1@));
        if pairs[i - 1].0 == wanted {
            return Some(pairs[i - 1].1.clone());
        }
        assert(prefix.drop_last() =~= pairs_view(pairs@).take(i - 1));
        i -= 1;
    }
    assert(pairs_view(pairs@).take(0) =~= Seq::<(Seq<char>, Seq<char>)>::empty());
    None
}

} // verus!

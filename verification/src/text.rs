//! Small text building blocks: decimal numerals, joined lists, the shortening
//! of long tag lists, splitting a format on `/`, and file names of images.
use vstd::prelude::*;
use vstd::string::StringExecFns;
use vstd::string::StrSliceExecFns;

verus! {

/// Appends one character to a `String` (`String::push` of std).
/// Claims that the result is the old text followed by `c`.
#[verifier::external_body]
pub(crate) fn push_char(s: &mut String, c: char)
    ensures
        final(s)@ == old(s)@.push(c),
{
    s.push(c);
}

/// The character of a decimal digit.
pub open spec fn digit_char(d: nat) -> char
    recommends
        d < 10,
{
    ((48 + d) as char)
}

/// The decimal numeral of `n`, without leading zeros (`"0"` for zero).
pub open spec fn decimal(n: nat) -> Seq<char>
    decreases n,
{
    if n < 10 {
        seq![digit_char(n)]
    } else {
        decimal(n / 10).push(digit_char(n % 10))
    }
}

/// The decimal numeral of a signed number: a leading `-` for negative values.
pub open spec fn signed_decimal(v: int) -> Seq<char> {
    if v < 0 {
        seq!['-'] + decimal((-v) as nat)
    } else {
        decimal(v as nat)
    }
}

/// `s` padded on the left with `'0'` up to `width` characters.
pub open spec fn zero_pad(s: Seq<char>, width: nat) -> Seq<char> {
    if s.len() < width {
        Seq::new((width - s.len()) as nat, |i: int| '0') + s
    } else {
        s
    }
}

fn digit_to_char(d: u64) -> (c: char)
    requires
        d < 10,
    ensures
        c == digit_char(d as nat),
{
    let b: u8 = 48u8 + (d as u8);
    b as char
}

/// Writes the decimal numeral of `n`.
pub fn u64_to_decimal(n: u64) -> (res: String)
    ensures
        res@ == decimal(n as nat),
{
    // digits from the least significant one upward
    let mut rev: Vec<char> = Vec::new();
    let mut rest: u64 = n;
    loop
        invariant_except_break
            rest > 0 || rev.len() == 0,
            rev.len() == 0 ==> rest == n,
            rev.len() > 0 && rest > 0 ==> decimal(n as nat) == decimal(rest as nat) + rev@.reverse(),
        ensures
            decimal(n as nat) == rev@.reverse(),
        decreases rest,
    {
        let d = rest % 10;
        let ghost old_rest = rest;
        let ghost old_rev = rev@;
        rev.push(digit_to_char(d));
        rest = rest / 10;
        proof {
            assert(rev@.reverse() =~= seq![digit_char(d as nat)] + old_rev.reverse());
            if old_rest >= 10 {
                assert(decimal(old_rest as nat) == decimal(rest as nat).push(digit_char(d as nat)));
                assert(decimal(rest as nat) + rev@.reverse() =~= decimal(rest as nat).push(
                    digit_char(d as nat),
                ) + old_rev.reverse());
            } else {
                assert(decimal(old_rest as nat) == seq![digit_char(d as nat)]);
            }
        }
        if rest == 0 {
            break;
        }
    }
    let mut res = String::new();
    let len = rev.len();
    let mut i: usize = len;
    while i > 0
        invariant
            i <= len,
            len == rev.len(),
            res@ =~= rev@.reverse().subrange(0, (len - i) as int),
        decreases i,
    {
        i = i - 1;
        push_char(&mut res, rev[i]);
    }
    assert(rev@.reverse().subrange(0, len as int) =~= rev@.reverse());
    res
}


/// Writes the decimal numeral of a signed number.
pub fn i32_to_decimal(v: i32) -> (res: String)
    ensures
        res@ == signed_decimal(v as int),
{
    if v < 0 {
        let magnitude: u64 = (0i64 - (v as i64)) as u64;
        let digits = u64_to_decimal(magnitude);
        let mut res = String::new();
        push_char(&mut res, '-');
        res.append(digits.as_str());
        res
    } else {
        u64_to_decimal(v as u64)
    }
}

/// `items` joined with `sep` between each two neighbours.
pub open spec fn joined(items: Seq<Seq<char>>, sep: Seq<char>) -> Seq<char>
    decreases items.len(),
{
    if items.len() == 0 {
        seq![]
    } else if items.len() == 1 {
        items[0]
    } else {
        joined(items.drop_last(), sep) + sep + items.last()
    }
}

/// The texts of a list of strings.
pub open spec fn texts(items: Seq<String>) -> Seq<Seq<char>> {
    items.map_values(|s: String| s@)
}

/// Joins `items` with `sep` between each two neighbours (`[..].join(sep)`).
pub fn join_strings(items: &Vec<String>, sep: &str) -> (res: String)
    ensures
        res@ == joined(texts(items@), sep@),
{
    let mut res = String::new();
    let n = items.len();
    for i in 0..n
        invariant
            n == items.len(),
            res@ == joined(texts(items@).take(i as int), sep@),
    {
        let ghost prev = texts(items@).take(i as int);
        assert(texts(items@).take(i + 1) =~= prev.push(items@[i as int]@));
        if i > 0 {
            res.append(sep);
        }
        res.append(items[i].as_str());
        assert(prev.push(items@[i as int]@).drop_last() =~= prev);
    }
    assert(texts(items@).take(n as int) =~= texts(items@));
    res
}

/// The longest text kept unshortened.
pub const TAGS_MAX_CHARS: usize = 100;

/// How many characters of a too long text are kept before `"..."`.
pub const TAGS_KEPT_CHARS: usize = 97;

/// A text longer than 100 characters is cut to its first 97 characters
/// followed by `"..."`; a shorter one is kept as it is.
pub open spec fn shortened(s: Seq<char>) -> Seq<char> {
    if s.len() > 100 {
        s.take(97) + seq!['.', '.', '.']
    } else {
        s
    }
}

/// Shortens a joined tag list to at most 100 characters (counted as `char`s).
pub fn shorten(s: String) -> (res: String)
    ensures
        res@ == shortened(s@),
{
    if s.as_str().unicode_len() > TAGS_MAX_CHARS {
        let head = s.as_str().substring_char(0, TAGS_KEPT_CHARS);
        let mut res = String::from_str(head);
        res.append("...");
        proof {
            reveal_strlit("...");
        }
        assert(res@ =~= shortened(s@));
        res
    } else {
        s
    }
}

/// The pieces of `s` between occurrences of `sep`, as `str::split` gives
/// them: one more piece than there are separators, empty pieces kept.
pub open spec fn split_on(s: Seq<char>, sep: char) -> Seq<Seq<char>>
    decreases s.len(),
{
    if s.len() == 0 {
        seq![seq![]]
    } else {
        let parts = split_on(s.drop_last(), sep);
        if s.last() == sep {
            parts.push(seq![])
        } else {
            parts.update(parts.len() - 1, parts.last().push(s.last()))
        }
    }
}

pub proof fn lemma_split_on_nonempty(s: Seq<char>, sep: char)
    ensures
        split_on(s, sep).len() >= 1,
    decreases s.len(),
{
    if s.len() > 0 {
        lemma_split_on_nonempty(s.drop_last(), sep);
    }
}

/// Splits `s` at every `sep` (`s.split(sep)`).
pub fn split_string(s: &str, sep: char) -> (res: Vec<String>)
    ensures
        texts(res@) == split_on(s@, sep),
{
    let mut done: Vec<String> = Vec::new();
    let mut current = String::new();
    let ghost mut seen: Seq<char> = seq![];
    for c in it: s.chars()
        invariant
            seen == s@.take(it.index() as int),
            it.seq() == s@,
            texts(done@).push(current@) == split_on(seen, sep),
    {
        proof {
            lemma_split_on_nonempty(seen, sep);
        }
        let ghost before = seen;
        proof {
            seen = seen.push(c);
            assert(seen.drop_last() =~= before);
        }
        if c == sep {
            let finished = current;
            done.push(finished);
            current = String::new();
            assert(texts(done@).push(current@) =~= split_on(before, sep).push(seq![]));
        } else {
            push_char(&mut current, c);
            assert(texts(done@).push(current@) =~= split_on(before, sep).update(
                split_on(before, sep).len() - 1,
                split_on(before, sep).last().push(c),
            ));
        }
        assert(seen == s@.take(it.index() + 1));
    }
    assert(seen =~= s@);
    done.push(current);
    done
}

/// The file name of the image at `index` (counted from 0): its 1-based number
/// with at least four digits, a dot, and the extension (`"0001.webp"`).
pub open spec fn img_file_name_spec(index: nat, extension: Seq<char>) -> Seq<char> {
    zero_pad(decimal(index + 1), 4) + seq!['.'] + extension
}

/// The file name of the image at `index` (counted from 0).
pub fn img_file_name(index: usize, extension: &str) -> (res: String)
    requires
        index < usize::MAX,
    ensures
        res@ == img_file_name_spec(index as nat, extension@),
{
    let digits = u64_to_decimal((index + 1) as u64);
    let mut res = String::new();
    let len = digits.as_str().unicode_len();
    let mut k: usize = len;
    while k < 4
        invariant
            len <= k <= 4 || (len > 4 && k == len),
            len == digits@.len(),
            res@ == Seq::new((k - len) as nat, |i: int| '0'),
        decreases 4 - k,
    {
        push_char(&mut res, '0');
        k = k + 1;
        assert(res@ =~= Seq::new((k - len) as nat, |i: int| '0'));
    }
    res.append(digits.as_str());
    push_char(&mut res, '.');
    res.append(extension);
    assert(res@ =~= img_file_name_spec(index as nat, extension@));
    res
}

} // verus!

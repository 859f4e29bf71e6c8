//! Text as the terminal shows it: byte and character widths, cells of a fixed
//! width, decimal numbers, and the splitting and trimming of short inputs.

use vstd::prelude::*;
use vstd::string::*;
use vstd::utf8::*;

verus! {

/// The number of bytes that a text takes in UTF-8.
pub open spec fn byte_len(s: Seq<char>) -> nat {
    encode_utf8(s).len()
}

/// The number of bytes that one character takes in UTF-8.
pub open spec fn char_bytes(c: char) -> nat {
    encode_scalar(c as u32).len()
}

/// A text of `n` spaces.
pub open spec fn spaces(n: nat) -> Seq<char> {
    Seq::new(n, |i: int| ' ')
}

/// The text, filled up with spaces on the right to `width` characters.
pub open spec fn padded(s: Seq<char>, width: nat) -> Seq<char> {
    s + spaces(if s.len() < width { (width - s.len()) as nat } else { 0 })
}

/// How many characters from the front of `s` fit into `limit` bytes.
pub open spec fn fitting(s: Seq<char>, limit: int) -> nat
    decreases s.len(),
{
    if s.len() == 0 || char_bytes(s[0]) > limit {
        0
    } else {
        1 + fitting(s.drop_first(), limit - char_bytes(s[0]))
    }
}

/// A table cell: a text of more than `width` bytes is cut and marked with
/// three dots, so that `width` bytes hold it; any other is padded.
pub open spec fn cell(s: Seq<char>, width: nat) -> Seq<char> {
    if byte_len(s) > width {
        s.take(fitting(s, width - 3) as int) + "..."@
    } else {
        padded(s, width)
    }
}

/// A character takes one to four bytes.
pub proof fn lemma_char_bytes(c: char)
    ensures
        char_bytes(c) == (if (c as u32) < 0x80 {
            1nat
        } else if (c as u32) < 0x800 {
            2
        } else if (c as u32) < 0x10000 {
            3
        } else {
            4
        }),
{
    char_is_scalar(c);
}

/// The bytes of two texts, one after the other, add up.
pub proof fn lemma_byte_len_add(a: Seq<char>, b: Seq<char>)
    ensures
        byte_len(a + b) == byte_len(a) + byte_len(b),
    decreases a.len(),
{
    if a.len() == 0 {
        assert(a + b =~= b);
    } else {
        assert((a + b).drop_first() =~= a.drop_first() + b);
        lemma_byte_len_add(a.drop_first(), b);
    }
}

/// A text has no more characters than bytes.
pub proof fn lemma_chars_within_bytes(s: Seq<char>)
    ensures
        s.len() <= byte_len(s),
    decreases s.len(),
{
    if s.len() > 0 {
        lemma_char_bytes(s[0]);
        lemma_chars_within_bytes(s.drop_first());
    }
}

/// The cut of a cell is the longest one: the characters kept fit into the
/// limit, and with one more they would not.
pub proof fn law_a_cut_is_the_longest(s: Seq<char>, limit: int)
    requires
        limit >= 0,
    ensures
        fitting(s, limit) <= s.len(),
        byte_len(s.take(fitting(s, limit) as int)) <= limit,
        forall|k: int| fitting(s, limit) < k <= s.len() ==> byte_len(#[trigger] s.take(k)) > limit,
    decreases s.len(),
{
    if s.len() == 0 {
        assert(s.take(0) =~= s);
    } else if char_bytes(s[0]) > limit {
        assert(s.take(0) =~= Seq::<char>::empty());
        assert forall|k: int| 0 < k <= s.len() implies byte_len(#[trigger] s.take(k)) > limit by {
            assert(s.take(k)[0] == s[0]);
        }
    } else {
        let rest = s.drop_first();
        let left = limit - char_bytes(s[0]);
        law_a_cut_is_the_longest(rest, left);
        let n = fitting(s, limit) as int;
        assert(s.take(n).drop_first() =~= rest.take(n - 1));
        assert forall|k: int| n < k <= s.len() implies byte_len(#[trigger] s.take(k)) > limit by {
            assert(s.take(k).drop_first() =~= rest.take(k - 1));
            assert(s.take(k)[0] == s[0]);
        }
    }
}

/// A cell of `width` holds at most `width` characters, whatever the text; one
/// that was cut takes at most `width` bytes, too.
pub proof fn law_a_cell_fits(s: Seq<char>, width: nat)
    requires
        width >= 3,
    ensures
        cell(s, width).len() <= width,
        byte_len(s) > width ==> byte_len(cell(s, width)) <= width,
{
    reveal_strlit("...");
    if byte_len(s) > width {
        let kept = s.take(fitting(s, width - 3) as int);
        law_a_cut_is_the_longest(s, width - 3);
        lemma_byte_len_add(kept, "..."@);
        reveal_with_fuel(encode_utf8, 4);
        lemma_char_bytes('.');
        lemma_chars_within_bytes(cell(s, width));
    } else {
        lemma_chars_within_bytes(s);
    }
}

/// The number of bytes that `c` takes in UTF-8.
pub(crate) fn char_width(c: char) -> (n: usize)
    ensures
        n == char_bytes(c),
        1 <= n <= 4,
{
    proof {
        lemma_char_bytes(c);
    }
    let v: u32 = c as u32;
    if v < 0x80 {
        1
    } else if v < 0x800 {
        2
    } else if v < 0x10000 {
        3
    } else {
        4
    }
}

/// The characters of a text, one by one.
pub fn characters(s: &str) -> (v: Vec<char>)
    ensures
        v@ == s@,
{
    let mut v: Vec<char> = Vec::new();
    for c in it: s.chars()
        invariant
            v@ == s@.take(it.index() as int),
            it.seq() == s@,
    {
        v.push(c);
    }
    v
}

/// Pads `s` with spaces on the right to `width` characters.
pub fn pad_right(s: &str, width: usize) -> (r: String)
    ensures
        r@ == padded(s@, width as nat),
{
    let mut r = s.to_owned();
    let mut n: usize = s.unicode_len();
    while n < width
        invariant
            n >= s@.len(),
            n <= width || n == s@.len(),
            r@ == s@ + spaces((n - s@.len()) as nat),
        decreases width - n,
    {
        proof {
            reveal_strlit(" ");
        }
        r.append(" ");
        n = n + 1;
        assert(r@ =~= s@ + spaces((n - s@.len()) as nat));
    }
    r
}

/// Truncates `s` so that `width` bytes hold it, or pads it to `width`
/// characters.
pub fn format_cell(s: &str, width: usize) -> (r: String)
    requires
        byte_len(s@) > width ==> width >= 3,
    ensures
        r@ == cell(s@, width as nat),
{
    if s.as_bytes().len() > width {
        let limit: usize = width - 3;
        let chars = characters(s);
        let mut used: usize = 0;
        let mut k: usize = 0;
        let ghost all = s@;
        proof {
            assert(all.take(0) =~= Seq::<char>::empty());
            assert(all.skip(0) =~= all);
        }
        while k < chars.len() && char_width(chars[k]) <= limit - used
            invariant
                chars@ == all,
                k <= all.len(),
                used <= limit,
                used == byte_len(all.take(k as int)),
                fitting(all, limit as int) == k + fitting(all.skip(k as int), limit - used),
            decreases chars.len() - k,
        {
            proof {
                assert(all.take(k + 1) =~= all.take(k as int) + seq![all[k as int]]);
                lemma_byte_len_add(all.take(k as int), seq![all[k as int]]);
                reveal_with_fuel(encode_utf8, 2);
                assert(all.skip(k as int).drop_first() =~= all.skip(k + 1));
            }
            used = used + char_width(chars[k]);
            k = k + 1;
        }
        let mut r = s.substring_char(0, k).to_owned();
        r.append("...");
        r
    } else {
        pad_right(s, width)
    }
}

/// A digit's character.
pub open spec fn digit(d: nat) -> char {
    ((48 + d) as u32) as char
}

/// A number in decimal, without leading zeros.
pub open spec fn decimal(n: nat) -> Seq<char>
    decreases n,
{
    if n < 10 {
        seq![digit(n)]
    } else {
        decimal(n / 10) + seq![digit(n % 10)]
    }
}

/// An integer in decimal, with a sign where it is negative.
pub open spec fn signed_decimal(n: int) -> Seq<char> {
    if n < 0 {
        "-"@ + decimal((-n) as nat)
    } else {
        decimal(n as nat)
    }
}

/// The character of a digit, as a text.
fn digit_text(d: u64) -> (r: &'static str)
    requires
        d < 10,
    ensures
        r@ == seq![digit(d as nat)],
{
    proof {
        reveal_strlit("0");
        reveal_strlit("1");
        reveal_strlit("2");
        reveal_strlit("3");
        reveal_strlit("4");
        reveal_strlit("5");
        reveal_strlit("6");
        reveal_strlit("7");
        reveal_strlit("8");
        reveal_strlit("9");
    }
    if d == 0 {
        "0"
    } else if d == 1 {
        "1"
    } else if d == 2 {
        "2"
    } else if d == 3 {
        "3"
    } else if d == 4 {
        "4"
    } else if d == 5 {
        "5"
    } else if d == 6 {
        "6"
    } else if d == 7 {
        "7"
    } else if d == 8 {
        "8"
    } else {
        "9"
    }
}

/// The number in decimal.
pub fn decimal_text(n: u64) -> (r: String)
    ensures
        r@ == decimal(n as nat),
    decreases n,
{
    if n < 10 {
        digit_text(n).to_owned()
    } else {
        let mut r = decimal_text(n / 10);
        r.append(digit_text(n % 10));
        r
    }
}

/// The integer in decimal.
pub fn signed_decimal_text(n: i64) -> (r: String)
    ensures
        r@ == signed_decimal(n as int),
{
    if n < 0 {
        let mut r = "-".to_owned();
        let magnitude: u64 = (-(n as i128)) as u64;
        r.append(decimal_text(magnitude).as_str());
        r
    } else {
        decimal_text(n as u64)
    }
}

/// White space, as Unicode counts it.
pub open spec fn white(c: char) -> bool {
    let v = c as u32;
    ||| 0x9 <= v <= 0xd
    ||| v == 0x20
    ||| v == 0x85
    ||| v == 0xa0
    ||| v == 0x1680
    ||| 0x2000 <= v <= 0x200a
    ||| v == 0x2028
    ||| v == 0x2029
    ||| v == 0x202f
    ||| v == 0x205f
    ||| v == 0x3000
}

/// The text without the white space at its start.
pub open spec fn trimmed_start(s: Seq<char>) -> Seq<char>
    decreases s.len(),
{
    if s.len() > 0 && white(s[0]) {
        trimmed_start(s.drop_first())
    } else {
        s
    }
}

/// The number of white characters that a text begins with.
pub open spec fn lead(s: Seq<char>) -> int {
    s.len() - trimmed_start(s).len()
}

/// The text without the white space at its end.
pub open spec fn trimmed_end(s: Seq<char>) -> Seq<char>
    decreases s.len(),
{
    if s.len() > 0 && white(s.last()) {
        trimmed_end(s.drop_last())
    } else {
        s
    }
}

/// The text without the white space at either end.
pub open spec fn trimmed(s: Seq<char>) -> Seq<char> {
    trimmed_end(trimmed_start(s))
}

/// What is left of a text without the white space at its ends stands in the
/// text behind the white space at its start, and begins with none.
pub proof fn lemma_trimmed(s: Seq<char>)
    ensures
        0 <= lead(s),
        lead(s) + trimmed(s).len() <= s.len(),
        trimmed(s) == s.subrange(lead(s), lead(s) + trimmed(s).len()),
        trimmed(s).len() > 0 ==> !white(trimmed(s)[0]),
{
    lemma_trimmed_start(s);
    lemma_trimmed_end(trimmed_start(s));
    assert(trimmed(s) =~= s.subrange(lead(s), lead(s) + trimmed(s).len()));
}

proof fn lemma_trimmed_start(s: Seq<char>)
    ensures
        trimmed_start(s).len() <= s.len(),
        trimmed_start(s) == s.skip(lead(s)),
        trimmed_start(s).len() > 0 ==> !white(trimmed_start(s)[0]),
    decreases s.len(),
{
    if s.len() > 0 && white(s[0]) {
        let rest = s.drop_first();
        lemma_trimmed_start(rest);
        assert(rest.skip(lead(rest)) =~= s.skip(lead(s)));
    } else {
        assert(s.skip(0) =~= s);
    }
}

proof fn lemma_trimmed_end(s: Seq<char>)
    ensures
        trimmed_end(s).len() <= s.len(),
        trimmed_end(s) == s.take(trimmed_end(s).len() as int),
    decreases s.len(),
{
    if s.len() > 0 && white(s.last()) {
        let rest = s.drop_last();
        lemma_trimmed_end(rest);
        assert(rest.take(trimmed_end(rest).len() as int) =~= s.take(
            trimmed_end(rest).len() as int,
        ));
    } else {
        assert(s.take(s.len() as int) =~= s);
    }
}

/// Tells whether `c` is white space.
pub fn is_white(c: char) -> (b: bool)
    ensures
        b == white(c),
{
    let v: u32 = c as u32;
    (0x9 <= v && v <= 0xd) || v == 0x20 || v == 0x85 || v == 0xa0 || v == 0x1680 || (0x2000 <= v && v
        <= 0x200a) || v == 0x2028 || v == 0x2029 || v == 0x202f || v == 0x205f || v == 0x3000
}

/// Counts the white characters at the start.
pub(crate) fn count_lead(chars: &Vec<char>) -> (n: usize)
    ensures
        n == lead(chars@),
        n <= chars@.len(),
        trimmed_start(chars@) == chars@.skip(n as int),
{
    let ghost all = chars@;
    let mut from: usize = 0;
    proof {
        assert(all.skip(0) =~= all);
    }
    while from < chars.len() && is_white(chars[from])
        invariant
            chars@ == all,
            from <= all.len(),
            trimmed_start(all) == trimmed_start(all.skip(from as int)),
        decreases all.len() - from,
    {
        proof {
            assert(all.skip(from as int).drop_first() =~= all.skip(from + 1));
        }
        from = from + 1;
    }
    from
}

/// Removes the white space at both ends.
pub fn trim(s: &str) -> (r: String)
    ensures
        r@ == trimmed(s@),
{
    let chars = characters(s);
    let ghost all = s@;
    let from: usize = count_lead(&chars);
    let mut to: usize = chars.len();
    let ghost rest = all.skip(from as int);
    proof {
        assert(all.subrange(from as int, to as int) =~= rest);
    }
    while to > from && is_white(chars[to - 1])
        invariant
            chars@ == all,
            from <= to <= all.len(),
            trimmed_end(rest) == trimmed_end(all.subrange(from as int, to as int)),
        decreases to - from,
    {
        proof {
            assert(all.subrange(from as int, to as int).drop_last() =~= all.subrange(
                from as int,
                to - 1,
            ));
        }
        to = to - 1;
    }
    s.substring_char(from, to).to_owned()
}

/// Tells whether two texts are the same.
pub fn same_text(a: &str, b: &str) -> (r: bool)
    ensures
        r == (a@ == b@),
{
    a.to_owned() == b.to_owned()
}

/// The pieces between the commas of a text, without the empty ones.
pub open spec fn comma_pieces(s: Seq<char>) -> Seq<Seq<char>>
    decreases s.len(),
{
    let n = until_comma(s);
    let piece = if n == 0 {
        Seq::empty()
    } else {
        seq![s.take(n as int)]
    };
    if n >= s.len() {
        piece
    } else {
        piece + comma_pieces(s.skip(n as int + 1))
    }
}

/// The number of characters before the first comma.
pub open spec fn until_comma(s: Seq<char>) -> nat
    decreases s.len(),
{
    if s.len() == 0 || s[0] == ',' {
        0
    } else {
        1 + until_comma(s.drop_first())
    }
}

/// Where the first comma stands: before it there is none.
pub proof fn lemma_until_comma(s: Seq<char>, n: int)
    requires
        0 <= n <= s.len(),
        forall|i: int| 0 <= i < n ==> s[i] != ',',
        n < s.len() ==> s[n] == ',',
    ensures
        until_comma(s) == n,
    decreases s.len(),
{
    if s.len() > 0 && s[0] != ',' {
        lemma_until_comma(s.drop_first(), n - 1);
    }
}

proof fn lemma_before_comma(s: Seq<char>, i: int)
    requires
        0 <= i < until_comma(s),
    ensures
        until_comma(s) <= s.len(),
        s[i] != ',',
    decreases s.len(),
{
    if s.len() > 0 && s[0] != ',' && until_comma(s.drop_first()) > 0 {
        lemma_before_comma(s.drop_first(), if i > 0 { i - 1 } else { 0 });
    }
}

/// The pieces between the commas hold no comma.
pub proof fn lemma_no_commas(s: Seq<char>, i: int)
    requires
        0 <= i < comma_pieces(s).len(),
    ensures
        !comma_pieces(s)[i].contains(','),
    decreases s.len(),
{
    let n = until_comma(s);
    let first: int = if n == 0 {
        0
    } else {
        1
    };
    if i < first {
        let piece = s.take(n as int);
        lemma_before_comma(s, 0);
        assert forall|j: int| 0 <= j < piece.len() implies piece[j] != ',' by {
            lemma_before_comma(s, j);
        }
    } else {
        lemma_no_commas(s.skip(n as int + 1), i - first);
    }
}

/// The texts that a list of strings holds.
pub open spec fn views(v: Seq<String>) -> Seq<Seq<char>> {
    v.map_values(|s: String| s@)
}

/// The same texts.
pub fn copy_texts(v: &Vec<String>) -> (r: Vec<String>)
    ensures
        r@ == v@,
{
    let mut r: Vec<String> = Vec::new();
    for i in 0..v.len()
        invariant
            r@ == v@.take(i as int),
    {
        r.push(v[i].clone());
        assert(r@ =~= v@.take(i + 1));
    }
    assert(v@.take(v@.len() as int) =~= v@);
    r
}

/// Splits at the commas and drops the empty pieces.
pub fn split_commas(s: &str) -> (r: Vec<String>)
    ensures
        views(r@) == comma_pieces(s@),
{
    let chars = characters(s);
    let ghost all = s@;
    let mut r: Vec<String> = Vec::new();
    let mut from: usize = 0;
    let mut at: usize = 0;
    proof {
        assert(all.skip(0) =~= all);
        assert(views(r@) =~= Seq::empty());
        assert(views(r@) + comma_pieces(all) =~= comma_pieces(all));
    }
    while at < chars.len()
        invariant
            chars@ == all,
            all == s@,
            from <= at <= all.len(),
            forall|i: int| from <= i < at ==> all[i] != ',',
            views(r@) + comma_pieces(all.skip(from as int)) == comma_pieces(all),
        decreases all.len() - at,
    {
        if chars[at] == ',' {
            let ghost rest = all.skip(from as int);
            let ghost before = views(r@);
            proof {
                lemma_until_comma(rest, at - from);
                assert(rest.skip(at - from + 1) =~= all.skip(at + 1));
                assert(rest.take(at - from) =~= all.subrange(from as int, at as int));
            }
            if from < at {
                r.push(s.substring_char(from, at).to_owned());
                assert(views(r@) =~= before + seq![all.subrange(from as int, at as int)]);
            }
            from = at + 1;
            assert(views(r@) + comma_pieces(all.skip(from as int)) =~= before + comma_pieces(rest));
        }
        at = at + 1;
    }
    let ghost rest = all.skip(from as int);
    let ghost before = views(r@);
    proof {
        lemma_until_comma(rest, at - from);
        assert(rest.take(at - from) =~= all.subrange(from as int, at as int));
    }
    if from < at {
        r.push(s.substring_char(from, at).to_owned());
        assert(views(r@) =~= before + seq![all.subrange(from as int, at as int)]);
    }
    r
}

/// A text as shown to a developer.
pub uninterp spec fn debug_text(s: Seq<char>) -> Seq<char>;

/// `format!` with `{:?}` of a `&str`: the text as shown to a developer. Which
/// text that is rests on the given one alone.
#[verifier::external_body]
pub(crate) fn debug_str(s: &str) -> (r: String)
    ensures
        r@ == debug_text(s@),
{
    format!("{:?}", s)
}

} // verus!

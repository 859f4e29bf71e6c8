//! What the texts are, said by reading them back.

use crate::text;
use vstd::prelude::*;

verus! {

/// The number that a row of digits stands for.
pub open spec fn reading(s: Seq<char>) -> nat
    decreases s.len(),
{
    if s.len() == 0 {
        0
    } else {
        (10 * reading(s.drop_last()) + (s.last() as nat - 48)) as nat
    }
}

/// Whether a text is a row of digits, as a number is written.
pub open spec fn is_number(s: Seq<char>) -> bool {
    &&& s.len() > 0
    &&& forall|i: int| 0 <= i < s.len() ==> 48 <= (#[trigger] s[i]) as nat <= 57
    &&& s.len() > 1 ==> s[0] != '0'
}

/// Whether a text stands in another from that character on.
pub open spec fn stands_at(s: Seq<char>, i: int, part: Seq<char>) -> bool {
    &&& 0 <= i
    &&& i + part.len() <= s.len()
    &&& s.subrange(i, i + part.len()) == part
}

/// Whether a text begins with another.
pub open spec fn begins_with(s: Seq<char>, part: Seq<char>) -> bool {
    stands_at(s, 0, part)
}

/// Whether a text ends with another.
pub open spec fn ends_with(s: Seq<char>, part: Seq<char>) -> bool {
    stands_at(s, s.len() - part.len(), part)
}

/// Whether a text is made of three others, one after the other, and of nothing
/// else.
pub open spec fn reads_as(s: Seq<char>, a: Seq<char>, b: Seq<char>, c: Seq<char>) -> bool {
    &&& s.len() == a.len() + b.len() + c.len()
    &&& begins_with(s, a)
    &&& stands_at(s, a.len() as int, b)
    &&& ends_with(s, c)
}

/// Three texts, one after the other, can be told apart again.
pub proof fn lemma_reads_as(a: Seq<char>, b: Seq<char>, c: Seq<char>)
    ensures
        reads_as(a + b + c, a, b, c),
{
    let s = a + b + c;
    assert(s.subrange(0, a.len() as int) =~= a);
    assert(s.subrange(a.len() as int, (a.len() + b.len()) as int) =~= b);
    assert(s.subrange(s.len() - c.len(), s.len() as int) =~= c);
}

/// Two texts, one after the other, can be told apart again.
pub proof fn lemma_reads_as_two(a: Seq<char>, b: Seq<char>)
    ensures
        reads_as(a + b, a, b, Seq::empty()),
{
    lemma_reads_as(a, b, Seq::empty());
    assert(a + b + Seq::<char>::empty() =~= a + b);
}

/// A number in decimal is a row of digits, without leading zeros, that reads
/// back as the number.
pub proof fn law_a_decimal_reads_back(n: nat)
    ensures
        is_number(text::decimal(n)),
        reading(text::decimal(n)) == n,
        n > 0 ==> text::decimal(n)[0] != '0',
    decreases n,
{
    reveal_with_fuel(reading, 2);
    if n < 10 {
        assert(text::decimal(n).drop_last() =~= Seq::empty());
    } else {
        let front = text::decimal(n / 10);
        law_a_decimal_reads_back(n / 10);
        assert(text::decimal(n).drop_last() =~= front);
        assert(text::decimal(n)[0] == front[0]);
    }
}

/// Different numbers are written differently.
pub proof fn law_decimals_differ(a: nat, b: nat)
    ensures
        text::decimal(a) == text::decimal(b) <==> a == b,
{
    law_a_decimal_reads_back(a);
    law_a_decimal_reads_back(b);
}

/// An integer is written with a sign exactly where it is negative, and without
/// the sign reads back as its magnitude.
pub proof fn law_a_signed_decimal_reads_back(n: int)
    ensures
        n >= 0 ==> is_number(text::signed_decimal(n)) && reading(text::signed_decimal(n)) == n,
        n < 0 ==> ({
            let s = text::signed_decimal(n);
            s.len() > 0 && s[0] == '-' && is_number(s.skip(1)) && reading(s.skip(1)) == -n
        }),
{
    if n < 0 {
        reveal_strlit("-");
        law_a_decimal_reads_back((-n) as nat);
        assert(text::signed_decimal(n).skip(1) =~= text::decimal((-n) as nat));
    } else {
        law_a_decimal_reads_back(n as nat);
    }
}

/// Different integers are written differently.
pub proof fn law_signed_decimals_differ(a: int, b: int)
    ensures
        text::signed_decimal(a) == text::signed_decimal(b) <==> a == b,
{
    law_a_signed_decimal_reads_back(a);
    law_a_signed_decimal_reads_back(b);
}

/// A padded text begins with the text, goes on with spaces alone, and is as
/// wide as asked, or as the text where that is wider.
pub proof fn law_padding_adds_spaces_only(s: Seq<char>, width: nat)
    ensures
        begins_with(text::padded(s, width), s),
        text::padded(s, width).len() == (if s.len() > width {
            s.len()
        } else {
            width
        }),
        forall|i: int|
            s.len() <= i < text::padded(s, width).len() ==> #[trigger] text::padded(s, width)[i]
                == ' ',
{
    assert(text::padded(s, width).subrange(0, s.len() as int) =~= s);
}

/// A text whose bytes fit is shown whole, with spaces behind it; of any other
/// the front is shown, as much as leaves room for three dots, and then these.
pub proof fn law_a_cell_shows_the_text(s: Seq<char>, width: nat)
    requires
        width >= 3,
    ensures
        text::byte_len(s) <= width ==> text::cell(s, width) == text::padded(s, width),
        text::byte_len(s) > width ==> ({
            let kept = text::cell(s, width).len() - 3;
            &&& 0 <= kept < s.len()
            &&& ends_with(text::cell(s, width), seq!['.', '.', '.'])
            &&& begins_with(text::cell(s, width), s.take(kept))
            &&& text::byte_len(s.take(kept)) <= width - 3
            &&& text::byte_len(s.take(kept + 1)) > width - 3
        }),
{
    reveal_strlit("...");
    if text::byte_len(s) > width {
        text::law_a_cut_is_the_longest(s, width - 3);
        let kept = text::fitting(s, width - 3) as int;
        let c = text::cell(s, width);
        assert(s.take(s.len() as int) =~= s);
        assert(c.subrange(c.len() - 3, c.len() as int) =~= seq!['.', '.', '.']);
        assert(c.subrange(0, kept) =~= s.take(kept));
    }
}

/// Whether a text is white space alone.
pub open spec fn all_white(s: Seq<char>) -> bool {
    forall|i: int| 0 <= i < s.len() ==> text::white(#[trigger] s[i])
}

proof fn lemma_start_trimmed(a: Seq<char>, m: Seq<char>)
    requires
        all_white(a),
        m.len() > 0 ==> !text::white(m[0]),
    ensures
        text::trimmed_start(a + m) == m,
    decreases a.len(),
{
    if a.len() == 0 {
        assert(a + m =~= m);
    } else {
        assert((a + m)[0] == a[0]);
        assert((a + m).drop_first() =~= a.drop_first() + m);
        lemma_start_trimmed(a.drop_first(), m);
    }
}

proof fn lemma_end_trimmed(m: Seq<char>, b: Seq<char>)
    requires
        all_white(b),
        m.len() > 0 ==> !text::white(m.last()),
    ensures
        text::trimmed_end(m + b) == m,
    decreases b.len(),
{
    if b.len() == 0 {
        assert(m + b =~= m);
    } else {
        assert((m + b).last() == b.last());
        assert((m + b).drop_last() =~= m + b.drop_last());
        lemma_end_trimmed(m, b.drop_last());
    }
}

/// Trimming takes the white space off both ends, and nothing else.
pub proof fn law_trimming_takes_the_ends_off(a: Seq<char>, m: Seq<char>, b: Seq<char>)
    requires
        all_white(a),
        all_white(b),
        m.len() > 0 ==> !text::white(m[0]) && !text::white(m.last()),
    ensures
        text::trimmed(a + m + b) == m,
{
    if m.len() == 0 {
        assert(a + m + b =~= (a + b) + m);
        lemma_start_trimmed(a + b, m);
    } else {
        assert(a + m + b =~= a + (m + b));
        assert((m + b)[0] == m[0]);
        lemma_start_trimmed(a, m + b);
        lemma_end_trimmed(m, b);
    }
}

/// A text without commas is its only piece, unless it is empty.
pub proof fn law_a_text_without_commas_is_one_piece(s: Seq<char>)
    requires
        !s.contains(','),
    ensures
        text::comma_pieces(s) == (if s.len() == 0 {
            Seq::<Seq<char>>::empty()
        } else {
            seq![s]
        }),
{
    assert forall|i: int| 0 <= i < s.len() implies s[i] != ',' by {
        assert(s.contains(s[i]));
    }
    text::lemma_until_comma(s, s.len() as int);
    assert(s.take(s.len() as int) =~= s);
}

/// The pieces of two texts with a comma between them are those of the one and
/// then those of the other.
pub proof fn law_a_comma_parts_the_pieces(a: Seq<char>, b: Seq<char>)
    ensures
        text::comma_pieces(a + seq![','] + b) == text::comma_pieces(a) + text::comma_pieces(b),
    decreases a.len(),
{
    let s = a + seq![','] + b;
    if a.contains(',') {
        let n = text::until_comma(a) as int;
        lemma_first_comma(a);
        text::lemma_until_comma(s, n);
        assert(s.take(n) =~= a.take(n));
        let rest = a.skip(n + 1);
        assert(s.skip(n + 1) =~= rest + seq![','] + b);
        law_a_comma_parts_the_pieces(rest, b);
        assert(text::comma_pieces(s) =~= text::comma_pieces(a) + text::comma_pieces(b));
    } else {
        law_a_text_without_commas_is_one_piece(a);
        assert forall|i: int| 0 <= i < a.len() implies s[i] != ',' by {
            assert(a.contains(a[i]));
        }
        text::lemma_until_comma(s, a.len() as int);
        assert(s.take(a.len() as int) =~= a);
        assert(s.skip(a.len() as int + 1) =~= b);
        assert(text::comma_pieces(s) =~= text::comma_pieces(a) + text::comma_pieces(b));
    }
}

/// Where the first comma stands.
proof fn lemma_first_comma(s: Seq<char>)
    requires
        s.contains(','),
    ensures
        text::until_comma(s) < s.len(),
        s[text::until_comma(s) as int] == ',',
        forall|i: int| 0 <= i < text::until_comma(s) ==> s[i] != ',',
    decreases s.len(),
{
    if s.len() > 0 && s[0] != ',' {
        let rest = s.drop_first();
        let i = choose|i: int| 0 <= i < s.len() && s[i] == ',';
        assert(rest[i - 1] == ',');
        lemma_first_comma(rest);
        assert forall|i: int| 0 <= i < text::until_comma(s) implies s[i] != ',' by {
            if i > 0 {
                assert(rest[i - 1] == s[i]);
            }
        }
    }
}

/// The texts of a list are those of its strings, each at its place.
pub proof fn law_texts_are_those_of_the_strings(v: Seq<String>, i: int)
    ensures
        text::views(v).len() == v.len(),
        0 <= i < v.len() ==> text::views(v)[i] == v[i]@,
{
}

} // verus!

//! Filter directives of the log: which texts are directives, and which can be
//! looked at for one at all.

use crate::text;
use vstd::prelude::*;
use vstd::string::*;
use vstd::utf8::*;

verus! {

/// Why a text is no filter directive, or nothing where it is one.
pub uninterp spec fn directive_problem(text: Seq<char>) -> Option<Seq<char>>;

/// How far the parser of directives has come in a text. It looks at the text
/// without the white space at its ends, counts the bytes that it has read, and
/// cuts the whole text at such counts, as if there were no white space at its
/// start.
pub enum Scan {
    /// At the first character.
    Start,
    /// In a level, or the name of a target.
    Name,
    /// In the name of a span, from that byte on.
    Span { from: int },
    /// In a field of a span, from that byte on.
    Field { from: int },
    /// Behind a field.
    Fields,
    /// Behind a span.
    Target,
    /// In a level, from that byte on, behind the sign of that index.
    Level { from: int, sign: int },
    /// Behind an error.
    Stopped,
    /// At a cut within a character: the parser panics.
    Within,
}

/// Whether the text can be cut at that byte: it lies between two characters.
pub open spec fn between(s: Seq<char>, at: int) -> bool {
    is_char_boundary(encode_utf8(s), at)
}

/// How far the parser has come once it has read the character of that index.
pub open spec fn read(s: Seq<char>, state: Scan, k: int) -> Scan {
    let c = text::trimmed(s)[k];
    let at = text::byte_len(text::trimmed(s).take(k)) as int;
    match state {
        Scan::Start => if c == '[' {
            Scan::Span { from: at + 1 }
        } else if directive_problem(seq![c]) is Some {
            Scan::Stopped
        } else {
            Scan::Name
        },
        Scan::Name => if c != '=' && c != '[' {
            state
        } else if !between(s, at) {
            Scan::Within
        } else if c == '=' {
            Scan::Level { from: at + 1, sign: k }
        } else {
            Scan::Span { from: at + 1 }
        },
        Scan::Span { from } => if c != ']' && c != '{' {
            state
        } else if !between(s, from) || !between(s, at) {
            Scan::Within
        } else if c == ']' {
            Scan::Target
        } else {
            Scan::Field { from: at + 1 }
        },
        Scan::Field { from } => if c != '}' {
            state
        } else if !between(s, from) || !between(s, at) {
            Scan::Within
        } else if from == at {
            Scan::Stopped
        } else {
            Scan::Fields
        },
        Scan::Fields => if c == ']' {
            Scan::Target
        } else {
            Scan::Stopped
        },
        Scan::Target => if c == '=' {
            Scan::Level { from: at + 1, sign: k }
        } else {
            Scan::Stopped
        },
        _ => state,
    }
}

/// How far the parser has come once it has read the first `k` characters of a
/// text without commas.
pub open spec fn scan(s: Seq<char>, k: nat) -> Scan
    decreases k,
{
    if k == 0 {
        Scan::Start
    } else {
        read(s, scan(s, (k - 1) as nat), k - 1)
    }
}

/// Whether a text without commas can be looked at for a directive: the parser
/// never cuts it within a character. The last cut stands before the level; it
/// is not made where the field before it is refused, and that shows in the
/// text before the sign.
pub open spec fn can_be_cut(s: Seq<char>) -> bool
    decreases s.len(),
{
    match scan(s, text::trimmed(s).len()) {
        Scan::Within => false,
        Scan::Level { from, sign } => {
            let before = s.take(text::lead(s) + sign);
            between(s, from) || if before.len() < s.len() {
                can_be_cut(before) && directive_problem(before) is Some
            } else {
                false
            }
        },
        _ => true,
    }
}

/// `Directive::from_str` of `tracing_subscriber`: nothing where the text is a
/// filter directive, else the text of the error. Which of them comes rests on
/// the text alone. The call panics where it cuts the text within a character;
/// `Scan` follows it up to there, for texts without commas. What begins a
/// directive, and which fields are refused, is said by the call itself, on the
/// first character and on the text before the last sign.
#[verifier::external_body]
pub(crate) fn parse_directive(text: &str) -> (r: Option<String>)
    requires
        !text@.contains(','),
        can_be_cut(text@),
    ensures
        match r {
            Some(problem) => directive_problem(text@) == Some(problem@),
            None => directive_problem(text@) is None,
        },
{
    match text.parse::<tracing_subscriber::filter::Directive>() {
        Ok(_) => None,
        Err(e) => Some(e.to_string()),
    }
}

/// How far the parser has come, while a text is looked at.
enum At {
    Start,
    Name,
    Span { from: usize },
    Field { from: usize },
    Fields,
    Target,
    Level { from: usize, sign: usize },
    Stopped,
}

spec fn scan_of(at: At) -> Scan {
    match at {
        At::Start => Scan::Start,
        At::Name => Scan::Name,
        At::Span { from } => Scan::Span { from: from as int },
        At::Field { from } => Scan::Field { from: from as int },
        At::Fields => Scan::Fields,
        At::Target => Scan::Target,
        At::Level { from, sign } => Scan::Level { from: from as int, sign: sign as int },
        At::Stopped => Scan::Stopped,
    }
}

proof fn lemma_within_stays(s: Seq<char>, k: nat, n: nat)
    requires
        k <= n,
        scan(s, k) is Within,
    ensures
        scan(s, n) is Within,
    decreases n - k,
{
    if k < n {
        lemma_within_stays(s, k + 1, n);
    }
}

/// One character that is not white can be looked at.
proof fn lemma_one_can_be_cut(c: char)
    requires
        !text::white(c),
    ensures
        can_be_cut(seq![c]),
{
    let s = seq![c];
    assert(s.last() == c);
    assert(text::trimmed(s) =~= s);
    reveal_with_fuel(scan, 2);
}

/// Takes the parser one character further, which stands at that byte; gives
/// nothing where it cuts within a character.
fn read_on(s: &str, t: &str, state: At, k: usize, c: char, at: usize) -> (r: Option<At>)
    requires
        t@ == text::trimmed(s@),
        !s@.contains(','),
        k < t@.len(),
        c == t@[k as int],
        at == text::byte_len(t@.take(k as int)),
        at < usize::MAX,
        state is Start ==> k == 0,
    ensures
        match r {
            Some(next) => scan_of(next) == read(s@, scan_of(state), k as int) && !(next is Start),
            None => read(s@, scan_of(state), k as int) is Within,
        },
{
    match state {
        At::Start => if c == '[' {
            Some(At::Span { from: at + 1 })
        } else {
            let first = t.substring_char(k, k + 1);
            proof {
                text::lemma_trimmed(s@);
                assert(first@ =~= seq![c]);
                assert(s@[text::lead(s@) + k] == c);
                lemma_one_can_be_cut(c);
            }
            match parse_directive(first) {
                Some(_) => Some(At::Stopped),
                None => Some(At::Name),
            }
        },
        At::Name => if c != '=' && c != '[' {
            Some(At::Name)
        } else if !s.is_char_boundary(at) {
            None
        } else if c == '=' {
            Some(At::Level { from: at + 1, sign: k })
        } else {
            Some(At::Span { from: at + 1 })
        },
        At::Span { from } => if c != ']' && c != '{' {
            Some(At::Span { from })
        } else if !s.is_char_boundary(from) || !s.is_char_boundary(at) {
            None
        } else if c == ']' {
            Some(At::Target)
        } else {
            Some(At::Field { from: at + 1 })
        },
        At::Field { from } => if c != '}' {
            Some(At::Field { from })
        } else if !s.is_char_boundary(from) || !s.is_char_boundary(at) {
            None
        } else if from == at {
            Some(At::Stopped)
        } else {
            Some(At::Fields)
        },
        At::Fields => if c == ']' {
            Some(At::Target)
        } else {
            Some(At::Stopped)
        },
        At::Target => if c == '=' {
            Some(At::Level { from: at + 1, sign: k })
        } else {
            Some(At::Stopped)
        },
        At::Level { from, sign } => Some(At::Level { from, sign }),
        At::Stopped => Some(At::Stopped),
    }
}

/// Tells whether a text without commas can be looked at for a directive.
pub(crate) fn cuts_between_characters(s: &str) -> (b: bool)
    requires
        !s@.contains(','),
    ensures
        b == can_be_cut(s@),
    decreases s@.len(),
{
    let ghost all = s@;
    let trimmed = text::trim(s);
    let t = trimmed.as_str();
    let chars = text::characters(t);
    let size: usize = t.as_bytes().len();
    let mut state = At::Start;
    let mut at: usize = 0;
    let mut k: usize = 0;
    assert(t@.take(0) =~= Seq::empty());
    while k < chars.len()
        invariant
            all == s@,
            !all.contains(','),
            t@ == text::trimmed(all),
            chars@ == t@,
            k <= t@.len(),
            size == text::byte_len(t@),
            at == text::byte_len(t@.take(k as int)),
            scan_of(state) == scan(all, k as nat),
            state is Start ==> k == 0,
            scan_of(state) matches Scan::Level { sign, .. } ==> 0 <= sign < k,
        decreases t@.len() - k,
    {
        let c = chars[k];
        proof {
            let next = t@.take(k + 1);
            assert(next =~= t@.take(k as int) + seq![t@[k as int]]);
            text::lemma_byte_len_add(t@.take(k as int), seq![t@[k as int]]);
            assert(t@ =~= next + t@.skip(k + 1));
            text::lemma_byte_len_add(next, t@.skip(k + 1));
            reveal_with_fuel(encode_utf8, 2);
            text::lemma_char_bytes(t@[k as int]);
        }
        match read_on(s, t, state, k, c, at) {
            Some(next) => {
                state = next;
            },
            None => {
                proof {
                    lemma_within_stays(all, (k + 1) as nat, t@.len());
                }
                return false;
            },
        }
        at = at + text::char_width(c);
        k = k + 1;
    }
    match state {
        At::Level { from, sign } => if s.is_char_boundary(from) {
            true
        } else {
            let whole = text::characters(s);
            let lead: usize = text::count_lead(&whole);
            proof {
                text::lemma_trimmed(all);
                assert(lead + sign < whole.len());
            }
            let before = s.substring_char(0, lead + sign);
            proof {
                assert(before@ =~= all.take(text::lead(all) + sign));
                assert forall|c: char| before@.contains(c) implies all.contains(c) by {
                    let i = choose|i: int| 0 <= i < before@.len() && before@[i] == c;
                    assert(all[i] == c);
                }
            }
            cuts_between_characters(before) && parse_directive(before).is_some()
        },
        _ => true,
    }
}

/// The end of every character lies on a boundary.
proof fn lemma_boundary(s: Seq<char>, k: int)
    requires
        0 <= k <= s.len(),
    ensures
        between(s, text::byte_len(s.take(k)) as int),
    decreases k,
{
    encode_utf8_valid_utf8(s);
    if k == 0 {
        assert(s.take(0) =~= Seq::empty());
    } else {
        encode_utf8_first_scalar(s);
        let rest = s.drop_first();
        lemma_boundary(rest, k - 1);
        assert(s.take(k).drop_first() =~= rest.take(k - 1));
        assert(s.take(k)[0] == s[0]);
        text::lemma_char_bytes(s[0]);
        assert(pop_first_scalar(encode_utf8(s)) =~= encode_utf8(rest));
        assert(s =~= s.take(k) + s.skip(k));
        text::lemma_byte_len_add(s.take(k), s.skip(k));
    }
}

/// Without white space at the start every cut lies between two characters.
proof fn lemma_no_lead(s: Seq<char>, k: nat)
    requires
        text::lead(s) == 0,
        k <= text::trimmed(s).len(),
    ensures
        !(scan(s, k) is Within),
        scan(s, k) matches Scan::Span { from } ==> between(s, from),
        scan(s, k) matches Scan::Field { from } ==> between(s, from),
        scan(s, k) matches Scan::Level { from, .. } ==> between(s, from),
    decreases k,
{
    if k > 0 {
        let j = k - 1;
        let t = text::trimmed(s);
        lemma_no_lead(s, j as nat);
        text::lemma_trimmed(s);
        assert(t.take(j) =~= s.take(j));
        lemma_boundary(s, j);
        lemma_boundary(s, j + 1);
        assert(s.take(j + 1) =~= s.take(j) + seq![s[j]]);
        text::lemma_byte_len_add(s.take(j), seq![s[j]]);
        reveal_with_fuel(encode_utf8, 2);
        text::lemma_char_bytes(s[j]);
    }
}

/// A text that does not begin with white space can always be looked at for a
/// directive.
pub proof fn law_no_lead_can_be_cut(s: Seq<char>)
    requires
        s.len() > 0 ==> !text::white(s[0]),
    ensures
        can_be_cut(s),
{
    lemma_no_lead(s, text::trimmed(s).len());
}

/// Whether a text is made of ASCII characters alone.
pub open spec fn is_ascii(s: Seq<char>) -> bool {
    forall|i: int| 0 <= i < s.len() ==> (#[trigger] s[i]) as u32 <= 0x7f
}

proof fn lemma_ascii_bytes(s: Seq<char>)
    requires
        is_ascii(s),
    ensures
        text::byte_len(s) == s.len(),
    decreases s.len(),
{
    if s.len() > 0 {
        text::lemma_char_bytes(s[0]);
        let rest = s.drop_first();
        assert forall|i: int| 0 <= i < rest.len() implies (#[trigger] rest[i]) as u32 <= 0x7f by {
            assert(rest[i] == s[i + 1]);
        }
        lemma_ascii_bytes(rest);
    }
}

/// An ASCII text can be cut at any byte.
proof fn lemma_ascii_boundary(s: Seq<char>, k: int)
    requires
        is_ascii(s),
        0 <= k <= s.len(),
    ensures
        between(s, k),
{
    lemma_boundary(s, k);
    lemma_ascii_bytes(s.take(k));
}

proof fn lemma_ascii_scan(s: Seq<char>, k: nat)
    requires
        is_ascii(s),
        k <= text::trimmed(s).len(),
    ensures
        !(scan(s, k) is Within),
        scan(s, k) matches Scan::Span { from } ==> 0 <= from <= k,
        scan(s, k) matches Scan::Field { from } ==> 0 <= from <= k,
        scan(s, k) matches Scan::Level { from, .. } ==> 0 <= from <= k,
    decreases k,
{
    if k > 0 {
        let j = k - 1;
        let t = text::trimmed(s);
        lemma_ascii_scan(s, j as nat);
        text::lemma_trimmed(s);
        let front = t.take(j);
        assert forall|i: int| 0 <= i < front.len() implies (#[trigger] front[i]) as u32 <= 0x7f by {
            assert(front[i] == s[text::lead(s) + i]);
        }
        lemma_ascii_bytes(front);
        lemma_ascii_boundary(s, j);
        match scan(s, j as nat) {
            Scan::Span { from } => lemma_ascii_boundary(s, from),
            Scan::Field { from } => lemma_ascii_boundary(s, from),
            _ => {},
        }
    }
}

/// An ASCII text can always be looked at for a directive, with white space at
/// its start or not.
pub proof fn law_ascii_can_be_cut(s: Seq<char>)
    requires
        is_ascii(s),
    ensures
        can_be_cut(s),
{
    let n = text::trimmed(s).len();
    lemma_ascii_scan(s, n);
    text::lemma_trimmed(s);
    match scan(s, n) {
        Scan::Level { from, .. } => lemma_ascii_boundary(s, from),
        _ => {},
    }
}

proof fn lemma_in_name(s: Seq<char>, k: nat)
    requires
        1 <= k <= text::trimmed(s).len(),
        text::trimmed(s)[0] != '[',
        directive_problem(seq![text::trimmed(s)[0]]) is None,
        forall|i: int|
            1 <= i < k ==> (#[trigger] text::trimmed(s)[i]) != '=' && text::trimmed(s)[i] != '[',
    ensures
        scan(s, k) == Scan::Name,
    decreases k,
{
    if k > 1 {
        lemma_in_name(s, (k - 1) as nat);
    } else {
        assert(scan(s, 0) == Scan::Start);
    }
}

/// A text cannot be looked at where the name in it ends, by the count of its
/// bytes, within a character of the whole text, which white space at the start
/// brings about.
pub proof fn law_a_name_that_ends_within_a_character(s: Seq<char>, k: int)
    requires
        1 <= k < text::trimmed(s).len(),
        text::trimmed(s)[0] != '[',
        directive_problem(seq![text::trimmed(s)[0]]) is None,
        forall|i: int|
            1 <= i < k ==> (#[trigger] text::trimmed(s)[i]) != '=' && text::trimmed(s)[i] != '[',
        text::trimmed(s)[k] == '=' || text::trimmed(s)[k] == '[',
        !between(s, text::byte_len(text::trimmed(s).take(k)) as int),
    ensures
        !can_be_cut(s),
{
    lemma_in_name(s, k as nat);
    assert(scan(s, (k + 1) as nat) is Within);
    lemma_within_stays(s, (k + 1) as nat, text::trimmed(s).len());
}

} // verus!

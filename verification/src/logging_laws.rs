//! What a plan of the log holds, read off its directives and warnings.

use crate::directives;
use crate::logging;
use crate::logging::LogPlan;
use crate::text;
use crate::text_laws;
use vstd::prelude::*;

verus! {

/// The texts that are used are those of one part of a list and then those of
/// the other; of a single text it is the text itself, where it has no problem.
pub proof fn law_texts_are_used_in_order(
    a: Seq<Seq<char>>,
    b: Seq<Seq<char>>,
    p: Seq<Option<Seq<char>>>,
    q: Seq<Option<Seq<char>>>,
    piece: Seq<char>,
    problem: Seq<char>,
)
    requires
        a.len() == p.len(),
        b.len() == q.len(),
    ensures
        logging::accepted(a + b, p + q) == logging::accepted(a, p) + logging::accepted(b, q),
        logging::accepted(seq![piece], seq![None]) == seq![piece],
        logging::accepted(seq![piece], seq![Some(problem)]).len() == 0,
    decreases b.len(),
{
    reveal_with_fuel(logging::accepted, 2);
    assert(seq![piece].drop_last() =~= Seq::<Seq<char>>::empty());
    assert(logging::accepted(seq![piece], seq![None]) =~= seq![piece]);
    if b.len() == 0 {
        assert(a + b =~= a);
        assert(p + q =~= p);
        assert(logging::accepted(a, p) + logging::accepted(b, q) =~= logging::accepted(a, p));
    } else {
        assert((a + b).drop_last() =~= a + b.drop_last());
        assert((p + q).drop_last() =~= p + q.drop_last());
        law_texts_are_used_in_order(a, b.drop_last(), p, q.drop_last(), piece, problem);
        assert(logging::accepted(a + b, p + q) =~= logging::accepted(a, p) + logging::accepted(
            b,
            q,
        ));
    }
}

/// Whether the warning is of the text, and gives the problem.
pub open spec fn warns(warning: Seq<char>, piece: Seq<char>, problem: Seq<char>) -> bool {
    text_laws::reads_as(
        warning,
        "warning: invalid log directive '"@,
        piece,
        "': "@ + problem,
    )
}

/// The texts that are warned of are those of one part of a list and then those
/// of the other; of a single text with a problem the warning holds both the
/// text and the problem, whole.
pub proof fn law_texts_are_warned_of_in_order(
    a: Seq<Seq<char>>,
    b: Seq<Seq<char>>,
    p: Seq<Option<Seq<char>>>,
    q: Seq<Option<Seq<char>>>,
    piece: Seq<char>,
    problem: Seq<char>,
)
    requires
        a.len() == p.len(),
        b.len() == q.len(),
    ensures
        logging::rejections(a + b, p + q) == logging::rejections(a, p) + logging::rejections(b, q),
        logging::rejections(seq![piece], seq![None]).len() == 0,
        ({
            let said = logging::rejections(seq![piece], seq![Some(problem)]);
            said.len() == 1 && warns(said[0], piece, problem)
        }),
    decreases b.len(),
{
    reveal_with_fuel(logging::rejections, 2);
    assert(seq![piece].drop_last() =~= Seq::<Seq<char>>::empty());
    lemma_warns(piece, problem);
    if b.len() == 0 {
        assert(a + b =~= a);
        assert(p + q =~= p);
        assert(logging::rejections(a, p) + logging::rejections(b, q) =~= logging::rejections(a, p));
    } else {
        assert((a + b).drop_last() =~= a + b.drop_last());
        assert((p + q).drop_last() =~= p + q.drop_last());
        law_texts_are_warned_of_in_order(a, b.drop_last(), p, q.drop_last(), piece, problem);
        assert(logging::rejections(a + b, p + q) =~= logging::rejections(a, p)
            + logging::rejections(b, q));
    }
}

proof fn lemma_warns(piece: Seq<char>, problem: Seq<char>)
    ensures
        warns(logging::rejection(piece, problem), piece, problem),
{
    let a = "warning: invalid log directive '"@;
    text_laws::lemma_reads_as(a, piece, "': "@ + problem);
    assert(logging::rejection(piece, problem) =~= a + piece + ("': "@ + problem));
}

/// What the user named stands among the directives as it is, in one block:
/// behind those that hold in any case, which are the same with it and without
/// it, and before the one for debugging, if that is there.
pub proof fn law_named_directives_stand_together(
    windows: bool,
    named: Seq<Seq<char>>,
    debug: bool,
)
    ensures
        ({
            let all = logging::all_directives(windows, named, debug);
            let base = logging::all_directives(windows, Seq::empty(), false);
            let n = base.len() as int;
            &&& all.len() == n + named.len() + (if debug {
                1
            } else {
                0int
            })
            &&& all.take(n) == base
            &&& all.subrange(n, n + named.len()) == named
            &&& debug ==> all.last() == "screenpipe=debug"@
        }),
{
    let all = logging::all_directives(windows, named, debug);
    let base = logging::all_directives(windows, Seq::empty(), false);
    let n = base.len() as int;
    assert(all.take(n) =~= base);
    assert(all.subrange(n, n + named.len()) =~= named);
}

/// Only Windows has directives besides, and these come right behind those that
/// hold on every system.
pub proof fn law_windows_has_more_directives(named: Seq<Seq<char>>, debug: bool)
    ensures
        ({
            let here = logging::all_directives(true, named, debug);
            let there = logging::all_directives(false, named, debug);
            let n = there.len() - named.len() - (if debug {
                1
            } else {
                0int
            });
            &&& here.len() > there.len()
            &&& here.take(n) == there.take(n)
            &&& here.skip(n + here.len() - there.len()) == there.skip(n)
            &&& forall|i: int|
                n <= i < n + here.len() - there.len() ==> text_laws::ends_with(
                    #[trigger] here[i],
                    "=off"@,
                )
        }),
{
    let here = logging::all_directives(true, named, debug);
    let there = logging::all_directives(false, named, debug);
    let n = logging::standard_directives().len() as int;
    let m = logging::windows_directives().len() as int;
    assert(here.take(n) =~= there.take(n));
    assert(here.skip(n + m) =~= there.skip(n));
    lemma_off();
    assert forall|i: int| n <= i < n + m implies text_laws::ends_with(
        #[trigger] here[i],
        "=off"@,
    ) by {
        assert(here[i] == logging::windows_directives()[i - n]);
    }
}

proof fn lemma_off()
    ensures
        text_laws::ends_with("xcap::platform::impl_window=off"@, "=off"@),
        text_laws::ends_with("xcap::platform::impl_monitor=off"@, "=off"@),
        text_laws::ends_with("xcap::platform::utils=off"@, "=off"@),
{
    reveal_strlit("=off");
    reveal_strlit("xcap::platform::impl_window=off");
    reveal_strlit("xcap::platform::impl_monitor=off");
    reveal_strlit("xcap::platform::utils=off");
    let a = "xcap::platform::impl_window=off"@;
    let b = "xcap::platform::impl_monitor=off"@;
    let c = "xcap::platform::utils=off"@;
    assert(a.subrange(a.len() - 4, a.len() as int) =~= "=off"@);
    assert(b.subrange(b.len() - 4, b.len() as int) =~= "=off"@);
    assert(c.subrange(c.len() - 4, c.len() as int) =~= "=off"@);
}

/// Errors are sent as telemetry exactly where the user did not disable that,
/// and nothing else in a plan rests on it.
pub proof fn law_telemetry_rests_on_its_flag(
    a: LogPlan,
    b: LogPlan,
    named: Option<String>,
    windows: bool,
    debug: bool,
)
    requires
        logging::is_plan(a, named, windows, debug, true),
        logging::is_plan(b, named, windows, debug, false),
    ensures
        !a.telemetry,
        b.telemetry,
        text::views(a.directives@) == text::views(b.directives@),
        text::views(a.warnings@) == text::views(b.warnings@),
{
}

/// A user who names nothing gets no warning, and the directives that hold in
/// any case.
pub proof fn law_naming_nothing_adds_nothing(
    plan: LogPlan,
    windows: bool,
    debug: bool,
    disable_telemetry: bool,
)
    requires
        logging::is_plan(plan, None, windows, debug, disable_telemetry),
    ensures
        plan.warnings@.len() == 0,
        text::views(plan.directives@) == logging::all_directives(windows, Seq::empty(), debug),
{
    assert(text::views(plan.warnings@).len() == plan.warnings@.len());
}

/// One text without commas that is a directive is used as it is, without a
/// warning; one that is none is warned of, with its problem, and not used.
pub proof fn law_one_text_is_used_or_warned_of(
    plan: LogPlan,
    value: String,
    windows: bool,
    debug: bool,
    disable_telemetry: bool,
)
    requires
        logging::is_plan(plan, Some(value), windows, debug, disable_telemetry),
        value@.len() > 0,
        !value@.contains(','),
    ensures
        match directives::directive_problem(value@) {
            None => {
                &&& text::views(plan.directives@) == logging::all_directives(
                    windows,
                    seq![value@],
                    debug,
                )
                &&& plan.warnings@.len() == 0
            },
            Some(problem) => {
                &&& text::views(plan.directives@) == logging::all_directives(
                    windows,
                    Seq::empty(),
                    debug,
                )
                &&& plan.warnings@.len() == 1
                &&& warns(plan.warnings@[0]@, value@, problem)
            },
        },
{
    let none = Seq::<Seq<char>>::empty();
    let pieces = seq![value@];
    let problem = directives::directive_problem(value@);
    text_laws::law_a_text_without_commas_is_one_piece(value@);
    assert(logging::problems_of(pieces) =~= seq![problem]);
    let unsaid = Seq::<Option<Seq<char>>>::empty();
    let why = match problem {
        Some(problem) => problem,
        None => value@,
    };
    law_texts_are_used_in_order(none, none, unsaid, unsaid, value@, why);
    law_texts_are_warned_of_in_order(none, none, unsaid, unsaid, value@, why);
    let said = text::views(plan.warnings@);
    assert(said.len() == plan.warnings@.len());
    if problem is Some {
        assert(logging::accepted(pieces, seq![problem]) =~= none);
        assert(said[0] == plan.warnings@[0]@);
    }
}

/// What is said between two commas does not change what is made of the rest:
/// of two texts with a comma between them, the directives and the warnings of
/// the one come first, and then those of the other.
pub proof fn law_a_comma_parts_the_directives(a: Seq<char>, b: Seq<char>)
    ensures
        ({
            let used = |s: Seq<char>|
                logging::accepted(
                    text::comma_pieces(s),
                    logging::problems_of(text::comma_pieces(s)),
                );
            used(a + seq![','] + b) == used(a) + used(b)
        }),
        ({
            let said = |s: Seq<char>|
                logging::rejections(
                    text::comma_pieces(s),
                    logging::problems_of(text::comma_pieces(s)),
                );
            said(a + seq![','] + b) == said(a) + said(b)
        }),
{
    let x = text::comma_pieces(a);
    let y = text::comma_pieces(b);
    text_laws::law_a_comma_parts_the_pieces(a, b);
    let p = logging::problems_of(x);
    let q = logging::problems_of(y);
    assert(logging::problems_of(x + y) =~= p + q);
    law_texts_are_used_in_order(x, y, p, q, a, b);
    law_texts_are_warned_of_in_order(x, y, p, q, a, b);
}

/// The directives and the warnings of two values with a comma between them are
/// those of the one and then those of the other; those that hold in any case,
/// and the one for debugging, stand there once.
pub proof fn law_values_add_up(
    x: LogPlan,
    y: LogPlan,
    both: LogPlan,
    values: (String, String, String),
    windows: bool,
    debug: bool,
    disable_telemetry: bool,
)
    requires
        values.2@ == values.0@ + seq![','] + values.1@,
        logging::is_plan(x, Some(values.0), windows, debug, disable_telemetry),
        logging::is_plan(y, Some(values.1), windows, debug, disable_telemetry),
        logging::is_plan(both, Some(values.2), windows, debug, disable_telemetry),
    ensures
        text::views(both.warnings@) == text::views(x.warnings@) + text::views(y.warnings@),
        ({
            let base = logging::all_directives(windows, Seq::empty(), false).len() as int;
            let last: int = if debug {
                1
            } else {
                0
            };
            let front = text::views(x.directives@);
            text::views(both.directives@) == front.take(front.len() - last) + text::views(
                y.directives@,
            ).skip(base)
        }),
{
    let a = values.0@;
    let b = values.1@;
    law_a_comma_parts_the_directives(a, b);
    let used = |s: Seq<char>|
        logging::accepted(text::comma_pieces(s), logging::problems_of(text::comma_pieces(s)));
    let base = logging::all_directives(windows, Seq::empty(), false).len() as int;
    let last: int = if debug {
        1
    } else {
        0
    };
    law_named_directives_stand_together(windows, used(a), debug);
    law_named_directives_stand_together(windows, used(b), debug);
    law_named_directives_stand_together(windows, used(a) + used(b), debug);
    let front = text::views(x.directives@);
    let back = text::views(y.directives@);
    assert(used(a + seq![','] + b) == used(a) + used(b));
    assert(front == logging::all_directives(windows, used(a), debug));
    assert(back == logging::all_directives(windows, used(b), debug));
    assert(text::views(both.directives@) == logging::all_directives(
        windows,
        used(a) + used(b),
        debug,
    ));
    assert(text::views(both.directives@) =~= front.take(front.len() - last) + back.skip(base));
}

/// A value can be used where none of the texts between its commas begins with
/// white space, and so can any ASCII value.
pub proof fn law_which_values_can_be_used(value: Seq<char>)
    ensures
        (forall|i: int|
            0 <= i < text::comma_pieces(value).len() ==> !text::white(
                (#[trigger] text::comma_pieces(value)[i])[0],
            )) ==> logging::pieces_can_be_cut(value),
        directives::is_ascii(value) ==> logging::pieces_can_be_cut(value),
{
    let pieces = text::comma_pieces(value);
    if forall|i: int| 0 <= i < pieces.len() ==> !text::white((#[trigger] pieces[i])[0]) {
        assert forall|i: int| 0 <= i < pieces.len() implies directives::can_be_cut(
            #[trigger] pieces[i],
        ) by {
            directives::law_no_lead_can_be_cut(pieces[i]);
        }
    }
    if directives::is_ascii(value) {
        assert forall|i: int| 0 <= i < pieces.len() implies directives::can_be_cut(
            #[trigger] pieces[i],
        ) by {
            lemma_pieces_are_ascii(value, i);
            directives::law_ascii_can_be_cut(pieces[i]);
        }
    }
}

proof fn lemma_pieces_are_ascii(s: Seq<char>, i: int)
    requires
        directives::is_ascii(s),
        0 <= i < text::comma_pieces(s).len(),
    ensures
        directives::is_ascii(text::comma_pieces(s)[i]),
    decreases s.len(),
{
    let n = text::until_comma(s) as int;
    let first: int = if n == 0 {
        0
    } else {
        1
    };
    if i < first {
        lemma_until(s);
        let piece = s.take(n);
        assert forall|j: int| 0 <= j < piece.len() implies (#[trigger] piece[j]) as u32 <= 0x7f by {
            assert(piece[j] == s[j]);
        }
    } else {
        let rest = s.skip(n + 1);
        assert forall|j: int| 0 <= j < rest.len() implies (#[trigger] rest[j]) as u32 <= 0x7f by {
            assert(rest[j] == s[n + 1 + j]);
        }
        lemma_pieces_are_ascii(rest, i - first);
    }
}

proof fn lemma_until(s: Seq<char>)
    ensures
        text::until_comma(s) <= s.len(),
    decreases s.len(),
{
    if s.len() > 0 && s[0] != ',' {
        lemma_until(s.drop_first());
    }
}

} // verus!

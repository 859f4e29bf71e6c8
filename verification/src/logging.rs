//! What is logged: the directives of the log filter, and where the log goes.

use crate::directives;
use crate::report;
use crate::text;
use vstd::prelude::*;
use vstd::string::*;

verus! {

/// How the name of a log file begins.
pub const LOG_FILE_PREFIX: &'static str = "screenpipe";

/// How the name of a log file ends.
pub const LOG_FILE_SUFFIX: &'static str = "log";

/// How many log files are kept.
pub const MAX_LOG_FILES: usize = 5;

/// How the time of an entry is written.
pub const LOG_TIME_FORMAT: &'static str = "%Y-%m-%dT%H:%M:%S%.6fZ";

/// The views of some problems.
pub open spec fn problem_views(problems: Seq<Option<String>>) -> Seq<Option<Seq<char>>> {
    problems.map_values(
        |p: Option<String>|
            match p {
                Some(problem) => Some(problem@),
                None => None,
            },
    )
}

/// The texts that have no problem.
pub open spec fn accepted(
    pieces: Seq<Seq<char>>,
    problems: Seq<Option<Seq<char>>>,
) -> Seq<Seq<char>>
    decreases pieces.len(),
{
    if pieces.len() == 0 {
        Seq::empty()
    } else {
        let before = accepted(pieces.drop_last(), problems.drop_last());
        if problems.last() is None {
            before.push(pieces.last())
        } else {
            before
        }
    }
}

/// What is said of a text that is no directive.
pub open spec fn rejection(piece: Seq<char>, problem: Seq<char>) -> Seq<char> {
    "warning: invalid log directive '"@ + piece + "': "@ + problem
}

/// What is said of the texts that have a problem.
pub open spec fn rejections(
    pieces: Seq<Seq<char>>,
    problems: Seq<Option<Seq<char>>>,
) -> Seq<Seq<char>>
    decreases pieces.len(),
{
    if pieces.len() == 0 {
        Seq::empty()
    } else {
        let before = rejections(pieces.drop_last(), problems.drop_last());
        match problems.last() {
            Some(problem) => before.push(rejection(pieces.last(), problem)),
            None => before,
        }
    }
}

/// The directives that hold in any case.
pub open spec fn standard_directives() -> Seq<Seq<char>> {
    seq![
        "tokio=debug"@,
        "runtime=debug"@,
        "info"@,
        "tokenizers=error"@,
        "rusty_tesseract=error"@,
        "symphonia=error"@,
        "hf_hub=error"@,
        "whisper_rs=error"@,
    ]
}

/// The directives that hold on Windows besides.
pub open spec fn windows_directives() -> Seq<Seq<char>> {
    seq![
        "xcap::platform::impl_window=off"@,
        "xcap::platform::impl_monitor=off"@,
        "xcap::platform::utils=off"@,
    ]
}

/// All directives, in the order in which they are added: the standard ones,
/// then those that the user named, then the one for debugging.
pub open spec fn all_directives(
    windows: bool,
    named: Seq<Seq<char>>,
    debug: bool,
) -> Seq<Seq<char>> {
    standard_directives() + (if windows {
        windows_directives()
    } else {
        Seq::empty()
    }) + named + (if debug {
        seq!["screenpipe=debug"@]
    } else {
        Seq::empty()
    })
}

/// The problems of some texts.
pub open spec fn problems_of(pieces: Seq<Seq<char>>) -> Seq<Option<Seq<char>>> {
    pieces.map_values(|p: Seq<char>| directives::directive_problem(p))
}

/// What the log is set up with: the directives of each filter, the warnings
/// to print whenever a filter is made, and whether errors are also sent as
/// telemetry.
#[derive(Debug, PartialEq, Eq)]
pub struct LogPlan {
    pub directives: Vec<String>,
    pub warnings: Vec<String>,
    pub telemetry: bool,
}

fn push_all(to: &mut Vec<String>, more: &Vec<String>)
    ensures
        text::views(final(to)@) == text::views(old(to)@) + text::views(more@),
{
    let ghost before = text::views(to@);
    let ghost added = text::views(more@);
    assert(before + added.take(0) =~= before);
    for i in 0..more.len()
        invariant
            added == text::views(more@),
            text::views(to@) == before + added.take(i as int),
    {
        let ghost had = to@;
        to.push(more[i].clone());
        assert(text::views(to@) =~= text::views(had).push(added[i as int]));
        assert(added.take(i + 1) =~= added.take(i as int).push(added[i as int]));
        assert(text::views(to@) =~= before + added.take(i + 1));
    }
    assert(added.take(more@.len() as int) =~= added);
}

fn standard() -> (r: Vec<String>)
    ensures
        text::views(r@) == standard_directives(),
{
    let r = vec![
        "tokio=debug".to_owned(),
        "runtime=debug".to_owned(),
        "info".to_owned(),
        "tokenizers=error".to_owned(),
        "rusty_tesseract=error".to_owned(),
        "symphonia=error".to_owned(),
        "hf_hub=error".to_owned(),
        "whisper_rs=error".to_owned(),
    ];
    assert(text::views(r@) =~= standard_directives());
    r
}

fn for_windows() -> (r: Vec<String>)
    ensures
        text::views(r@) == windows_directives(),
{
    let r = vec![
        "xcap::platform::impl_window=off".to_owned(),
        "xcap::platform::impl_monitor=off".to_owned(),
        "xcap::platform::utils=off".to_owned(),
    ];
    assert(text::views(r@) =~= windows_directives());
    r
}

/// Parts the texts that are directives from those that are not, given the
/// problem of each.
pub fn sift_directives(pieces: &Vec<String>, problems: &Vec<Option<String>>) -> (r: (
    Vec<String>,
    Vec<String>,
))
    requires
        pieces@.len() == problems@.len(),
    ensures
        text::views(r.0@) == accepted(text::views(pieces@), problem_views(problems@)),
        text::views(r.1@) == rejections(text::views(pieces@), problem_views(problems@)),
{
    let ghost all = text::views(pieces@);
    let ghost why = problem_views(problems@);
    let mut good: Vec<String> = Vec::new();
    let mut warnings: Vec<String> = Vec::new();
    proof {
        assert(all.take(0) =~= Seq::empty());
        assert(text::views(good@) =~= Seq::empty());
        assert(text::views(warnings@) =~= Seq::empty());
    }
    for i in 0..pieces.len()
        invariant
            pieces@.len() == problems@.len(),
            all == text::views(pieces@),
            why == problem_views(problems@),
            text::views(good@) == accepted(all.take(i as int), why.take(i as int)),
            text::views(warnings@) == rejections(all.take(i as int), why.take(i as int)),
    {
        let ghost had = good@;
        let ghost said = warnings@;
        proof {
            assert(all.take(i + 1).drop_last() =~= all.take(i as int));
            assert(why.take(i + 1).drop_last() =~= why.take(i as int));
        }
        match &problems[i] {
            Some(problem) => {
                let mut line = report::joined3(
                    "warning: invalid log directive '",
                    pieces[i].as_str(),
                    "': ",
                );
                line.append(problem.as_str());
                warnings.push(line);
                assert(text::views(warnings@) =~= text::views(said).push(
                    rejection(all[i as int], problem@),
                ));
            },
            None => {
                good.push(pieces[i].clone());
                assert(text::views(good@) =~= text::views(had).push(all[i as int]));
            },
        }
    }
    proof {
        assert(all.take(all.len() as int) =~= all);
        assert(why.take(why.len() as int) =~= why);
    }
    (good, warnings)
}

/// Puts the directives together: the standard ones, those that the user named
/// and the one for debugging.
pub fn collect_directives(windows: bool, named: &Vec<String>, debug: bool) -> (r: Vec<String>)
    ensures
        text::views(r@) == all_directives(windows, text::views(named@), debug),
{
    let mut r = standard();
    if windows {
        push_all(&mut r, &for_windows());
    }
    assert(text::views(r@) =~= standard_directives() + (if windows {
        windows_directives()
    } else {
        Seq::empty()
    }));
    push_all(&mut r, named);
    let ghost before = text::views(r@);
    if debug {
        r.push("screenpipe=debug".to_owned());
        assert(text::views(r@) =~= before + seq!["screenpipe=debug"@]);
    }
    assert(text::views(r@) =~= all_directives(windows, text::views(named@), debug));
    r
}

/// Whether a log is planned for what the user named directives with, between
/// commas, if anything: the directives and the warnings, in order, and whether
/// there is telemetry.
pub open spec fn is_plan(
    plan: LogPlan,
    named: Option<String>,
    windows: bool,
    debug: bool,
    disable_telemetry: bool,
) -> bool {
    let pieces = match named {
        Some(value) => text::comma_pieces(value@),
        None => Seq::empty(),
    };
    &&& text::views(plan.directives@) == all_directives(
        windows,
        accepted(pieces, problems_of(pieces)),
        debug,
    )
    &&& text::views(plan.warnings@) == rejections(pieces, problems_of(pieces))
    &&& plan.telemetry == !disable_telemetry
}

/// Plans the log. `named` is what the user named directives with, between
/// commas, if anything; what is no directive is left out, with a warning.
pub fn setup_logging(
    named: &Option<String>,
    windows: bool,
    debug: bool,
    disable_telemetry: bool,
) -> (r: LogPlan)
    requires
        named matches Some(value) ==> pieces_can_be_cut(value@),
    ensures
        is_plan(r, *named, windows, debug, disable_telemetry),
{
    let pieces = match named {
        Some(value) => text::split_commas(value.as_str()),
        None => Vec::new(),
    };
    let ghost all = text::views(pieces@);
    let ghost given = match named {
        Some(value) => value@,
        None => Seq::empty(),
    };
    assert(all =~= text::comma_pieces(given));
    let mut problems: Vec<Option<String>> = Vec::new();
    for i in 0..pieces.len()
        invariant
            all == text::views(pieces@),
            all == text::comma_pieces(given),
            forall|j: int| 0 <= j < all.len() ==> directives::can_be_cut(#[trigger] all[j]),
            problem_views(problems@) == problems_of(all).take(i as int),
    {
        let ghost had = problems@;
        proof {
            assert(directives::can_be_cut(all[i as int]));
            text::lemma_no_commas(given, i as int);
        }
        problems.push(directives::parse_directive(pieces[i].as_str()));
        assert(problem_views(problems@) =~= problem_views(had).push(problems_of(all)[i as int]));
        assert(problem_views(problems@) =~= problems_of(all).take(i + 1));
    }
    assert(problem_views(problems@) =~= problems_of(all));
    let (good, warnings) = sift_directives(&pieces, &problems);
    LogPlan {
        directives: collect_directives(windows, &good, debug),
        warnings,
        telemetry: !disable_telemetry,
    }
}

/// Whether each text between the commas can be looked at for a directive.
pub open spec fn pieces_can_be_cut(value: Seq<char>) -> bool {
    forall|i: int|
        0 <= i < text::comma_pieces(value).len() ==> directives::can_be_cut(
            #[trigger] text::comma_pieces(value)[i],
        )
}

/// Of the texts that the user named, each is used or warned of, and none both.
pub proof fn law_each_text_is_used_or_warned_of(
    pieces: Seq<Seq<char>>,
    problems: Seq<Option<Seq<char>>>,
)
    requires
        pieces.len() == problems.len(),
    ensures
        accepted(pieces, problems).len() + rejections(pieces, problems).len() == pieces.len(),
    decreases pieces.len(),
{
    if pieces.len() > 0 {
        law_each_text_is_used_or_warned_of(pieces.drop_last(), problems.drop_last());
    }
}

/// The directives that hold in any case come first, whatever the user named.
pub proof fn law_the_standard_directives_come_first(
    windows: bool,
    named: Seq<Seq<char>>,
    debug: bool,
)
    ensures
        standard_directives().is_prefix_of(all_directives(windows, named, debug)),
{
    let all = all_directives(windows, named, debug);
    assert(standard_directives() =~= all.subrange(0, standard_directives().len() as int));
}

/// With debugging the last directive is the one for it, so that nothing that
/// the user named is added after it.
pub proof fn law_debugging_comes_last(windows: bool, named: Seq<Seq<char>>)
    ensures
        all_directives(windows, named, true) == all_directives(windows, named, false).push(
            "screenpipe=debug"@,
        ),
{
    assert(all_directives(windows, named, true) =~= all_directives(windows, named, false).push(
        "screenpipe=debug"@,
    ));
}

/// Tells whether the log can be planned with what the user named directives
/// with.
pub fn log_value_is_usable(value: &str) -> (b: bool)
    ensures
        b == pieces_can_be_cut(value@),
{
    let pieces = text::split_commas(value);
    let ghost all = text::comma_pieces(value@);
    for i in 0..pieces.len()
        invariant
            all == text::comma_pieces(value@),
            all == text::views(pieces@),
            forall|j: int| 0 <= j < i ==> directives::can_be_cut(#[trigger] all[j]),
    {
        proof {
            text::lemma_no_commas(value@, i as int);
        }
        if !directives::cuts_between_characters(pieces[i].as_str()) {
            assert(!directives::can_be_cut(all[i as int]));
            return false;
        }
    }
    true
}

/// Plans the log where it can be planned with what the user named directives
/// with; gives nothing where it cannot.
pub fn plan_logging(
    named: &Option<String>,
    windows: bool,
    debug: bool,
    disable_telemetry: bool,
) -> (r: Option<LogPlan>)
    ensures
        match r {
            Some(plan) => is_plan(plan, *named, windows, debug, disable_telemetry),
            None => named matches Some(value) && !pieces_can_be_cut(value@),
        },
{
    match named {
        Some(value) => if !log_value_is_usable(value.as_str()) {
            return None;
        },
        None => {},
    }
    Some(setup_logging(named, windows, debug, disable_telemetry))
}

} // verus!

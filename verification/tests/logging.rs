use screenpipe_cli::logging::{
    collect_directives, log_value_is_usable, plan_logging, setup_logging, sift_directives, LOG_FILE_PREFIX,
    LOG_FILE_SUFFIX, LOG_TIME_FORMAT, MAX_LOG_FILES,
};
use tracing_subscriber::filter::Directive;

const STANDARD: [&str; 8] = [
    "tokio=debug",
    "runtime=debug",
    "info",
    "tokenizers=error",
    "rusty_tesseract=error",
    "symphonia=error",
    "hf_hub=error",
    "whisper_rs=error",
];

fn text(s: &str) -> String {
    s.to_string()
}

#[test]
fn the_standard_directives_always_hold() {
    let plan = setup_logging(&None, false, false, false);
    assert_eq!(plan.directives, STANDARD);
    assert!(plan.warnings.is_empty());
    assert!(plan.telemetry);
}

#[test]
fn on_windows_there_are_more_directives() {
    let plan = setup_logging(&None, true, false, true);
    assert_eq!(plan.directives[..8], STANDARD);
    assert_eq!(
        plan.directives[8..],
        [
            "xcap::platform::impl_window=off",
            "xcap::platform::impl_monitor=off",
            "xcap::platform::utils=off"
        ]
    );
    assert!(!plan.telemetry);
}

#[test]
fn named_directives_come_before_the_one_for_debugging() {
    let plan = setup_logging(&Some(text("hyper=warn,,sqlx=trace")), false, true, false);
    assert_eq!(plan.directives[..8], STANDARD);
    assert_eq!(plan.directives[8..], ["hyper=warn", "sqlx=trace", "screenpipe=debug"]);
}

#[test]
fn each_named_text_is_used_or_warned_of() {
    let plan = setup_logging(&Some(text("hyper=warn,sqlx=loud,a=b=c,info")), false, false, false);
    assert_eq!(plan.directives[8..], ["hyper=warn", "info"]);
    assert_eq!(
        plan.warnings,
        vec![
            format!(
                "warning: invalid log directive 'sqlx=loud': {}",
                "sqlx=loud".parse::<Directive>().unwrap_err()
            ),
            format!(
                "warning: invalid log directive 'a=b=c': {}",
                "a=b=c".parse::<Directive>().unwrap_err()
            ),
        ]
    );
    assert_eq!(
        plan.warnings[0],
        "warning: invalid log directive 'sqlx=loud': error parsing level filter: expected one of \"off\", \"error\", \"warn\", \"info\", \"debug\", \"trace\", or a number 0-5"
    );
}

#[test]
fn every_directive_of_a_plan_can_be_parsed() {
    let plan = setup_logging(&Some(text("my_crate[span]=trace")), true, true, false);
    for directive in &plan.directives {
        assert!(directive.parse::<Directive>().is_ok(), "{directive}");
    }
}

#[test]
fn an_empty_value_names_nothing() {
    assert_eq!(setup_logging(&Some(text("")), false, false, false).directives, STANDARD);
    assert_eq!(setup_logging(&Some(text(",,")), false, false, false).directives, STANDARD);
}

#[test]
fn values_are_looked_at_before_they_are_used() {
    assert!(log_value_is_usable(""));
    assert!(log_value_is_usable("hyper=warn,info"));
    assert!(log_value_is_usable("é=info"));
    assert!(log_value_is_usable(" hyper=warn"));
    // Counted without the white space, the cut falls within the space.
    assert!(!log_value_is_usable("\u{3000}a=info"));
    assert!(!log_value_is_usable("info,\u{3000}a=info"));
    assert!(!log_value_is_usable("\u{3000}[a]=info"));
    assert!(!log_value_is_usable(" é=info"));
    assert!(!log_value_is_usable("  é=info"));
    assert!(log_value_is_usable("   é=info"));
}

#[test]
fn what_is_refused_before_it_is_cut_is_only_warned_of() {
    for value in ["\u{3000}!=", "\u{3000}=info", "\u{3000}]", "\u{3000}"] {
        assert!(log_value_is_usable(value));
        let plan = plan_logging(&Some(text(value)), false, false, false).unwrap();
        assert_eq!(plan.directives, STANDARD);
        assert_eq!(
            plan.warnings,
            vec![format!("warning: invalid log directive '{value}': invalid filter directive")]
        );
    }
}

#[test]
fn a_log_is_planned_only_where_it_can_be() {
    assert_eq!(plan_logging(&Some(text("\u{3000}a=info")), false, false, false), None);
    let named = Some(text("hyper=warn"));
    assert_eq!(
        plan_logging(&named, true, true, true),
        Some(setup_logging(&named, true, true, true))
    );
    let plan = plan_logging(&None, false, false, false).unwrap();
    assert_eq!(plan.directives, STANDARD);
}

/// All texts of that length over the alphabet.
fn all_texts(alphabet: &[char], length: u32) -> Vec<String> {
    let size = alphabet.len();
    (0..size.pow(length))
        .map(|n| (0..length).map(|i| alphabet[n / size.pow(i) % size]).collect())
        .collect()
}

#[test]
fn no_usable_value_makes_the_parser_panic() {
    let alphabet = [' ', '\u{3000}', 'é', 'a', '=', '[', ']', '{', '}', '(', '!'];
    for length in 0..=5 {
        for value in all_texts(&alphabet, length) {
            if log_value_is_usable(&value) {
                let plan = setup_logging(&Some(value.clone()), false, false, false);
                let named = if value.is_empty() { 0 } else { 1 };
                assert_eq!(plan.directives.len() + plan.warnings.len(), 8 + named);
            }
        }
    }
}

#[test]
fn a_refused_field_is_only_warned_of() {
    // The cut before the level would fall within a character, but the field
    // before it is refused first.
    assert!(!log_value_is_usable("    [{a=aéé}]=info"));
    assert!(log_value_is_usable("    [{a=(éé}]=info"));
    let named = Some(text("    [{a=(éé}]=info"));
    let plan = plan_logging(&named, false, false, false).unwrap();
    assert_eq!(plan.directives, STANDARD);
    assert_eq!(plan.warnings.len(), 1);
    assert!(plan.warnings[0].starts_with("warning: invalid log directive '    [{a=(éé}]=info': "));
    for lead in [" ", "  ", "   ", "    ", "     ", "      "] {
        for middle in all_texts(&['é', 'a', '=', '('], 4) {
            let value = format!("{lead}[{{{middle}}}]=info");
            if log_value_is_usable(&value) {
                let plan = setup_logging(&Some(value), false, false, false);
                assert_eq!(plan.directives.len() + plan.warnings.len(), 9);
            }
        }
    }
}

#[test]
fn texts_are_sifted_by_their_problems() {
    let pieces = vec![text("a"), text("b"), text("c")];
    let problems = vec![None, Some(text("bad")), None];
    let (good, warnings) = sift_directives(&pieces, &problems);
    assert_eq!(good, vec!["a", "c"]);
    assert_eq!(warnings, vec!["warning: invalid log directive 'b': bad"]);
    assert_eq!(good.len() + warnings.len(), pieces.len());
}

#[test]
fn directives_are_collected_in_order() {
    let named = vec![text("x=info")];
    let all = collect_directives(true, &named, true);
    assert_eq!(all.len(), 13);
    assert_eq!(all[..8], STANDARD);
    assert_eq!(all[11..], ["x=info", "screenpipe=debug"]);
    let without = collect_directives(true, &named, false);
    assert_eq!(all[..12], without[..]);
}

#[test]
fn the_log_files_are_named() {
    assert_eq!(LOG_FILE_PREFIX, "screenpipe");
    assert_eq!(LOG_FILE_SUFFIX, "log");
    assert_eq!(MAX_LOG_FILES, 5);
    assert_eq!(LOG_TIME_FORMAT, "%Y-%m-%dT%H:%M:%S%.6fZ");
}

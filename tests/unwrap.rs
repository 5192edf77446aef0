use error_dialog::{
    error_dialog, fatal_message, get_title, truncate, DefaultTitle, ErrorDialogUnwrapper,
    SoftUnwrapped, Unwrapped,
};

fn fatal<T>(r: Unwrapped<T>) -> error_dialog::FailureReport {
    match r {
        Unwrapped::Fatal(report) => report,
        Unwrapped::Value(_) => panic!("expected a failure report"),
    }
}

#[test]
fn success_passes_through_every_unwrap() {
    let mut titles = DefaultTitle::new();
    match Ok::<i32, String>(5).unwrap_or_dialog(&mut titles) {
        Unwrapped::Value(v) => assert_eq!(v, 5),
        Unwrapped::Fatal(_) => panic!("a success was reported"),
    }
    match Ok::<i32, String>(6).unwrap_or_dialog_with_title("Title") {
        Unwrapped::Value(v) => assert_eq!(v, 6),
        Unwrapped::Fatal(_) => panic!("a success was reported"),
    }
    let soft: SoftUnwrapped<i32> = Ok::<i32, String>(7).ok_unwrap_or_dialog(&mut titles);
    assert_eq!(soft.value, Some(7));
    assert!(soft.dialog.is_none());
    let soft = Ok::<i32, String>(8).ok_unwrap_or_dialog_with_title("Title");
    assert_eq!(soft.value, Some(8));
    assert!(soft.dialog.is_none());
    // A success reads no title, so a later set still takes.
    assert!(titles.set("Configured"));
    assert_eq!(get_title(&mut titles), "Configured");
}

#[test]
fn save_error_scenario() {
    let report = fatal(Err::<(), &str>("disk full").unwrap_or_dialog_with_title("Save Error"));
    assert_eq!(report.dialog.title, "Save Error");
    assert_eq!(report.dialog.body, "\"disk full\"...");
    assert!(!report.dialog.asynchronous);
    assert_eq!(report.text, "\"disk full\"");
    assert_eq!(report.message, "Save Error: \"disk full\"");
}

#[test]
fn hard_unwrap_uses_the_default_title() {
    let mut titles = DefaultTitle::new();
    let report = fatal(Err::<u8, &str>("boom").unwrap_or_dialog(&mut titles));
    assert_eq!(report.dialog.title, "Unexpected Error");
    assert_eq!(report.message, "Unexpected Error: \"boom\"");

    let mut titles = DefaultTitle::new();
    assert!(titles.set("Custom"));
    let report = fatal(Err::<u8, &str>("boom").unwrap_or_dialog(&mut titles));
    assert_eq!(report.message, "Custom: \"boom\"");
}

#[test]
fn soft_unwrap_without_configured_title() {
    let mut titles = DefaultTitle::new();
    let soft = Err::<u8, &str>("err").ok_unwrap_or_dialog(&mut titles);
    assert!(soft.value.is_none());
    let dialog = soft.dialog.expect("a failure shows a dialog");
    assert_eq!(dialog.title, "Unexpected Error");
    assert_eq!(dialog.body, "\"err\"...");
    assert!(dialog.asynchronous);
    assert_eq!(get_title(&mut titles), "Unexpected Error");
}

#[test]
fn soft_unwrap_with_title() {
    let soft = Err::<u8, String>(String::from("late")).ok_unwrap_or_dialog_with_title("Load");
    assert!(soft.value.is_none());
    let dialog = soft.dialog.expect("a failure shows a dialog");
    assert_eq!(dialog.title, "Load");
    assert_eq!(dialog.body, "\"late\"...");
    assert!(dialog.asynchronous);
}

#[test]
fn default_title_is_fixed_by_first_read() {
    let mut titles = DefaultTitle::new();
    assert_eq!(get_title(&mut titles), "Unexpected Error");
    assert!(!titles.set("Later"));
    assert_eq!(get_title(&mut titles), "Unexpected Error");
}

#[test]
fn default_title_is_fixed_by_first_set() {
    let mut titles = DefaultTitle::new();
    assert!(titles.set("First"));
    assert!(!titles.set("Second"));
    assert_eq!(get_title(&mut titles), "First");
    assert_eq!(get_title(&mut titles), "First");
}

#[test]
fn long_text_is_truncated_only_in_the_dialog() {
    let long: String = std::iter::repeat('x').take(300).collect();
    let report = fatal(Err::<(), String>(long.clone()).unwrap_or_dialog_with_title("T"));
    // The debug form adds two quotes: 302 characters in all.
    assert_eq!(report.text.chars().count(), 302);
    assert_eq!(report.dialog.body.chars().count(), 253 + 3);
    assert!(report.dialog.body.ends_with("..."));
    assert!(report.dialog.body.starts_with("\"xxx"));
    assert_eq!(report.message, format!("T: \"{}\"", long));
}

#[test]
fn truncate_counts_characters() {
    assert_eq!(truncate("héllo wörld", 4), "héll");
    assert_eq!(truncate("héllo", 5), "héllo");
    assert_eq!(truncate("héllo", 9), "héllo");
    assert_eq!(truncate("", 0), "");
    assert_eq!(truncate("abc", 0), "");
}

#[test]
fn dialog_at_the_bound() {
    let exact: String = std::iter::repeat('é').take(253).collect();
    let d = error_dialog("T", &exact, false);
    assert_eq!(d.body, format!("{}...", exact));
    let over = format!("{}z", exact);
    let d = error_dialog("T", &over, true);
    assert_eq!(d.body, format!("{}...", exact));
    assert!(d.asynchronous);
    let d = error_dialog("", "", false);
    assert_eq!(d.body, "...");
}

#[test]
fn fatal_message_joins_title_and_text() {
    assert_eq!(fatal_message("Save Error", "disk full"), "Save Error: disk full");
    assert_eq!(fatal_message("", ""), ": ");
}

use fixmytex::error::ErrorKind;
use fixmytex::system_utils::internal::{
    choose_window, find_and_focus_window_by_name_windows, FocusAttempt, FocusEvent, FocusStep,
    WindowHandle, WindowSearch, WindowText, SETTLE_DELAY_MS,
};

fn titles(list: &[&str]) -> Vec<String> {
    list.iter().map(|title| title.to_string()).collect()
}

fn text_of(title: &str, capacity: usize) -> WindowText {
    let mut buffer: Vec<u16> = title.encode_utf16().collect();
    let reported = buffer.len() as i32;
    buffer.resize(capacity, 0);
    WindowText { buffer, reported }
}

#[test]
fn editor_is_found_in_the_fake_window_list() {
    let windows = titles(&["Notepad - foo.txt", "Calculator", "My Editor"]);
    assert_eq!(choose_window(&windows, "Editor"), Ok(2));
    assert_eq!(windows[2], "My Editor");
}

#[test]
fn unknown_name_is_window_not_found() {
    let windows = titles(&["Notepad - foo.txt", "Calculator", "My Editor"]);
    assert_eq!(
        choose_window(&windows, "xyz"),
        Err(ErrorKind::WindowNotFound)
    );
}

#[test]
fn first_of_several_matches_wins() {
    let windows = titles(&["Calculator", "Editor - a.txt", "My Editor", "Editor"]);
    assert_eq!(choose_window(&windows, "Editor"), Ok(1));
}

#[test]
fn match_is_case_sensitive() {
    let windows = titles(&["my editor", "MY EDITOR"]);
    assert_eq!(
        choose_window(&windows, "Editor"),
        Err(ErrorKind::WindowNotFound)
    );
    assert_eq!(choose_window(&windows, "EDITOR"), Ok(1));
}

#[test]
fn empty_window_list_has_no_match() {
    let windows: Vec<String> = Vec::new();
    assert_eq!(
        choose_window(&windows, "Editor"),
        Err(ErrorKind::WindowNotFound)
    );
}

#[test]
fn empty_name_selects_the_first_window() {
    let windows = titles(&["Calculator", "My Editor"]);
    assert_eq!(choose_window(&windows, ""), Ok(0));
}

#[test]
fn name_longer_than_every_title_has_no_match() {
    let windows = titles(&["Edit", "Editor"]);
    assert_eq!(
        choose_window(&windows, "Editor window"),
        Err(ErrorKind::WindowNotFound)
    );
}

#[test]
fn match_at_the_end_of_a_title() {
    let windows = titles(&["foo.txt - Notepad"]);
    assert_eq!(choose_window(&windows, "Notepad"), Ok(0));
    assert_eq!(choose_window(&windows, "Notepad "), Err(ErrorKind::WindowNotFound));
}

#[test]
fn non_ascii_titles_match_by_character() {
    let windows = titles(&["Rechner", "Übersicht – Büro", "日本語 エディタ"]);
    assert_eq!(choose_window(&windows, "Büro"), Ok(1));
    assert_eq!(choose_window(&windows, "エディタ"), Ok(2));
}

#[test]
fn search_stops_at_the_first_match() {
    let mut search = WindowSearch::new("Editor");
    assert!(search.inspect_title(WindowHandle(10), "Notepad - foo.txt"));
    assert_eq!(search.selection(), Err(ErrorKind::WindowNotFound));
    assert!(search.inspect_title(WindowHandle(20), "Calculator"));
    assert!(!search.inspect_title(WindowHandle(30), "My Editor"));
    assert_eq!(search.selection(), Ok(WindowHandle(30)));
}

#[test]
fn later_windows_do_not_replace_the_selection() {
    let mut search = WindowSearch::new("Editor");
    assert!(!search.inspect_title(WindowHandle(1), "Editor one"));
    assert!(!search.inspect_title(WindowHandle(2), "Editor two"));
    assert!(!search.inspect_title(WindowHandle(3), "Calculator"));
    assert_eq!(search.selection(), Ok(WindowHandle(1)));
}

#[test]
fn search_decodes_title_buffers() {
    let mut search = WindowSearch::new("Editor");
    assert!(search.inspect(WindowHandle(7), &text_of("Calculator", 512)));
    assert!(!search.inspect(WindowHandle(8), &text_of("My Editor", 512)));
    assert_eq!(search.selection(), Ok(WindowHandle(8)));
}

#[test]
fn search_reads_only_the_reported_units() {
    let mut search = WindowSearch::new("Editor");
    let mut text = text_of("My Editor", 512);
    text.reported = 5;
    assert!(search.inspect(WindowHandle(8), &text));
    assert_eq!(search.selection(), Err(ErrorKind::WindowNotFound));
}

#[test]
fn window_without_text_is_passed_over() {
    let mut search = WindowSearch::new("");
    let silent = WindowText { buffer: vec![0u16; 512], reported: 0 };
    assert!(search.inspect(WindowHandle(1), &silent));
    assert_eq!(search.selection(), Err(ErrorKind::WindowNotFound));
    assert!(!search.inspect(WindowHandle(2), &text_of("Calculator", 512)));
    assert_eq!(search.selection(), Ok(WindowHandle(2)));
    assert!(!search.inspect(WindowHandle(3), &silent));
    assert_eq!(search.selection(), Ok(WindowHandle(2)));
}

#[test]
fn new_search_has_no_selection() {
    let search = WindowSearch::new("Editor");
    assert_eq!(search.target_name, "Editor");
    assert_eq!(search.hwnd, None);
    assert_eq!(search.selection(), Err(ErrorKind::WindowNotFound));
}

/// Carries a focus change out against a fake list of windows and a system
/// that answers the raise request with `accepted`. Returns the result, the
/// handles that were shown to the search, the handle that was raised and the
/// delays that were waited for.
fn focus(
    name: &str,
    windows: &[(usize, &str)],
    accepted: bool,
) -> (Result<(), ErrorKind>, Vec<usize>, Vec<usize>, Vec<u64>) {
    let mut attempt = find_and_focus_window_by_name_windows(name);
    let mut shown = Vec::new();
    let mut raised = Vec::new();
    let mut waited = Vec::new();
    loop {
        let event = match attempt.step() {
            FocusStep::Enumerate => {
                for (handle, title) in windows {
                    shown.push(*handle);
                    if !attempt.inspect(WindowHandle(*handle), &text_of(title, 512)) {
                        break;
                    }
                }
                FocusEvent::Enumerated
            }
            FocusStep::Raise { hwnd } => {
                raised.push(hwnd.0);
                FocusEvent::Raised { accepted }
            }
            FocusStep::Settle { millis } => {
                waited.push(millis);
                FocusEvent::Settled
            }
            FocusStep::Finish { result } => return (result, shown, raised, waited),
        };
        attempt = attempt.advance(event);
    }
}

const FAKE_WINDOWS: [(usize, &str); 3] =
    [(101, "Notepad - foo.txt"), (102, "Calculator"), (103, "My Editor")];

#[test]
fn focus_by_name_raises_my_editor() {
    let (result, shown, raised, waited) = focus("Editor", &FAKE_WINDOWS, true);
    assert_eq!(result, Ok(()));
    assert_eq!(shown, vec![101, 102, 103]);
    assert_eq!(raised, vec![103]);
    assert_eq!(waited, vec![100]);
}

#[test]
fn focus_by_unknown_name_is_window_not_found() {
    let (result, shown, raised, waited) = focus("xyz", &FAKE_WINDOWS, true);
    assert_eq!(result, Err(ErrorKind::WindowNotFound));
    assert_eq!(shown, vec![101, 102, 103]);
    assert!(raised.is_empty());
    assert!(waited.is_empty());
}

#[test]
fn focus_stops_the_enumeration_at_the_first_match() {
    let windows = [(1, "Calculator"), (2, "Editor - a.txt"), (3, "My Editor"), (4, "Editor")];
    let (result, shown, raised, _) = focus("Editor", &windows, true);
    assert_eq!(result, Ok(()));
    assert_eq!(shown, vec![1, 2]);
    assert_eq!(raised, vec![2]);
}

#[test]
fn refused_focus_request_is_focus_failed() {
    let (result, _, raised, waited) = focus("Editor", &FAKE_WINDOWS, false);
    assert_eq!(result, Err(ErrorKind::FocusFailed));
    assert_eq!(raised, vec![103]);
    assert!(waited.is_empty());
}

#[test]
fn focus_change_settles_for_a_tenth_of_a_second() {
    assert_eq!(SETTLE_DELAY_MS, 100);
    let raising = FocusAttempt::Raising { hwnd: WindowHandle(7) };
    assert_eq!(raising.step(), FocusStep::Raise { hwnd: WindowHandle(7) });
    let settling = raising.advance(FocusEvent::Raised { accepted: true });
    assert_eq!(settling, FocusAttempt::Settling);
    assert_eq!(settling.step(), FocusStep::Settle { millis: 100 });
    let done = settling.advance(FocusEvent::Settled);
    assert_eq!(done, FocusAttempt::Finished { result: Ok(()) });
    assert_eq!(done.step(), FocusStep::Finish { result: Ok(()) });
}

#[test]
fn focus_change_starts_with_the_enumeration() {
    let attempt = find_and_focus_window_by_name_windows("Editor");
    assert_eq!(attempt, FocusAttempt::Searching { search: WindowSearch::new("Editor") });
    assert_eq!(attempt.step(), FocusStep::Enumerate);
}

#[test]
fn focus_change_ignores_events_it_did_not_ask_for() {
    let searching = find_and_focus_window_by_name_windows("Editor");
    let still = searching.advance(FocusEvent::Settled);
    assert_eq!(still.step(), FocusStep::Enumerate);
    let still = still.advance(FocusEvent::Raised { accepted: true });
    assert_eq!(still.step(), FocusStep::Enumerate);
    let raising = FocusAttempt::Raising { hwnd: WindowHandle(7) }.advance(FocusEvent::Enumerated);
    assert_eq!(raising, FocusAttempt::Raising { hwnd: WindowHandle(7) });
    let settling = FocusAttempt::Settling.advance(FocusEvent::Raised { accepted: false });
    assert_eq!(settling, FocusAttempt::Settling);
    let done = FocusAttempt::Finished { result: Err(ErrorKind::FocusFailed) };
    assert_eq!(
        done.advance(FocusEvent::Settled),
        FocusAttempt::Finished { result: Err(ErrorKind::FocusFailed) }
    );
}

#[test]
fn windows_shown_after_the_search_are_not_looked_at() {
    let mut raising = FocusAttempt::Raising { hwnd: WindowHandle(7) };
    assert!(!raising.inspect_title(WindowHandle(8), "My Editor"));
    assert_eq!(raising, FocusAttempt::Raising { hwnd: WindowHandle(7) });
    let mut attempt = find_and_focus_window_by_name_windows("Editor");
    assert!(attempt.inspect_title(WindowHandle(1), "Calculator"));
    assert!(!attempt.inspect_title(WindowHandle(2), "My Editor"));
    assert!(!attempt.inspect_title(WindowHandle(3), "Editor"));
    assert_eq!(attempt.advance(FocusEvent::Enumerated), FocusAttempt::Raising { hwnd: WindowHandle(2) });
}

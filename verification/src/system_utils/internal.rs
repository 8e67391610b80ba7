//! What the Windows backend decides around its system calls: how a window
//! title is taken from the buffer the system filled, which window a name
//! selects, and which key events make up a shortcut.

use vstd::prelude::*;
use vstd::slice::slice_subrange;

use super::KeyboardShortcut;
use crate::error::ErrorKind;
use crate::text::{contains_text, str_contains};

verus! {

/// Number of UTF-16 code units offered to the system for a window title.
/// Longer titles arrive truncated.
pub const TITLE_CAPACITY: usize = 512;

/// Milliseconds to wait after a successful focus change, so that the new
/// foreground window has the keyboard before anything is sent to it.
pub const SETTLE_DELAY_MS: u64 = 100;

/// Virtual-key code of the Ctrl key.
pub const VK_CONTROL: u16 = 0x11;

/// Virtual-key code of the `C` key.
pub const VK_C: u16 = 0x43;

/// Virtual-key code of the `V` key.
pub const VK_V: u16 = 0x56;

/// Flag of a keyboard event that releases the key.
pub const KEYEVENTF_KEYUP: u32 = 0x0002;

/// The text that lossy UTF-16 decoding gives for a sequence of code units:
/// well-formed units decode to their characters, each unpaired surrogate to
/// U+FFFD.
pub uninterp spec fn utf16_lossy(units: Seq<u16>) -> Seq<char>;

/// `String::from_utf16_lossy` of the standard library. Trusted: the result is
/// the lossy decoding of exactly the given code units, a function of them
/// alone.
#[verifier::external_body]
fn decode_utf16_lossy(units: &[u16]) -> (text: String)
    ensures
        text@ == utf16_lossy(units@),
{
    String::from_utf16_lossy(units)
}

/// The system's identifier of a top-level window. It is only carried from the
/// enumeration to the focus request, never interpreted.
#[derive(Clone, Copy, Debug, PartialEq, Eq, Structural)]
pub struct WindowHandle(pub usize);

/// What the system answered when asked for a window's title: the buffer it
/// wrote into and the number of code units it says it wrote.
#[derive(Debug, PartialEq, Eq)]
pub struct WindowText {
    pub buffer: Vec<u16>,
    pub reported: i32,
}

impl WindowText {
    /// The code units that were read: the first `reported` units of the
    /// buffer, none when the count is not positive, the whole buffer when the
    /// count exceeds it.
    pub open spec fn units(self) -> Seq<u16> {
        if self.reported <= 0 {
            Seq::empty()
        } else if self.reported >= self.buffer@.len() {
            self.buffer@
        } else {
            self.buffer@.take(self.reported as int)
        }
    }

    /// The title, if any text was read.
    pub open spec fn title_text(self) -> Option<Seq<char>> {
        if self.units().len() == 0 {
            None
        } else {
            Some(utf16_lossy(self.units()))
        }
    }

    /// Decodes the title. `None` when the system read no text.
    pub fn title(&self) -> (title: Option<String>)
        ensures
            match title {
                Some(text) => self.title_text() == Some(text@),
                None => self.title_text() is None,
            },
    {
        if self.reported <= 0 || self.buffer.len() == 0 {
            return None;
        }
        let capacity: usize = self.buffer.len();
        let wanted: usize = self.reported as usize;
        let taken: usize = if wanted >= capacity { capacity } else { wanted };
        let units = slice_subrange(self.buffer.as_slice(), 0, taken);
        assert(units@ =~= self.units());
        Some(decode_utf16_lossy(units))
    }
}

/// The title of the focused window, from what the system answered.
///
/// `foreground` is `None` when the system reports no foreground window, and
/// otherwise holds its answer to the request for that window's title.
pub open spec fn focused_title(foreground: Option<WindowText>) -> Result<Seq<char>, ErrorKind> {
    match foreground {
        None => Err(ErrorKind::NoFocusedWindow),
        Some(text) => match text.title_text() {
            None => Err(ErrorKind::TitleReadFailed),
            Some(title) => Ok(title),
        },
    }
}

/// Names the application that has the focus: the title of the foreground
/// window. Fails with `NoFocusedWindow` when there is no such window and with
/// `TitleReadFailed` when the system read no text for it.
pub fn get_focused_app_name_windows(foreground: Option<WindowText>) -> (name: Result<
    String,
    ErrorKind,
>)
    ensures
        match name {
            Ok(title) => focused_title(foreground) == Ok::<Seq<char>, ErrorKind>(title@),
            Err(kind) => focused_title(foreground) == Err::<Seq<char>, ErrorKind>(kind),
        },
{
    match foreground {
        None => Err(ErrorKind::NoFocusedWindow),
        Some(text) => match text.title() {
            None => Err(ErrorKind::TitleReadFailed),
            Some(title) => Ok(title),
        },
    }
}

/// The selection after one more window has been looked at: an earlier
/// selection stands, otherwise the window is selected if its title contains
/// the target name.
pub open spec fn selection_after(
    selected: Option<WindowHandle>,
    target_name: Seq<char>,
    hwnd: WindowHandle,
    title: Seq<char>,
) -> Option<WindowHandle> {
    if selected is Some {
        selected
    } else if contains_text(title, target_name) {
        Some(hwnd)
    } else {
        None
    }
}

/// The state carried through an enumeration of the top-level windows: the
/// name that is looked for and the first window found to carry it.
#[derive(Debug, PartialEq, Eq)]
pub struct WindowSearch {
    pub target_name: String,
    pub hwnd: Option<WindowHandle>,
}

impl WindowSearch {
    /// A search for `window_name` that has seen no window yet.
    pub fn new(window_name: &str) -> (search: Self)
        ensures
            search.target_name@ == window_name@,
            search.hwnd is None,
    {
        WindowSearch { target_name: window_name.to_owned(), hwnd: None }
    }

    /// Looks at one window by its decoded title. Returns whether the
    /// enumeration should go on: it stops at the first match.
    pub fn inspect_title(&mut self, hwnd: WindowHandle, title: &str) -> (keep_going: bool)
        ensures
            final(self).target_name@ == old(self).target_name@,
            final(self).hwnd == selection_after(
                old(self).hwnd,
                old(self).target_name@,
                hwnd,
                title@,
            ),
            keep_going == (final(self).hwnd is None),
    {
        if self.hwnd.is_some() {
            return false;
        }
        if str_contains(title, self.target_name.as_str()) {
            self.hwnd = Some(hwnd);
            return false;
        }
        true
    }

    /// Looks at one window by what the system answered for its title. A
    /// window without readable text is passed over.
    pub fn inspect(&mut self, hwnd: WindowHandle, text: &WindowText) -> (keep_going: bool)
        ensures
            final(self).target_name@ == old(self).target_name@,
            final(self).hwnd == match text.title_text() {
                Some(title) => selection_after(old(self).hwnd, old(self).target_name@, hwnd, title),
                None => old(self).hwnd,
            },
            keep_going == (final(self).hwnd is None),
    {
        match text.title() {
            Some(title) => self.inspect_title(hwnd, title.as_str()),
            None => self.hwnd.is_none(),
        }
    }

    /// The window to bring to the foreground, or `WindowNotFound` when no
    /// window that was looked at carries the name.
    pub fn selection(&self) -> (selected: Result<WindowHandle, ErrorKind>)
        ensures
            selected == match self.hwnd {
                Some(hwnd) => Ok::<WindowHandle, ErrorKind>(hwnd),
                None => Err::<WindowHandle, ErrorKind>(ErrorKind::WindowNotFound),
            },
    {
        match self.hwnd {
            Some(hwnd) => Ok(hwnd),
            None => Err(ErrorKind::WindowNotFound),
        }
    }
}

/// The texts of a list of titles.
pub open spec fn title_texts(titles: Seq<String>) -> Seq<Seq<char>> {
    Seq::new(titles.len(), |at: int| titles[at]@)
}

/// `at` is the first position in `titles` whose title contains `name`.
pub open spec fn is_first_match(titles: Seq<Seq<char>>, name: Seq<char>, at: int) -> bool {
    &&& 0 <= at < titles.len()
    &&& contains_text(titles[at], name)
    &&& forall|before: int| 0 <= before < at ==> !contains_text(#[trigger] titles[before], name)
}

/// No title in `titles` contains `name`.
pub open spec fn no_match(titles: Seq<Seq<char>>, name: Seq<char>) -> bool {
    forall|at: int| 0 <= at < titles.len() ==> !contains_text(#[trigger] titles[at], name)
}

/// A list of titles has at most one first match, and none where no title
/// matches: the choice among several matching windows is fixed by the order
/// of enumeration alone.
pub proof fn lemma_first_match_is_unique(
    titles: Seq<Seq<char>>,
    name: Seq<char>,
    at: int,
    other: int,
)
    requires
        is_first_match(titles, name, at),
    ensures
        is_first_match(titles, name, other) ==> other == at,
        !no_match(titles, name),
{
}

/// Chooses a window by name from the titles of the top-level windows, given
/// in the order in which the system enumerates them: the first whose title
/// contains `window_name` as a literal, case-sensitive substring. Fails with
/// `WindowNotFound` when there is none. Titles after the first match are not
/// looked at.
pub fn choose_window(titles: &Vec<String>, window_name: &str) -> (chosen: Result<usize, ErrorKind>)
    ensures
        match chosen {
            Ok(at) => is_first_match(title_texts(titles@), window_name@, at as int),
            Err(kind) => kind == ErrorKind::WindowNotFound && no_match(
                title_texts(titles@),
                window_name@,
            ),
        },
{
    let mut search = WindowSearch::new(window_name);
    let mut at: usize = 0;
    while at < titles.len()
        invariant_except_break
            search.hwnd is None,
        invariant
            at <= titles@.len(),
            search.target_name@ == window_name@,
            forall|before: int|
                0 <= before < at ==> !contains_text(
                    #[trigger] title_texts(titles@)[before],
                    window_name@,
                ),
        ensures
            match search.hwnd {
                Some(hwnd) => hwnd.0 == at && is_first_match(
                    title_texts(titles@),
                    window_name@,
                    at as int,
                ),
                None => at == titles@.len(),
            },
        decreases titles@.len() - at,
    {
        if !search.inspect_title(WindowHandle(at), titles[at].as_str()) {
            break;
        }
        at += 1;
    }
    match search.selection() {
        Ok(hwnd) => Ok(hwnd.0),
        Err(kind) => Err(kind),
    }
}

/// What the caller is asked to do next for a focus change.
#[derive(Debug, PartialEq, Eq)]
pub enum FocusStep {
    /// Enumerate the top-level windows and show each to
    /// [`FocusAttempt::inspect`] until it asks to stop; then report
    /// [`FocusEvent::Enumerated`].
    Enumerate,
    /// Restore the window if it is minimized and ask the system to bring it
    /// to the foreground; report its answer as [`FocusEvent::Raised`].
    Raise { hwnd: WindowHandle },
    /// Wait for this many milliseconds, then report [`FocusEvent::Settled`].
    Settle { millis: u64 },
    /// Nothing more: the focus change ended with `result`.
    Finish { result: Result<(), ErrorKind> },
}

/// What came of the step that a focus change asked for.
#[derive(Debug, PartialEq, Eq)]
pub enum FocusEvent {
    /// The enumeration is over, by itself or because it was asked to stop.
    Enumerated,
    /// The system answered the request to bring the window forward.
    Raised { accepted: bool },
    /// The settle delay has passed.
    Settled,
}

/// A focus change in progress.
#[derive(Debug, PartialEq, Eq)]
pub enum FocusAttempt {
    /// The windows are being looked through.
    Searching { search: WindowSearch },
    /// The window that was found is to be brought to the foreground.
    Raising { hwnd: WindowHandle },
    /// The window has the foreground; the focus is given time to follow.
    Settling,
    /// The focus change is over.
    Finished { result: Result<(), ErrorKind> },
}

/// A [`FocusAttempt`] with the name it looks for as a mathematical sequence.
pub ghost enum FocusAttemptView {
    Searching { target_name: Seq<char>, selected: Option<WindowHandle> },
    Raising { hwnd: WindowHandle },
    Settling,
    Finished { result: Result<(), ErrorKind> },
}

impl View for FocusAttempt {
    type V = FocusAttemptView;

    open spec fn view(&self) -> FocusAttemptView {
        match *self {
            FocusAttempt::Searching { search } => FocusAttemptView::Searching {
                target_name: search.target_name@,
                selected: search.hwnd,
            },
            FocusAttempt::Raising { hwnd } => FocusAttemptView::Raising { hwnd },
            FocusAttempt::Settling => FocusAttemptView::Settling,
            FocusAttempt::Finished { result } => FocusAttemptView::Finished { result },
        }
    }
}

/// The step a focus change is waiting for.
pub open spec fn focus_step(attempt: FocusAttemptView) -> FocusStep {
    match attempt {
        FocusAttemptView::Searching { target_name, selected } => FocusStep::Enumerate,
        FocusAttemptView::Raising { hwnd } => FocusStep::Raise { hwnd },
        FocusAttemptView::Settling => FocusStep::Settle { millis: SETTLE_DELAY_MS },
        FocusAttemptView::Finished { result } => FocusStep::Finish { result },
    }
}

/// The focus change after one more window with a readable title has been
/// looked at. Only a search takes notice, and only until it has made its
/// selection.
pub open spec fn focus_after_window(
    attempt: FocusAttemptView,
    hwnd: WindowHandle,
    title: Seq<char>,
) -> FocusAttemptView {
    match attempt {
        FocusAttemptView::Searching { target_name, selected } => FocusAttemptView::Searching {
            target_name,
            selected: selection_after(selected, target_name, hwnd, title),
        },
        _ => attempt,
    }
}

/// The focus change after `event`.
///
/// The end of the enumeration leads to the selected window or, without one,
/// to `WindowNotFound`. A refused request ends the change with
/// `FocusFailed`, an accepted one is followed by the settle delay, and only
/// then has the change succeeded. An event that was not asked for leaves the
/// focus change as it is.
pub open spec fn focus_after(attempt: FocusAttemptView, event: FocusEvent) -> FocusAttemptView {
    match (attempt, event) {
        (
            FocusAttemptView::Searching { target_name, selected },
            FocusEvent::Enumerated,
        ) => match selected {
            Some(found) => FocusAttemptView::Raising { hwnd: found },
            None => FocusAttemptView::Finished { result: Err(ErrorKind::WindowNotFound) },
        },
        (FocusAttemptView::Raising { hwnd }, FocusEvent::Raised { accepted }) => if accepted {
            FocusAttemptView::Settling
        } else {
            FocusAttemptView::Finished { result: Err(ErrorKind::FocusFailed) }
        },
        (FocusAttemptView::Settling, FocusEvent::Settled) => FocusAttemptView::Finished {
            result: Ok(()),
        },
        _ => attempt,
    }
}

/// Whether a focus change still wants to see more windows.
pub open spec fn wants_more_windows(attempt: FocusAttemptView) -> bool {
    attempt matches FocusAttemptView::Searching { target_name, selected } && selected is None
}

/// Starts the change of focus to the first window whose title contains
/// `window_name`.
pub fn find_and_focus_window_by_name_windows(window_name: &str) -> (attempt: FocusAttempt)
    ensures
        attempt@ == (FocusAttemptView::Searching { target_name: window_name@, selected: None }),
{
    FocusAttempt::Searching { search: WindowSearch::new(window_name) }
}

impl FocusAttempt {
    /// Shows the focus change one window of the enumeration by its decoded
    /// title. Returns whether the enumeration should go on.
    pub fn inspect_title(&mut self, hwnd: WindowHandle, title: &str) -> (keep_going: bool)
        ensures
            final(self)@ == focus_after_window(old(self)@, hwnd, title@),
            keep_going == wants_more_windows(final(self)@),
    {
        match self {
            FocusAttempt::Searching { search } => search.inspect_title(hwnd, title),
            _ => false,
        }
    }

    /// Shows the focus change one window of the enumeration by what the
    /// system answered for its title. A window without readable text is
    /// passed over. Returns whether the enumeration should go on.
    pub fn inspect(&mut self, hwnd: WindowHandle, text: &WindowText) -> (keep_going: bool)
        ensures
            final(self)@ == match text.title_text() {
                Some(title) => focus_after_window(old(self)@, hwnd, title),
                None => old(self)@,
            },
            keep_going == wants_more_windows(final(self)@),
    {
        match self {
            FocusAttempt::Searching { search } => search.inspect(hwnd, text),
            _ => false,
        }
    }

    /// The step the caller is to perform now.
    pub fn step(&self) -> (step: FocusStep)
        ensures
            step == focus_step(self@),
    {
        match self {
            FocusAttempt::Searching { search } => FocusStep::Enumerate,
            FocusAttempt::Raising { hwnd } => FocusStep::Raise { hwnd: *hwnd },
            FocusAttempt::Settling => FocusStep::Settle { millis: SETTLE_DELAY_MS },
            FocusAttempt::Finished { result } => FocusStep::Finish { result: *result },
        }
    }

    /// Moves on with what came of the pending step.
    pub fn advance(self, event: FocusEvent) -> (next: FocusAttempt)
        ensures
            next@ == focus_after(self@, event),
    {
        match self {
            FocusAttempt::Searching { search } => match event {
                FocusEvent::Enumerated => match search.selection() {
                    Ok(hwnd) => FocusAttempt::Raising { hwnd },
                    Err(kind) => FocusAttempt::Finished { result: Err(kind) },
                },
                _ => FocusAttempt::Searching { search },
            },
            FocusAttempt::Raising { hwnd } => match event {
                FocusEvent::Raised { accepted } => if accepted {
                    FocusAttempt::Settling
                } else {
                    FocusAttempt::Finished { result: Err(ErrorKind::FocusFailed) }
                },
                _ => FocusAttempt::Raising { hwnd },
            },
            FocusAttempt::Settling => match event {
                FocusEvent::Settled => FocusAttempt::Finished { result: Ok(()) },
                _ => FocusAttempt::Settling,
            },
            FocusAttempt::Finished { result } => FocusAttempt::Finished { result },
        }
    }
}

/// The focus change after the windows `handles`, with the readable titles
/// `titles`, have been looked at in order.
pub open spec fn focus_after_windows(
    attempt: FocusAttemptView,
    handles: Seq<WindowHandle>,
    titles: Seq<Seq<char>>,
) -> FocusAttemptView
    recommends
        handles.len() == titles.len(),
    decreases titles.len(),
{
    if titles.len() == 0 {
        attempt
    } else {
        focus_after_window(
            focus_after_windows(attempt, handles.drop_last(), titles.drop_last()),
            handles.last(),
            titles.last(),
        )
    }
}

/// A search that has looked at a list of windows has selected the first
/// whose title contains the name, and none where no title does.
pub proof fn lemma_search_selects_first_match(
    name: Seq<char>,
    handles: Seq<WindowHandle>,
    titles: Seq<Seq<char>>,
)
    requires
        handles.len() == titles.len(),
    ensures
        focus_after_windows(
            FocusAttemptView::Searching { target_name: name, selected: None },
            handles,
            titles,
        ) matches FocusAttemptView::Searching { target_name, selected } && target_name == name && (
        match selected {
            Some(found) => exists|at: int|
                is_first_match(titles, name, at) && found == #[trigger] handles[at],
            None => no_match(titles, name),
        }),
    decreases titles.len(),
{
    let start = FocusAttemptView::Searching { target_name: name, selected: None };
    if titles.len() > 0 {
        let front = titles.drop_last();
        lemma_search_selects_first_match(name, handles.drop_last(), front);
        let before = focus_after_windows(start, handles.drop_last(), front);
        let last = titles.len() - 1;
        match before->selected {
            Some(found) => {
                let at = choose|at: int|
                    is_first_match(front, name, at) && found == #[trigger] handles.drop_last()[at];
                assert(is_first_match(titles, name, at)) by {
                    assert forall|k: int| 0 <= k < at implies !contains_text(
                        #[trigger] titles[k],
                        name,
                    ) by {
                        assert(titles[k] == front[k]);
                    }
                    assert(titles[at] == front[at]);
                }
            },
            None => {
                assert forall|k: int| 0 <= k < last implies !contains_text(
                    #[trigger] titles[k],
                    name,
                ) by {
                    assert(titles[k] == front[k]);
                }
                if contains_text(titles[last], name) {
                    assert(is_first_match(titles, name, last));
                }
            },
        }
    }
}

/// A focus change reaches the first window, in the order of enumeration,
/// whose title contains the name: that window is the one to be raised, and
/// where there is none the change ends with `WindowNotFound`.
pub proof fn lemma_focus_goes_to_first_match(
    name: Seq<char>,
    handles: Seq<WindowHandle>,
    titles: Seq<Seq<char>>,
    at: int,
)
    requires
        handles.len() == titles.len(),
    ensures
        ({
            let start = FocusAttemptView::Searching { target_name: name, selected: None };
            let seen = focus_after_windows(start, handles, titles);
            let step = focus_step(focus_after(seen, FocusEvent::Enumerated));
            &&& is_first_match(titles, name, at) ==> step == (FocusStep::Raise { hwnd: handles[at] })
            &&& no_match(titles, name) ==> step == (FocusStep::Finish {
                result: Err(ErrorKind::WindowNotFound),
            })
        }),
{
    lemma_search_selects_first_match(name, handles, titles);
    let start = FocusAttemptView::Searching { target_name: name, selected: None };
    let seen = focus_after_windows(start, handles, titles);
    if is_first_match(titles, name, at) {
        match seen->selected {
            Some(found) => {
                let other = choose|other: int|
                    is_first_match(titles, name, other) && found == #[trigger] handles[other];
                lemma_first_match_is_unique(titles, name, at, other);
            },
            None => {
                lemma_first_match_is_unique(titles, name, at, at);
            },
        }
    }
    if no_match(titles, name) {
        match seen->selected {
            Some(found) => {
                let other = choose|other: int|
                    is_first_match(titles, name, other) && found == #[trigger] handles[other];
                lemma_first_match_is_unique(titles, name, other, other);
            },
            None => {},
        }
    }
}

/// Once a window is selected, a focus change succeeds exactly when the
/// system accepts the request to raise it, and then only after the settle
/// delay; a refusal ends it with `FocusFailed`.
pub proof fn lemma_focus_settles_before_success(hwnd: WindowHandle, accepted: bool)
    ensures
        ({
            let raising = FocusAttemptView::Raising { hwnd };
            let raised = focus_after(raising, FocusEvent::Raised { accepted });
            &&& focus_step(raising) == (FocusStep::Raise { hwnd })
            &&& accepted ==> focus_step(raised) == (FocusStep::Settle { millis: 100 })
            &&& accepted ==> focus_after(raised, FocusEvent::Settled) == (
            FocusAttemptView::Finished { result: Ok(()) })
            &&& !accepted ==> raised == (FocusAttemptView::Finished {
                result: Err(ErrorKind::FocusFailed),
            })
        }),
{
}

/// One keyboard event as it is handed to the system's input queue.
#[derive(Clone, Copy, Debug, PartialEq, Eq, Structural)]
pub struct KeyEvent {
    /// Virtual-key code of the key.
    pub virtual_key: u16,
    /// Hardware scan code; zero lets the virtual-key code decide.
    pub scan_code: u16,
    /// Zero for a press, `KEYEVENTF_KEYUP` for a release.
    pub flags: u32,
    /// Time stamp; zero lets the system supply its own.
    pub time: u32,
    /// Extra value attached to the event.
    pub extra_info: usize,
}

/// The event that presses `virtual_key`.
pub open spec fn key_down(virtual_key: u16) -> KeyEvent {
    KeyEvent { virtual_key, scan_code: 0, flags: 0, time: 0, extra_info: 0 }
}

/// The event that releases `virtual_key`.
pub open spec fn key_up(virtual_key: u16) -> KeyEvent {
    KeyEvent { virtual_key, scan_code: 0, flags: KEYEVENTF_KEYUP, time: 0, extra_info: 0 }
}

/// The letter key that goes with Ctrl in a shortcut.
pub open spec fn shortcut_key(shortcut: KeyboardShortcut) -> u16 {
    match shortcut {
        KeyboardShortcut::Copy => VK_C,
        KeyboardShortcut::Paste => VK_V,
    }
}

/// The events of a shortcut: Ctrl down, letter down, letter up, Ctrl up.
pub open spec fn shortcut_events(shortcut: KeyboardShortcut) -> Seq<KeyEvent> {
    seq![
        key_down(VK_CONTROL),
        key_down(shortcut_key(shortcut)),
        key_up(shortcut_key(shortcut)),
        key_up(VK_CONTROL),
    ]
}

/// Builds the input events that send a shortcut to the focused window: four
/// separate events, the modifier pressed before the letter and released
/// after it.
pub fn send_keyboard_shortcut_windows(shortcut: KeyboardShortcut) -> (events: Vec<KeyEvent>)
    ensures
        events@ == shortcut_events(shortcut),
        events@.len() == 4,
{
    let key: u16 = match shortcut {
        KeyboardShortcut::Copy => VK_C,
        KeyboardShortcut::Paste => VK_V,
    };
    let mut events: Vec<KeyEvent> = Vec::new();
    events.push(KeyEvent { virtual_key: VK_CONTROL, scan_code: 0, flags: 0, time: 0, extra_info: 0 });
    events.push(KeyEvent { virtual_key: key, scan_code: 0, flags: 0, time: 0, extra_info: 0 });
    events.push(
        KeyEvent { virtual_key: key, scan_code: 0, flags: KEYEVENTF_KEYUP, time: 0, extra_info: 0 },
    );
    events.push(
        KeyEvent {
            virtual_key: VK_CONTROL,
            scan_code: 0,
            flags: KEYEVENTF_KEYUP,
            time: 0,
            extra_info: 0,
        },
    );
    assert(events@ =~= shortcut_events(shortcut));
    events
}

/// What an injection amounts to, from the number of events the system says
/// it accepted: `InjectionFailed` exactly when it accepted none.
pub fn injection_result(accepted: u32) -> (outcome: Result<(), ErrorKind>)
    ensures
        outcome == if accepted == 0 {
            Err::<(), ErrorKind>(ErrorKind::InjectionFailed)
        } else {
            Ok::<(), ErrorKind>(())
        },
{
    if accepted == 0 {
        Err(ErrorKind::InjectionFailed)
    } else {
        Ok(())
    }
}

} // verus!

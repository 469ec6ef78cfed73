//! The navigation state: where the user is, the list shown, the focused row,
//! the input mode and the status line, with one transition per user action.
use vstd::prelude::*;
use crate::search::{compile, filter_items, lemma_matching_narrows, matching, regex_accepts};
use crate::status::{fresh_tip, Status};

verus! {

/// The place in the registry hierarchy that the list shows.
#[derive(Debug)]
pub enum Location {
    /// Before the first successful fetch.
    Unknown,
    /// The repository catalog.
    Catalog,
    /// The tag list of the named repository.
    Image(String),
}

impl Location {
    /// The pane title for this location.
    pub fn label(&self) -> (r: String)
        ensures
            r@ == match self {
                Location::Unknown => "Unknown"@,
                Location::Catalog => "Catalog"@,
                Location::Image(name) => name@,
            },
    {
        match self {
            Location::Unknown => String::from_str("Unknown"),
            Location::Catalog => String::from_str("Catalog"),
            Location::Image(name) => name.clone(),
        }
    }
}

/// Which key bindings are active.
#[derive(Clone, Copy, Debug, PartialEq, Eq, Structural)]
pub enum Mode {
    Normal,
    Search,
}

/// The heading of the status line.
#[derive(Clone, Copy, Debug, PartialEq, Eq, Structural)]
pub enum Title {
    Tips,
    Search,
}

impl Title {
    /// The heading's text.
    pub fn label(&self) -> (r: String)
        ensures
            r@ == match self {
                Title::Tips => "Tips"@,
                Title::Search => "Search"@,
            },
    {
        match self {
            Title::Tips => String::from_str("Tips"),
            Title::Search => String::from_str("Search"),
        }
    }
}

/// What the registry is asked for.
#[derive(Debug)]
pub enum Request {
    /// The full repository catalog.
    Catalog,
    /// The tag list of one repository.
    Tags(String),
}

/// Why a fetch failed.
#[derive(Debug)]
pub enum FetchError {
    /// The registry could not be reached.
    Network(String),
    /// The response was not of the expected shape.
    Decode(String),
}

/// What the caller's event loop must do next.
#[derive(Debug)]
pub enum Command {
    /// Nothing: wait for the next key.
    Stay,
    /// Leave the program.
    Quit,
    /// Fetch the list and hand the outcome to `App::finish_fetch`.
    Fetch(Request),
}

/// The whole navigation state, threaded through the event loop.
pub struct App {
    pub focus: usize,
    pub title: Title,
    pub status: Status,
    pub items: Vec<String>,
    pub location: Location,
    pub mode: Mode,
    pub input: String,
    /// The most recent full fetch for the current location.
    pub fetched: Ghost<Seq<String>>,
}

impl App {
    /// The state's invariant.
    pub open spec fn wf(&self) -> bool {
        &&& if self.items@.len() == 0 {
            self.focus == 0
        } else {
            self.focus < self.items@.len()
        }
        &&& (self.mode == Mode::Search) == (self.title == Title::Search)
        &&& self.mode == Mode::Normal ==> self.input@.len() == 0
        &&& self.location is Unknown ==> self.items@.len() == 0
        &&& forall|x: String| #[trigger] self.items@.contains(x) ==> self.fetched@.contains(x)
    }

    /// The state at startup: nowhere yet, nothing listed.
    pub fn new() -> (r: App)
        ensures
            r.wf(),
            r.location is Unknown,
            r.items@.len() == 0,
            r.focus == 0,
            r.mode == Mode::Normal,
            r.title == Title::Tips,
            r.input@.len() == 0,
            r.status is Blank,
    {
        App {
            focus: 0,
            title: Title::Tips,
            status: Status::Blank,
            items: Vec::new(),
            location: Location::Unknown,
            mode: Mode::Normal,
            input: String::new(),
            fetched: Ghost(Seq::empty()),
        }
    }
}

impl Default for App {
    /// The state at startup, as `App::new` builds it.
    fn default() -> (r: App)
        ensures
            r.wf(),
            r.location is Unknown,
            r.items@.len() == 0,
            r.focus == 0,
            r.mode == Mode::Normal,
            r.title == Title::Tips,
            r.input@.len() == 0,
            r.status is Blank,
    {
        App::new()
    }
}

/// A user action, decoded from a key in the current mode.
#[derive(Clone, Copy, Debug, PartialEq, Eq, Structural)]
pub enum Action {
    Quit,
    Back,
    Down,
    Up,
    Last,
    Select,
    StartSearch,
    Commit,
    Cancel,
    Erase,
    Type(char),
    Ignore,
}

/// A key event, as far as the bindings tell keys apart.
#[derive(Clone, Copy, Debug, PartialEq, Eq, Structural)]
pub enum Key {
    Char(char),
    Esc,
    Enter,
    Backspace,
    Up,
    Down,
    Other,
}

/// The key bindings of each mode.
pub open spec fn key_action(mode: Mode, key: Key) -> Action {
    match mode {
        Mode::Normal => match key {
            Key::Char('q') => Action::Quit,
            Key::Esc => Action::Back,
            Key::Down | Key::Char('j') => Action::Down,
            Key::Up | Key::Char('k') => Action::Up,
            Key::Char('G') => Action::Last,
            Key::Enter => Action::Select,
            Key::Char('/') => Action::StartSearch,
            _ => Action::Ignore,
        },
        Mode::Search => match key {
            Key::Enter => Action::Commit,
            Key::Esc => Action::Cancel,
            Key::Backspace => Action::Erase,
            Key::Char(c) => Action::Type(c),
            _ => Action::Ignore,
        },
    }
}

/// Decodes a key in the given mode.
pub fn action_for(mode: Mode, key: Key) -> (r: Action)
    ensures
        r == key_action(mode, key),
{
    match mode {
        Mode::Normal => match key {
            Key::Char('q') => Action::Quit,
            Key::Esc => Action::Back,
            Key::Down | Key::Char('j') => Action::Down,
            Key::Up | Key::Char('k') => Action::Up,
            Key::Char('G') => Action::Last,
            Key::Enter => Action::Select,
            Key::Char('/') => Action::StartSearch,
            _ => Action::Ignore,
        },
        Mode::Search => match key {
            Key::Enter => Action::Commit,
            Key::Esc => Action::Cancel,
            Key::Backspace => Action::Erase,
            Key::Char(c) => Action::Type(c),
            _ => Action::Ignore,
        },
    }
}

/// `move_down`: one row down, or the bottom notice at the last row.
pub open spec fn after_down(a: App) -> App {
    if a.focus + 1 < a.items@.len() {
        App { focus: (a.focus + 1) as usize, ..a }
    } else {
        App { status: Status::ReachedBottom, ..a }
    }
}

/// `move_up`: one row up, or the top notice at the first row.
pub open spec fn after_up(a: App) -> App {
    if a.focus > 0 {
        App { focus: (a.focus - 1) as usize, ..a }
    } else {
        App { status: Status::ReachedTop, ..a }
    }
}

/// `jump_last`: focus on the last row; an empty list keeps focus 0.
pub open spec fn after_last(a: App) -> App {
    if a.items@.len() > 0 {
        App { focus: (a.items@.len() - 1) as usize, ..a }
    } else {
        a
    }
}

/// `enter_search`: search mode with an empty input echoed on the status line.
pub open spec fn after_start_search(a: App) -> App {
    App { mode: Mode::Search, title: Title::Search, status: Status::Echo, ..a }
}

/// Equal but for the search input and the status line.
pub open spec fn same_but_input(a: App, b: App) -> bool {
    &&& b.focus == a.focus
    &&& b.title == a.title
    &&& b.items == a.items
    &&& b.location == a.location
    &&& b.mode == a.mode
    &&& b.fetched == a.fetched
}

/// `edit_char`: `c` appended to the input, which the status line echoes.
pub open spec fn typed(a: App, b: App, c: char) -> bool {
    &&& same_but_input(a, b)
    &&& b.input@ == a.input@.push(c)
    &&& b.status is Echo
}

/// `edit_backspace`: the last character removed; nothing happens on an
/// empty input.
pub open spec fn erased(a: App, b: App) -> bool {
    if a.input@.len() > 0 {
        &&& same_but_input(a, b)
        &&& b.input@ == a.input@.drop_last()
        &&& b.status is Echo
    } else {
        b == a
    }
}

/// Back in normal mode, with the tips heading, an empty input and a fresh tip.
pub open spec fn left_search(b: App) -> bool {
    &&& b.mode == Mode::Normal
    &&& b.title == Title::Tips
    &&& b.input@.len() == 0
    &&& b.status is Tip
}

/// `commit_search`: a valid pattern filters the shown list and leaves search
/// mode; an invalid one reports its error and changes nothing else.
pub open spec fn committed(a: App, b: App) -> bool {
    if regex_accepts(a.input@) {
        &&& b.items@ == matching(a.items@, a.input@)
        &&& b.focus == 0
        &&& b.location == a.location
        &&& b.fetched == a.fetched
        &&& left_search(b)
    } else {
        &&& same_but_input(a, b)
        &&& b.input == a.input
        &&& b.status is PatternError
    }
}

/// What re-fetches the unfiltered list of a location.
pub open spec fn refetch(loc: Location) -> Command {
    match loc {
        Location::Unknown => Command::Stay,
        Location::Catalog => Command::Fetch(Request::Catalog),
        Location::Image(name) => Command::Fetch(Request::Tags(name)),
    }
}

/// `cancel_search`: search mode is left with the list as it was; the caller
/// then re-fetches the unfiltered list.
pub open spec fn cancelled(a: App, b: App) -> bool {
    &&& b.items == a.items
    &&& b.focus == a.focus
    &&& b.location == a.location
    &&& b.fetched == a.fetched
    &&& left_search(b)
}

/// `back`: the catalog is fetched afresh from the catalog or from a
/// repository; nothing happens before the first fetch.
pub open spec fn back_command(loc: Location) -> Command {
    match loc {
        Location::Unknown => Command::Stay,
        _ => Command::Fetch(Request::Catalog),
    }
}

/// `select`: from the catalog, the focused repository's tags are fetched.
pub open spec fn select_command(a: App) -> Command {
    if a.location is Catalog && a.items@.len() > 0 {
        Command::Fetch(Request::Tags(a.items@[a.focus as int]))
    } else {
        Command::Stay
    }
}

/// The outcome of a fetch: on success the new location and its full list,
/// focused on the first row, with a fresh tip; on failure only the status
/// line changes.
pub open spec fn fetch_applied(a: App, b: App, req: Request, result: Result<Vec<String>, FetchError>) -> bool {
    match result {
        Ok(list) => {
            &&& b.location == match req {
                Request::Catalog => Location::Catalog,
                Request::Tags(name) => Location::Image(name),
            }
            &&& b.items@ == list@
            &&& b.fetched@ == list@
            &&& b.focus == 0
            &&& b.mode == a.mode
            &&& b.title == a.title
            &&& b.input == a.input
            &&& b.status is Tip
        },
        Err(_) => {
            &&& same_but_input(a, b)
            &&& b.input == a.input
            &&& b.status is FetchFailed
        },
    }
}

impl App {
    /// Moves the focus one row down; at the last row it stays and the status
    /// line says so.
    pub fn move_down(&mut self)
        requires
            old(self).wf(),
        ensures
            final(self).wf(),
            *final(self) == after_down(*old(self)),
    {
        if self.items.len() > 0 && self.focus < self.items.len() - 1 {
            self.focus = self.focus + 1;
        } else {
            self.status = Status::ReachedBottom;
        }
    }

    /// Moves the focus one row up; at the first row it stays and the status
    /// line says so.
    pub fn move_up(&mut self)
        requires
            old(self).wf(),
        ensures
            final(self).wf(),
            *final(self) == after_up(*old(self)),
    {
        if self.focus > 0 {
            self.focus = self.focus - 1;
        } else {
            self.status = Status::ReachedTop;
        }
    }

    /// Focuses the last row; an empty list keeps focus 0, which is never
    /// read as an index.
    pub fn jump_last(&mut self)
        requires
            old(self).wf(),
        ensures
            final(self).wf(),
            *final(self) == after_last(*old(self)),
            old(self).items@.len() > 0 ==> final(self).focus == old(self).items@.len() - 1,
            old(self).items@.len() == 0 ==> final(self).focus == 0,
    {
        if self.items.len() > 0 {
            self.focus = self.items.len() - 1;
        }
    }

    /// Enters search mode; the list and the focus stay.
    pub fn enter_search(&mut self)
        requires
            old(self).wf(),
            old(self).mode == Mode::Normal,
        ensures
            final(self).wf(),
            *final(self) == after_start_search(*old(self)),
    {
        self.mode = Mode::Search;
        self.title = Title::Search;
        self.status = Status::Echo;
    }
}

/// Relies on `String::push`: appends one character at the end.
#[verifier::external_body]
fn push_char(s: &mut String, c: char)
    ensures
        final(s)@ == old(s)@.push(c),
{
    s.push(c)
}

impl App {
    /// Appends a typed character to the search input.
    pub fn edit_char(&mut self, c: char)
        requires
            old(self).wf(),
            old(self).mode == Mode::Search,
        ensures
            final(self).wf(),
            typed(*old(self), *final(self), c),
    {
        push_char(&mut self.input, c);
        self.status = Status::Echo;
    }

    /// Removes the last character of the search input, if there is one.
    pub fn edit_backspace(&mut self)
        requires
            old(self).wf(),
            old(self).mode == Mode::Search,
        ensures
            final(self).wf(),
            erased(*old(self), *final(self)),
    {
        let n = self.input.as_str().unicode_len();
        if n > 0 {
            let shorter = String::from_str(self.input.as_str().substring_char(0, n - 1));
            self.input = shorter;
            self.status = Status::Echo;
        }
    }

    /// Filters the shown list by the search input, read as a regular
    /// expression found anywhere in an entry. An invalid pattern stays in the
    /// input, with its error on the status line. `.*` keeps every entry.
    pub fn commit_search(&mut self)
        requires
            old(self).wf(),
            old(self).mode == Mode::Search,
        ensures
            final(self).wf(),
            committed(*old(self), *final(self)),
            old(self).input@ == seq!['.', '*'] ==> final(self).items@ == old(self).items@,
    {
        match compile(&self.input) {
            Ok(p) => {
                let ghost before = self.items@;
                let kept = filter_items(&self.items, &p);
                proof {
                    lemma_matching_narrows(before, self.input@);
                }
                self.items = kept;
                self.focus = 0;
                self.mode = Mode::Normal;
                self.title = Title::Tips;
                self.input = String::new();
                self.status = Status::Tip(fresh_tip());
                assert forall|x: String| #[trigger] self.items@.contains(x) implies self.fetched@.contains(x) by {
                    assert(before.contains(x));
                }
            },
            Err(msg) => {
                self.status = Status::PatternError(msg);
            },
        }
    }

    /// Leaves search mode without filtering; the returned command re-fetches
    /// the unfiltered list of the current location.
    pub fn cancel_search(&mut self) -> (r: Command)
        requires
            old(self).wf(),
            old(self).mode == Mode::Search,
        ensures
            final(self).wf(),
            cancelled(*old(self), *final(self)),
            r == refetch(old(self).location),
    {
        self.mode = Mode::Normal;
        self.title = Title::Tips;
        self.input = String::new();
        self.status = Status::Tip(fresh_tip());
        match &self.location {
            Location::Unknown => Command::Stay,
            Location::Catalog => Command::Fetch(Request::Catalog),
            Location::Image(name) => Command::Fetch(Request::Tags(name.clone())),
        }
    }

    /// The command that `Esc` gives in normal mode.
    pub fn back(&self) -> (r: Command)
        ensures
            r == back_command(self.location),
    {
        match &self.location {
            Location::Unknown => Command::Stay,
            _ => Command::Fetch(Request::Catalog),
        }
    }

    /// The command that `Enter` gives in normal mode.
    pub fn select(&self) -> (r: Command)
        requires
            self.wf(),
        ensures
            r == select_command(*self),
    {
        match &self.location {
            Location::Catalog => {
                if self.items.len() > 0 {
                    Command::Fetch(Request::Tags(self.items[self.focus].clone()))
                } else {
                    Command::Stay
                }
            },
            _ => Command::Stay,
        }
    }

    /// Applies the outcome of fetching `req`.
    pub fn finish_fetch(&mut self, req: &Request, result: Result<Vec<String>, FetchError>)
        requires
            old(self).wf(),
        ensures
            final(self).wf(),
            fetch_applied(*old(self), *final(self), *req, result),
    {
        match result {
            Ok(list) => {
                self.location = match req {
                    Request::Catalog => Location::Catalog,
                    Request::Tags(name) => Location::Image(name.clone()),
                };
                self.fetched = Ghost(list@);
                self.items = list;
                self.focus = 0;
                self.status = Status::Tip(fresh_tip());
            },
            Err(e) => {
                self.status = Status::FetchFailed(fetch_error_text(&e));
            },
        }
    }

    /// Handles one key: decodes it in the current mode, applies the action,
    /// and tells the event loop what to do next.
    pub fn handle_key(&mut self, key: Key) -> (r: Command)
        requires
            old(self).wf(),
        ensures
            final(self).wf(),
            match key_action(old(self).mode, key) {
                Action::Quit => r == Command::Quit && *final(self) == *old(self),
                Action::Back => r == back_command(old(self).location) && *final(self) == *old(self),
                Action::Down => r == Command::Stay && *final(self) == after_down(*old(self)),
                Action::Up => r == Command::Stay && *final(self) == after_up(*old(self)),
                Action::Last => r == Command::Stay && *final(self) == after_last(*old(self)),
                Action::Select => r == select_command(*old(self)) && *final(self) == *old(self),
                Action::StartSearch => r == Command::Stay && *final(self) == after_start_search(
                    *old(self),
                ),
                Action::Commit => r == Command::Stay && committed(*old(self), *final(self)),
                Action::Cancel => r == refetch(old(self).location) && cancelled(
                    *old(self),
                    *final(self),
                ),
                Action::Erase => r == Command::Stay && erased(*old(self), *final(self)),
                Action::Type(c) => r == Command::Stay && typed(*old(self), *final(self), c),
                Action::Ignore => r == Command::Stay && *final(self) == *old(self),
            },
    {
        match action_for(self.mode, key) {
            Action::Quit => Command::Quit,
            Action::Back => self.back(),
            Action::Down => {
                self.move_down();
                Command::Stay
            },
            Action::Up => {
                self.move_up();
                Command::Stay
            },
            Action::Last => {
                self.jump_last();
                Command::Stay
            },
            Action::Select => self.select(),
            Action::StartSearch => {
                self.enter_search();
                Command::Stay
            },
            Action::Commit => {
                self.commit_search();
                Command::Stay
            },
            Action::Cancel => self.cancel_search(),
            Action::Erase => {
                self.edit_backspace();
                Command::Stay
            },
            Action::Type(c) => {
                self.edit_char(c);
                Command::Stay
            },
            Action::Ignore => Command::Stay,
        }
    }
}

/// The status-line text for a failed fetch.
pub fn fetch_error_text(e: &FetchError) -> (r: String)
    ensures
        r@ == match e {
            FetchError::Network(m) => "network error: "@ + m@,
            FetchError::Decode(m) => "unexpected response: "@ + m@,
        },
{
    match e {
        FetchError::Network(m) => {
            let mut t = String::from_str("network error: ");
            t.append(m.as_str());
            t
        },
        FetchError::Decode(m) => {
            let mut t = String::from_str("unexpected response: ");
            t.append(m.as_str());
            t
        },
    }
}

/// The state after `k` moves down.
pub open spec fn downs(a: App, k: nat) -> App
    decreases k,
{
    if k == 0 {
        a
    } else {
        after_down(downs(a, (k - 1) as nat))
    }
}

/// The state after `k` moves up.
pub open spec fn ups(a: App, k: nat) -> App
    decreases k,
{
    if k == 0 {
        a
    } else {
        after_up(ups(a, (k - 1) as nat))
    }
}

proof fn lemma_downs_step(a: App, k: nat)
    requires
        a.focus as int + k < a.items@.len(),
    ensures
        downs(a, k).focus == a.focus + k,
        downs(a, k).items == a.items,
    decreases k,
{
    assert(a.items.len() == a.items@.len());
    if k > 0 {
        lemma_downs_step(a, (k - 1) as nat);
    }
}

proof fn lemma_ups_step(a: App, k: nat)
    requires
        k <= a.focus,
    ensures
        ups(a, k).focus == a.focus - k,
        ups(a, k).items == a.items,
    decreases k,
{
    if k > 0 {
        lemma_ups_step(a, (k - 1) as nat);
    }
}

/// From the first row of a list of `n > 0` entries, `n - 1` moves down reach
/// the last row; one more leaves the focus there and shows the bottom notice.
pub proof fn lemma_down_to_bottom(a: App)
    requires
        a.wf(),
        a.items@.len() > 0,
        a.focus == 0,
    ensures
        downs(a, (a.items@.len() - 1) as nat).focus == a.items@.len() - 1,
        after_down(downs(a, (a.items@.len() - 1) as nat)).focus == a.items@.len() - 1,
        after_down(downs(a, (a.items@.len() - 1) as nat)).status is ReachedBottom,
{
    lemma_downs_step(a, (a.items@.len() - 1) as nat);
}

/// From the last row of a list of `n > 0` entries, `n - 1` moves up reach
/// the first row; one more leaves the focus there and shows the top notice.
pub proof fn lemma_up_to_top(a: App)
    requires
        a.wf(),
        a.items@.len() > 0,
        a.focus == a.items@.len() - 1,
    ensures
        ups(a, (a.items@.len() - 1) as nat).focus == 0,
        after_up(ups(a, (a.items@.len() - 1) as nat)).focus == 0,
        after_up(ups(a, (a.items@.len() - 1) as nat)).status is ReachedTop,
{
    lemma_ups_step(a, (a.items@.len() - 1) as nat);
}

/// Committing a pattern a second time, right after the first commit, leaves
/// the list as the first commit left it.
pub proof fn lemma_commit_twice(a: App, b: App, c: App)
    requires
        committed(a, b),
        regex_accepts(a.input@),
        c.input@ == a.input@,
        committed(App { input: c.input, ..b }, c),
    ensures
        c.items@ == b.items@,
{
    crate::search::lemma_matching_idempotent(a.items@, a.input@);
}

} // verus!

//! The status line: tips, boundary notices, the echoed search text and errors.
use vstd::prelude::*;

verus! {

/// A hint shown on the status line after a fresh list is loaded.
#[derive(Clone, Copy, Debug, PartialEq, Eq, Structural)]
pub enum Tip {
    /// "Press q to exit."
    QuitHint,
}

/// What the status line shows.
#[derive(Debug)]
pub enum Status {
    /// Nothing yet.
    Blank,
    /// A tip from the pool.
    Tip(Tip),
    /// Moving down at the last row.
    ReachedBottom,
    /// Moving up at the first row.
    ReachedTop,
    /// The search text as it is being typed.
    Echo,
    /// The search text is not a valid pattern; the text says why.
    PatternError(String),
    /// A fetch failed; the text says why.
    FetchFailed(String),
}

/// The tips to choose from.
pub open spec fn tips() -> Seq<Tip> {
    seq![Tip::QuitHint]
}

/// The pool of tips.
pub fn tip_pool() -> (r: Vec<Tip>)
    ensures
        r@ == tips(),
{
    let mut v: Vec<Tip> = Vec::new();
    v.push(Tip::QuitHint);
    assert(v@ =~= tips());
    v
}

/// Picks the element of `vec` that the random `draw` selects: each element
/// is chosen by an equal share of draws, up to rounding.
pub fn get_random_elem<T: Copy>(vec: &Vec<T>, draw: u64) -> (r: T)
    requires
        vec@.len() > 0,
    ensures
        r == vec@[(draw as int) % (vec@.len() as int)],
{
    let i: usize = (draw % (vec.len() as u64)) as usize;
    vec[i]
}

/// Relies on `rand::random`: a value drawn from the thread-local generator;
/// nothing is promised of it.
pub assume_specification<T>[ rand::random::<T> ]() -> (r: T)
    where
        rand::distributions::Standard: rand::distributions::Distribution<T>,
;

/// A tip chosen uniformly at random from the pool.
pub fn fresh_tip() -> (r: Tip)
    ensures
        tips().contains(r),
{
    let pool = tip_pool();
    let draw: u64 = rand::random::<u64>();
    let t = get_random_elem(&pool, draw);
    assert(tips()[0] == t);
    t
}

/// A piece of status-line text, bold or plain.
#[derive(Debug)]
pub struct Fragment {
    pub text: String,
    pub bold: bool,
}

impl View for Fragment {
    type V = (Seq<char>, bool);

    open spec fn view(&self) -> (Seq<char>, bool) {
        (self.text@, self.bold)
    }
}

/// The fragments that the status line shows for `status`, where `input` is
/// the search text.
pub open spec fn body_of(status: Status, input: Seq<char>) -> Seq<(Seq<char>, bool)> {
    match status {
        Status::Blank => seq![],
        Status::Tip(Tip::QuitHint) => seq![("Press "@, false), ("q"@, true), (" to exit."@, false)],
        Status::ReachedBottom => seq![("You reached bottom of the result"@, false)],
        Status::ReachedTop => seq![("You reached top of the result"@, false)],
        Status::Echo => seq![(input, false)],
        Status::PatternError(m) => seq![("invalid pattern: "@, false), (m@, false)],
        Status::FetchFailed(m) => seq![(m@, false)],
    }
}

fn plain(s: &str) -> (r: Fragment)
    ensures
        r@ == (s@, false),
{
    Fragment { text: String::from_str(s), bold: false }
}

/// Renders the status line.
pub fn status_body(status: &Status, input: &String) -> (r: Vec<Fragment>)
    ensures
        r@.map_values(|f: Fragment| f@) == body_of(*status, input@),
{
    let mut v: Vec<Fragment> = Vec::new();
    match status {
        Status::Blank => {},
        Status::Tip(Tip::QuitHint) => {
            v.push(plain("Press "));
            v.push(Fragment { text: String::from_str("q"), bold: true });
            v.push(plain(" to exit."));
        },
        Status::ReachedBottom => {
            v.push(plain("You reached bottom of the result"));
        },
        Status::ReachedTop => {
            v.push(plain("You reached top of the result"));
        },
        Status::Echo => {
            v.push(Fragment { text: input.clone(), bold: false });
        },
        Status::PatternError(m) => {
            v.push(plain("invalid pattern: "));
            v.push(Fragment { text: m.clone(), bold: false });
        },
        Status::FetchFailed(m) => {
            v.push(Fragment { text: m.clone(), bold: false });
        },
    }
    assert(v@.map_values(|f: Fragment| f@) =~= body_of(*status, input@));
    v
}

} // verus!

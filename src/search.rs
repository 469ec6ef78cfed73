//! Filtering the item list by a regular expression that the user typed.
use vstd::prelude::*;

verus! {

#[verifier::external_type_specification]
#[verifier::external_body]
pub struct ExRegex(regex::Regex);

/// Whether `regex::Regex::new` accepts a pattern (valid syntax, within the
/// default size limit).
pub uninterp spec fn regex_accepts(pattern: Seq<char>) -> bool;

/// Whether the compiled `pattern` matches somewhere inside `text`.
pub uninterp spec fn regex_finds(pattern: Seq<char>, text: Seq<char>) -> bool;

/// A compiled search pattern together with the text it was compiled from.
/// Only `compile_regex` builds one, so `re` is always the compiled `source`.
pub struct Pattern {
    re: regex::Regex,
    source: String,
}

impl View for Pattern {
    type V = Seq<char>;

    closed spec fn view(&self) -> Seq<char> {
        self.source@
    }
}

/// Relies on `regex::Regex::new`: it succeeds exactly on the patterns it
/// accepts, and the error's text describes why a pattern was refused.
#[verifier::external_body]
fn compile_regex(source: &str) -> (r: Result<Pattern, String>)
    ensures
        r is Ok <==> regex_accepts(source@),
        r matches Ok(p) ==> p@ == source@,
{
    match regex::Regex::new(source) {
        Ok(re) => Ok(Pattern { re, source: source.to_string() }),
        Err(e) => Err(e.to_string()),
    }
}

/// Relies on `regex::Regex::is_match`: true iff the regex matches anywhere in
/// the text. The pattern `.*` matches the empty string at the start of every
/// text, so it is found in all of them.
#[verifier::external_body]
fn regex_is_match(p: &Pattern, text: &str) -> (r: bool)
    ensures
        r == regex_finds(p@, text@),
        p@ == seq!['.', '*'] ==> r,
{
    p.re.is_match(text)
}

/// Compiles the search text; the error carries a description for the status
/// line.
pub fn compile(source: &String) -> (r: Result<Pattern, String>)
    ensures
        r is Ok <==> regex_accepts(source@),
        r matches Ok(p) ==> p@ == source@,
{
    compile_regex(source.as_str())
}

/// The entries of `items` whose mark is set, in the order they had.
pub open spec fn kept(items: Seq<String>, marks: Seq<bool>) -> Seq<String>
    decreases items.len(),
{
    if items.len() == 0 {
        Seq::empty()
    } else {
        let head = kept(items.drop_last(), marks.drop_last());
        if marks.last() {
            head.push(items.last())
        } else {
            head
        }
    }
}

/// The entries of `items` in which `pattern` is found, in the order they
/// had.
pub open spec fn matching(items: Seq<String>, pattern: Seq<char>) -> Seq<String>
    decreases items.len(),
{
    if items.len() == 0 {
        Seq::empty()
    } else {
        let head = matching(items.drop_last(), pattern);
        if regex_finds(pattern, items.last()@) {
            head.push(items.last())
        } else {
            head
        }
    }
}

/// Keeps the entries of `items` whose mark in `marks` is set.
pub fn retain_marked(items: &Vec<String>, marks: &Vec<bool>) -> (r: Vec<String>)
    requires
        marks@.len() == items@.len(),
    ensures
        r@ == kept(items@, marks@),
{
    let mut out: Vec<String> = Vec::new();
    let mut i: usize = 0;
    while i < items.len()
        invariant
            i <= items@.len() == marks@.len(),
            out@ == kept(items@.subrange(0, i as int), marks@.subrange(0, i as int)),
        decreases items@.len() - i,
    {
        assert(items@.subrange(0, i + 1).drop_last() =~= items@.subrange(0, i as int));
        assert(marks@.subrange(0, i + 1).drop_last() =~= marks@.subrange(0, i as int));
        if marks[i] {
            out.push(items[i].clone());
        }
        i = i + 1;
    }
    assert(items@.subrange(0, i as int) =~= items@);
    assert(marks@.subrange(0, i as int) =~= marks@);
    out
}

proof fn lemma_kept_is_matching(items: Seq<String>, marks: Seq<bool>, pattern: Seq<char>)
    requires
        marks.len() == items.len(),
        forall|i: int| 0 <= i < items.len() ==> marks[i] == regex_finds(pattern, #[trigger] items[i]@),
    ensures
        kept(items, marks) == matching(items, pattern),
    decreases items.len(),
{
    if items.len() > 0 {
        lemma_kept_is_matching(items.drop_last(), marks.drop_last(), pattern);
        assert(marks.last() == regex_finds(pattern, items[items.len() - 1]@));
    }
}

proof fn lemma_kept_all(items: Seq<String>, marks: Seq<bool>)
    requires
        marks.len() == items.len(),
        forall|i: int| 0 <= i < marks.len() ==> #[trigger] marks[i],
    ensures
        kept(items, marks) == items,
    decreases items.len(),
{
    if items.len() > 0 {
        lemma_kept_all(items.drop_last(), marks.drop_last());
        assert(marks.last() == marks[marks.len() - 1]);
        assert(items.drop_last().push(items.last()) =~= items);
    }
}

/// The entries of `items` in which `pattern` is found, in order. The pattern
/// `.*` keeps the list as it is.
pub fn filter_items(items: &Vec<String>, pattern: &Pattern) -> (r: Vec<String>)
    ensures
        r@ == matching(items@, pattern@),
        pattern@ == seq!['.', '*'] ==> r@ == items@,
{
    let mut marks: Vec<bool> = Vec::new();
    let mut i: usize = 0;
    while i < items.len()
        invariant
            i <= items@.len(),
            marks@.len() == i,
            forall|j: int| 0 <= j < i ==> marks@[j] == regex_finds(pattern@, #[trigger] items@[j]@),
            pattern@ == seq!['.', '*'] ==> forall|j: int| 0 <= j < i ==> #[trigger] marks@[j],
        decreases items@.len() - i,
    {
        let found = regex_is_match(pattern, items[i].as_str());
        marks.push(found);
        i = i + 1;
    }
    proof {
        lemma_kept_is_matching(items@, marks@, pattern@);
        if pattern@ == seq!['.', '*'] {
            lemma_kept_all(items@, marks@);
        }
    }
    retain_marked(items, &marks)
}

/// Every entry that a filter keeps was in the list it filtered.
pub proof fn lemma_matching_narrows(items: Seq<String>, pattern: Seq<char>)
    ensures
        forall|x: String| matching(items, pattern).contains(x) ==> items.contains(x),
    decreases items.len(),
{
    if items.len() > 0 {
        lemma_matching_narrows(items.drop_last(), pattern);
        assert forall|x: String| matching(items, pattern).contains(x) implies items.contains(x) by {
            let rest = items.drop_last();
            let h = matching(rest, pattern);
            if h.contains(x) {
                assert(rest.contains(x));
                let j = choose|j: int| 0 <= j < rest.len() && rest[j] == x;
                assert(items[j] == x);
            } else {
                let m = matching(items, pattern);
                let k = choose|k: int| 0 <= k < m.len() && m[k] == x;
                if k < h.len() {
                    assert(h[k] == x);
                }
                assert(items[items.len() - 1] == x);
            }
        }
    }
}

/// Filtering twice by the same pattern gives what filtering once gives.
pub proof fn lemma_matching_idempotent(items: Seq<String>, pattern: Seq<char>)
    ensures
        matching(matching(items, pattern), pattern) == matching(items, pattern),
    decreases items.len(),
{
    if items.len() > 0 {
        let h = matching(items.drop_last(), pattern);
        lemma_matching_idempotent(items.drop_last(), pattern);
        if regex_finds(pattern, items.last()@) {
            let m = h.push(items.last());
            assert(m.drop_last() =~= h);
            assert(m.last() == items.last());
        }
    }
}

} // verus!

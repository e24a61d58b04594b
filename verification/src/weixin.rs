//! The payment link of a mobile-browser order. The gateway answers the
//! order's address with a page; the link stands somewhere in it, and is
//! found by looking for its scheme.

use vstd::prelude::*;
use vstd::string::StrSliceExecFns;
use vstd::string::StringExecFns;
use crate::error::{PayError, PayErrorView};
use crate::pay::WechatPay;
use crate::text::chars_of;

verus! {

/// The scheme that a payment link begins with.
pub const SCHEME: &'static str = "weixin://";

/// Whether `pattern` stands in `text` at position `at`.
pub open spec fn occurs_at(text: Seq<char>, pattern: Seq<char>, at: int) -> bool {
    0 <= at && at + pattern.len() <= text.len() && text.subrange(at, at + pattern.len())
        == pattern
}

/// Whether `pattern` stands anywhere in `text`.
pub open spec fn occurs(text: Seq<char>, pattern: Seq<char>) -> bool {
    exists|at: int| occurs_at(text, pattern, at)
}

/// Whether `at` is the first position at which `pattern` stands in `text`.
pub open spec fn is_first_occurrence(text: Seq<char>, pattern: Seq<char>, at: int) -> bool {
    occurs_at(text, pattern, at) && forall|before: int|
        0 <= before < at ==> !occurs_at(text, pattern, before)
}

/// The first position at which `pattern` stands in `text`.
pub open spec fn first_occurrence(text: Seq<char>, pattern: Seq<char>) -> int {
    choose|at: int| is_first_occurrence(text, pattern, at)
}

/// Whether a character ends a stretch of the page: a line feed or a
/// quotation mark.
pub open spec fn is_break(c: char) -> bool {
    c == '\n' || c == '"'
}

/// Where the stretch that holds position `at` begins: behind the nearest
/// break before `at`, or at the start of the text.
pub open spec fn stretch_start(text: Seq<char>, at: int) -> int
    decreases at,
{
    if at <= 0 {
        0
    } else if is_break(text[at - 1]) {
        at
    } else {
        stretch_start(text, at - 1)
    }
}

/// Where the stretch that holds position `at` ends: at the nearest break
/// from `at` on, or at the end of the text.
pub open spec fn stretch_end(text: Seq<char>, at: int) -> int
    decreases text.len() - at,
{
    if at >= text.len() {
        text.len() as int
    } else if is_break(text[at]) {
        at
    } else {
        stretch_end(text, at + 1)
    }
}

/// The payment link in a page: the stretch, between breaks, around the
/// first place where the scheme stands. A page without the scheme holds
/// no link.
pub open spec fn weixin_link(text: Seq<char>) -> Option<Seq<char>> {
    if occurs(text, SCHEME@) {
        let at = first_occurrence(text, SCHEME@);
        Some(text.subrange(stretch_start(text, at), stretch_end(text, at)))
    } else {
        None
    }
}

/// A link or an error, as plain values.
pub open spec fn link_outcome(res: Result<Option<String>, PayError>) -> Result<
    Option<Seq<char>>,
    PayErrorView,
> {
    match res {
        Ok(Some(link)) => Ok(Some(link@)),
        Ok(None) => Ok(None),
        Err(e) => Err(e@),
    }
}

/// The first occurrence of a pattern is the only position that has the
/// pattern and none before it.
pub proof fn lemma_first_occurrence(text: Seq<char>, pattern: Seq<char>, at: int)
    requires
        is_first_occurrence(text, pattern, at),
    ensures
        first_occurrence(text, pattern) == at,
        occurs(text, pattern),
{
    let chosen = first_occurrence(text, pattern);
    assert(is_first_occurrence(text, pattern, chosen));
    if chosen < at {
        assert(!occurs_at(text, pattern, chosen));
    }
    if at < chosen {
        assert(!occurs_at(text, pattern, at));
    }
}

/// The stretch around a position runs from a break, or the start of the
/// text, up to the position, and holds no break on the way.
pub proof fn lemma_stretch_start(text: Seq<char>, at: int)
    requires
        0 <= at <= text.len(),
    ensures
        0 <= stretch_start(text, at) <= at,
        stretch_start(text, at) > 0 ==> is_break(text[stretch_start(text, at) - 1]),
        forall|i: int| stretch_start(text, at) <= i < at ==> !is_break(text[i]),
    decreases at,
{
    if at > 0 && !is_break(text[at - 1]) {
        lemma_stretch_start(text, at - 1);
    }
}

/// The stretch around a position runs from the position up to a break, or
/// the end of the text, and holds no break on the way.
pub proof fn lemma_stretch_end(text: Seq<char>, at: int)
    requires
        0 <= at <= text.len(),
    ensures
        at <= stretch_end(text, at) <= text.len(),
        stretch_end(text, at) < text.len() ==> is_break(text[stretch_end(text, at)]),
        forall|i: int| at <= i < stretch_end(text, at) ==> !is_break(text[i]),
    decreases text.len() - at,
{
    if at < text.len() && !is_break(text[at]) {
        lemma_stretch_end(text, at + 1);
    }
}

/// The link that is found in a page holds the scheme, and holds neither a
/// line feed nor a quotation mark.
pub proof fn lemma_link_shape(text: Seq<char>)
    requires
        weixin_link(text) is Some,
    ensures
        occurs(weixin_link(text)->0, SCHEME@),
        forall|i: int|
            0 <= i < weixin_link(text)->0.len() ==> !is_break(#[trigger] weixin_link(text)->0[i]),
{
    reveal_strlit("weixin://");
    let at = first_occurrence(text, SCHEME@);
    let witness = choose|i: int| occurs_at(text, SCHEME@, i);
    lemma_exists_first(text, SCHEME@, witness);
    assert(is_first_occurrence(text, SCHEME@, at));
    let start = stretch_start(text, at);
    let end = stretch_end(text, at);
    lemma_stretch_start(text, at);
    lemma_stretch_end(text, at);
    let link = text.subrange(start, end);
    assert forall|i: int| at <= i < at + 9 implies !is_break(#[trigger] text[i]) by {
        assert(text.subrange(at, at + 9)[i - at] == SCHEME@[i - at]);
    }
    assert(link.subrange(at - start, at - start + 9) =~= text.subrange(at, at + 9));
    assert(occurs_at(link, SCHEME@, at - start));
}

/// Where a pattern stands somewhere, it stands somewhere first.
pub proof fn lemma_exists_first(text: Seq<char>, pattern: Seq<char>, at: int)
    requires
        occurs_at(text, pattern, at),
    ensures
        exists|first: int| is_first_occurrence(text, pattern, first),
    decreases at,
{
    if exists|before: int| 0 <= before < at && occurs_at(text, pattern, before) {
        let before = choose|before: int| 0 <= before < at && occurs_at(text, pattern, before);
        lemma_exists_first(text, pattern, before);
    } else {
        assert(is_first_occurrence(text, pattern, at));
    }
}

/// Tells whether `pattern` stands in `text` at position `at`.
fn matches_at(text: &Vec<char>, pattern: &Vec<char>, at: usize) -> (found: bool)
    requires
        at + pattern.len() <= text.len(),
    ensures
        found == occurs_at(text@, pattern@, at as int),
{
    let mut k: usize = 0;
    while k < pattern.len()
        invariant
            k <= pattern.len(),
            at + pattern.len() <= text.len(),
            forall|j: int| 0 <= j < k ==> text@[at + j] == pattern@[j],
        decreases pattern.len() - k,
    {
        if text[at + k] != pattern[k] {
            assert(text@.subrange(at as int, at + pattern.len())[k as int] != pattern@[k as int]);
            return false;
        }
        k += 1;
    }
    assert(text@.subrange(at as int, at + pattern.len()) =~= pattern@);
    true
}

/// Finds the first position at which `pattern` stands in `text`.
pub fn find_first(text: &Vec<char>, pattern: &Vec<char>) -> (found: Option<usize>)
    ensures
        match found {
            Some(at) => is_first_occurrence(text@, pattern@, at as int),
            None => !occurs(text@, pattern@),
        },
{
    if pattern.len() > text.len() {
        return None;
    }
    let last: usize = text.len() - pattern.len();
    let mut at: usize = 0;
    while at < last
        invariant
            at <= last,
            last == text.len() - pattern.len(),
            pattern.len() <= text.len(),
            forall|before: int| 0 <= before < at ==> !occurs_at(text@, pattern@, before),
        decreases last - at,
    {
        if matches_at(text, pattern, at) {
            return Some(at);
        }
        at += 1;
    }
    if matches_at(text, pattern, last) {
        Some(last)
    } else {
        None
    }
}

/// Tells whether a character ends a stretch.
fn breaks(c: char) -> (out: bool)
    ensures
        out == is_break(c),
{
    c == '\n' || c == '"'
}

/// Finds the payment link in the text of a page.
pub fn find_weixin_link(text: &str) -> (res: Result<Option<String>, PayError>)
    ensures
        link_outcome(res) == match weixin_link(text@) {
            Some(link) => Ok(Some(link)),
            None => Err(PayErrorView::WeixinNotFound),
        },
{
    let chars = chars_of(text);
    let scheme = chars_of(SCHEME);
    let at = match find_first(&chars, &scheme) {
        Some(at) => at,
        None => {
            return Err(PayError::WeixinNotFound);
        },
    };
    proof {
        lemma_first_occurrence(chars@, scheme@, at as int);
    }
    let mut start: usize = at;
    while start > 0 && !breaks(chars[start - 1])
        invariant
            start <= at <= chars.len(),
            stretch_start(chars@, at as int) == stretch_start(chars@, start as int),
        decreases start,
    {
        start -= 1;
    }
    let mut end: usize = at;
    while end < chars.len() && !breaks(chars[end])
        invariant
            at <= end <= chars.len(),
            stretch_end(chars@, at as int) == stretch_end(chars@, end as int),
        decreases chars.len() - end,
    {
        end += 1;
    }
    Ok(Some(String::from_str(text.substring_char(start, end))))
}

impl WechatPay {
    /// Reads the payment link out of the page that the gateway answered a
    /// mobile-browser order's address with.
    pub fn get_weixin(&self, text: &str) -> (res: Result<Option<String>, PayError>)
        ensures
            link_outcome(res) == match weixin_link(text@) {
                Some(link) => Ok(Some(link)),
                None => Err(PayErrorView::WeixinNotFound),
            },
    {
        find_weixin_link(text)
    }
}

} // verus!

//! What the desktop's settings say, read from the replies of its tools.
//!
//! The tools are run elsewhere. Here their replies are taken apart: whether the
//! desktop asks for a dark theme, which font it asks for in title bars, and how
//! that font is named to the font matcher.

use vstd::prelude::*;
use vstd::string::StrSliceExecFns;
use vstd::string::StringExecFns;
use crate::font_preference::{spec_from_name_style_size, FontPreference};

verus! {

/// Whether a character is white space, as `char::is_whitespace` tells it.
pub uninterp spec fn char_is_whitespace(c: char) -> bool;

/// `char::is_whitespace`: whether the character has the Unicode property
/// `White_Space`.
#[verifier::external_body]
fn is_whitespace(c: char) -> (white: bool)
    ensures
        white == char_is_whitespace(c),
{
    c.is_whitespace()
}

/// The characters that are taken off the ends of a text: single quotes, or white
/// space.
pub open spec fn skipped(c: char, quotes: bool) -> bool {
    if quotes {
        c == '\''
    } else {
        char_is_whitespace(c)
    }
}

/// The first place from `from` on, and before `to`, whose character stays; `to`
/// where none does.
pub open spec fn skip_front(s: Seq<char>, quotes: bool, from: int, to: int) -> int
    decreases to - from,
{
    if from >= to {
        to
    } else if skipped(s[from], quotes) {
        skip_front(s, quotes, from + 1, to)
    } else {
        from
    }
}

/// The end of the last character before `to`, and not before `from`, that stays;
/// `from` where none does.
pub open spec fn skip_back(s: Seq<char>, quotes: bool, from: int, to: int) -> int
    decreases to - from,
{
    if to <= from {
        from
    } else if skipped(s[to - 1], quotes) {
        skip_back(s, quotes, from, to - 1)
    } else {
        to
    }
}

/// The text without the white space, or without the single quotes, at its two ends.
pub open spec fn spec_strip(s: Seq<char>, quotes: bool) -> Seq<char> {
    let from = skip_front(s, quotes, 0, s.len() as int);
    let to = skip_back(s, quotes, from, s.len() as int);
    s.subrange(from, to)
}

/// The text ends with `pat`.
pub open spec fn spec_ends_with(s: Seq<char>, pat: Seq<char>) -> bool {
    pat.len() <= s.len() && s.subrange(s.len() - pat.len(), s.len() as int) == pat
}

/// `pat` stands somewhere in the text.
pub open spec fn spec_contains(s: Seq<char>, pat: Seq<char>) -> bool {
    exists|i: int| 0 <= i <= s.len() - pat.len() && #[trigger] s.subrange(i, i + pat.len()) == pat
}

/// Where the skipping from the front ends.
pub proof fn lemma_skip_front(s: Seq<char>, quotes: bool, from: int, to: int)
    requires
        0 <= from <= to <= s.len(),
    ensures
        from <= skip_front(s, quotes, from, to) <= to,
        skip_front(s, quotes, from, to) < to ==> !skipped(s[skip_front(s, quotes, from, to)], quotes),
        forall|i: int| from <= i < skip_front(s, quotes, from, to) ==> skipped(#[trigger] s[i], quotes),
    decreases to - from,
{
    if from < to && skipped(s[from], quotes) {
        lemma_skip_front(s, quotes, from + 1, to);
    }
}

/// Where the skipping from the back ends.
pub proof fn lemma_skip_back(s: Seq<char>, quotes: bool, from: int, to: int)
    requires
        0 <= from <= to <= s.len(),
    ensures
        from <= skip_back(s, quotes, from, to) <= to,
        skip_back(s, quotes, from, to) > from ==> !skipped(
            s[skip_back(s, quotes, from, to) - 1],
            quotes,
        ),
        forall|i: int| skip_back(s, quotes, from, to) <= i < to ==> skipped(#[trigger] s[i], quotes),
    decreases to - from,
{
    if from < to && skipped(s[to - 1], quotes) {
        lemma_skip_back(s, quotes, from, to - 1);
    }
}

/// What is taken off a text is all of the kind that is taken off, and what stays
/// neither begins nor ends with such a character.
pub proof fn lemma_strip(s: Seq<char>, quotes: bool)
    ensures
        ({
            let from = skip_front(s, quotes, 0, s.len() as int);
            let to = skip_back(s, quotes, from, s.len() as int);
            let kept = spec_strip(s, quotes);
            &&& 0 <= from <= to <= s.len()
            &&& kept.len() == to - from
            &&& forall|i: int| 0 <= i < from ==> skipped(#[trigger] s[i], quotes)
            &&& forall|i: int| to <= i < s.len() ==> skipped(#[trigger] s[i], quotes)
            &&& kept.len() > 0 ==> !skipped(kept[0], quotes) && !skipped(kept[kept.len() - 1], quotes)
        }),
{
    let from = skip_front(s, quotes, 0, s.len() as int);
    lemma_skip_front(s, quotes, 0, s.len() as int);
    lemma_skip_back(s, quotes, from, s.len() as int);
}

/// Whether the character is taken off the ends.
fn skips(c: char, quotes: bool) -> (skip: bool)
    ensures
        skip == skipped(c, quotes),
{
    if quotes {
        c == '\''
    } else {
        is_whitespace(c)
    }
}

/// The text without the white space, or without the single quotes, at its two ends.
pub fn strip(s: &str, quotes: bool) -> (t: &str)
    ensures
        t@ == spec_strip(s@, quotes),
{
    let len = s.unicode_len();
    let mut from: usize = 0;
    while from < len && skips(s.get_char(from), quotes)
        invariant
            from <= len,
            len == s@.len(),
            skip_front(s@, quotes, 0, len as int) == skip_front(s@, quotes, from as int, len as int),
        decreases len - from,
    {
        from += 1;
    }
    let mut to: usize = len;
    while to > from && skips(s.get_char(to - 1), quotes)
        invariant
            from <= to <= len,
            len == s@.len(),
            skip_back(s@, quotes, from as int, len as int) == skip_back(
                s@,
                quotes,
                from as int,
                to as int,
            ),
        decreases to - from,
    {
        to -= 1;
    }
    s.substring_char(from, to)
}

/// Whether `pat` stands in `s`, a text of `len` characters, at place `at`.
fn matches_at(s: &str, len: usize, at: usize, pat: &str) -> (same: bool)
    requires
        len == s@.len(),
        at + pat@.len() <= len,
    ensures
        same == (s@.subrange(at as int, at + pat@.len()) == pat@),
{
    let n = pat.unicode_len();
    let ghost part = s@.subrange(at as int, at + pat@.len());
    let mut k: usize = 0;
    while k < n
        invariant
            k <= n,
            n == pat@.len(),
            len == s@.len(),
            at + n <= len,
            part == s@.subrange(at as int, at + pat@.len()),
            forall|j: int| 0 <= j < k ==> part[j] == pat@[j],
        decreases n - k,
    {
        if s.get_char(at + k) != pat.get_char(k) {
            assert(part[k as int] != pat@[k as int]);
            return false;
        }
        k += 1;
    }
    assert(part =~= pat@);
    true
}

/// Whether the text ends with `pat`.
pub fn ends_with(s: &str, pat: &str) -> (ends: bool)
    ensures
        ends == spec_ends_with(s@, pat@),
{
    let len = s.unicode_len();
    let n = pat.unicode_len();
    if n > len {
        return false;
    }
    matches_at(s, len, len - n, pat)
}

/// Whether `pat` stands somewhere in the text.
pub fn contains(s: &str, pat: &str) -> (found: bool)
    ensures
        found == spec_contains(s@, pat@),
{
    let len = s.unicode_len();
    let n = pat.unicode_len();
    if n > len {
        return false;
    }
    let last = len - n;
    let mut i: usize = 0;
    loop
        invariant
            i <= last,
            len == s@.len(),
            last == s@.len() - pat@.len(),
            forall|j: int| 0 <= j < i ==> #[trigger] s@.subrange(j, j + pat@.len()) != pat@,
        decreases last - i,
    {
        if matches_at(s, len, i, pat) {
            return true;
        }
        if i == last {
            return false;
        }
        i += 1;
    }
}

/// The desktop portal was asked for the colour scheme, and this is what it said.
/// It asks for a dark theme where the reply, white space at its ends apart, ends
/// with `uint32 1`.
pub fn reply_prefers_dark(reply: &str) -> (dark: bool)
    ensures
        dark == spec_ends_with(spec_strip(reply@, false), "uint32 1"@),
{
    ends_with(strip(reply, false), "uint32 1")
}

/// The settings were asked for the colour scheme, and this is what they said. They
/// ask for a dark theme where `prefer-dark` stands in the reply.
pub fn setting_prefers_dark(reply: &str) -> (dark: bool)
    ensures
        dark == spec_contains(reply@, "prefer-dark"@),
{
    contains(reply, "prefer-dark")
}

/// Whether a dark theme is asked for, by the portal or by the settings. A tool
/// that gave no reply asks for nothing.
pub open spec fn spec_prefer_dark(portal: Option<Seq<char>>, setting: Option<Seq<char>>) -> bool {
    ||| portal matches Some(reply) && spec_ends_with(spec_strip(reply, false), "uint32 1"@)
    ||| setting matches Some(reply) && spec_contains(reply, "prefer-dark"@)
}

/// Whether a dark theme is asked for, given what the portal and the settings said.
pub fn prefer_dark(portal: Option<&str>, setting: Option<&str>) -> (dark: bool)
    ensures
        dark == spec_prefer_dark(
            match portal {
                Some(reply) => Some(reply@),
                None => None,
            },
            match setting {
                Some(reply) => Some(reply@),
                None => None,
            },
        ),
{
    let by_portal = match portal {
        Some(reply) => reply_prefers_dark(reply),
        None => false,
    };
    if by_portal {
        return true;
    }
    match setting {
        Some(reply) => setting_prefers_dark(reply),
        None => false,
    }
}

/// The font for title bars that the settings name. The reply is the preference in
/// single quotes, as in `'Cantarell Bold 12'`, with white space around it.
pub fn titlebar_font(reply: &str) -> (font: Option<FontPreference>)
    ensures
        font matches Some(pref) && pref@ == spec_from_name_style_size(
            spec_strip(spec_strip(reply@, false), true),
        ),
{
    FontPreference::from_name_style_size(strip(strip(reply, false), true))
}

/// The name by which the font matcher knows the font: its name, then a colon and
/// the style where there is one.
pub open spec fn spec_font_pattern(name: Seq<char>, style: Option<Seq<char>>) -> Seq<char> {
    match style {
        Some(style) => name + seq![':'] + style,
        None => name,
    }
}

/// The name by which the font matcher knows the font.
pub fn font_pattern(pref: &FontPreference) -> (pattern: String)
    ensures
        pattern@ == spec_font_pattern(pref@.name, pref@.style),
{
    let mut pattern = pref.name.clone();
    match &pref.style {
        Some(style) => {
            proof {
                reveal_strlit(":");
                assert(":"@ =~= seq![':']);
            }
            pattern.append(":");
            pattern.append(style.as_str());
        },
        None => {},
    }
    pattern
}

/// The style is `bold`, in small or capital letters.
pub open spec fn spec_is_bold(style: Seq<char>) -> bool {
    &&& style.len() == 4
    &&& (style[0] == 'b' || style[0] == 'B')
    &&& (style[1] == 'o' || style[1] == 'O')
    &&& (style[2] == 'l' || style[2] == 'L')
    &&& (style[3] == 'd' || style[3] == 'D')
}

/// Whether the preference asks for a bold font.
pub fn wants_bold(pref: &FontPreference) -> (bold: bool)
    ensures
        bold == (pref@.style matches Some(style) && spec_is_bold(style)),
{
    match &pref.style {
        None => false,
        Some(style) => {
            let style = style.as_str();
            if style.unicode_len() != 4 {
                return false;
            }
            let b = style.get_char(0);
            let o = style.get_char(1);
            let l = style.get_char(2);
            let d = style.get_char(3);
            (b == 'b' || b == 'B') && (o == 'o' || o == 'O') && (l == 'l' || l == 'L') && (d == 'd'
                || d == 'D')
        },
    }
}

} // verus!

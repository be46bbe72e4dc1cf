//! The font that the desktop asks for in title bars, as it is written in the
//! settings: a name, then perhaps a style, then perhaps a size, with single spaces
//! between them, as in `Cantarell Bold 11`.

use vstd::prelude::*;
use vstd::string::StrSliceExecFns;

verus! {

/// Whether a character is a numeral, as `char::is_numeric` tells it.
pub uninterp spec fn char_is_numeric(c: char) -> bool;

/// `char::is_numeric`: whether the character is in one of the general categories for
/// numbers.
#[verifier::external_body]
fn is_numeric(c: char) -> (numeric: bool)
    ensures
        numeric == char_is_numeric(c),
{
    c.is_numeric()
}

/// A font preference as the verifier sees it.
pub struct FontPreferenceView {
    pub name: Seq<char>,
    pub style: Option<Seq<char>>,
    /// The size as it was written. It is still to be read as a number.
    pub size: Option<Seq<char>>,
}

/// The place of the first space of `s` at or after `from`; the length of `s` where
/// there is none.
pub open spec fn next_space(s: Seq<char>, from: int) -> int
    decreases s.len() - from,
{
    if from >= s.len() {
        s.len() as int
    } else if s[from] == ' ' {
        from
    } else {
        next_space(s, from + 1)
    }
}

/// The word could be a size: it is made of numerals and dots only.
pub open spec fn looks_numeric(word: Seq<char>) -> bool {
    forall|i: int| 0 <= i < word.len() ==> char_is_numeric(#[trigger] word[i]) || word[i] == '.'
}

/// The preference written in `conf`.
///
/// The words of `conf` are what lies between its spaces. The first is the name,
/// the second the style, the third the size. Where there are only two and the
/// second could be a size, it is the size and there is no style.
pub open spec fn spec_from_name_style_size(conf: Seq<char>) -> FontPreferenceView {
    let end1 = next_space(conf, 0);
    let end2 = next_space(conf, end1 + 1);
    let end3 = next_space(conf, end2 + 1);
    let name = conf.subrange(0, end1);
    if end1 >= conf.len() {
        FontPreferenceView { name, style: None, size: None }
    } else if end2 >= conf.len() {
        let second = conf.subrange(end1 + 1, end2);
        if looks_numeric(second) {
            FontPreferenceView { name, style: None, size: Some(second) }
        } else {
            FontPreferenceView { name, style: Some(second), size: None }
        }
    } else {
        FontPreferenceView {
            name,
            style: Some(conf.subrange(end1 + 1, end2)),
            size: Some(conf.subrange(end2 + 1, end3)),
        }
    }
}

/// The first space at or after a place lies between that place and the end, and
/// no space lies before it.
pub proof fn lemma_next_space(s: Seq<char>, from: int)
    requires
        0 <= from <= s.len(),
    ensures
        from <= next_space(s, from) <= s.len(),
        next_space(s, from) < s.len() ==> s[next_space(s, from)] == ' ',
        forall|i: int| from <= i < next_space(s, from) ==> s[i] != ' ',
    decreases s.len() - from,
{
    if from < s.len() && s[from] != ' ' {
        lemma_next_space(s, from + 1);
    }
}

/// The font to use in title bars.
#[derive(Debug)]
pub struct FontPreference {
    pub name: String,
    pub style: Option<String>,
    /// The size in points as it was written, still to be read as a number.
    pub size: Option<String>,
}

impl View for FontPreference {
    type V = FontPreferenceView;

    open spec fn view(&self) -> FontPreferenceView {
        FontPreferenceView {
            name: self.name@,
            style: match self.style {
                Some(s) => Some(s@),
                None => None,
            },
            size: match self.size {
                Some(s) => Some(s@),
                None => None,
            },
        }
    }
}

impl Default for FontPreference {
    fn default() -> (p: FontPreference)
        ensures
            p@ == (FontPreferenceView { name: "sans-serif"@, style: None, size: None }),
    {
        FontPreference { name: "sans-serif".to_owned(), style: None, size: None }
    }
}

/// Finds the first space of `conf` at or after `from`.
fn find_space(conf: &str, len: usize, from: usize) -> (at: usize)
    requires
        len == conf@.len(),
        from <= len,
    ensures
        at == next_space(conf@, from as int),
        from <= at <= len,
{
    let mut i = from;
    while i < len
        invariant
            from <= i <= len,
            len == conf@.len(),
            next_space(conf@, from as int) == next_space(conf@, i as int),
        decreases len - i,
    {
        if conf.get_char(i) == ' ' {
            return i;
        }
        i += 1;
    }
    i
}

/// Whether the characters of `conf` from `from` up to `to` are numerals and dots.
fn numeric_between(conf: &str, from: usize, to: usize) -> (numeric: bool)
    requires
        from <= to <= conf@.len(),
    ensures
        numeric == looks_numeric(conf@.subrange(from as int, to as int)),
{
    let ghost word = conf@.subrange(from as int, to as int);
    let mut i = from;
    while i < to
        invariant
            from <= i <= to <= conf@.len(),
            word == conf@.subrange(from as int, to as int),
            forall|k: int| 0 <= k < i - from ==> char_is_numeric(#[trigger] word[k]) || word[k] == '.',
        decreases to - i,
    {
        let c = conf.get_char(i);
        assert(word[i - from] == c);
        if !(is_numeric(c) || c == '.') {
            return false;
        }
        i += 1;
    }
    true
}

impl FontPreference {
    /// Parse config string like `Cantarell 12` or `Cantarell Bold 11`.
    ///
    /// Every string holds a preference: one without a space is a name.
    pub fn from_name_style_size(conf: &str) -> (p: Option<FontPreference>)
        ensures
            p matches Some(pref) && pref@ == spec_from_name_style_size(conf@),
    {
        let len = conf.unicode_len();
        let end1 = find_space(conf, len, 0);
        let name = conf.substring_char(0, end1).to_owned();
        if end1 >= len {
            return Some(FontPreference { name, style: None, size: None });
        }
        let end2 = find_space(conf, len, end1 + 1);
        if end2 >= len {
            let second = conf.substring_char(end1 + 1, end2).to_owned();
            if numeric_between(conf, end1 + 1, end2) {
                return Some(FontPreference { name, style: None, size: Some(second) });
            }
            return Some(FontPreference { name, style: Some(second), size: None });
        }
        let end3 = find_space(conf, len, end2 + 1);
        let style = conf.substring_char(end1 + 1, end2).to_owned();
        let size = conf.substring_char(end2 + 1, end3).to_owned();
        Some(FontPreference { name, style: Some(style), size: Some(size) })
    }
}

} // verus!

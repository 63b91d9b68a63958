//! Text filters for transcription output: lowercase, punctuation removal and
//! a guard against transcripts in an unexpected alphabet.
use vstd::prelude::*;
use crate::text::{
    all_white_space, char_is_alphabetic, chars_of, lemma_trim_shape, str_eq, str_to_lowercase,
    string_of, trim, trim_bounds, unicode_alphabetic, unicode_lowercase,
};

verus! {

/// Configuration for text filters.
///
/// The alphabet threshold is held in thousandths: a transcript is dropped
/// when more than `alphabet_threshold_permille / 1000` of its letters lie
/// outside the Latin range.
#[derive(Debug, Clone, Copy, PartialEq, Eq, Structural)]
pub struct TextFilters {
    /// Convert text to lowercase.
    pub lowercase: bool,
    /// Remove punctuation marks.
    pub remove_punctuation: bool,
    /// Ignore a transcript that predominantly uses an alphabet different from
    /// the expected language.
    pub strict_alphabet: bool,
    /// Proportion of foreign letters allowed, in thousandths (0 to 1000).
    pub alphabet_threshold_permille: u32,
}

impl Default for TextFilters {
    fn default() -> (r: Self)
        ensures
            !r.lowercase,
            !r.remove_punctuation,
            r.strict_alphabet,
            r.alphabet_threshold_permille == 500,
    {
        TextFilters {
            lowercase: false,
            remove_punctuation: false,
            strict_alphabet: true,
            alphabet_threshold_permille: 500,
        }
    }
}

/// The punctuation marks that the punctuation filter removes.
pub open spec fn is_punct(c: char) -> bool {
    ||| c == '.' || c == ',' || c == '!' || c == '?' || c == ';' || c == ':'
    ||| c == '"' || c == '\'' || c == '(' || c == ')' || c == '[' || c == ']'
    ||| c == '{' || c == '}' || c == '-' || c == '\u{2014}' || c == '\u{2013}'
    ||| c == '\u{2026}' || c == '/' || c == '\\' || c == '&' || c == '*' || c == '#'
    ||| c == '@' || c == '%' || c == '^' || c == '+' || c == '=' || c == '~' || c == '`'
    ||| c == '|' || c == '<' || c == '>'
}

/// `s` without its punctuation marks.
pub open spec fn strip_punct(s: Seq<char>) -> Seq<char>
    decreases s.len(),
{
    if s.len() == 0 {
        s
    } else if is_punct(s.last()) {
        strip_punct(s.drop_last())
    } else {
        strip_punct(s.drop_last()).push(s.last())
    }
}

/// Number of letters (Unicode `Alphabetic`) in `s`.
pub open spec fn letter_count(s: Seq<char>) -> nat
    decreases s.len(),
{
    if s.len() == 0 {
        0
    } else {
        letter_count(s.drop_last()) + if unicode_alphabetic(s.last()) {
            1nat
        } else {
            0nat
        }
    }
}

/// True for a character outside the Latin range (above U+024F).
pub open spec fn is_foreign(c: char) -> bool {
    (c as u32) > 0x24F
}

/// Number of letters outside the Latin range in `s`.
pub open spec fn foreign_letter_count(s: Seq<char>) -> nat
    decreases s.len(),
{
    if s.len() == 0 {
        0
    } else {
        foreign_letter_count(s.drop_last()) + if unicode_alphabetic(s.last()) && is_foreign(
            s.last(),
        ) {
            1nat
        } else {
            0nat
        }
    }
}

/// The language codes and names for which the alphabet guard applies.
pub open spec fn is_latin_language(lang: Seq<char>) -> bool {
    ||| lang == "en"@ || lang == "english"@ || lang == "no"@ || lang == "norwegian"@
    ||| lang == "nn"@ || lang == "nb"@ || lang == "es"@ || lang == "spanish"@
    ||| lang == "fr"@ || lang == "french"@ || lang == "de"@ || lang == "german"@
}

/// The language the guard checks against (`en` when none is given), lowercased.
pub open spec fn guard_language(language: Option<Seq<char>>) -> Seq<char> {
    match language {
        Some(l) => unicode_lowercase(l),
        None => unicode_lowercase("en"@),
    }
}

/// Whether a transcript has too many letters outside the expected script.
pub open spec fn exceeds_threshold(
    permille: u32,
    text: Seq<char>,
    language: Option<Seq<char>>,
) -> bool {
    if all_white_space(text) || !is_latin_language(guard_language(language)) {
        false
    } else {
        let total = letter_count(text);
        total != 0 && foreign_letter_count(text) * 1000 > permille * total
    }
}

/// What the filters make of a transcript.
pub open spec fn apply_filters(
    f: TextFilters,
    text: Seq<char>,
    language: Option<Seq<char>>,
) -> Seq<char> {
    if f.strict_alphabet && exceeds_threshold(f.alphabet_threshold_permille, text, language) {
        Seq::empty()
    } else {
        let a = if f.remove_punctuation {
            strip_punct(text)
        } else {
            text
        };
        if f.lowercase {
            unicode_lowercase(a)
        } else {
            a
        }
    }
}

/// Whether `c` is one of the punctuation marks the filter removes.
pub fn is_punctuation(c: char) -> (r: bool)
    ensures
        r == is_punct(c),
{
    c == '.' || c == ',' || c == '!' || c == '?' || c == ';' || c == ':' || c == '"' || c == '\''
        || c == '(' || c == ')' || c == '[' || c == ']' || c == '{' || c == '}' || c == '-'
        || c == '\u{2014}' || c == '\u{2013}' || c == '\u{2026}' || c == '/' || c == '\\'
        || c == '&' || c == '*' || c == '#' || c == '@' || c == '%' || c == '^' || c == '+'
        || c == '=' || c == '~' || c == '`' || c == '|' || c == '<' || c == '>'
}

/// `text` without its punctuation marks.
pub fn remove_punctuation(text: &str) -> (r: String)
    ensures
        r@ == strip_punct(text@),
{
    let v = chars_of(text);
    let mut out: Vec<char> = Vec::new();
    let mut i: usize = 0;
    while i < v.len()
        invariant
            i <= v.len(),
            out@ == strip_punct(v@.take(i as int)),
        decreases v.len() - i,
    {
        assert(v@.take(i + 1).drop_last() =~= v@.take(i as int));
        if !is_punctuation(v[i]) {
            out.push(v[i]);
        }
        i = i + 1;
    }
    assert(v@.take(v.len() as int) =~= v@);
    string_of(&out)
}

/// Counts all letters and foreign letters of `v`.
fn count_letters(v: &Vec<char>) -> (r: (usize, usize))
    ensures
        r.0 == letter_count(v@),
        r.1 == foreign_letter_count(v@),
{
    let mut total: usize = 0;
    let mut foreign: usize = 0;
    let mut i: usize = 0;
    while i < v.len()
        invariant
            i <= v.len(),
            total == letter_count(v@.take(i as int)),
            foreign == foreign_letter_count(v@.take(i as int)),
            foreign <= total <= i,
        decreases v.len() - i,
    {
        assert(v@.take(i + 1).drop_last() =~= v@.take(i as int));
        let c = v[i];
        if char_is_alphabetic(c) {
            total = total + 1;
            if (c as u32) > 0x24F {
                foreign = foreign + 1;
            }
        }
        i = i + 1;
    }
    assert(v@.take(v.len() as int) =~= v@);
    (total, foreign)
}

/// Whether `lang` (already lowercased) is one of the guarded languages.
fn latin_language(lang: &str) -> (r: bool)
    ensures
        r == is_latin_language(lang@),
{
    str_eq(lang, "en") || str_eq(lang, "english") || str_eq(lang, "no") || str_eq(
        lang,
        "norwegian",
    ) || str_eq(lang, "nn") || str_eq(lang, "nb") || str_eq(lang, "es") || str_eq(
        lang,
        "spanish",
    ) || str_eq(lang, "fr") || str_eq(lang, "french") || str_eq(lang, "de") || str_eq(
        lang,
        "german",
    )
}

impl TextFilters {
    /// Default filters: only the alphabet guard is on.
    pub fn new() -> (r: Self)
        ensures
            !r.lowercase,
            !r.remove_punctuation,
            r.strict_alphabet,
            r.alphabet_threshold_permille == 500,
    {
        TextFilters::default()
    }

    /// Applies all enabled filters to a transcript.
    pub fn apply(&self, text: &str, language: Option<&str>) -> (r: String)
        ensures
            r@ == apply_filters(
                *self,
                text@,
                match language {
                    Some(l) => Some(l@),
                    None => None,
                },
            ),
    {
        if self.strict_alphabet && self.exceeds_alphabet_threshold(text, language) {
            return String::new();
        }
        let a = if self.remove_punctuation {
            remove_punctuation(text)
        } else {
            crate::text::copy_str(text)
        };
        if self.lowercase {
            str_to_lowercase(a.as_str())
        } else {
            a
        }
    }

    /// Whether any filter is enabled.
    pub fn any_enabled(&self) -> (r: bool)
        ensures
            r == (self.lowercase || self.remove_punctuation || self.strict_alphabet),
    {
        self.lowercase || self.remove_punctuation || self.strict_alphabet
    }

    /// Whether the transcript has too many letters outside the expected
    /// script for the target language.
    pub fn exceeds_alphabet_threshold(&self, text: &str, language: Option<&str>) -> (r: bool)
        ensures
            r == exceeds_threshold(
                self.alphabet_threshold_permille,
                text@,
                match language {
                    Some(l) => Some(l@),
                    None => None,
                },
            ),
    {
        let v = chars_of(text);
        let (lo, hi) = trim_bounds(&v);
        proof {
            lemma_trim_shape(text@);
        }
        if lo == hi {
            return false;
        }
        let lang = match language {
            Some(l) => str_to_lowercase(l),
            None => str_to_lowercase("en"),
        };
        if !latin_language(lang.as_str()) {
            return false;
        }
        let (total, foreign) = count_letters(&v);
        if total == 0 {
            return false;
        }
        let p = self.alphabet_threshold_permille as u128;
        let t = total as u128;
        assert(p * t <= 0xffff_ffffu128 * 0xffff_ffff_ffff_ffffu128) by (nonlinear_arith)
            requires
                p <= 0xffff_ffff,
                t <= 0xffff_ffff_ffff_ffff,
        ;
        (foreign as u128) * 1000 > p * t
    }
}

/// Removing punctuation twice removes nothing more.
pub proof fn law_strip_punct_idempotent(s: Seq<char>)
    ensures
        strip_punct(strip_punct(s)) == strip_punct(s),
        forall|i: int| 0 <= i < strip_punct(s).len() ==> !is_punct(#[trigger] strip_punct(s)[i]),
    decreases s.len(),
{
    if s.len() > 0 {
        law_strip_punct_idempotent(s.drop_last());
        let t = strip_punct(s.drop_last());
        if !is_punct(s.last()) {
            assert(t.push(s.last()).drop_last() =~= t);
        }
    }
}

/// The marks the punctuation filter is documented to remove.
pub open spec fn punctuation_mark(c: char) -> bool {
    match c {
        '.' | ',' | '!' | '?' | ';' | ':' | '"' | '\'' | '(' | ')' | '[' | ']' | '{' | '}' | '-' => true,
        '\u{2014}' | '\u{2013}' | '\u{2026}' | '/' | '\\' | '&' | '*' | '#' | '@' | '%' | '^' => true,
        '+' | '=' | '~' | '`' | '|' | '<' | '>' => true,
        _ => false,
    }
}

/// Removing punctuation keeps exactly the characters that are not
/// documented marks, in order: no mark (`?` included) is left, and every
/// other character stays.
pub proof fn law_strip_punct_removes_marks(s: Seq<char>)
    ensures
        strip_punct(s) == s.filter(|c: char| !punctuation_mark(c)),
        forall|i: int| 0 <= i < strip_punct(s).len() ==> !punctuation_mark(#[trigger] strip_punct(s)[i]),
    decreases s.len(),
{
    reveal(Seq::filter);
    if s.len() > 0 {
        law_strip_punct_removes_marks(s.drop_last());
        assert(is_punct(s.last()) == punctuation_mark(s.last()));
        let t = strip_punct(s.drop_last());
        if !is_punct(s.last()) {
            assert forall|i: int| 0 <= i < t.push(s.last()).len() implies !punctuation_mark(
                #[trigger] t.push(s.last())[i],
            ) by {
                if i < t.len() {
                    assert(t.push(s.last())[i] == t[i]);
                }
            }
        }
    }
}

/// With punctuation removal on and lowercasing off, a transcript that the
/// alphabet guard lets through comes out with every documented mark
/// removed and everything else kept.
pub proof fn law_punctuation_filter(f: TextFilters, text: Seq<char>, language: Option<Seq<char>>)
    requires
        f.remove_punctuation,
        !f.lowercase,
        !(f.strict_alphabet && exceeds_threshold(f.alphabet_threshold_permille, text, language)),
    ensures
        apply_filters(f, text, language) == text.filter(|c: char| !punctuation_mark(c)),
        forall|i: int| 0 <= i < apply_filters(f, text, language).len() ==> !punctuation_mark(
            #[trigger] apply_filters(f, text, language)[i],
        ),
{
    law_strip_punct_removes_marks(text);
}

/// The languages (codes and names, lowercased) for which the alphabet
/// guard applies: English, Norwegian (`no`, `nn`, `nb`), Spanish, French
/// and German.
pub open spec fn guarded_languages() -> Seq<Seq<char>> {
    seq![
        "en"@,
        "english"@,
        "no"@,
        "norwegian"@,
        "nn"@,
        "nb"@,
        "es"@,
        "spanish"@,
        "fr"@,
        "french"@,
        "de"@,
        "german"@,
    ]
}

/// The alphabet guard applies to exactly the languages of
/// [`guarded_languages`].
pub proof fn law_guarded_languages(lang: Seq<char>)
    ensures
        is_latin_language(lang) <==> guarded_languages().contains(lang),
{
    let g = guarded_languages();
    assert(g[0] == "en"@);
    assert(g[1] == "english"@);
    assert(g[2] == "no"@);
    assert(g[3] == "norwegian"@);
    assert(g[4] == "nn"@);
    assert(g[5] == "nb"@);
    assert(g[6] == "es"@);
    assert(g[7] == "spanish"@);
    assert(g[8] == "fr"@);
    assert(g[9] == "french"@);
    assert(g[10] == "de"@);
    assert(g[11] == "german"@);
    if is_latin_language(lang) {
        if lang == "en"@ {
            assert(g[0] == lang);
        } else if lang == "english"@ {
            assert(g[1] == lang);
        } else if lang == "no"@ {
            assert(g[2] == lang);
        } else if lang == "norwegian"@ {
            assert(g[3] == lang);
        } else if lang == "nn"@ {
            assert(g[4] == lang);
        } else if lang == "nb"@ {
            assert(g[5] == lang);
        } else if lang == "es"@ {
            assert(g[6] == lang);
        } else if lang == "spanish"@ {
            assert(g[7] == lang);
        } else if lang == "fr"@ {
            assert(g[8] == lang);
        } else if lang == "french"@ {
            assert(g[9] == lang);
        } else if lang == "de"@ {
            assert(g[10] == lang);
        } else {
            assert(g[11] == lang);
        }
    }
    if g.contains(lang) {
        let k = choose|k: int| 0 <= k < g.len() && g[k] == lang;
        assert(0 <= k < 12);
    }
}

/// Letters up to U+024F (Basic Latin to Latin Extended-B) are never
/// foreign: a transcript written only in them is never dropped by the
/// alphabet guard, whatever the language and threshold.
pub proof fn law_latin_text_passes(permille: u32, text: Seq<char>, language: Option<Seq<char>>)
    requires
        forall|i: int| 0 <= i < text.len() ==> (#[trigger] text[i] as u32) <= 0x24F,
    ensures
        foreign_letter_count(text) == 0,
        !exceeds_threshold(permille, text, language),
    decreases text.len(),
{
    if text.len() > 0 {
        assert forall|i: int| 0 <= i < text.drop_last().len() implies (#[trigger] text.drop_last()[i] as u32)
            <= 0x24F by {
            assert(text.drop_last()[i] == text[i]);
        }
        law_latin_text_passes(permille, text.drop_last(), language);
        assert((text[text.len() - 1] as u32) <= 0x24F);
    }
}

/// With every filter off, a transcript passes unchanged.
pub proof fn law_no_filters_identity(f: TextFilters, text: Seq<char>, language: Option<Seq<char>>)
    requires
        !f.lowercase && !f.remove_punctuation && !f.strict_alphabet,
    ensures
        apply_filters(f, text, language) == text,
{
}

/// A blank transcript is never dropped by the alphabet guard.
pub proof fn law_blank_never_foreign(permille: u32, text: Seq<char>, language: Option<Seq<char>>)
    requires
        all_white_space(text),
    ensures
        !exceeds_threshold(permille, text, language),
{
}

} // verus!

//! Word wrapping of descriptions: a first line that shares its row with a prefix, and
//! full-width lines after it.
//!
//! The lines are made by `textwrap`, of the text with a space in the place of every
//! other whitespace but line breaks, so that words are what whitespace sets apart. They
//! are handed on only after they are found to be a wrapping of the text, so that what
//! is emitted is known to fit its rows and to hold the words of the description.

use crate::script_api::model::CompileError;
use crate::text::{chars_of, char_is_whitespace, has_whitespace, is_printable, is_whitespace, join,
    same_texts, spaced, split_words, str_contains_char, str_eq, str_has_whitespace,
    str_is_printable, str_join, str_spaced, str_trim_end_matches, str_trim_start,
    trim_end_matches, trim_start, views, words};
use vstd::prelude::*;

verus! {

/// The lines that `textwrap::wrap` makes of `text` at `width` columns when it places
/// words first-fit, takes runs of spaces as the only word boundaries, and neither
/// hyphenates nor breaks a word that is longer than a line.
pub uninterp spec fn wrapped(text: Seq<char>, width: nat) -> Seq<Seq<char>>;

/// Calls `textwrap::wrap` with the options that [`wrapped`] describes and hands back its
/// lines as owned strings. Nothing is claimed of the lines but that they are the ones
/// `textwrap` returns for this text and width.
#[verifier::external_body]
fn wrap_text(text: &str, width: usize) -> (lines: Vec<String>)
    ensures
        views(lines@) == wrapped(text@, width as nat),
{
    let options = textwrap::Options::new(width)
        .wrap_algorithm(textwrap::WrapAlgorithm::FirstFit)
        .word_separator(textwrap::WordSeparator::AsciiSpace)
        .word_splitter(textwrap::WordSplitter::NoHyphenation)
        .break_words(false);
    textwrap::wrap(text, options).into_iter().map(|line| line.into_owned()).collect()
}

/// The columns left for text on a first line of which `cutoff` are already taken.
pub open spec fn first_budget(line_width: nat, cutoff: nat) -> nat {
    if cutoff <= line_width {
        (line_width - cutoff) as nat
    } else {
        0
    }
}

/// What is still to be wrapped once the first `taken` characters of `text` stand on the
/// first line: the rest of the text without leading whitespace. There is none where
/// the text has fewer than `taken` characters.
pub open spec fn remainder(text: Seq<char>, taken: nat) -> Option<Seq<char>> {
    if taken <= text.len() {
        Some(trim_start(text.skip(taken as int)))
    } else {
        None
    }
}

/// The first line of `head`, then the lines of `tail`.
pub open spec fn assembled(head: Seq<Seq<char>>, tail: Seq<Seq<char>>) -> Seq<Seq<char>> {
    seq![head[0]] + tail
}

/// The lines that are taken from `textwrap` for `text`, once spaces stand for its
/// other whitespace: the first of those it makes at the width of the first line, then
/// those it makes of the remainder at the full width. Empty text has no lines. `None`
/// where the wrapped first line is longer than the text it was taken from.
pub open spec fn arranged(text: Seq<char>, line_width: nat, cutoff: nat) -> Option<
    Seq<Seq<char>>,
> {
    let head = wrapped(spaced(text), first_budget(line_width, cutoff));
    if text.len() == 0 || head.len() == 0 {
        Some(Seq::empty())
    } else {
        match remainder(spaced(text), head[0].len()) {
            None => None,
            Some(rest) => if rest.len() == 0 {
                Some(seq![head[0]])
            } else {
                Some(assembled(head, wrapped(rest, line_width)))
            },
        }
    }
}

/// The columns that `text` takes on a row, as `textwrap` counts them.
pub uninterp spec fn columns(text: Seq<char>) -> nat;

/// Calls `textwrap::core::display_width`. The contract names the width it returns.
#[verifier::external_body]
fn display_columns(text: &str) -> (r: usize)
    ensures
        r as nat == columns(text@),
{
    textwrap::core::display_width(text)
}

/// The columns that the line at `index` may take: the first line is narrower by the
/// cutoff.
pub open spec fn budget_of(index: int, line_width: nat, cutoff: nat) -> nat {
    if index == 0 {
        first_budget(line_width, cutoff)
    } else {
        line_width
    }
}

/// A line fits its budget when it takes no more columns, or holds a single word, with
/// no whitespace in it: a word is never split, however long it is.
pub open spec fn line_fits(line: Seq<char>, budget: nat) -> bool {
    columns(line) <= budget || !has_whitespace(line)
}

/// A line fits its budget in characters when it has no more of them, or holds a single
/// word.
pub open spec fn line_fits_in_characters(line: Seq<char>, budget: nat) -> bool {
    line.len() <= budget || !has_whitespace(line)
}

/// Whether each of `lines` fits the budget of its row in characters.
pub open spec fn lines_fit_in_characters(lines: Seq<Seq<char>>, line_width: nat, cutoff: nat)
    -> bool {
    forall|i: int|
        0 <= i < lines.len() ==> line_fits_in_characters(
            #[trigger] lines[i],
            budget_of(i, line_width, cutoff),
        )
}

/// Whether each of `lines` fits the budget of its row.
pub open spec fn lines_fit(lines: Seq<Seq<char>>, line_width: nat, cutoff: nat) -> bool {
    forall|i: int|
        0 <= i < lines.len() ==> line_fits(#[trigger] lines[i], budget_of(i, line_width, cutoff))
}

/// Whether each of `lines` is one row: none holds a line break.
pub open spec fn lines_unbroken(lines: Seq<Seq<char>>) -> bool {
    forall|i: int| 0 <= i < lines.len() ==> !(#[trigger] lines[i]).contains('\n')
}

/// Whether `lines`, put together again with a space between each two, have the words
/// of `text` and no others.
pub open spec fn keeps_words(text: Seq<char>, lines: Seq<Seq<char>>) -> bool {
    words(join(lines, " "@)) == words(text)
}

/// Whether the character at `index` leaves `text` plain: it is no escape character,
/// and if it is whitespace, it is a space that no space follows.
pub open spec fn plain_at(text: Seq<char>, index: int) -> bool {
    let c = text[index];
    c != '\u{1b}' && (is_whitespace(c) ==> c == ' ' && (index + 1 < text.len() ==> text[index
        + 1] != ' '))
}

/// A text is plain when its words are set apart by single spaces and by nothing else,
/// and it holds no escape character: it has no line breaks of its own and no runs of
/// spaces that a line would have to keep.
pub open spec fn is_plain(text: Seq<char>) -> bool {
    forall|i: int| 0 <= i < text.len() ==> #[trigger] plain_at(text, i)
}

/// The number of characters of `line` before its first space.
pub open spec fn first_space(line: Seq<char>) -> nat
    decreases line.len(),
{
    if line.len() == 0 || line[0] == ' ' {
        0
    } else {
        1 + first_space(line.skip(1))
    }
}

/// The first word of `line`: what stands before its first space.
pub open spec fn first_word(line: Seq<char>) -> Seq<char> {
    line.take(first_space(line) as int)
}

/// Whether the line at `index` is full: the first word of the next line, set behind it
/// with a space, would take it over its budget.
pub open spec fn filled_at(lines: Seq<Seq<char>>, index: int, line_width: nat, cutoff: nat)
    -> bool {
    columns(lines[index]) + 1 + columns(first_word(lines[index + 1])) > budget_of(
        index,
        line_width,
        cutoff,
    )
}

/// Whether each of `lines` but the last holds as many words as fit its budget.
pub open spec fn lines_filled(lines: Seq<Seq<char>>, line_width: nat, cutoff: nat) -> bool {
    forall|i: int| 0 <= i < lines.len() - 1 ==> #[trigger] filled_at(lines, i, line_width, cutoff)
}

/// Whether `lines`, put together again with a space between each two, are `text`
/// but for spaces at its end.
pub open spec fn reassembles(text: Seq<char>, lines: Seq<Seq<char>>) -> bool {
    join(lines, " "@) == trim_end_matches(text, " "@)
}

/// Whether `lines` are a wrapping of `text`: each line one row within its budget, and
/// the words those of the text; where the text is printable, each line within its budget in
/// characters too; and where the text is plain, each line but the last filled, and the
/// lines together the text again.
pub open spec fn well_wrapped(
    text: Seq<char>,
    lines: Seq<Seq<char>>,
    line_width: nat,
    cutoff: nat,
) -> bool {
    &&& lines_fit(lines, line_width, cutoff)
    &&& lines_unbroken(lines)
    &&& keeps_words(text, lines)
    &&& is_printable(text) ==> lines_fit_in_characters(lines, line_width, cutoff)
    &&& is_plain(text) ==> lines_filled(lines, line_width, cutoff) && reassembles(text, lines)
}

/// The lines of `text` wrapped at `line_width`, the first of them `cutoff` columns
/// narrower: the arranged lines, where they are a wrapping of the text. `None` where
/// none are arranged, or lines that are no wrapping of the text.
pub open spec fn split(text: Seq<char>, line_width: nat, cutoff: nat) -> Option<Seq<Seq<char>>> {
    match arranged(text, line_width, cutoff) {
        Some(lines) => if well_wrapped(text, lines, line_width, cutoff) {
            Some(lines)
        } else {
            None
        },
        None => None,
    }
}

/// The text that follows `first` in `text`, without leading whitespace, where `first`
/// is no longer than `text`.
pub fn remainder_after(text: &str, first: &str) -> (r: Option<String>)
    ensures
        match r {
            Some(rest) => remainder(text@, first@.len()) == Some(rest@),
            None => remainder(text@, first@.len()) is None,
        },
{
    let total: usize = text.unicode_len();
    let taken: usize = first.unicode_len();
    if taken > total {
        return None;
    }
    assert(text@.subrange(taken as int, total as int) == text@.skip(taken as int));
    Some(str_trim_start(text.substring_char(taken, total)))
}

/// Whether `text` is plain.
pub fn text_is_plain(text: &str) -> (r: bool)
    ensures
        r == is_plain(text@),
{
    let chars: Vec<char> = chars_of(text);
    let mut i: usize = 0;
    while i < chars.len()
        invariant
            chars@ == text@,
            i <= chars@.len(),
            forall|j: int| 0 <= j < i ==> #[trigger] plain_at(text@, j),
        decreases chars@.len() - i,
    {
        let c: char = chars[i];
        let plain: bool = c != '\u{1b}' && (!char_is_whitespace(c) || (c == ' ' && (i + 1
            >= chars.len() || chars[i + 1] != ' ')));
        if !plain {
            assert(!plain_at(text@, i as int));
            return false;
        }
        i = i + 1;
    }
    true
}

/// The columns of the first word of `line`.
fn first_word_columns(line: &str) -> (r: usize)
    ensures
        r as nat == columns(first_word(line@)),
{
    let chars: Vec<char> = chars_of(line);
    let mut i: usize = 0;
    assert(line@.skip(0) == line@);
    while i < chars.len() && chars[i] != ' '
        invariant
            chars@ == line@,
            i <= chars@.len(),
            first_space(line@) == i + first_space(line@.skip(i as int)),
        decreases chars@.len() - i,
    {
        assert(line@.skip(i as int).skip(1) == line@.skip(i as int + 1));
        i = i + 1;
    }
    assert(line@.subrange(0, i as int) == line@.take(i as int));
    display_columns(line.substring_char(0, i))
}

/// Whether each of `lines` fits its budget.
fn check_fit(lines: &Vec<String>, line_width: usize, cutoff: usize) -> (r: bool)
    ensures
        r == lines_fit(views(lines@), line_width as nat, cutoff as nat),
{
    let first: usize = if cutoff <= line_width {
        line_width - cutoff
    } else {
        0
    };
    let mut i: usize = 0;
    while i < lines.len()
        invariant
            i <= lines@.len(),
            first as nat == first_budget(line_width as nat, cutoff as nat),
            forall|j: int|
                0 <= j < i ==> line_fits(
                    #[trigger] views(lines@)[j],
                    budget_of(j, line_width as nat, cutoff as nat),
                ),
        decreases lines@.len() - i,
    {
        let budget: usize = if i == 0 {
            first
        } else {
            line_width
        };
        let line: &str = lines[i].as_str();
        assert(views(lines@)[i as int] == line@);
        if display_columns(line) > budget && str_has_whitespace(line) {
            return false;
        }
        i = i + 1;
    }
    true
}

/// Whether none of `lines` holds a line break.
fn check_unbroken(lines: &Vec<String>) -> (r: bool)
    ensures
        r == lines_unbroken(views(lines@)),
{
    let mut i: usize = 0;
    while i < lines.len()
        invariant
            i <= lines@.len(),
            forall|j: int| 0 <= j < i ==> !(#[trigger] views(lines@)[j]).contains('\n'),
        decreases lines@.len() - i,
    {
        assert(views(lines@)[i as int] == lines@[i as int]@);
        if str_contains_char(lines[i].as_str(), '\n') {
            return false;
        }
        i = i + 1;
    }
    true
}

/// Whether each of `lines` fits its budget in characters.
fn check_fit_in_characters(lines: &Vec<String>, line_width: usize, cutoff: usize) -> (r: bool)
    ensures
        r == lines_fit_in_characters(views(lines@), line_width as nat, cutoff as nat),
{
    let first: usize = if cutoff <= line_width {
        line_width - cutoff
    } else {
        0
    };
    let mut i: usize = 0;
    while i < lines.len()
        invariant
            i <= lines@.len(),
            first as nat == first_budget(line_width as nat, cutoff as nat),
            forall|j: int|
                0 <= j < i ==> line_fits_in_characters(
                    #[trigger] views(lines@)[j],
                    budget_of(j, line_width as nat, cutoff as nat),
                ),
        decreases lines@.len() - i,
    {
        let budget: usize = if i == 0 {
            first
        } else {
            line_width
        };
        let line: &str = lines[i].as_str();
        assert(views(lines@)[i as int] == line@);
        if line.unicode_len() > budget && str_has_whitespace(line) {
            return false;
        }
        i = i + 1;
    }
    true
}

/// Whether each of `lines` but the last is filled.
fn check_filled(lines: &Vec<String>, line_width: usize, cutoff: usize) -> (r: bool)
    ensures
        r == lines_filled(views(lines@), line_width as nat, cutoff as nat),
{
    let first: usize = if cutoff <= line_width {
        line_width - cutoff
    } else {
        0
    };
    if lines.len() == 0 {
        return true;
    }
    let last: usize = lines.len() - 1;
    let mut i: usize = 0;
    while i < last
        invariant
            i <= last,
            last + 1 == lines@.len(),
            first as nat == first_budget(line_width as nat, cutoff as nat),
            forall|j: int|
                0 <= j < i ==> #[trigger] filled_at(
                    views(lines@),
                    j,
                    line_width as nat,
                    cutoff as nat,
                ),
        decreases last - i,
    {
        let budget: usize = if i == 0 {
            first
        } else {
            line_width
        };
        assert(views(lines@)[i as int] == lines@[i as int]@);
        assert(views(lines@)[i as int + 1] == lines@[i as int + 1]@);
        let here: u128 = display_columns(lines[i].as_str()) as u128;
        let next: u128 = first_word_columns(lines[i + 1].as_str()) as u128;
        if here + 1 + next <= budget as u128 {
            assert(!filled_at(views(lines@), i as int, line_width as nat, cutoff as nat));
            return false;
        }
        i = i + 1;
    }
    true
}

/// Whether `lines` are a wrapping of `text` at `line_width` columns with the first line
/// `cutoff` columns narrower.
pub fn is_well_wrapped(text: &str, lines: &Vec<String>, line_width: usize, cutoff: usize) -> (r:
    bool)
    ensures
        r == well_wrapped(text@, views(lines@), line_width as nat, cutoff as nat),
{
    if !check_fit(lines, line_width, cutoff) || !check_unbroken(lines) {
        return false;
    }
    let joined: String = str_join(lines, " ");
    let got: Vec<String> = split_words(joined.as_str());
    let want: Vec<String> = split_words(text);
    if !same_texts(&got, &want) {
        return false;
    }
    if str_is_printable(text) && !check_fit_in_characters(lines, line_width, cutoff) {
        return false;
    }
    if !text_is_plain(text) {
        return true;
    }
    check_filled(lines, line_width, cutoff) && str_eq(
        joined.as_str(),
        str_trim_end_matches(text, " ").as_str(),
    )
}

fn arrange(input: &str, line_width: usize, first_line_cutoff: usize) -> (r: Option<Vec<String>>)
    ensures
        match r {
            Some(lines) => arranged(input@, line_width as nat, first_line_cutoff as nat) == Some(
                views(lines@),
            ),
            None => arranged(input@, line_width as nat, first_line_cutoff as nat) is None,
        },
{
    let mut result: Vec<String> = Vec::new();
    if input.is_empty() {
        assert(views(result@) == Seq::<Seq<char>>::empty());
        return Some(result);
    }
    let budget: usize = if first_line_cutoff <= line_width {
        line_width - first_line_cutoff
    } else {
        0
    };
    let text: String = str_spaced(input);
    let mut head: Vec<String> = wrap_text(text.as_str(), budget);
    if head.len() == 0 {
        assert(views(result@) == Seq::<Seq<char>>::empty());
        return Some(result);
    }
    let ghost head_view = views(head@);
    assert(head_view[0] == head@[0]@);
    let rest: String = match remainder_after(text.as_str(), head[0].as_str()) {
        Some(rest) => rest,
        None => {
            return None;
        },
    };
    let first: String = head.swap_remove(0);
    result.push(first);
    if rest.as_str().is_empty() {
        assert(views(result@) == seq![head_view[0]]);
        return Some(result);
    }
    let mut tail: Vec<String> = wrap_text(rest.as_str(), line_width);
    let ghost tail_view = views(tail@);
    result.append(&mut tail);
    assert(views(result@) == assembled(head_view, tail_view));
    Some(result)
}

/// Empty text is wrapped into no lines.
pub proof fn lemma_split_empty(line_width: nat, cutoff: nat)
    ensures
        split(Seq::empty(), line_width, cutoff) == Some(Seq::<Seq<char>>::empty()),
{
    let none = Seq::<Seq<char>>::empty();
    assert(join(none, " "@) == Seq::<char>::empty());
    assert(trim_end_matches(Seq::<char>::empty(), " "@) == Seq::<char>::empty());
    assert(spaced(Seq::<char>::empty()) == Seq::<char>::empty());
    assert(well_wrapped(Seq::empty(), none, line_width, cutoff));
}

/// Wraps `input` at `line_width` columns, leaving `first_line_cutoff` of them free on
/// the first line.
///
/// Words are what whitespace sets apart; a line break in the input ends a line. The
/// first line comes from wrapping the whole input at the narrower width; what follows
/// it in the input is wrapped again at the full width. The lines are handed out only
/// where they are a wrapping of the input: each one row, within its budget or a single
/// word, their words those of the input, and for plain input each line but the last
/// filled.
/// Fails with `FormatError` exactly where no such lines are arranged. Empty input has
/// no lines.
pub fn split_lines(input: &str, line_width: usize, first_line_cutoff: usize) -> (r: Result<
    Vec<String>,
    CompileError,
>)
    ensures
        match r {
            Ok(lines) => split(input@, line_width as nat, first_line_cutoff as nat) == Some(
                views(lines@),
            ),
            Err(e) => e == CompileError::FormatError && split(
                input@,
                line_width as nat,
                first_line_cutoff as nat,
            ) is None,
        },
        input@.len() == 0 ==> (r matches Ok(lines) && lines@.len() == 0),
{
    proof {
        lemma_split_empty(line_width as nat, first_line_cutoff as nat);
        if input@.len() == 0 {
            assert(input@ == Seq::<char>::empty());
        }
    }
    match arrange(input, line_width, first_line_cutoff) {
        None => Err(CompileError::FormatError),
        Some(lines) => {
            if input.is_empty() || is_well_wrapped(input, &lines, line_width, first_line_cutoff) {
                Ok(lines)
            } else {
                Err(CompileError::FormatError)
            }
        },
    }
}

} // verus!

//! The token grammar of an input field.
//!
//! A field is a list of tokens separated by spaces or tabs. A token is a
//! number, a number followed at once by a magnitude letter, or a tolerance
//! in percent:
//!
//! - `"5%"` and `"+/-5%"` give `TolPlusMinus`,
//! - `"+5%"` gives `TolPlus`,
//! - `"-5%"` gives `TolMinus`,
//! - `"10m"` gives `NumberSuffix` with `Dim::Milli`,
//! - `"5.67"` gives `Number`.
//!
//! Where a number starts and ends is left to `nom`; everything around the
//! number is decided here.

use crate::expr::{Expr, Term};
use crate::text::{has_char_at, skip_chars, take_chars};
use crate::types::Dim;
use vstd::prelude::*;
use vstd::string::*;

verus! {

/// One token of a field.
#[derive(Debug, PartialEq)]
pub enum Block {
    /// A downward tolerance in percent, as in `"-5%"`; never negative.
    TolMinus(Expr),
    /// An upward tolerance in percent, as in `"+5%"`.
    TolPlus(Expr),
    /// A tolerance to both sides, as in `"5%"` or `"+/-5%"`.
    TolPlusMinus(Expr),
    /// A number, as in `"5.0"`.
    Number(Expr),
    /// A number with a magnitude letter, as in `"5k"` or `"10m"`.
    NumberSuffix((Expr, Dim)),
}

/// The mathematical form of a [`Block`].
pub enum BlockView {
    TolMinus(Term),
    TolPlus(Term),
    TolPlusMinus(Term),
    Number(Term),
    NumberSuffix((Term, Dim)),
}

impl View for Block {
    type V = BlockView;

    open spec fn view(&self) -> BlockView {
        match self {
            Block::TolMinus(t) => BlockView::TolMinus(t@),
            Block::TolPlus(t) => BlockView::TolPlus(t@),
            Block::TolPlusMinus(t) => BlockView::TolPlusMinus(t@),
            Block::Number(n) => BlockView::Number(n@),
            Block::NumberSuffix(pair) => BlockView::NumberSuffix((pair.0@, pair.1)),
        }
    }
}

/// A text that does not follow the grammar.
#[derive(Debug, PartialEq)]
pub struct ParseFailure {
    /// The text from the point where reading stopped.
    pub remainder: String,
    /// Whether no other reading of the token may be tried: a number broke
    /// off behind its exponent mark.
    pub fatal: bool,
}

/// The mathematical form of a [`ParseFailure`].
pub struct FailureView {
    pub remainder: Seq<char>,
    pub fatal: bool,
}

impl View for ParseFailure {
    type V = FailureView;

    open spec fn view(&self) -> FailureView {
        FailureView { remainder: self.remainder@, fatal: self.fatal }
    }
}

impl Clone for ParseFailure {
    fn clone(&self) -> (res: Self)
        ensures
            res@ == self@,
    {
        ParseFailure { remainder: self.remainder.clone(), fatal: self.fatal }
    }
}

/// What `nom::number::complete::double` makes of a text: `Ok(n)` where it
/// reads the first `n` characters as a number, `Err(false)` where it finds no
/// number at the start of the text, `Err(true)` where it gives up for good.
pub uninterp spec fn double_scan(text: Seq<char>) -> Result<nat, bool>;

/// Runs `nom::number::complete::double` on `input` and drops the number it
/// computed. On success the characters it read are a non-empty prefix of
/// `input`, and what it hands back is the rest of `input`. Its two kinds of
/// error, `Error` and `Failure`, come back as `false` and `true`.
#[verifier::external_body]
fn scan_double(input: &str) -> (res: Result<&str, bool>)
    ensures
        match res {
            Ok(rest) => match double_scan(input@) {
                Ok(n) => 0 < n <= input@.len() && rest@ == input@.skip(n as int),
                Err(_) => false,
            },
            Err(fatal) => double_scan(input@) == Err::<nat, bool>(fatal),
        },
{
    match nom::number::complete::double::<&str, nom::error::Error<&str>>(input) {
        Ok((rest, _)) => Ok(rest),
        Err(nom::Err::Failure(_)) => Err(true),
        Err(nom::Err::Error(_)) => Err(false),
        Err(nom::Err::Incomplete(_)) => Err(false),
    }
}

/// The number at the start of `text`: how many characters it takes, or why
/// there is none.
pub open spec fn number_at(text: Seq<char>) -> Result<nat, bool> {
    match double_scan(text) {
        Ok(n) => if 0 < n <= text.len() {
            Ok(n)
        } else {
            Err(false)
        },
        Err(fatal) => Err(fatal),
    }
}

/// A scan result with its count as a natural number.
pub open spec fn scan_view(scan: Result<usize, bool>) -> Result<nat, bool> {
    match scan {
        Ok(n) => Ok(n as nat),
        Err(fatal) => Err(fatal),
    }
}

/// Finds the number at the start of `input`.
pub fn scan_number(input: &str) -> (res: Result<usize, bool>)
    ensures
        scan_view(res) == number_at(input@),
        res matches Ok(n) ==> 0 < n <= input@.len(),
{
    match scan_double(input) {
        Ok(rest) => Ok(input.unicode_len() - rest.unicode_len()),
        Err(fatal) => Err(fatal),
    }
}

/// A number and a percent sign: what follows the sign, and the number.
pub open spec fn percent_form(number: Seq<char>, scan: Result<nat, bool>) -> Result<
    (Seq<char>, Term),
    FailureView,
> {
    match scan {
        Err(fatal) => Err(FailureView { remainder: number, fatal }),
        Ok(n) => {
            let rest = number.skip(n as int);
            if rest.len() > 0 && rest[0] == '%' {
                Ok((rest.skip(1), Term::Literal(number.take(n as int))))
            } else {
                Err(FailureView { remainder: rest, fatal: false })
            }
        },
    }
}

/// Whether `c` is one of the eight magnitude letters.
pub open spec fn is_magnitude_letter(c: char) -> bool {
    c == 'p' || c == 'n' || c == 'u' || c == 'm' || c == 'k' || c == 'M' || c == 'G' || c == 'T'
}

/// A number and a magnitude letter: the block and what follows the letter.
pub open spec fn suffix_form(number: Seq<char>, scan: Result<nat, bool>) -> Result<
    (Seq<char>, BlockView),
    FailureView,
> {
    match scan {
        Err(fatal) => Err(FailureView { remainder: number, fatal }),
        Ok(n) => {
            let rest = number.skip(n as int);
            if rest.len() > 0 && is_magnitude_letter(rest[0]) {
                Ok(
                    (
                        rest.skip(1),
                        BlockView::NumberSuffix(
                            (Term::Literal(number.take(n as int)), Dim::of_letter(rest[0])),
                        ),
                    ),
                )
            } else {
                Err(FailureView { remainder: rest, fatal: false })
            }
        },
    }
}

/// A number alone: the block and what follows the number.
pub open spec fn number_form(number: Seq<char>, scan: Result<nat, bool>) -> Result<
    (Seq<char>, BlockView),
    FailureView,
> {
    match scan {
        Err(fatal) => Err(FailureView { remainder: number, fatal }),
        Ok(n) => Ok(
            (number.skip(n as int), BlockView::Number(Term::Literal(number.take(n as int)))),
        ),
    }
}

/// What a parser of one token returns, in mathematical form.
pub open spec fn parsed_view(res: Result<(&str, Block), ParseFailure>) -> Result<
    (Seq<char>, BlockView),
    FailureView,
> {
    match res {
        Ok(pair) => Ok((pair.0@, pair.1@)),
        Err(e) => Err(e@),
    }
}

/// What a parser of a percentage returns, in mathematical form.
pub open spec fn percent_view(res: Result<(&str, Expr), ParseFailure>) -> Result<
    (Seq<char>, Term),
    FailureView,
> {
    match res {
        Ok(pair) => Ok((pair.0@, pair.1@)),
        Err(e) => Err(e@),
    }
}

/// Reads `number` as a number and a percent sign, given where the number
/// ends. Returns the text behind the sign, and the number.
pub fn percent_from_scan<'a>(number: &'a str, scan: Result<usize, bool>) -> (res: Result<
    (&'a str, Expr),
    ParseFailure,
>)
    requires
        scan matches Ok(n) ==> n <= number@.len(),
    ensures
        percent_view(res) == percent_form(number@, scan_view(scan)),
{
    match scan {
        Err(fatal) => Err(ParseFailure { remainder: number.to_owned(), fatal }),
        Ok(n) => {
            let rest = skip_chars(number, n);
            if has_char_at(rest, 0, '%') {
                Ok((skip_chars(rest, 1), Expr::literal(take_chars(number, n))))
            } else {
                Err(ParseFailure { remainder: rest.to_owned(), fatal: false })
            }
        },
    }
}

/// Reads `number` as a number and a magnitude letter, given where the number
/// ends.
pub fn suffix_from_scan<'a>(number: &'a str, scan: Result<usize, bool>) -> (res: Result<
    (&'a str, Block),
    ParseFailure,
>)
    requires
        scan matches Ok(n) ==> n <= number@.len(),
    ensures
        parsed_view(res) == suffix_form(number@, scan_view(scan)),
{
    match scan {
        Err(fatal) => Err(ParseFailure { remainder: number.to_owned(), fatal }),
        Ok(n) => {
            let rest = skip_chars(number, n);
            if rest.unicode_len() > 0 {
                let c = rest.get_char(0);
                if c == 'p' || c == 'n' || c == 'u' || c == 'm' || c == 'k' || c == 'M' || c == 'G'
                    || c == 'T' {
                    let dim: Dim = Dim::from(c);
                    return Ok(
                        (
                            skip_chars(rest, 1),
                            Block::NumberSuffix((Expr::literal(take_chars(number, n)), dim)),
                        ),
                    );
                }
            }
            Err(ParseFailure { remainder: rest.to_owned(), fatal: false })
        },
    }
}

/// Reads `number` as a number alone, given where the number ends.
pub fn number_from_scan<'a>(number: &'a str, scan: Result<usize, bool>) -> (res: Result<
    (&'a str, Block),
    ParseFailure,
>)
    requires
        scan matches Ok(n) ==> n <= number@.len(),
    ensures
        parsed_view(res) == number_form(number@, scan_view(scan)),
{
    match scan {
        Err(fatal) => Err(ParseFailure { remainder: number.to_owned(), fatal }),
        Ok(n) => Ok((skip_chars(number, n), Block::Number(Expr::literal(take_chars(number, n))))),
    }
}

/// A percentage behind a marker: the marker, a number and a percent sign.
pub open spec fn marked_percent(text: Seq<char>, marker: Seq<char>) -> Result<
    (Seq<char>, Term),
    FailureView,
> {
    if marker.is_prefix_of(text) {
        let number = text.skip(marker.len() as int);
        percent_form(number, number_at(number))
    } else {
        Err(FailureView { remainder: text, fatal: false })
    }
}

/// The reading of `text` as `+<number>%`.
pub open spec fn percentage_plus(text: Seq<char>) -> Result<(Seq<char>, BlockView), FailureView> {
    match marked_percent(text, seq!['+']) {
        Ok(pair) => Ok((pair.0, BlockView::TolPlus(pair.1))),
        Err(e) => Err(e),
    }
}

/// The reading of `text` as `-<number>%`. The number loses its sign.
pub open spec fn percentage_minus(text: Seq<char>) -> Result<(Seq<char>, BlockView), FailureView> {
    match marked_percent(text, seq!['-']) {
        Ok(pair) => Ok((pair.0, BlockView::TolMinus(Term::Abs(Box::new(pair.1))))),
        Err(e) => Err(e),
    }
}

/// The reading of `text` as `+/-<number>%`.
pub open spec fn percentage_plus_minus(text: Seq<char>) -> Result<
    (Seq<char>, BlockView),
    FailureView,
> {
    match marked_percent(text, seq!['+', '/', '-']) {
        Ok(pair) => Ok((pair.0, BlockView::TolPlusMinus(pair.1))),
        Err(e) => Err(e),
    }
}

/// The reading of `text` as `<number>%`.
pub open spec fn percentage_bare(text: Seq<char>) -> Result<(Seq<char>, BlockView), FailureView> {
    match percent_form(text, number_at(text)) {
        Ok(pair) => Ok((pair.0, BlockView::TolPlusMinus(pair.1))),
        Err(e) => Err(e),
    }
}

/// The first of two readings, unless it failed and another may be tried.
pub open spec fn or_else(
    first: Result<(Seq<char>, BlockView), FailureView>,
    second: Result<(Seq<char>, BlockView), FailureView>,
) -> Result<(Seq<char>, BlockView), FailureView> {
    match first {
        Ok(_) => first,
        Err(e) => if e.fatal {
            first
        } else {
            second
        },
    }
}

/// The reading of one token at the start of `text`: the first of the six
/// forms, in this order, that fits; the failure of the last where none does.
pub open spec fn token(text: Seq<char>) -> Result<(Seq<char>, BlockView), FailureView> {
    or_else(
        percentage_plus(text),
        or_else(
            percentage_minus(text),
            or_else(
                percentage_plus_minus(text),
                or_else(
                    percentage_bare(text),
                    or_else(
                        suffix_form(text, number_at(text)),
                        number_form(text, number_at(text)),
                    ),
                ),
            ),
        ),
    )
}

/// The number of spaces and tabs at the start of `text`.
pub open spec fn leading_gap(text: Seq<char>) -> nat
    decreases text.len(),
{
    if text.len() > 0 && (text[0] == ' ' || text[0] == '\t') {
        1 + leading_gap(text.skip(1))
    } else {
        0
    }
}

/// The end of a list of tokens: nothing may be left.
pub open spec fn list_end(rest: Seq<char>, blocks: Seq<BlockView>) -> Result<
    Seq<BlockView>,
    FailureView,
> {
    if rest.len() == 0 {
        Ok(blocks)
    } else {
        Err(FailureView { remainder: rest, fatal: false })
    }
}

/// The tokens that follow `blocks` in `rest`, each behind a gap of spaces and
/// tabs. The list ends where no gap or no token follows; a number that
/// breaks off ends the whole reading.
pub open spec fn more_blocks(rest: Seq<char>, blocks: Seq<BlockView>) -> Result<
    Seq<BlockView>,
    FailureView,
>
    decreases rest.len(),
{
    let gap = leading_gap(rest);
    if gap == 0 {
        list_end(rest, blocks)
    } else {
        match token(rest.skip(gap as int)) {
            Ok(pair) => if pair.0.len() < rest.len() {
                more_blocks(pair.0, blocks.push(pair.1))
            } else {
                list_end(rest, blocks)
            },
            Err(e) => if e.fatal {
                Err(e)
            } else {
                list_end(rest, blocks)
            },
        }
    }
}

/// The blocks of a field: one token, then more behind gaps, up to the end of
/// the text.
pub open spec fn blocks_of(text: Seq<char>) -> Result<Seq<BlockView>, FailureView> {
    match token(text) {
        Ok(pair) => more_blocks(pair.0, seq![pair.1]),
        Err(e) => Err(e),
    }
}

/// What follows a percentage is shorter than the text it was read from.
pub proof fn lemma_percent_form_shorter(number: Seq<char>)
    ensures
        percent_form(number, number_at(number)) matches Ok(pair) ==> pair.0.len() < number.len(),
{
}

/// A token that was read took at least one character.
pub proof fn lemma_token_shorter(text: Seq<char>)
    ensures
        token(text) matches Ok(pair) ==> pair.0.len() < text.len(),
{
    lemma_percent_form_shorter(text);
    lemma_percent_form_shorter(text.skip(1));
    lemma_percent_form_shorter(text.skip(3));
}

/// Whether `rest` is what is left of `text` behind some of its characters.
pub open spec fn is_rest_of(rest: Seq<char>, text: Seq<char>) -> bool {
    exists|k: int| 0 <= k <= text.len() && rest == #[trigger] text.skip(k)
}

/// A rest of a rest is a rest.
proof fn lemma_rest_of_rest(a: Seq<char>, b: Seq<char>, c: Seq<char>)
    requires
        is_rest_of(a, b),
        is_rest_of(b, c),
    ensures
        is_rest_of(a, c),
{
    let k = choose|k: int| 0 <= k <= b.len() && a == #[trigger] b.skip(k);
    let m = choose|m: int| 0 <= m <= c.len() && b == #[trigger] c.skip(m);
    assert(c.skip(m).skip(k) =~= c.skip(m + k));
}

/// A text from some character on is a rest of it.
proof fn lemma_skip_is_rest(text: Seq<char>, k: int)
    requires
        0 <= k <= text.len(),
    ensures
        is_rest_of(text.skip(k), text),
{
}

/// What a percentage leaves, read or not, is a rest of the text.
proof fn lemma_percent_form_rest(number: Seq<char>)
    ensures
        match percent_form(number, number_at(number)) {
            Ok(pair) => is_rest_of(pair.0, number),
            Err(e) => is_rest_of(e.remainder, number),
        },
{
    assert(number.skip(0) =~= number);
    match number_at(number) {
        Ok(n) => {
            let rest = number.skip(n as int);
            lemma_skip_is_rest(number, n as int);
            if rest.len() > 0 {
                assert(rest.skip(1) =~= number.skip(n as int + 1));
                lemma_skip_is_rest(number, n as int + 1);
            }
        },
        Err(_) => {
            lemma_skip_is_rest(number, 0);
        },
    }
}

/// What a percentage behind a marker leaves, read or not, is a rest of the
/// text.
proof fn lemma_marked_percent_rest(text: Seq<char>, marker: Seq<char>)
    ensures
        match marked_percent(text, marker) {
            Ok(pair) => is_rest_of(pair.0, text),
            Err(e) => is_rest_of(e.remainder, text),
        },
{
    assert(text.skip(0) =~= text);
    lemma_skip_is_rest(text, 0);
    if marker.is_prefix_of(text) {
        let number = text.skip(marker.len() as int);
        lemma_skip_is_rest(text, marker.len() as int);
        lemma_percent_form_rest(number);
        match percent_form(number, number_at(number)) {
            Ok(pair) => lemma_rest_of_rest(pair.0, number, text),
            Err(e) => lemma_rest_of_rest(e.remainder, number, text),
        }
    }
}

/// What a token leaves, read or not, is a rest of the text.
pub proof fn lemma_token_rest(text: Seq<char>)
    ensures
        match token(text) {
            Ok(pair) => is_rest_of(pair.0, text),
            Err(e) => is_rest_of(e.remainder, text),
        },
{
    lemma_marked_percent_rest(text, seq!['+']);
    lemma_marked_percent_rest(text, seq!['-']);
    lemma_marked_percent_rest(text, seq!['+', '/', '-']);
    lemma_percent_form_rest(text);
    assert(text.skip(0) =~= text);
    lemma_skip_is_rest(text, 0);
    match number_at(text) {
        Ok(n) => {
            lemma_skip_is_rest(text, n as int);
            let rest = text.skip(n as int);
            if rest.len() > 0 {
                assert(rest.skip(1) =~= text.skip(n as int + 1));
                lemma_skip_is_rest(text, n as int + 1);
            }
        },
        Err(_) => {},
    }
}

/// Where the tokens behind the first are not read, what is handed back is a
/// rest of the text behind the first.
proof fn lemma_more_blocks_rest(rest: Seq<char>, blocks: Seq<BlockView>)
    ensures
        more_blocks(rest, blocks) matches Err(e) ==> is_rest_of(e.remainder, rest),
    decreases rest.len(),
{
    assert(rest.skip(0) =~= rest);
    lemma_skip_is_rest(rest, 0);
    let gap = leading_gap(rest);
    if gap != 0 {
        lemma_leading_gap_bound(rest);
        let after = rest.skip(gap as int);
        lemma_skip_is_rest(rest, gap as int);
        lemma_token_rest(after);
        match token(after) {
            Ok(pair) => {
                if pair.0.len() < rest.len() {
                    lemma_more_blocks_rest(pair.0, blocks.push(pair.1));
                    lemma_rest_of_rest(pair.0, after, rest);
                    if more_blocks(pair.0, blocks.push(pair.1)) is Err {
                        lemma_rest_of_rest(
                            more_blocks(pair.0, blocks.push(pair.1))->Err_0.remainder,
                            pair.0,
                            rest,
                        );
                    }
                }
            },
            Err(e) => {
                lemma_rest_of_rest(e.remainder, after, rest);
            },
        }
    }
}

/// The gap at the start of a text is no longer than the text.
pub proof fn lemma_leading_gap_bound(text: Seq<char>)
    ensures
        leading_gap(text) <= text.len(),
    decreases text.len(),
{
    if text.len() > 0 && (text[0] == ' ' || text[0] == '\t') {
        lemma_leading_gap_bound(text.skip(1));
    }
}

/// Where a field is not read, what is handed back is the field from some
/// character on: nothing is made up, nothing in between is left out.
pub proof fn lemma_failure_is_rest(text: Seq<char>)
    ensures
        blocks_of(text) matches Err(e) ==> is_rest_of(e.remainder, text),
{
    lemma_token_rest(text);
    match token(text) {
        Ok(pair) => {
            lemma_more_blocks_rest(pair.0, seq![pair.1]);
            if more_blocks(pair.0, seq![pair.1]) is Err {
                lemma_rest_of_rest(
                    more_blocks(pair.0, seq![pair.1])->Err_0.remainder,
                    pair.0,
                    text,
                );
            }
        },
        Err(_) => {},
    }
}

/// Text right behind a token is not passed over: where the text goes on
/// behind a token with anything but a space or a tab, the list of tokens
/// that ends with this token is refused, and what is handed back is the text
/// behind the token.
pub proof fn lemma_trailing_text_is_refused(rest: Seq<char>, blocks: Seq<BlockView>)
    requires
        rest.len() > 0,
        rest[0] != ' ',
        rest[0] != '\t',
    ensures
        more_blocks(rest, blocks) == Err::<Seq<BlockView>, FailureView>(
            FailureView { remainder: rest, fatal: false },
        ),
{
}

/// A field is read only to its very end: where it is read, it is a token
/// followed by more tokens, each behind a gap, and nothing else.
pub proof fn lemma_read_to_the_end(rest: Seq<char>, blocks: Seq<BlockView>)
    requires
        more_blocks(rest, blocks) is Ok,
    ensures
        rest.len() == 0 || rest[0] == ' ' || rest[0] == '\t',
{
}

/// Reads a percentage behind a marker of one to three characters.
fn marked_percent_parser<'a>(input: &'a str, m0: char, m1: Option<(char, char)>) -> (res: Result<
    (&'a str, Expr),
    ParseFailure,
>)
    ensures
        percent_view(res) == marked_percent(
            input@,
            match m1 {
                Some(more) => seq![m0, more.0, more.1],
                None => seq![m0],
            },
        ),
{
    let ghost marker = match m1 {
        Some(more) => seq![m0, more.0, more.1],
        None => seq![m0],
    };
    let fits = has_char_at(input, 0, m0) && match m1 {
        Some(more) => has_char_at(input, 1, more.0) && has_char_at(input, 2, more.1),
        None => true,
    };
    assert(fits == marker.is_prefix_of(input@)) by {
        if fits {
            assert(input@.subrange(0, marker.len() as int) =~= marker);
        } else if marker.is_prefix_of(input@) {
            assert(input@.subrange(0, marker.len() as int) == marker);
            assert(input@[0] == marker[0]);
            if m1 is Some {
                assert(input@[1] == marker[1]);
                assert(input@[2] == marker[2]);
            }
        }
    }
    if fits {
        let number = skip_chars(
            input,
            match m1 {
                Some(_) => 3,
                None => 1,
            },
        );
        let scan = scan_number(number);
        percent_from_scan(number, scan)
    } else {
        Err(ParseFailure { remainder: input.to_owned(), fatal: false })
    }
}

/// Reads `input` as `-<number>%`.
pub fn percentage_minus_parser<'a>(input: &'a str) -> (res: Result<(&'a str, Block), ParseFailure>)
    ensures
        parsed_view(res) == percentage_minus(input@),
{
    match marked_percent_parser(input, '-', None) {
        Ok(pair) => Ok((pair.0, Block::TolMinus(Expr::abs(pair.1)))),
        Err(e) => Err(e),
    }
}

/// Reads `input` as `+/-<number>%`.
pub fn percentage_plus_minus_parser<'a>(input: &'a str) -> (res: Result<
    (&'a str, Block),
    ParseFailure,
>)
    ensures
        parsed_view(res) == percentage_plus_minus(input@),
{
    match marked_percent_parser(input, '+', Some(('/', '-'))) {
        Ok(pair) => Ok((pair.0, Block::TolPlusMinus(pair.1))),
        Err(e) => Err(e),
    }
}

/// Reads `input` as `<number>%`.
pub fn percentage_plus_minus_parser2<'a>(input: &'a str) -> (res: Result<
    (&'a str, Block),
    ParseFailure,
>)
    ensures
        parsed_view(res) == percentage_bare(input@),
{
    let scan = scan_number(input);
    match percent_from_scan(input, scan) {
        Ok(pair) => Ok((pair.0, Block::TolPlusMinus(pair.1))),
        Err(e) => Err(e),
    }
}

/// Reads `input` as `+<number>%`.
pub fn percentage_plus_parser<'a>(input: &'a str) -> (res: Result<(&'a str, Block), ParseFailure>)
    ensures
        parsed_view(res) == percentage_plus(input@),
{
    match marked_percent_parser(input, '+', None) {
        Ok(pair) => Ok((pair.0, Block::TolPlus(pair.1))),
        Err(e) => Err(e),
    }
}

/// Reads `input` as a number alone.
pub fn double_parser<'a>(input: &'a str) -> (res: Result<(&'a str, Block), ParseFailure>)
    ensures
        parsed_view(res) == number_form(input@, number_at(input@)),
{
    let scan = scan_number(input);
    number_from_scan(input, scan)
}

/// Reads `input` as a number with a magnitude letter.
pub fn double_suffix_parser<'a>(input: &'a str) -> (res: Result<(&'a str, Block), ParseFailure>)
    ensures
        parsed_view(res) == suffix_form(input@, number_at(input@)),
{
    let scan = scan_number(input);
    suffix_from_scan(input, scan)
}

/// Whether a reading stands: it succeeded, or no other may be tried.
fn settled<'a>(res: &Result<(&'a str, Block), ParseFailure>) -> (b: bool)
    ensures
        b == match parsed_view(*res) {
            Ok(_) => true,
            Err(e) => e.fatal,
        },
{
    match res {
        Ok(_) => true,
        Err(e) => e.fatal,
    }
}

/// Reads one token at the start of `input`, trying the six forms in order.
pub fn try_parsers<'a>(input: &'a str) -> (res: Result<(&'a str, Block), ParseFailure>)
    ensures
        parsed_view(res) == token(input@),
{
    let plus = percentage_plus_parser(input);
    if settled(&plus) {
        return plus;
    }
    let minus = percentage_minus_parser(input);
    if settled(&minus) {
        return minus;
    }
    let plus_minus = percentage_plus_minus_parser(input);
    if settled(&plus_minus) {
        return plus_minus;
    }
    let bare = percentage_plus_minus_parser2(input);
    if settled(&bare) {
        return bare;
    }
    let suffix = double_suffix_parser(input);
    if settled(&suffix) {
        return suffix;
    }
    double_parser(input)
}

/// The mathematical form of a list of blocks.
pub open spec fn blocks_view(blocks: Seq<Block>) -> Seq<BlockView> {
    blocks.map_values(|b: Block| b@)
}

/// What [`parse_blocks`] returns, in mathematical form.
pub open spec fn list_view(res: Result<Vec<Block>, ParseFailure>) -> Result<
    Seq<BlockView>,
    FailureView,
> {
    match res {
        Ok(blocks) => Ok(blocks_view(blocks@)),
        Err(e) => Err(e@),
    }
}

/// Counts the spaces and tabs at the start of `input`.
fn gap_len(input: &str) -> (gap: usize)
    ensures
        gap == leading_gap(input@),
        gap <= input@.len(),
{
    let len = input.unicode_len();
    let mut gap: usize = 0;
    assert(input@.skip(0) =~= input@);
    while gap < len && (input.get_char(gap) == ' ' || input.get_char(gap) == '\t')
        invariant
            gap <= len == input@.len(),
            leading_gap(input@) == gap + leading_gap(input@.skip(gap as int)),
        decreases len - gap,
    {
        proof {
            assert(input@.skip(gap as int).skip(1) =~= input@.skip(gap + 1));
        }
        gap += 1;
    }
    gap
}

/// Ends a list of blocks: nothing may be left of the text.
fn end_list(rest: &str, blocks: Vec<Block>) -> (res: Result<Vec<Block>, ParseFailure>)
    ensures
        list_view(res) == list_end(rest@, blocks_view(blocks@)),
{
    if rest.unicode_len() == 0 {
        Ok(blocks)
    } else {
        Err(ParseFailure { remainder: rest.to_owned(), fatal: false })
    }
}

/// Splits a field into its blocks. Fails, with the text that was not read,
/// where a token fits none of the forms or where text is left behind the
/// last token.
pub fn parse_blocks(input: &str) -> (res: Result<Vec<Block>, ParseFailure>)
    ensures
        list_view(res) == blocks_of(input@),
{
    let (first_rest, first) = match try_parsers(input) {
        Ok(pair) => pair,
        Err(e) => {
            return Err(e);
        },
    };
    let mut blocks: Vec<Block> = Vec::new();
    blocks.push(first);
    let mut rest: &str = first_rest;
    assert(blocks_view(blocks@) =~= seq![first@]);
    loop
        invariant
            blocks_of(input@) == more_blocks(rest@, blocks_view(blocks@)),
        decreases rest@.len(),
    {
        let gap = gap_len(rest);
        if gap == 0 {
            return end_list(rest, blocks);
        }
        let after = skip_chars(rest, gap);
        match try_parsers(after) {
            Ok(pair) => {
                proof {
                    lemma_token_shorter(after@);
                    assert(blocks_view(blocks@.push(pair.1)) =~= blocks_view(blocks@).push(
                        pair.1@,
                    ));
                }
                blocks.push(pair.1);
                rest = pair.0;
            },
            Err(e) => {
                if e.fatal {
                    return Err(e);
                }
                return end_list(rest, blocks);
            },
        }
    }
}

} // verus!

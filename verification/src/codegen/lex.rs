//! The tokens of a declaration

use vstd::prelude::*;
use vstd::string::*;
use crate::text::decimal;
use crate::text::digit;
use crate::text::same;

verus! {

/// What a token is
#[derive(Clone, Copy, PartialEq, Eq, Debug)]
pub enum TokenKind {
    /// The word `pins`
    Pins,
    /// The word `id`
    Id,
    /// A word that cannot be a name: a keyword of Rust, or `_`
    Reserved,
    /// Any other word
    Name,
    /// A number in base ten, with its value where that is at most 255
    Int(Option<u8>),
    Colon,
    Comma,
    OpenBrace,
    CloseBrace,
    OpenBracket,
    CloseBracket,
}

/// A token and the place of its text: the characters from `start` up to,
/// not including, `end`.
#[derive(Clone, Copy, PartialEq, Eq, Debug)]
pub struct Token {
    pub kind: TokenKind,
    pub start: usize,
    pub end: usize,
}

/// Why a text is no declaration
#[derive(Clone, Copy, PartialEq, Eq, Debug)]
pub enum ErrorKind {
    /// The text holds a character outside ASCII
    NotAscii,
    /// A character that starts no token
    UnexpectedCharacter,
    /// Digits followed by a letter
    MalformedInteger,
    ExpectedName,
    ExpectedColon,
    ExpectedOpenBrace,
    ExpectedOpenBracket,
    /// Neither `pins` nor `id` where a field must start
    ExpectedField,
    ExpectedInteger,
    ExpectedComma,
    /// The text goes on behind the declaration
    ExpectedEnd,
    /// An identifier above 255
    IdOutOfRange,
    /// A pin number above 255
    PinOutOfRange,
    /// A controller without `id`
    MissingId,
    /// A controller without `pins`
    MissingPins,
}

/// Why a text is no declaration, and the character at which that shows; for
/// a text that ends too early, its length.
#[derive(Clone, Copy, PartialEq, Eq, Debug)]
pub struct ParseError {
    pub kind: ErrorKind,
    pub at: usize,
}

/// Space, tab, line feed and carriage return separate tokens.
pub open spec fn is_space(c: char) -> bool {
    c == ' ' || c == '\t' || c == '\n' || c == '\r'
}

pub open spec fn is_digit(c: char) -> bool {
    '0' <= c <= '9'
}

/// A word starts with a letter or an underscore.
pub open spec fn is_letter(c: char) -> bool {
    'a' <= c <= 'z' || 'A' <= c <= 'Z' || c == '_'
}

/// A word goes on with letters, underscores and digits.
pub open spec fn is_word(c: char) -> bool {
    is_letter(c) || is_digit(c)
}

/// The token that a single character makes, if it makes one.
pub open spec fn punctuation(c: char) -> Option<TokenKind> {
    if c == ':' {
        Some(TokenKind::Colon)
    } else if c == ',' {
        Some(TokenKind::Comma)
    } else if c == '{' {
        Some(TokenKind::OpenBrace)
    } else if c == '}' {
        Some(TokenKind::CloseBrace)
    } else if c == '[' {
        Some(TokenKind::OpenBracket)
    } else if c == ']' {
        Some(TokenKind::CloseBracket)
    } else {
        None
    }
}

/// Where the run of word characters that holds position `i` ends: the first
/// position from `i` on that holds none, or the length of the text.
pub open spec fn word_end(text: Seq<char>, i: int) -> int
    decreases text.len() - i,
{
    if 0 <= i < text.len() && is_word(text[i]) {
        word_end(text, i + 1)
    } else {
        i
    }
}

/// Whether the characters from `from` up to `to` are all digits.
pub open spec fn all_digits(text: Seq<char>, from: int, to: int) -> bool {
    forall|k: int| from <= k < to ==> is_digit(#[trigger] text[k])
}

/// The number that the digits from `from` up to `to` stand for in base ten.
pub open spec fn number(text: Seq<char>, from: int, to: int) -> nat
    decreases to - from,
{
    if to <= from {
        0
    } else {
        number(text, from, to - 1) * 10 + (text[to - 1] as u8 - '0' as u8) as nat
    }
}

/// Whether a word is a keyword of Rust or `_`.
pub open spec fn reserved(text: Seq<char>) -> bool {
    ||| text == "_"@
    ||| text == "abstract"@
    ||| text == "as"@
    ||| text == "become"@
    ||| text == "box"@
    ||| text == "break"@
    ||| text == "const"@
    ||| text == "continue"@
    ||| text == "crate"@
    ||| text == "do"@
    ||| text == "else"@
    ||| text == "enum"@
    ||| text == "extern"@
    ||| text == "false"@
    ||| text == "final"@
    ||| text == "fn"@
    ||| text == "for"@
    ||| text == "if"@
    ||| text == "impl"@
    ||| text == "in"@
    ||| text == "let"@
    ||| text == "loop"@
    ||| text == "macro"@
    ||| text == "match"@
    ||| text == "mod"@
    ||| text == "move"@
    ||| text == "mut"@
    ||| text == "override"@
    ||| text == "priv"@
    ||| text == "pub"@
    ||| text == "ref"@
    ||| text == "return"@
    ||| text == "Self"@
    ||| text == "self"@
    ||| text == "static"@
    ||| text == "struct"@
    ||| text == "super"@
    ||| text == "trait"@
    ||| text == "true"@
    ||| text == "type"@
    ||| text == "typeof"@
    ||| text == "unsafe"@
    ||| text == "unsized"@
    ||| text == "use"@
    ||| text == "virtual"@
    ||| text == "where"@
    ||| text == "while"@
    ||| text == "yield"@
}

/// What a word is.
pub open spec fn word_kind(text: Seq<char>) -> TokenKind {
    if text == "pins"@ {
        TokenKind::Pins
    } else if text == "id"@ {
        TokenKind::Id
    } else if reserved(text) {
        TokenKind::Reserved
    } else {
        TokenKind::Name
    }
}

/// What a run of digits is.
pub open spec fn number_kind(text: Seq<char>, from: int, to: int) -> TokenKind {
    if number(text, from, to) <= 255 {
        TokenKind::Int(Some(number(text, from, to) as u8))
    } else {
        TokenKind::Int(None)
    }
}

/// `acc` followed by the tokens of `text` from position `i` on, or the first
/// error there. A word is a longest run of word characters that starts with
/// a letter; a number is a longest run of word characters that starts with a
/// digit, and must hold digits only.
pub open spec fn tokens_from(text: Seq<char>, i: int, acc: Seq<Token>) -> Result<
    Seq<Token>,
    ParseError,
>
    decreases text.len() - i,
{
    if !(0 <= i < text.len()) {
        Ok(acc)
    } else if is_space(text[i]) {
        tokens_from(text, i + 1, acc)
    } else if is_letter(text[i]) {
        let end = word_end(text, i + 1);
        proof {
            lemma_word_end_bounds(text, i + 1);
        }
        tokens_from(
            text,
            end,
            acc.push(
                Token { kind: word_kind(text.subrange(i, end)), start: i as usize, end: end as usize },
            ),
        )
    } else if is_digit(text[i]) {
        let end = word_end(text, i + 1);
        proof {
            lemma_word_end_bounds(text, i + 1);
        }
        if all_digits(text, i, end) {
            tokens_from(
                text,
                end,
                acc.push(
                    Token { kind: number_kind(text, i, end), start: i as usize, end: end as usize },
                ),
            )
        } else {
            Err(ParseError { kind: ErrorKind::MalformedInteger, at: i as usize })
        }
    } else {
        match punctuation(text[i]) {
            Some(kind) => tokens_from(
                text,
                i + 1,
                acc.push(Token { kind, start: i as usize, end: (i + 1) as usize }),
            ),
            None => Err(ParseError { kind: ErrorKind::UnexpectedCharacter, at: i as usize }),
        }
    }
}

/// The tokens of a text, or the first error in it.
pub open spec fn tokens_of(text: Seq<char>) -> Result<Seq<Token>, ParseError> {
    tokens_from(text, 0, Seq::empty())
}

/// A run of word characters ends at or behind its start, within the text.
pub proof fn lemma_word_end_bounds(text: Seq<char>, i: int)
    requires
        0 <= i <= text.len(),
    ensures
        i <= word_end(text, i) <= text.len(),
    decreases text.len() - i,
{
    if i < text.len() && is_word(text[i]) {
        lemma_word_end_bounds(text, i + 1);
    }
}

fn byte_is_space(b: u8) -> (yes: bool)
    ensures
        yes == is_space(b as char),
{
    b == 32 || b == 9 || b == 10 || b == 13
}

fn byte_is_digit(b: u8) -> (yes: bool)
    ensures
        yes == is_digit(b as char),
{
    48 <= b && b <= 57
}

fn byte_is_letter(b: u8) -> (yes: bool)
    ensures
        yes == is_letter(b as char),
{
    (97 <= b && b <= 122) || (65 <= b && b <= 90) || b == 95
}

fn byte_punctuation(b: u8) -> (kind: Option<TokenKind>)
    ensures
        kind == punctuation(b as char),
{
    if b == 58 {
        Some(TokenKind::Colon)
    } else if b == 44 {
        Some(TokenKind::Comma)
    } else if b == 123 {
        Some(TokenKind::OpenBrace)
    } else if b == 125 {
        Some(TokenKind::CloseBrace)
    } else if b == 91 {
        Some(TokenKind::OpenBracket)
    } else if b == 93 {
        Some(TokenKind::CloseBracket)
    } else {
        None
    }
}


fn word_at(input: &str, k: usize) -> (yes: bool)
    requires
        is_ascii(input),
        k < input@.len(),
    ensures
        yes == is_word(input@[k as int]),
{
    let b = input.get_ascii(k);
    byte_is_letter(b) || byte_is_digit(b)
}

fn scan_word(input: &str, len: usize, i: usize) -> (end: usize)
    requires
        is_ascii(input),
        len == input@.len(),
        i <= len,
    ensures
        end == word_end(input@, i as int),
        i <= end <= len,
{
    let mut k = i;
    while k < len && word_at(input, k)
        invariant
            is_ascii(input),
            len == input@.len(),
            i <= k <= len,
            word_end(input@, i as int) == word_end(input@, k as int),
        decreases len - k,
    {
        k += 1;
    }
    k
}

fn is_reserved(text: &str) -> (yes: bool)
    ensures
        yes == reserved(text@),
{
    same(text, "_")
        || same(text, "abstract")
        || same(text, "as")
        || same(text, "become")
        || same(text, "box")
        || same(text, "break")
        || same(text, "const")
        || same(text, "continue")
        || same(text, "crate")
        || same(text, "do")
        || same(text, "else")
        || same(text, "enum")
        || same(text, "extern")
        || same(text, "false")
        || same(text, "final")
        || same(text, "fn")
        || same(text, "for")
        || same(text, "if")
        || same(text, "impl")
        || same(text, "in")
        || same(text, "let")
        || same(text, "loop")
        || same(text, "macro")
        || same(text, "match")
        || same(text, "mod")
        || same(text, "move")
        || same(text, "mut")
        || same(text, "override")
        || same(text, "priv")
        || same(text, "pub")
        || same(text, "ref")
        || same(text, "return")
        || same(text, "Self")
        || same(text, "self")
        || same(text, "static")
        || same(text, "struct")
        || same(text, "super")
        || same(text, "trait")
        || same(text, "true")
        || same(text, "type")
        || same(text, "typeof")
        || same(text, "unsafe")
        || same(text, "unsized")
        || same(text, "use")
        || same(text, "virtual")
        || same(text, "where")
        || same(text, "while")
        || same(text, "yield")
}

fn classify(text: &str) -> (kind: TokenKind)
    ensures
        kind == word_kind(text@),
{
    if same(text, "pins") {
        TokenKind::Pins
    } else if same(text, "id") {
        TokenKind::Id
    } else if is_reserved(text) {
        TokenKind::Reserved
    } else {
        TokenKind::Name
    }
}

/// The kind of the number from `from` up to `to`, or `None` where a
/// character there is no digit.
fn scan_number(input: &str, from: usize, to: usize) -> (kind: Option<TokenKind>)
    requires
        is_ascii(input),
        from <= to <= input@.len(),
    ensures
        kind == if all_digits(input@, from as int, to as int) {
            Some(number_kind(input@, from as int, to as int))
        } else {
            None
        },
{
    let mut k = from;
    let mut value: u32 = 0;
    let mut large = false;
    while k < to
        invariant
            is_ascii(input),
            from <= k <= to <= input@.len(),
            all_digits(input@, from as int, k as int),
            large ==> number(input@, from as int, k as int) > 255,
            !large ==> value == number(input@, from as int, k as int) && value <= 255,
        decreases to - k,
    {
        let b = input.get_ascii(k);
        if !byte_is_digit(b) {
            assert(!is_digit(input@[k as int]));
            return None;
        }
        assert(number(input@, from as int, k + 1) == number(input@, from as int, k as int) * 10 + (b
            - 48) as nat);
        if !large {
            value = value * 10 + (b - 48) as u32;
            if value > 255 {
                large = true;
            }
        }
        k += 1;
    }
    if large {
        Some(TokenKind::Int(None))
    } else {
        Some(TokenKind::Int(Some(value as u8)))
    }
}

/// The tokens of a text, or the first error in it; a text that is not all
/// ASCII has no tokens.
pub open spec fn lexed(text: Seq<char>) -> Result<Seq<Token>, ParseError> {
    if vstd::utf8::is_ascii_chars(text) {
        tokens_of(text)
    } else {
        Err(ParseError { kind: ErrorKind::NotAscii, at: 0 })
    }
}

/// Whether what the lexer or parser returned is what the grammar says.
pub open spec fn agrees<T: View>(got: Result<T, ParseError>, wanted: Result<T::V, ParseError>) -> bool {
    match got {
        Ok(value) => wanted == Ok::<T::V, ParseError>(value@),
        Err(error) => wanted == Err::<T::V, ParseError>(error),
    }
}

/// Whether every token lies in a text of `len` characters.
pub open spec fn within(tokens: Seq<Token>, len: nat) -> bool {
    forall|k: int|
        0 <= k < tokens.len() ==> (#[trigger] tokens[k]).start <= tokens[k].end <= len
}

/// Splits a text into its tokens.
pub fn lex(input: &str) -> (tokens: Result<Vec<Token>, ParseError>)
    ensures
        agrees(tokens, lexed(input@)),
        tokens matches Ok(found) ==> within(found@, input@.len()),
{
    if !input.is_ascii() {
        return Err(ParseError { kind: ErrorKind::NotAscii, at: 0 });
    }
    let len = input.unicode_len();
    let mut tokens: Vec<Token> = Vec::new();
    let mut i: usize = 0;
    while i < len
        invariant
            is_ascii(input),
            len == input@.len(),
            i <= len,
            tokens_of(input@) == tokens_from(input@, i as int, tokens@),
            within(tokens@, len as nat),
        decreases len - i,
    {
        let b = input.get_ascii(i);
        if byte_is_space(b) {
            i += 1;
        } else if byte_is_letter(b) {
            let end = scan_word(input, len, i + 1);
            let kind = classify(input.substring_ascii(i, end));
            tokens.push(Token { kind, start: i, end });
            i = end;
        } else if byte_is_digit(b) {
            let end = scan_word(input, len, i + 1);
            match scan_number(input, i, end) {
                Some(kind) => {
                    tokens.push(Token { kind, start: i, end });
                    i = end;
                },
                None => {
                    return Err(ParseError { kind: ErrorKind::MalformedInteger, at: i });
                },
            }
        } else {
            match byte_punctuation(b) {
                Some(kind) => {
                    tokens.push(Token { kind, start: i, end: i + 1 });
                    i += 1;
                },
                None => {
                    return Err(ParseError { kind: ErrorKind::UnexpectedCharacter, at: i });
                },
            }
        }
    }
    Ok(tokens)
}


/// The kind of token `i`; none behind the last token.
pub open spec fn kind_at(tokens: Seq<Token>, i: int) -> Option<TokenKind> {
    if 0 <= i < tokens.len() {
        Some(tokens[i].kind)
    } else {
        None
    }
}

/// An error of kind `kind` at token `i`: at the start of the token, or at
/// `end`, the length of the text, behind the last token.
pub open spec fn error_at(kind: ErrorKind, tokens: Seq<Token>, i: int, end: usize) -> ParseError {
    ParseError {
        kind,
        at: if 0 <= i < tokens.len() {
            tokens[i].start
        } else {
            end
        },
    }
}

pub(crate) fn kind_of(tokens: &Vec<Token>, i: usize) -> (kind: Option<TokenKind>)
    ensures
        kind == kind_at(tokens@, i as int),
{
    if i < tokens.len() {
        Some(tokens[i].kind)
    } else {
        None
    }
}

pub(crate) fn error_of(kind: ErrorKind, tokens: &Vec<Token>, i: usize, end: usize) -> (error:
    ParseError)
    ensures
        error == error_at(kind, tokens@, i as int, end),
{
    let at = if i < tokens.len() {
        tokens[i].start
    } else {
        end
    };
    ParseError { kind, at }
}


/// The number that digits stand for depends on those digits only.
pub proof fn lemma_number_of_equal_digits(a: Seq<char>, b: Seq<char>, from: int, to: int, shift: int)
    requires
        0 <= from <= to <= a.len(),
        0 <= from + shift,
        to + shift <= b.len(),
        forall|k: int| from <= k < to ==> a[k] == b[k + shift],
    ensures
        number(a, from, to) == number(b, from + shift, to + shift),
    decreases to - from,
{
    if from < to {
        lemma_number_of_equal_digits(a, b, from, to - 1, shift);
    }
}

/// What `decimal` writes, the lexer reads back: the text of a number holds
/// digits only, and they stand for the number.
pub proof fn lemma_decimal_reads_back(n: nat)
    ensures
        decimal(n).len() >= 1,
        all_digits(decimal(n), 0, decimal(n).len() as int),
        number(decimal(n), 0, decimal(n).len() as int) == n,
    decreases n,
{
    let text = decimal(n);
    if n < 10 {
        assert(text.len() == 1);
        assert(number(text, 0, 0) == 0);
        assert(text[0] == digit(n));
        assert(number(text, 0, 1) == n);
    } else {
        let front = decimal(n / 10);
        lemma_decimal_reads_back(n / 10);
        assert(text == front.push(digit(n % 10)));
        lemma_number_of_equal_digits(front, text, 0, front.len() as int, 0);
        assert(number(text, 0, text.len() as int) == number(text, 0, text.len() - 1) * 10 + (
        text[text.len() - 1] as u8 - '0' as u8) as nat);
        assert forall|k: int| 0 <= k < text.len() implies is_digit(#[trigger] text[k]) by {
            if k < front.len() {
                assert(text[k] == front[k]);
            }
        }
    }
}

} // verus!

//! Declarations written out, and the proof that the grammar reads them back

use vstd::prelude::*;
use super::lex::all_digits;
use super::lex::lemma_decimal_reads_back;
use super::lex::is_digit;
use super::lex::is_letter;
use super::lex::is_space;
use super::lex::is_word;
use super::lex::lemma_number_of_equal_digits;
use super::lex::lemma_word_end_bounds;
use super::lex::number;
use super::lex::number_kind;
use super::lex::punctuation;
use super::lex::tokens_from;
use super::lex::tokens_of;
use super::lex::word_end;
use super::lex::word_kind;
use super::lex::ParseError;
use super::lex::Token;
use super::lex::TokenKind;
use super::lex::kind_at;
use super::lex::lexed;
use super::pio::behind_field;
use super::pio::closed_at;
use super::pio::fields_from;
use super::pio::names;
use super::pio::pins_from;
use super::pio::pio_from;
use super::pio::PioView;
use super::pio_set::parsed_set;
use super::pio_set::set_from;
use crate::text::decimal;

verus! {

/// A token as it is written: its kind and its text
pub struct Lexeme {
    pub kind: TokenKind,
    pub text: Seq<char>,
}

/// Whether a token is a word or a number.
pub open spec fn wordy(kind: TokenKind) -> bool {
    match kind {
        TokenKind::Pins | TokenKind::Id | TokenKind::Reserved | TokenKind::Name => true,
        TokenKind::Int(_) => true,
        _ => false,
    }
}

/// Whether a text is a word: a letter, then letters and digits.
pub open spec fn is_a_word(text: Seq<char>) -> bool {
    &&& text.len() >= 1
    &&& is_letter(text[0])
    &&& forall|k: int| 0 <= k < text.len() ==> is_word(#[trigger] text[k])
}

/// Whether the text of a lexeme is one that the lexer gives its kind.
pub open spec fn well_formed(lexeme: Lexeme) -> bool {
    match lexeme.kind {
        TokenKind::Int(_) => {
            &&& lexeme.text.len() >= 1
            &&& all_digits(lexeme.text, 0, lexeme.text.len() as int)
            &&& number_kind(lexeme.text, 0, lexeme.text.len() as int) == lexeme.kind
        },
        TokenKind::Pins | TokenKind::Id | TokenKind::Reserved | TokenKind::Name => {
            &&& is_a_word(lexeme.text)
            &&& word_kind(lexeme.text) == lexeme.kind
        },
        _ => {
            &&& lexeme.text.len() == 1
            &&& punctuation(lexeme.text[0]) == Some(lexeme.kind)
        },
    }
}

/// Whether lexemes can be written one after another without space: all
/// are well formed, and no word or number follows a word or number.
pub open spec fn writable(lexemes: Seq<Lexeme>) -> bool {
    &&& forall|k: int| 0 <= k < lexemes.len() ==> well_formed(#[trigger] lexemes[k])
    &&& forall|k: int|
        0 <= k < lexemes.len() - 1 ==> !(wordy(#[trigger] lexemes[k].kind) && wordy(
            lexemes[k + 1].kind,
        ))
}

/// The texts of the first `k` lexemes, one after another.
pub open spec fn spelled(lexemes: Seq<Lexeme>, k: int) -> Seq<char>
    decreases k,
{
    if k <= 0 {
        Seq::empty()
    } else {
        spelled(lexemes, k - 1) + lexemes[k - 1].text
    }
}

/// The first `k` lexemes as tokens of the text that spells them.
pub open spec fn tokens_spelled(lexemes: Seq<Lexeme>, k: int) -> Seq<Token> {
    Seq::new(
        k as nat,
        |j: int|
            Token {
                kind: lexemes[j].kind,
                start: spelled(lexemes, j).len() as usize,
                end: spelled(lexemes, j + 1).len() as usize,
            },
    )
}

/// The text of more lexemes starts with the text of fewer, and goes on with
/// the text of the next.
pub proof fn lemma_spelled_grows(lexemes: Seq<Lexeme>, k: int, n: int)
    requires
        0 <= k < n <= lexemes.len(),
    ensures
        spelled(lexemes, k).len() + lexemes[k].text.len() == spelled(lexemes, k + 1).len(),
        spelled(lexemes, k + 1).len() <= spelled(lexemes, n).len(),
        forall|j: int|
            0 <= j < lexemes[k].text.len() ==> #[trigger] spelled(lexemes, n)[spelled(
                lexemes,
                k,
            ).len() + j] == lexemes[k].text[j],
    decreases n - k,
{
    if k + 1 < n {
        lemma_spelled_grows(lexemes, k, n - 1);
        lemma_spelled_grows(lexemes, n - 1, n);
    }
}

/// A run of word characters that is followed by none ends where it ends.
pub proof fn lemma_word_end_of_run(text: Seq<char>, i: int, end: int)
    requires
        0 <= i <= end <= text.len(),
        forall|k: int| i <= k < end ==> is_word(#[trigger] text[k]),
        end < text.len() ==> !is_word(text[end]),
    ensures
        word_end(text, i) == end,
    decreases end - i,
{
    if i < end {
        lemma_word_end_of_run(text, i + 1, end);
    }
}

/// Lexemes that can be written one after another are what the lexer finds
/// in their text.
pub proof fn lemma_lexer_reads_lexemes(lexemes: Seq<Lexeme>)
    requires
        writable(lexemes),
    ensures
        tokens_of(spelled(lexemes, lexemes.len() as int)) == Ok::<Seq<Token>, ParseError>(
            tokens_spelled(lexemes, lexemes.len() as int),
        ),
{
    lemma_lexer_reads_from(lexemes, 0);
    assert(tokens_spelled(lexemes, 0) =~= Seq::<Token>::empty());
}

proof fn lemma_lexer_reads_from(lexemes: Seq<Lexeme>, k: int)
    requires
        writable(lexemes),
        0 <= k <= lexemes.len(),
    ensures
        tokens_from(
            spelled(lexemes, lexemes.len() as int),
            spelled(lexemes, k).len() as int,
            tokens_spelled(lexemes, k),
        ) == Ok::<Seq<Token>, ParseError>(tokens_spelled(lexemes, lexemes.len() as int)),
    decreases lexemes.len() - k,
{
    let n = lexemes.len() as int;
    let text = spelled(lexemes, n);
    let at = spelled(lexemes, k).len() as int;
    let found = tokens_spelled(lexemes, k);
    if k == n {
        assert(tokens_from(text, at, found) == Ok::<Seq<Token>, ParseError>(found));
    } else {
        let lexeme = lexemes[k];
        let end = spelled(lexemes, k + 1).len() as int;
        lemma_spelled_grows(lexemes, k, n);
        assert(well_formed(lexeme));
        assert(text[at + 0] == lexeme.text[0]);
        let token = Token { kind: lexeme.kind, start: at as usize, end: end as usize };
        assert(tokens_spelled(lexemes, k + 1) =~= found.push(token));
        lemma_lexer_reads_from(lexemes, k + 1);
        if wordy(lexeme.kind) {
            // The next lexeme, if there is one, starts with punctuation.
            if k + 1 < n {
                lemma_spelled_grows(lexemes, k + 1, n);
                assert(well_formed(lexemes[k + 1]));
                assert(!wordy(lexemes[k + 1].kind));
                assert(text[end + 0] == lexemes[k + 1].text[0]);
                assert(!is_word(text[end]));
            }
            assert forall|j: int| at <= j < end implies is_word(#[trigger] text[j]) by {
                assert(text[at + (j - at)] == lexeme.text[j - at]);
            }
            lemma_word_end_of_run(text, at + 1, end);
            match lexeme.kind {
                TokenKind::Int(_) => {
                    assert(is_digit(text[at]));
                    assert forall|j: int| at <= j < end implies is_digit(#[trigger] text[j]) by {
                        assert(text[at + (j - at)] == lexeme.text[j - at]);
                    }
                    assert forall|j: int| 0 <= j < lexeme.text.len() implies lexeme.text[j]
                        == text[j + at] by {
                        assert(text[at + j] == lexeme.text[j]);
                    }
                    lemma_number_of_equal_digits(
                        lexeme.text,
                        text,
                        0,
                        lexeme.text.len() as int,
                        at,
                    );
                    assert(number_kind(text, at, end) == lexeme.kind);
                },
                _ => {
                    assert(is_letter(text[at]));
                    assert(text.subrange(at, end) =~= lexeme.text) by {
                        assert forall|j: int| 0 <= j < end - at implies text.subrange(at, end)[j]
                            == lexeme.text[j] by {
                            assert(text[at + j] == lexeme.text[j]);
                        }
                    }
                },
            }
        } else {
            assert(punctuation(text[at]) == Some(lexeme.kind));
            assert(end == at + 1);
        }
    }
}


/// The character that a punctuation token is written with.
pub open spec fn mark(kind: TokenKind) -> char {
    match kind {
        TokenKind::Colon => ':',
        TokenKind::Comma => ',',
        TokenKind::OpenBrace => '{',
        TokenKind::CloseBrace => '}',
        TokenKind::OpenBracket => '[',
        _ => ']',
    }
}

/// A punctuation token as it is written.
pub open spec fn sign(kind: TokenKind) -> Lexeme {
    Lexeme { kind, text: seq![mark(kind)] }
}

/// A word as it is written.
pub open spec fn word(text: Seq<char>) -> Lexeme {
    Lexeme { kind: word_kind(text), text }
}

/// A number as it is written: in base ten, without leading zeros.
pub open spec fn numeral(n: u8) -> Lexeme {
    Lexeme { kind: TokenKind::Int(Some(n)), text: decimal(n as nat) }
}

/// Whether a text can name a controller: it is a word, and no reserved one.
pub open spec fn nameable(name: Seq<char>) -> bool {
    is_a_word(name) && word_kind(name) != TokenKind::Reserved
}

/// The numbers of a list of pins as they are written between the
/// brackets: with commas between them.
pub open spec fn pins_lexemes(pins: Seq<u8>) -> Seq<Lexeme> {
    Seq::new(
        if pins.len() == 0 {
            0
        } else {
            (2 * pins.len() - 1) as nat
        },
        |j: int|
            if j % 2 == 0 {
                numeral(pins[j / 2])
            } else {
                sign(TokenKind::Comma)
            },
    )
}

/// A controller as it is written: `name:{id:1,pins:[2,3]}`.
pub open spec fn pio_lexemes(pio: PioView) -> Seq<Lexeme> {
    seq![
        word(pio.name),
        sign(TokenKind::Colon),
        sign(TokenKind::OpenBrace),
        word("id"@),
        sign(TokenKind::Colon),
        numeral(pio.id),
        sign(TokenKind::Comma),
        word("pins"@),
        sign(TokenKind::Colon),
        sign(TokenKind::OpenBracket),
    ] + pins_lexemes(pio.pins) + seq![sign(TokenKind::CloseBracket), sign(TokenKind::CloseBrace)]
}

/// The controllers from the one numbered `k` on as they are written: with
/// commas between them.
pub open spec fn set_lexemes(pios: Seq<PioView>, k: int) -> Seq<Lexeme>
    decreases pios.len() - k,
{
    if k < 0 || k >= pios.len() {
        Seq::empty()
    } else if k == pios.len() - 1 {
        pio_lexemes(pios[k])
    } else {
        pio_lexemes(pios[k]) + seq![sign(TokenKind::Comma)] + set_lexemes(pios, k + 1)
    }
}

/// A declaration of controllers written out, without any space.
pub open spec fn written(pios: Seq<PioView>) -> Seq<char> {
    spelled(set_lexemes(pios, 0), set_lexemes(pios, 0).len() as int)
}

/// Punctuation, the two field names and every number are well formed as
/// they are written.
pub proof fn lemma_fixed_lexemes()
    ensures
        well_formed(sign(TokenKind::Colon)),
        well_formed(sign(TokenKind::Comma)),
        well_formed(sign(TokenKind::OpenBrace)),
        well_formed(sign(TokenKind::CloseBrace)),
        well_formed(sign(TokenKind::OpenBracket)),
        well_formed(sign(TokenKind::CloseBracket)),
        well_formed(word("id"@)),
        word("id"@).kind == TokenKind::Id,
        well_formed(word("pins"@)),
        word("pins"@).kind == TokenKind::Pins,
        forall|n: u8| well_formed(#[trigger] numeral(n)),
{
    reveal_strlit("id");
    reveal_strlit("pins");
    assert("id"@.len() == 2);
    assert("pins"@.len() == 4);
    assert("id"@ != "pins"@);
    assert(is_a_word("id"@));
    assert(is_a_word("pins"@));
    assert forall|n: u8| well_formed(#[trigger] numeral(n)) by {
        lemma_decimal_reads_back(n as nat);
    }
}

/// Two runs of lexemes that can each be written without space can be
/// written one after the other, unless a word or number would meet another.
pub proof fn lemma_writable_joined(a: Seq<Lexeme>, b: Seq<Lexeme>)
    requires
        writable(a),
        writable(b),
        a.len() > 0 && b.len() > 0 ==> !(wordy(a[a.len() - 1].kind) && wordy(b[0].kind)),
    ensures
        writable(a + b),
{
    let joined = a + b;
    assert forall|k: int| 0 <= k < joined.len() implies well_formed(#[trigger] joined[k]) by {
        if k < a.len() {
            assert(joined[k] == a[k]);
        } else {
            assert(joined[k] == b[k - a.len()]);
        }
    }
    assert forall|k: int| 0 <= k < joined.len() - 1 implies !(wordy(#[trigger] joined[k].kind)
        && wordy(joined[k + 1].kind)) by {
        if k + 1 < a.len() {
            assert(joined[k] == a[k] && joined[k + 1] == a[k + 1]);
        } else if k < a.len() {
            assert(joined[k] == a[k] && joined[k + 1] == b[0]);
        } else {
            assert(joined[k] == b[k - a.len()] && joined[k + 1] == b[k - a.len() + 1]);
        }
    }
}

/// A controller with a name that can name one can be written without
/// space; what is written starts with its name and ends with a brace.
pub proof fn lemma_pio_writable(pio: PioView)
    requires
        nameable(pio.name),
    ensures
        writable(pio_lexemes(pio)),
        pio_lexemes(pio).len() == 12 + pins_lexemes(pio.pins).len(),
        pio_lexemes(pio)[pio_lexemes(pio).len() - 1] == sign(TokenKind::CloseBrace),
{
    lemma_fixed_lexemes();
    let head = seq![
        word(pio.name),
        sign(TokenKind::Colon),
        sign(TokenKind::OpenBrace),
        word("id"@),
        sign(TokenKind::Colon),
        numeral(pio.id),
        sign(TokenKind::Comma),
        word("pins"@),
        sign(TokenKind::Colon),
        sign(TokenKind::OpenBracket),
    ];
    let list = pins_lexemes(pio.pins);
    let tail = seq![sign(TokenKind::CloseBracket), sign(TokenKind::CloseBrace)];
    assert(well_formed(word(pio.name)));
    assert(writable(head));
    assert(writable(list)) by {
        assert forall|k: int| 0 <= k < list.len() implies well_formed(#[trigger] list[k]) by {
            if k % 2 == 0 {
                assert(well_formed(numeral(pio.pins[k / 2])));
            }
        }
    }
    assert(writable(tail));
    lemma_writable_joined(head, list);
    lemma_writable_joined(head + list, tail);
}

/// Controllers with names that can name them can be written without space.
pub proof fn lemma_set_writable(pios: Seq<PioView>, k: int)
    requires
        0 <= k <= pios.len(),
        forall|i: int| 0 <= i < pios.len() ==> nameable(#[trigger] pios[i].name),
    ensures
        writable(set_lexemes(pios, k)),
        k < pios.len() ==> set_lexemes(pios, k).len() > 0 && set_lexemes(pios, k)[0] == word(
            pios[k].name,
        ),
    decreases pios.len() - k,
{
    lemma_fixed_lexemes();
    if k < pios.len() {
        lemma_pio_writable(pios[k]);
        if k < pios.len() - 1 {
            lemma_set_writable(pios, k + 1);
            let comma = seq![sign(TokenKind::Comma)];
            assert(writable(comma));
            lemma_writable_joined(pio_lexemes(pios[k]), comma);
            lemma_writable_joined(pio_lexemes(pios[k]) + comma, set_lexemes(pios, k + 1));
        }
    }
}


/// What is written without space is ASCII.
pub proof fn lemma_spelled_is_ascii(lexemes: Seq<Lexeme>, k: int)
    requires
        writable(lexemes),
        0 <= k <= lexemes.len(),
    ensures
        vstd::utf8::is_ascii_chars(spelled(lexemes, k)),
    decreases k,
{
    if k > 0 {
        lemma_spelled_is_ascii(lexemes, k - 1);
        let before = spelled(lexemes, k - 1);
        let lexeme = lexemes[k - 1];
        assert(well_formed(lexeme));
        assert forall|i: int| 0 <= i < spelled(lexemes, k).len() implies '\0' <= #[trigger] spelled(
            lexemes,
            k,
        )[i] <= '\u{7f}' by {
            if i < before.len() {
                assert(spelled(lexemes, k)[i] == before[i]);
            } else {
                let c = lexeme.text[i - before.len()];
                assert(spelled(lexemes, k)[i] == c);
                if wordy(lexeme.kind) {
                    match lexeme.kind {
                        TokenKind::Int(_) => {
                            assert(is_digit(c));
                        },
                        _ => {
                            assert(is_word(c));
                        },
                    }
                } else {
                    assert(i == before.len());
                    assert(punctuation(c) == Some(lexeme.kind));
                }
            }
        }
    }
}

/// A list of pins as it is written is read back, from any of its numbers on.
proof fn lemma_pins_read(lexemes: Seq<Lexeme>, end: usize, at: int, pins: Seq<u8>, t: int)
    requires
        0 <= at,
        at + pins_lexemes(pins).len() < lexemes.len(),
        forall|j: int|
            0 <= j < pins_lexemes(pins).len() ==> #[trigger] lexemes[at + j] == pins_lexemes(
                pins,
            )[j],
        lexemes[at + pins_lexemes(pins).len()].kind == TokenKind::CloseBracket,
        0 <= t <= pins.len(),
        t < pins.len() || pins.len() == 0,
    ensures
        pins_from(
            tokens_spelled(lexemes, lexemes.len() as int),
            end,
            at + 2 * t,
            pins.subrange(0, t),
        ) == Ok::<(Seq<u8>, int), ParseError>((pins, at + pins_lexemes(pins).len() + 1)),
    decreases pins.len() - t,
{
    let tokens = tokens_spelled(lexemes, lexemes.len() as int);
    let list = pins_lexemes(pins);
    let acc = pins.subrange(0, t);
    if pins.len() == 0 {
        assert(kind_at(tokens, at) == Some(TokenKind::CloseBracket));
        assert(acc =~= pins);
    } else {
        assert(lexemes[at + 2 * t] == list[2 * t]);
        assert(kind_at(tokens, at + 2 * t) == Some(TokenKind::Int(Some(pins[t]))));
        assert(acc.push(pins[t]) =~= pins.subrange(0, t + 1));
        if t == pins.len() - 1 {
            assert(kind_at(tokens, at + 2 * t + 1) == Some(TokenKind::CloseBracket));
            assert(pins.subrange(0, t + 1) =~= pins);
        } else {
            assert(lexemes[at + (2 * t + 1)] == list[2 * t + 1]);
            assert(kind_at(tokens, at + 2 * t + 1) == Some(TokenKind::Comma));
            lemma_pins_read(lexemes, end, at, pins, t + 1);
        }
    }
}

/// A controller as it is written is read back, wherever it stands among
/// the lexemes.
proof fn lemma_pio_read(lexemes: Seq<Lexeme>, end: usize, at: int, pio: PioView)
    requires
        nameable(pio.name),
        0 <= at,
        at + pio_lexemes(pio).len() <= lexemes.len(),
        forall|j: int|
            0 <= j < pio_lexemes(pio).len() ==> #[trigger] lexemes[at + j] == pio_lexemes(pio)[j],
        spelled(lexemes, lexemes.len() as int).len() <= usize::MAX,
    ensures
        pio_from(
            spelled(lexemes, lexemes.len() as int),
            tokens_spelled(lexemes, lexemes.len() as int),
            end,
            at,
        ) == Ok::<(PioView, int), ParseError>((pio, at + pio_lexemes(pio).len())),
{
    lemma_fixed_lexemes();
    let n = lexemes.len() as int;
    let text = spelled(lexemes, n);
    let tokens = tokens_spelled(lexemes, n);
    let own = pio_lexemes(pio);
    let list = pins_lexemes(pio.pins);
    let m = list.len() as int;
    assert(own.len() == 12 + m);
    assert(lexemes[at + 0] == own[0]);
    assert(lexemes[at + 1] == own[1]);
    assert(lexemes[at + 2] == own[2]);
    assert(lexemes[at + 3] == own[3]);
    assert(lexemes[at + 4] == own[4]);
    assert(lexemes[at + 5] == own[5]);
    assert(lexemes[at + 6] == own[6]);
    assert(lexemes[at + 7] == own[7]);
    assert(lexemes[at + 8] == own[8]);
    assert(lexemes[at + 9] == own[9]);
    assert(lexemes[at + (10 + m)] == own[10 + m]);
    assert(lexemes[at + (11 + m)] == own[11 + m]);
    assert forall|j: int| 0 <= j < m implies #[trigger] lexemes[(at + 10) + j] == list[j] by {
        assert(lexemes[at + (10 + j)] == own[10 + j]);
    }
    assert(names(kind_at(tokens, at)));
    assert(kind_at(tokens, at + 1) == Some(TokenKind::Colon));
    assert(kind_at(tokens, at + 2) == Some(TokenKind::OpenBrace));
    assert(kind_at(tokens, at + 3) == Some(TokenKind::Id));
    assert(kind_at(tokens, at + 4) == Some(TokenKind::Colon));
    assert(kind_at(tokens, at + 5) == Some(TokenKind::Int(Some(pio.id))));
    assert(kind_at(tokens, at + 6) == Some(TokenKind::Comma));
    assert(kind_at(tokens, at + 7) == Some(TokenKind::Pins));
    assert(kind_at(tokens, at + 8) == Some(TokenKind::Colon));
    assert(kind_at(tokens, at + 9) == Some(TokenKind::OpenBracket));
    assert(kind_at(tokens, at + 10 + m) == Some(TokenKind::CloseBracket));
    assert(kind_at(tokens, at + 11 + m) == Some(TokenKind::CloseBrace));
    lemma_pins_read(lexemes, end, at + 10, pio.pins, 0);
    assert(pio.pins.subrange(0, 0) =~= Seq::<u8>::empty());
    assert(pins_from(tokens, end, at + 10, Seq::empty()) == Ok::<(Seq<u8>, int), ParseError>(
        (pio.pins, at + 11 + m),
    ));
    assert(behind_field(tokens, end, at + 11 + m, Some(pio.id), Some(pio.pins)) == Ok::<
        (u8, Seq<u8>, int),
        ParseError,
    >((pio.id, pio.pins, at + 12 + m)));
    assert(fields_from(tokens, end, at + 7, Some(pio.id), None) == Ok::<
        (u8, Seq<u8>, int),
        ParseError,
    >((pio.id, pio.pins, at + 12 + m)));
    assert(behind_field(tokens, end, at + 6, Some(pio.id), None) == Ok::<
        (u8, Seq<u8>, int),
        ParseError,
    >((pio.id, pio.pins, at + 12 + m)));
    assert(fields_from(tokens, end, at + 3, None, None) == Ok::<(u8, Seq<u8>, int), ParseError>(
        (pio.id, pio.pins, at + 12 + m),
    ));
    // The name is the text of the first token.
    lemma_spelled_grows(lexemes, at, n);
    let start = spelled(lexemes, at).len() as int;
    let stop = spelled(lexemes, at + 1).len() as int;
    assert(tokens[at].start == start && tokens[at].end == stop);
    assert(text.subrange(start, stop) =~= pio.name) by {
        assert forall|j: int| 0 <= j < stop - start implies text.subrange(start, stop)[j]
            == pio.name[j] by {
            assert(text[start + j] == lexemes[at].text[j]);
        }
    }
}

/// Controllers as they are written are read back, from any of them on.
proof fn lemma_set_read(
    lexemes: Seq<Lexeme>,
    end: usize,
    at: int,
    pios: Seq<PioView>,
    k: int,
)
    requires
        forall|i: int| 0 <= i < pios.len() ==> nameable(#[trigger] pios[i].name),
        0 <= k <= pios.len(),
        0 <= at,
        at + set_lexemes(pios, k).len() == lexemes.len(),
        forall|j: int|
            0 <= j < set_lexemes(pios, k).len() ==> #[trigger] lexemes[at + j] == set_lexemes(
                pios,
                k,
            )[j],
        spelled(lexemes, lexemes.len() as int).len() <= usize::MAX,
    ensures
        set_from(
            spelled(lexemes, lexemes.len() as int),
            tokens_spelled(lexemes, lexemes.len() as int),
            end,
            at,
            pios.subrange(0, k),
        ) == Ok::<Seq<PioView>, ParseError>(pios),
    decreases pios.len() - k,
{
    let n = lexemes.len() as int;
    let text = spelled(lexemes, n);
    let tokens = tokens_spelled(lexemes, n);
    let acc = pios.subrange(0, k);
    if k == pios.len() {
        assert(acc =~= pios);
    } else {
        let own = pio_lexemes(pios[k]);
        let rest = set_lexemes(pios, k);
        lemma_pio_writable(pios[k]);
        assert forall|j: int| 0 <= j < own.len() implies #[trigger] lexemes[at + j] == own[j] by {
            assert(lexemes[at + j] == rest[j]);
        }
        lemma_pio_read(lexemes, end, at, pios[k]);
        let next = at + own.len();
        assert(acc.push(pios[k]) =~= pios.subrange(0, k + 1));
        if k == pios.len() - 1 {
            assert(pios.subrange(0, k + 1) =~= pios);
        } else {
            let later = set_lexemes(pios, k + 1);
            assert(rest == own + seq![sign(TokenKind::Comma)] + later);
            assert(lexemes[at + own.len()] == rest[own.len() as int]);
            assert(kind_at(tokens, next) == Some(TokenKind::Comma));
            assert forall|j: int| 0 <= j < later.len() implies #[trigger] lexemes[(next + 1) + j]
                == later[j] by {
                assert(lexemes[at + (own.len() + 1 + j)] == rest[own.len() + 1 + j]);
            }
            lemma_set_read(lexemes, end, next + 1, pios, k + 1);
        }
    }
}

/// A declaration that is written out is read back as it was: for all
/// controllers whose names can name them, the parser finds in the text
/// written for them those controllers, in their order, with their
/// identifiers and pins.
pub proof fn lemma_written_is_read_back(pios: Seq<PioView>)
    requires
        forall|i: int| 0 <= i < pios.len() ==> nameable(#[trigger] pios[i].name),
        written(pios).len() <= usize::MAX,
    ensures
        parsed_set(written(pios)) == Ok::<Seq<PioView>, ParseError>(pios),
{
    let lexemes = set_lexemes(pios, 0);
    lemma_set_writable(pios, 0);
    lemma_spelled_is_ascii(lexemes, lexemes.len() as int);
    lemma_lexer_reads_lexemes(lexemes);
    lemma_set_read(lexemes, written(pios).len() as usize, 0, pios, 0);
    assert(pios.subrange(0, 0) =~= Seq::<PioView>::empty());
}

} // verus!

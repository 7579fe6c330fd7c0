//! The tokens of a source, one after the other: what a lexer yields over
//! many calls, and what holds of such a run of tokens.

use vstd::prelude::*;
use crate::lexer::{
    char_at,
    end_of_input,
    is_whitespace,
    lemma_lex_step_advances,
    lemma_run_end,
    lex_step,
    run_end,
    symbol_kind,
    CharClass,
    Lexeme,
};
use crate::token::{lemma_keywords, TokenType, TokenView};

verus! {

/// Where a lexer stands that started at `start` and has yielded `count`
/// tokens since.
pub open spec fn position_after(source: Seq<char>, start: int, count: nat) -> int
    decreases count,
{
    if count == 0 {
        start
    } else {
        lex_step(source, position_after(source, start, (count - 1) as nat)).next
    }
}

/// The token that a lexer yields in call number `index`, counted from 0, if
/// it stood at `start` before the first call.
pub open spec fn nth_token(source: Seq<char>, start: int, index: nat) -> TokenView {
    lex_step(source, position_after(source, start, index)).token
}

/// A lexer stays inside the source, and never moves backwards.
pub proof fn lemma_position_after(source: Seq<char>, start: int, count: nat)
    requires
        0 <= start <= source.len(),
    ensures
        start <= position_after(source, start, count) <= source.len(),
        position_after(source, start, count) <= position_after(source, start, count + 1),
    decreases count,
{
    if count > 0 {
        lemma_position_after(source, start, (count - 1) as nat);
        lemma_lex_step_advances(source, position_after(source, start, (count - 1) as nat));
    }
    lemma_lex_step_advances(source, position_after(source, start, count));
}

/// Only a null character, or the end of the source, gives the end of input;
/// the token is then the one with the empty text.
pub proof fn lemma_end_of_input_at_null(source: Seq<char>, position: int)
    requires
        0 <= position <= source.len(),
    ensures
        lex_step(source, position).token.kind == TokenType::EOF <==> char_at(
            source,
            run_end(source, position, CharClass::Whitespace),
        ) == '\0',
        lex_step(source, position).token.kind == TokenType::EOF ==> lex_step(
            source,
            position,
        ).token == end_of_input(),
{
    lemma_keywords();
}

/// Whether everything in the source from `from` on is whitespace or a null
/// character.
pub open spec fn nothing_left(source: Seq<char>, from: int) -> bool {
    forall|i: int| from <= i < source.len() ==> source[i] == '\0' || is_whitespace(source[i])
}

/// Whether, from `start` on, only whitespace and null characters stand
/// behind a null character.
pub open spec fn null_closes_source(source: Seq<char>, start: int) -> bool {
    forall|i: int|
        start <= i < source.len() && source[i] == '\0' ==> nothing_left(source, i + 1)
}

/// Where nothing is left, a lexer yields the end of input, and nothing is
/// left behind that either.
proof fn lemma_nothing_left(source: Seq<char>, start: int, from: nat, to: nat)
    requires
        0 <= start <= source.len(),
        from <= to,
        nothing_left(source, position_after(source, start, from)),
    ensures
        nothing_left(source, position_after(source, start, to)),
        nth_token(source, start, to) == end_of_input(),
    decreases to - from,
{
    lemma_position_after(source, start, to);
    let position = position_after(source, start, to);
    if from < to {
        lemma_nothing_left(source, start, from, (to - 1) as nat);
        lemma_position_after(source, start, (to - 1) as nat);
    }
    lemma_run_end(source, position, CharClass::Whitespace);
    lemma_end_of_input_at_null(source, position);
}

/// The end of input is final: once a lexer has yielded it, every later call
/// yields it again.
///
/// This holds of every source in which nothing but whitespace and null
/// characters stands behind a null character. A null character inside the
/// source reads as the end of input too, and the lexer goes on behind it.
pub proof fn lemma_end_of_input_is_final(source: Seq<char>, start: int, first: nat, later: nat)
    requires
        0 <= start <= source.len(),
        null_closes_source(source, start),
        first <= later,
        nth_token(source, start, first).kind == TokenType::EOF,
    ensures
        nth_token(source, start, later) == end_of_input(),
{
    lemma_position_after(source, start, first);
    let position = position_after(source, start, first);
    lemma_end_of_input_at_null(source, position);
    if first < later {
        lemma_run_end(source, position, CharClass::Whitespace);
        lemma_nothing_left(source, start, first + 1, later);
    }
}

/// A lexer at the end of its source stays there, and yields the end of input.
pub proof fn lemma_end_of_source_is_final(source: Seq<char>, count: nat)
    ensures
        position_after(source, source.len() as int, count) == source.len(),
        nth_token(source, source.len() as int, count) == end_of_input(),
    decreases count,
{
    if count > 0 {
        lemma_end_of_source_is_final(source, (count - 1) as nat);
    }
    lemma_lex_step_advances(source, source.len() as int);
}

/// The eight marks `=+(){},;`.
pub open spec fn is_plain_mark(c: char) -> bool {
    c == '=' || c == '+' || c == '(' || c == ')' || c == '{' || c == '}' || c == ',' || c == ';'
}

/// Whether a source is made of the marks `=+(){},;` alone, with no `=`
/// directly behind another.
pub open spec fn plain_marks(source: Seq<char>) -> bool {
    &&& forall|i: int| 0 <= i < source.len() ==> is_plain_mark(#[trigger] source[i])
    &&& forall|i: int|
        0 <= i && i + 1 < source.len() ==> !(#[trigger] source[i] == '=' && source[i + 1] == '=')
}

/// In such a source each step of the lexer takes one mark.
proof fn lemma_plain_marks_positions(source: Seq<char>, count: nat)
    requires
        plain_marks(source),
        count <= source.len(),
    ensures
        position_after(source, 0, count) == count,
        count < source.len() ==> lex_step(source, count as int) == (Lexeme {
            token: TokenView {
                kind: symbol_kind(source[count as int])->0,
                literal: seq![source[count as int]],
            },
            next: count as int + 1,
        }),
    decreases count,
{
    if count > 0 {
        lemma_plain_marks_positions(source, (count - 1) as nat);
    }
    if count < source.len() {
        let c = source[count as int];
        assert(is_plain_mark(c));
        assert(run_end(source, count as int, CharClass::Whitespace) == count);
        if c == '=' && count + 1 < source.len() {
            assert(!(source[count as int] == '=' && source[count as int + 1] == '='));
        }
        assert(source.subrange(count as int, count as int + 1) =~= seq![c]);
    }
}

/// A source made of the marks `=+(){},;` alone, with no `=` directly behind
/// another, gives one token for each mark, of the mark's own kind and in
/// source order, and then the end of input.
///
/// Two `=` in a row are left out: they are the one token `==`.
pub proof fn lemma_plain_marks_tokens(source: Seq<char>)
    requires
        plain_marks(source),
    ensures
        forall|i: nat|
            i < source.len() ==> #[trigger] nth_token(source, 0, i) == (TokenView {
                kind: symbol_kind(source[i as int])->0,
                literal: seq![source[i as int]],
            }),
        forall|i: int| 0 <= i < source.len() ==> symbol_kind(#[trigger] source[i]) is Some,
        nth_token(source, 0, source.len()) == end_of_input(),
{
    assert forall|i: nat| i < source.len() implies #[trigger] nth_token(source, 0, i) == (
    TokenView { kind: symbol_kind(source[i as int])->0, literal: seq![source[i as int]] }) by {
        lemma_plain_marks_positions(source, i);
    }
    assert forall|i: int| 0 <= i < source.len() implies symbol_kind(
        #[trigger] source[i],
    ) is Some by {
        assert(is_plain_mark(source[i]));
    }
    lemma_plain_marks_positions(source, source.len());
    lemma_lex_step_advances(source, source.len() as int);
}

} // verus!

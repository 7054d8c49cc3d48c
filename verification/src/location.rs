//! Source locations: tokens of the shape `path:line`, with or without square
//! brackets around them.

use crate::scan::first;
use crate::scan::first_from;
use crate::text::count;
use crate::text::is_i32_text;
use crate::text::join;
use crate::text::lemma_join_split;
use crate::text::lemma_split_pieces;
use crate::text::reads_as_i32;
use crate::text::slice_of;
use crate::text::split;
use crate::text::split_on;
use crate::text::texts;
use crate::text::Token;
use vstd::prelude::*;

verus! {

/// `token` without one opening square bracket at its start and, after that,
/// without one closing square bracket at its end.
pub open spec fn unbracketed(token: Seq<char>) -> Seq<char> {
    let inner = if token.len() > 0 && token[0] == '[' {
        token.drop_first()
    } else {
        token
    };
    if inner.len() > 0 && inner.last() == ']' {
        inner.drop_last()
    } else {
        inner
    }
}

/// Whether `token` names a place in a source file: without its brackets it
/// holds exactly one colon, and what follows the colon is a line number, a
/// 32-bit integer in decimal.
pub open spec fn is_location(token: Seq<char>) -> bool {
    let parts = split(unbracketed(token), ':');
    parts.len() == 2 && is_i32_text(parts[1])
}

/// At which positions of `tokens` a location stands.
pub open spec fn location_hits(tokens: Seq<Seq<char>>) -> spec_fn(int) -> bool {
    |i: int| is_location(tokens[i])
}

/// The position of the first location among `tokens`, if there is one.
pub open spec fn first_location(tokens: Seq<Seq<char>>) -> Option<int> {
    first(location_hits(tokens), tokens.len() as int)
}

/// Whether `token` names a place in a source file.
pub fn names_location(token: &Vec<char>) -> (yes: bool)
    ensures
        yes == is_location(token@),
{
    let n = token.len();
    let from: usize = if n > 0 && token[0] == '[' {
        1
    } else {
        0
    };
    let to: usize = if n > from && token[n - 1] == ']' {
        n - 1
    } else {
        n
    };
    let inner = slice_of(token, from, to);
    proof {
        let opened = if token@.len() > 0 && token@[0] == '[' {
            token@.drop_first()
        } else {
            token@
        };
        assert(opened =~= token@.subrange(from as int, n as int));
        assert(inner@ =~= unbracketed(token@));
    }
    let parts = split_on(&inner, ':');
    if parts.len() != 2 {
        assert(texts(parts@).len() == parts.len());
        return false;
    }
    assert(texts(parts@)[1] == parts@[1]@);
    reads_as_i32(&parts[1])
}

/// The position of the first location among `tokens`, if there is one.
pub fn find_location(tokens: &Vec<Token>) -> (found: Option<usize>)
    ensures
        match found {
            Some(at) => first_location(texts(tokens@)) == Some(at as int),
            None => first_location(texts(tokens@)) is None,
        },
{
    let ghost hit = location_hits(texts(tokens@));
    let ghost end = tokens.len() as int;
    let mut i: usize = 0;
    while i < tokens.len()
        invariant
            i <= tokens.len(),
            end == tokens.len(),
            hit == location_hits(texts(tokens@)),
            first_from(hit, 0, end) == first_from(hit, i as int, end),
        decreases tokens.len() - i,
    {
        assert(texts(tokens@)[i as int] == tokens@[i as int]@);
        if names_location(&tokens[i]) {
            return Some(i);
        }
        i += 1;
    }
    None
}

/// A token names a place only if, once its brackets are off, it holds exactly
/// one colon and the text after that colon is a 32-bit integer in decimal. So a
/// token with no colon or with two or more never names a place, and neither
/// does one whose text after the colon is anything but such an integer.
pub proof fn lemma_location_shape(token: Seq<char>)
    ensures
        is_location(token) ==> count(unbracketed(token), ':') == 1,
        is_location(token) ==> is_i32_text(split(unbracketed(token), ':')[1]),
        is_location(token) ==> unbracketed(token) == split(unbracketed(token), ':')[0] + seq![':']
            + split(unbracketed(token), ':')[1],
        count(unbracketed(token), ':') != 1 ==> !is_location(token),
{
    let inner = unbracketed(token);
    let parts = split(inner, ':');
    lemma_split_pieces(inner, ':');
    lemma_join_split(inner, ':');
    if parts.len() == 2 {
        assert(parts.drop_last().len() == 1);
        assert(join(parts.drop_last(), ':') == parts.drop_last()[0]);
        assert(join(parts, ':') == parts[0] + seq![':'] + parts[1]);
    }
}

} // verus!

//! Text as sequences of characters.
//!
//! Every rule of this crate is stated over `Seq<char>`. This module holds the
//! vocabulary of those statements (trimming, splitting on a separator, joining,
//! dropping characters, reading and writing decimal numbers) together with
//! executable versions on `Vec<char>` that are proved to compute them.

use vstd::prelude::*;

verus! {

/// One token of a line.
pub type Token = Vec<char>;

/// Whether `c` is white space in the sense of Unicode's `White_Space` property.
pub open spec fn is_whitespace(c: char) -> bool {
    let n = c as u32;
    ||| 0x09 <= n <= 0x0D
    ||| n == 0x20
    ||| n == 0x85
    ||| n == 0xA0
    ||| n == 0x1680
    ||| 0x2000 <= n <= 0x200A
    ||| n == 0x2028
    ||| n == 0x2029
    ||| n == 0x202F
    ||| n == 0x205F
    ||| n == 0x3000
}

/// Whether `c` is one of the 128 ASCII characters.
pub open spec fn is_ascii_char(c: char) -> bool {
    (c as u32) < 128
}

/// Whether `c` is one of `0` to `9`.
pub open spec fn is_digit(c: char) -> bool {
    '0' <= c <= '9'
}

/// The number that the digit `c` stands for.
pub open spec fn digit_value(c: char) -> nat
    recommends
        is_digit(c),
{
    (c as u32 - '0' as u32) as nat
}

/// The digit that stands for `n`.
pub open spec fn digit_char(n: nat) -> char
    recommends
        n < 10,
{
    (n + '0' as u32) as char
}

/// `text` without its leading white space.
pub open spec fn trim_start(text: Seq<char>) -> Seq<char>
    decreases text.len(),
{
    if text.len() > 0 && is_whitespace(text[0]) {
        trim_start(text.drop_first())
    } else {
        text
    }
}

/// `text` without its trailing white space.
pub open spec fn trim_end(text: Seq<char>) -> Seq<char>
    decreases text.len(),
{
    if text.len() > 0 && is_whitespace(text.last()) {
        trim_end(text.drop_last())
    } else {
        text
    }
}

/// `text` without its leading and trailing white space.
pub open spec fn trimmed(text: Seq<char>) -> Seq<char> {
    trim_end(trim_start(text))
}

/// Whether `text` neither starts nor ends with white space.
pub open spec fn is_trimmed(text: Seq<char>) -> bool {
    text.len() > 0 ==> !is_whitespace(text[0]) && !is_whitespace(text.last())
}

/// The pieces of `text` between occurrences of `sep`, in order. There is always
/// at least one piece, and a piece is empty where two separators meet or where
/// `text` starts or ends with one.
pub open spec fn split(text: Seq<char>, sep: char) -> Seq<Seq<char>>
    decreases text.len(),
{
    if text.len() == 0 {
        seq![Seq::<char>::empty()]
    } else {
        let before = split(text.drop_last(), sep);
        if text.last() == sep {
            before.push(Seq::<char>::empty())
        } else {
            before.drop_last().push(before.last().push(text.last()))
        }
    }
}

/// The pieces written one after another with `sep` between neighbours.
pub open spec fn join(pieces: Seq<Seq<char>>, sep: char) -> Seq<char>
    decreases pieces.len(),
{
    if pieces.len() == 0 {
        Seq::<char>::empty()
    } else if pieces.len() == 1 {
        pieces[0]
    } else {
        join(pieces.drop_last(), sep) + seq![sep] + pieces.last()
    }
}

/// How often `c` occurs in `text`.
pub open spec fn count(text: Seq<char>, c: char) -> nat
    decreases text.len(),
{
    if text.len() == 0 {
        0
    } else {
        count(text.drop_last(), c) + if text.last() == c {
            1nat
        } else {
            0nat
        }
    }
}

/// The number that a run of digits stands for, read in base ten.
pub open spec fn digits_value(digits: Seq<char>) -> nat
    decreases digits.len(),
{
    if digits.len() == 0 {
        0
    } else {
        digits_value(digits.drop_last()) * 10 + digit_value(digits.last())
    }
}

/// Whether every character of `text` is a digit.
pub open spec fn all_digits(text: Seq<char>) -> bool {
    forall|i: int| 0 <= i < text.len() ==> is_digit(#[trigger] text[i])
}

/// Whether `text` is a 32-bit signed integer in decimal: an optional `+` or `-`,
/// then at least one digit and nothing else, the value between -2^31 and 2^31 - 1.
pub open spec fn is_i32_text(text: Seq<char>) -> bool {
    let signed = text.len() > 0 && (text[0] == '+' || text[0] == '-');
    let digits = if signed {
        text.drop_first()
    } else {
        text
    };
    &&& digits.len() > 0
    &&& all_digits(digits)
    &&& digits_value(digits) <= if signed && text[0] == '-' {
        0x8000_0000nat
    } else {
        0x7fff_ffffnat
    }
}

/// `n` written in decimal, without leading zeros.
pub open spec fn decimal(n: nat) -> Seq<char>
    decreases n,
{
    if n < 10 {
        seq![digit_char(n)]
    } else {
        decimal(n / 10).push(digit_char(n % 10))
    }
}

/// Whether `c` can be part of a timestamp as a line writes it: an ASCII
/// character that is no square bracket.
pub open spec fn is_plain(c: char) -> bool {
    is_ascii_char(c) && c != '[' && c != ']'
}

/// `text` without the characters that are not ASCII and without square brackets.
pub open spec fn plain(text: Seq<char>) -> Seq<char> {
    text.filter(|c: char| is_plain(c))
}

/// Whether `c` is one of the marks that lines put around a level: a square
/// bracket or a colon.
pub open spec fn is_mark(c: char) -> bool {
    c == '[' || c == ']' || c == ':'
}

/// `text` without square brackets and colons.
pub open spec fn unmarked(text: Seq<char>) -> Seq<char> {
    text.filter(|c: char| !is_mark(c))
}

/// The texts that a vector of tokens holds.
pub open spec fn texts(tokens: Seq<Token>) -> Seq<Seq<char>> {
    tokens.map_values(|t: Token| t@)
}

/// A run of leading white space of any length can be dropped at once.
pub proof fn lemma_trim_start_skips(text: Seq<char>, n: int)
    requires
        0 <= n <= text.len(),
        forall|j: int| 0 <= j < n ==> is_whitespace(#[trigger] text[j]),
        n == text.len() || !is_whitespace(text[n]),
    ensures
        trim_start(text) == text.skip(n),
    decreases n,
{
    if n == 0 {
        assert(text.skip(0) =~= text);
    } else {
        let rest = text.drop_first();
        assert forall|j: int| 0 <= j < n - 1 implies is_whitespace(#[trigger] rest[j]) by {
            assert(rest[j] == text[j + 1]);
        }
        lemma_trim_start_skips(rest, n - 1);
        assert(rest.skip(n - 1) =~= text.skip(n));
    }
}

/// A run of trailing white space of any length can be dropped at once.
pub proof fn lemma_trim_end_takes(text: Seq<char>, n: int)
    requires
        0 <= n <= text.len(),
        forall|j: int| n <= j < text.len() ==> is_whitespace(#[trigger] text[j]),
        n == 0 || !is_whitespace(text[n - 1]),
    ensures
        trim_end(text) == text.take(n),
    decreases text.len() - n,
{
    if n == text.len() {
        assert(text.take(n) =~= text);
    } else {
        let rest = text.drop_last();
        lemma_trim_end_takes(rest, n);
        assert(rest.take(n) =~= text.take(n));
    }
}

/// Trimming leaves a text that neither starts nor ends with white space, and
/// trimming such a text changes nothing: trimming twice is trimming once.
pub proof fn lemma_trimmed_is_trimmed(text: Seq<char>)
    ensures
        is_trimmed(trimmed(text)),
        trimmed(trimmed(text)) == trimmed(text),
{
    lemma_trim_start_shape(text);
    lemma_trim_end_shape(trim_start(text));
    lemma_trim_of_trimmed(trimmed(text));
}

/// What is left after the leading white space is a tail of the text that does
/// not start with white space.
pub proof fn lemma_trim_start_shape(text: Seq<char>)
    ensures
        trim_start(text).len() <= text.len(),
        trim_start(text) == text.skip(text.len() - trim_start(text).len()),
        trim_start(text).len() > 0 ==> !is_whitespace(trim_start(text)[0]),
    decreases text.len(),
{
    if text.len() > 0 && is_whitespace(text[0]) {
        let rest = text.drop_first();
        lemma_trim_start_shape(rest);
        assert(rest.skip(rest.len() - trim_start(rest).len()) =~= text.skip(
            text.len() - trim_start(rest).len(),
        ));
    } else {
        assert(text.skip(0) =~= text);
    }
}

/// What is left after the trailing white space is a head of the text that does
/// not end with white space.
pub proof fn lemma_trim_end_shape(text: Seq<char>)
    ensures
        trim_end(text).len() <= text.len(),
        trim_end(text) == text.take(trim_end(text).len() as int),
        trim_end(text).len() > 0 ==> !is_whitespace(trim_end(text).last()),
    decreases text.len(),
{
    if text.len() > 0 && is_whitespace(text.last()) {
        let rest = text.drop_last();
        lemma_trim_end_shape(rest);
        assert(rest.take(trim_end(rest).len() as int) =~= text.take(trim_end(rest).len() as int));
    } else {
        assert(text.take(text.len() as int) =~= text);
    }
}

/// A text that neither starts nor ends with white space is its own trimming.
pub proof fn lemma_trim_of_trimmed(text: Seq<char>)
    requires
        is_trimmed(text),
    ensures
        trimmed(text) == text,
{
}

/// Splitting yields at least one piece.
pub proof fn lemma_split_nonempty(text: Seq<char>, sep: char)
    ensures
        split(text, sep).len() >= 1,
    decreases text.len(),
{
    if text.len() > 0 {
        lemma_split_nonempty(text.drop_last(), sep);
    }
}

/// Splitting on a separator and joining with the same separator gives the text
/// back, character for character.
pub proof fn lemma_join_split(text: Seq<char>, sep: char)
    ensures
        join(split(text, sep), sep) == text,
    decreases text.len(),
{
    if text.len() == 0 {
        assert(join(split(text, sep), sep) =~= text);
    } else {
        let shorter = text.drop_last();
        let before = split(shorter, sep);
        lemma_split_nonempty(shorter, sep);
        lemma_join_split(shorter, sep);
        if text.last() == sep {
            let pieces = before.push(Seq::<char>::empty());
            assert(pieces.drop_last() =~= before);
            assert(join(pieces, sep) =~= shorter + seq![sep]);
            assert(shorter + seq![sep] =~= text);
        } else {
            let grown = before.last().push(text.last());
            let pieces = before.drop_last().push(grown);
            assert(pieces.drop_last() =~= before.drop_last());
            if before.len() == 1 {
                assert(join(pieces, sep) =~= shorter.push(text.last()));
            } else {
                assert(join(pieces, sep) =~= join(before.drop_last(), sep) + seq![sep] + grown);
                assert(join(before, sep) =~= join(before.drop_last(), sep) + seq![sep]
                    + before.last());
                assert(join(pieces, sep) =~= shorter.push(text.last()));
            }
            assert(shorter.push(text.last()) =~= text);
        }
    }
}

/// No piece of a split holds the separator, and there is one piece more than
/// there are separators in the text.
pub proof fn lemma_split_pieces(text: Seq<char>, sep: char)
    ensures
        split(text, sep).len() == count(text, sep) + 1,
        forall|k: int|
            0 <= k < split(text, sep).len() ==> count(#[trigger] split(text, sep)[k], sep) == 0,
    decreases text.len(),
{
    if text.len() > 0 {
        let shorter = text.drop_last();
        let before = split(shorter, sep);
        lemma_split_pieces(shorter, sep);
        if text.last() != sep {
            let grown = before.last().push(text.last());
            assert(grown.drop_last() =~= before.last());
        }
    }
}

/// Whether `c` is white space.
pub fn whitespace(c: char) -> (yes: bool)
    ensures
        yes == is_whitespace(c),
{
    let n: u32 = c as u32;
    (0x09 <= n && n <= 0x0D) || n == 0x20 || n == 0x85 || n == 0xA0 || n == 0x1680 || (0x2000 <= n
        && n <= 0x200A) || n == 0x2028 || n == 0x2029 || n == 0x202F || n == 0x205F || n == 0x3000
}

/// The characters of `text`.
pub fn chars_of(text: &str) -> (chars: Vec<char>)
    ensures
        chars@ == text@,
{
    let mut chars: Vec<char> = Vec::new();
    for c in it: text.chars()
        invariant
            chars@ == it.seq().take(it.index() as int),
            it.seq() == text@,
    {
        chars.push(c);
    }
    chars
}

/// Appends one character to a string: `String::push` of the standard library,
/// which puts `c` after the characters that `text` holds and changes none of them.
#[verifier::external_body]
fn push_char(text: &mut String, c: char)
    ensures
        final(text)@ == old(text)@.push(c),
{
    text.push(c)
}

/// A string of the given characters.
pub fn string_of(chars: &Vec<char>) -> (text: String)
    ensures
        text@ == chars@,
{
    let mut text = String::new();
    let mut i: usize = 0;
    while i < chars.len()
        invariant
            i <= chars.len(),
            text@ == chars@.take(i as int),
        decreases chars.len() - i,
    {
        push_char(&mut text, chars[i]);
        i += 1;
        assert(chars@.take(i as int) =~= chars@.take(i as int - 1).push(chars@[i as int - 1]));
    }
    assert(chars@.take(chars.len() as int) =~= chars@);
    text
}

/// Appends the characters of `piece` to `out`.
pub fn append_str(out: &mut Vec<char>, piece: &str)
    ensures
        final(out)@ == old(out)@ + piece@,
{
    let ghost start = out@;
    for c in it: piece.chars()
        invariant
            out@ == start + it.seq().take(it.index() as int),
            it.seq() == piece@,
    {
        out.push(c);
        assert(start + piece@.take(it.index() + 1) =~= (start + piece@.take(it.index() as int)).push(
            c,
        ));
    }
    assert(piece@.take(piece@.len() as int) =~= piece@);
}

/// Appends the characters of `piece` to `out`.
pub fn append_chars(out: &mut Vec<char>, piece: &Vec<char>)
    ensures
        final(out)@ == old(out)@ + piece@,
{
    let ghost start = out@;
    let mut i: usize = 0;
    while i < piece.len()
        invariant
            i <= piece.len(),
            out@ == start + piece@.take(i as int),
        decreases piece.len() - i,
    {
        out.push(piece[i]);
        i += 1;
        assert(start + piece@.take(i as int) =~= (start + piece@.take(i as int - 1)).push(
            piece@[i as int - 1],
        ));
    }
    assert(piece@.take(piece@.len() as int) =~= piece@);
}

/// The characters of `chars` from position `from` up to, not including, `to`.
pub fn slice_of(chars: &Vec<char>, from: usize, to: usize) -> (part: Vec<char>)
    requires
        from <= to <= chars.len(),
    ensures
        part@ == chars@.subrange(from as int, to as int),
{
    let mut part: Vec<char> = Vec::new();
    let mut i: usize = from;
    while i < to
        invariant
            from <= i <= to <= chars.len(),
            part@ == chars@.subrange(from as int, i as int),
        decreases to - i,
    {
        part.push(chars[i]);
        i += 1;
        assert(chars@.subrange(from as int, i as int) =~= chars@.subrange(
            from as int,
            i as int - 1,
        ).push(chars@[i as int - 1]));
    }
    part
}

/// Whether `left` and `right` hold the same characters.
pub fn same_text(left: &Vec<char>, right: &str) -> (same: bool)
    ensures
        same == (left@ == right@),
{
    let mut i: usize = 0;
    for c in it: right.chars()
        invariant
            it.seq() == right@,
            i == it.index(),
            i <= left.len(),
            left@.take(i as int) == right@.take(i as int),
    {
        if i >= left.len() || left[i] != c {
            assert(left@ != right@) by {
                if left@ == right@ {
                    assert(left@[i as int] == right@[i as int]);
                }
            }
            return false;
        }
        i += 1;
        assert(left@.take(i as int) =~= left@.take(i as int - 1).push(left@[i as int - 1]));
        assert(right@.take(i as int) =~= right@.take(i as int - 1).push(right@[i as int - 1]));
    }
    assert(right@.take(i as int) =~= right@);
    if i == left.len() {
        assert(left@.take(i as int) =~= left@);
        true
    } else {
        false
    }
}

/// `chars` without its leading and trailing white space.
pub fn trim(chars: &Vec<char>) -> (kept: Vec<char>)
    ensures
        kept@ == trimmed(chars@),
{
    let mut start: usize = 0;
    while start < chars.len() && whitespace(chars[start])
        invariant
            start <= chars.len(),
            forall|j: int| 0 <= j < start ==> is_whitespace(#[trigger] chars@[j]),
        decreases chars.len() - start,
    {
        start += 1;
    }
    let mut end: usize = chars.len();
    while end > start && whitespace(chars[end - 1])
        invariant
            start <= end <= chars.len(),
            forall|j: int| end <= j < chars.len() ==> is_whitespace(#[trigger] chars@[j]),
        decreases end - start,
    {
        end -= 1;
    }
    proof {
        let tail = chars@.skip(start as int);
        lemma_trim_start_skips(chars@, start as int);
        assert forall|j: int| end - start <= j < tail.len() implies is_whitespace(
            #[trigger] tail[j],
        ) by {
            assert(tail[j] == chars@[j + start]);
        }
        lemma_trim_end_takes(tail, end - start);
        assert(tail.take(end - start) =~= chars@.subrange(start as int, end as int));
    }
    slice_of(chars, start, end)
}

/// The pieces of `chars` between occurrences of `sep`.
pub fn split_on(chars: &Vec<char>, sep: char) -> (pieces: Vec<Token>)
    ensures
        texts(pieces@) == split(chars@, sep),
{
    let mut pieces: Vec<Token> = Vec::new();
    let mut current: Token = Vec::new();
    let mut i: usize = 0;
    proof {
        assert(chars@.take(0) =~= Seq::<char>::empty());
        assert(texts(pieces@).push(current@) =~= split(chars@.take(0), sep));
    }
    while i < chars.len()
        invariant
            i <= chars.len(),
            texts(pieces@).push(current@) == split(chars@.take(i as int), sep),
        decreases chars.len() - i,
    {
        let c = chars[i];
        proof {
            let longer = chars@.take(i as int + 1);
            assert(longer.drop_last() =~= chars@.take(i as int));
            assert(longer.last() == c);
            assert(texts(pieces@).push(current@).drop_last() =~= texts(pieces@));
        }
        if c == sep {
            let ghost done = pieces@;
            pieces.push(current);
            current = Vec::new();
            assert(texts(pieces@) =~= texts(done).push(pieces@.last()@));
        } else {
            current.push(c);
        }
        i += 1;
    }
    proof {
        assert(chars@.take(chars.len() as int) =~= chars@);
        let ghost done = pieces@;
        assert(texts(done.push(current)) =~= texts(done).push(current@));
    }
    pieces.push(current);
    pieces
}

/// The pieces written one after another with `sep` between neighbours.
pub fn join_with(pieces: &Vec<Token>, sep: char) -> (joined: Vec<char>)
    ensures
        joined@ == join(texts(pieces@), sep),
{
    let mut joined: Vec<char> = Vec::new();
    let mut k: usize = 0;
    proof {
        assert(texts(pieces@).take(0) =~= Seq::<Seq<char>>::empty());
    }
    while k < pieces.len()
        invariant
            k <= pieces.len(),
            joined@ == join(texts(pieces@).take(k as int), sep),
        decreases pieces.len() - k,
    {
        proof {
            let longer = texts(pieces@).take(k as int + 1);
            assert(longer.drop_last() =~= texts(pieces@).take(k as int));
            assert(longer.last() == pieces@[k as int]@);
            if k == 0 {
                assert(longer[0] == pieces@[0]@);
                assert(joined@ + pieces@[0]@ =~= pieces@[0]@);
            }
        }
        if k > 0 {
            joined.push(sep);
        }
        append_chars(&mut joined, &pieces[k]);
        k += 1;
    }
    proof {
        assert(texts(pieces@).take(pieces.len() as int) =~= texts(pieces@));
    }
    joined
}

/// `chars` without the characters that are not ASCII and without square brackets.
pub fn keep_plain(chars: &Vec<char>) -> (kept: Vec<char>)
    ensures
        kept@ == plain(chars@),
{
    let mut kept: Vec<char> = Vec::new();
    let mut i: usize = 0;
    proof {
        assert(chars@.take(0) =~= Seq::<char>::empty());
    }
    while i < chars.len()
        invariant
            i <= chars.len(),
            kept@ == plain(chars@.take(i as int)),
        decreases chars.len() - i,
    {
        let c = chars[i];
        proof {
            let longer = chars@.take(i as int + 1);
            assert(longer.drop_last() =~= chars@.take(i as int));
            reveal(Seq::filter);
        }
        if (c as u32) < 128 && c != '[' && c != ']' {
            kept.push(c);
        }
        i += 1;
    }
    proof {
        assert(chars@.take(chars.len() as int) =~= chars@);
    }
    kept
}

/// `chars` without square brackets and colons.
pub fn drop_marks(chars: &Vec<char>) -> (kept: Vec<char>)
    ensures
        kept@ == unmarked(chars@),
{
    let mut kept: Vec<char> = Vec::new();
    let mut i: usize = 0;
    proof {
        assert(chars@.take(0) =~= Seq::<char>::empty());
    }
    while i < chars.len()
        invariant
            i <= chars.len(),
            kept@ == unmarked(chars@.take(i as int)),
        decreases chars.len() - i,
    {
        let c = chars[i];
        proof {
            let longer = chars@.take(i as int + 1);
            assert(longer.drop_last() =~= chars@.take(i as int));
            reveal(Seq::filter);
        }
        if c != '[' && c != ']' && c != ':' {
            kept.push(c);
        }
        i += 1;
    }
    proof {
        assert(chars@.take(chars.len() as int) =~= chars@);
    }
    kept
}

/// The digit that stands for `n`.
pub fn digit_of(n: u64) -> (c: char)
    requires
        n < 10,
    ensures
        c == digit_char(n as nat),
{
    let b: u8 = 48u8 + n as u8;
    b as char
}

/// `n` written in decimal.
pub fn decimal_of(n: u64) -> (digits: Vec<char>)
    ensures
        digits@ == decimal(n as nat),
{
    let mut digits: Vec<char> = Vec::new();
    digits.push(digit_of(n % 10));
    let mut rest: u64 = n / 10;
    while rest > 0
        invariant
            decimal(n as nat) == (if rest > 0 {
                decimal(rest as nat)
            } else {
                Seq::<char>::empty()
            }) + digits@,
        decreases rest,
    {
        let ghost lower = digits@;
        digits.insert(0, digit_of(rest % 10));
        proof {
            let d = digit_char((rest % 10) as nat);
            assert(digits@ =~= seq![d] + lower);
            if rest >= 10 {
                assert(decimal(rest as nat) + lower =~= decimal((rest / 10) as nat) + digits@);
            } else {
                assert(decimal(rest as nat) + lower =~= Seq::<char>::empty() + digits@);
            }
        }
        rest = rest / 10;
    }
    digits
}

/// Whether `chars` is a 32-bit signed integer in decimal.
pub fn reads_as_i32(chars: &Vec<char>) -> (yes: bool)
    ensures
        yes == is_i32_text(chars@),
{
    let n = chars.len();
    if n == 0 {
        return false;
    }
    let negative = chars[0] == '-';
    let signed = negative || chars[0] == '+';
    let first: usize = if signed {
        1
    } else {
        0
    };
    let limit: u64 = if negative {
        0x8000_0000
    } else {
        0x7fff_ffff
    };
    let ghost digits = if signed {
        chars@.drop_first()
    } else {
        chars@
    };
    proof {
        assert(digits.take(0) =~= Seq::<char>::empty());
    }
    if first == n {
        return false;
    }
    let mut value: u64 = 0;
    let mut over = false;
    let mut i: usize = first;
    while i < n
        invariant
            first <= i <= n,
            n == chars.len(),
            first == if signed {
                1usize
            } else {
                0usize
            },
            negative == (chars@[0] == '-'),
            signed == (chars@[0] == '-' || chars@[0] == '+'),
            digits == if signed {
                chars@.drop_first()
            } else {
                chars@
            },
            limit == if negative {
                0x8000_0000u64
            } else {
                0x7fff_ffffu64
            },
            all_digits(digits.take(i - first)),
            over ==> digits_value(digits.take(i - first)) > limit,
            !over ==> value == digits_value(digits.take(i - first)) && value <= limit,
        decreases n - i,
    {
        let c = chars[i];
        if !('0' <= c && c <= '9') {
            assert(!all_digits(digits)) by {
                assert(digits[i - first] == c);
            }
            return false;
        }
        let d: u64 = (c as u32 - '0' as u32) as u64;
        proof {
            let shorter = digits.take(i - first);
            let longer = digits.take(i - first + 1);
            assert(longer.drop_last() =~= shorter);
            assert(longer.last() == c);
            assert forall|j: int| 0 <= j < longer.len() implies is_digit(#[trigger] longer[j]) by {
                if j < shorter.len() {
                    assert(longer[j] == shorter[j]);
                }
            }
        }
        if !over {
            value = value * 10 + d;
            if value > limit {
                over = true;
            }
        }
        i += 1;
    }
    proof {
        assert(digits.take(n - first) =~= digits);
    }
    !over
}

} // verus!

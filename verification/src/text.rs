//! Text rules of the API: trimming white space, and lists packed into one
//! path segment.

use vstd::prelude::*;
use vstd::string::StrSliceExecFns;

verus! {

/// `c` has the Unicode property `White_Space`.
pub open spec fn is_white_space(c: char) -> bool {
    ||| '\u{9}' <= c <= '\u{d}'
    ||| c == ' '
    ||| c == '\u{85}'
    ||| c == '\u{a0}'
    ||| c == '\u{1680}'
    ||| '\u{2000}' <= c <= '\u{200a}'
    ||| c == '\u{2028}'
    ||| c == '\u{2029}'
    ||| c == '\u{202f}'
    ||| c == '\u{205f}'
    ||| c == '\u{3000}'
}

/// `s` without the white space it starts with.
pub open spec fn trimmed_start(s: Seq<char>) -> Seq<char>
    decreases s.len(),
{
    if s.len() > 0 && is_white_space(s.first()) {
        trimmed_start(s.drop_first())
    } else {
        s
    }
}

/// `s` without the white space it ends with.
pub open spec fn trimmed_end(s: Seq<char>) -> Seq<char>
    decreases s.len(),
{
    if s.len() > 0 && is_white_space(s.last()) {
        trimmed_end(s.drop_last())
    } else {
        s
    }
}

/// `s` without the white space it starts with and ends with.
pub open spec fn trimmed(s: Seq<char>) -> Seq<char> {
    trimmed_end(trimmed_start(s))
}

/// `s` is nothing but white space.
pub open spec fn is_blank(s: Seq<char>) -> bool {
    forall|i: int| 0 <= i < s.len() ==> is_white_space(#[trigger] s[i])
}

/// `str::trim`: the slice of `s` that is left once the leading and the
/// trailing characters with the Unicode property `White_Space` are removed.
pub assume_specification[ str::trim ](s: &str) -> (r: &str)
    ensures
        r@ == trimmed(s@),
;

/// A text trims to nothing exactly when it is nothing but white space.
pub proof fn law_blank_trims_to_nothing(s: Seq<char>)
    ensures
        trimmed(s).len() == 0 <==> is_blank(s),
{
    lemma_trimmed_start(s);
    lemma_trimmed_end(trimmed_start(s));
}

proof fn lemma_trimmed_start(s: Seq<char>)
    ensures
        trimmed_start(s).len() == 0 <==> is_blank(s),
        trimmed_start(s).len() > 0 ==> !is_white_space(trimmed_start(s).first()),
    decreases s.len(),
{
    if s.len() > 0 && is_white_space(s.first()) {
        lemma_trimmed_start(s.drop_first());
        assert forall|i: int| 0 <= i < s.len() && is_blank(s.drop_first()) implies is_white_space(
            #[trigger] s[i],
        ) by {
            if i > 0 {
                assert(s[i] == s.drop_first()[i - 1]);
            }
        }
        assert forall|i: int| 0 <= i < s.drop_first().len() && is_blank(s) implies is_white_space(
            #[trigger] s.drop_first()[i],
        ) by {
            assert(s.drop_first()[i] == s[i + 1]);
        }
    } else if s.len() > 0 {
        assert(!is_white_space(s[0]));
    }
}

proof fn lemma_trimmed_end(s: Seq<char>)
    requires
        s.len() > 0 ==> !is_white_space(s.first()),
    ensures
        trimmed_end(s).len() == 0 <==> s.len() == 0,
    decreases s.len(),
{
    if s.len() > 0 && is_white_space(s.last()) {
        lemma_trimmed_end(s.drop_last());
    }
}

/// White space around a text is trimmed away, whatever the text is.
pub proof fn law_white_space_around_is_trimmed(before: Seq<char>, s: Seq<char>, after: Seq<char>)
    requires
        is_blank(before),
        is_blank(after),
    ensures
        trimmed(before + s + after) == trimmed(s),
{
    assert(before + s + after == before + (s + after));
    lemma_trimmed_start_skips(before, s + after);
    if is_blank(s) {
        assert(is_blank(s + after));
        law_blank_trims_to_nothing(s);
        law_blank_trims_to_nothing(s + after);
        assert(trimmed(s + after) == trimmed(s));
    } else {
        lemma_trimmed_start_keeps(s, after);
        lemma_trimmed_end_skips(trimmed_start(s), after);
    }
}

proof fn lemma_trimmed_start_skips(before: Seq<char>, s: Seq<char>)
    requires
        is_blank(before),
    ensures
        trimmed_start(before + s) == trimmed_start(s),
    decreases before.len(),
{
    if before.len() == 0 {
        assert(before + s == s);
    } else {
        assert forall|i: int| 0 <= i < before.drop_first().len() implies is_white_space(
            #[trigger] before.drop_first()[i],
        ) by {
            assert(before.drop_first()[i] == before[i + 1]);
        }
        lemma_trimmed_start_skips(before.drop_first(), s);
        assert((before + s).drop_first() == before.drop_first() + s);
        assert(is_white_space(before[0]));
    }
}

proof fn lemma_trimmed_start_keeps(s: Seq<char>, after: Seq<char>)
    requires
        !is_blank(s),
    ensures
        trimmed_start(s + after) == trimmed_start(s) + after,
    decreases s.len(),
{
    if is_white_space(s.first()) {
        assert forall|i: int| 0 <= i < s.len() && is_blank(s.drop_first()) implies is_white_space(
            #[trigger] s[i],
        ) by {
            if i > 0 {
                assert(s[i] == s.drop_first()[i - 1]);
            }
        }
        lemma_trimmed_start_keeps(s.drop_first(), after);
        assert((s + after).drop_first() == s.drop_first() + after);
    }
}

proof fn lemma_trimmed_end_skips(s: Seq<char>, after: Seq<char>)
    requires
        is_blank(after),
    ensures
        trimmed_end(s + after) == trimmed_end(s),
    decreases after.len(),
{
    if after.len() == 0 {
        assert(s + after == s);
    } else {
        lemma_trimmed_end_skips(s, after.drop_last());
        assert((s + after).drop_last() == s + after.drop_last());
        assert(is_white_space(after[after.len() - 1]));
    }
}

/// `s` begins with `separator`.
pub open spec fn begins_with(s: Seq<char>, separator: Seq<char>) -> bool {
    separator.len() <= s.len() && s.take(separator.len() as int) == separator
}

/// The pieces of `s` cut at each `separator`, read from left to right, when
/// `piece` is what has been read of the first of them.
pub open spec fn split_after(s: Seq<char>, separator: Seq<char>, piece: Seq<char>) -> Seq<Seq<char>>
    decreases s.len(),
{
    if s.len() == 0 {
        seq![piece]
    } else if separator.len() > 0 && begins_with(s, separator) {
        seq![piece] + split_after(s.skip(separator.len() as int), separator, Seq::empty())
    } else {
        split_after(s.drop_first(), separator, piece.push(s.first()))
    }
}

/// The pieces of `s` cut at each `separator`.
pub open spec fn split_at_separator(s: Seq<char>, separator: Seq<char>) -> Seq<Seq<char>> {
    split_after(s, separator, Seq::empty())
}

/// `pieces` with `separator` between each two neighbours.
pub open spec fn joined(pieces: Seq<Seq<char>>, separator: Seq<char>) -> Seq<char>
    decreases pieces.len(),
{
    if pieces.len() == 0 {
        Seq::empty()
    } else if pieces.len() == 1 {
        pieces.first()
    } else {
        pieces.first() + separator + joined(pieces.drop_first(), separator)
    }
}

/// The views of `texts`.
pub open spec fn texts_view(texts: Seq<String>) -> Seq<Seq<char>> {
    Seq::new(texts.len(), |i: int| texts[i]@)
}

fn to_chars(text: &str) -> (chars: Vec<char>)
    ensures
        chars@ == text@,
{
    let mut chars: Vec<char> = Vec::new();
    for c in it: text.chars()
        invariant
            it.seq() == text@,
            chars@ == text@.take(it.index() as int),
    {
        chars.push(c);
    }
    proof {
        assert(text@.take(text@.len() as int) == text@);
    }
    chars
}

fn begins_at(chars: &Vec<char>, from: usize, separator: &Vec<char>) -> (r: bool)
    requires
        from <= chars@.len(),
    ensures
        r == begins_with(chars@.skip(from as int), separator@),
{
    if separator.len() > chars.len() - from {
        return false;
    }
    let ghost rest = chars@.skip(from as int);
    let mut i: usize = 0;
    while i < separator.len()
        invariant
            i <= separator@.len(),
            from + separator.len() <= chars.len(),
            rest == chars@.skip(from as int),
            forall|j: int| 0 <= j < i ==> rest[j] == separator@[j],
        decreases separator@.len() - i,
    {
        if chars[from + i] != separator[i] {
            proof {
                assert(rest.take(separator@.len() as int)[i as int] != separator@[i as int]);
            }
            return false;
        }
        i = i + 1;
    }
    proof {
        assert(rest.take(separator@.len() as int) == separator@);
    }
    true
}

/// Cuts `text` at each `separator`, from left to right.
pub fn split_text(text: &str, separator: &str) -> (pieces: Vec<String>)
    requires
        separator@.len() > 0,
    ensures
        texts_view(pieces@) == split_at_separator(text@, separator@),
{
    let chars = to_chars(text);
    let mark = to_chars(separator);
    let mut pieces: Vec<String> = Vec::new();
    let mut start: usize = 0;
    let mut i: usize = 0;
    proof {
        assert(text@.skip(0) == text@);
        assert(text@.subrange(0, 0) == Seq::<char>::empty());
        assert(texts_view(pieces@) + split_at_separator(text@, separator@) == split_at_separator(
            text@,
            separator@,
        ));
    }
    while i < chars.len()
        invariant
            start <= i <= chars@.len(),
            chars@ == text@,
            mark@ == separator@,
            separator@.len() > 0,
            split_at_separator(text@, separator@) == texts_view(pieces@) + split_after(
                text@.skip(i as int),
                separator@,
                text@.subrange(start as int, i as int),
            ),
        decreases chars@.len() - i,
    {
        let ghost rest = text@.skip(i as int);
        let ghost piece = text@.subrange(start as int, i as int);
        if begins_at(&chars, i, &mark) {
            let ghost before = texts_view(pieces@);
            pieces.push(text.substring_char(start, i).to_owned());
            i = i + mark.len();
            start = i;
            proof {
                assert(texts_view(pieces@) == before.push(piece));
                assert(rest.skip(separator@.len() as int) == text@.skip(i as int));
                assert(text@.subrange(i as int, i as int) == Seq::<char>::empty());
                assert(before + (seq![piece] + split_after(
                    text@.skip(i as int),
                    separator@,
                    Seq::empty(),
                )) == texts_view(pieces@) + split_after(
                    text@.skip(i as int),
                    separator@,
                    Seq::empty(),
                ));
            }
        } else {
            i = i + 1;
            proof {
                assert(rest.drop_first() == text@.skip(i as int));
                assert(piece.push(rest.first()) == text@.subrange(start as int, i as int));
            }
        }
    }
    let ghost before = texts_view(pieces@);
    pieces.push(text.substring_char(start, i).to_owned());
    proof {
        assert(texts_view(pieces@) == before + seq![text@.subrange(start as int, i as int)]);
    }
    pieces
}

/// No `separator` stands anywhere in `piece`.
pub open spec fn is_free_of(piece: Seq<char>, separator: Seq<char>) -> bool {
    forall|i: int| 0 <= i <= piece.len() ==> !begins_with(#[trigger] piece.skip(i), separator)
}

/// Cutting a text and joining the pieces again gives the text back.
pub proof fn law_join_undoes_split(s: Seq<char>, separator: Seq<char>)
    ensures
        joined(split_at_separator(s, separator), separator) == s,
{
    lemma_join_split_after(s, separator, Seq::empty());
    assert(Seq::<char>::empty() + s == s);
}

proof fn lemma_join_split_after(s: Seq<char>, separator: Seq<char>, piece: Seq<char>)
    ensures
        split_after(s, separator, piece).len() > 0,
        joined(split_after(s, separator, piece), separator) == piece + s,
    decreases s.len(),
{
    let pieces = split_after(s, separator, piece);
    if s.len() == 0 {
        assert(piece + s == piece);
    } else if separator.len() > 0 && begins_with(s, separator) {
        let rest = s.skip(separator.len() as int);
        lemma_join_split_after(rest, separator, Seq::empty());
        assert(pieces.drop_first() == split_after(rest, separator, Seq::empty()));
        assert(Seq::<char>::empty() + rest == rest);
        assert(s == s.take(separator.len() as int) + rest);
        assert(piece + separator + rest == piece + s);
    } else {
        lemma_join_split_after(s.drop_first(), separator, piece.push(s.first()));
        assert(piece.push(s.first()) + s.drop_first() == piece + s);
    }
}

/// No piece that cutting leaves holds the separator.
pub proof fn law_pieces_hold_no_separator(s: Seq<char>, separator: Seq<char>, i: int)
    requires
        separator.len() > 0,
        0 <= i < split_at_separator(s, separator).len(),
    ensures
        is_free_of(split_at_separator(s, separator)[i], separator),
{
    assert forall|k: int| 0 <= k < 0 implies !begins_with(
        #[trigger] (Seq::<char>::empty() + s).skip(k),
        separator,
    ) by {}
    lemma_split_after_free(s, separator, Seq::empty(), i);
}

proof fn lemma_split_after_free(s: Seq<char>, separator: Seq<char>, piece: Seq<char>, i: int)
    requires
        separator.len() > 0,
        forall|k: int|
            0 <= k < piece.len() ==> !begins_with(#[trigger] (piece + s).skip(k), separator),
        0 <= i < split_after(s, separator, piece).len(),
    ensures
        is_free_of(split_after(s, separator, piece)[i], separator),
    decreases s.len(),
{
    let pieces = split_after(s, separator, piece);
    let n = separator.len() as int;
    if s.len() == 0 || begins_with(s, separator) {
        if i == 0 {
            assert forall|k: int| 0 <= k <= piece.len() implies !begins_with(
                #[trigger] piece.skip(k),
                separator,
            ) by {
                if begins_with(piece.skip(k), separator) {
                    assert((piece + s).skip(k).take(n) == piece.skip(k).take(n));
                    assert(begins_with((piece + s).skip(k), separator));
                }
            }
        } else {
            let rest = s.skip(n);
            assert(pieces[i] == split_after(rest, separator, Seq::empty())[i - 1]);
            lemma_split_after_free(rest, separator, Seq::empty(), i - 1);
        }
    } else {
        let longer = piece.push(s.first());
        assert(longer + s.drop_first() == piece + s);
        assert forall|k: int| 0 <= k < longer.len() implies !begins_with(
            #[trigger] (longer + s.drop_first()).skip(k),
            separator,
        ) by {
            if k == piece.len() {
                assert((piece + s).skip(k) == s);
            }
        }
        lemma_split_after_free(s.drop_first(), separator, longer, i);
    }
}

/// Cutting leaves at least one piece.
pub proof fn law_there_is_a_piece(s: Seq<char>, separator: Seq<char>)
    ensures
        split_at_separator(s, separator).len() > 0,
{
    lemma_join_split_after(s, separator, Seq::empty());
}

/// Each cut is made at the first separator that is left: none begins within the
/// piece in front of a cut, be it that it ends in the separator cut at.
pub proof fn law_cuts_come_first(s: Seq<char>, separator: Seq<char>, i: int, k: int)
    requires
        separator.len() > 0,
        0 <= i < split_at_separator(s, separator).len() - 1,
    ensures
        0 <= k < split_at_separator(s, separator)[i].len() ==> (split_at_separator(s, separator)[i]
            + separator).subrange(k, k + separator.len()) != separator,
{
    if 0 <= k < split_at_separator(s, separator)[i].len() {
        lemma_cuts_come_first(s, separator, Seq::empty(), i, k);
    }
}

proof fn lemma_cuts_come_first(
    s: Seq<char>,
    separator: Seq<char>,
    piece: Seq<char>,
    i: int,
    k: int,
)
    requires
        separator.len() > 0,
        forall|j: int|
            0 <= j < piece.len() ==> !begins_with(#[trigger] (piece + s).skip(j), separator),
        0 <= i < split_after(s, separator, piece).len() - 1,
        0 <= k < split_after(s, separator, piece)[i].len(),
    ensures
        (split_after(s, separator, piece)[i] + separator).subrange(k, k + separator.len())
            != separator,
    decreases s.len(),
{
    let pieces = split_after(s, separator, piece);
    let n = separator.len() as int;
    if s.len() > 0 && begins_with(s, separator) {
        let rest = s.skip(n);
        if i == 0 {
            assert(!begins_with((piece + s).skip(k), separator));
            assert(s.take(n) == separator);
            assert((piece + s).skip(k).take(n) =~= (piece + separator).subrange(k, k + n));
        } else {
            assert(pieces[i] == split_after(rest, separator, Seq::empty())[i - 1]);
            lemma_cuts_come_first(rest, separator, Seq::empty(), i - 1, k);
        }
    } else if s.len() > 0 {
        let longer = piece.push(s.first());
        assert(longer + s.drop_first() == piece + s);
        assert forall|j: int| 0 <= j < longer.len() implies !begins_with(
            #[trigger] (longer + s.drop_first()).skip(j),
            separator,
        ) by {
            if j == piece.len() {
                assert((piece + s).skip(j) == s);
            }
        }
        lemma_cuts_come_first(s.drop_first(), separator, longer, i, k);
    }
}

/// With a separator of one character, cutting a text that was joined from
/// pieces free of it gives the pieces back.
pub proof fn law_split_undoes_join(pieces: Seq<Seq<char>>, separator: char)
    requires
        pieces.len() > 0,
        forall|i: int| 0 <= i < pieces.len() ==> !(#[trigger] pieces[i]).contains(separator),
    ensures
        split_at_separator(joined(pieces, seq![separator]), seq![separator]) == pieces,
    decreases pieces.len(),
{
    let mark = seq![separator];
    assert(!pieces[0].contains(separator));
    if pieces.len() == 1 {
        lemma_split_past(pieces[0], Seq::empty(), separator, Seq::empty());
        assert(pieces[0] + Seq::<char>::empty() == pieces[0]);
        assert(Seq::<char>::empty() + pieces[0] == pieces[0]);
        assert(split_after(Seq::empty(), mark, pieces[0]) == pieces);
    } else {
        let rest = pieces.drop_first();
        assert forall|i: int| 0 <= i < rest.len() implies !(#[trigger] rest[i]).contains(
            separator,
        ) by {
            assert(rest[i] == pieces[i + 1]);
        }
        law_split_undoes_join(rest, separator);
        let tail = mark + joined(rest, mark);
        assert(joined(pieces, mark) == pieces[0] + tail);
        lemma_split_past(pieces[0], tail, separator, Seq::empty());
        assert(Seq::<char>::empty() + pieces[0] == pieces[0]);
        assert(tail.take(1) == mark);
        assert(tail.skip(1) == joined(rest, mark));
        assert(seq![pieces[0]] + rest == pieces);
    }
}

proof fn lemma_split_past(head: Seq<char>, tail: Seq<char>, separator: char, piece: Seq<char>)
    requires
        !head.contains(separator),
    ensures
        split_after(head + tail, seq![separator], piece) == split_after(
            tail,
            seq![separator],
            piece + head,
        ),
    decreases head.len(),
{
    if head.len() == 0 {
        assert(head + tail == tail);
        assert(piece + head == piece);
    } else {
        let s = head + tail;
        assert(head.contains(head[0]));
        assert(s.take(1)[0] == head[0]);
        assert(!begins_with(s, seq![separator]));
        assert forall|c: char| head.drop_first().contains(c) implies head.contains(c) by {
            let k = choose|k: int| 0 <= k < head.drop_first().len() && head.drop_first()[k] == c;
            assert(head[k + 1] == c);
        }
        lemma_split_past(head.drop_first(), tail, separator, piece.push(head[0]));
        assert(s.drop_first() == head.drop_first() + tail);
        assert(piece.push(head[0]) + head.drop_first() == piece + head);
    }
}

} // verus!

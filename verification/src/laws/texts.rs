//! Trimming and cutting texts.

use vstd::prelude::*;

use crate::text::{
    is_white_space, joined, law_cuts_come_first, law_join_undoes_split, law_pieces_hold_no_separator,
    law_there_is_a_piece, split_at_separator, split_text, trimmed,
};

verus! {

/// White space are the characters with these numbers.
pub proof fn law_white_space(c: char)
    ensures
        is_white_space(c) <==> (9 <= c as u32 <= 13 || c as u32 == 0x20 || c as u32 == 0x85
            || c as u32 == 0xa0 || c as u32 == 0x1680 || 0x2000 <= c as u32 <= 0x200a || c as u32
            == 0x2028 || c as u32 == 0x2029 || c as u32 == 0x202f || c as u32 == 0x205f || c as u32
            == 0x3000),
{
}

/// A text is what trimming leaves of it, with nothing but white space around;
/// and what is left neither begins nor ends with white space. `around` are the
/// lengths of what is cut off in front and behind.
pub proof fn law_trimming_cuts_white_space_off(s: Seq<char>) -> (around: (nat, nat))
    ensures
        around.0 + trimmed(s).len() + around.1 == s.len(),
        trimmed(s) == s.subrange(around.0 as int, s.len() - around.1),
        forall|i: int|
            0 <= i < around.0 || s.len() - around.1 <= i < s.len() ==> is_white_space(
                #[trigger] s[i],
            ),
        trimmed(s).len() > 0 ==> !is_white_space(trimmed(s)[0]) && !is_white_space(
            trimmed(s)[trimmed(s).len() - 1],
        ),
{
    let front = lemma_trimmed_front(s);
    let rest = crate::text::trimmed_start(s);
    let back = lemma_trimmed_back(rest);
    assert(rest.subrange(0, rest.len() - back) =~= s.subrange(front as int, s.len() - back));
    assert forall|i: int| s.len() - back <= i < s.len() implies is_white_space(#[trigger] s[i]) by {
        assert(s[i] == rest[i - front]);
    }
    (front, back)
}

proof fn lemma_trimmed_front(s: Seq<char>) -> (cut: nat)
    ensures
        cut <= s.len(),
        crate::text::trimmed_start(s) == s.subrange(cut as int, s.len() as int),
        forall|i: int| 0 <= i < cut ==> is_white_space(#[trigger] s[i]),
        cut < s.len() ==> !is_white_space(s[cut as int]),
    decreases s.len(),
{
    if s.len() > 0 && is_white_space(s.first()) {
        let rest = s.drop_first();
        let cut = lemma_trimmed_front(rest);
        assert(rest.subrange(cut as int, rest.len() as int) =~= s.subrange(
            (cut + 1) as int,
            s.len() as int,
        ));
        assert forall|i: int| 0 <= i < cut + 1 implies is_white_space(#[trigger] s[i]) by {
            if i > 0 {
                assert(s[i] == rest[i - 1]);
            }
        }
        if cut + 1 < s.len() {
            assert(s[(cut + 1) as int] == rest[cut as int]);
        }
        cut + 1
    } else {
        assert(s.subrange(0, s.len() as int) =~= s);
        0
    }
}

proof fn lemma_trimmed_back(s: Seq<char>) -> (cut: nat)
    ensures
        cut <= s.len(),
        crate::text::trimmed_end(s) == s.subrange(0, s.len() - cut),
        forall|i: int| s.len() - cut <= i < s.len() ==> is_white_space(#[trigger] s[i]),
        cut < s.len() ==> !is_white_space(s[s.len() - cut - 1]),
    decreases s.len(),
{
    if s.len() > 0 && is_white_space(s.last()) {
        let rest = s.drop_last();
        let cut = lemma_trimmed_back(rest);
        assert(rest.subrange(0, rest.len() - cut) =~= s.subrange(0, s.len() - (cut + 1)));
        assert forall|i: int| s.len() - (cut + 1) <= i < s.len() implies is_white_space(
            #[trigger] s[i],
        ) by {
            if i < s.len() - 1 {
                assert(s[i] == rest[i]);
            }
        }
        cut + 1
    } else {
        assert(s.subrange(0, s.len() as int) =~= s);
        0
    }
}

/// Cutting a text leaves pieces that give the text again when they are put
/// together with the separator, and each cut is made at the first separator
/// that is left.
pub proof fn law_text_is_cut_at_each_separator(
    text: &str,
    separator: &str,
    pieces: Vec<String>,
    i: int,
    k: int,
)
    requires
        separator@.len() > 0,
        call_ensures(split_text, (text, separator), pieces),
    ensures
        pieces@.len() > 0,
        joined(Seq::new(pieces@.len(), |j: int| pieces@[j]@), separator@) == text@,
        0 <= i < pieces@.len() && 0 <= k && k + separator@.len() <= pieces@[i]@.len()
            ==> pieces@[i]@.subrange(k, k + separator@.len()) != separator@,
        0 <= i < pieces@.len() - 1 && 0 <= k < pieces@[i]@.len() ==> (pieces@[i]@
            + separator@).subrange(k, k + separator@.len()) != separator@,
{
    let cut = split_at_separator(text@, separator@);
    assert(Seq::new(pieces@.len(), |j: int| pieces@[j]@) =~= cut);
    law_join_undoes_split(text@, separator@);
    law_there_is_a_piece(text@, separator@);
    if 0 <= i < pieces@.len() {
        assert(pieces@[i]@ == cut[i]);
        law_pieces_hold_no_separator(text@, separator@, i);
        if i < pieces@.len() - 1 {
            law_cuts_come_first(text@, separator@, i, k);
        }
        if 0 <= k && k + separator@.len() <= cut[i].len() {
            assert(cut[i].skip(k).take(separator@.len() as int) =~= cut[i].subrange(
                k,
                k + separator@.len(),
            ));
        }
    }
}

} // verus!

//! Which texts are identifiers.

use vstd::prelude::*;

verus! {

/// Whether Unicode lets `ch` begin an identifier.
pub uninterp spec fn xid_start(ch: char) -> bool;

/// Whether Unicode lets `ch` stand inside an identifier.
pub uninterp spec fn xid_continue(ch: char) -> bool;

/// `unicode_ident::is_xid_start` looks its argument up in a table of Unicode's.
pub assume_specification[ unicode_ident::is_xid_start ](ch: char) -> (yes: bool)
    ensures
        yes == xid_start(ch),
;

/// `unicode_ident::is_xid_continue` looks its argument up in a table of Unicode's.
pub assume_specification[ unicode_ident::is_xid_continue ](ch: char) -> (yes: bool)
    ensures
        yes == xid_continue(ch),
;

/// Whether `ch` is one of `a` to `z` and `A` to `Z`.
pub open spec fn is_ascii_letter(ch: char) -> bool {
    ('a' <= ch && ch <= 'z') || ('A' <= ch && ch <= 'Z')
}

/// Whether an identifier may begin with `ch`.
pub open spec fn begins_ident(ch: char) -> bool {
    if ch as u32 <= 0x7f {
        is_ascii_letter(ch) || ch == '_'
    } else {
        xid_start(ch)
    }
}

/// Whether an identifier may hold `ch` behind its first character.
pub open spec fn continues_ident(ch: char) -> bool {
    if ch as u32 <= 0x7f {
        is_ascii_letter(ch) || ch == '_' || ('0' <= ch && ch <= '9')
    } else {
        xid_continue(ch)
    }
}

/// Whether `text` is an identifier or a keyword, not written with `r#`. Every character that may
/// begin an identifier may also stand further inside one.
#[verifier::opaque]
pub open spec fn is_ident(text: Seq<char>) -> bool {
    &&& text.len() > 0
    &&& begins_ident(text[0])
    &&& forall|i: int| 0 <= i < text.len() ==> continues_ident(#[trigger] text[i])
}

/// Tells whether `text` is an identifier or a keyword, not written with `r#`.
pub fn check_ident(text: &str) -> (yes: bool)
    ensures
        yes == is_ident(text@),
{
    reveal(is_ident);
    let len: usize = text.unicode_len();
    if len == 0 {
        return false;
    }
    let first = text.get_char(0);
    let begins = if first as u32 <= 0x7f {
        ('a' <= first && first <= 'z') || ('A' <= first && first <= 'Z') || first == '_'
    } else {
        unicode_ident::is_xid_start(first)
    };
    if !begins {
        return false;
    }
    let mut i: usize = 0;
    while i < len
        invariant
            i <= len,
            len == text@.len(),
            forall|j: int| 0 <= j < i ==> continues_ident(#[trigger] text@[j]),
        decreases len - i,
    {
        let ch = text.get_char(i);
        let continues = if ch as u32 <= 0x7f {
            ('a' <= ch && ch <= 'z') || ('A' <= ch && ch <= 'Z') || ch == '_' || ('0' <= ch && ch
                <= '9')
        } else {
            unicode_ident::is_xid_continue(ch)
        };
        if !continues {
            assert(!is_ident(text@)) by {
                reveal(is_ident);
                assert(!continues_ident(text@[i as int]));
            }
            return false;
        }
        i = i + 1;
    }
    true
}

/// An identifier between two texts that may stand in identifiers, the first of which begins like
/// one, makes an identifier.
pub proof fn law_ident_in_affixes(prefix: Seq<char>, text: Seq<char>, suffix: Seq<char>)
    requires
        is_ident(prefix),
        is_ident(text),
        forall|i: int| 0 <= i < suffix.len() ==> continues_ident(#[trigger] suffix[i]),
    ensures
        is_ident(prefix + text + suffix),
{
    reveal(is_ident);
    let all = prefix + text + suffix;
    assert forall|i: int| 0 <= i < all.len() implies continues_ident(#[trigger] all[i]) by {
        if i < prefix.len() {
            assert(all[i] == prefix[i]);
        } else if i < prefix.len() + text.len() {
            assert(all[i] == text[i - prefix.len()]);
        } else {
            assert(all[i] == suffix[i - prefix.len() - text.len()]);
        }
    }
}

/// Which characters stand in identifiers, by code points.
proof fn lemma_characters_by_code_points(ch: char)
    ensures
        begins_ident(ch) <==> {
            ||| 0x41 <= ch as int <= 0x5a || 0x61 <= ch as int <= 0x7a || ch as int == 0x5f
            ||| ch as int >= 0x80 && xid_start(ch)
        },
        continues_ident(ch) <==> {
            ||| 0x41 <= ch as int <= 0x5a || 0x61 <= ch as int <= 0x7a || ch as int == 0x5f
            ||| 0x30 <= ch as int <= 0x39
            ||| ch as int >= 0x80 && xid_continue(ch)
        },
{
}

/// Identifiers by code points: the first character is a letter or `_`, and those behind it may
/// also be any of the ten digits. Beyond ASCII, Unicode says which characters are letters, and
/// which may stand inside an identifier.
pub proof fn law_identifiers_by_code_points(text: Seq<char>)
    ensures
        is_ident(text) <==> {
            &&& text.len() > 0
            &&& {
                let code = text[0] as int;
                ||| 0x41 <= code <= 0x5a || 0x61 <= code <= 0x7a || code == 0x5f
                ||| code >= 0x80 && xid_start(text[0])
            }
            &&& forall|i: int|
                #![trigger text[i]]
                0 <= i < text.len() ==> {
                    let code = text[i] as int;
                    ||| 0x41 <= code <= 0x5a || 0x61 <= code <= 0x7a || code == 0x5f
                    ||| 0x30 <= code <= 0x39
                    ||| code >= 0x80 && xid_continue(text[i])
                }
        },
{
    reveal(is_ident);
    if text.len() > 0 {
        lemma_characters_by_code_points(text[0]);
    }
    assert forall|i: int|
        #![trigger text[i]]
        0 <= i < text.len() implies (continues_ident(text[i]) <==> {
        let code = text[i] as int;
        ||| 0x41 <= code <= 0x5a || 0x61 <= code <= 0x7a || code == 0x5f
        ||| 0x30 <= code <= 0x39
        ||| code >= 0x80 && xid_continue(text[i])
    }) by {
        lemma_characters_by_code_points(text[i]);
    }
}

/// Every text of ASCII letters, `_` and digits that does not begin with a digit is an identifier.
pub proof fn law_ascii_texts_are_identifiers(text: Seq<char>)
    requires
        text.len() > 0,
        !(0x30 <= text[0] as int <= 0x39),
        forall|i: int|
            #![trigger text[i]]
            0 <= i < text.len() ==> 0x30 <= text[i] as int <= 0x39 || 0x41 <= text[i] as int <= 0x5a
                || text[i] as int == 0x5f || 0x61 <= text[i] as int <= 0x7a,
    ensures
        is_ident(text),
{
    law_identifiers_by_code_points(text);
}

} // verus!

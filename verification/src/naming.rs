//! The capability namer.
//!
//! Every member maps to a canonical capability name: the member's identifier
//! is case-converted to lower snake case, and a kind prefix — `method_`,
//! `type_` or `const_` — is put in front, so members of different kinds can
//! never collide.  A word boundary is an upper-case ASCII letter that
//! follows a lower-case letter or a digit, or that starts a new word right
//! after an acronym (an upper-case letter followed by a lower-case one);
//! each boundary receives a separator, every upper-case letter is lowered,
//! and a character outside the ASCII range maps to the separator.  The
//! mapping is a pure function of the identifier and the kind: the same
//! member identifier canonicalizes to the same capability name on every
//! run.
//!
//! Two members that canonicalize to the same capability name are a
//! generation error; collisions are never resolved.

use vstd::prelude::*;
use vstd::string::*;

use crate::model::{Member, MemberModel};
use crate::text::{str_eq, string_from_ascii};

verus! {

/// An upper-case ASCII letter.
pub open spec fn is_ascii_upper(c: char) -> bool {
    'A' <= c && c <= 'Z'
}

/// A lower-case ASCII letter.
pub open spec fn is_ascii_lower(c: char) -> bool {
    'a' <= c && c <= 'z'
}

/// A character that ends a word: a lower-case ASCII letter or a digit.
pub open spec fn ends_word(c: char) -> bool {
    is_ascii_lower(c) || ('0' <= c && c <= '9')
}

/// A word boundary sits before position `i`: the character there is an
/// upper-case letter that either follows the end of a word, or closes an
/// acronym because a lower-case letter comes right after it.
pub open spec fn word_boundary(s: Seq<char>, i: int) -> bool {
    &&& is_ascii_upper(s[i])
    &&& i > 0
    &&& (ends_word(s[i - 1]) || (is_ascii_upper(s[i - 1]) && i + 1 < s.len() && is_ascii_lower(
        s[i + 1],
    )))
}

/// The bytes contributed to the snake-case form by the character at
/// position `i`: a separator at a word boundary, then the character
/// lowered; a character outside the ASCII range maps to the separator.
pub open spec fn snake_piece_at(s: Seq<char>, i: int) -> Seq<u8> {
    let c = s[i];
    if is_ascii_upper(c) {
        if word_boundary(s, i) {
            seq![95u8, ((c as u32) + 32) as u8]
        } else {
            seq![((c as u32) + 32) as u8]
        }
    } else if (c as u32) < 128 {
        seq![(c as u32) as u8]
    } else {
        seq![95u8]
    }
}

/// The snake-case bytes of the identifier's first `i` characters.
pub open spec fn snake_bytes_upto(s: Seq<char>, i: int) -> Seq<u8>
    decreases i,
        when 0 <= i <= s.len()
{
    if i <= 0 {
        Seq::empty()
    } else {
        snake_bytes_upto(s, i - 1) + snake_piece_at(s, i - 1)
    }
}

/// The snake-case bytes of an identifier.
pub open spec fn snake_bytes(s: Seq<char>) -> Seq<u8> {
    snake_bytes_upto(s, s.len() as int)
}

/// The kind prefix of a member's capability name.
pub open spec fn kind_prefix(m: MemberModel) -> Seq<char> {
    match m {
        MemberModel::Method(_) => "method_"@,
        MemberModel::AssociatedType(_) => "type_"@,
        MemberModel::AssociatedConstant(_) => "const_"@,
    }
}

/// The canonical capability name of a member: the kind prefix followed by
/// the snake-case form of the member's identifier.
pub open spec fn canonical_name(m: MemberModel) -> Seq<char> {
    kind_prefix(m) + snake_bytes(m.ident()).map_values(|b: u8| b as char)
}

/// Every snake-case byte is in the ASCII range.
proof fn lemma_snake_bytes_ascii(s: Seq<char>, i: int)
    requires
        0 <= i <= s.len(),
    ensures
        forall|k: int|
            0 <= k < snake_bytes_upto(s, i).len() ==> snake_bytes_upto(s, i)[k] < 128,
    decreases i,
{
    if i > 0 {
        lemma_snake_bytes_ascii(s, i - 1);
        let prev = snake_bytes_upto(s, i - 1);
        let piece = snake_piece_at(s, i - 1);
        assert forall|k: int| 0 <= k < snake_bytes_upto(s, i).len() implies snake_bytes_upto(s, i)[k]
            < 128 by {
            if k < prev.len() {
                assert(snake_bytes_upto(s, i)[k] == prev[k]);
            } else {
                assert(snake_bytes_upto(s, i)[k] == piece[k - prev.len()]);
            }
        }
    }
}

/// The identifier of a member.
fn ident_of(m: &Member) -> (r: &String)
    ensures
        r@ == m@.ident(),
{
    match m {
        Member::Method(s) => &s.name,
        Member::AssociatedType(t) => &t.name,
        Member::AssociatedConstant(c) => &c.name,
    }
}

/// The canonical capability name of a member, as a string.
///
/// A pure function of the member's kind and identifier: the same identifier
/// always canonicalizes to the same capability name.
pub fn capability_name(m: &Member) -> (r: String)
    ensures
        r@ == canonical_name(m@),
{
    let prefix: &str = match m {
        Member::Method(_) => "method_",
        Member::AssociatedType(_) => "type_",
        Member::AssociatedConstant(_) => "const_",
    };
    let ident = ident_of(m);
    let s = ident.as_str();
    let n = s.unicode_len();
    let mut bytes: Vec<u8> = Vec::new();
    let mut i: usize = 0;
    while i < n
        invariant
            i <= n,
            n == s@.len(),
            s@ == ident@,
            bytes@ == snake_bytes_upto(s@, i as int),
        decreases n - i,
    {
        let c = s.get_char(i);
        if c >= 'A' && c <= 'Z' {
            let after_word_end = i > 0 && {
                let p = s.get_char(i - 1);
                (p >= 'a' && p <= 'z') || (p >= '0' && p <= '9')
            };
            let closes_acronym = i > 0 && i + 1 < n && {
                let p = s.get_char(i - 1);
                let nx = s.get_char(i + 1);
                (p >= 'A' && p <= 'Z') && (nx >= 'a' && nx <= 'z')
            };
            if after_word_end || closes_acronym {
                bytes.push(95u8);
            }
            bytes.push(((c as u32) + 32) as u8);
        } else if (c as u32) < 128 {
            bytes.push((c as u32) as u8);
        } else {
            bytes.push(95u8);
        }
        proof {
            assert(bytes@ =~= snake_bytes_upto(s@, i as int) + snake_piece_at(s@, i as int));
        }
        i = i + 1;
    }
    proof {
        lemma_snake_bytes_ascii(s@, n as int);
    }
    let tail = string_from_ascii(bytes);
    let mut r = String::from_str(prefix);
    r.append(tail.as_str());
    r
}

/// A duplicate of the capability name at position `j` occurs somewhere
/// before `j`.
pub open spec fn dup_before(l: Seq<MemberModel>, j: int) -> bool {
    exists|i: int| 0 <= i < j && canonical_name(#[trigger] l[i]) == canonical_name(l[j])
}

/// The first capability-name collision at or after position `j`, if any:
/// the canonical name of the first member whose name already occurred.
pub open spec fn first_dup_from(l: Seq<MemberModel>, j: int) -> Option<Seq<char>>
    decreases l.len() - j,
        when 0 <= j <= l.len()
{
    if j >= l.len() {
        Option::None
    } else if dup_before(l, j) {
        Option::Some(canonical_name(l[j]))
    } else {
        first_dup_from(l, j + 1)
    }
}

/// The first capability-name collision among the members, if any.
pub open spec fn first_dup_name(l: Seq<MemberModel>) -> Option<Seq<char>> {
    first_dup_from(l, 0)
}

/// The first capability-name collision among the members, if any: the
/// canonical name of the first member whose name already occurred.
pub fn first_collision(members: &Vec<Member>) -> (r: Option<String>)
    ensures
        match r {
            Option::Some(s) => first_dup_name(crate::model::members_model(members@))
                == Option::Some(s@),
            Option::None => first_dup_name(crate::model::members_model(members@)) is None,
        },
{
    let ghost l = crate::model::members_model(members@);
    let mut j: usize = 0;
    while j < members.len()
        invariant
            j <= members@.len(),
            l == crate::model::members_model(members@),
            l.len() == members@.len(),
            first_dup_name(l) == first_dup_from(l, j as int),
        decreases members@.len() - j,
    {
        let name_j = capability_name(&members[j]);
        let mut i: usize = 0;
        while i < j
            invariant
                i <= j,
                j < members@.len(),
                l == crate::model::members_model(members@),
                l.len() == members@.len(),
                name_j@ == canonical_name(l[j as int]),
                first_dup_name(l) == first_dup_from(l, j as int),
                forall|k: int|
                    0 <= k < i ==> canonical_name(#[trigger] l[k]) != canonical_name(l[j as int]),
            decreases j - i,
        {
            let name_i = capability_name(&members[i]);
            if str_eq(name_i.as_str(), name_j.as_str()) {
                proof {
                    assert(canonical_name(l[i as int]) == canonical_name(l[j as int]));
                    assert(dup_before(l, j as int));
                    assert(first_dup_from(l, j as int) == Option::Some(canonical_name(l[j as int])));
                }
                return Option::Some(name_j);
            }
            i = i + 1;
        }
        proof {
            assert(!dup_before(l, j as int));
            assert(first_dup_from(l, j as int) == first_dup_from(l, j as int + 1));
        }
        j = j + 1;
    }
    Option::None
}


/// Naming determinism: the canonical capability name is a pure function of
/// the member's kind and identifier — members of one kind with the same
/// identifier canonicalize to the same capability name on every run.
pub proof fn lemma_naming_deterministic(a: MemberModel, b: MemberModel)
    requires
        a.ident() == b.ident(),
        kind_prefix(a) == kind_prefix(b),
    ensures
        canonical_name(a) == canonical_name(b),
{
}

/// When no collision is reported, the canonical names are pairwise
/// distinct.
pub proof fn lemma_no_collision_distinct(l: Seq<MemberModel>)
    requires
        first_dup_name(l) is None,
    ensures
        forall|i: int, j: int|
            0 <= i < j < l.len() ==> canonical_name(#[trigger] l[i]) != canonical_name(
                #[trigger] l[j],
            ),
{
    lemma_first_dup_from_none(l, 0);
    assert forall|i: int, j: int| 0 <= i < j < l.len() implies canonical_name(#[trigger] l[i])
        != canonical_name(#[trigger] l[j]) by {
        if canonical_name(l[i]) == canonical_name(l[j]) {
            assert(dup_before(l, j));
        }
    }
}

/// A scan that finds no collision leaves no duplicate anywhere at or after
/// its start.
proof fn lemma_first_dup_from_none(l: Seq<MemberModel>, j: int)
    requires
        0 <= j <= l.len(),
        first_dup_from(l, j) is None,
    ensures
        forall|k: int| j <= k < l.len() ==> !dup_before(l, k),
    decreases l.len() - j,
{
    if j < l.len() {
        lemma_first_dup_from_none(l, j + 1);
    }
}

} // verus!

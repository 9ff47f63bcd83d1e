//! Identifiers.
//!
//! An identifier is a sigil followed by one or more characters above ASCII
//! space: a backslash marks a publically visible identifier, a dollar sign
//! an autogenerated one.  The sigil is kept as the provenance tag of the
//! decoded [`Id`]; the carried text excludes it.

use vstd::prelude::*;

use crate::ast::Id;
use crate::ast::IdV;
use crate::characters::is_nonws_char;
use crate::characters::spec_skip_nonws;
use crate::string::chars_to_string;

verus! {

impl Id {
    /// The carried text, without the sigil tag.
    pub fn inner(&self) -> (r: &String)
        ensures
            r@ == self@.text(),
    {
        match self {
            Id::Public(t) => t,
            Id::Autogen(t) => t,
        }
    }

    /// The carried text by value, erasing the provenance tag.
    pub fn erease(self) -> (r: String)
        ensures
            r@ == self@.text(),
    {
        match self {
            Id::Public(t) => t,
            Id::Autogen(t) => t,
        }
    }
}

/// A publically visible identifier: a backslash sigil and its text.
pub open spec fn spec_public_id(s: Seq<char>, i: int) -> Option<(IdV, int)> {
    if 0 <= i < s.len() && s[i] == '\\' && i + 1 < s.len() && is_nonws_char(s[i + 1]) {
        let j = spec_skip_nonws(s, i + 1);
        Some((IdV::Public(s.subrange(i + 1, j)), j))
    } else {
        None
    }
}

/// An autogenerated identifier: a dollar sigil and its text.
pub open spec fn spec_autogen_id(s: Seq<char>, i: int) -> Option<(IdV, int)> {
    if 0 <= i < s.len() && s[i] == '$' && i + 1 < s.len() && is_nonws_char(s[i + 1]) {
        let j = spec_skip_nonws(s, i + 1);
        Some((IdV::Autogen(s.subrange(i + 1, j)), j))
    } else {
        None
    }
}

/// An identifier of either form.
pub open spec fn spec_id(s: Seq<char>, i: int) -> Option<(IdV, int)> {
    match spec_public_id(s, i) {
        Some(r) => Some(r),
        None => spec_autogen_id(s, i),
    }
}

/// Collect the run of `nonws` characters starting at `pos`.
fn nonws_run(input: &Vec<char>, pos: usize) -> (r: Option<(String, usize)>)
    requires
        pos <= input@.len(),
    ensures
        match r {
            Some((text, p)) => 0 <= pos < input@.len() && is_nonws_char(input@[pos as int])
                && p as int == spec_skip_nonws(input@, pos as int) && text@ == input@.subrange(
                pos as int,
                p as int,
            ) && pos < p <= input@.len(),
            None => !(0 <= pos < input@.len() && is_nonws_char(input@[pos as int])),
        },
{
    if !(pos < input.len() && input[pos] as u32 > 32) {
        return None;
    }
    let mut acc: Vec<char> = Vec::new();
    let mut cur: usize = pos;
    while cur < input.len() && input[cur] as u32 > 32
        invariant
            pos <= cur <= input@.len(),
            acc@ =~= input@.subrange(pos as int, cur as int),
            spec_skip_nonws(input@, pos as int) == spec_skip_nonws(input@, cur as int),
        decreases input@.len() - cur,
    {
        acc.push(input[cur]);
        proof {
            assert(acc@ =~= input@.subrange(pos as int, cur + 1));
        }
        cur += 1;
    }
    let text = chars_to_string(&acc);
    Some((text, cur))
}

/// Consume a publically visible identifier.
pub fn public_id(input: &Vec<char>, pos: usize) -> (r: Option<(Id, usize)>)
    requires
        pos <= input@.len(),
    ensures
        match r {
            Some((id, p)) => spec_public_id(input@, pos as int) == Some((id@, p as int)) && pos < p
                <= input@.len(),
            None => spec_public_id(input@, pos as int) is None,
        },
{
    if !(pos < input.len() && input[pos] == '\\') {
        return None;
    }
    match nonws_run(input, pos + 1) {
        Some((text, p)) => Some((Id::Public(text), p)),
        None => None,
    }
}

/// Consume an autogenerated identifier.
pub fn autogen_id(input: &Vec<char>, pos: usize) -> (r: Option<(Id, usize)>)
    requires
        pos <= input@.len(),
    ensures
        match r {
            Some((id, p)) => spec_autogen_id(input@, pos as int) == Some((id@, p as int)) && pos
                < p <= input@.len(),
            None => spec_autogen_id(input@, pos as int) is None,
        },
{
    if !(pos < input.len() && input[pos] == '$') {
        return None;
    }
    match nonws_run(input, pos + 1) {
        Some((text, p)) => Some((Id::Autogen(text), p)),
        None => None,
    }
}

/// Consume an identifier of either form.
pub fn id(input: &Vec<char>, pos: usize) -> (r: Option<(Id, usize)>)
    requires
        pos <= input@.len(),
    ensures
        match r {
            Some((v, p)) => spec_id(input@, pos as int) == Some((v@, p as int)) && pos < p
                <= input@.len(),
            None => spec_id(input@, pos as int) is None,
        },
{
    match public_id(input, pos) {
        Some(r) => Some(r),
        None => autogen_id(input, pos),
    }
}

/// The provenance tag survives parsing: an identifier read from a
/// backslash sigil is a public identifier, one read from a dollar sigil an
/// autogenerated one, and in both forms the carried text is exactly the
/// characters after the sigil — so the two forms are distinct values that
/// erase to the same text whenever that text is equal.
pub proof fn lemma_id_tag_preserved(s: Seq<char>, i: int)
    ensures
        spec_id(s, i) matches Some((v, p)) ==> {
            &&& (v is Public <==> s[i] == '\\')
            &&& (v is Autogen <==> s[i] == '$')
            &&& v.text() == s.subrange(i + 1, p)
        },
{
}

/// Two identifiers of different tags are unequal as values even when they
/// carry the same text, and erasing the tags yields that same text.
pub proof fn lemma_id_tag_distinct(t: Seq<char>)
    ensures
        IdV::Public(t) != IdV::Autogen(t),
        IdV::Public(t).text() == t,
        IdV::Autogen(t).text() == t,
{
}

} // verus!

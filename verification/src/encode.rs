//! Writing of JSON objects: the text of a request payload.
//!
//! An object is written the compact way, with nothing between its tokens:
//! an opening brace, the members in the order given, each as its name, a
//! colon and its value, with a comma between two members, a closing brace.

use crate::text::signed_decimal;
use vstd::prelude::*;

verus! {

/// The JSON string literal for `text`, quotes and escapes included, as
/// `serde_json::to_string` writes it.
pub uninterp spec fn json_quoted(text: Seq<char>) -> Seq<char>;

/// Calls `serde_json::to_string` on a `str`. The literal is a function of the
/// text alone. For a `str` the call cannot fail: nothing in a `str` refuses
/// to be written, and the writer is a buffer in memory.
#[verifier::external_body]
pub(crate) fn quote(text: &str) -> (literal: String)
    ensures
        literal@ == json_quoted(text@),
{
    serde_json::to_string(text).unwrap_or_default()
}

/// The text of one member: its name as written, a colon, its value as
/// written.
pub open spec fn member_text(member: (Seq<char>, Seq<char>)) -> Seq<char> {
    member.0 + ":"@ + member.1
}

/// The texts of the members, with a comma between each two.
pub open spec fn members_text(members: Seq<(Seq<char>, Seq<char>)>) -> Seq<char>
    decreases members.len(),
{
    if members.len() == 0 {
        Seq::empty()
    } else if members.len() == 1 {
        member_text(members[0])
    } else {
        members_text(members.drop_last()) + ","@ + member_text(members.last())
    }
}

/// The text of the object that holds `members`, each a name and a value that
/// are JSON texts already.
pub open spec fn object_text(members: Seq<(Seq<char>, Seq<char>)>) -> Seq<char> {
    "{"@ + members_text(members) + "}"@
}

/// The JSON text of a truth value.
pub open spec fn bool_text(flag: bool) -> Seq<char> {
    if flag {
        "true"@
    } else {
        "false"@
    }
}

/// The member that holds the text `value` under `name`.
pub open spec fn text_member(name: Seq<char>, value: Seq<char>) -> (Seq<char>, Seq<char>) {
    (json_quoted(name), json_quoted(value))
}

/// The member that holds the integer `value` under `name`.
pub open spec fn int_member(name: Seq<char>, value: int) -> (Seq<char>, Seq<char>) {
    (json_quoted(name), signed_decimal(value))
}

/// The member that holds the truth value `flag` under `name`.
pub open spec fn bool_member(name: Seq<char>, flag: bool) -> (Seq<char>, Seq<char>) {
    (json_quoted(name), bool_text(flag))
}

/// Writes the object that holds `members`, each a name and a value that are
/// JSON texts already.
pub fn object(members: &Vec<(String, String)>) -> (text: String)
    ensures
        text@ == object_text(members.deep_view()),
{
    let mut text = String::from_str("{");
    let mut at: usize = 0;
    proof {
        assert(members.deep_view().take(0) =~= Seq::empty());
        assert(text@ =~= "{"@ + members_text(members.deep_view().take(0)));
    }
    while at < members.len()
        invariant
            at <= members.len(),
            text@ == "{"@ + members_text(members.deep_view().take(at as int)),
        decreases members.len() - at,
    {
        let ghost before = members.deep_view().take(at as int);
        let ghost after = members.deep_view().take(at + 1);
        if at > 0 {
            text.append(",");
        }
        text.append(members[at].0.as_str());
        text.append(":");
        text.append(members[at].1.as_str());
        proof {
            assert(after.drop_last() =~= before);
            assert(after.last() == (members[at as int].0@, members[at as int].1@));
            assert(text@ =~= "{"@ + members_text(after));
        }
        at += 1;
    }
    proof {
        assert(members.deep_view().take(at as int) =~= members.deep_view());
    }
    text.append("}");
    text
}

} // verus!

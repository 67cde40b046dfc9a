//! The JSON framing of request bodies: objects of named members and arrays,
//! with string literals produced by serde_json.
use vstd::prelude::*;

verus! {

/// The JSON string literal that serde_json writes for the characters `s`.
pub uninterp spec fn json_string_literal(s: Seq<char>) -> Seq<char>;

/// Relies on serde_json::to_string on a `str`: the quoted and escaped JSON
/// string literal, which depends on the characters alone. Serialising a `str`
/// into memory has no failure path.
#[verifier::external_body]
fn quote(s: &str) -> (r: String)
    ensures
        r@ == json_string_literal(s@),
{
    serde_json::to_string(s).unwrap_or_default()
}

/// `items` separated by commas.
pub open spec fn join_commas(items: Seq<Seq<char>>) -> Seq<char>
    decreases items.len(),
{
    if items.len() == 0 {
        Seq::empty()
    } else if items.len() == 1 {
        items[0]
    } else {
        join_commas(items.drop_last()) + seq![','] + items.last()
    }
}

/// A member `"key":value` of an object; `value` is already JSON.
pub open spec fn json_member(key: Seq<char>, value: Seq<char>) -> Seq<char> {
    json_string_literal(key) + seq![':'] + value
}

/// An object with the given members, in order.
pub open spec fn json_object(members: Seq<(Seq<char>, Seq<char>)>) -> Seq<char> {
    seq!['{'] + join_commas(members.map_values(|m: (Seq<char>, Seq<char>)| json_member(m.0, m.1)))
        + seq!['}']
}

/// An array of the given JSON values, in order.
pub open spec fn json_array(items: Seq<Seq<char>>) -> Seq<char> {
    seq!['['] + join_commas(items) + seq![']']
}

/// An array of JSON strings.
pub open spec fn json_string_array(items: Seq<Seq<char>>) -> Seq<char> {
    json_array(items.map_values(|s: Seq<char>| json_string_literal(s)))
}

/// The character views of a vector of strings.
pub open spec fn strings_view(v: Seq<String>) -> Seq<Seq<char>> {
    v.map_values(|s: String| s@)
}

/// The character views of a vector of pairs of strings.
pub open spec fn pairs_view(v: Seq<(String, String)>) -> Seq<(Seq<char>, Seq<char>)> {
    v.map_values(|p: (String, String)| (p.0@, p.1@))
}

/// The JSON string literal of `s`.
pub fn string_literal(s: &str) -> (r: String)
    ensures
        r@ == json_string_literal(s@),
{
    quote(s)
}

/// Writes the strings of `items`, already JSON, separated by commas.
fn join_with_commas(items: &Vec<String>) -> (r: String)
    ensures
        r@ == join_commas(strings_view(items@)),
{
    let mut out = String::new();
    let mut i: usize = 0;
    while i < items.len()
        invariant
            i <= items.len(),
            out@ == join_commas(strings_view(items@.take(i as int))),
        decreases items.len() - i,
    {
        proof {
            reveal_strlit(",");
            assert(","@ =~= seq![',']);
        }
        let ghost prev = strings_view(items@.take(i as int));
        let ghost next = strings_view(items@.take(i + 1));
        assert(next.drop_last() =~= prev);
        assert(next.last() == items@[i as int]@);
        if i > 0 {
            out.append(",");
            out.append(items[i].as_str());
            assert(join_commas(next) == join_commas(prev) + seq![','] + items@[i as int]@);
        } else {
            assert(next.len() == 1);
            assert(join_commas(next) == next[0]);
            out.append(items[i].as_str());
            assert(out@ =~= join_commas(next));
        }
        i = i + 1;
    }
    assert(items@.take(items.len() as int) =~= items@);
    out
}

/// Writes an array of the JSON values `items`.
pub fn array(items: &Vec<String>) -> (r: String)
    ensures
        r@ == json_array(strings_view(items@)),
{
    proof {
        reveal_strlit("[");
        reveal_strlit("]");
    }
    let r = String::from_str("[").concat(join_with_commas(items).as_str()).concat("]");
    r
}

/// Writes an array of JSON strings.
pub fn string_array(items: &Vec<String>) -> (r: String)
    ensures
        r@ == json_string_array(strings_view(items@)),
{
    let mut quoted: Vec<String> = Vec::new();
    let mut i: usize = 0;
    while i < items.len()
        invariant
            i <= items.len(),
            quoted.len() == i,
            forall|j: int| 0 <= j < i ==> #[trigger] quoted@[j]@ == json_string_literal(items@[j]@),
        decreases items.len() - i,
    {
        quoted.push(quote(items[i].as_str()));
        i = i + 1;
    }
    assert(strings_view(quoted@) =~= strings_view(items@).map_values(
        |s: Seq<char>| json_string_literal(s),
    ));
    array(&quoted)
}

/// Adds the member `"key":value` at the end of `members`; `value` is already JSON.
pub fn push_member(members: &mut Vec<(String, String)>, key: &str, value: String)
    ensures
        pairs_view(final(members)@) == pairs_view(old(members)@).push((key@, value@)),
{
    members.push((String::from_str(key), value));
    assert(pairs_view(members@) =~= pairs_view(old(members)@).push((key@, value@)));
}

/// Writes an object with the given members, in order.
pub fn object(members: &Vec<(String, String)>) -> (r: String)
    ensures
        r@ == json_object(pairs_view(members@)),
{
    proof {
        reveal_strlit("{");
        reveal_strlit("}");
    }
    let mut parts: Vec<String> = Vec::new();
    let mut i: usize = 0;
    while i < members.len()
        invariant
            i <= members.len(),
            parts.len() == i,
            forall|j: int|
                0 <= j < i ==> #[trigger] parts@[j]@ == json_member(members@[j].0@, members@[j].1@),
        decreases members.len() - i,
    {
        proof {
            reveal_strlit(":");
            assert(":"@ =~= seq![':']);
        }
        let part = quote(members[i].0.as_str()).concat(":").concat(members[i].1.as_str());
        assert(part@ =~= json_member(members@[i as int].0@, members@[i as int].1@));
        parts.push(part);
        i = i + 1;
    }
    assert(strings_view(parts@) =~= pairs_view(members@).map_values(
        |m: (Seq<char>, Seq<char>)| json_member(m.0, m.1),
    ));
    let r = String::from_str("{").concat(join_with_commas(&parts).as_str()).concat("}");
    r
}

} // verus!

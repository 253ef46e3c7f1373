//! Framing of the JSON documents sent as request bodies. String values are
//! escaped by `encoding::json_string`; keys are fixed names that need no escaping.
use vstd::prelude::*;

use crate::encoding::push_char;

verus! {

/// Items joined by commas.
pub open spec fn comma_joined(items: Seq<Seq<char>>) -> Seq<char>
    decreases items.len(),
{
    if items.len() == 0 {
        Seq::empty()
    } else if items.len() == 1 {
        items[0]
    } else {
        comma_joined(items.drop_last()) + seq![','] + items.last()
    }
}

/// A member of a JSON object: the quoted key, `:` and the value.
pub open spec fn json_member(key: Seq<char>, value: Seq<char>) -> Seq<char> {
    seq!['"'] + key + seq!['"', ':'] + value
}

/// A JSON object with the given members, in order.
pub open spec fn json_object(members: Seq<Seq<char>>) -> Seq<char> {
    seq!['{'] + comma_joined(members) + seq!['}']
}

/// A JSON array with the given items, in order.
pub open spec fn json_array(items: Seq<Seq<char>>) -> Seq<char> {
    seq!['['] + comma_joined(items) + seq![']']
}

/// The characters of each string.
pub open spec fn string_views(items: Seq<String>) -> Seq<Seq<char>> {
    items.map_values(|s: String| s@)
}

/// Joining one more item adds a comma, unless it is the first.
pub proof fn lemma_comma_joined_push(items: Seq<Seq<char>>, item: Seq<char>)
    ensures
        comma_joined(items.push(item)) == comma_joined(items) + (if items.len() == 0 {
            Seq::<char>::empty()
        } else {
            seq![',']
        }) + item,
{
    assert(items.push(item).drop_last() =~= items);
    if items.len() == 0 {
        assert(comma_joined(items) + Seq::<char>::empty() + item =~= item);
    }
}

/// Appends `items` joined by commas.
fn push_comma_joined(out: &mut String, items: &Vec<String>)
    ensures
        final(out)@ == old(out)@ + comma_joined(string_views(items@)),
{
    let ghost start = out@;
    let ghost views = string_views(items@);
    let mut i: usize = 0;
    while i < items.len()
        invariant
            views == string_views(items@),
            i <= items@.len(),
            out@ == start + comma_joined(views.subrange(0, i as int)),
        decreases items@.len() - i,
    {
        if i > 0 {
            push_char(out, ',');
        }
        out.append(items[i].as_str());
        proof {
            lemma_comma_joined_push(views.subrange(0, i as int), views[i as int]);
            assert(views.subrange(0, i as int).push(views[i as int]) =~= views.subrange(
                0,
                i + 1,
            ));
        }
        assert(out@ =~= start + comma_joined(views.subrange(0, i + 1)));
        i += 1;
    }
    assert(views.subrange(0, items@.len() as int) =~= views);
}

/// The member `key` with the JSON value `value`.
pub fn member(key: &str, value: String) -> (r: String)
    ensures
        r@ == json_member(key@, value@),
{
    let mut r = String::new();
    push_char(&mut r, '"');
    r.append(key);
    push_char(&mut r, '"');
    push_char(&mut r, ':');
    r.append(value.as_str());
    assert(r@ =~= json_member(key@, value@));
    r
}

/// The JSON object with `members`, in order.
pub fn object(members: &Vec<String>) -> (r: String)
    ensures
        r@ == json_object(string_views(members@)),
{
    let mut r = String::new();
    push_char(&mut r, '{');
    push_comma_joined(&mut r, members);
    push_char(&mut r, '}');
    assert(r@ =~= json_object(string_views(members@)));
    r
}

/// The JSON array with `items`, in order.
pub fn array(items: &Vec<String>) -> (r: String)
    ensures
        r@ == json_array(string_views(items@)),
{
    let mut r = String::new();
    push_char(&mut r, '[');
    push_comma_joined(&mut r, items);
    push_char(&mut r, ']');
    assert(r@ =~= json_array(string_views(items@)));
    r
}

} // verus!

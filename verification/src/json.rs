//! A JSON document tree and its mathematical view.

use vstd::prelude::*;

verus! {

/// A JSON number, kept exactly as it was read.
#[derive(Clone, Copy, Debug, PartialEq, Eq)]
pub enum Number {
    /// A non-negative integer.
    PosInt(u64),
    /// A negative integer.
    NegInt(i64),
    /// A finite binary64 number, held as its bit pattern.
    Float(u64),
}

/// A JSON value.
#[derive(Debug, PartialEq, Eq)]
pub enum Json {
    Null,
    Bool(bool),
    Number(Number),
    String(String),
    Array(Vec<Json>),
    Object(Vec<(String, Json)>),
}

/// What a JSON value is, as mathematics: arrays are sequences and objects are
/// maps from member names to values.
pub enum JsonView {
    Null,
    Bool(bool),
    Number(Number),
    String(Seq<char>),
    Array(Seq<JsonView>),
    Object(Map<Seq<char>, JsonView>),
}

/// The map that a list of members denotes: a later member replaces an earlier
/// one of the same name.
pub open spec fn members_view(members: Seq<(String, Json)>) -> Map<Seq<char>, JsonView>
    decreases members, 0int,
{
    if members.len() == 0 {
        Map::empty()
    } else {
        let last = members[members.len() - 1];
        members_view(members.subrange(0, members.len() - 1)).insert(last.0@, last.1.view())
    }
}

/// The views of a list of values, in order.
pub open spec fn items_view(items: Seq<Json>) -> Seq<JsonView>
    decreases items, 0int,
{
    if items.len() == 0 {
        Seq::empty()
    } else {
        items_view(items.subrange(0, items.len() - 1)).push(items[items.len() - 1].view())
    }
}

impl View for Json {
    type V = JsonView;

    open spec fn view(&self) -> JsonView
        decreases self, 1int,
    {
        match self {
            Json::Null => JsonView::Null,
            Json::Bool(b) => JsonView::Bool(*b),
            Json::Number(n) => JsonView::Number(*n),
            Json::String(s) => JsonView::String(s@),
            Json::Array(items) => JsonView::Array(items_view(items@)),
            Json::Object(members) => JsonView::Object(members_view(members@)),
        }
    }
}

/// The views of a list that has grown by one item.
proof fn lemma_items_push(items: Seq<Json>, item: Json)
    ensures
        items_view(items.push(item)) == items_view(items).push(item@),
{
    let grown = items.push(item);
    assert(grown.subrange(0, grown.len() - 1) == items);
}

/// The map of a list that has grown by one member.
proof fn lemma_members_push(members: Seq<(String, Json)>, member: (String, Json))
    ensures
        members_view(members.push(member)) == members_view(members).insert(
            member.0@,
            member.1@,
        ),
{
    let grown = members.push(member);
    assert(grown.subrange(0, grown.len() - 1) == members);
}

/// A copy of a list of members that denotes the same map.
pub fn clone_members(members: &Vec<(String, Json)>) -> (copy: Vec<(String, Json)>)
    ensures
        members_view(copy@) == members_view(members@),
    decreases members,
{
    let mut copy: Vec<(String, Json)> = Vec::new();
    let mut i: usize = 0;
    while i < members.len()
        invariant
            i <= members.len(),
            members_view(copy@) == members_view(members@.subrange(0, i as int)),
        decreases members.len() - i,
    {
        proof {
            vstd::std_specs::vec::axiom_vec_index_decreases(*members, i as int);
        }
        let member = (members[i].0.clone(), members[i].1.clone());
        proof {
            lemma_members_push(copy@, member);
            lemma_members_push(members@.subrange(0, i as int), members@[i as int]);
            assert(members@.subrange(0, i as int).push(members@[i as int]) == members@.subrange(
                0,
                i + 1,
            ));
        }
        copy.push(member);
        i = i + 1;
    }
    assert(members@.subrange(0, members@.len() as int) == members@);
    copy
}

impl Clone for Json {
    /// A copy that denotes the same value.
    fn clone(&self) -> (r: Json)
        ensures
            r@ == self@,
        decreases self,
    {
        match self {
            Json::Null => Json::Null,
            Json::Bool(b) => Json::Bool(*b),
            Json::Number(n) => Json::Number(*n),
            Json::String(s) => Json::String(s.clone()),
            Json::Array(items) => {
                let mut copy: Vec<Json> = Vec::new();
                let mut i: usize = 0;
                while i < items.len()
                    invariant
                        i <= items.len(),
                        *self == Json::Array(*items),
                        items_view(copy@) == items_view(items@.subrange(0, i as int)),
                    decreases items.len() - i,
                {
                    proof {
                        vstd::std_specs::vec::axiom_vec_index_decreases(*items, i as int);
                        assert(decreases_to!(*self => self->Array_0));
                    }
                    let item = items[i].clone();
                    proof {
                        lemma_items_push(copy@, item);
                        lemma_items_push(items@.subrange(0, i as int), items@[i as int]);
                        assert(items@.subrange(0, i as int).push(items@[i as int])
                            == items@.subrange(0, i + 1));
                    }
                    copy.push(item);
                    i = i + 1;
                }
                assert(items@.subrange(0, items@.len() as int) == items@);
                Json::Array(copy)
            },
            Json::Object(members) => {
                assert(decreases_to!(*self => self->Object_0));
                Json::Object(clone_members(members))
            },
        }
    }
}

/// `serde_json::Value`, carried from the parser to the conversion.
#[verifier::external_type_specification]
#[verifier::external_body]
pub struct ExValue(serde_json::Value);

/// `serde_json::Error`, the parser's report of a text that is not JSON.
#[verifier::external_type_specification]
#[verifier::external_body]
pub struct ExError(serde_json::Error);

/// The value that a JSON text denotes, or `None` where the text is not JSON.
pub uninterp spec fn parsed(text: Seq<u8>) -> Option<JsonView>;

/// A `serde_json::Value` that is a number, as a [`Number`]. The form in which
/// `serde_json` holds the number is kept: `as_u64` answers for a non-negative
/// integer, `as_i64` for a negative one, and `as_f64` for everything else.
#[verifier::external_body]
fn lift_number(n: &serde_json::Value) -> Number {
    match (n.as_u64(), n.as_i64()) {
        (Some(u), _) => Number::PosInt(u),
        (None, Some(i)) => Number::NegInt(i),
        (None, None) => Number::Float(n.as_f64().map_or(0, |x| x.to_bits())),
    }
}

/// Turns a `serde_json::Value` into a [`Json`], variant by variant and member
/// by member, in the order in which `serde_json` hands the members out.
#[verifier::external_body]
fn lift(value: serde_json::Value) -> Json {
    match value {
        serde_json::Value::Null => Json::Null,
        serde_json::Value::Bool(b) => Json::Bool(b),
        serde_json::Value::Number(_) => Json::Number(lift_number(&value)),
        serde_json::Value::String(s) => Json::String(s),
        serde_json::Value::Array(a) => Json::Array(a.into_iter().map(lift).collect()),
        serde_json::Value::Object(o) => Json::Object(
            o.into_iter().map(|(k, v)| (k, lift(v))).collect(),
        ),
    }
}

/// `serde_json::from_slice`, read as a `serde_json::Value`. The call is a
/// function of the text alone: it succeeds exactly on the texts that `parsed`
/// knows, and the tree it returns is the one that `parsed` names.
#[verifier::external_body]
fn read_text(text: &[u8]) -> (r: Result<Json, serde_json::Error>)
    ensures
        r is Ok <==> parsed(text@) is Some,
        r matches Ok(doc) ==> Some(doc@) == parsed(text@),
{
    serde_json::from_slice::<serde_json::Value>(text).map(lift)
}

/// The integer that a value is, where it is an integer that fits `i64`.
pub open spec fn int_of(v: JsonView) -> Option<i64> {
    match v {
        JsonView::Number(Number::PosInt(u)) => if u <= i64::MAX {
            Some(u as i64)
        } else {
            None
        },
        JsonView::Number(Number::NegInt(i)) => Some(i),
        _ => None,
    }
}

/// A member named `name` at `at` that no later member shadows is the one the
/// map holds.
pub proof fn lemma_last_member_wins(members: Seq<(String, Json)>, at: int, name: Seq<char>)
    requires
        0 <= at < members.len(),
        members[at].0@ == name,
        forall|j: int| at < j < members.len() ==> members[j].0@ != name,
    ensures
        members_view(members).contains_key(name),
        members_view(members)[name] == members[at].1@,
    decreases members.len(),
{
    let front = members.subrange(0, members.len() - 1);
    let last = members[members.len() - 1];
    assert(members_view(members) == members_view(front).insert(last.0@, last.1@));
    if at < members.len() - 1 {
        lemma_last_member_wins(front, at, name);
    }
}

/// A name that no member carries is not in the map.
pub proof fn lemma_absent_member(members: Seq<(String, Json)>, name: Seq<char>)
    requires
        forall|j: int| 0 <= j < members.len() ==> members[j].0@ != name,
    ensures
        !members_view(members).contains_key(name),
    decreases members.len(),
{
    if members.len() > 0 {
        let front = members.subrange(0, members.len() - 1);
        let last = members[members.len() - 1];
        assert(members_view(members) == members_view(front).insert(last.0@, last.1@));
        lemma_absent_member(front, name);
    }
}

/// The map of two lists joined is the map of the first, overridden by the map
/// of the second.
pub proof fn lemma_members_join(a: Seq<(String, Json)>, b: Seq<(String, Json)>)
    ensures
        members_view(a + b) == members_view(a).union_prefer_right(members_view(b)),
    decreases b.len(),
{
    if b.len() == 0 {
        assert(a + b == a);
        assert(members_view(a).union_prefer_right(members_view(b)) == members_view(a));
    } else {
        let front = b.subrange(0, b.len() - 1);
        let last = b[b.len() - 1];
        let whole = a + b;
        assert(whole.subrange(0, whole.len() - 1) == a + front);
        assert(whole[whole.len() - 1] == last);
        lemma_members_join(a, front);
        assert(members_view(whole) == members_view(a + front).insert(last.0@, last.1@));
        assert(members_view(b) == members_view(front).insert(last.0@, last.1@));
        assert(members_view(a).union_prefer_right(members_view(front)).insert(last.0@, last.1@)
            == members_view(a).union_prefer_right(members_view(b)));
    }
}

/// Looks a member up by name; of several members with one name the last
/// counts.
pub fn member<'a>(members: &'a Vec<(String, Json)>, name: &String) -> (r: Option<&'a Json>)
    ensures
        r is Some <==> members_view(members@).contains_key(name@),
        r matches Some(v) ==> v@ == members_view(members@)[name@],
{
    let mut i: usize = members.len();
    while i > 0
        invariant
            i <= members.len(),
            forall|j: int| i <= j < members.len() ==> members@[j].0@ != name@,
        decreases i,
    {
        i = i - 1;
        if members[i].0 == *name {
            proof {
                lemma_last_member_wins(members@, i as int, name@);
            }
            return Some(&members[i].1);
        }
    }
    proof {
        lemma_absent_member(members@, name@);
    }
    None
}

/// The integer that the member `name` is, where there is such a member and
/// it is an integer that fits `i64`.
pub open spec fn int_member(members: Map<Seq<char>, JsonView>, name: Seq<char>) -> Option<i64> {
    if members.contains_key(name) {
        int_of(members[name])
    } else {
        None
    }
}

/// Looks an integer member up by name.
pub fn int_field(members: &Vec<(String, Json)>, name: &str) -> (r: Option<i64>)
    ensures
        r == int_member(members_view(members@), name@),
{
    let name = name.to_owned();
    match member(members, &name) {
        Some(v) => v.as_i64(),
        None => None,
    }
}

impl Json {
    /// Reads a JSON text. `None` means that the text is not JSON.
    pub fn parse(text: &[u8]) -> (r: Option<Json>)
        ensures
            r is Some <==> parsed(text@) is Some,
            r matches Some(doc) ==> Some(doc@) == parsed(text@),
    {
        match read_text(text) {
            Ok(doc) => Some(doc),
            Err(_) => None,
        }
    }

    /// The value as an `i64`: `Some` for an integer in range, `None` for any
    /// other number and for what is not a number.
    pub fn as_i64(&self) -> (r: Option<i64>)
        ensures
            r == int_of(self@),
    {
        match self {
            Json::Number(Number::PosInt(u)) => {
                if *u <= 0x7fff_ffff_ffff_ffff {
                    Some(*u as i64)
                } else {
                    None
                }
            },
            Json::Number(Number::NegInt(i)) => Some(*i),
            _ => None,
        }
    }
}

} // verus!

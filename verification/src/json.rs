//! JSON values as plain data.

use crate::text::same_text;
use vstd::prelude::*;
use vstd::string::*;

verus! {

/// A JSON value. Numbers keep the three forms in which they are read: non-negative and negative
/// integers by value, everything else by its text.
#[derive(Debug, PartialEq, Eq)]
pub enum Json {
    Null,
    Bool(bool),
    Unsigned(u64),
    Negative(i64),
    Decimal(String),
    Text(String),
    Array(Vec<Json>),
    Object(Vec<Member>),
}

/// A member of a JSON object.
#[derive(Debug, PartialEq, Eq)]
pub struct Member {
    pub key: String,
    pub value: Json,
}

/// The content of a JSON value.
pub enum JsonView {
    Null,
    Bool(bool),
    Unsigned(u64),
    Negative(i64),
    Decimal(Seq<char>),
    Text(Seq<char>),
    Array(Seq<JsonView>),
    Object(Seq<(Seq<char>, JsonView)>),
}

/// The content of `j`.
pub open spec fn json_view(j: Json) -> JsonView
    decreases j,
{
    match j {
        Json::Null => JsonView::Null,
        Json::Bool(b) => JsonView::Bool(b),
        Json::Unsigned(n) => JsonView::Unsigned(n),
        Json::Negative(n) => JsonView::Negative(n),
        Json::Decimal(s) => JsonView::Decimal(s@),
        Json::Text(s) => JsonView::Text(s@),
        Json::Array(items) => JsonView::Array(
            Seq::new(
                items@.len(),
                |i: int|
                    if 0 <= i < items@.len() {
                        json_view(items@[i])
                    } else {
                        JsonView::Null
                    },
            ),
        ),
        Json::Object(members) => JsonView::Object(
            Seq::new(
                members@.len(),
                |i: int|
                    if 0 <= i < members@.len() {
                        (members@[i].key@, json_view(members@[i].value))
                    } else {
                        (Seq::empty(), JsonView::Null)
                    },
            ),
        ),
    }
}

impl View for Json {
    type V = JsonView;

    open spec fn view(&self) -> JsonView {
        json_view(*self)
    }
}

/// What a value is seen as is what it is: of the same form, with the same content, its items and
/// members in their order.
pub proof fn law_values_are_seen_as_they_are(value: Json)
    ensures
        match value {
            Json::Null => value@ == JsonView::Null,
            Json::Bool(b) => value@ == JsonView::Bool(b),
            Json::Unsigned(n) => value@ == JsonView::Unsigned(n),
            Json::Negative(n) => value@ == JsonView::Negative(n),
            Json::Decimal(s) => value@ == JsonView::Decimal(s@),
            Json::Text(s) => value@ == JsonView::Text(s@),
            Json::Array(items) => value@ matches JsonView::Array(seen) && {
                &&& seen.len() == items@.len()
                &&& forall|i: int| 0 <= i < seen.len() ==> #[trigger] seen[i] == items@[i]@
            },
            Json::Object(members) => value@ matches JsonView::Object(seen) && {
                &&& seen.len() == members@.len()
                &&& forall|i: int|
                    0 <= i < seen.len() ==> #[trigger] seen[i] == (
                        members@[i].key@,
                        members@[i].value@,
                    )
            },
        },
{
}

/// The value of the first member named `key`.
pub open spec fn lookup(members: Seq<(Seq<char>, JsonView)>, key: Seq<char>) -> Option<JsonView>
    decreases members.len(),
{
    if members.len() == 0 {
        None
    } else if members[0].0 == key {
        Some(members[0].1)
    } else {
        lookup(members.drop_first(), key)
    }
}

/// The value that an object holds under `key`; nothing for a value that is not an object.
pub open spec fn field(v: JsonView, key: Seq<char>) -> Option<JsonView> {
    match v {
        JsonView::Object(members) => lookup(members, key),
        _ => None,
    }
}

/// The text that an object holds under `key`, if it holds a text there.
pub open spec fn text_field(v: JsonView, key: Seq<char>) -> Option<Seq<char>> {
    match field(v, key) {
        Some(JsonView::Text(s)) => Some(s),
        _ => None,
    }
}

/// The members not named `key`, in their order.
pub open spec fn members_without(
    members: Seq<(Seq<char>, JsonView)>,
    key: Seq<char>,
) -> Seq<(Seq<char>, JsonView)> {
    members.filter(has_other_key(key))
}

/// Tells the members apart that are not named `key`.
pub open spec fn has_other_key(key: Seq<char>) -> spec_fn((Seq<char>, JsonView)) -> bool {
    |m: (Seq<char>, JsonView)| m.0 != key
}

/// An object without its members named `key`; any other value as it is.
pub open spec fn without_field(v: JsonView, key: Seq<char>) -> JsonView {
    match v {
        JsonView::Object(members) => JsonView::Object(members_without(members, key)),
        _ => v,
    }
}

/// Once the first `n` members are known to have other keys, the lookup can go on behind them.
proof fn lemma_lookup_skip(members: Seq<(Seq<char>, JsonView)>, key: Seq<char>, n: int)
    requires
        0 <= n <= members.len(),
        forall|i: int| 0 <= i < n ==> (#[trigger] members[i]).0 != key,
    ensures
        lookup(members, key) == lookup(members.skip(n), key),
    decreases n,
{
    if n > 0 {
        let rest = members.drop_first();
        assert forall|i: int| 0 <= i < n - 1 implies (#[trigger] rest[i]).0 != key by {
            assert(rest[i] == members[i + 1]);
        }
        lemma_lookup_skip(rest, key, n - 1);
        assert(rest.skip(n - 1) =~= members.skip(n));
        assert(members[0].0 != key);
    } else {
        assert(members.skip(0) =~= members);
    }
}

/// What an object holds under a key is the value of the first member of that name, and nothing where
/// no member has it.
pub proof fn law_first_member_is_found(members: Seq<(Seq<char>, JsonView)>, key: Seq<char>, n: int)
    requires
        0 <= n <= members.len(),
        forall|i: int| 0 <= i < n ==> (#[trigger] members[i]).0 != key,
        n < members.len() ==> members[n].0 == key,
    ensures
        n < members.len() ==> field(JsonView::Object(members), key) == Some(members[n].1),
        n == members.len() ==> field(JsonView::Object(members), key) is None,
{
    lemma_lookup_skip(members, key, n);
    if n < members.len() {
        assert(members.skip(n)[0] == members[n]);
    }
}

/// Taking a key out of an object goes member by member: what has another name stays in its place,
/// and what has that name goes, wherever it stands. Any other value stays as it is.
pub proof fn law_key_is_taken_out_everywhere(
    front: Seq<(Seq<char>, JsonView)>,
    name: Seq<char>,
    value: JsonView,
    back: Seq<(Seq<char>, JsonView)>,
    key: Seq<char>,
    other: JsonView,
)
    ensures
        without_field(JsonView::Object(front + seq![(name, value)] + back), key)
            == JsonView::Object(
            without_field(JsonView::Object(front), key)->Object_0 + (if name == key {
                Seq::empty()
            } else {
                seq![(name, value)]
            }) + without_field(JsonView::Object(back), key)->Object_0,
        ),
        without_field(JsonView::Object(Seq::empty()), key) == JsonView::Object(Seq::empty()),
        !(other is Object) ==> without_field(other, key) == other,
{
    let keep = has_other_key(key);
    let one = seq![(name, value)];
    Seq::filter_distributes_over_add(front + one, back, keep);
    Seq::filter_distributes_over_add(front, one, keep);
    reveal(Seq::filter);
    assert(one.drop_last() =~= Seq::<(Seq<char>, JsonView)>::empty());
    assert(one.drop_last().filter(keep) =~= Seq::<(Seq<char>, JsonView)>::empty());
    assert(one.filter(keep) =~= if name == key {
        Seq::empty()
    } else {
        one
    });
    assert(Seq::<(Seq<char>, JsonView)>::empty().filter(keep) =~= Seq::empty());
}

/// A text under a key is found exactly where the value there is a text.
pub proof fn law_text_is_found(v: JsonView, key: Seq<char>, text: Seq<char>)
    ensures
        text_field(v, key) == Some(text) <==> field(v, key) == Some(JsonView::Text(text)),
        !(v is Object) ==> field(v, key) is None,
{
}

/// A removed key is not found again, and every other key is found as before.
pub proof fn lemma_without_field(v: JsonView, key: Seq<char>, other: Seq<char>)
    ensures
        field(without_field(v, key), key) is None,
        other != key ==> field(without_field(v, key), other) == field(v, other),
{
    if let JsonView::Object(members) = v {
        lemma_members_without(members, key, other);
    }
}

proof fn lemma_members_without(
    members: Seq<(Seq<char>, JsonView)>,
    key: Seq<char>,
    other: Seq<char>,
)
    ensures
        lookup(members_without(members, key), key) is None,
        other != key ==> lookup(members_without(members, key), other) == lookup(members, other),
    decreases members.len(),
{
    let keep = has_other_key(key);
    if members.len() > 0 {
        let rest = members.drop_first();
        lemma_members_without(rest, key, other);
        lemma_filter_first(members, keep);
        let kept = members.filter(keep);
        if keep(members[0]) {
            assert(kept.drop_first() =~= rest.filter(keep));
        }
    } else {
        reveal(Seq::filter);
    }
}

/// Filtering from the front: the first element is kept or not, then the rest follows.
proof fn lemma_filter_first<A>(s: Seq<A>, keep: spec_fn(A) -> bool)
    requires
        s.len() > 0,
    ensures
        s.filter(keep) == if keep(s[0]) {
            seq![s[0]] + s.drop_first().filter(keep)
        } else {
            s.drop_first().filter(keep)
        },
{
    let head = seq![s[0]];
    assert(s =~= head + s.drop_first());
    Seq::filter_distributes_over_add(head, s.drop_first(), keep);
    reveal(Seq::filter);
    assert(head.drop_last() =~= Seq::<A>::empty());
    assert(head.drop_last().filter(keep) =~= Seq::<A>::empty());
    assert(head.filter(keep) =~= if keep(s[0]) { head } else { Seq::empty() });
    assert(s.filter(keep) =~= if keep(s[0]) {
        seq![s[0]] + s.drop_first().filter(keep)
    } else {
        s.drop_first().filter(keep)
    });
}

impl Json {
    /// A text value.
    pub fn text(s: &str) -> (r: Json)
        ensures
            r@ == JsonView::Text(s@),
    {
        Json::Text(s.to_string())
    }

    /// The value under `key`, if this is an object that has one.
    pub fn get(&self, key: &str) -> (r: Option<&Json>)
        ensures
            r is Some <==> field(self@, key@) is Some,
            r matches Some(v) ==> field(self@, key@) == Some(v@),
    {
        match self {
            Json::Object(members) => {
                let ghost all = self@->Object_0;
                let mut i: usize = 0;
                while i < members.len()
                    invariant
                        i <= members.len(),
                        self@ == JsonView::Object(all),
                        all.len() == members.len(),
                        forall|j: int|
                            0 <= j < all.len() ==> #[trigger] all[j] == (
                                members@[j].key@,
                                members@[j].value@,
                            ),
                        forall|j: int| 0 <= j < i ==> (#[trigger] all[j]).0 != key@,
                    decreases members.len() - i,
                {
                    assert(all[i as int] == (members@[i as int].key@, members@[i as int].value@));
                    if same_text(members[i].key.as_str(), key) {
                        proof {
                            lemma_lookup_skip(all, key@, i as int);
                        }
                        return Some(&members[i].value);
                    }
                    i = i + 1;
                }
                proof {
                    lemma_lookup_skip(all, key@, i as int);
                    assert(all.skip(i as int).len() == 0);
                }
                None
            },
            _ => None,
        }
    }

    /// The text under `key`, if this is an object that has a text there.
    pub fn get_text(&self, key: &str) -> (r: Option<&str>)
        ensures
            r is Some <==> text_field(self@, key@) is Some,
            r matches Some(s) ==> text_field(self@, key@) == Some(s@),
    {
        match self.get(key) {
            Some(Json::Text(s)) => Some(s.as_str()),
            _ => None,
        }
    }

    /// This value without the members named `key`.
    pub fn without(self, key: &str) -> (r: Json)
        ensures
            r@ == without_field(self@, key@),
    {
        match self {
            Json::Object(members) => {
                assert(json_view(Json::Object(members))->Object_0 =~= member_views(members@));
                without_members(members, key)
            },
            other => other,
        }
    }

    /// A copy of this value.
    pub fn duplicate(&self) -> (r: Json)
        ensures
            r@ == self@,
        decreases self,
    {
        match self {
            Json::Null => Json::Null,
            Json::Bool(b) => Json::Bool(*b),
            Json::Unsigned(n) => Json::Unsigned(*n),
            Json::Negative(n) => Json::Negative(*n),
            Json::Decimal(s) => Json::Decimal(s.clone()),
            Json::Text(s) => Json::Text(s.clone()),
            Json::Array(items) => {
                let mut copies: Vec<Json> = Vec::new();
                let mut i: usize = 0;
                while i < items.len()
                    invariant
                        i <= items.len(),
                        copies.len() == i,
                        *self == Json::Array(*items),
                        forall|j: int| 0 <= j < i ==> (#[trigger] copies@[j])@ == items@[j]@,
                    decreases items.len() - i,
                {
                    assert(decreases_to!(*self => self->Array_0));
                    assert(decreases_to!(*items => items[i as int]));
                    let copy = items[i].duplicate();
                    copies.push(copy);
                    i = i + 1;
                }
                let r = Json::Array(copies);
                assert(r@->Array_0 =~= self@->Array_0);
                r
            },
            Json::Object(members) => {
                let mut copies: Vec<Member> = Vec::new();
                let mut i: usize = 0;
                while i < members.len()
                    invariant
                        i <= members.len(),
                        copies.len() == i,
                        *self == Json::Object(*members),
                        forall|j: int|
                            0 <= j < i ==> (#[trigger] copies@[j]).value@ == members@[j].value@
                                && copies@[j].key@ == members@[j].key@,
                    decreases members.len() - i,
                {
                    assert(decreases_to!(*self => self->Object_0));
                    assert(decreases_to!(*members => members[i as int]));
                    assert(decreases_to!(members[i as int] => members[i as int].value));
                    let value = members[i].value.duplicate();
                    copies.push(Member { key: members[i].key.clone(), value });
                    i = i + 1;
                }
                let r = Json::Object(copies);
                assert(r@->Object_0 =~= self@->Object_0);
                r
            },
        }
    }

    /// An object with the given members.
    pub fn object(members: Vec<Member>) -> (r: Json)
        ensures
            r@ == JsonView::Object(member_views(members@)),
    {
        let r = Json::Object(members);
        assert(r@->Object_0 =~= member_views(members@));
        r
    }
}

/// The contents of the members of an object.
pub open spec fn member_views(members: Seq<Member>) -> Seq<(Seq<char>, JsonView)> {
    members.map_values(|m: Member| (m.key@, m.value@))
}

fn without_members(members: Vec<Member>, key: &str) -> (r: Json)
    ensures
        r@ == JsonView::Object(members_without(member_views(members@), key@)),
{
    let ghost all = member_views(members@);
    let ghost keep = has_other_key(key@);
    let mut kept: Vec<Member> = Vec::new();
    let mut rest = members;
    proof {
        reveal(Seq::filter);
        assert(all.take(0) =~= Seq::empty());
        assert(rest@ =~= members@.skip(0));
    }
    let mut i: usize = 0;
    let total: usize = rest.len();
    while i < total
        invariant
            i <= total,
            total == members@.len(),
            all == member_views(members@),
            keep == has_other_key(key@),
            rest@ == members@.skip(i as int),
            member_views(kept@) == all.take(i as int).filter(keep),
        decreases total - i,
    {
        let member = rest.remove(0);
        assert(member == members@[i as int]);
        assert(rest@ =~= members@.skip(i + 1));
        proof {
            reveal(Seq::filter);
            assert(all.take(i + 1).drop_last() =~= all.take(i as int));
            assert(all.take(i + 1).last() == (member.key@, member.value@));
        }
        if !same_text(member.key.as_str(), key) {
            kept.push(member);
            assert(member_views(kept@) =~= all.take(i as int).filter(keep).push(
                (member.key@, member.value@),
            ));
        }
        i = i + 1;
    }
    assert(all.take(total as int) =~= all);
    Json::object(kept)
}

/// A member of an object.
pub fn member(key: &str, value: Json) -> (r: Member)
    ensures
        r.key@ == key@,
        r.value == value,
{
    Member { key: key.to_string(), value }
}

} // verus!

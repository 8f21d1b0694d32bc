use vstd::prelude::*;

verus! {

/// A JSON number as the text gave it: a non-negative integer, a negative
/// integer, or a binary64 value kept as its IEEE-754 bit pattern.
#[derive(Clone, Copy, Debug, PartialEq, Eq, Structural)]
pub enum Num {
    Unsigned(u64),
    Negative(i64),
    Real(u64),
}

/// A parsed JSON document. An object keeps its members in order; where a
/// name occurs twice, the later member is the one that counts.
#[derive(Debug)]
pub enum Json {
    Null,
    Bool(bool),
    Number(Num),
    Str(String),
    Array(Vec<Json>),
    Object(Vec<(String, Json)>),
}

/// The value of the last member named `key`, if any.
pub open spec fn lookup(members: Seq<(String, Json)>, key: Seq<char>) -> Option<Json>
    decreases members.len(),
{
    if members.len() == 0 {
        None
    } else if members.last().0@ == key {
        Some(members.last().1)
    } else {
        lookup(members.drop_last(), key)
    }
}

/// The member `key` of an object; nothing for any other value.
pub open spec fn field(j: Json, key: Seq<char>) -> Option<Json> {
    match j {
        Json::Object(members) => lookup(members@, key),
        _ => None,
    }
}

/// Position of the last member named `key`.
pub open spec fn last_position(members: Seq<(String, Json)>, key: Seq<char>) -> int
    decreases members.len(),
{
    if members.len() == 0 {
        -1
    } else if members.last().0@ == key {
        members.len() - 1
    } else {
        last_position(members.drop_last(), key)
    }
}

proof fn lemma_last_position(members: Seq<(String, Json)>, key: Seq<char>)
    ensures
        -1 <= last_position(members, key) < members.len(),
        last_position(members, key) == -1 <==> lookup(members, key) is None,
        last_position(members, key) >= 0 ==> lookup(members, key) == Some(
            members[last_position(members, key)].1,
        ),
    decreases members.len(),
{
    if members.len() > 0 && members.last().0@ != key {
        lemma_last_position(members.drop_last(), key);
    }
}

/// Finds the position of the last member named `key`.
pub fn find_member(members: &Vec<(String, Json)>, key: &String) -> (r: Option<usize>)
    ensures
        match r {
            None => lookup(members@, key@) is None,
            Some(i) => i < members@.len() && i == last_position(members@, key@) && lookup(
                members@,
                key@,
            ) == Some(members@[i as int].1),
        },
{
    let mut n: usize = members.len();
    assert(members@.subrange(0, n as int) =~= members@);
    while n > 0
        invariant
            n <= members@.len(),
            last_position(members@, key@) == last_position(members@.subrange(0, n as int), key@),
            lookup(members@, key@) == lookup(members@.subrange(0, n as int), key@),
        decreases n,
    {
        let sub = Ghost(members@.subrange(0, n as int));
        assert(sub@.drop_last() =~= members@.subrange(0, n - 1));
        if members[n - 1].0 == *key {
            proof {
                lemma_last_position(members@, key@);
            }
            return Some(n - 1);
        }
        n = n - 1;
    }
    proof {
        lemma_last_position(members@, key@);
        assert(members@.subrange(0, 0).len() == 0);
    }
    None
}

/// Looks up the member `key` of `members`.
pub fn get_member<'a>(members: &'a Vec<(String, Json)>, key: &String) -> (r: Option<&'a Json>)
    ensures
        match r {
            None => lookup(members@, key@) is None,
            Some(v) => lookup(members@, key@) == Some(*v),
        },
{
    match find_member(members, key) {
        None => None,
        Some(i) => Some(&members[i].1),
    }
}

} // verus!

//! A JSON document tree, the wire form that the model encodes to and decodes from.
use vstd::prelude::*;

verus! {

/// A JSON number, held as the wire value it was read from or will be written as.
#[derive(Debug, Clone, Copy, PartialEq, Eq)]
pub enum Number {
    /// A non-negative integer.
    PosInt(u64),
    /// A negative integer.
    NegInt(i64),
    /// A single-precision float, held as its IEEE-754 bit pattern.
    Single(u32),
    /// A double-precision float, held as its IEEE-754 bit pattern.
    Double(u64),
}

/// A JSON value. Object members keep the order in which they were written.
#[derive(Debug)]
pub enum Json {
    Null,
    Bool(bool),
    Number(Number),
    String(String),
    Array(Vec<Json>),
    Object(Vec<(String, Json)>),
}

/// The value of the first member of `fs` named `k`.
pub open spec fn member(fs: Seq<(String, Json)>, k: Seq<char>) -> Option<Json>
    decreases fs.len(),
{
    if fs.len() == 0 {
        None
    } else if fs[0].0@ == k {
        Some(fs[0].1)
    } else {
        member(fs.drop_first(), k)
    }
}

/// The names of the members of `fs`.
pub open spec fn keys_of(fs: Seq<(String, Json)>) -> Set<Seq<char>> {
    Set::new(|k: Seq<char>| exists|i: int| 0 <= i < fs.len() && fs[i].0@ == k)
}

/// Taking out one member leaves the first member of every other name where it was.
pub proof fn lemma_member_remove(fs: Seq<(String, Json)>, i: int, k: Seq<char>)
    requires
        0 <= i < fs.len(),
        fs[i].0@ != k,
    ensures
        member(fs.remove(i), k) == member(fs, k),
    decreases i,
{
    if i == 0 {
        assert(fs.remove(0) =~= fs.drop_first());
    } else {
        lemma_member_remove(fs.drop_first(), i - 1, k);
        assert(fs.remove(i).drop_first() =~= fs.drop_first().remove(i - 1));
    }
}

/// Takes the first member named `k` out of `fs`; the members of other names
/// are left as they were.
pub fn take_member(fs: &mut Vec<(String, Json)>, k: &str) -> (r: Option<Json>)
    ensures
        r == member(old(fs)@, k@),
        forall|k2: Seq<char>| k2 != k@ ==> member(final(fs)@, k2) == member(old(fs)@, k2),
{
    let n = fs.len();
    let key = k.to_owned();
    let mut i: usize = 0;
    assert(fs@.subrange(0, n as int) =~= fs@);
    while i < n
        invariant
            n == fs.len(),
            key@ == k@,
            fs@ == old(fs)@,
            i <= n,
            member(fs@, k@) == member(fs@.subrange(i as int, n as int), k@),
        decreases n - i,
    {
        assert(fs@.subrange(i as int, n as int).drop_first() =~= fs@.subrange(i + 1, n as int));
        if fs[i].0 == key {
            let ghost before = fs@;
            let (_, v) = fs.remove(i);
            proof {
                assert forall|k2: Seq<char>| k2 != k@ implies member(fs@, k2) == member(before, k2) by {
                    lemma_member_remove(before, i as int, k2);
                }
            }
            return Some(v);
        }
        i = i + 1;
    }
    assert(fs@.subrange(n as int, n as int).len() == 0);
    None
}


/// Appending a member leaves every name that was already there as it was.
pub proof fn lemma_member_push(fs: Seq<(String, Json)>, e: (String, Json), k: Seq<char>)
    ensures
        member(fs.push(e), k) == (if member(fs, k) is Some {
            member(fs, k)
        } else if e.0@ == k {
            Some(e.1)
        } else {
            None
        }),
    decreases fs.len(),
{
    if fs.len() > 0 {
        assert(fs.push(e).drop_first() =~= fs.drop_first().push(e));
        lemma_member_push(fs.drop_first(), e, k);
    } else {
        assert(fs.push(e).drop_first() =~= fs);
    }
}

/// A name that is not among the members has no value.
pub proof fn lemma_member_absent(fs: Seq<(String, Json)>, k: Seq<char>)
    requires
        !keys_of(fs).contains(k),
    ensures
        member(fs, k) is None,
    decreases fs.len(),
{
    if fs.len() > 0 {
        assert(fs[0].0@ != k);
        assert forall|i: int| 0 <= i < fs.drop_first().len() implies fs.drop_first()[i].0@ != k by {
            assert(fs.drop_first()[i] == fs[i + 1]);
        }
        lemma_member_absent(fs.drop_first(), k);
    }
}

/// Appends a member under a name that `fs` does not hold yet.
pub fn push_member(fs: &mut Vec<(String, Json)>, k: &str, v: Json)
    requires
        !keys_of(old(fs)@).contains(k@),
    ensures
        keys_of(final(fs)@) == keys_of(old(fs)@).insert(k@),
        member(final(fs)@, k@) == Some(v),
        forall|k2: Seq<char>| k2 != k@ ==> member(final(fs)@, k2) == member(old(fs)@, k2),
{
    let ghost before = fs@;
    let name = k.to_owned();
    fs.push((name, v));
    proof {
        lemma_member_absent(before, k@);
        assert forall|k2: Seq<char>| #[trigger] member(fs@, k2) == (if k2 == k@ {
            Some(v)
        } else {
            member(before, k2)
        }) by {
            lemma_member_push(before, (name, v), k2);
            if k2 == k@ {
                lemma_member_absent(before, k@);
            }
        }
        assert(keys_of(fs@) =~= keys_of(before).insert(k@)) by {
            assert forall|k2: Seq<char>| keys_of(fs@).contains(k2) implies keys_of(before).insert(
                k@,
            ).contains(k2) by {
                let i = choose|i: int| 0 <= i < fs@.len() && fs@[i].0@ == k2;
                if i < before.len() {
                    assert(fs@[i] == before[i]);
                }
            }
            assert forall|k2: Seq<char>| keys_of(before).insert(k@).contains(k2) implies keys_of(
                fs@,
            ).contains(k2) by {
                if k2 == k@ {
                    assert(fs@[before.len() as int].0@ == k2);
                } else {
                    let i = choose|i: int| 0 <= i < before.len() && before[i].0@ == k2;
                    assert(fs@[i] == before[i]);
                }
            }
        }
    }
}

} // verus!

//! Account addresses and lists of them.

use vstd::prelude::*;

verus! {

/// A 32-byte account address.
#[derive(Clone, Copy, Debug, Eq, Hash)]
pub struct Pubkey {
    pub bytes: [u8; 32],
}

impl PartialEq for Pubkey {
    fn eq(&self, other: &Pubkey) -> (r: bool) {
        let mut i: usize = 0;
        while i < 32
            invariant
                i <= 32,
                forall|j: int| 0 <= j < i ==> self.bytes[j] == other.bytes[j],
            decreases 32 - i,
        {
            if self.bytes[i] != other.bytes[i] {
                return false;
            }
            i += 1;
        }
        assert(self.bytes =~= other.bytes);
        true
    }
}

impl vstd::std_specs::cmp::PartialEqSpecImpl for Pubkey {
    open spec fn obeys_eq_spec() -> bool {
        true
    }

    open spec fn eq_spec(&self, other: &Pubkey) -> bool {
        *self == *other
    }
}

impl Pubkey {
    /// The address whose bytes are `bytes`.
    pub fn new_from_array(bytes: [u8; 32]) -> (r: Pubkey)
        ensures
            r.bytes == bytes,
    {
        Pubkey { bytes }
    }

    /// The bytes of the address.
    pub fn to_bytes(&self) -> (r: [u8; 32])
        ensures
            r == self.bytes,
    {
        self.bytes
    }
}

/// The address whose bytes are `bytes`, for 32 bytes.
pub open spec fn key_of(bytes: Seq<u8>) -> Pubkey {
    choose|key: Pubkey| key.bytes@ == bytes
}

/// An address is the address of its bytes.
pub proof fn lemma_key_of(key: Pubkey)
    ensures
        key_of(key.bytes@) == key,
{
    let other = key_of(key.bytes@);
    assert(other.bytes@ == key.bytes@);
    assert(other.bytes =~= key.bytes);
}

/// The address that the 32 bytes of `data` from `offset` on hold.
pub fn key_at(data: &[u8], offset: usize) -> (key: Pubkey)
    requires
        offset + 32 <= data@.len(),
    ensures
        key.bytes@ == data@.subrange(offset as int, offset + 32),
        key == key_of(data@.subrange(offset as int, offset + 32)),
{
    let mut bytes = [0u8; 32];
    let mut i: usize = 0;
    while i < 32
        invariant
            i <= 32,
            offset + 32 <= data.len(),
            forall|j: int| 0 <= j < i ==> bytes@[j] == data@[offset + j],
        decreases 32 - i,
    {
        bytes[i] = data[offset + i];
        i += 1;
    }
    assert(bytes@ =~= data@.subrange(offset as int, offset + 32));
    let key = Pubkey { bytes };
    proof {
        lemma_key_of(key);
    }
    key
}

/// No address occurs twice in `keys`.
pub open spec fn distinct(keys: Seq<Pubkey>) -> bool {
    forall|i: int, j: int| 0 <= i < j < keys.len() ==> keys[i] != keys[j]
}

/// `i` is the first position of `key` in `keys`.
pub open spec fn is_first_index(keys: Seq<Pubkey>, key: Pubkey, i: int) -> bool {
    &&& 0 <= i < keys.len()
    &&& keys[i] == key
    &&& forall|j: int| 0 <= j < i ==> keys[j] != key
}

/// The first position of `key` in `keys`, where `keys` holds it.
pub open spec fn first_index(keys: Seq<Pubkey>, key: Pubkey) -> int {
    choose|i: int| is_first_index(keys, key, i)
}

/// `keys` without the first occurrence of `key`.
pub open spec fn without_first(keys: Seq<Pubkey>, key: Pubkey) -> Seq<Pubkey> {
    if keys.contains(key) {
        keys.remove(first_index(keys, key))
    } else {
        keys
    }
}

/// `keys` without any occurrence of `key`.
pub open spec fn without_all(keys: Seq<Pubkey>, key: Pubkey) -> Seq<Pubkey> {
    keys.filter(|k: Pubkey| k != key)
}

/// A list that holds `key` has a first position of it.
pub proof fn lemma_first_index(keys: Seq<Pubkey>, key: Pubkey)
    requires
        keys.contains(key),
    ensures
        is_first_index(keys, key, first_index(keys, key)),
    decreases keys.len(),
{
    let i = choose|i: int| 0 <= i < keys.len() && keys[i] == key;
    if forall|j: int| 0 <= j < i ==> keys[j] != key {
        assert(is_first_index(keys, key, i));
    } else {
        let j = choose|j: int| 0 <= j < i && keys[j] == key;
        let front = keys.take(i);
        assert(front[j] == key);
        lemma_first_index(front, key);
        let f = first_index(front, key);
        assert(keys[f] == front[f]);
        assert forall|k: int| 0 <= k < f implies keys[k] != key by {
            assert(keys[k] == front[k]);
        }
        assert(is_first_index(keys, key, f));
    }
}

/// The first position of `key` in `keys`, where there is one.
pub fn position(keys: &Vec<Pubkey>, key: &Pubkey) -> (r: Option<usize>)
    ensures
        match r {
            Some(i) => keys@.contains(*key) && i == first_index(keys@, *key) && is_first_index(
                keys@,
                *key,
                i as int,
            ),
            None => !keys@.contains(*key),
        },
{
    let mut i: usize = 0;
    while i < keys.len()
        invariant
            i <= keys.len(),
            forall|j: int| 0 <= j < i ==> keys[j] != *key,
        decreases keys.len() - i,
    {
        if keys[i] == *key {
            proof {
                assert(is_first_index(keys@, *key, i as int));
                let f = first_index(keys@, *key);
                assert(is_first_index(keys@, *key, f));
            }
            return Some(i);
        }
        i += 1;
    }
    None
}

/// Whether `key` occurs in `keys`.
pub fn contains(keys: &Vec<Pubkey>, key: &Pubkey) -> (r: bool)
    ensures
        r == keys@.contains(*key),
{
    position(keys, key).is_some()
}

/// Removing the one occurrence of a key from a list without repetitions
/// leaves a list without repetitions, one shorter, that no longer holds
/// the key and holds every other key that it held.
pub proof fn lemma_without_first(keys: Seq<Pubkey>, key: Pubkey)
    requires
        distinct(keys),
        keys.contains(key),
    ensures
        distinct(without_first(keys, key)),
        without_first(keys, key).len() == keys.len() - 1,
        !without_first(keys, key).contains(key),
        forall|k: Pubkey| k != key ==> (without_first(keys, key).contains(k) <==> keys.contains(k)),
{
    lemma_first_index(keys, key);
    let i = first_index(keys, key);
    let rest = keys.remove(i);
    assert forall|a: int| 0 <= a < rest.len() implies rest[a] == keys[if a < i { a } else { a + 1 }] by {}
    assert forall|k: Pubkey| k != key implies (rest.contains(k) <==> keys.contains(k)) by {
        if keys.contains(k) {
            let a = choose|a: int| 0 <= a < keys.len() && keys[a] == k;
            let b = if a < i { a } else { a - 1 };
            assert(rest[b] == k);
        }
        if rest.contains(k) {
            let b = choose|b: int| 0 <= b < rest.len() && rest[b] == k;
            assert(keys[if b < i { b } else { b + 1 }] == k);
        }
    }
    if rest.contains(key) {
        let b = choose|b: int| 0 <= b < rest.len() && rest[b] == key;
        assert(keys[if b < i { b } else { b + 1 }] == key);
    }
}

/// Removing every occurrence of a key, element by element.
pub proof fn lemma_without_all_push(keys: Seq<Pubkey>, key: Pubkey, last: Pubkey)
    ensures
        without_all(keys.push(last), key) == if last != key {
            without_all(keys, key).push(last)
        } else {
            without_all(keys, key)
        },
        without_all(Seq::<Pubkey>::empty(), key) == Seq::<Pubkey>::empty(),
        !without_all(keys, key).contains(key),
    decreases keys.len(),
{
    reveal(Seq::filter);
    assert(keys.push(last).drop_last() == keys);
    if keys.len() > 0 {
        lemma_without_all_push(keys.drop_last(), key, keys.last());
        assert(keys.drop_last().push(keys.last()) == keys);
    }
    let rest = without_all(keys, key);
    if rest.contains(key) {
        let a = choose|a: int| 0 <= a < rest.len() && rest[a] == key;
        Seq::lemma_filter_pred(keys, |k: Pubkey| k != key, a);
    }
}

/// In a list without repetitions, removing every occurrence of a key is
/// removing its first.
pub proof fn lemma_without_all(keys: Seq<Pubkey>, key: Pubkey)
    requires
        distinct(keys),
    ensures
        without_all(keys, key) == without_first(keys, key),
    decreases keys.len(),
{
    let pred = |k: Pubkey| k != key;
    reveal(Seq::filter);
    if keys.len() == 0 {
        assert(!keys.contains(key));
    } else {
        let front = keys.drop_last();
        let last = keys.last();
        assert(distinct(front));
        lemma_without_all(front, key);
        assert(front.push(last) == keys);
        if last == key {
            assert(!front.contains(key)) by {
                if front.contains(key) {
                    let a = choose|a: int| 0 <= a < front.len() && front[a] == key;
                    assert(keys[a] == keys[keys.len() - 1]);
                }
            }
            assert(keys.contains(key)) by {
                assert(keys[keys.len() - 1] == key);
            }
            assert(is_first_index(keys, key, keys.len() - 1));
            lemma_first_index(keys, key);
            assert(first_index(keys, key) == keys.len() - 1);
            assert(keys.remove(keys.len() - 1) == front);
            assert(without_first(front, key) == front);
        } else {
            if front.contains(key) {
                lemma_first_index(front, key);
                let f = first_index(front, key);
                assert(keys.contains(key)) by {
                    assert(keys[f] == key);
                }
                assert(is_first_index(keys, key, f));
                lemma_first_index(keys, key);
                assert(first_index(keys, key) == f);
                assert(keys.remove(f) == front.remove(f).push(last));
            } else {
                assert(!keys.contains(key)) by {
                    if keys.contains(key) {
                        let a = choose|a: int| 0 <= a < keys.len() && keys[a] == key;
                        assert(front[a] == key);
                    }
                }
            }
        }
    }
}

} // verus!

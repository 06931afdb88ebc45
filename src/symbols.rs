use vstd::prelude::*;
use vstd::utf8::encode_utf8;

verus! {

/// The size in bytes of an address that a linker symbol resolves to.
pub const ETHEREUM_ADDRESS_SIZE: usize = 20;

/// The size in bytes of an EraVM word.
pub const ERAVM_WORD_SIZE: usize = 32;

/// The bytes by which the linker receives a symbol name: its UTF-8 encoding
/// followed by a terminating zero.
pub open spec fn key_bytes(name: Seq<char>) -> Seq<u8> {
    encode_utf8(name).push(0u8)
}

/// The key array that the linker receives for `entries`, one key per entry.
pub open spec fn wire_key_list(entries: Seq<(Seq<char>, [u8; 20])>) -> Seq<Seq<u8>> {
    entries.map_values(|e: (Seq<char>, [u8; 20])| key_bytes(e.0))
}

/// The value array that the linker receives for `entries`: their addresses
/// laid end to end, in the order of the entries.
pub open spec fn wire_value_bytes(entries: Seq<(Seq<char>, [u8; 20])>) -> Seq<u8>
    decreases entries.len(),
{
    if entries.len() == 0 {
        Seq::empty()
    } else {
        wire_value_bytes(entries.drop_last()) + entries.last().1@
    }
}

/// Whether no two entries share a name.
pub open spec fn names_unique(entries: Seq<(Seq<char>, [u8; 20])>) -> bool {
    forall|i: int, j: int|
        0 <= i < entries.len() && 0 <= j < entries.len() && i != j ==> entries[i].0 != entries[j].0
}

/// The index of the entry named `name`, if there is one.
pub open spec fn index_of(entries: Seq<(Seq<char>, [u8; 20])>, name: Seq<char>) -> Option<int> {
    if exists|i: int| 0 <= i < entries.len() && entries[i].0 == name {
        Some(choose|i: int| 0 <= i < entries.len() && entries[i].0 == name)
    } else {
        None
    }
}

/// The address that `entries` bind `name` to, if any.
pub open spec fn lookup(entries: Seq<(Seq<char>, [u8; 20])>, name: Seq<char>) -> Option<[u8; 20]> {
    match index_of(entries, name) {
        Some(i) => Some(entries[i].1),
        None => None,
    }
}

/// The entries after `name` has been bound to `address`: an entry of that
/// name keeps its place and takes the new address, else a new entry comes
/// last.
pub open spec fn inserted(
    entries: Seq<(Seq<char>, [u8; 20])>,
    name: Seq<char>,
    address: [u8; 20],
) -> Seq<(Seq<char>, [u8; 20])> {
    match index_of(entries, name) {
        Some(i) => entries.update(i, (name, address)),
        None => entries.push((name, address)),
    }
}

/// The bytes of `s` followed by a terminating zero, as the native runtime
/// takes a name.
pub fn null_terminated(s: &str) -> (r: Vec<u8>)
    ensures
        r@ == key_bytes(s@),
{
    let bytes: &[u8] = s.as_bytes();
    let mut key: Vec<u8> = Vec::new();
    let mut j: usize = 0;
    while j < bytes.len()
        invariant
            j <= bytes@.len(),
            key@ == bytes@.take(j as int),
        decreases bytes@.len() - j,
    {
        key.push(bytes[j]);
        assert(bytes@.take(j + 1) =~= bytes@.take(j as int).push(bytes@[j as int]));
        j = j + 1;
    }
    assert(bytes@.take(j as int) =~= bytes@);
    key.push(0u8);
    key
}

/// A table of linker symbols: each name is bound to one address.
///
/// Every name and its address are held as one entry, so the key and value
/// arrays handed to the linker always have the same length and agree index by
/// index. Entries stay in the order in which their names were first bound.
#[derive(Debug)]
pub struct LinkerSymbols {
    entries: Vec<(String, [u8; 20])>,
}

impl View for LinkerSymbols {
    type V = Seq<(Seq<char>, [u8; 20])>;

    closed spec fn view(&self) -> Seq<(Seq<char>, [u8; 20])> {
        self.entries@.map_values(|e: (String, [u8; 20])| (e.0@, e.1))
    }
}

impl LinkerSymbols {
    #[verifier::type_invariant]
    closed spec fn unique(&self) -> bool {
        names_unique(self@)
    }

    /// An empty table.
    pub fn new() -> (r: Self)
        ensures
            r@ == Seq::<(Seq<char>, [u8; 20])>::empty(),
            names_unique(r@),
    {
        let r = LinkerSymbols { entries: Vec::new() };
        assert(r@ =~= Seq::<(Seq<char>, [u8; 20])>::empty());
        r
    }

    /// The number of symbols.
    pub fn len(&self) -> (r: usize)
        ensures
            r == self@.len(),
    {
        self.entries.len()
    }

    /// Whether the table holds no symbol.
    pub fn is_empty(&self) -> (r: bool)
        ensures
            r == (self@.len() == 0),
    {
        self.entries.len() == 0
    }

    /// The position of the entry named `name`.
    pub fn position(&self, name: &String) -> (r: Option<usize>)
        ensures
            r is None <==> index_of(self@, name@) is None,
            r matches Some(i) ==> index_of(self@, name@) == Some(i as int),
    {
        proof {
            use_type_invariant(self);
        }
        let mut i: usize = 0;
        while i < self.entries.len()
            invariant
                i <= self.entries.len(),
                names_unique(self@),
                forall|k: int| 0 <= k < i ==> self@[k].0 != name@,
            decreases self.entries.len() - i,
        {
            if self.entries[i].0 == *name {
                proof {
                    assert(self@[i as int].0 == name@);
                    let j = choose|j: int| 0 <= j < self@.len() && self@[j].0 == name@;
                }
                return Some(i);
            }
            i = i + 1;
        }
        None
    }

    /// The address bound to `name`, if any.
    pub fn get(&self, name: &String) -> (r: Option<[u8; 20]>)
        ensures
            r == lookup(self@, name@),
    {
        match self.position(name) {
            Some(i) => Some(self.entries[i].1),
            None => None,
        }
    }

    /// Binds `name` to `address`, replacing an earlier address of that name.
    pub fn insert(&mut self, name: String, address: [u8; 20])
        ensures
            final(self)@ == inserted(old(self)@, name@, address),
            names_unique(old(self)@),
            names_unique(final(self)@),
    {
        proof {
            use_type_invariant(&*self);
        }
        let ghost before = self@;
        let ghost key = name@;
        let found = self.position(&name);
        let mut entries: Vec<(String, [u8; 20])> = Vec::new();
        std::mem::swap(&mut entries, &mut self.entries);
        match found {
            Some(i) => {
                entries.set(i, (name, address));
            },
            None => {
                entries.push((name, address));
            },
        }
        proof {
            let after = entries@.map_values(|e: (String, [u8; 20])| (e.0@, e.1));
            match found {
                Some(i) => {
                    assert(after =~= before.update(i as int, (key, address)));
                },
                None => {
                    assert(after =~= before.push((key, address)));
                },
            }
        }
        self.entries = entries;
    }

    /// A table of the given pairs; of two pairs with one name the later
    /// address wins.
    pub fn from_pairs(pairs: &[(String, [u8; 20])]) -> (r: Self)
        ensures
            r@ == inserted_all(Seq::empty(), pairs@.map_values(|p: (String, [u8; 20])| (p.0@, p.1))),
            names_unique(r@),
    {
        let ghost given = pairs@.map_values(|p: (String, [u8; 20])| (p.0@, p.1));
        let mut r = LinkerSymbols::new();
        let mut i: usize = 0;
        while i < pairs.len()
            invariant
                i <= pairs@.len(),
                given.len() == pairs@.len(),
                given == pairs@.map_values(|p: (String, [u8; 20])| (p.0@, p.1)),
                r@ == inserted_all(Seq::empty(), given.take(i as int)),
                names_unique(r@),
            decreases pairs@.len() - i,
        {
            let name: String = pairs[i].0.clone();
            let address: [u8; 20] = pairs[i].1;
            r.insert(name, address);
            assert(given.take(i + 1).drop_last() =~= given.take(i as int));
            i = i + 1;
        }
        assert(given.take(i as int) =~= given);
        r
    }

    /// The keys that the linker receives, one per entry and in entry order.
    pub fn wire_keys(&self) -> (r: Vec<Vec<u8>>)
        ensures
            r@.len() == self@.len(),
            forall|i: int| 0 <= i < r@.len() ==> r@[i]@ == wire_key_list(self@)[i],
    {
        let mut r: Vec<Vec<u8>> = Vec::new();
        let mut i: usize = 0;
        while i < self.entries.len()
            invariant
                i <= self.entries.len(),
                r@.len() == i,
                forall|k: int| 0 <= k < i ==> r@[k]@ == key_bytes(self@[k].0),
            decreases self.entries.len() - i,
        {
            let key = null_terminated(self.entries[i].0.as_str());
            r.push(key);
            i = i + 1;
        }
        r
    }

    /// The values that the linker receives: each entry's address, laid end to
    /// end in entry order.
    pub fn wire_values(&self) -> (r: Vec<u8>)
        ensures
            r@ == wire_value_bytes(self@),
    {
        let mut r: Vec<u8> = Vec::new();
        let mut i: usize = 0;
        while i < self.entries.len()
            invariant
                i <= self.entries.len(),
                r@ == wire_value_bytes(self@.take(i as int)),
            decreases self.entries.len() - i,
        {
            let address: [u8; 20] = self.entries[i].1;
            let ghost start = r@;
            let mut j: usize = 0;
            while j < 20
                invariant
                    j <= 20,
                    r@ == start + address@.take(j as int),
                decreases 20 - j,
            {
                r.push(address[j]);
                assert(address@.take(j + 1) =~= address@.take(j as int).push(address@[j as int]));
                j = j + 1;
            }
            assert(address@.take(20) =~= address@);
            assert(self@.take(i + 1).drop_last() =~= self@.take(i as int));
            i = i + 1;
        }
        assert(self@.take(i as int) =~= self@);
        r
    }
}

/// The entries after each pair of `pairs` has been bound in turn.
pub open spec fn inserted_all(
    entries: Seq<(Seq<char>, [u8; 20])>,
    pairs: Seq<(Seq<char>, [u8; 20])>,
) -> Seq<(Seq<char>, [u8; 20])>
    decreases pairs.len(),
{
    if pairs.len() == 0 {
        entries
    } else {
        inserted(inserted_all(entries, pairs.drop_last()), pairs.last().0, pairs.last().1)
    }
}

/// Binding a name in a table of unique names keeps the names unique, makes
/// the name resolve to the new address, and leaves every other name resolving
/// as before.
pub proof fn lemma_lookup_after_insert(
    entries: Seq<(Seq<char>, [u8; 20])>,
    name: Seq<char>,
    address: [u8; 20],
    other: Seq<char>,
)
    requires
        names_unique(entries),
    ensures
        names_unique(inserted(entries, name, address)),
        lookup(inserted(entries, name, address), name) == Some(address),
        other != name ==> lookup(inserted(entries, name, address), other) == lookup(entries, other),
{
    let after = inserted(entries, name, address);
    match index_of(entries, name) {
        Some(i) => {
            assert(entries[i].0 == name);
            assert(after[i].0 == name);
        },
        None => {
            assert(after[entries.len() as int].0 == name);
        },
    }
    assert(names_unique(after));
    let j = choose|j: int| 0 <= j < after.len() && after[j].0 == name;
    assert(after[j].0 == name);
    if other != name {
        if exists|k: int| 0 <= k < entries.len() && entries[k].0 == other {
            let k = choose|k: int| 0 <= k < entries.len() && entries[k].0 == other;
            assert(after[k].0 == other);
            let k2 = choose|k2: int| 0 <= k2 < after.len() && after[k2].0 == other;
            assert(after[k2].0 == other);
        } else {
            assert forall|k: int| 0 <= k < after.len() implies after[k].0 != other by {
                if k < entries.len() {
                    assert(entries[k].0 != other);
                }
            }
        }
    }
}

/// The key and value arrays handed to the linker agree index by index: there
/// is one key per entry and one address-sized slot of values per entry, and
/// the key at index `i` and the address at slot `i` come from the same entry.
pub proof fn lemma_wire_arrays_agree(entries: Seq<(Seq<char>, [u8; 20])>)
    ensures
        wire_key_list(entries).len() == entries.len(),
        wire_value_bytes(entries).len() == 20 * entries.len(),
        forall|i: int|
            0 <= i < entries.len() ==> #[trigger] wire_key_list(entries)[i] == key_bytes(
                entries[i].0,
            ),
        forall|i: int, j: int|
            0 <= i < entries.len() && 0 <= j < 20 ==> #[trigger] wire_value_bytes(entries)[20 * i
                + j] == entries[i].1@[j],
    decreases entries.len(),
{
    if entries.len() > 0 {
        let front = entries.drop_last();
        lemma_wire_arrays_agree(front);
        let last = entries.last();
        assert(last.1@.len() == 20);
        assert forall|i: int, j: int| 0 <= i < entries.len() && 0 <= j < 20 implies #[trigger] wire_value_bytes(entries)[20 * i
            + j] == entries[i].1@[j] by {
            if i < front.len() {
                assert(wire_value_bytes(front)[20 * i + j] == front[i].1@[j]);
            } else {
                assert(i == front.len());
            }
        }
    }
}

} // verus!

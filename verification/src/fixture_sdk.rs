//! A stand-in for the part of the Soroban SDK surface that the lint fixtures
//! exercise. Every host call is inert: reads find nothing, writes and
//! authorizations do nothing, hashes are all zeros.

use vstd::prelude::*;

verus! {

/// The contract environment handle.
pub struct Env;

impl Clone for Env {
    fn clone(&self) -> (res: Self)
        ensures
            res == *self,
    {
        Env
    }
}

impl Env {
    /// The storage accessors.
    pub fn storage(&self) -> (res: Storage)
        ensures
            res == Storage,
    {
        Storage
    }

    /// The ledger context.
    pub fn ledger(&self) -> (res: Ledger)
        ensures
            res == Ledger,
    {
        Ledger
    }

    /// The raw host interface.
    pub fn host(&self) -> (res: Host)
        ensures
            res == Host,
    {
        Host
    }

    /// The cryptographic primitives.
    pub fn crypto(&self) -> (res: Crypto)
        ensures
            res == Crypto,
    {
        Crypto
    }

    /// The pseudo-random number generator.
    pub fn prng(&self) -> (res: Prng)
        ensures
            res == Prng,
    {
        Prng
    }

    /// The event publisher.
    pub fn events(&self) -> (res: Events)
        ensures
            res == Events,
    {
        Events
    }

    /// The contract deployer.
    pub fn deployer(&self) -> (res: Deployer)
        ensures
            res == Deployer,
    {
        Deployer
    }

    /// The address of the running contract.
    pub fn current_contract_address(&self) -> (res: Address)
        ensures
            res == Address,
    {
        Address
    }

    /// Calls `func` on `contract`; the stand-in returns `T`'s default.
    pub fn invoke_contract<T: Default>(&self, contract: &Address, func: &Symbol, args: ()) -> (res: T)
        ensures
            call_ensures(T::default, (), res),
    {
        T::default()
    }

    /// Calls `func` on `contract`, reporting failure; the stand-in succeeds with `T`'s default.
    pub fn try_invoke_contract<T: Default>(&self, contract: &Address, func: &Symbol, args: ()) -> (res: Result<T, ()>)
        ensures
            res matches Ok(v) && call_ensures(T::default, (), v),
    {
        Ok(T::default())
    }
}

/// An account or contract address.
#[derive(PartialEq, Eq, Structural)]
pub struct Address;

impl Clone for Address {
    fn clone(&self) -> (res: Self)
        ensures
            res == *self,
    {
        Address
    }
}

impl Address {
    /// Requires this address to have authorized the invocation.
    pub fn require_auth(&self) {
    }

    /// Requires this address to have authorized the invocation with `args`.
    pub fn require_auth_for_args(&self, args: &[u32]) {
    }
}

/// A contract value holding an address.
pub struct MyStruct {
    pub addr: Address,
}

/// The storage accessors of an environment.
#[derive(PartialEq, Eq, Structural)]
pub struct Storage;

impl Storage {
    /// Instance storage, shared with the contract instance.
    pub fn instance(&self) -> (res: Instance)
        ensures
            res == Instance,
    {
        Instance
    }

    /// Persistent storage.
    pub fn persistent(&self) -> (res: Persistent)
        ensures
            res == Persistent,
    {
        Persistent
    }

    /// Temporary storage.
    pub fn temporary(&self) -> (res: Temporary)
        ensures
            res == Temporary,
    {
        Temporary
    }
}

/// Instance storage.
#[derive(PartialEq, Eq, Structural)]
pub struct Instance;

impl Instance {
    /// Reads a key; the stand-in holds nothing.
    pub fn get<K, V>(&self, k: &K) -> (res: Option<V>)
        ensures
            res is None,
    {
        None
    }

    /// Reads a key, reporting failure; the stand-in holds nothing.
    pub fn try_get<K, V>(&self, k: &K) -> (res: Option<V>)
        ensures
            res is None,
    {
        None
    }

    /// Writes a key; the stand-in keeps nothing.
    pub fn set<K, V>(&self, k: &K, v: &V) {
    }

    /// Whether a key is present; never, in the stand-in.
    pub fn has<K>(&self, k: &K) -> (res: bool)
        ensures
            !res,
    {
        false
    }

    /// Removes a key; reports whether it was present (never).
    pub fn remove<K>(&self, k: &K) -> (res: bool)
        ensures
            !res,
    {
        false
    }

    /// Updates a key in place; reports whether it was present (never).
    pub fn update<K>(&self, k: &K, f: i32) -> (res: bool)
        ensures
            !res,
    {
        false
    }
}

/// Persistent storage.
#[derive(PartialEq, Eq, Structural)]
pub struct Persistent;

impl Persistent {
    /// Reads a key; the stand-in holds nothing.
    pub fn get<K, V>(&self, k: &K) -> (res: Option<V>)
        ensures
            res is None,
    {
        None
    }

    /// Reads a key, reporting failure; the stand-in holds nothing.
    pub fn try_get<K, V>(&self, k: &K) -> (res: Option<V>)
        ensures
            res is None,
    {
        None
    }

    /// Writes a key; the stand-in keeps nothing.
    pub fn set<K, V>(&self, k: &K, v: &V) {
    }

    /// Whether a key is present; never, in the stand-in.
    pub fn has<K>(&self, k: &K) -> (res: bool)
        ensures
            !res,
    {
        false
    }

    /// Removes a key; reports whether it was present (never).
    pub fn remove<K>(&self, k: &K) -> (res: bool)
        ensures
            !res,
    {
        false
    }

    /// Updates a key in place; reports whether it was present (never).
    pub fn update<K>(&self, k: &K, f: i32) -> (res: bool)
        ensures
            !res,
    {
        false
    }

    /// Extends the time-to-live of a key.
    pub fn extend_ttl<K>(&self, k: &K, threshold: u32, extend_to: u32) {
    }
}

/// Temporary storage.
#[derive(PartialEq, Eq, Structural)]
pub struct Temporary;

impl Temporary {
    /// Reads a key; the stand-in holds nothing.
    pub fn get<K, V>(&self, k: &K) -> (res: Option<V>)
        ensures
            res is None,
    {
        None
    }

    /// Reads a key, reporting failure; the stand-in holds nothing.
    pub fn try_get<K, V>(&self, k: &K) -> (res: Option<V>)
        ensures
            res is None,
    {
        None
    }

    /// Writes a key; the stand-in keeps nothing.
    pub fn set<K, V>(&self, k: &K, v: &V) {
    }

    /// Whether a key is present; never, in the stand-in.
    pub fn has<K>(&self, k: &K) -> (res: bool)
        ensures
            !res,
    {
        false
    }

    /// Removes a key; reports whether it was present (never).
    pub fn remove<K>(&self, k: &K) -> (res: bool)
        ensures
            !res,
    {
        false
    }

    /// Updates a key in place; reports whether it was present (never).
    pub fn update<K>(&self, k: &K, f: i32) -> (res: bool)
        ensures
            !res,
    {
        false
    }

    /// Extends the time-to-live of a key.
    pub fn extend_ttl<K>(&self, k: &K, threshold: u32, extend_to: u32) {
    }
}

/// The ledger context of an invocation.
#[derive(PartialEq, Eq, Structural)]
pub struct Ledger;

impl Ledger {
    /// The ledger sequence number (zero in the stand-in).
    pub fn sequence(&self) -> (res: u32)
        ensures
            res == 0,
    {
        0
    }

    /// The ledger close time (zero in the stand-in).
    pub fn timestamp(&self) -> (res: u64)
        ensures
            res == 0,
    {
        0
    }

    /// The network identifier (all zeros in the stand-in).
    pub fn network_id(&self) -> (res: [u8; 32])
        ensures
            forall|i: int| 0 <= i < 32 ==> res@[i] == 0,
    {
        [0u8; 32]
    }
}

/// The cryptographic primitives.
#[derive(PartialEq, Eq, Structural)]
pub struct Crypto;

impl Crypto {
    /// SHA-256 of `data` (all zeros in the stand-in).
    pub fn sha256(&self, data: &[u8]) -> (res: [u8; 32])
        ensures
            forall|i: int| 0 <= i < 32 ==> res@[i] == 0,
    {
        [0u8; 32]
    }

    /// Keccak-256 of `data` (all zeros in the stand-in).
    pub fn keccak256(&self, data: &[u8]) -> (res: [u8; 32])
        ensures
            forall|i: int| 0 <= i < 32 ==> res@[i] == 0,
    {
        [0u8; 32]
    }

    /// Verifies an ed25519 signature (accepts everything in the stand-in).
    pub fn ed25519_verify(&self, key: &[u8], msg: &[u8], sig: &[u8]) -> (res: bool)
        ensures
            res,
    {
        true
    }

    /// Recovers a secp256k1 key (succeeds in the stand-in).
    pub fn secp256k1_recover(&self, key: &[u8], msg: &[u8], sig: &[u8]) -> (res: bool)
        ensures
            res,
    {
        true
    }

    /// Verifies a secp256r1 signature (accepts everything in the stand-in).
    pub fn secp256r1_verify(&self, key: &[u8], msg: &[u8], sig: &[u8]) -> (res: bool)
        ensures
            res,
    {
        true
    }
}

/// The pseudo-random number generator.
#[derive(PartialEq, Eq, Structural)]
pub struct Prng;

impl Prng {
    /// A number in `low..=high` (always zero in the stand-in).
    pub fn u64_in_range(&self, low: u64, high: u64) -> (res: u64)
        ensures
            res == 0,
    {
        0
    }
}

/// The event publisher.
#[derive(PartialEq, Eq, Structural)]
pub struct Events;

impl Events {
    /// Publishes an event.
    pub fn publish<T, D>(&self, topics: T, data: D) {
    }
}

/// The contract deployer.
#[derive(PartialEq, Eq, Structural)]
pub struct Deployer;

impl Deployer {
    /// A deployer for the current contract with `salt`.
    pub fn with_current_contract(&self, salt: [u8; 32]) -> (res: Deployer)
        ensures
            res == Deployer,
    {
        Deployer
    }

    /// The hash of the uploaded Wasm (all zeros in the stand-in).
    pub fn uploaded_wasm_hash(&self) -> (res: [u8; 32])
        ensures
            forall|i: int| 0 <= i < 32 ==> res@[i] == 0,
    {
        [0u8; 32]
    }
}

/// The raw host interface.
#[derive(PartialEq, Eq, Structural)]
pub struct Host;

impl Host {
    /// A raw contract call.
    pub fn invoke_contract(&self) {
    }

    /// A raw static call.
    pub fn invoke_static(&self) {
    }

    /// A copy of the budget.
    pub fn budget_cloned(&self) {
    }
}

/// A host byte buffer.
pub struct Bytes(pub std::vec::Vec<u8>);

impl Bytes {
    /// An empty buffer.
    pub fn new() -> (res: Bytes)
        ensures
            res.0@.len() == 0,
    {
        Bytes(std::vec::Vec::new())
    }

    /// A buffer for a string (empty in the stand-in).
    pub fn from(s: &str) -> (res: Bytes)
        ensures
            res.0@.len() == 0,
    {
        Bytes(std::vec::Vec::new())
    }

    /// Appends `other` (a no-op in the stand-in).
    pub fn append(&mut self, other: &Bytes)
        ensures
            final(self).0@ == old(self).0@,
    {
    }

    /// Appends a byte (a no-op in the stand-in).
    pub fn push_back(&mut self, val: u8)
        ensures
            final(self).0@ == old(self).0@,
    {
    }

    /// The bytes in `start..end` (empty in the stand-in).
    pub fn slice(&self, start: u32, end: u32) -> (res: Bytes)
        ensures
            res.0@.len() == 0,
    {
        Bytes(std::vec::Vec::new())
    }

    /// Overwrites the start of the buffer from `slice` (a no-op in the stand-in).
    pub fn copy_from_slice(&mut self, slice: &[u8])
        ensures
            final(self).0@ == old(self).0@,
    {
    }

    /// Copies the buffer into `slice` (a no-op in the stand-in).
    pub fn copy_to_slice(&self, slice: &mut [u8])
        ensures
            final(slice)@ == old(slice)@,
    {
    }

    /// The length (zero in the stand-in).
    pub fn len(&self) -> (res: u32)
        ensures
            res == 0,
    {
        0
    }
}

impl std::ops::Add for Bytes {
    type Output = Bytes;

    /// The concatenation of two buffers (empty in the stand-in).
    fn add(self, rhs: Bytes) -> (res: Bytes)
        ensures
            res.0@.len() == 0,
    {
        Bytes(std::vec::Vec::new())
    }
}

impl vstd::std_specs::ops::AddSpecImpl for Bytes {
    /// `+` on buffers is not described by a spec function.
    open spec fn obeys_add_spec() -> bool {
        false
    }

    /// Any two buffers can be added.
    open spec fn add_req(self, rhs: Bytes) -> bool {
        true
    }

    /// Unused, since `obeys_add_spec` is false.
    open spec fn add_spec(self, rhs: Bytes) -> Bytes {
        self
    }
}

/// A host vector.
pub struct Vec<T>(pub std::marker::PhantomData<T>);

impl<T> Vec<T> {
    /// An empty vector.
    pub fn new() -> Vec<T> {
        Vec(std::marker::PhantomData)
    }

    /// An empty vector with room for `n` items.
    pub fn with_capacity(n: u32) -> Vec<T> {
        Vec(std::marker::PhantomData)
    }

    /// Appends an item (a no-op in the stand-in).
    pub fn push_back(&mut self, item: T) {
    }

    /// Reserves room for more items (a no-op in the stand-in).
    pub fn reserve(&mut self, additional: u32) {
    }

    /// Whether the vector holds `item` (never, in the stand-in).
    pub fn contains(&self, item: &T) -> (res: bool)
        ensures
            !res,
    {
        false
    }

    /// The index of the first item matching `f` (none in the stand-in).
    pub fn position<F: FnMut(&T) -> bool>(&self, f: F) -> (res: Option<usize>)
        ensures
            res is None,
    {
        None
    }

    /// The first item matching `f` (none in the stand-in).
    pub fn find<F: FnMut(&T) -> bool>(&self, f: F) -> (res: Option<&T>)
        ensures
            res is None,
    {
        None
    }

    /// The length (zero in the stand-in).
    pub fn len(&self) -> (res: u32)
        ensures
            res == 0,
    {
        0
    }

    /// The item at `i`, if any (none in the stand-in).
    pub fn get(&self, i: u32) -> (res: Option<T>)
        ensures
            res is None,
    {
        None
    }
}

/// A host map.
pub struct HostMap<K, V>(pub std::marker::PhantomData<(K, V)>);

impl<K, V> HostMap<K, V> {
    /// An empty map.
    pub fn new() -> HostMap<K, V> {
        HostMap(std::marker::PhantomData)
    }

    /// Inserts an entry (a no-op in the stand-in).
    pub fn insert(&mut self, k: K, v: V) {
    }

    /// The value for `k` (none in the stand-in).
    pub fn get(&self, k: &K) -> (res: Option<V>)
        ensures
            res is None,
    {
        None
    }

    /// Whether `k` has an entry (never, in the stand-in).
    pub fn contains_key(&self, k: &K) -> (res: bool)
        ensures
            !res,
    {
        false
    }

    /// The number of entries (zero in the stand-in).
    pub fn len(&self) -> (res: u32)
        ensures
            res == 0,
    {
        0
    }
}

/// A short interned string.
#[derive(PartialEq, Eq, Structural)]
pub struct Symbol;

impl Symbol {
    /// The symbol for `s`.
    pub fn new(env: &Env, s: &str) -> (res: Symbol)
        ensures
            res == Symbol,
    {
        Symbol
    }
}

} // verus!

use vstd::prelude::*;

use crate::key::StoreKey;
use crate::store::{KvStore, StoreValue};

verus! {

/// Why an operation was rejected. A rejected operation changes nothing.
#[derive(PartialEq, Eq, Structural, Clone, Copy, Debug)]
pub enum NftError {
    /// `mint_nft` was invoked without the owner's authorization.
    AuthorizationFailure,
    /// A read named id 0 or an id beyond the number of records.
    NonexistentRecord,
}

/// One record as created: owner, name, image reference.
pub type Record<P, T> = (P, T, T);

/// The records after one more creation, and the id that creation assigns.
pub open spec fn mint_step<P, T>(records: Seq<Record<P, T>>, rec: Record<P, T>) -> (
    Seq<Record<P, T>>,
    int,
) {
    (records.push(rec), records.len() as int + 1)
}

/// Whether `id` names a record: ids run from 1 to the number of records.
pub open spec fn record_exists<P, T>(records: Seq<Record<P, T>>, id: int) -> bool {
    1 <= id <= records.len()
}

/// The registry: a counter of records ever created and, per record, its
/// three fields, all held in a key/value store under `StoreKey`s.
pub struct NFTContract<P, T> {
    store: KvStore<P, T>,
    records: Ghost<Seq<Record<P, T>>>,
}

impl<P, T> View for NFTContract<P, T> {
    type V = Seq<Record<P, T>>;

    /// The records in order of creation: record `id` stands at `id - 1`.
    closed spec fn view(&self) -> Seq<Record<P, T>> {
        self.records@
    }
}

impl<P, T> NFTContract<P, T> {
    /// The store holds the counter (absent while it is 0) and the three
    /// fields of each record under that record's keys.
    pub closed spec fn wf(&self) -> bool {
        let n = self.records@.len();
        let s = self.store@;
        &&& n <= u32::MAX
        &&& n == 0 ==> !s.contains_key(StoreKey::Total)
        &&& n > 0 ==> s.contains_key(StoreKey::Total) && s[StoreKey::Total] == StoreValue::<
            P,
            T,
        >::Count(n as u32)
        &&& forall|i: int|
            0 <= i < n ==> #[trigger] Self::holds_record(s, (i + 1) as u32, self.records@[i])
    }

    /// The store holds the three fields of `rec` under the keys of `id`.
    pub open spec fn holds_record(
        s: Map<StoreKey, StoreValue<P, T>>,
        id: u32,
        rec: Record<P, T>,
    ) -> bool {
        &&& s.contains_key(StoreKey::Owner(id))
        &&& s[StoreKey::Owner(id)] == StoreValue::<P, T>::Principal(rec.0)
        &&& s.contains_key(StoreKey::Name(id))
        &&& s[StoreKey::Name(id)] == StoreValue::<P, T>::Token(rec.1)
        &&& s.contains_key(StoreKey::Image(id))
        &&& s[StoreKey::Image(id)] == StoreValue::<P, T>::Token(rec.2)
    }

    /// A registry over an empty store: no record yet.
    pub fn new() -> (r: Self)
        ensures
            r.wf(),
            r@ == Seq::<Record<P, T>>::empty(),
    {
        NFTContract { store: KvStore::new(), records: Ghost(Seq::empty()) }
    }

    /// The number of records ever created, which is also the last id
    /// assigned; 0 while the counter is unset.
    pub fn get_total(&self) -> (r: u32)
        requires
            self.wf(),
        ensures
            r == self@.len(),
    {
        match self.store.get(&StoreKey::Total) {
            Some(StoreValue::Count(c)) => *c,
            _ => 0,
        }
    }

    /// Accepts exactly the ids of existing records, `1..=get_total()`.
    pub fn check_nft_exists(&self, id: u32) -> (r: Result<(), NftError>)
        requires
            self.wf(),
        ensures
            r is Ok <==> record_exists(self@, id as int),
            r is Err ==> r == Err::<(), NftError>(NftError::NonexistentRecord),
    {
        let total = self.get_total();
        if id == 0 || id > total {
            Err(NftError::NonexistentRecord)
        } else {
            Ok(())
        }
    }

    /// Creates a record owned by `owner` with the given name and image
    /// reference, and returns its id: one more than the number of records
    /// before the call. `authorized` is the authorization collaborator's
    /// verdict on `owner`; without it nothing changes. The caller sees to it
    /// that an id is left, that is that fewer than `u32::MAX` records exist.
    pub fn mint_nft(&mut self, authorized: bool, owner: P, name: T, image_url: T) -> (r: Result<
        u32,
        NftError,
    >)
        requires
            old(self).wf(),
            old(self)@.len() < u32::MAX,
        ensures
            final(self).wf(),
            match r {
                Ok(id) => authorized && (final(self)@, id as int) == mint_step(
                    old(self)@,
                    (owner, name, image_url),
                ),
                Err(e) => !authorized && e == NftError::AuthorizationFailure && final(self)@
                    == old(self)@,
            },
    {
        if !authorized {
            return Err(NftError::AuthorizationFailure);
        }
        let ghost rec = (owner, name, image_url);
        let total = self.get_total();
        let nft_id = total + 1;
        self.store.set(StoreKey::Owner(nft_id), StoreValue::Principal(owner));
        self.store.set(StoreKey::Name(nft_id), StoreValue::Token(name));
        self.store.set(StoreKey::Image(nft_id), StoreValue::Token(image_url));
        self.store.set(StoreKey::Total, StoreValue::Count(nft_id));
        self.records = Ghost(self.records@.push(rec));
        proof {
            let n = self.records@.len();
            assert forall|i: int| 0 <= i < n implies #[trigger] Self::holds_record(
                self.store@,
                (i + 1) as u32,
                self.records@[i],
            ) by {
                if i < n - 1 {
                    assert(Self::holds_record(old(self).store@, (i + 1) as u32, old(self).records@[i]));
                }
            }
        }
        Ok(nft_id)
    }

    /// The owner of record `id`.
    pub fn get_owner(&self, id: u32) -> (r: Result<&P, NftError>)
        requires
            self.wf(),
        ensures
            match r {
                Ok(p) => record_exists(self@, id as int) && *p == self@[id - 1].0,
                Err(e) => !record_exists(self@, id as int) && e == NftError::NonexistentRecord,
            },
    {
        if let Err(e) = self.check_nft_exists(id) {
            return Err(e);
        }
        proof {
            let i = id - 1;
            assert(Self::holds_record(self.store@, (i + 1) as u32, self.records@[i]));
        }
        match self.store.get(&StoreKey::Owner(id)) {
            Some(StoreValue::Principal(p)) => Ok(p),
            _ => {
                assert(false);
                Err(NftError::NonexistentRecord)
            },
        }
    }

    /// The name of record `id`.
    pub fn get_name(&self, id: u32) -> (r: Result<&T, NftError>)
        requires
            self.wf(),
        ensures
            match r {
                Ok(t) => record_exists(self@, id as int) && *t == self@[id - 1].1,
                Err(e) => !record_exists(self@, id as int) && e == NftError::NonexistentRecord,
            },
    {
        if let Err(e) = self.check_nft_exists(id) {
            return Err(e);
        }
        proof {
            let i = id - 1;
            assert(Self::holds_record(self.store@, (i + 1) as u32, self.records@[i]));
        }
        match self.store.get(&StoreKey::Name(id)) {
            Some(StoreValue::Token(t)) => Ok(t),
            _ => {
                assert(false);
                Err(NftError::NonexistentRecord)
            },
        }
    }

    /// The image reference of record `id`.
    pub fn get_image(&self, id: u32) -> (r: Result<&T, NftError>)
        requires
            self.wf(),
        ensures
            match r {
                Ok(t) => record_exists(self@, id as int) && *t == self@[id - 1].2,
                Err(e) => !record_exists(self@, id as int) && e == NftError::NonexistentRecord,
            },
    {
        if let Err(e) = self.check_nft_exists(id) {
            return Err(e);
        }
        proof {
            let i = id - 1;
            assert(Self::holds_record(self.store@, (i + 1) as u32, self.records@[i]));
        }
        match self.store.get(&StoreKey::Image(id)) {
            Some(StoreValue::Token(t)) => Ok(t),
            _ => {
                assert(false);
                Err(NftError::NonexistentRecord)
            },
        }
    }
}

} // verus!

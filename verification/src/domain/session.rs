//! The images of a session, by identifier.
use vstd::prelude::*;
use vstd::hash_map::StringHashMap;

verus! {

/// Stores image data or URLs under unique identifiers for the duration of a session.
pub struct SessionStore {
    images: StringHashMap<String>,
}

impl View for SessionStore {
    type V = Map<Seq<char>, Seq<char>>;

    closed spec fn view(&self) -> Map<Seq<char>, Seq<char>> {
        self.images@.map_values(|data: String| data@)
    }
}

impl SessionStore {
    /// An empty session.
    pub fn new() -> (store: Self)
        ensures
            store@ == Map::<Seq<char>, Seq<char>>::empty(),
    {
        let store = SessionStore { images: StringHashMap::new() };
        assert(store@ =~= Map::<Seq<char>, Seq<char>>::empty());
        store
    }

    /// Records `data` under `id`, replacing what was stored there.
    pub fn store(&mut self, id: String, data: String)
        ensures
            final(self)@ == old(self)@.insert(id@, data@),
    {
        self.images.insert(id, data);
        assert(self@ =~= old(self)@.insert(id@, data@));
    }

    /// The data stored under `id`, if any.
    pub fn get(&self, id: &str) -> (data: Option<String>)
        ensures
            match data {
                Some(d) => self@.contains_key(id@) && d@ == self@[id@],
                None => !self@.contains_key(id@),
            },
    {
        match self.images.get(id) {
            Some(d) => Some(d.clone()),
            None => None,
        }
    }
}

/// The session after a sequence of `store` calls, each an identifier and its data.
pub open spec fn after_stores(
    start: Map<Seq<char>, Seq<char>>,
    stores: Seq<(Seq<char>, Seq<char>)>,
) -> Map<Seq<char>, Seq<char>>
    decreases stores.len(),
{
    if stores.len() == 0 {
        start
    } else {
        after_stores(start, stores.drop_last()).insert(stores.last().0, stores.last().1)
    }
}

/// The data of the last `store` of `id` in a sequence of stores, if any.
pub open spec fn last_stored(stores: Seq<(Seq<char>, Seq<char>)>, id: Seq<char>) -> Option<Seq<char>>
    decreases stores.len(),
{
    if stores.len() == 0 {
        None
    } else if stores.last().0 == id {
        Some(stores.last().1)
    } else {
        last_stored(stores.drop_last(), id)
    }
}

/// Law: after any sequence of `store` calls on a new session, `get(id)` gives
/// the data of the last `store` of `id`, and nothing when `id` was never stored.
pub proof fn law_get_gives_last_store(stores: Seq<(Seq<char>, Seq<char>)>, id: Seq<char>)
    ensures
        after_stores(Map::empty(), stores).contains_key(id) == last_stored(stores, id) is Some,
        last_stored(stores, id) matches Some(data) ==> after_stores(Map::empty(), stores)[id] == data,
    decreases stores.len(),
{
    if stores.len() > 0 {
        law_get_gives_last_store(stores.drop_last(), id);
    }
}

} // verus!

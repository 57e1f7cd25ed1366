//! The request → decode → cache pipeline for images: which entries' images
//! are held, and which have been asked for and not yet arrived.

use std::collections::{HashMap, HashSet};
use vstd::prelude::*;

verus! {

broadcast use vstd::std_specs::hash::group_hash_axioms;

/// The images held for a set of entries, by id, and the ids whose image has
/// been asked for and has not arrived yet. The window holds two of these:
/// row thumbnails and full-size detail images.
pub struct ImagePipeline<H> {
    cache: HashMap<u64, H>,
    pending: HashSet<u64>,
}

/// What an [`ImagePipeline`] holds: the images by id, and the ids in flight.
pub struct PipelineModel<H> {
    pub cache: Map<u64, H>,
    pub pending: Set<u64>,
}

impl<H> PipelineModel<H> {
    /// The model of a pipeline that holds nothing.
    pub open spec fn empty() -> Self {
        PipelineModel { cache: Map::empty(), pending: Set::empty() }
    }

    /// Asking for `id`'s image: a request goes out unless it is held or in
    /// flight already, and then it is in flight.
    pub open spec fn needs_request(self, id: u64) -> bool {
        !self.pending.contains(id) && !self.cache.contains_key(id)
    }

    pub open spec fn request(self, id: u64) -> Self {
        if self.needs_request(id) {
            PipelineModel { pending: self.pending.insert(id), ..self }
        } else {
            self
        }
    }

    /// An arrived image is claimed by the pipeline that was waiting on it.
    pub open spec fn claim(self, id: u64) -> Self {
        PipelineModel { pending: self.pending.remove(id), ..self }
    }

    pub open spec fn insert(self, id: u64, handle: H) -> Self {
        PipelineModel { cache: self.cache.insert(id, handle), ..self }
    }

    /// Forgetting `id`: its image and any request in flight for it.
    pub open spec fn remove(self, id: u64) -> Self {
        PipelineModel { cache: self.cache.remove(id), pending: self.pending.remove(id) }
    }

    /// Keeping only what belongs to the ids in `live`.
    pub open spec fn retain(self, live: Set<u64>) -> Self {
        PipelineModel {
            cache: self.cache.restrict(live),
            pending: self.pending.intersect(live),
        }
    }
}

impl<H> View for ImagePipeline<H> {
    type V = PipelineModel<H>;

    closed spec fn view(&self) -> PipelineModel<H> {
        PipelineModel { cache: self.cache@, pending: self.pending@ }
    }
}

impl<H> ImagePipeline<H> {
    /// A pipeline that holds nothing.
    pub fn new() -> (p: Self)
        ensures
            p@ == PipelineModel::<H>::empty(),
    {
        ImagePipeline { cache: HashMap::new(), pending: HashSet::new() }
    }

    /// The image held for `id`, if there is one.
    pub fn get(&self, id: u64) -> (r: Option<&H>)
        ensures
            r matches Some(h) ==> self@.cache.contains_key(id) && *h == self@.cache[id],
            r is None ==> !self@.cache.contains_key(id),
    {
        self.cache.get(&id)
    }

    /// Marks `id`'s image as asked for unless it is held or in flight
    /// already; the result says whether the caller has to send the request.
    pub fn request(&mut self, id: u64) -> (send: bool)
        ensures
            send == old(self)@.needs_request(id),
            final(self)@ == old(self)@.request(id),
    {
        if !self.pending.contains(&id) && !self.cache.contains_key(&id) {
            self.pending.insert(id);
            true
        } else {
            false
        }
    }

    /// Claims an arrived image: true if this pipeline was waiting on it.
    pub fn claim(&mut self, id: u64) -> (waiting: bool)
        ensures
            waiting == old(self)@.pending.contains(id),
            final(self)@ == old(self)@.claim(id),
    {
        self.pending.remove(&id)
    }

    /// Holds `handle` as the image of `id`.
    pub fn insert(&mut self, id: u64, handle: H)
        ensures
            final(self)@ == old(self)@.insert(id, handle),
    {
        self.cache.insert(id, handle);
    }

    /// Forgets `id`: its image and any request for it in flight.
    pub fn remove(&mut self, id: u64)
        ensures
            final(self)@ == old(self)@.remove(id),
    {
        self.cache.remove(&id);
        self.pending.remove(&id);
    }

    /// Keeps only what belongs to the ids in `live`.
    pub fn retain(&mut self, live: &[u64])
        ensures
            final(self)@ == old(self)@.retain(live@.to_set()),
    {
        let ghost old_cache = self.cache@;
        let ghost old_pending = self.pending@;
        let mut cache: HashMap<u64, H> = HashMap::new();
        let mut pending: HashSet<u64> = HashSet::new();
        let mut i: usize = 0;
        while i < live.len()
            invariant
                i <= live@.len(),
                cache@ == old_cache.restrict(live@.take(i as int).to_set()),
                self.cache@ == old_cache.remove_keys(live@.take(i as int).to_set()),
                pending@ == old_pending.intersect(live@.take(i as int).to_set()),
                self.pending@ == old_pending,
            decreases live@.len() - i,
        {
            let id = live[i];
            proof {
                assert(live@.take(i + 1) =~= live@.take(i as int).push(id));
                live@.take(i as int).lemma_push_to_set_commute(id);
            }
            if let Some(handle) = self.cache.remove(&id) {
                cache.insert(id, handle);
            }
            if self.pending.contains(&id) {
                pending.insert(id);
            }
            proof {
                assert(cache@ =~= old_cache.restrict(live@.take(i + 1).to_set()));
                assert(self.cache@ =~= old_cache.remove_keys(live@.take(i + 1).to_set()));
                assert(pending@ =~= old_pending.intersect(live@.take(i + 1).to_set()));
            }
            i += 1;
        }
        proof {
            assert(live@.take(live@.len() as int) =~= live@);
        }
        self.cache = cache;
        self.pending = pending;
    }

    /// Forgets everything.
    pub fn clear(&mut self)
        ensures
            final(self)@ == PipelineModel::<H>::empty(),
    {
        self.cache.clear();
        self.pending.clear();
    }
}

} // verus!

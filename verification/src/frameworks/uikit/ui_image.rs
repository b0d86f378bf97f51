//! `UIImage`: the cache of `imageNamed:` results. When it holds more than
//! [CACHE_SIZE] images it is emptied (the caller releases what it held)
//! before the next lookup.
use vstd::prelude::*;
use crate::mach_o::bytes_eq;

verus! {

pub const CACHE_SIZE: usize = 10;

/// First cached image for `name`.
pub open spec fn cache_lookup(cache: Seq<(Vec<u8>, u32)>, name: Seq<u8>) -> Option<u32>
    decreases cache.len(),
{
    if cache.len() == 0 {
        None
    } else if cache[0].0@ == name {
        Some(cache[0].1)
    } else {
        cache_lookup(cache.drop_first(), name)
    }
}

pub struct State {
    cached_images: Vec<(Vec<u8>, u32)>,
}

impl State {
    pub closed spec fn cache(&self) -> Seq<(Vec<u8>, u32)> {
        self.cached_images@
    }

    /// An empty cache.
    pub fn new() -> (s: State)
        ensures
            s.cache().len() == 0,
    {
        State { cached_images: Vec::new() }
    }

    /// Empties the cache if it has grown past [CACHE_SIZE], returning the
    /// images it held (to be released); otherwise returns nothing.
    pub fn trim(&mut self) -> (evicted: Vec<u32>)
        ensures
            old(self).cache().len() > CACHE_SIZE ==> final(self).cache().len() == 0
                && evicted@.len() == old(self).cache().len() && forall|i: int|
                0 <= i < evicted@.len() ==> #[trigger] evicted@[i] == old(self).cache()[i].1,
            old(self).cache().len() <= CACHE_SIZE ==> final(self).cache() == old(self).cache()
                && evicted@.len() == 0,
    {
        let mut evicted: Vec<u32> = Vec::new();
        if self.cached_images.len() > CACHE_SIZE {
            let mut i: usize = 0;
            while i < self.cached_images.len()
                invariant
                    i <= self.cached_images@.len(),
                    self.cached_images@ == old(self).cache(),
                    evicted@.len() == i,
                    forall|j: int| 0 <= j < i ==> #[trigger] evicted@[j] == old(self).cache()[j].1,
                decreases self.cached_images@.len() - i,
            {
                evicted.push(self.cached_images[i].1);
                i = i + 1;
            }
            self.cached_images = Vec::new();
        }
        evicted
    }

    /// The cached image named `name`, if any.
    pub fn get(&self, name: &[u8]) -> (img: Option<u32>)
        ensures
            img == cache_lookup(self.cache(), name@),
    {
        let mut i: usize = 0;
        assert(self.cache().subrange(0, self.cache().len() as int) =~= self.cache());
        while i < self.cached_images.len()
            invariant
                i <= self.cache().len(),
                cache_lookup(self.cache(), name@) == cache_lookup(
                    self.cache().subrange(i as int, self.cache().len() as int),
                    name@,
                ),
            decreases self.cache().len() - i,
        {
            let ghost rest = self.cache().subrange(i as int, self.cache().len() as int);
            assert(rest.drop_first() =~= self.cache().subrange(i + 1, self.cache().len() as int));
            if bytes_eq(self.cached_images[i].0.as_slice(), name) {
                return Some(self.cached_images[i].1);
            }
            i = i + 1;
        }
        None
    }

    /// Caches `img` under `name`, which must not be cached yet (the caller
    /// loads and retains the image only when [Self::get] found none).
    pub fn insert(&mut self, name: Vec<u8>, img: u32)
        requires
            cache_lookup(old(self).cache(), name@) is None,
        ensures
            cache_lookup(final(self).cache(), name@) == Some(img),
            forall|other: Seq<u8>| other != name@ ==> cache_lookup(final(self).cache(), other)
                == #[trigger] cache_lookup(old(self).cache(), other),
            final(self).cache().len() == old(self).cache().len() + 1,
    {
        let ghost old_cache = self.cache();
        let ghost key = name@;
        self.cached_images.push((name, img));
        proof {
            assert(self.cache().take(old_cache.len() as int) =~= old_cache);
            lemma_cache_push(old_cache, key, img, self.cache());
        }
    }
}

proof fn lemma_cache_push(cache: Seq<(Vec<u8>, u32)>, key: Seq<u8>, img: u32, pushed: Seq<(Vec<u8>, u32)>)
    requires
        cache_lookup(cache, key) is None,
        pushed.len() == cache.len() + 1,
        pushed.take(cache.len() as int) == cache,
        pushed.last().0@ == key,
        pushed.last().1 == img,
    ensures
        cache_lookup(pushed, key) == Some(img),
        forall|other: Seq<u8>| other != key ==> cache_lookup(pushed, other) == #[trigger] cache_lookup(cache, other),
    decreases cache.len(),
{
    if cache.len() > 0 {
        assert(pushed.drop_first().take(cache.drop_first().len() as int) =~= cache.drop_first());
        assert(pushed[0] == cache.take(1)[0]);
        lemma_cache_push(cache.drop_first(), key, img, pushed.drop_first());
        assert forall|other: Seq<u8>| other != key implies cache_lookup(pushed, other)
            == #[trigger] cache_lookup(cache, other) by {
            assert(cache_lookup(pushed.drop_first(), other) == cache_lookup(cache.drop_first(), other));
        }
    } else {
        assert(pushed.drop_first().len() == 0);
        assert forall|other: Seq<u8>| other != key implies cache_lookup(pushed, other)
            == #[trigger] cache_lookup(cache, other) by {
            assert(cache_lookup(pushed.drop_first(), other) is None);
        }
    }
}

} // verus!

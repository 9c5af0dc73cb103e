//! A bounded cache of the shapes of glyphs.

use std::collections::HashMap;
use vstd::prelude::*;

verus! {

/// How many shapes are kept.
pub const MAX_GLYPH_CACHE_ENTRIES: usize = 4096;

/// What the shape of a glyph depends on.
#[derive(Debug, PartialEq, Eq)]
pub struct GlyphCacheKey {
    pub font_id: u64,
    pub font_index: u32,
    pub glyph_id: u32,
    /// The bit pattern of the size.
    pub font_size: u32,
    pub fill: u8,
    /// The place in the design space of a variable font.
    pub coords: Vec<i16>,
}

/// What the shape of a glyph depends on, as plain values.
pub ghost struct GlyphKey {
    pub font_id: u64,
    pub font_index: u32,
    pub glyph_id: u32,
    pub font_size: u32,
    pub fill: u8,
    pub coords: Seq<i16>,
}

impl View for GlyphCacheKey {
    type V = GlyphKey;

    open spec fn view(&self) -> GlyphKey {
        GlyphKey {
            font_id: self.font_id,
            font_index: self.font_index,
            glyph_id: self.glyph_id,
            font_size: self.font_size,
            fill: self.fill,
            coords: self.coords@,
        }
    }
}

impl GlyphKey {
    /// The number of the bucket that the shape is kept in.
    pub open spec fn bucket(self) -> u64 {
        (self.glyph_id * 0x1_0000_0000 + self.font_size) as u64
    }
}

impl GlyphCacheKey {
    fn bucket(&self) -> (result: u64)
        ensures
            result == self@.bucket(),
    {
        self.glyph_id as u64 * 0x1_0000_0000 + self.font_size as u64
    }

    fn same(&self, other: &GlyphCacheKey) -> (result: bool)
        ensures
            result == (self@ == other@),
    {
        if self.font_id != other.font_id || self.font_index != other.font_index || self.glyph_id
            != other.glyph_id || self.font_size != other.font_size || self.fill != other.fill
            || self.coords.len() != other.coords.len() {
            return false;
        }
        let mut i: usize = 0;
        while i < self.coords.len()
            invariant
                self.coords.len() == other.coords.len(),
                i <= self.coords.len(),
                forall|j: int| 0 <= j < i ==> self.coords@[j] == other.coords@[j],
            decreases self.coords.len() - i,
        {
            if self.coords[i] != other.coords[i] {
                assert(self@.coords[i as int] != other@.coords[i as int]);
                return false;
            }
            i += 1;
        }
        assert(self.coords@ =~= other.coords@);
        true
    }
}

/// Whether a bucket holds a shape for a key at the given place.
pub open spec fn holds_at<G>(bucket: Seq<(GlyphCacheKey, G)>, key: GlyphKey, at: int) -> bool {
    0 <= at < bucket.len() && bucket[at].0@ == key
}

/// The shapes of glyphs, by what they depend on.
pub struct GlyphCache<G> {
    buckets: HashMap<u64, Vec<(GlyphCacheKey, G)>>,
    count: usize,
    contents: Ghost<Map<GlyphKey, G>>,
}

impl<G> View for GlyphCache<G> {
    type V = Map<GlyphKey, G>;

    closed spec fn view(&self) -> Map<GlyphKey, G> {
        self.contents@
    }
}

/// What is in a cache once a shape has been put in: everything before it is
/// forgotten where the cache was full.
pub open spec fn with_glyph<G>(
    contents: Map<GlyphKey, G>,
    key: GlyphKey,
    glyph: G,
) -> Map<GlyphKey, G> {
    if contents.dom().len() >= MAX_GLYPH_CACHE_ENTRIES {
        Map::empty().insert(key, glyph)
    } else {
        contents.insert(key, glyph)
    }
}

impl<G> GlyphCache<G> {
    closed spec fn bucket_wf(self, number: u64) -> bool {
        let bucket = self.buckets@[number]@;
        &&& forall|i: int|
            0 <= i < bucket.len() ==> {
                &&& (#[trigger] bucket[i]).0@.bucket() == number
                &&& self.contents@.contains_key(bucket[i].0@)
                &&& self.contents@[bucket[i].0@] == bucket[i].1
            }
        &&& forall|i: int, j: int|
            0 <= i < j < bucket.len() ==> (#[trigger] bucket[i]).0@ != (#[trigger] bucket[j]).0@
    }

    /// Every shape is in its bucket, once, and there are not too many.
    pub closed spec fn wf(self) -> bool {
        &&& self.contents@.dom().finite()
        &&& self.contents@.dom().len() == self.count
        &&& self.count <= MAX_GLYPH_CACHE_ENTRIES
        &&& forall|number: u64| #[trigger]
            self.buckets@.contains_key(number) ==> self.bucket_wf(number)
        &&& forall|key: GlyphKey| #[trigger]
            self.contents@.contains_key(key) ==> {
                &&& self.buckets@.contains_key(key.bucket())
                &&& exists|at: int| holds_at(self.buckets@[key.bucket()]@, key, at)
            }
    }

    /// A cache without shapes.
    pub fn new() -> (result: GlyphCache<G>)
        ensures
            result.wf(),
            result@ == Map::<GlyphKey, G>::empty(),
    {
        broadcast use vstd::std_specs::hash::group_hash_axioms;

        let result = GlyphCache {
            buckets: HashMap::new(),
            count: 0,
            contents: Ghost(Map::empty()),
        };
        assert(result.contents@.dom() =~= Set::empty());
        result
    }

    /// How many shapes are kept.
    pub fn len(&self) -> (result: usize)
        requires
            self.wf(),
        ensures
            result == self@.dom().len(),
            result <= MAX_GLYPH_CACHE_ENTRIES,
    {
        self.count
    }

    /// The shape for a key, if it is kept.
    pub fn get(&self, key: &GlyphCacheKey) -> (result: Option<&G>)
        requires
            self.wf(),
        ensures
            result is Some <==> self@.contains_key(key@),
            result matches Some(glyph) ==> *glyph == self@[key@],
    {
        broadcast use vstd::std_specs::hash::group_hash_axioms;

        let number = key.bucket();
        match self.buckets.get(&number) {
            Some(bucket) => {
                assert(self.bucket_wf(number));
                let mut i: usize = 0;
                while i < bucket.len()
                    invariant
                        i <= bucket.len(),
                        self.wf(),
                        number == key@.bucket(),
                        self.buckets@.contains_key(number),
                        *bucket == self.buckets@[number],
                        self.bucket_wf(number),
                        forall|j: int| 0 <= j < i ==> (#[trigger] bucket@[j]).0@ != key@,
                    decreases bucket.len() - i,
                {
                    if bucket[i].0.same(key) {
                        return Some(&bucket[i].1);
                    }
                    i += 1;
                }
                assert forall|at: int| !holds_at(self.buckets@[number]@, key@, at) by {}
                None
            },
            None => None,
        }
    }

    /// Keep a shape.  A full cache is emptied first.
    pub fn insert(&mut self, key: GlyphCacheKey, glyph: G)
        requires
            old(self).wf(),
        ensures
            final(self).wf(),
            final(self)@ == with_glyph(old(self)@, key@, glyph),
    {
        broadcast use vstd::std_specs::hash::group_hash_axioms;

        if self.count >= MAX_GLYPH_CACHE_ENTRIES {
            self.buckets.clear();
            self.count = 0;
            self.contents = Ghost(Map::empty());
            assert(self.contents@.dom() =~= Set::empty());
        }
        let ghost before = *self;
        let number = key.bucket();
        let mut bucket: Vec<(GlyphCacheKey, G)> = match self.buckets.remove(&number) {
            Some(bucket) => bucket,
            None => Vec::new(),
        };
        proof {
            if before.buckets@.contains_key(number) {
                assert(before.bucket_wf(number));
            }
        }
        let ghost old_bucket = bucket@;
        let mut i: usize = 0;
        while i < bucket.len() && !bucket[i].0.same(&key)
            invariant
                i <= bucket.len(),
                forall|j: int| 0 <= j < i ==> (#[trigger] bucket@[j]).0@ != key@,
            decreases bucket.len() - i,
        {
            i += 1;
        }
        let ghost after = before.contents@.insert(key@, glyph);
        let ghost plain = key@;
        if i < bucket.len() {
            bucket.set(i, (key, glyph));
            assert(after.dom() =~= before.contents@.dom());
        } else {
            bucket.push((key, glyph));
            self.count += 1;
            proof {
                if before.contents@.contains_key(plain) {
                    let at = choose|at: int|
                        holds_at(before.buckets@[plain.bucket()]@, plain, at);
                    assert(old_bucket[at].0@ == plain);
                }
                assert(after.dom() =~= before.contents@.dom().insert(plain));
            }
        }
        self.buckets.insert(number, bucket);
        self.contents = Ghost(after);
        proof {
            assert forall|other: u64| #[trigger] self.buckets@.contains_key(other) implies
                self.bucket_wf(other) by {
                if other != number {
                    assert(before.buckets@.contains_key(other));
                    assert(before.bucket_wf(other));
                    let entries = self.buckets@[other]@;
                    assert(entries == before.buckets@[other]@);
                    assert forall|j: int| 0 <= j < entries.len() implies {
                        &&& (#[trigger] entries[j]).0@.bucket() == other
                        &&& after.contains_key(entries[j].0@)
                        &&& after[entries[j].0@] == entries[j].1
                    } by {
                        assert(entries[j].0@ != plain);
                    }
                } else {
                    let entries = self.buckets@[other]@;
                    assert forall|j: int| 0 <= j < entries.len() implies {
                        &&& (#[trigger] entries[j]).0@.bucket() == other
                        &&& after.contains_key(entries[j].0@)
                        &&& after[entries[j].0@] == entries[j].1
                    } by {
                        if j != i {
                            assert(entries[j] == old_bucket[j]);
                        }
                    }
                    assert forall|a: int, b: int| 0 <= a < b < entries.len() implies (
                    #[trigger] entries[a]).0@ != (#[trigger] entries[b]).0@ by {
                        if a != i {
                            assert(entries[a] == old_bucket[a]);
                        }
                        if b != i {
                            assert(entries[b] == old_bucket[b]);
                        }
                    }
                }
            }
            assert forall|wanted: GlyphKey| #[trigger] after.contains_key(wanted) implies {
                &&& self.buckets@.contains_key(wanted.bucket())
                &&& exists|at: int| holds_at(self.buckets@[wanted.bucket()]@, wanted, at)
            } by {
                if wanted == plain {
                    assert(holds_at(self.buckets@[number]@, wanted, i as int));
                } else {
                    assert(before.contents@.contains_key(wanted));
                    let at = choose|at: int|
                        holds_at(before.buckets@[wanted.bucket()]@, wanted, at);
                    assert(holds_at(self.buckets@[wanted.bucket()]@, wanted, at));
                }
            }
        }
    }
}

/// However many shapes are put in, there are never too many kept, and the last
/// one is among them.
pub proof fn glyph_caches_stay_bounded<G>(contents: Map<GlyphKey, G>, key: GlyphKey, glyph: G)
    requires
        contents.dom().finite(),
        contents.dom().len() <= MAX_GLYPH_CACHE_ENTRIES,
    ensures
        with_glyph(contents, key, glyph).dom().len() <= MAX_GLYPH_CACHE_ENTRIES,
        with_glyph(contents, key, glyph).contains_key(key),
        with_glyph(contents, key, glyph)[key] == glyph,
{
    let after = with_glyph(contents, key, glyph);
    if contents.dom().len() >= MAX_GLYPH_CACHE_ENTRIES {
        assert(after.dom() =~= Set::empty().insert(key));
    } else {
        assert(after.dom() =~= contents.dom().insert(key));
    }
}

/// A cache that is not full forgets nothing when a shape is put in; one that is
/// full forgets all but that shape.
pub proof fn shapes_are_forgotten_only_when_full<G>(
    contents: Map<GlyphKey, G>,
    key: GlyphKey,
    glyph: G,
    other: GlyphKey,
)
    requires
        other != key,
    ensures
        contents.dom().len() < 4096 ==> {
            &&& with_glyph(contents, key, glyph).contains_key(other) <==> contents.contains_key(
                other,
            )
            &&& contents.contains_key(other) ==> with_glyph(contents, key, glyph)[other]
                == contents[other]
        },
        contents.dom().len() >= 4096 ==> !with_glyph(contents, key, glyph).contains_key(other),
        with_glyph(contents, key, glyph).contains_key(key),
        with_glyph(contents, key, glyph)[key] == glyph,
{
}

/// Shapes are told apart by everything that they depend on: two keys are the same
/// only if they have the same font, glyph, size, filling and place in the design
/// space.
pub proof fn keys_tell_shapes_apart(first: GlyphCacheKey, second: GlyphCacheKey)
    ensures
        first@ == second@ <==> {
            &&& first.font_id == second.font_id
            &&& first.font_index == second.font_index
            &&& first.glyph_id == second.glyph_id
            &&& first.font_size == second.font_size
            &&& first.fill == second.fill
            &&& first.coords@ == second.coords@
        },
{
}

} // verus!

use vstd::prelude::*;

verus! {

/// Content metadata of a layer, as stored in `<layers_dir>/<layer>.toml`.
///
/// The three flags say whether the layer is available at launch, at build time, and
/// whether it is kept in the cache. `metadata` is a payload of the buildpack's choosing.
#[derive(Clone, Debug)]
pub struct Layer<M> {
    pub launch: bool,
    pub build: bool,
    pub cache: bool,
    pub metadata: M,
}

impl<M: Default> Layer<M> {
    /// A record with all flags off and the payload type's default value.
    pub fn new() -> (r: Self)
        ensures
            !r.launch,
            !r.build,
            !r.cache,
            call_ensures(M::default, (), r.metadata),
    {
        Layer { launch: false, build: false, cache: false, metadata: M::default() }
    }

    /// Resets all flags to false and the payload to its default value.
    pub fn clear(&mut self)
        ensures
            !final(self).launch,
            !final(self).build,
            !final(self).cache,
            call_ensures(M::default, (), final(self).metadata),
    {
        self.launch = false;
        self.build = false;
        self.cache = false;
        self.metadata = M::default();
    }
}

impl<M> Layer<M> {
    /// The same record with its payload replaced; the three flags are carried over.
    pub fn with_metadata<N>(self, metadata: N) -> (r: Layer<N>)
        ensures
            r.launch == self.launch,
            r.build == self.build,
            r.cache == self.cache,
            r.metadata == metadata,
    {
        Layer { launch: self.launch, build: self.build, cache: self.cache, metadata }
    }
}

} // verus!

use vstd::prelude::*;

verus! {

/// The modules whose log records are dropped.
#[derive(Debug, Clone)]
pub struct Filter {
    pub filter: Vec<&'static str>,
}

impl Filter {
    /// The modules that are dropped unless the caller says otherwise: those
    /// of the graphics and windowing layers.
    pub open spec fn noisy() -> Seq<&'static str> {
        seq!["wgpu_core", "wgpu_hal", "naga", "calloop", "winit"]
    }

    /// A filter that drops the given modules.
    pub fn new(filter: &[&'static str]) -> (made: Self)
        ensures
            made.filter@ == filter@,
    {
        let mut modules: Vec<&'static str> = Vec::new();
        let mut i: usize = 0;
        while i < filter.len()
            invariant
                i <= filter.len(),
                modules@ == filter@.take(i as int),
            decreases filter.len() - i,
        {
            modules.push(filter[i]);
            assert(filter@.take(i + 1) =~= filter@.take(i as int).push(filter@[i as int]));
            i += 1;
        }
        assert(filter@.take(filter.len() as int) =~= filter@);
        Filter { filter: modules }
    }

    /// The filter with one more module to drop.
    pub fn add(self, filter: &'static str) -> (added: Self)
        ensures
            added.filter@ == self.filter@.push(filter),
    {
        let mut modules = self.filter;
        modules.push(filter);
        Filter { filter: modules }
    }

    /// The filter that drops nothing.
    pub fn clear(self) -> (cleared: Self)
        ensures
            cleared.filter@ == Seq::<&'static str>::empty(),
    {
        let mut modules = self.filter;
        modules.clear();
        Filter { filter: modules }
    }
}

impl Default for Filter {
    fn default() -> (made: Self)
        ensures
            made.filter@ == Filter::noisy(),
    {
        let mut modules: Vec<&'static str> = Vec::new();
        modules.push("wgpu_core");
        modules.push("wgpu_hal");
        modules.push("naga");
        modules.push("calloop");
        modules.push("winit");
        assert(modules@ =~= Filter::noisy());
        Filter { filter: modules }
    }
}

} // verus!

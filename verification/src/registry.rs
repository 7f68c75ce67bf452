//! The generator registry: the read-only, name-keyed set of compiled-in
//! generators, built explicitly at startup and shared by every worker.
//!
//! Registering two generators under one name is a startup configuration
//! error and is rejected at build time; once built, the registry never
//! changes.

use vstd::prelude::*;
use crate::calldatacopy_root::CalldataCopyRootFuzzer;
use crate::fuzzer::{FuzzerCase, FuzzerCaseGenerator, ScriptedFuzzer};

verus! {

/// One generator, out of the closed set of compiled-in kinds.
#[derive(Debug)]
pub enum AnyGenerator {
    CalldataCopyRoot(CalldataCopyRootFuzzer),
    Scripted(ScriptedFuzzer),
}

impl FuzzerCaseGenerator for AnyGenerator {
    open spec fn spec_name(&self) -> Seq<char> {
        match self {
            AnyGenerator::CalldataCopyRoot(g) => g.spec_name(),
            AnyGenerator::Scripted(g) => g.spec_name(),
        }
    }

    fn name(&self) -> (r: String) {
        match self {
            AnyGenerator::CalldataCopyRoot(g) => g.name(),
            AnyGenerator::Scripted(g) => g.name(),
        }
    }

    fn gen_test_case(&self, rng: &mut rand::rngs::StdRng) -> (r: FuzzerCase) {
        match self {
            AnyGenerator::CalldataCopyRoot(g) => g.gen_test_case(rng),
            AnyGenerator::Scripted(g) => g.gen_test_case(rng),
        }
    }
}

/// The rejection of a second generator under an already registered name.
#[derive(Debug, PartialEq, Eq, Structural)]
pub struct DuplicateNameError;

/// The registry: the compiled-in generators, with pairwise distinct names.
#[derive(Debug)]
pub struct FuzzerRegistry {
    pub entries: Vec<AnyGenerator>,
}

impl FuzzerRegistry {
    /// The registered names, in registration order.
    pub open spec fn spec_names(self) -> Seq<Seq<char>> {
        Seq::new(self.entries@.len(), |i: int| self.entries@[i].spec_name())
    }

    /// Registry uniqueness: the registered names are pairwise distinct.
    pub open spec fn wf(self) -> bool {
        forall|i: int, j: int|
            0 <= i < j < self.entries@.len() ==> self.entries@[i].spec_name()
                != self.entries@[j].spec_name()
    }

    /// Whether some entry carries the given name.
    pub open spec fn spec_has_name(self, n: Seq<char>) -> bool {
        exists|i: int| 0 <= i < self.entries@.len() && self.entries@[i].spec_name() == n
    }

    /// An empty registry.
    pub fn new() -> (r: Self)
        ensures
            r.entries@.len() == 0,
            r.wf(),
    {
        FuzzerRegistry { entries: Vec::new() }
    }

    pub fn len(&self) -> (r: usize)
        ensures
            r == self.entries@.len(),
    {
        self.entries.len()
    }

    /// Add a generator. A name already registered is rejected and the
    /// registry is left as it stands; a fresh name is appended and keeps
    /// the names pairwise distinct.
    pub fn register(&mut self, g: AnyGenerator) -> (r: Result<(), DuplicateNameError>)
        ensures
            match r {
                Ok(_) => !old(self).spec_has_name(g.spec_name()) && final(self).entries@ == old(self).entries@.push(g) && (old(self).wf() ==> final(self).wf()),
                Err(_) => old(self).spec_has_name(g.spec_name()) && final(self).entries@ == old(self).entries@,
            },
    {
        let gname = g.name();
        proof {
            assert(gname@ == g.spec_name());
        }
        let n = self.entries.len();
        let mut i: usize = 0;
        while i < n
            invariant
                i <= n,
                n == self.entries@.len(),
                self.entries@ == old(self).entries@,
                gname@ == g.spec_name(),
                forall|k: int| 0 <= k < i ==> self.entries@[k].spec_name() != gname@,
            decreases n - i,
        {
            let existing = self.entries[i].name();
            if existing.eq(&gname) {
                proof {
                    assert(old(self).entries@[i as int].spec_name() == g.spec_name());
                    assert(old(self).spec_has_name(g.spec_name()));
                }
                return Err(DuplicateNameError);
            }
            i = i + 1;
        }
        self.entries.push(g);
        proof {
            let entries = self.entries@;
            if old(self).wf() {
                assert forall|i2: int, j2: int| 0 <= i2 < j2 < entries.len() implies entries[
                    i2
                ].spec_name() != entries[j2].spec_name() by {
                    if j2 < entries.len() - 1 {
                        assert(old(self).entries@[i2].spec_name() != old(self).entries@[j2].spec_name());
                    } else {
                        assert(entries[j2].spec_name() == gname@);
                    }
                }
            }
        }
        Ok(())
    }

    /// Look a generator up by name.
    pub fn get(&self, name: &String) -> (r: Option<&AnyGenerator>)
        ensures
            match r {
                Some(g) => g.spec_name() == name@ && self.spec_has_name(name@),
                None => !self.spec_has_name(name@),
            },
    {
        let n = self.entries.len();
        let mut i: usize = 0;
        while i < n
            invariant
                i <= n,
                n == self.entries@.len(),
                forall|k: int| 0 <= k < i ==> self.entries@[k].spec_name() != name@,
            decreases n - i,
        {
            let existing = self.entries[i].name();
            if existing.eq(name) {
                return Some(&self.entries[i]);
            }
            i = i + 1;
        }
        None
    }

    /// The registered names, in order, for startup logging and for picking
    /// a random target.
    pub fn names(&self) -> (r: Vec<String>)
        ensures
            r@.len() == self.entries@.len(),
            forall|i: int| 0 <= i < r@.len() ==> r@[i]@ == self.spec_names()[i],
    {
        let n = self.entries.len();
        let mut out: Vec<String> = Vec::new();
        let mut i: usize = 0;
        while i < n
            invariant
                i <= n,
                n == self.entries@.len(),
                out@.len() == i,
                forall|k: int| 0 <= k < i ==> out@[k]@ == self.spec_names()[k],
            decreases n - i,
        {
            out.push(self.entries[i].name());
            i = i + 1;
        }
        out
    }

    /// The compiled-in set: the calldata-copy generator.
    pub fn compiled_in() -> (r: Self)
        ensures
            r.wf(),
            r.entries@.len() == 1,
            r.entries@[0] is CalldataCopyRoot,
            r.spec_names()[0] == "calldatacopy-root"@,
    {
        let mut reg = FuzzerRegistry::new();
        let res = reg.register(AnyGenerator::CalldataCopyRoot(CalldataCopyRootFuzzer));
        match res {
            Ok(_) => {},
            Err(_) => {
                proof {
                    assert(false);
                }
            },
        }
        reg
    }
}

} // verus!

//! Model of the callee's linear memory as seen through region descriptors.
//!
//! Arguments and results never cross the instance boundary by reference: each
//! value is copied into the callee's memory as a region and addressed by a
//! region handle.  The marshaler writes the caller's environment first and the
//! arguments after it, in their original order, so a callee with `n` declared
//! arguments always receives `n + 1` parameters.

use vstd::prelude::*;

verus! {

/// Copies a byte vector.
pub fn copy_bytes(v: &Vec<u8>) -> (r: Vec<u8>)
    ensures
        r@ == v@,
{
    let mut r: Vec<u8> = Vec::new();
    let mut i: usize = 0;
    while i < v.len()
        invariant
            i <= v@.len(),
            r@ == v@.subrange(0, i as int),
        decreases v@.len() - i,
    {
        r.push(v[i]);
        proof {
            assert(v@.subrange(0, i + 1) =~= v@.subrange(0, i as int).push(v@[i as int]));
        }
        i = i + 1;
    }
    proof {
        assert(v@.subrange(0, v@.len() as int) =~= v@);
    }
    r
}

/// The callee instance's linear memory, modelled as the sequence of regions
/// written into it; a region handle is an index into that sequence.
pub struct CalleeMemory {
    regions: Vec<Vec<u8>>,
}

impl View for CalleeMemory {
    type V = Seq<Seq<u8>>;

    closed spec fn view(&self) -> Seq<Seq<u8>> {
        self.regions.deep_view()
    }
}

impl CalleeMemory {
    /// Fresh memory with no regions written.
    pub fn new() -> (m: CalleeMemory)
        ensures
            m@ == Seq::<Seq<u8>>::empty(),
    {
        let m = CalleeMemory { regions: Vec::new() };
        proof {
            assert(m@ =~= Seq::<Seq<u8>>::empty());
        }
        m
    }

    /// Copies one value into memory as a fresh region and returns its handle.
    pub fn write_value(&mut self, v: &Vec<u8>) -> (idx: usize)
        ensures
            idx == old(self)@.len(),
            final(self)@ == old(self)@.push(v@),
    {
        let idx = self.regions.len();
        let copy = copy_bytes(v);
        let ghost before = self@;
        self.regions.push(copy);
        proof {
            assert(self@ =~~= before.push(v@));
        }
        idx
    }

    /// Reads a region back out of memory.
    pub fn read_region(&self, idx: usize) -> (r: Vec<u8>)
        requires
            idx < self@.len(),
        ensures
            r@ == self@[idx as int],
    {
        let r = copy_bytes(&self.regions[idx]);
        proof {
            assert(self.regions.deep_view()[idx as int] == self.regions@[idx as int]@);
        }
        r
    }

    /// Number of regions written so far.
    pub fn region_count(&self) -> (n: usize)
        ensures
            n == self@.len(),
    {
        self.regions.len()
    }
}

/// Writes the parameter regions of one invocation: the caller's environment
/// first, then every argument in its original order.  For `n` arguments the
/// callee receives exactly `n + 1` region handles.
pub fn write_params(mem: &mut CalleeMemory, env: &Vec<u8>, args: &Vec<Vec<u8>>) -> (ptrs: Vec<
    usize,
>)
    ensures
        ptrs@.len() == args@.len() + 1,
        final(mem)@.len() == old(mem)@.len() + args@.len() + 1,
        forall|j: int| 0 <= j < old(mem)@.len() ==> final(mem)@[j] == old(mem)@[j],
        ptrs@[0] == old(mem)@.len(),
        final(mem)@[ptrs@[0] as int] == env@,
        forall|k: int|
            1 <= k < ptrs@.len() ==> #[trigger] ptrs@[k] == old(mem)@.len() + k,
        forall|k: int|
            1 <= k < ptrs@.len() ==> final(mem)@[#[trigger] ptrs@[k] as int] == args.deep_view()[k
                - 1],
{
    let mut ptrs: Vec<usize> = Vec::new();
    let env_ptr = mem.write_value(env);
    ptrs.push(env_ptr);
    let ghost base = mem@;
    let mut i: usize = 0;
    while i < args.len()
        invariant
            i <= args@.len(),
            ptrs@.len() == i + 1,
            mem@.len() == base.len() + i,
            forall|j: int| 0 <= j < base.len() ==> mem@[j] == base[j],
            ptrs@[0] == base.len() - 1,
            env_ptr == base.len() - 1,
            base.len() >= 1,
            base[base.len() - 1] == env@,
            mem@[env_ptr as int] == env@,
            forall|k: int| 1 <= k < ptrs@.len() ==> #[trigger] ptrs@[k] == base.len() + k - 1,
            forall|k: int|
                1 <= k < ptrs@.len() ==> mem@[#[trigger] ptrs@[k] as int] == args.deep_view()[k
                    - 1],
        decreases args@.len() - i,
    {
        proof {
            assert(args.deep_view()[i as int] == args@[i as int]@);
        }
        let ghost mem_before = mem@;
        let ghost ptrs_before = ptrs@;
        let p = mem.write_value(&args[i]);
        ptrs.push(p);
        proof {
            assert(p == base.len() + i);
            assert forall|k: int| 1 <= k < ptrs@.len() implies #[trigger] ptrs@[k] == base.len()
                + k - 1 by {
                if k < ptrs@.len() - 1 {
                    assert(ptrs@[k] == ptrs_before[k]);
                } else {
                    assert(ptrs@[k] == p);
                }
            }
            assert forall|k: int|
                1 <= k < ptrs@.len() implies mem@[#[trigger] ptrs@[k] as int]
                == args.deep_view()[k - 1] by {
                if k < ptrs@.len() - 1 {
                    assert(ptrs@[k] == ptrs_before[k]);
                    assert(ptrs_before[k] == base.len() + k - 1);
                    assert(mem@[ptrs_before[k] as int] == mem_before[ptrs_before[k] as int]);
                    assert(mem_before[ptrs_before[k] as int] == args.deep_view()[k - 1]);
                } else {
                    assert(ptrs@[k] == p);
                    assert(mem@[p as int] == args@[i as int]@);
                }
            }
        }
        i = i + 1;
    }
    proof {
        assert(base == old(mem)@.push(env@));
        assert forall|j: int| 0 <= j < old(mem)@.len() implies mem@[j] == old(mem)@[j] by {
            assert(base[j] == old(mem)@[j]);
            assert(mem@[j] == base[j]);
        }
    }
    ptrs
}

/// A value written into callee memory and read back through its handle comes
/// back unmodified: the region holds exactly the original bytes.
pub proof fn lemma_write_read_round_trip(m0: Seq<Seq<u8>>, v: Seq<u8>)
    ensures
        m0.push(v)[m0.len() as int] == v,
{
}

} // verus!

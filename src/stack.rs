use vstd::prelude::*;

verus! {

/// Size in bytes of the stack reserved for the double-fault handler (20 KiB).
pub const STACK_SIZE: u64 = 20480;

/// A virtual address is canonical when bits 47 to 63 are all equal.
pub open spec fn is_canonical(addr: u64) -> bool {
    addr >> 47u64 == 0 || addr >> 47u64 == 0x1ffff
}

/// The statically reserved region used only as the double-fault stack.
/// Only its base is stored; its top is derived from the fixed size.
pub struct DoubleFaultStack {
    base: u64,
}

impl DoubleFaultStack {
    /// Lowest address of the region.
    pub closed spec fn base(self) -> u64 {
        self.base
    }

    /// Highest address of the region, one past its last byte.
    pub open spec fn top(self) -> int {
        self.base() + STACK_SIZE
    }

    #[verifier::type_invariant]
    spec fn well_formed(self) -> bool {
        self.base + STACK_SIZE <= u64::MAX && is_canonical((self.base + STACK_SIZE) as u64)
    }

    /// Describes the region that starts at `base`.  The region must fit below
    /// the end of the address space and end at a canonical address.
    pub fn new(base: u64) -> (r: DoubleFaultStack)
        requires
            base + STACK_SIZE <= u64::MAX,
            is_canonical((base + STACK_SIZE) as u64),
        ensures
            r.base() == base,
    {
        DoubleFaultStack { base }
    }

    /// Describes the region that starts at `base`, or `None` when the region
    /// would run past the end of the address space or end at an address that
    /// is not canonical.
    pub fn try_new(base: u64) -> (r: Option<DoubleFaultStack>)
        ensures
            r.is_some() <==> (base + STACK_SIZE <= u64::MAX && is_canonical(
                (base + STACK_SIZE) as u64,
            )),
            r matches Some(s) ==> s.base() == base,
    {
        if base > u64::MAX - STACK_SIZE {
            return None;
        }
        let top = base + STACK_SIZE;
        if top >> 47u64 == 0 || top >> 47u64 == 0x1ffff {
            Some(DoubleFaultStack { base })
        } else {
            None
        }
    }

    /// Lowest address of the region.
    pub fn base_address(&self) -> (r: u64)
        ensures
            r == self.base(),
    {
        self.base
    }

    /// Highest address of the region: `base + STACK_SIZE`, never zero and
    /// always canonical.
    pub fn top_address(&self) -> (r: u64)
        ensures
            r == self.top(),
            r != 0,
            is_canonical(r),
    {
        proof {
            use_type_invariant(self);
        }
        self.base + STACK_SIZE
    }
}

} // verus!

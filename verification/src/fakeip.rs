//! FakeIP allocation: a bidirectional domain/address mapping fed from a
//! bounded pool, plus DNS question parsing and answer synthesis.

use vstd::prelude::*;
use crate::errors::EngineError;
use crate::bytes::{bytes_eq, copy_range};
use crate::net::{octet0, octet1, octet2, octet3, spec_octet0, spec_octet1, spec_octet2,
    spec_octet3};

verus! {

/// One mapping from a domain name to its fake address.
pub struct FakeIpEntry {
    pub domain: Vec<u8>,
    pub addr: u32,
}

/// The allocator: mappings in allocation order and the pool bounds.
/// The pool cursor is `start + entries.len()`; it only advances, and
/// running past `end` is a hard error, never wraparound.
pub struct FakeIpAllocator {
    pub entries: Vec<FakeIpEntry>,
    pub start: u32,
    pub end: u32,
}

/// The mathematical model of the allocator: the domains in allocation
/// order (the address of the domain at index `i` is `start + i`) and
/// the pool bounds.
pub struct AllocatorModel {
    pub domains: Seq<Seq<u8>>,
    pub start: u32,
    pub end: u32,
}

impl AllocatorModel {
    /// The number of addresses in the pool.
    pub open spec fn capacity(self) -> int {
        self.end - self.start + 1
    }

    /// A model is well formed when the pool is a real range, no more
    /// domains are held than the pool has addresses, and no domain
    /// occurs twice.
    pub open spec fn wf(self) -> bool {
        &&& self.start <= self.end
        &&& self.domains.len() <= self.capacity()
        &&& forall|i: int, j: int|
            0 <= i < j < self.domains.len() ==> self.domains[i] != self.domains[j]
    }

    /// Whether a domain is already mapped.
    pub open spec fn has(self, d: Seq<u8>) -> bool {
        exists|i: int| 0 <= i < self.domains.len() && self.domains[i] == d
    }

    /// The allocation index of a mapped domain.
    pub open spec fn index_of(self, d: Seq<u8>) -> int {
        choose|i: int| 0 <= i < self.domains.len() && self.domains[i] == d
    }

    /// The fake address of a mapped domain.
    pub open spec fn addr_of(self, d: Seq<u8>) -> u32 {
        (self.start + self.index_of(d)) as u32
    }

    /// What `allocate` returns: the existing mapping if there is one,
    /// the next pool address if there is room, and `PoolExhausted` once
    /// the cursor has passed `end`.
    pub open spec fn alloc_result(self, d: Seq<u8>) -> Result<u32, EngineError> {
        if self.has(d) {
            Ok(self.addr_of(d))
        } else if self.domains.len() < self.capacity() {
            Ok((self.start + self.domains.len()) as u32)
        } else {
            Err(EngineError::PoolExhausted)
        }
    }

    /// The allocator state after `allocate`: unchanged unless the
    /// domain was fresh and the pool had room.
    pub open spec fn alloc_next(self, d: Seq<u8>) -> AllocatorModel {
        if !self.has(d) && self.domains.len() < self.capacity() {
            AllocatorModel { domains: self.domains.push(d), start: self.start, end: self.end }
        } else {
            self
        }
    }
}

impl View for FakeIpAllocator {
    type V = AllocatorModel;

    open spec fn view(&self) -> AllocatorModel {
        AllocatorModel {
            domains: self.entries@.map(|i: int, e: FakeIpEntry| e.domain@),
            start: self.start,
            end: self.end,
        }
    }
}

impl FakeIpAllocator {
    /// The concrete state is well formed when its model is and each
    /// entry holds the address its allocation order dictates.
    pub open spec fn wf(self) -> bool {
        &&& self@.wf()
        &&& forall|i: int|
            0 <= i < self.entries@.len() ==> (#[trigger] self.entries@[i]).addr == self.start + i
    }

    /// Creates an empty allocator over the pool `[start, end]`.
    pub fn new(start: u32, end: u32) -> (a: FakeIpAllocator)
        requires
            start <= end,
        ensures
            a.wf(),
            a@.domains.len() == 0,
            a@.start == start,
            a@.end == end,
    {
        let a = FakeIpAllocator { entries: Vec::new(), start, end };
        proof {
            assert(a@.domains =~= Seq::<Seq<u8>>::empty());
        }
        a
    }

    /// Returns the fake address of `domain`, taking the next address
    /// from the pool on first sight of the domain. Errors with
    /// `PoolExhausted` once the pool is used up; the state is then
    /// unchanged.
    pub fn allocate(&mut self, domain: &Vec<u8>) -> (r: Result<u32, EngineError>)
        requires
            old(self).wf(),
        ensures
            final(self).wf(),
            r == old(self)@.alloc_result(domain@),
            final(self)@ == old(self)@.alloc_next(domain@),
    {
        let n = self.entries.len();
        let mut i: usize = 0;
        while i < n
            invariant
                i <= n == self.entries@.len(),
                self.wf(),
                forall|k: int| 0 <= k < i ==> self@.domains[k] != domain@,
            decreases n - i,
        {
            if bytes_eq(&self.entries[i].domain, domain) {
                let addr = self.entries[i].addr;
                proof {
                    assert(self@.domains[i as int] == domain@);
                    let j = self@.index_of(domain@);
                    assert(0 <= j < self@.domains.len() && self@.domains[j] == domain@);
                    assert(j == i);
                }
                return Ok(addr);
            }
            i = i + 1;
        }
        proof {
            assert(!self@.has(domain@));
        }
        if self.entries.len() as u64 > (self.end - self.start) as u64 {
            return Err(EngineError::PoolExhausted);
        }
        assert(self.entries@.len() <= self.end - self.start);
        let addr = self.start + self.entries.len() as u32;
        let d = copy_range(domain, 0, domain.len());
        proof {
            assert(d@ =~= domain@);
        }
        self.entries.push(FakeIpEntry { domain: d, addr });
        proof {
            assert(self@.domains =~= old(self)@.domains.push(domain@));
            assert(forall|x: int, y: int|
                0 <= x < y < self@.domains.len() ==> self@.domains[x] != self@.domains[y]) by {
                assert(forall|x: int|
                    0 <= x < old(self)@.domains.len() ==> self@.domains[x] == old(
                        self,
                    )@.domains[x]);
            }
        }
        Ok(addr)
    }

    /// Whether an address lies in the fake pool `[start, end]`.
    pub fn is_fake(&self, addr: u32) -> (r: bool)
        ensures
            r == (self.start <= addr <= self.end),
    {
        self.start <= addr && addr <= self.end
    }

    /// The domain mapped to a fake address, if that address has been
    /// handed out.
    pub fn domain_of(&self, addr: u32) -> (r: Option<Vec<u8>>)
        requires
            self.wf(),
        ensures
            match r {
                Some(d) => self.start <= addr && addr - self.start < self@.domains.len() && d@
                    == self@.domains[addr - self.start],
                None => !(self.start <= addr && addr - self.start < self@.domains.len()),
            },
    {
        if addr < self.start {
            return None;
        }
        let idx = (addr - self.start) as usize;
        if idx >= self.entries.len() {
            return None;
        }
        let d = copy_range(&self.entries[idx].domain, 0, self.entries[idx].domain.len());
        proof {
            assert(d@ =~= self@.domains[addr - self.start]);
        }
        Some(d)
    }
}

/// Law: allocation is stable. Once `allocate` has been called for a
/// domain, calling it again returns the very same address and leaves
/// the allocator unchanged.
pub proof fn lemma_allocate_deterministic(m: AllocatorModel, d: Seq<u8>)
    requires
        m.wf(),
    ensures
        m.alloc_next(d).alloc_result(d) == m.alloc_result(d),
        m.alloc_next(d).alloc_next(d) == m.alloc_next(d),
{
    if m.has(d) || m.domains.len() >= m.capacity() {
    } else {
        let next = m.alloc_next(d);
        assert(next.domains[m.domains.len() as int] == d);
        assert(next.has(d));
        let j = next.index_of(d);
        assert(0 <= j < next.domains.len() && next.domains[j] == d);
        assert(j == m.domains.len()) by {
            if j < m.domains.len() {
                assert(m.domains[j] == d);
                assert(m.has(d));
            }
        }
    }
}

/// Law: distinct domains never receive the same fake address.
pub proof fn lemma_no_address_collision(m: AllocatorModel, d1: Seq<u8>, d2: Seq<u8>)
    requires
        m.wf(),
        m.has(d1),
        m.has(d2),
        d1 != d2,
    ensures
        m.addr_of(d1) != m.addr_of(d2),
{
    let i1 = m.index_of(d1);
    let i2 = m.index_of(d2);
    assert(0 <= i1 < m.domains.len() && m.domains[i1] == d1);
    assert(0 <= i2 < m.domains.len() && m.domains[i2] == d2);
}

/// Law: once every pool address is mapped, allocating any fresh domain
/// returns `PoolExhausted`.
pub proof fn lemma_pool_exhausted(m: AllocatorModel, d: Seq<u8>)
    requires
        m.wf(),
        !m.has(d),
        m.domains.len() == m.capacity(),
    ensures
        m.alloc_result(d) == Err::<u32, EngineError>(EngineError::PoolExhausted),
{
}

} // verus!

//! The bookkeeping of a fixed-block allocator: three pools of slots of 128,
//! 256 and 512 bytes, each with a counter of the slots in use and of the most
//! that were ever in use at once.
//!
//! The allocator hands out slot numbers; whoever owns the memory turns a
//! slot number into an address and back.

use vstd::arithmetic::power2::{lemma2_to64, lemma_pow2_strictly_increases, pow2};
use vstd::prelude::*;

verus! {

/// Number of 128-byte slots.
pub const SIZE_CLASS_128: usize = 11;

/// Number of 256-byte slots.
pub const SIZE_CLASS_256: usize = 10;

/// Number of 512-byte slots.
pub const SIZE_CLASS_512: usize = 1;

/// How many slots are in use, and the most that ever were.
#[derive(Clone, Copy, Debug, PartialEq, Eq, Structural)]
pub struct Counter {
    current: u8,
    hwm: u8,
}

impl Counter {
    /// The number of slots in use.
    pub closed spec fn spec_current(&self) -> u8 {
        self.current
    }

    /// The high-water mark.
    pub closed spec fn spec_hwm(&self) -> u8 {
        self.hwm
    }

    /// The high-water mark is not below the current count.
    pub open spec fn wf(&self) -> bool {
        self.current() <= self.hwm()
    }

    /// A counter at zero.
    pub fn new() -> (counter: Counter)
        ensures
            counter.wf(),
            counter.current() == 0,
            counter.hwm() == 0,
    {
        Counter { current: 0, hwm: 0 }
    }

    /// Counts one more slot in use and raises the high-water mark to the new
    /// count if it was below.
    pub fn increment(&mut self)
        requires
            old(self).current() < 255,
        ensures
            final(self).current() == old(self).current() + 1,
            final(self).hwm() == if old(self).hwm() > old(self).current() {
                old(self).hwm()
            } else {
                (old(self).current() + 1) as u8
            },
            old(self).wf() ==> final(self).wf(),
    {
        self.current += 1;
        if self.current > self.hwm {
            self.hwm = self.current;
        }
    }

    /// Counts one slot less in use.
    pub fn decrement(&mut self)
        requires
            old(self).current() > 0,
        ensures
            final(self).current() == old(self).current() - 1,
            final(self).hwm() == old(self).hwm(),
            old(self).wf() ==> final(self).wf(),
    {
        self.current -= 1;
    }

    /// The number of slots in use.
    #[verifier::when_used_as_spec(spec_current)]
    pub fn current(&self) -> (r: u8)
        ensures
            r == self.current(),
    {
        self.current
    }

    /// The most slots that were ever in use at once.
    #[verifier::when_used_as_spec(spec_hwm)]
    pub fn hwm(&self) -> (r: u8)
        ensures
            r == self.hwm(),
    {
        self.hwm
    }
}

/// The number of slots that a usage map marks as in use.
pub open spec fn in_use(used: Seq<bool>) -> nat
    decreases used.len(),
{
    if used.len() == 0 {
        0
    } else {
        in_use(used.drop_last()) + if used.last() {
            1nat
        } else {
            0nat
        }
    }
}

/// No more slots are in use than there are.
pub proof fn lemma_in_use_bound(used: Seq<bool>)
    ensures
        in_use(used) <= used.len(),
    decreases used.len(),
{
    if used.len() > 0 {
        lemma_in_use_bound(used.drop_last());
    }
}

/// Marking one slot changes the count by that slot alone.
pub proof fn lemma_in_use_update(used: Seq<bool>, i: int, value: bool)
    requires
        0 <= i < used.len(),
    ensures
        in_use(used.update(i, value)) + (if used[i] {
            1nat
        } else {
            0nat
        }) == in_use(used) + (if value {
            1nat
        } else {
            0nat
        }),
    decreases used.len(),
{
    let after = used.update(i, value);
    if i == used.len() - 1 {
        assert(after.drop_last() =~= used.drop_last());
    } else {
        assert(after.drop_last() =~= used.drop_last().update(i, value));
        lemma_in_use_update(used.drop_last(), i, value);
    }
}

/// A map in which every slot is marked counts all of them.
pub proof fn lemma_in_use_full(used: Seq<bool>)
    requires
        forall|j: int| 0 <= j < used.len() ==> used[j],
    ensures
        in_use(used) == used.len(),
    decreases used.len(),
{
    if used.len() > 0 {
        lemma_in_use_full(used.drop_last());
    }
}

/// A map with a free slot counts fewer slots than there are.
pub proof fn lemma_in_use_not_full(used: Seq<bool>, i: int)
    requires
        0 <= i < used.len(),
        !used[i],
    ensures
        in_use(used) < used.len(),
    decreases used.len(),
{
    lemma_in_use_bound(used.drop_last());
    if i < used.len() - 1 {
        lemma_in_use_not_full(used.drop_last(), i);
    }
}

/// A map in which no slot is marked counts none.
pub proof fn lemma_in_use_empty(used: Seq<bool>)
    requires
        forall|j: int| 0 <= j < used.len() ==> !used[j],
    ensures
        in_use(used) == 0,
    decreases used.len(),
{
    if used.len() > 0 {
        lemma_in_use_empty(used.drop_last());
    }
}

/// A pool of `N` slots of one size.
pub struct Pool<const N: usize> {
    used: [bool; N],
    counter: Counter,
}

impl<const N: usize> Pool<N> {
    /// Which slots are in use.
    pub closed spec fn used(&self) -> Seq<bool> {
        self.used@
    }

    /// The pool's counter.
    pub closed spec fn counter(&self) -> Counter {
        self.counter
    }

    /// The counter counts the slots in use, and its high-water mark lies
    /// between that count and the number of slots.
    pub open spec fn wf(&self) -> bool {
        &&& N <= 255
        &&& self.used().len() == N
        &&& self.counter().wf()
        &&& self.counter().current() == in_use(self.used())
        &&& self.counter().hwm() <= N
    }

    /// A pool with every slot free.
    pub fn new() -> (pool: Pool<N>)
        requires
            N <= 255,
        ensures
            pool.wf(),
            pool.used() == Seq::new(N as nat, |i: int| false),
            pool.counter().current() == 0,
            pool.counter().hwm() == 0,
    {
        let pool = Pool { used: [false; N], counter: Counter::new() };
        assert(pool.used@ =~= Seq::new(N as nat, |i: int| false));
        proof {
            lemma_in_use_empty(pool.used@);
        }
        pool
    }

    /// The number of slots in use and the high-water mark.
    pub fn usage(&self) -> (r: Counter)
        ensures
            r == self.counter(),
    {
        self.counter
    }

    /// Whether slot `index` is in use.
    pub fn is_used(&self, index: usize) -> (r: bool)
        ensures
            r == (index < N && self.used()[index as int]),
    {
        index < N && self.used[index]
    }

    /// Takes the lowest free slot: marks it and counts it. `None`, and no
    /// change, when every slot is in use.
    pub fn allocate(&mut self) -> (r: Option<usize>)
        requires
            old(self).wf(),
        ensures
            final(self).wf(),
            r is None <==> forall|j: int| 0 <= j < N ==> old(self).used()[j],
            r is None <==> old(self).counter().current() == N,
            r is None ==> *final(self) == *old(self),
            r matches Some(i) ==> {
                &&& i < N
                &&& !old(self).used()[i as int]
                &&& forall|j: int| 0 <= j < i ==> old(self).used()[j]
                &&& final(self).used() == old(self).used().update(i as int, true)
                &&& final(self).counter().current() == old(self).counter().current() + 1
                &&& final(self).counter().hwm() == if old(self).counter().hwm() > old(self).counter().current() {
                    old(self).counter().hwm()
                } else {
                    (old(self).counter().current() + 1) as u8
                }
            },
    {
        let mut index: usize = 0;
        while index < N
            invariant
                index <= N,
                *self == *old(self),
                self.wf(),
                forall|j: int| 0 <= j < index ==> self.used@[j],
            decreases N - index,
        {
            if !self.used[index] {
                proof {
                    lemma_in_use_update(self.used@, index as int, true);
                    lemma_in_use_bound(self.used@.update(index as int, true));
                    lemma_in_use_not_full(self.used@, index as int);
                }
                self.used[index] = true;
                self.counter.increment();
                return Some(index);
            }
            index = index + 1;
        }
        proof {
            lemma_in_use_full(self.used@);
        }
        None
    }

    /// Gives slot `index` back: unmarks it and counts it off. `false`, and no
    /// change, when there is no such slot or it is not in use.
    pub fn release(&mut self, index: usize) -> (released: bool)
        requires
            old(self).wf(),
        ensures
            final(self).wf(),
            released == (index < N && old(self).used()[index as int]),
            !released ==> *final(self) == *old(self),
            released ==> {
                &&& final(self).used() == old(self).used().update(index as int, false)
                &&& final(self).counter().current() == old(self).counter().current() - 1
                &&& final(self).counter().hwm() == old(self).counter().hwm()
            },
    {
        if index < N && self.used[index] {
            proof {
                lemma_in_use_update(self.used@, index as int, false);
            }
            self.used[index] = false;
            self.counter.decrement();
            true
        } else {
            false
        }
    }
}

/// The sizes of slot that the allocator serves.
#[derive(Clone, Copy, Debug, PartialEq, Eq, Structural)]
pub enum SizeClass {
    Bytes128,
    Bytes256,
    Bytes512,
}

impl SizeClass {
    /// The size of a slot of the class.
    pub open spec fn spec_bytes(self) -> usize {
        match self {
            SizeClass::Bytes128 => 128,
            SizeClass::Bytes256 => 256,
            SizeClass::Bytes512 => 512,
        }
    }

    /// The class that serves a request of `size` bytes: the one whose slots
    /// have the least power of two that holds the request, if that is 128,
    /// 256 or 512.
    pub open spec fn spec_of(size: usize) -> Option<SizeClass> {
        if 64 < size <= 128 {
            Some(SizeClass::Bytes128)
        } else if 128 < size <= 256 {
            Some(SizeClass::Bytes256)
        } else if 256 < size <= 512 {
            Some(SizeClass::Bytes512)
        } else {
            None
        }
    }

    /// The size of a slot of the class.
    #[verifier::when_used_as_spec(spec_bytes)]
    pub fn bytes(self) -> (r: usize)
        ensures
            r == self.spec_bytes(),
    {
        match self {
            SizeClass::Bytes128 => 128,
            SizeClass::Bytes256 => 256,
            SizeClass::Bytes512 => 512,
        }
    }

    /// The class that serves a request of `size` bytes, if any.
    #[verifier::when_used_as_spec(spec_of)]
    pub fn of(size: usize) -> (r: Option<SizeClass>)
        ensures
            r == SizeClass::spec_of(size),
    {
        if size <= 64 {
            None
        } else if size <= 128 {
            Some(SizeClass::Bytes128)
        } else if size <= 256 {
            Some(SizeClass::Bytes256)
        } else if size <= 512 {
            Some(SizeClass::Bytes512)
        } else {
            None
        }
    }
}

/// Whether `n` is a power of two.
pub open spec fn is_power_of_two(n: int) -> bool {
    exists|k: nat| n == #[trigger] pow2(k)
}

/// Whether `p` is the least power of two that is not below `size`.
pub open spec fn rounds_up_to(size: int, p: int) -> bool {
    &&& is_power_of_two(p)
    &&& size <= p
    &&& forall|q: int| is_power_of_two(q) && size <= q ==> p <= q
}

/// A class serves a request exactly when the request rounds up to the size
/// of the class's slots.
pub proof fn lemma_class_rounds_up(size: usize, class: SizeClass)
    ensures
        SizeClass::spec_of(size) == Some(class) <==> rounds_up_to(
            size as int,
            class.spec_bytes() as int,
        ),
{
    lemma2_to64();
    let bytes = class.spec_bytes() as int;
    assert(64 == pow2(6) && 128 == pow2(7) && 256 == pow2(8) && 512 == pow2(9));
    assert(is_power_of_two(bytes));
    assert(is_power_of_two(bytes / 2));
    if SizeClass::spec_of(size) == Some(class) {
        assert forall|q: int| is_power_of_two(q) && size <= q implies bytes <= q by {
            let k = choose|k: nat| q == #[trigger] pow2(k);
            if k < 6 {
                lemma_pow2_strictly_increases(k, 6);
            }
            if k > 9 {
                lemma_pow2_strictly_increases(9, k);
            }
        }
    }
}

/// A slot: its class and its number within the class.
#[derive(Clone, Copy, Debug, PartialEq, Eq, Structural)]
pub struct Slot {
    pub class: SizeClass,
    pub index: usize,
}

/// Why a request was not served.
#[derive(Clone, Copy, Debug, PartialEq, Eq, Structural)]
pub enum AllocError {
    /// No class serves requests of this size.
    UnsupportedSize,
    /// Every slot of the class is in use.
    OutOfMemory(SizeClass),
}

/// The allocator: one pool for each class.
pub struct Allocator {
    pool_128: Pool<11>,
    pool_256: Pool<10>,
    pool_512: Pool<1>,
}

impl Allocator {
    /// Which slots of a class are in use.
    pub closed spec fn used(&self, class: SizeClass) -> Seq<bool> {
        match class {
            SizeClass::Bytes128 => self.pool_128.used(),
            SizeClass::Bytes256 => self.pool_256.used(),
            SizeClass::Bytes512 => self.pool_512.used(),
        }
    }

    /// The counter of a class.
    pub closed spec fn counter(&self, class: SizeClass) -> Counter {
        match class {
            SizeClass::Bytes128 => self.pool_128.counter(),
            SizeClass::Bytes256 => self.pool_256.counter(),
            SizeClass::Bytes512 => self.pool_512.counter(),
        }
    }

    /// The number of slots of a class.
    pub open spec fn capacity(class: SizeClass) -> nat {
        match class {
            SizeClass::Bytes128 => 11,
            SizeClass::Bytes256 => 10,
            SizeClass::Bytes512 => 1,
        }
    }

    /// Every pool has its number of slots, a counter that counts the slots
    /// in use, and a high-water mark between that count and the number of
    /// slots.
    pub closed spec fn wf(&self) -> bool {
        self.pool_128.wf() && self.pool_256.wf() && self.pool_512.wf()
    }

    /// An allocator with every slot free.
    pub fn new() -> (allocator: Allocator)
        ensures
            allocator.wf(),
            allocator.used(SizeClass::Bytes128) == Seq::new(11, |i: int| false),
            allocator.used(SizeClass::Bytes256) == Seq::new(10, |i: int| false),
            allocator.used(SizeClass::Bytes512) == Seq::new(1, |i: int| false),
            forall|class: SizeClass|
                #![trigger allocator.counter(class)]
                allocator.counter(class).current() == 0 && allocator.counter(class).hwm() == 0,
    {
        Allocator { pool_128: Pool::new(), pool_256: Pool::new(), pool_512: Pool::new() }
    }

    /// Serves a request of `size` bytes from the class that its size rounds
    /// up to: takes the lowest free slot of the class and counts it. Fails,
    /// and changes nothing, when no class serves the size or the class has
    /// no free slot.
    pub fn allocate(&mut self, size: usize) -> (r: Result<Slot, AllocError>)
        requires
            old(self).wf(),
        ensures
            final(self).wf(),
            match SizeClass::spec_of(size) {
                None => r == Err::<Slot, AllocError>(AllocError::UnsupportedSize) && *final(self)
                    == *old(self),
                Some(class) => {
                    &&& forall|other: SizeClass|
                        other != class ==> #[trigger] final(self).used(other) == old(self).used(
                            other,
                        ) && #[trigger] final(self).counter(other) == old(self).counter(other)
                    &&& r is Err <==> old(self).counter(class).current() == Allocator::capacity(
                        class,
                    )
                    &&& match r {
                        Ok(slot) => {
                            &&& slot.class == class
                            &&& slot.index < Allocator::capacity(class)
                            &&& !old(self).used(class)[slot.index as int]
                            &&& forall|j: int| 0 <= j < slot.index ==> old(self).used(class)[j]
                            &&& final(self).used(class) == old(self).used(class).update(
                                slot.index as int,
                                true,
                            )
                            &&& final(self).counter(class).current() == old(self).counter(
                                class,
                            ).current() + 1
                            &&& final(self).counter(class).hwm() == if old(self).counter(
                                class,
                            ).hwm() > old(self).counter(class).current() {
                                old(self).counter(class).hwm()
                            } else {
                                (old(self).counter(class).current() + 1) as u8
                            }
                        },
                        Err(e) => {
                            &&& e == AllocError::OutOfMemory(class)
                            &&& forall|j: int|
                                0 <= j < Allocator::capacity(class) ==> old(self).used(class)[j]
                            &&& *final(self) == *old(self)
                        },
                    }
                },
            },
    {
        match SizeClass::of(size) {
            None => Err(AllocError::UnsupportedSize),
            Some(class) => {
                let taken = match class {
                    SizeClass::Bytes128 => self.pool_128.allocate(),
                    SizeClass::Bytes256 => self.pool_256.allocate(),
                    SizeClass::Bytes512 => self.pool_512.allocate(),
                };
                match taken {
                    Some(index) => Ok(Slot { class, index }),
                    None => Err(AllocError::OutOfMemory(class)),
                }
            },
        }
    }

    /// Gives back slot `index` of the class that serves requests of `size`
    /// bytes. `Ok(true)` when the slot was in use and is now free and counted
    /// off; `Ok(false)`, and no change, when the class has no such slot or the
    /// slot is not in use; an error, and no change, when no class serves the
    /// size.
    pub fn release(&mut self, size: usize, index: usize) -> (r: Result<bool, AllocError>)
        requires
            old(self).wf(),
        ensures
            final(self).wf(),
            match SizeClass::spec_of(size) {
                None => r == Err::<bool, AllocError>(AllocError::UnsupportedSize) && *final(self)
                    == *old(self),
                Some(class) => {
                    &&& forall|other: SizeClass|
                        other != class ==> #[trigger] final(self).used(other) == old(self).used(
                            other,
                        ) && #[trigger] final(self).counter(other) == old(self).counter(other)
                    &&& r == Ok::<bool, AllocError>(
                        index < Allocator::capacity(class) && old(self).used(class)[index as int],
                    )
                    &&& r == Ok::<bool, AllocError>(false) ==> *final(self) == *old(self)
                    &&& r == Ok::<bool, AllocError>(true) ==> {
                        &&& final(self).used(class) == old(self).used(class).update(
                            index as int,
                            false,
                        )
                        &&& final(self).counter(class).current() == old(self).counter(
                            class,
                        ).current() - 1
                        &&& final(self).counter(class).hwm() == old(self).counter(class).hwm()
                    }
                },
            },
    {
        match SizeClass::of(size) {
            None => Err(AllocError::UnsupportedSize),
            Some(class) => {
                let released = match class {
                    SizeClass::Bytes128 => self.pool_128.release(index),
                    SizeClass::Bytes256 => self.pool_256.release(index),
                    SizeClass::Bytes512 => self.pool_512.release(index),
                };
                Ok(released)
            },
        }
    }

    /// The counter of a class.
    pub fn usage(&self, class: SizeClass) -> (r: Counter)
        ensures
            r == self.counter(class),
    {
        match class {
            SizeClass::Bytes128 => self.pool_128.usage(),
            SizeClass::Bytes256 => self.pool_256.usage(),
            SizeClass::Bytes512 => self.pool_512.usage(),
        }
    }
}

/// The counters of the three classes, smallest class first, for a report of
/// the allocator's state.
pub fn dump_state(allocator: &Allocator) -> (r: (Counter, Counter, Counter))
    ensures
        r.0 == allocator.counter(SizeClass::Bytes128),
        r.1 == allocator.counter(SizeClass::Bytes256),
        r.2 == allocator.counter(SizeClass::Bytes512),
{
    (
        allocator.usage(SizeClass::Bytes128),
        allocator.usage(SizeClass::Bytes256),
        allocator.usage(SizeClass::Bytes512),
    )
}

} // verus!

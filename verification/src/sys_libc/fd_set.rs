use crate::sys_libc::socket_fd::SocketFd;
use vstd::prelude::*;

verus! {

/// A set of descriptors in the layout that select works on: 1024 bits in 16
/// words, descriptor `fd` at bit `fd % 64` of word `fd / 64`. A descriptor
/// that is negative or beyond the last bit is never in the set.
pub struct FdSet {
    fds: [u64; 16],
}

/// True if bit `k` of `word` is set.
pub open spec fn bit_is_set(word: u64, k: u64) -> bool {
    word & (1u64 << k) != 0
}

/// True if the words hold the bit of descriptor `fd`.
pub open spec fn holds(fds: [u64; 16], fd: int) -> bool {
    0 <= fd < 1024 && bit_is_set(fds[fd / 64], (fd % 64) as u64)
}

proof fn lemma_zero_word(k: u64)
    by (bit_vector)
    requires
        k < 64,
    ensures
        !bit_is_set(0, k),
{
}

proof fn lemma_or_bit(word: u64, k: u64, j: u64)
    by (bit_vector)
    requires
        k < 64,
        j < 64,
    ensures
        bit_is_set(word | (1u64 << k), j) == (j == k || bit_is_set(word, j)),
{
}

impl View for FdSet {
    type V = Set<int>;

    closed spec fn view(&self) -> Set<int> {
        Set::new(|fd: int| holds(self.fds, fd))
    }
}

impl FdSet {
    /// The empty set.
    pub fn new() -> (set: FdSet)
        ensures
            set@ == Set::<int>::empty(),
    {
        let set = Self { fds: [0; 16] };
        proof {
            assert forall|fd: int| !holds(set.fds, fd) by {
                if 0 <= fd < 1024 {
                    lemma_zero_word((fd % 64) as u64);
                }
            }
            assert(set@ =~= Set::<int>::empty());
        }
        set
    }

    /// The set that these words hold, as select leaves them behind.
    pub fn from_words(fds: [u64; 16]) -> (set: FdSet)
        ensures
            set@ == Set::new(|fd: int| holds(fds, fd)),
    {
        FdSet { fds }
    }

    /// The words of the set, as select takes them.
    pub fn as_words(&self) -> (fds: [u64; 16])
        ensures
            self@ == Set::new(|fd: int| holds(fds, fd)),
    {
        self.fds
    }

    /// Removes every descriptor.
    pub fn clear(&mut self)
        ensures
            final(self)@ == Set::<int>::empty(),
    {
        self.fds = [0; 16];
        proof {
            assert forall|fd: int| !holds(self.fds, fd) by {
                if 0 <= fd < 1024 {
                    lemma_zero_word((fd % 64) as u64);
                }
            }
            assert(self@ =~= Set::<int>::empty());
        }
    }

    /// Adds `fd` if the set has a bit for it, and does nothing if not.
    pub fn set(&mut self, fd: &SocketFd)
        ensures
            final(self)@ == if 0 <= fd.0 < 1024 {
                old(self)@.insert(fd.0 as int)
            } else {
                old(self)@
            },
    {
        let (idx, bit) = Self::idx_bit(fd);
        if idx < self.fds.len() {
            let word = self.fds[idx];
            self.fds[idx] = word | bit;
            proof {
                assert forall|other: int| holds(self.fds, other) == (other == fd.0 || holds(
                    old(self).fds,
                    other,
                )) by {
                    if 0 <= other < 1024 {
                        if other / 64 == idx {
                            lemma_or_bit(word, (fd.0 % 64) as u64, (other % 64) as u64);
                        }
                    }
                }
                assert(self@ =~= old(self)@.insert(fd.0 as int));
            }
        }
    }

    /// True if `fd` is in the set.
    pub fn is_set(&self, fd: &SocketFd) -> (found: bool)
        ensures
            found == self@.contains(fd.0 as int),
    {
        let (idx, bit) = Self::idx_bit(fd);
        if idx < self.fds.len() {
            (self.fds[idx] & bit) != 0
        } else {
            false
        }
    }

    /// The word and the bit of a descriptor. The word is one of the set's
    /// exactly when the set has room for the descriptor.
    fn idx_bit(fd: &SocketFd) -> (place: (usize, u64))
        ensures
            place.0 < 16 <==> 0 <= fd.0 < 1024,
            0 <= fd.0 < 1024 ==> place.0 == fd.0 / 64 && place.1 == 1u64 << ((fd.0 % 64) as u64),
    {
        let raw: i32 = fd.0;
        let fd: usize = (#[verifier::truncate] (raw as usize));
        let idx: usize = fd / 64;
        let shift: usize = fd % 64;
        let bit: u64 = 1u64 << shift;
        proof {
            assert(raw < 0 ==> (raw as usize) / 64 >= 16) by (bit_vector);
        }
        (idx, bit)
    }

    /// The descriptors in the set, in rising order.
    pub fn members(&self) -> (bits: Vec<usize>)
        ensures
            forall|i: int, j: int| 0 <= i < j < bits@.len() ==> bits@[i] < bits@[j],
            forall|fd: int| self@.contains(fd) <==> exists|i: int|
                0 <= i < bits@.len() && bits@[i] == fd,
    {
        let mut bits: Vec<usize> = Vec::new();
        let mut fd: usize = 0;
        while fd < 1024
            invariant
                fd <= 1024,
                forall|i: int, j: int| 0 <= i < j < bits@.len() ==> bits@[i] < bits@[j],
                forall|i: int| 0 <= i < bits@.len() ==> bits@[i] < fd,
                forall|i: int| 0 <= i < bits@.len() ==> holds(self.fds, bits@[i] as int),
                forall|other: int|
                    0 <= other < fd && holds(self.fds, other) ==> exists|i: int|
                        0 <= i < bits@.len() && bits@[i] == other,
            decreases 1024 - fd,
        {
            let chunk = self.fds[fd / 64];
            let shift: usize = fd % 64;
            if (chunk & (1u64 << shift)) != 0 {
                let ghost before = bits@;
                bits.push(fd);
                assert(forall|i: int| 0 <= i < before.len() ==> bits@[i] == before[i]);
                assert(bits@[before.len() as int] == fd);
                assert forall|other: int|
                    0 <= other < fd + 1 && holds(self.fds, other) implies exists|i: int|
                    0 <= i < bits@.len() && bits@[i] == other by {
                    if other < fd {
                        let i = choose|i: int| 0 <= i < before.len() && before[i] == other;
                        assert(bits@[i] == other);
                    } else {
                        assert(bits@[before.len() as int] == other);
                    }
                }
            }
            fd = fd + 1;
        }
        bits
    }
}

} // verus!

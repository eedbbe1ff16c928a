//! The lifetime of a shared region: kept open across the replacement of a child's
//! program for one test case, then released.
use vstd::prelude::*;

use crate::bridge::{all_digits, digits_in, digits_value};
use crate::description::RegionDescription;

verus! {

/// The descriptor flag that closes a descriptor when a process replaces its program.
pub const FD_CLOEXEC: i32 = 1;

/// The descriptor flags that keep a descriptor open across program replacement.
pub open spec fn persistent_flags(flags: i32) -> i32 {
    flags & !FD_CLOEXEC
}

/// The descriptor flags of the default disposition: closed on program replacement.
pub open spec fn default_flags(flags: i32) -> i32 {
    flags | FD_CLOEXEC
}

/// Where a region stands in its one test case.
#[derive(Clone, Copy, Debug, PartialEq, Eq, Structural)]
pub enum RegionState {
    /// Made, with the default disposition.
    Created,
    /// Its descriptor survives program replacement.
    Persistent,
    /// Given back; it serves no further test case.
    Released,
}

/// Why a step of a region's lifetime was refused.
#[derive(Clone, Copy, Debug, PartialEq, Eq, Structural)]
pub enum RegionError {
    /// A region of no bytes was asked for.
    ZeroSized,
    /// The descriptor's flags could not be read.
    FlagsUnavailable,
    /// The region was already released.
    Released,
}

/// One shared region and where it stands.
pub struct SharedRegion {
    description: RegionDescription,
    state: RegionState,
}

impl SharedRegion {
    /// The region's description.
    pub closed spec fn spec_description(&self) -> RegionDescription {
        self.description
    }

    /// Where the region stands.
    pub closed spec fn spec_state(&self) -> RegionState {
        self.state
    }

    /// No region is empty.
    pub closed spec fn wf(&self) -> bool {
        self.description.length > 0
    }

    /// Checks a region's length before the region is made: one of no bytes is refused.
    pub fn check_size(length: usize) -> (r: Result<(), RegionError>)
        ensures
            length == 0 ==> r == Err::<(), RegionError>(RegionError::ZeroSized),
            length > 0 ==> r is Ok,
    {
        if length == 0 {
            Err(RegionError::ZeroSized)
        } else {
            Ok(())
        }
    }

    /// A freshly made region; one of no bytes is refused.
    pub fn create(description: RegionDescription) -> (r: Result<Self, RegionError>)
        ensures
            description.length == 0 ==> (r matches Err(e) && e == RegionError::ZeroSized),
            description.length > 0 ==> (r matches Ok(g) && g.wf() && g.spec_description()
                == description && g.spec_state() == RegionState::Created),
    {
        if let Err(e) = Self::check_size(description.length) {
            return Err(e);
        }
        Ok(SharedRegion { description, state: RegionState::Created })
    }

    /// The region's description.
    pub fn description(&self) -> (r: RegionDescription)
        ensures
            r == self.spec_description(),
    {
        self.description
    }

    /// Where the region stands.
    pub fn state(&self) -> (r: RegionState)
        ensures
            r == self.spec_state(),
    {
        self.state
    }

    /// Keeps the descriptor open across program replacement, given its current flags
    /// (`-1` when they could not be read). Returns the flags to set. Doing it twice
    /// changes nothing more.
    pub fn mark_persistent(&mut self, current_flags: i32) -> (r: Result<i32, RegionError>)
        requires
            old(self).wf(),
        ensures
            final(self).wf(),
            final(self).spec_description() == old(self).spec_description(),
            old(self).spec_state() == RegionState::Released ==> r == Err::<i32, RegionError>(
                RegionError::Released,
            ) && final(self).spec_state() == RegionState::Released,
            old(self).spec_state() != RegionState::Released && current_flags == -1 ==> r == Err::<
                i32,
                RegionError,
            >(RegionError::FlagsUnavailable) && final(self).spec_state() == old(self).spec_state(),
            old(self).spec_state() != RegionState::Released && current_flags != -1 ==> r == Ok::<
                i32,
                RegionError,
            >(persistent_flags(current_flags)) && final(self).spec_state()
                == RegionState::Persistent,
    {
        if self.state == RegionState::Released {
            return Err(RegionError::Released);
        }
        if current_flags == -1 {
            return Err(RegionError::FlagsUnavailable);
        }
        self.state = RegionState::Persistent;
        Ok(current_flags & !FD_CLOEXEC)
    }

    /// Gives the descriptor its default disposition back, given its current flags.
    /// Returns the flags to set.
    pub fn restore_default_exec_behavior(&mut self, current_flags: i32) -> (r: Result<
        i32,
        RegionError,
    >)
        requires
            old(self).wf(),
        ensures
            final(self).wf(),
            final(self).spec_description() == old(self).spec_description(),
            old(self).spec_state() == RegionState::Released ==> r == Err::<i32, RegionError>(
                RegionError::Released,
            ) && final(self).spec_state() == RegionState::Released,
            old(self).spec_state() != RegionState::Released && current_flags == -1 ==> r == Err::<
                i32,
                RegionError,
            >(RegionError::FlagsUnavailable) && final(self).spec_state() == old(self).spec_state(),
            old(self).spec_state() != RegionState::Released && current_flags != -1 ==> r == Ok::<
                i32,
                RegionError,
            >(default_flags(current_flags)) && final(self).spec_state() == RegionState::Created,
    {
        if self.state == RegionState::Released {
            return Err(RegionError::Released);
        }
        if current_flags == -1 {
            return Err(RegionError::FlagsUnavailable);
        }
        self.state = RegionState::Created;
        Ok(current_flags | FD_CLOEXEC)
    }

    /// Releases the region at the end of its test case: the default disposition is
    /// restored before the descriptor is closed, so that no later child inherits it.
    /// Returns the flags to set before closing.
    pub fn release(&mut self, current_flags: i32) -> (r: Result<i32, RegionError>)
        requires
            old(self).wf(),
        ensures
            final(self).wf(),
            final(self).spec_description() == old(self).spec_description(),
            old(self).spec_state() == RegionState::Released ==> r == Err::<i32, RegionError>(
                RegionError::Released,
            ) && final(self).spec_state() == RegionState::Released,
            old(self).spec_state() != RegionState::Released && current_flags == -1 ==> r == Err::<
                i32,
                RegionError,
            >(RegionError::FlagsUnavailable) && final(self).spec_state() == old(self).spec_state(),
            old(self).spec_state() != RegionState::Released && current_flags != -1 ==> r == Ok::<
                i32,
                RegionError,
            >(default_flags(current_flags)) && final(self).spec_state() == RegionState::Released,
    {
        if self.state == RegionState::Released {
            return Err(RegionError::Released);
        }
        if current_flags == -1 {
            return Err(RegionError::FlagsUnavailable);
        }
        self.state = RegionState::Released;
        Ok(current_flags | FD_CLOEXEC)
    }
}

/// Marking a descriptor persistent clears its close-on-exec flag and keeps the
/// others; doing it again changes nothing; restoring the default sets the flag
/// again, so that a child spawned after release does not inherit the descriptor.
pub proof fn lemma_persistence_round_trip(flags: i32)
    ensures
        persistent_flags(flags) & FD_CLOEXEC == 0,
        persistent_flags(persistent_flags(flags)) == persistent_flags(flags),
        default_flags(persistent_flags(flags)) & FD_CLOEXEC == FD_CLOEXEC,
        default_flags(persistent_flags(flags)) == default_flags(flags),
        persistent_flags(flags) & !FD_CLOEXEC == flags & !FD_CLOEXEC,
{
    assert(flags & !1i32 & 1i32 == 0) by (bit_vector);
    assert(flags & !1i32 & !1i32 == flags & !1i32) by (bit_vector);
    assert(((flags & !1i32) | 1i32) & 1i32 == 1i32) by (bit_vector);
    assert((flags & !1i32) | 1i32 == flags | 1i32) by (bit_vector);
}

/// True when the handle's text, its bytes before the first zero byte, has `n` bytes.
pub open spec fn text_end(handle: Seq<u8>, n: int) -> bool {
    &&& 0 <= n <= handle.len()
    &&& forall|j: int| 0 <= j < n ==> #[trigger] handle[j] != 0
    &&& n < handle.len() ==> handle[n] == 0
}

/// The descriptor number that a text spells, where it spells one.
pub open spec fn descriptor_of(t: Seq<u8>) -> Option<i32> {
    if t.len() > 0 && all_digits(t) && digits_value(t) <= i32::MAX {
        Some(digits_value(t) as i32)
    } else {
        None
    }
}

/// The descriptor number in a handle whose text is one.
pub fn fd_of_handle(handle: &[u8; 20]) -> (r: Option<i32>)
    ensures
        forall|n: int| text_end(handle@, n) ==> r == descriptor_of(handle@.take(n)),
{
    let mut n: usize = 0;
    while n < 20 && handle[n] != 0
        invariant
            n <= 20,
            handle@.len() == 20,
            forall|j: int| 0 <= j < n ==> #[trigger] handle@[j] != 0,
        decreases 20 - n,
    {
        n = n + 1;
    }
    proof {
        assert(text_end(handle@, n as int));
        assert forall|m: int| text_end(handle@, m) implies m == n by {
            if m < n {
                assert(handle@[m] != 0);
            }
            if n < m {
                assert(handle@[n as int] != 0);
            }
        }
        assert(handle@.take(n as int) =~= handle@.subrange(0, n as int));
    }
    if n == 0 {
        return None;
    }
    match digits_in(handle.as_slice(), 0, n, 2147483647) {
        None => None,
        Some(v) => Some(v as i32),
    }
}

} // verus!

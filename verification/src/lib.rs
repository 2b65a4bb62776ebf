//! A verified core for reading per-core CPU cycle counters.
//!
//! The library models the three pieces a cycle sampler needs: [`Cycles`], a
//! signed fixed-point count with unit conversions and usage arithmetic;
//! [`CyclesInstant`], a core-tagged snapshot that can only be subtracted from
//! a snapshot of the same core; and [`CyclesReader`], the owner of one native
//! performance-counter allocation across its create / enable / disable /
//! read / destroy lifecycle.
//!
//! The privileged syscalls stay outside the library: the caller performs
//! them and hands their outcomes in as plain values, and the reader hands
//! back the native actions that are still owed. Every decision — which core a
//! snapshot belongs to, when arithmetic overflows, and that a released
//! allocation is never released twice — is made and verified here.

mod cycles;
mod error;
mod instant;

pub use cycles::{
    digit_char, fits_i64, lemma_ghz_round_trip, lemma_hz_round_trip, lemma_khz_round_trip,
    lemma_mhz_round_trip, spec_as_ghz, spec_as_hz, spec_as_khz, spec_as_mhz, spec_decimal_digits,
    spec_display, spec_estimated_hz, spec_from_ghz, spec_from_hz, spec_from_khz, spec_from_mhz,
    spec_signed_decimal, spec_two_decimals, trunc_div, trunc_rem, Cycles, UsageRatio,
};
pub use error::Error;
pub use instant::CyclesInstant;

use vstd::prelude::*;

verus! {

/// The native teardown steps a call to [`CyclesReader::destroy`] asks its
/// caller to perform on the raw allocation.
#[derive(Clone, Copy, Debug, PartialEq, Eq, Structural)]
pub enum DestroyAction {
    /// Stop the counters with the native disable call, then release the
    /// allocation.
    DisableThenRelease,
    /// The counters are already stopped: release the allocation.
    ReleaseOnly,
    /// The allocation is already released: do not touch it again.
    Nothing,
}

/// The owner of one native performance-counter allocation, covering one
/// cycle counter per configured core.
///
/// The reader tracks what the native resource owes and what it has already
/// been given: whether counting is enabled and whether the allocation has
/// been released. The caller performs each native call and reports its
/// outcome; the reader decides what the outcome means and which native
/// action, if any, is still due, so that a released allocation is provably
/// never used or released again.
pub struct CyclesReader {
    cores: Vec<i32>,
    enabled: bool,
    released: bool,
}

impl CyclesReader {
    /// The identifiers of the cores whose counters the allocation covers.
    pub closed spec fn spec_cores(&self) -> Seq<i32> {
        self.cores@
    }

    /// Whether the counters are currently counting.
    pub closed spec fn spec_enabled(&self) -> bool {
        self.enabled
    }

    /// Whether the native allocation has been released.
    pub closed spec fn spec_released(&self) -> bool {
        self.released
    }

    /// Takes ownership of a freshly requested native allocation for the
    /// given cores; `native_created` reports whether the native create call
    /// returned an allocation or failed.
    ///
    /// Fails with [`Error::FailedToCreate`] exactly when the native call
    /// failed, in which case no reader exists and nothing stays allocated. A
    /// new reader starts with counting disabled.
    pub fn new(cores: Vec<i32>, native_created: bool) -> (r: Result<CyclesReader, Error>)
        ensures
            r is Ok <==> native_created,
            (r matches Ok(h) ==> h.spec_cores() == cores@ && !h.spec_enabled()
                && !h.spec_released()),
            (r matches Err(e) ==> e == Error::FailedToCreate),
    {
        if native_created {
            Ok(CyclesReader { cores, enabled: false, released: false })
        } else {
            Err(Error::FailedToCreate)
        }
    }

    /// The number of configured cores: the exact size any batch of readings
    /// must have.
    pub fn core_count(&self) -> (n: usize)
        ensures
            n == self.spec_cores().len(),
    {
        self.cores.len()
    }

    /// Whether the native allocation has already been released; after that
    /// the reader refuses further use.
    pub fn is_destroyed(&self) -> (b: bool)
        ensures
            b == self.spec_released(),
    {
        self.released
    }

    /// Marks the counters enabled. Returns whether the caller should issue
    /// the native enable call: always, except on a released allocation,
    /// which must not be touched. Enabling twice is harmless — the native
    /// call toggles counting and allocates nothing.
    pub fn enable(&mut self) -> (perform: bool)
        ensures
            perform == !old(self).spec_released(),
            old(self).spec_released() ==> *final(self) == *old(self),
            final(self).spec_cores() == old(self).spec_cores(),
            final(self).spec_released() == old(self).spec_released(),
            !old(self).spec_released() ==> final(self).spec_enabled(),
    {
        if self.released {
            false
        } else {
            self.enabled = true;
            true
        }
    }

    /// Marks the counters disabled. Returns whether the caller should issue
    /// the native disable call: always, except on a released allocation,
    /// which must not be touched.
    pub fn disable(&mut self) -> (perform: bool)
        ensures
            perform == !old(self).spec_released(),
            old(self).spec_released() ==> *final(self) == *old(self),
            final(self).spec_cores() == old(self).spec_cores(),
            final(self).spec_released() == old(self).spec_released(),
            !old(self).spec_released() ==> !final(self).spec_enabled(),
    {
        if self.released {
            false
        } else {
            self.enabled = false;
            true
        }
    }

    /// Interprets one native read: the caller read core `cpu` and got
    /// `raw_count` back, where the native sentinel `-1` signals a failed
    /// read (a core outside the configuration, or a device error).
    ///
    /// Returns the core-tagged snapshot, or [`Error::FailedToRead`] exactly
    /// when the sentinel came back. Reading never changes the reader, and a
    /// released allocation must not be read at all.
    pub fn instant(&mut self, cpu: i32, raw_count: i64) -> (r: Result<CyclesInstant, Error>)
        requires
            !old(self).spec_released(),
        ensures
            *final(self) == *old(self),
            r is Ok <==> raw_count != -1,
            (r matches Ok(inst) ==> inst.spec_cpu() == cpu as int && inst.spec_value()
                == raw_count as int),
            (r matches Err(e) ==> e == Error::FailedToRead),
    {
        if raw_count == -1 {
            Err(Error::FailedToRead)
        } else {
            Ok(CyclesInstant::new(cpu, Cycles::new(raw_count)))
        }
    }

    /// Decides the teardown of the native allocation: disable first when the
    /// counters still count, then release — and never release twice. The
    /// caller performs the returned action; a second destroy finds the
    /// allocation already released, changes nothing and asks for nothing.
    pub fn destroy(&mut self) -> (act: DestroyAction)
        ensures
            final(self).spec_released(),
            final(self).spec_cores() == old(self).spec_cores(),
            old(self).spec_released() ==> act == DestroyAction::Nothing && *final(self) == *old(
                self,
            ),
            !old(self).spec_released() && old(self).spec_enabled() ==> act
                == DestroyAction::DisableThenRelease,
            !old(self).spec_released() && !old(self).spec_enabled() ==> act
                == DestroyAction::ReleaseOnly,
            !old(self).spec_released() ==> !final(self).spec_enabled(),
    {
        if self.released {
            DestroyAction::Nothing
        } else if self.enabled {
            self.enabled = false;
            self.released = true;
            DestroyAction::DisableThenRelease
        } else {
            self.released = true;
            DestroyAction::ReleaseOnly
        }
    }
}

} // verus!


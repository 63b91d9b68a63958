//! The bookkeeping of volume ducking while speech is heard.
//!
//! Probable speech lowers the sink volume by a percentage, and the end of
//! speech (or a rejected candidate) restores the volume saved before. Duck
//! and restore run asynchronously; an epoch, bumped by every restore,
//! makes a duck requested before a restore give up, so a late duck can never
//! leave the sink lowered. The volume is of the caller's type `V`: reading
//! and setting it, and computing the lowered level, are the caller's.
use vstd::prelude::*;

verus! {

/// Ducking state: the settings, the volume saved while ducked, and the
/// epoch of restores.
#[derive(Debug, Clone)]
pub struct DuckCore<V> {
    /// Whether ducking is on.
    pub enabled: bool,
    /// The reduction in percent (0 to 100).
    pub percent: u8,
    /// The volume before ducking, while the sink is ducked.
    pub saved: Option<V>,
    /// Bumped by every restore.
    pub epoch: u64,
}

/// `percent`, capped at 100.
pub open spec fn capped(percent: u8) -> u8 {
    if percent > 100 {
        100
    } else {
        percent
    }
}

impl<V> DuckCore<V> {
    /// Ducking with the given settings (the percentage capped at 100),
    /// nothing ducked.
    pub fn new(enabled: bool, percent: u8) -> (r: Self)
        ensures
            r.enabled == enabled,
            r.percent == capped(percent),
            r.saved is None,
            r.epoch == 0,
    {
        DuckCore { enabled, percent: if percent > 100 { 100 } else { percent }, saved: None, epoch: 0 }
    }

    /// Changes the settings (the percentage capped at 100); a duck already
    /// requested keeps the percentage it was given.
    pub fn set_settings(&mut self, enabled: bool, percent: u8)
        ensures
            final(self).enabled == enabled,
            final(self).percent == capped(percent),
            final(self).saved == old(self).saved,
            final(self).epoch == old(self).epoch,
    {
        self.enabled = enabled;
        self.percent = if percent > 100 { 100 } else { percent };
    }

    /// Whether the sink is ducked (a volume is saved).
    pub fn is_ducked(&self) -> (r: bool)
        ensures
            r == self.saved is Some,
    {
        self.saved.is_some()
    }

    /// Probable speech: the epoch and percentage of a duck to run, or
    /// `None` when ducking is off, the percentage is zero or the sink is
    /// already ducked.
    pub fn request_duck(&self) -> (r: Option<(u64, u8)>)
        ensures
            r == (if self.enabled && self.percent != 0 && self.saved is None {
                Some((self.epoch, self.percent))
            } else {
                None
            }),
    {
        if self.enabled && self.percent != 0 && self.saved.is_none() {
            Some((self.epoch, self.percent))
        } else {
            None
        }
    }

    /// Whether a duck requested in epoch `requested` may still go on (no
    /// restore came since).
    pub fn still_current(&self, requested: u64) -> (r: bool)
        ensures
            r == (self.epoch == requested),
    {
        self.epoch == requested
    }

    /// A duck requested in epoch `requested` read the volume `current`: it
    /// is saved, and the duck goes on to lower the sink, unless a restore
    /// came since or another duck saved first (then nothing changes and the
    /// sink is left alone).
    pub fn save_for_duck(&mut self, requested: u64, current: V) -> (r: bool)
        ensures
            r == (old(self).epoch == requested && old(self).saved is None),
            r ==> final(self).saved == Some(current),
            !r ==> final(self).saved == old(self).saved,
            final(self).epoch == old(self).epoch,
            final(self).enabled == old(self).enabled,
            final(self).percent == old(self).percent,
    {
        if self.epoch == requested && self.saved.is_none() {
            self.saved = Some(current);
            true
        } else {
            false
        }
    }

    /// A restore is requested: ducks requested before it will give up.
    pub fn begin_restore(&mut self)
        ensures
            final(self).epoch == next_epoch(old(self).epoch),
            final(self).saved == old(self).saved,
            final(self).enabled == old(self).enabled,
            final(self).percent == old(self).percent,
    {
        self.epoch = self.epoch.wrapping_add(1);
    }

    /// The restore runs: the saved volume to set back, if the sink is
    /// ducked; afterwards it is not.
    pub fn take_saved(&mut self) -> (r: Option<V>)
        ensures
            r == old(self).saved,
            final(self).saved is None,
            final(self).epoch == old(self).epoch,
            final(self).enabled == old(self).enabled,
            final(self).percent == old(self).percent,
    {
        let mut taken: Option<V> = None;
        std::mem::swap(&mut taken, &mut self.saved);
        taken
    }
}

/// The epoch after a restore.
pub open spec fn next_epoch(e: u64) -> u64 {
    if e == u64::MAX {
        0
    } else {
        (e + 1) as u64
    }
}

/// A restore always moves the epoch on, so a duck requested before it
/// fails [`DuckCore::still_current`] and [`DuckCore::save_for_duck`] and
/// never lowers the sink after the restore.
pub proof fn law_restore_cancels_pending_duck(requested: u64)
    ensures
        next_epoch(requested) != requested,
{
}

} // verus!

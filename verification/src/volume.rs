//! The volumes of the machine, as the sampler reports them. The eject
//! subsystem offers the removable ones with a short mount point, and never
//! the volume that the system runs from.

use vstd::prelude::*;
use crate::sweep::{begins_with_folded, starts_with_folded};
use crate::text::{chars_of, fold_upper, to_upper_chars};

verus! {

/// The longest mount point of a volume that is offered for ejecting, in
/// characters: a letter, a colon and a separator.
pub const LONGEST_MOUNT_POINT: usize = 3;

/// The free memory under which the machine counts as short of resources,
/// in bytes.
pub const TIGHT_MEMORY: u64 = 500 * 1024 * 1024;

/// The highest level of the resource gauge.
pub const GAUGE_TOP: u8 = 5;

/// The level from which on the machine counts as short of resources.
pub const GAUGE_TIGHT: u8 = 3;

/// The pause between two samples while the machine is short of resources,
/// in milliseconds.
pub const SLOW_INTERVAL: u32 = 2000;

/// The pause between two samples otherwise, in milliseconds.
pub const FAST_INTERVAL: u32 = 500;

/// A volume in the snapshot of the sampler.
#[derive(Clone, Debug, PartialEq, Eq, Default)]
pub struct Volume {
    pub mount_point: String,
    pub label: String,
    pub free_bytes: u64,
    pub total_bytes: u64,
    pub removable: bool,
}

/// The mathematical model of a [`Volume`].
pub struct VolumeView {
    pub mount_point: Seq<char>,
    pub label: Seq<char>,
    pub free_bytes: u64,
    pub total_bytes: u64,
    pub removable: bool,
}

impl View for Volume {
    type V = VolumeView;

    open spec fn view(&self) -> VolumeView {
        VolumeView {
            mount_point: self.mount_point@,
            label: self.label@,
            free_bytes: self.free_bytes,
            total_bytes: self.total_bytes,
            removable: self.removable,
        }
    }
}

impl DeepView for Volume {
    type V = VolumeView;

    open spec fn deep_view(&self) -> VolumeView {
        self@
    }
}

/// A volume that is offered for ejecting: removable, with a mount point of
/// three characters at most.
pub open spec fn is_offered(v: VolumeView) -> bool {
    v.removable && v.mount_point.len() <= LONGEST_MOUNT_POINT
}

/// `s` without its longest suffix of slashes and backslashes.
pub open spec fn trim_slashes(s: Seq<char>) -> Seq<char>
    decreases s.len(),
{
    if s.len() > 0 && (s.last() == '\\' || s.last() == '/') {
        trim_slashes(s.drop_last())
    } else {
        s
    }
}

/// The mount point is that of the volume the system runs from: it begins
/// with the system's drive where the environment names one, with the
/// letter C otherwise, in either case.
pub open spec fn on_system_drive(mount_point: Seq<char>, system_drive: Option<Seq<char>>) -> bool {
    begins_with_folded(
        trim_slashes(mount_point),
        match system_drive {
            Some(drive) => fold_upper(drive),
            None => seq!['C'],
        },
    )
}

/// The level of the resource gauge after a sample: one up where the sample
/// found the machine short of resources, one down where it did not, and
/// never beyond the ends of the gauge.
pub open spec fn gauge_after(level: u8, tight_now: bool) -> u8 {
    if tight_now {
        if level < GAUGE_TOP {
            (level + 1) as u8
        } else {
            level
        }
    } else if level > 0 {
        (level - 1) as u8
    } else {
        level
    }
}

/// The gauge stays on its scale, and moves by one level at most with each
/// sample: a single sample never turns a machine at rest into one short of
/// resources.
pub proof fn lemma_gauge_moves_slowly(level: u8, tight_now: bool)
    requires
        level <= GAUGE_TOP,
    ensures
        gauge_after(level, tight_now) <= GAUGE_TOP,
        gauge_after(level, tight_now) - level <= 1,
        level - gauge_after(level, tight_now) <= 1,
        level == 0 ==> gauge_after(level, tight_now) < GAUGE_TIGHT,
{
}

/// Whether a volume is offered for ejecting.
pub fn offers(v: &Volume) -> (b: bool)
    ensures
        b == is_offered(v@),
{
    v.removable && v.mount_point.as_str().unicode_len() <= LONGEST_MOUNT_POINT
}

/// The places in the snapshot of the volumes that are offered for
/// ejecting, in the order of the snapshot.
pub fn offered_volumes(snapshot: &Vec<Volume>) -> (places: Vec<usize>)
    ensures
        forall|k: int|
            0 <= k < places.len() ==> (#[trigger] places[k]) < snapshot.len() && is_offered(
                snapshot[places[k] as int]@,
            ),
        forall|j: int, k: int|
            0 <= j < k < places.len() ==> (#[trigger] places[j]) < (#[trigger] places[k]),
        forall|i: int|
            0 <= i < snapshot.len() && is_offered(#[trigger] snapshot[i]@) ==> exists|k: int|
                0 <= k < places.len() && #[trigger] places[k] == i,
{
    let mut places: Vec<usize> = Vec::new();
    let mut i: usize = 0;
    while i < snapshot.len()
        invariant
            i <= snapshot.len(),
            forall|k: int|
                0 <= k < places.len() ==> (#[trigger] places[k]) < i && is_offered(
                    snapshot[places[k] as int]@,
                ),
            forall|j: int, k: int|
                0 <= j < k < places.len() ==> (#[trigger] places[j]) < (#[trigger] places[k]),
            forall|n: int|
                0 <= n < i && is_offered(#[trigger] snapshot[n]@) ==> exists|k: int|
                    0 <= k < places.len() && #[trigger] places[k] == n,
        decreases snapshot.len() - i,
    {
        let ghost before = places@;
        if offers(&snapshot[i]) {
            places.push(i);
            assert(places@ == before.push(i));
        }
        assert forall|n: int| 0 <= n < i + 1 && is_offered(
            #[trigger] snapshot[n]@,
        ) implies exists|k: int| 0 <= k < places.len() && #[trigger] places[k] == n by {
            if n < i {
                let k = choose|k: int| 0 <= k < before.len() && #[trigger] before[k] == n;
                assert(places[k] == n);
            } else {
                assert(places[places.len() - 1] == n);
            }
        }
        i = i + 1;
    }
    places
}

/// Cuts the slashes and backslashes that trail `v`.
fn trim_slash_chars(v: &Vec<char>) -> (r: Vec<char>)
    ensures
        r@ == trim_slashes(v@),
{
    let mut n: usize = v.len();
    assert(v@.subrange(0, n as int) == v@);
    while n > 0 && (v[n - 1] == '\\' || v[n - 1] == '/')
        invariant
            n <= v.len(),
            trim_slashes(v@) == trim_slashes(v@.subrange(0, n as int)),
        decreases n,
    {
        assert(v@.subrange(0, n as int).drop_last() == v@.subrange(0, n - 1));
        n = n - 1;
    }
    let mut r: Vec<char> = Vec::new();
    let mut i: usize = 0;
    while i < n
        invariant
            i <= n,
            n <= v.len(),
            r@ == v@.subrange(0, i as int),
        decreases n - i,
    {
        r.push(v[i]);
        i = i + 1;
    }
    r
}

/// Whether the mount point is that of the volume the system runs from.
/// `system_drive` is the system's drive as the environment names it.
pub fn is_system_volume(mount_point: &str, system_drive: Option<&str>) -> (b: bool)
    ensures
        b == on_system_drive(
            mount_point@,
            match system_drive {
                Some(drive) => Some(drive@),
                None => None,
            },
        ),
{
    let mount = trim_slash_chars(&chars_of(mount_point));
    let prefix = match system_drive {
        Some(drive) => to_upper_chars(&chars_of(drive)),
        None => {
            let mut c: Vec<char> = Vec::new();
            c.push('C');
            assert(c@ == seq!['C']);
            c
        },
    };
    starts_with_folded(&mount, &prefix)
}

/// Whether a volume counts as removable: the platform says so, and the
/// system does not run from it.
pub fn counts_as_removable(
    mount_point: &str,
    system_drive: Option<&str>,
    removable_device: bool,
) -> (b: bool)
    ensures
        b == (removable_device && !on_system_drive(
            mount_point@,
            match system_drive {
                Some(drive) => Some(drive@),
                None => None,
            },
        )),
{
    removable_device && !is_system_volume(mount_point, system_drive)
}

/// The level of the resource gauge after a sample.
pub fn gauge_step(level: u8, tight_now: bool) -> (next: u8)
    ensures
        next == gauge_after(level, tight_now),
{
    if tight_now {
        if level < GAUGE_TOP {
            level + 1
        } else {
            level
        }
    } else if level > 0 {
        level - 1
    } else {
        level
    }
}

/// Whether the machine counts as short of resources at this level of the
/// gauge.
pub fn is_tight(level: u8) -> (b: bool)
    ensures
        b == (level >= GAUGE_TIGHT),
{
    level >= GAUGE_TIGHT
}

/// Whether a sample finds the machine short of resources: the processor is
/// busy, or less memory is free than the machine needs.
pub fn sample_is_tight(busy_processor: bool, free_memory: u64) -> (b: bool)
    ensures
        b == (busy_processor || free_memory < TIGHT_MEMORY),
{
    busy_processor || free_memory < TIGHT_MEMORY
}

/// The pause before the next sample, in milliseconds.
pub fn sample_interval(tight_now: bool) -> (ms: u32)
    ensures
        ms == if tight_now {
            SLOW_INTERVAL
        } else {
            FAST_INTERVAL
        },
{
    if tight_now {
        SLOW_INTERVAL
    } else {
        FAST_INTERVAL
    }
}

} // verus!

//! Queue family resolution: which family renders and which presents.
use vstd::prelude::*;

verus! {

/// Bit of a queue family's capability mask that marks graphics support.
pub const QUEUE_GRAPHICS_BIT: u32 = 1;

/// What the device reports of one queue family, together with whether it can
/// present to the window surface.
#[derive(Clone, Copy, Debug, PartialEq, Eq, Structural)]
pub struct QueueFamilyProperties {
    pub queue_count: u32,
    pub queue_flags: u32,
    pub present_support: bool,
}

/// The resolved queue families; either may be missing while resolving.
#[derive(Clone, Copy, Debug, PartialEq, Eq, Structural)]
pub struct QueueFamilyIndices {
    pub graphics_family: Option<u32>,
    pub present_family: Option<u32>,
}

pub open spec fn indices_complete(q: QueueFamilyIndices) -> bool {
    q.graphics_family is Some && q.present_family is Some
}

pub open spec fn supports_graphics(f: QueueFamilyProperties) -> bool {
    f.queue_count > 0 && f.queue_flags & QUEUE_GRAPHICS_BIT != 0
}

pub open spec fn supports_present(f: QueueFamilyProperties) -> bool {
    f.queue_count > 0 && f.present_support
}

/// The families chosen after looking at the first `n` entries: each family
/// that qualifies replaces the earlier choice, and the scan stops as soon as
/// both roles are filled.
pub open spec fn scan_families(fams: Seq<QueueFamilyProperties>, n: nat) -> QueueFamilyIndices
    decreases n,
{
    if n == 0 {
        QueueFamilyIndices { graphics_family: None, present_family: None }
    } else {
        let prev = scan_families(fams, (n - 1) as nat);
        if indices_complete(prev) {
            prev
        } else {
            let f = fams[n - 1];
            let i = (n - 1) as u32;
            QueueFamilyIndices {
                graphics_family: if supports_graphics(f) { Some(i) } else { prev.graphics_family },
                present_family: if supports_present(f) { Some(i) } else { prev.present_family },
            }
        }
    }
}

impl QueueFamilyIndices {
    /// Both a graphics family and a present family were found.
    pub fn is_complete(&self) -> (r: bool)
        ensures
            r == indices_complete(*self),
    {
        self.graphics_family.is_some() && self.present_family.is_some()
    }
}

proof fn lemma_scan_chooses_qualifying(fams: Seq<QueueFamilyProperties>, n: nat)
    requires
        n <= fams.len() <= u32::MAX,
    ensures
        ({
            let q = scan_families(fams, n);
            &&& (q.graphics_family matches Some(g) ==> g < n && supports_graphics(fams[g as int]))
            &&& (q.present_family matches Some(p) ==> p < n && supports_present(fams[p as int]))
            &&& (q.graphics_family is None ==> forall|i: int|
                0 <= i < n ==> !supports_graphics(#[trigger] fams[i]))
            &&& (q.present_family is None ==> forall|i: int|
                0 <= i < n ==> !supports_present(#[trigger] fams[i]))
        }),
    decreases n,
{
    if n > 0 {
        lemma_scan_chooses_qualifying(fams, (n - 1) as nat);
    }
}

/// Looks through the device's queue families for one that renders and one
/// that presents to the surface; the two may be the same family.
pub fn find_queue_families(families: &Vec<QueueFamilyProperties>) -> (r: QueueFamilyIndices)
    requires
        families@.len() <= u32::MAX,
    ensures
        r == scan_families(families@, families@.len()),
        r.graphics_family matches Some(g) ==> g < families@.len() && supports_graphics(
            families@[g as int],
        ),
        r.present_family matches Some(p) ==> p < families@.len() && supports_present(
            families@[p as int],
        ),
        r.graphics_family is None <==> forall|i: int|
            0 <= i < families@.len() ==> !supports_graphics(#[trigger] families@[i]),
        r.present_family is None <==> forall|i: int|
            0 <= i < families@.len() ==> !supports_present(#[trigger] families@[i]),
{
    let mut indices = QueueFamilyIndices { graphics_family: None, present_family: None };
    let mut i: usize = 0;
    while i < families.len()
        invariant
            i <= families@.len() <= u32::MAX,
            indices == scan_families(families@, i as nat),
            !indices_complete(indices),
        decreases families@.len() - i,
    {
        let family = families[i];
        if family.queue_count > 0 && family.queue_flags & QUEUE_GRAPHICS_BIT != 0 {
            indices.graphics_family = Some(i as u32);
        }
        if family.queue_count > 0 && family.present_support {
            indices.present_family = Some(i as u32);
        }
        i = i + 1;
        if indices.is_complete() {
            proof {
                lemma_scan_stays_complete(families@, i as nat, families@.len());
                lemma_scan_chooses_qualifying(families@, families@.len());
            }
            return indices;
        }
    }
    proof {
        lemma_scan_chooses_qualifying(families@, families@.len());
    }
    indices
}

proof fn lemma_scan_stays_complete(fams: Seq<QueueFamilyProperties>, n: nat, m: nat)
    requires
        n <= m,
        indices_complete(scan_families(fams, n)),
    ensures
        scan_families(fams, m) == scan_families(fams, n),
    decreases m - n,
{
    if n < m {
        lemma_scan_stays_complete(fams, n, (m - 1) as nat);
    }
}

} // verus!

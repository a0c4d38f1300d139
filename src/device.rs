//! Physical device selection: extension and layer names, required features
//! and queue families.
use vstd::prelude::*;
use crate::queue_family::{
    QueueFamilyIndices,
    QueueFamilyProperties,
    find_queue_families,
    indices_complete,
    scan_families,
};

verus! {

/// What the device and the surface report about one physical device.
#[derive(Clone, Debug)]
pub struct DeviceProfile {
    pub geometry_shader: bool,
    pub sampler_anisotropy: bool,
    pub queue_families: Vec<QueueFamilyProperties>,
    /// Names of the device extensions it offers, as bytes without terminator.
    pub extensions: Vec<Vec<u8>>,
    /// How many surface formats and present modes the surface offers on it.
    pub surface_format_count: usize,
    pub present_mode_count: usize,
}

pub open spec fn names_view(names: Seq<Vec<u8>>) -> Seq<Seq<u8>> {
    names.map_values(|n: Vec<u8>| n@)
}

/// The names in `required` that `available` lacks, in their order.
pub open spec fn missing(required: Seq<Seq<u8>>, available: Seq<Seq<u8>>) -> Seq<Seq<u8>>
    decreases required.len(),
{
    if required.len() == 0 {
        Seq::empty()
    } else {
        let rest = missing(required.drop_last(), available);
        if available.contains(required.last()) {
            rest
        } else {
            rest.push(required.last())
        }
    }
}

pub open spec fn all_present(required: Seq<Seq<u8>>, available: Seq<Seq<u8>>) -> bool {
    forall|i: int| 0 <= i < required.len() ==> available.contains(#[trigger] required[i])
}

/// A device can be used: it has both queue families, every required
/// extension, a surface format and a present mode, and the required features.
pub open spec fn device_suitable(p: DeviceProfile, required_extensions: Seq<Seq<u8>>) -> bool {
    &&& all_present(required_extensions, names_view(p.extensions@))
    &&& p.surface_format_count > 0
    &&& p.present_mode_count > 0
    &&& p.geometry_shader
    &&& p.sampler_anisotropy
    &&& p.queue_families@.len() <= u32::MAX
    &&& indices_complete(scan_families(p.queue_families@, p.queue_families@.len()))
}

fn copy_name(name: &Vec<u8>) -> (r: Vec<u8>)
    ensures
        r@ == name@,
{
    let mut r: Vec<u8> = Vec::new();
    let mut i: usize = 0;
    while i < name.len()
        invariant
            i <= name@.len(),
            r@ == name@.take(i as int),
        decreases name@.len() - i,
    {
        r.push(name[i]);
        i = i + 1;
        proof {
            assert(r@ =~= name@.take(i as int));
        }
    }
    proof {
        assert(r@ =~= name@);
    }
    r
}

/// The two names hold the same bytes.
pub fn names_equal(a: &Vec<u8>, b: &Vec<u8>) -> (r: bool)
    ensures
        r == (a@ == b@),
{
    if a.len() != b.len() {
        return false;
    }
    let mut i: usize = 0;
    while i < a.len()
        invariant
            i <= a@.len(),
            a@.len() == b@.len(),
            a@.take(i as int) == b@.take(i as int),
        decreases a@.len() - i,
    {
        if a[i] != b[i] {
            proof {
                assert(a@[i as int] != b@[i as int]);
            }
            return false;
        }
        i = i + 1;
        proof {
            assert(a@.take(i as int) =~= a@.take(i - 1 as int).push(a@[i - 1 as int]));
            assert(b@.take(i as int) =~= b@.take(i - 1 as int).push(b@[i - 1 as int]));
        }
    }
    proof {
        assert(a@ =~= a@.take(i as int));
        assert(b@ =~= b@.take(i as int));
    }
    true
}

/// `name` is among `names`.
pub fn contains_name(names: &Vec<Vec<u8>>, name: &Vec<u8>) -> (r: bool)
    ensures
        r == names_view(names@).contains(name@),
{
    let mut i: usize = 0;
    while i < names.len()
        invariant
            i <= names@.len(),
            forall|j: int| 0 <= j < i ==> names@[j]@ != name@,
        decreases names@.len() - i,
    {
        if names_equal(&names[i], name) {
            proof {
                assert(names_view(names@)[i as int] == name@);
            }
            return true;
        }
        i = i + 1;
    }
    proof {
        if names_view(names@).contains(name@) {
            let k = choose|k: int| 0 <= k < names_view(names@).len() && names_view(names@)[k] == name@;
            assert(names@[k]@ == name@);
        }
    }
    false
}

/// The names of `required` that `available` does not offer, in order.
pub fn missing_names(required: &Vec<Vec<u8>>, available: &Vec<Vec<u8>>) -> (r: Vec<Vec<u8>>)
    ensures
        names_view(r@) == missing(names_view(required@), names_view(available@)),
{
    let mut r: Vec<Vec<u8>> = Vec::new();
    let mut i: usize = 0;
    while i < required.len()
        invariant
            i <= required@.len(),
            names_view(r@) == missing(names_view(required@).take(i as int), names_view(available@)),
        decreases required@.len() - i,
    {
        let ghost before = r@;
        let ghost req = names_view(required@);
        if !contains_name(available, &required[i]) {
            r.push(copy_name(&required[i]));
            proof {
                assert(names_view(r@) =~= names_view(before).push(required@[i as int]@));
            }
        }
        proof {
            assert(req.take(i + 1 as int).drop_last() =~= req.take(i as int));
            assert(req.take(i + 1 as int).last() == required@[i as int]@);
        }
        i = i + 1;
    }
    proof {
        assert(names_view(required@).take(i as int) =~= names_view(required@));
    }
    r
}

/// Every name of `required` is offered by `available`.
pub fn check_extension_support(required: &Vec<Vec<u8>>, available: &Vec<Vec<u8>>) -> (r: bool)
    ensures
        r == all_present(names_view(required@), names_view(available@)),
{
    let mut i: usize = 0;
    while i < required.len()
        invariant
            i <= required@.len(),
            forall|j: int|
                0 <= j < i ==> names_view(available@).contains(#[trigger] names_view(required@)[j]),
        decreases required@.len() - i,
    {
        if !contains_name(available, &required[i]) {
            proof {
                assert(!names_view(available@).contains(names_view(required@)[i as int]));
            }
            return false;
        }
        i = i + 1;
    }
    true
}

/// Whether the device has everything the renderer needs.
pub fn is_device_suitable(profile: &DeviceProfile, required_extensions: &Vec<Vec<u8>>) -> (r: bool)
    ensures
        r == device_suitable(*profile, names_view(required_extensions@)),
{
    if !check_extension_support(required_extensions, &profile.extensions) {
        return false;
    }
    if profile.surface_format_count == 0 || profile.present_mode_count == 0 {
        return false;
    }
    if !profile.geometry_shader || !profile.sampler_anisotropy {
        return false;
    }
    if profile.queue_families.len() > 0xffff_ffff {
        return false;
    }
    let indices = find_queue_families(&profile.queue_families);
    indices.is_complete()
}

/// The index of the first suitable device, if any.
pub fn pick_physical_device(profiles: &Vec<DeviceProfile>, required_extensions: &Vec<Vec<u8>>) -> (r:
    Option<usize>)
    ensures
        match r {
            Some(i) => i < profiles@.len() && device_suitable(
                profiles@[i as int],
                names_view(required_extensions@),
            ) && forall|j: int|
                0 <= j < i ==> !device_suitable(
                    #[trigger] profiles@[j],
                    names_view(required_extensions@),
                ),
            None => forall|j: int|
                0 <= j < profiles@.len() ==> !device_suitable(
                    #[trigger] profiles@[j],
                    names_view(required_extensions@),
                ),
        },
{
    let mut i: usize = 0;
    while i < profiles.len()
        invariant
            i <= profiles@.len(),
            forall|j: int|
                0 <= j < i ==> !device_suitable(
                    #[trigger] profiles@[j],
                    names_view(required_extensions@),
                ),
        decreases profiles@.len() - i,
    {
        if is_device_suitable(&profiles[i], required_extensions) {
            return Some(i);
        }
        i = i + 1;
    }
    None
}

/// The distinct families to create queues from: requesting one family twice
/// is invalid.
pub fn unique_queue_families(indices: &QueueFamilyIndices) -> (r: Vec<u32>)
    requires
        indices_complete(*indices),
    ensures
        indices.graphics_family == indices.present_family ==> r@ == seq![
            indices.graphics_family.unwrap(),
        ],
        indices.graphics_family != indices.present_family ==> r@ == seq![
            indices.graphics_family.unwrap(),
            indices.present_family.unwrap(),
        ],
{
    let graphics = indices.graphics_family.unwrap();
    let present = indices.present_family.unwrap();
    let mut r: Vec<u32> = Vec::new();
    r.push(graphics);
    if present != graphics {
        r.push(present);
    }
    proof {
        assert(r@ =~= if graphics == present {
            seq![graphics]
        } else {
            seq![graphics, present]
        });
    }
    r
}

} // verus!

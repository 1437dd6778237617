//! Physical-device selection: a pure scoring function over reported
//! capabilities, the queue-family search, and the device-extension check.

use vstd::prelude::*;

verus! {

/// The broad class of a physical device.
#[derive(Clone, Copy, PartialEq, Eq, Structural, Debug)]
pub enum DeviceClass {
    DiscreteGpu,
    IntegratedGpu,
    Other,
}

/// The capabilities of one physical device that the scoring policy reads.
#[derive(Clone, Copy, PartialEq, Eq, Structural, Debug)]
pub struct DeviceCaps {
    pub class: DeviceClass,
    pub max_image_dimension_2d: u32,
    pub geometry_shader: bool,
    pub tessellation_shader: bool,
}

/// The score the selection policy assigns to a device's capabilities.
pub open spec fn device_score(c: DeviceCaps) -> int {
    (if c.class == DeviceClass::DiscreteGpu {
        1000int
    } else if c.class == DeviceClass::IntegratedGpu {
        500int
    } else {
        0int
    }) + c.max_image_dimension_2d as int
        + (if c.geometry_shader { 100int } else { 0int })
        + (if c.tessellation_shader { 50int } else { 0int })
}

/// Score one device.
pub fn rate_device(c: &DeviceCaps) -> (score: u64)
    ensures
        score as int == device_score(*c),
{
    let mut score: u64 = match c.class {
        DeviceClass::DiscreteGpu => 1000,
        DeviceClass::IntegratedGpu => 500,
        DeviceClass::Other => 0,
    };
    score = score + c.max_image_dimension_2d as u64;
    if c.geometry_shader {
        score = score + 100;
    }
    if c.tessellation_shader {
        score = score + 50;
    }
    score
}

/// Why no device could be selected.
#[derive(Clone, Copy, PartialEq, Eq, Structural, Debug)]
pub enum SelectError {
    /// The instance reported no physical devices at all.
    NoDevices,
    /// Every reported device scored zero.
    NoSuitableDevice,
}

/// Select the best device: the first index attaining the maximum score,
/// provided that maximum is positive. Deterministic, so a selection over
/// live hardware can be replayed over recorded capabilities.
pub fn select_best_device(devices: &Vec<DeviceCaps>) -> (r: Result<usize, SelectError>)
    ensures
        (devices@.len() == 0) <==> (r == Err::<usize, SelectError>(SelectError::NoDevices)),
        (devices@.len() > 0 && (forall|i: int|
            0 <= i < devices@.len() ==> device_score(devices@[i]) <= 0)) <==> (r == Err::<
            usize,
            SelectError,
        >(SelectError::NoSuitableDevice)),
        r matches Ok(best) ==> {
            &&& 0 <= best < devices@.len()
            &&& device_score(devices@[best as int]) > 0
            &&& forall|i: int|
                0 <= i < devices@.len() ==> device_score(devices@[i]) <= device_score(
                    devices@[best as int],
                )
            &&& forall|i: int|
                0 <= i < best ==> device_score(devices@[i]) < device_score(devices@[best as int])
        },
{
    if devices.len() == 0 {
        return Err(SelectError::NoDevices);
    }
    let n: usize = devices.len();
    let mut best: Option<usize> = None;
    let mut best_score: u64 = 0;
    let mut i: usize = 0;
    while i < n
        invariant
            n == devices@.len(),
            0 <= i <= n,
            best matches Some(b) ==> {
                &&& 0 <= b < i
                &&& best_score as int == device_score(devices@[b as int])
                &&& best_score > 0
                &&& forall|j: int| 0 <= j < i ==> device_score(devices@[j]) <= best_score as int
                &&& forall|j: int| 0 <= j < b ==> device_score(devices@[j]) < best_score as int
            },
            best is None ==> {
                &&& best_score == 0
                &&& forall|j: int| 0 <= j < i ==> device_score(devices@[j]) <= 0
            },
        decreases n - i,
    {
        let score = rate_device(&devices[i]);
        if score > best_score {
            best_score = score;
            best = Some(i);
        }
        i = i + 1;
    }
    match best {
        Some(b) => Ok(b),
        None => Err(SelectError::NoSuitableDevice),
    }
}

/// What one queue family supports, with presentation support already
/// resolved against the target surface.
#[derive(Clone, Copy, PartialEq, Eq, Structural, Debug)]
pub struct QueueFamilyProps {
    pub graphics: bool,
    pub compute: bool,
    pub transfer: bool,
    pub present: bool,
}

/// The queue family chosen for each role, if any family supports it.
#[derive(Clone, PartialEq, Eq, Structural, Debug)]
pub struct QueueFamilyIndices {
    pub graphics_family: Option<u32>,
    pub compute_family: Option<u32>,
    pub transfer_family: Option<u32>,
    pub present_family: Option<u32>,
}

/// What the search assigns to one role: the last index whose family has
/// the capability, or nothing when no family has it.
pub open spec fn role_pick(s: Seq<bool>, pick: Option<u32>) -> bool {
    if exists|i: int| 0 <= i < s.len() && s[i] {
        pick matches Some(p) && {
            &&& 0 <= p < s.len()
            &&& s[p as int]
            &&& forall|i: int| p < i < s.len() ==> !s[i]
        }
    } else {
        pick is None
    }
}

impl QueueFamilyIndices {
    /// Whether the roles a renderer cannot run without are both filled.
    pub fn is_complete(&self) -> (r: bool)
        ensures
            r == (self.graphics_family is Some && self.present_family is Some),
    {
        self.graphics_family.is_some() && self.present_family.is_some()
    }
}

/// One step of the role search: seeing family `i` either takes `i` for the
/// role (when the family supports it) or keeps the earlier pick.
proof fn lemma_role_pick_step(s: Seq<bool>, i: int, old_pick: Option<u32>, new_pick: Option<u32>)
    requires
        0 <= i < s.len(),
        s.len() <= u32::MAX,
        role_pick(s.take(i), old_pick),
        new_pick == (if s[i] {
            Some(i as u32)
        } else {
            old_pick
        }),
    ensures
        role_pick(s.take(i + 1), new_pick),
{
    let t = s.take(i + 1);
    let tp = s.take(i);
    assert(forall|j: int| 0 <= j <= i ==> t[j] == s[j]);
    assert(forall|j: int| 0 <= j < i ==> tp[j] == s[j]);
    if s[i] {
        assert(t[i]);
    } else {
        if exists|j: int| 0 <= j < t.len() && t[j] {
            let j = choose|j: int| 0 <= j < t.len() && t[j];
            assert(tp[j]);
            let p = old_pick->0;
            assert(t[p as int]);
        } else {
            assert(!(exists|j: int| 0 <= j < tp.len() && tp[j])) by {
                if exists|j: int| 0 <= j < tp.len() && tp[j] {
                    let j = choose|j: int| 0 <= j < tp.len() && tp[j];
                    assert(t[j]);
                }
            }
        }
    }
}

/// Search the reported queue families for each role. Later families
/// overwrite earlier ones, so each role gets the last supporting index.
pub fn find_queue_families(families: &Vec<QueueFamilyProps>) -> (r: QueueFamilyIndices)
    requires
        families@.len() <= u32::MAX,
    ensures
        role_pick(families@.map_values(|f: QueueFamilyProps| f.graphics), r.graphics_family),
        role_pick(families@.map_values(|f: QueueFamilyProps| f.compute), r.compute_family),
        role_pick(families@.map_values(|f: QueueFamilyProps| f.transfer), r.transfer_family),
        role_pick(families@.map_values(|f: QueueFamilyProps| f.present), r.present_family),
{
    let ghost gr = families@.map_values(|f: QueueFamilyProps| f.graphics);
    let ghost co = families@.map_values(|f: QueueFamilyProps| f.compute);
    let ghost tr = families@.map_values(|f: QueueFamilyProps| f.transfer);
    let ghost pr = families@.map_values(|f: QueueFamilyProps| f.present);
    let n: usize = families.len();
    let mut graphics_family: Option<u32> = None;
    let mut compute_family: Option<u32> = None;
    let mut transfer_family: Option<u32> = None;
    let mut present_family: Option<u32> = None;
    let mut i: usize = 0;
    while i < n
        invariant
            n == families@.len(),
            n <= u32::MAX,
            0 <= i <= n,
            gr == families@.map_values(|f: QueueFamilyProps| f.graphics),
            co == families@.map_values(|f: QueueFamilyProps| f.compute),
            tr == families@.map_values(|f: QueueFamilyProps| f.transfer),
            pr == families@.map_values(|f: QueueFamilyProps| f.present),
            role_pick(gr.take(i as int), graphics_family),
            role_pick(co.take(i as int), compute_family),
            role_pick(tr.take(i as int), transfer_family),
            role_pick(pr.take(i as int), present_family),
        decreases n - i,
    {
        let f = families[i];
        let ghost old_gr_pick = graphics_family;
        let ghost old_co_pick = compute_family;
        let ghost old_tr_pick = transfer_family;
        let ghost old_pr_pick = present_family;
        if f.graphics {
            graphics_family = Some(i as u32);
        }
        if f.compute {
            compute_family = Some(i as u32);
        }
        if f.transfer {
            transfer_family = Some(i as u32);
        }
        if f.present {
            present_family = Some(i as u32);
        }
        proof {
            assert(gr[i as int] == f.graphics && co[i as int] == f.compute && tr[i as int]
                == f.transfer && pr[i as int] == f.present);
            lemma_role_pick_step(gr, i as int, old_gr_pick, graphics_family);
            lemma_role_pick_step(co, i as int, old_co_pick, compute_family);
            lemma_role_pick_step(tr, i as int, old_tr_pick, transfer_family);
            lemma_role_pick_step(pr, i as int, old_pr_pick, present_family);
        }
        i = i + 1;
    }
    proof {
        assert(gr.take(n as int) =~= gr);
        assert(co.take(n as int) =~= co);
        assert(tr.take(n as int) =~= tr);
        assert(pr.take(n as int) =~= pr);
    }
    QueueFamilyIndices { graphics_family, compute_family, transfer_family, present_family }
}

/// Whether two byte strings are equal.
pub fn bytes_equal(a: &Vec<u8>, b: &Vec<u8>) -> (r: bool)
    ensures
        r == (a@ == b@),
{
    if a.len() != b.len() {
        return false;
    }
    let n: usize = a.len();
    let mut i: usize = 0;
    while i < n
        invariant
            n == a@.len(),
            n == b@.len(),
            0 <= i <= n,
            forall|j: int| 0 <= j < i ==> a@[j] == b@[j],
        decreases n - i,
    {
        if a[i] != b[i] {
            return false;
        }
        i = i + 1;
    }
    proof {
        assert(a@ =~= b@);
    }
    true
}

/// Whether a byte string occurs in a list of byte strings.
pub open spec fn contains_name(names: Seq<Seq<u8>>, name: Seq<u8>) -> bool {
    exists|i: int| 0 <= i < names.len() && names[i] == name
}

/// The view of a list of byte strings.
pub open spec fn names_view(v: Seq<Vec<u8>>) -> Seq<Seq<u8>> {
    v.map_values(|x: Vec<u8>| x@)
}

fn name_listed(names: &Vec<Vec<u8>>, name: &Vec<u8>) -> (r: bool)
    ensures
        r == contains_name(names_view(names@), name@),
{
    let n: usize = names.len();
    let mut i: usize = 0;
    while i < n
        invariant
            n == names@.len(),
            0 <= i <= n,
            forall|j: int| 0 <= j < i ==> #[trigger] names_view(names@)[j] != name@,
        decreases n - i,
    {
        if bytes_equal(&names[i], name) {
            assert(names_view(names@)[i as int] == name@);
            return true;
        }
        assert(names_view(names@)[i as int] == names@[i as int]@);
        i = i + 1;
    }
    false
}

/// Whether every required extension name occurs among the available ones.
pub fn extensions_supported(required: &Vec<Vec<u8>>, available: &Vec<Vec<u8>>) -> (r: bool)
    ensures
        r == (forall|i: int|
            0 <= i < required@.len() ==> contains_name(
                names_view(available@),
                #[trigger] names_view(required@)[i],
            )),
{
    let n: usize = required.len();
    let mut i: usize = 0;
    while i < n
        invariant
            n == required@.len(),
            0 <= i <= n,
            forall|j: int|
                0 <= j < i ==> contains_name(names_view(available@), #[trigger] names_view(required@)[j]),
        decreases n - i,
    {
        if !name_listed(available, &required[i]) {
            assert(names_view(required@)[i as int] == required@[i as int]@);
            return false;
        }
        assert(names_view(required@)[i as int] == required@[i as int]@);
        i = i + 1;
    }
    true
}

/// Append a value unless it is already present, keeping the vector
/// duplicate-free.
fn push_if_absent(v: &mut Vec<u32>, x: u32)
    requires
        forall|i: int, j: int| 0 <= i < j < old(v)@.len() ==> old(v)@[i] != old(v)@[j],
    ensures
        forall|i: int, j: int| 0 <= i < j < final(v)@.len() ==> final(v)@[i] != final(v)@[j],
        final(v)@.contains(x),
        forall|y: u32| old(v)@.contains(y) ==> final(v)@.contains(y),
        forall|y: u32| final(v)@.contains(y) ==> (old(v)@.contains(y) || y == x),
{
    broadcast use vstd::seq_lib::lemma_seq_contains_after_push;

    if !contains_u32(v, x) {
        let ghost old_v = v@;
        v.push(x);
        proof {
            assert(v@ =~= old_v.push(x));
            assert forall|i: int, j: int| 0 <= i < j < v@.len() implies v@[i] != v@[j] by {
                if j == old_v.len() {
                    if v@[i] == x {
                        assert(old_v[i] == x);
                        assert(old_v.contains(x));
                    }
                }
            }
        }
    }
}

/// The distinct queue family indices among the chosen roles, in role order
/// (graphics, compute, transfer, present), each listed once.
pub fn unique_family_indices(indices: &QueueFamilyIndices) -> (r: Vec<u32>)
    ensures
        forall|i: int, j: int| 0 <= i < j < r@.len() ==> r@[i] != r@[j],
        indices.graphics_family matches Some(g) ==> r@.contains(g),
        indices.compute_family matches Some(c) ==> r@.contains(c),
        indices.transfer_family matches Some(t) ==> r@.contains(t),
        indices.present_family matches Some(p) ==> r@.contains(p),
        forall|y: u32|
            r@.contains(y) ==> (indices.graphics_family == Some(y) || indices.compute_family
                == Some(y) || indices.transfer_family == Some(y) || indices.present_family == Some(
                y,
            )),
{
    let mut r: Vec<u32> = Vec::new();
    if let Some(g) = indices.graphics_family {
        push_if_absent(&mut r, g);
    }
    if let Some(c) = indices.compute_family {
        push_if_absent(&mut r, c);
    }
    if let Some(t) = indices.transfer_family {
        push_if_absent(&mut r, t);
    }
    if let Some(p) = indices.present_family {
        push_if_absent(&mut r, p);
    }
    r
}

/// Whether a value occurs in a vector.
fn contains_u32(v: &Vec<u32>, x: u32) -> (r: bool)
    ensures
        r == v@.contains(x),
{
    let n: usize = v.len();
    let mut i: usize = 0;
    while i < n
        invariant
            n == v@.len(),
            0 <= i <= n,
            forall|j: int| 0 <= j < i ==> v@[j] != x,
        decreases n - i,
    {
        if v[i] == x {
            assert(v@[i as int] == x);
            return true;
        }
        i = i + 1;
    }
    false
}

} // verus!

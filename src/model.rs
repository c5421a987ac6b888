//! The domain model: profiles, their devices and tunnels, and the settings
//! that the application can change.
use std::collections::BTreeMap;
use vstd::prelude::*;

verus! {

/// Owns every profile, keyed by an id that the model assigns itself.
#[derive(Debug)]
pub struct Model {
    pub profiles: BTreeMap<usize, Profile>,
    next_profile_id: usize,
}

#[derive(Debug)]
pub struct Profile {
    pub id: usize,
    pub name: String,
    pub devices: Vec<Device>,
    pub tunnels: Vec<Tunnel>,
    pub settings: ProfileSettings,
}

#[derive(Debug)]
pub struct Device {
    pub id: String,
    pub name: String,
    pub status: DeviceStatus,
    pub settings: DeviceSettings,
}

#[derive(Debug, Clone, Copy, PartialEq, Eq, Structural)]
pub enum DeviceStatus {
    Online,
    Offline,
    Connecting,
}

#[derive(Debug, Clone, Copy, PartialEq, Eq, Structural)]
pub struct DeviceSettings {
    pub auto_connect: bool,
    pub remote_access: bool,
}

#[derive(Debug)]
pub struct ProfileSettings {
    pub auto_login: bool,
    /// A label naming one of the profile's tunnels; it need not exist.
    pub default_tunnel: Option<String>,
}

#[derive(Debug)]
pub struct Tunnel {
    pub id: String,
    pub name: String,
    pub connected: bool,
}

/// `i` is the position of the first device in `devices` whose id is `id`.
pub open spec fn is_first_device(devices: Seq<Device>, id: Seq<char>, i: int) -> bool {
    &&& 0 <= i < devices.len()
    &&& devices[i].id@ == id
    &&& forall|j: int| 0 <= j < i ==> devices[j].id@ != id
}

/// Some device in `devices` has the id `id`.
pub open spec fn has_device(devices: Seq<Device>, id: Seq<char>) -> bool {
    exists|i: int| 0 <= i < devices.len() && devices[i].id@ == id
}

/// Position of the first device in `devices` with the id `id`, if there is one.
fn position_of(devices: &Vec<Device>, id: &String) -> (r: Option<usize>)
    ensures
        match r {
            Some(i) => is_first_device(devices@, id@, i as int),
            None => !has_device(devices@, id@),
        },
{
    let mut i: usize = 0;
    while i < devices.len()
        invariant
            i <= devices@.len(),
            forall|j: int| 0 <= j < i ==> devices@[j].id@ != id@,
        decreases devices@.len() - i,
    {
        if devices[i].id == *id {
            return Some(i);
        }
        i += 1;
    }
    None
}

/// No profile keyed below `k` in `m` has a device with the id `id`.
pub open spec fn none_before(m: Map<usize, Profile>, id: Seq<char>, k: usize) -> bool {
    forall|k2: usize| #[trigger] m.contains_key(k2) && k2 < k ==> !has_device(m[k2].devices@, id)
}

/// The device at position `i` of the profile keyed `k` is the first in the
/// whole of `m` with the id `id`: profiles in ascending key order, devices in
/// their own order.
pub open spec fn is_first_match(m: Map<usize, Profile>, id: Seq<char>, k: usize, i: int) -> bool {
    &&& m.contains_key(k)
    &&& is_first_device(m[k].devices@, id, i)
    &&& none_before(m, id, k)
}

/// `q` is `p` with possibly other device settings: everything else is kept.
pub open spec fn same_but_device_settings(p: Profile, q: Profile) -> bool {
    &&& q.id == p.id
    &&& q.name == p.name
    &&& q.tunnels == p.tunnels
    &&& q.settings == p.settings
    &&& q.devices@.len() == p.devices@.len()
}

/// `new` is `old` after the first device with the id `id` (see `is_first_match`)
/// has had its `auto_connect` set to `enabled`; nothing else differs. With no
/// such device, no device differs.
pub open spec fn committed(
    old: Map<usize, Profile>,
    new: Map<usize, Profile>,
    id: Seq<char>,
    enabled: bool,
) -> bool {
    &&& new.dom() == old.dom()
    &&& forall|k: usize| #[trigger]
        old.contains_key(k) ==> same_but_device_settings(old[k], new[k])
    &&& forall|k: usize, i: int|
        old.contains_key(k) && 0 <= i < old[k].devices@.len() ==> #[trigger] new[k].devices@[i] == if is_first_match(old, id, k, i) {
            old[k].devices@[i].with_auto_connect(enabled)
        } else {
            old[k].devices@[i]
        }
}

/// Setting `auto_connect` for an id that no device in `old` carries changes
/// no device.
pub proof fn lemma_commit_unknown_id(
    old: Map<usize, Profile>,
    new: Map<usize, Profile>,
    id: Seq<char>,
    enabled: bool,
)
    requires
        committed(old, new, id, enabled),
        forall|k: usize| #[trigger] old.contains_key(k) ==> !has_device(old[k].devices@, id),
    ensures
        new.dom() == old.dom(),
        forall|k: usize, i: int|
            old.contains_key(k) && 0 <= i < old[k].devices@.len() ==> #[trigger] new[k].devices@[i]
                == old[k].devices@[i],
{
    assert forall|k: usize, i: int|
        old.contains_key(k) && 0 <= i < old[k].devices@.len() implies #[trigger] new[k].devices@[i]
        == old[k].devices@[i] by {
        assert(!is_first_match(old, id, k, i));
    }
}

/// `d` has exactly these fields.
pub open spec fn device_is(
    d: Device,
    id: Seq<char>,
    name: Seq<char>,
    status: DeviceStatus,
    auto_connect: bool,
    remote_access: bool,
) -> bool {
    &&& d.id@ == id
    &&& d.name@ == name
    &&& d.status == status
    &&& d.settings == DeviceSettings { auto_connect, remote_access }
}

/// `t` has exactly these fields.
pub open spec fn tunnel_is(t: Tunnel, id: Seq<char>, name: Seq<char>, connected: bool) -> bool {
    &&& t.id@ == id
    &&& t.name@ == name
    &&& t.connected == connected
}

/// `p` has exactly these fields but for its devices and tunnels.
pub open spec fn profile_is(
    p: Profile,
    id: usize,
    name: Seq<char>,
    auto_login: bool,
    default_tunnel: Seq<char>,
) -> bool {
    &&& p.id == id
    &&& p.name@ == name
    &&& p.settings.auto_login == auto_login
    &&& p.settings.default_tunnel matches Some(t) && t@ == default_tunnel
}

impl Device {
    /// The same device with `auto_connect` set to `enabled`.
    pub open spec fn with_auto_connect(self, enabled: bool) -> Device {
        Device {
            settings: DeviceSettings { auto_connect: enabled, remote_access: self.settings.remote_access },
            ..self
        }
    }
}

impl Profile {
    /// Looks a device up by id; the first one wins if ids repeat.
    pub fn find_device(&self, id: &String) -> (r: Option<&Device>)
        ensures
            match r {
                Some(d) => exists|i: int| is_first_device(self.devices@, id@, i) && *d == self.devices@[i],
                None => !has_device(self.devices@, id@),
            },
    {
        match position_of(&self.devices, id) {
            Some(i) => Some(&self.devices[i]),
            None => None,
        }
    }
}

impl View for Model {
    type V = Map<usize, Profile>;

    /// The profiles by id.
    closed spec fn view(&self) -> Map<usize, Profile> {
        self.profiles@
    }
}

impl Model {
    /// The id that the next added profile receives.
    pub closed spec fn next_id(&self) -> usize {
        self.next_profile_id
    }

    /// Every key is below the next id to hand out, and names its own profile.
    pub open spec fn wf(&self) -> bool {
        forall|k: usize| #[trigger]
            self@.contains_key(k) ==> k < self.next_id() && self@[k].id == k
    }

    /// A model with no profiles.
    pub fn new() -> (r: Model)
        ensures
            r.wf(),
            r@ == Map::<usize, Profile>::empty(),
            r.next_id() == 0,
    {
        Model { profiles: BTreeMap::new(), next_profile_id: 0 }
    }

    /// Adds `profile` under a fresh id, which also becomes the profile's own id,
    /// and returns that id.
    pub fn add_profile(&mut self, profile: Profile) -> (r: usize)
        requires
            old(self).wf(),
            old(self).next_id() < usize::MAX,
        ensures
            final(self).wf(),
            r == old(self).next_id(),
            final(self).next_id() == old(self).next_id() + 1,
            final(self)@ == old(self)@.insert(r, Profile { id: r, ..profile }),
    {
        let id = self.next_profile_id;
        let mut profile = profile;
        profile.id = id;
        self.profiles.insert(id, profile);
        self.next_profile_id += 1;
        id
    }

    /// Sets `auto_connect` of the first device whose id is `device_id`, scanning
    /// the profiles in ascending id order and each profile's devices in order.
    /// Device ids are unique only within a profile; this model treats them as
    /// unique across profiles and stops at the first match. Without a match
    /// nothing changes.
    pub fn set_auto_connect(&mut self, device_id: &String, enabled: bool)
        ensures
            old(self).wf() ==> final(self).wf(),
            final(self).next_id() == old(self).next_id(),
            committed(old(self)@, final(self)@, device_id@, enabled),
    {
        let ids = crate::selector::profile_ids(&self.profiles);
        let mut n: usize = 0;
        while n < ids.len()
            invariant
                self@ == old(self)@,
                self.next_id() == old(self).next_id(),
                n <= ids@.len(),
                forall|i: int, j: int| 0 <= i < j < ids@.len() ==> ids@[i] < ids@[j],
                forall|k: usize| self@.contains_key(k) <==> ids@.contains(k),
                forall|m: int| 0 <= m < n ==> !has_device(#[trigger] self@[ids@[m]].devices@, device_id@),
            decreases ids@.len() - n,
        {
            let k = ids[n];
            assert(ids@.contains(k));
            let mut profile = self.profiles.remove(&k).unwrap();
            match position_of(&profile.devices, device_id) {
                Some(i) => {
                    profile.devices[i].settings.auto_connect = enabled;
                    self.profiles.insert(k, profile);
                    proof {
                        assert forall|k2: usize| #[trigger] old(self)@.contains_key(k2) && k2 < k
                            implies !has_device(old(self)@[k2].devices@, device_id@) by {
                            assert(ids@.contains(k2));
                            let m = choose|m: int| 0 <= m < ids@.len() && ids@[m] == k2;
                            if m >= n {
                                assert(ids@[m] >= ids@[n as int]);
                            }
                        }
                        assert(is_first_match(old(self)@, device_id@, k, i as int));
                        assert forall|k2: usize, j: int|
                            old(self)@.contains_key(k2) && 0 <= j < old(self)@[k2].devices@.len()
                                && is_first_match(old(self)@, device_id@, k2, j)
                            implies k2 == k && j == i by {
                            if k2 < k {
                            } else if k < k2 {
                                assert(has_device(old(self)@[k].devices@, device_id@));
                            }
                        }
                        assert(self@.dom() =~= old(self)@.dom());
                    }
                    return;
                },
                None => {
                    self.profiles.insert(k, profile);
                    assert(self@ =~= old(self)@);
                },
            }
            n += 1;
        }
        proof {
            assert forall|k: usize, i: int|
                old(self)@.contains_key(k) && 0 <= i < old(self)@[k].devices@.len()
                implies !is_first_match(old(self)@, device_id@, k, i) by {
                assert(ids@.contains(k));
                let m = choose|m: int| 0 <= m < ids@.len() && ids@[m] == k;
                assert(!has_device(self@[ids@[m]].devices@, device_id@));
            }
        }
    }

    /// The profile stored under `id`, if any.
    pub fn get_profile(&self, id: usize) -> (r: Option<&Profile>)
        ensures
            match r {
                Some(p) => self@.contains_key(id) && *p == self@[id],
                None => !self@.contains_key(id),
            },
    {
        self.profiles.get(&id)
    }
}

/// The sample data that the application shows: two profiles of two devices
/// and two tunnels each.
impl Default for Model {
    fn default() -> (r: Model)
        ensures
            r.wf(),
            r.next_id() == 2,
            r@.dom() == set![0usize, 1usize],
            profile_is(r@[0], 0, "Profile 1"@, true, "tunnel1"@),
            r@[0].devices@.len() == 2,
            device_is(r@[0].devices@[0], "device1"@, "Device 1"@, DeviceStatus::Online, true, false),
            device_is(r@[0].devices@[1], "device2"@, "Device 2"@, DeviceStatus::Offline, false, true),
            r@[0].tunnels@.len() == 2,
            tunnel_is(r@[0].tunnels@[0], "tunnel1"@, "Tunnel 1"@, true),
            tunnel_is(r@[0].tunnels@[1], "tunnel2"@, "Tunnel 2"@, false),
            profile_is(r@[1], 1, "Profile 2"@, false, "tunnel3"@),
            r@[1].devices@.len() == 2,
            device_is(r@[1].devices@[0], "device3"@, "Device 3"@, DeviceStatus::Connecting, true, false),
            device_is(r@[1].devices@[1], "device4"@, "Device 4"@, DeviceStatus::Offline, false, true),
            r@[1].tunnels@.len() == 2,
            tunnel_is(r@[1].tunnels@[0], "tunnel3"@, "Tunnel 3"@, true),
            tunnel_is(r@[1].tunnels@[1], "tunnel4"@, "Tunnel 4"@, false),
    {
        let mut model = Model::new();

        model.add_profile(Profile {
            id: 0,
            name: "Profile 1".to_string(),
            devices: vec![
                Device {
                    id: "device1".to_string(),
                    name: "Device 1".to_string(),
                    status: DeviceStatus::Online,
                    settings: DeviceSettings { auto_connect: true, remote_access: false },
                },
                Device {
                    id: "device2".to_string(),
                    name: "Device 2".to_string(),
                    status: DeviceStatus::Offline,
                    settings: DeviceSettings { auto_connect: false, remote_access: true },
                },
            ],
            tunnels: vec![
                Tunnel { id: "tunnel1".to_string(), name: "Tunnel 1".to_string(), connected: true },
                Tunnel { id: "tunnel2".to_string(), name: "Tunnel 2".to_string(), connected: false },
            ],
            settings: ProfileSettings {
                auto_login: true,
                default_tunnel: Some("tunnel1".to_string()),
            },
        });

        model.add_profile(Profile {
            id: 1,
            name: "Profile 2".to_string(),
            devices: vec![
                Device {
                    id: "device3".to_string(),
                    name: "Device 3".to_string(),
                    status: DeviceStatus::Connecting,
                    settings: DeviceSettings { auto_connect: true, remote_access: false },
                },
                Device {
                    id: "device4".to_string(),
                    name: "Device 4".to_string(),
                    status: DeviceStatus::Offline,
                    settings: DeviceSettings { auto_connect: false, remote_access: true },
                },
            ],
            tunnels: vec![
                Tunnel { id: "tunnel3".to_string(), name: "Tunnel 3".to_string(), connected: true },
                Tunnel { id: "tunnel4".to_string(), name: "Tunnel 4".to_string(), connected: false },
            ],
            settings: ProfileSettings {
                auto_login: false,
                default_tunnel: Some("tunnel3".to_string()),
            },
        });

        assert(model@.dom() =~= set![0usize, 1usize]);
        model
    }
}

} // verus!

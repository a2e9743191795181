//! The platform's table of devices: registration, heartbeats and online
//! state, over the device registry. The QUIC connections of the devices
//! are kept beside it by the server.

use vstd::prelude::*;
use crate::errors::VideoStreamError;
use crate::http::{uuid_text, with_uuid};
use crate::protocol::{ConnectionStatus, DeviceCapabilities, DeviceInfo, DeviceType, MessageType};
use crate::registry::DeviceRegistry;

verus! {

/// The device `d` after a heartbeat at `now_us`: online, heard from then.
pub open spec fn after_heartbeat(d: DeviceInfo, now_us: u64) -> DeviceInfo {
    DeviceInfo { last_heartbeat_us: now_us, connection_status: ConnectionStatus::Online, ..d }
}

/// The device `d` marked offline.
pub open spec fn marked_offline(d: DeviceInfo) -> DeviceInfo {
    DeviceInfo { connection_status: ConnectionStatus::Offline, ..d }
}

/// Registered devices and their state.
pub struct DeviceManager {
    devices: DeviceRegistry,
}

impl DeviceManager {
    /// The registered devices by id.
    pub closed spec fn view(&self) -> Map<Seq<char>, DeviceInfo> {
        self.devices.view()
    }

    pub closed spec fn wf(&self) -> bool {
        self.devices.wf()
    }

    /// Law: finitely many devices are registered.
    pub proof fn lemma_finitely_many(&self)
        ensures
            self.view().dom().finite(),
    {
        self.devices.lemma_finitely_many();
    }

    /// No device registered.
    pub fn new() -> (m: Self)
        ensures
            m.wf(),
            m.view() == Map::<Seq<char>, DeviceInfo>::empty(),
    {
        DeviceManager { devices: DeviceRegistry::new() }
    }

    /// Registers a device, replacing one with the same id.
    pub fn register_device(&mut self, device: DeviceInfo) -> (r: Result<(), VideoStreamError>)
        requires
            old(self).wf(),
        ensures
            final(self).wf(),
            r is Ok,
            final(self).view() == old(self).view().insert(device.device_id@, device),
    {
        self.devices.add(device);
        Ok(())
    }

    /// Unregisters a device; an unknown id is no error.
    pub fn unregister_device(&mut self, device_id: &str) -> (r: Result<(), VideoStreamError>)
        requires
            old(self).wf(),
        ensures
            final(self).wf(),
            r is Ok,
            final(self).view() == old(self).view().remove(device_id@),
    {
        let _ = self.devices.remove(device_id);
        Ok(())
    }

    /// The device with an id, or `DeviceNotFound` with that id.
    pub fn get_device(&self, device_id: &str) -> (r: Result<&DeviceInfo, VideoStreamError>)
        requires
            self.wf(),
        ensures
            self.view().dom().contains(device_id@) ==> r == Ok::<&DeviceInfo, VideoStreamError>(
                &self.view()[device_id@],
            ),
            !self.view().dom().contains(device_id@) ==> (r matches Err(
                VideoStreamError::DeviceNotFound(id),
            ) && id@ == device_id@),
    {
        match self.devices.get(device_id) {
            Some(d) => Ok(d),
            None => Err(VideoStreamError::DeviceNotFound(device_id.to_owned())),
        }
    }

    /// All registered devices, each once.
    pub fn get_all_devices(&self) -> (r: Vec<&DeviceInfo>)
        requires
            self.wf(),
        ensures
            r@.len() == self.view().dom().len(),
            forall|i: int| 0 <= i < r@.len() ==> self.view().dom().contains(#[trigger] r@[i].device_id@)
                && self.view()[r@[i].device_id@] == *r@[i],
            forall|k: Seq<char>| self.view().dom().contains(k) ==> exists|i: int|
                0 <= i < r@.len() && r@[i].device_id@ == k,
    {
        self.devices.list()
    }

    /// The registered devices that are online, each once.
    pub fn get_online_devices(&self) -> (r: Vec<&DeviceInfo>)
        requires
            self.wf(),
        ensures
            forall|i: int| 0 <= i < r@.len() ==> self.view().dom().contains(#[trigger] r@[i].device_id@)
                && self.view()[r@[i].device_id@] == *r@[i] && r@[i].connection_status
                == ConnectionStatus::Online,
            forall|k: Seq<char>|
                self.view().dom().contains(k) && self.view()[k].connection_status == ConnectionStatus::Online
                    ==> exists|i: int| 0 <= i < r@.len() && r@[i].device_id@ == k,
            forall|i: int, j: int| 0 <= i < j < r@.len() ==> r@[i].device_id@ != r@[j].device_id@,
    {
        let all = self.devices.list();
        let ghost m = self.view();
        proof {
            self.devices.lemma_filed_under_own_id();
        }
        let mut out: Vec<&DeviceInfo> = Vec::new();
        let mut i: usize = 0;
        while i < all.len()
            invariant
                m == self.view(),
                i <= all@.len(),
                all@.len() == m.dom().len(),
                forall|a: int| 0 <= a < all@.len() ==> m.dom().contains(#[trigger] all@[a].device_id@)
                    && m[all@[a].device_id@] == *all@[a],
                forall|a: int| 0 <= a < out@.len() ==> m.dom().contains(#[trigger] out@[a].device_id@)
                    && m[out@[a].device_id@] == *out@[a] && out@[a].connection_status
                    == ConnectionStatus::Online,
                forall|a: int|
                    0 <= a < i && (#[trigger] all@[a]).connection_status == ConnectionStatus::Online
                        ==> exists|b: int| 0 <= b < out@.len() && out@[b].device_id@ == all@[a].device_id@,
                forall|b: int| 0 <= b < out@.len() ==> exists|a: int|
                    0 <= a < i && #[trigger] out@[b] == all@[a],
                forall|a: int, b: int| 0 <= a < b < out@.len() ==> out@[a].device_id@ != out@[b].device_id@,
                forall|a: int, b: int|
                    0 <= a < b < all@.len() ==> all@[a].device_id@ != all@[b].device_id@,
            decreases all@.len() - i,
        {
            let d = all[i];
            let ghost before = out@;
            if d.connection_status == ConnectionStatus::Online {
                proof {
                    assert forall|b: int| 0 <= b < out@.len() implies out@[b].device_id@ != d.device_id@ by {
                        let a = choose|a: int| 0 <= a < i && out@[b] == all@[a];
                        assert(all@[a].device_id@ != all@[i as int].device_id@);
                    }
                }
                out.push(d);
                proof {
                    assert(out@[out@.len() - 1] == all@[i as int]);
                    assert forall|a: int|
                        0 <= a < i + 1 && (#[trigger] all@[a]).connection_status == ConnectionStatus::Online
                            implies exists|b: int| 0 <= b < out@.len() && out@[b].device_id@ == all@[a].device_id@ by {
                        if a < i {
                            let b = choose|b: int| 0 <= b < before.len() && before[b].device_id@ == all@[a].device_id@;
                            assert(out@[b] == before[b]);
                        } else {
                            assert(out@[out@.len() - 1].device_id@ == all@[a].device_id@);
                        }
                    }
                }
            }
            i = i + 1;
        }
        proof {
            assert forall|k: Seq<char>|
                m.dom().contains(k) && m[k].connection_status == ConnectionStatus::Online implies exists|
                b: int,
            | 0 <= b < out@.len() && out@[b].device_id@ == k by {
                let a = choose|a: int| 0 <= a < all@.len() && all@[a].device_id@ == k;
                assert(*all@[a] == m[k]);
            }
        }
        out
    }

    /// Records a heartbeat from a device at `now_us`: it is online again.
    /// An unknown id is refused with `DeviceNotFound`.
    pub fn update_heartbeat(&mut self, device_id: &str, now_us: u64) -> (r: Result<(), VideoStreamError>)
        requires
            old(self).wf(),
        ensures
            final(self).wf(),
            old(self).view().dom().contains(device_id@) ==> r is Ok && final(self).view() == old(
                self,
            ).view().insert(device_id@, after_heartbeat(old(self).view()[device_id@], now_us)),
            !old(self).view().dom().contains(device_id@) ==> (r matches Err(
                VideoStreamError::DeviceNotFound(id),
            ) && id@ == device_id@) && final(self).view() == old(self).view(),
    {
        proof {
            self.devices.lemma_filed_under_own_id();
        }
        match self.devices.remove(device_id) {
            Some(d) => {
                let updated = DeviceInfo {
                    last_heartbeat_us: now_us,
                    connection_status: ConnectionStatus::Online,
                    ..d
                };
                self.devices.add(updated);
                proof {
                    assert(old(self).view().remove(device_id@).insert(device_id@, updated) =~= old(
                        self,
                    ).view().insert(device_id@, after_heartbeat(old(self).view()[device_id@], now_us)));
                }
                Ok(())
            },
            None => {
                proof {
                    assert(old(self).view().remove(device_id@) =~= old(self).view());
                }
                Err(VideoStreamError::DeviceNotFound(device_id.to_owned()))
            },
        }
    }

    /// Marks a device offline. An unknown id is refused with
    /// `DeviceNotFound`.
    pub fn set_device_offline(&mut self, device_id: &str) -> (r: Result<(), VideoStreamError>)
        requires
            old(self).wf(),
        ensures
            final(self).wf(),
            old(self).view().dom().contains(device_id@) ==> r is Ok && final(self).view() == old(
                self,
            ).view().insert(device_id@, marked_offline(old(self).view()[device_id@])),
            !old(self).view().dom().contains(device_id@) ==> (r matches Err(
                VideoStreamError::DeviceNotFound(id),
            ) && id@ == device_id@) && final(self).view() == old(self).view(),
    {
        proof {
            self.devices.lemma_filed_under_own_id();
        }
        match self.devices.remove(device_id) {
            Some(d) => {
                let updated = DeviceInfo { connection_status: ConnectionStatus::Offline, ..d };
                self.devices.add(updated);
                proof {
                    assert(old(self).view().remove(device_id@).insert(device_id@, updated) =~= old(
                        self,
                    ).view().insert(device_id@, marked_offline(old(self).view()[device_id@])));
                }
                Ok(())
            },
            None => {
                proof {
                    assert(old(self).view().remove(device_id@) =~= old(self).view());
                }
                Err(VideoStreamError::DeviceNotFound(device_id.to_owned()))
            },
        }
    }

    /// Whether a device is registered and online.
    pub fn is_device_online(&self, device_id: &str) -> (b: bool)
        requires
            self.wf(),
        ensures
            b == (self.view().dom().contains(device_id@) && self.view()[device_id@].connection_status
                == ConnectionStatus::Online),
    {
        match self.devices.get(device_id) {
            Some(d) => d.connection_status == ConnectionStatus::Online,
            None => false,
        }
    }
}

/// Law: a heartbeat brings a registered device online, and marking it
/// offline takes it off again; neither touches the other devices.
pub proof fn lemma_heartbeat_then_offline(m: Map<Seq<char>, DeviceInfo>, id: Seq<char>, now_us: u64)
    requires
        m.dom().contains(id),
    ensures
        ({
            let after = m.insert(id, after_heartbeat(m[id], now_us));
            &&& after[id].connection_status == ConnectionStatus::Online
            &&& after[id].last_heartbeat_us == now_us
            &&& after.insert(id, marked_offline(after[id]))[id].connection_status
                == ConnectionStatus::Offline
            &&& forall|k: Seq<char>| k != id ==> #[trigger] after.insert(id, marked_offline(after[id])).dom().contains(k)
                == m.dom().contains(k)
        }),
{
}

/// The device that a session start registers, connected and heard from at
/// `now_us`: the one the device described, or, when its description could
/// not be decoded, a simulator named after the session.
pub fn session_start_device(decoded: Option<DeviceInfo>, session_id: u128, now_us: u64) -> (d: DeviceInfo)
    ensures
        d.connection_status == ConnectionStatus::Online,
        d.connection_time_us == now_us,
        d.last_heartbeat_us == now_us,
        match decoded {
            Some(x) => d == (DeviceInfo {
                connection_status: ConnectionStatus::Online,
                connection_time_us: now_us,
                last_heartbeat_us: now_us,
                ..x
            }),
            None => {
                &&& d.device_id@ == "device_"@ + uuid_text(session_id) + ""@
                &&& d.device_name@ == "Unknown Device"@
                &&& d.device_type == DeviceType::Simulator
                &&& d.capabilities.max_resolution@ == "1920x1080"@
                &&& d.capabilities.supported_formats@.len() == 2
                &&& d.capabilities.supported_formats@[0]@ == "h264"@
                &&& d.capabilities.supported_formats@[1]@ == "mp4"@
                &&& d.capabilities.max_bitrate == 10_000_000
                &&& d.capabilities.supports_playback_control
                &&& d.capabilities.supports_recording
            },
        },
{
    match decoded {
        Some(x) => DeviceInfo {
            connection_status: ConnectionStatus::Online,
            connection_time_us: now_us,
            last_heartbeat_us: now_us,
            ..x
        },
        None => DeviceInfo {
            device_id: with_uuid("device_", session_id, ""),
            device_name: "Unknown Device".to_owned(),
            device_type: DeviceType::Simulator,
            connection_status: ConnectionStatus::Online,
            connection_time_us: now_us,
            last_heartbeat_us: now_us,
            capabilities: DeviceCapabilities {
                max_resolution: "1920x1080".to_owned(),
                supported_formats: vec!["h264".to_owned(), "mp4".to_owned()],
                max_bitrate: 10_000_000,
                supports_playback_control: true,
                supports_recording: true,
            },
        },
    }
}

/// What the platform does with data arriving on a device's
/// unidirectional stream.
#[derive(Debug, Clone, Copy, PartialEq, Eq, Structural)]
pub enum UniStreamAction {
    /// A heartbeat: refresh the device.
    Heartbeat,
    /// A video segment of a session: hand it to the session's subscribers.
    Distribute(u128),
    /// Neither.
    Ignore,
}

/// Decides on data that decoded as a message of type `message` (if it
/// decoded as a message) and as a segment of session `segment_session`
/// (if it decoded as a segment): heartbeats first, then segments.
pub fn uni_stream_action(message: Option<MessageType>, segment_session: Option<u128>) -> (a: UniStreamAction)
    ensures
        a == if message == Some(MessageType::Heartbeat) {
            UniStreamAction::Heartbeat
        } else {
            match segment_session {
                Some(s) => UniStreamAction::Distribute(s),
                None => UniStreamAction::Ignore,
            }
        },
{
    if let Some(MessageType::Heartbeat) = message {
        return UniStreamAction::Heartbeat;
    }
    match segment_session {
        Some(s) => UniStreamAction::Distribute(s),
        None => UniStreamAction::Ignore,
    }
}

} // verus!

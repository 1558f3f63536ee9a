use vstd::prelude::*;

use super::device_info::{DeviceInfo, DeviceInfoView};
use super::device_info_list::{has_mac, DeviceInfoList};
use crate::parsers::{dissect, handle_packet};

verus! {

/// `rec` may enter `registry`: it has no hardware address, or one that no
/// record there has.
pub open spec fn is_new(registry: Seq<DeviceInfoView>, rec: DeviceInfoView) -> bool {
    match rec.mac_addr {
        Some(m) => forall|i: int| 0 <= i < registry.len() ==> !has_mac(#[trigger] registry[i], m),
        None => true,
    }
}

/// The registry after the discovery loop has taken `frames`, in order,
/// starting from an empty one.
pub open spec fn registry_after(frames: Seq<Seq<u8>>) -> Seq<DeviceInfoView>
    decreases frames.len(),
{
    if frames.len() == 0 {
        Seq::empty()
    } else {
        let prev = registry_after(frames.drop_last());
        match dissect(frames.last()) {
            Some(rec) => if is_new(prev, rec) {
                prev.push(rec)
            } else {
                prev
            },
            None => prev,
        }
    }
}

/// Some frame before position `k` yields a record with hardware address `m`.
pub open spec fn seen_before(frames: Seq<Seq<u8>>, k: int, m: [u8; 6]) -> bool {
    exists|j: int| 0 <= j < k && (#[trigger] dissect(frames[j]) matches Some(q) && has_mac(q, m))
}

/// The frame at position `k` yields a record that no earlier frame announced:
/// one without hardware address, or the first one with its address.
pub open spec fn is_first_sighting(frames: Seq<Seq<u8>>, k: int) -> bool {
    match dissect(frames[k]) {
        Some(rec) => match rec.mac_addr {
            Some(m) => !seen_before(frames, k, m),
            None => true,
        },
        None => false,
    }
}

/// The records of the first sightings in `frames`, in the order of the frames.
pub open spec fn first_sightings(frames: Seq<Seq<u8>>) -> Seq<DeviceInfoView>
    decreases frames.len(),
{
    if frames.len() == 0 {
        Seq::empty()
    } else {
        let prev = first_sightings(frames.drop_last());
        if is_first_sighting(frames, frames.len() - 1) {
            prev.push(dissect(frames.last())->0)
        } else {
            prev
        }
    }
}

/// No two records of `registry` share a hardware address.
pub open spec fn macs_unique(registry: Seq<DeviceInfoView>) -> bool {
    forall|i: int, j: int|
        0 <= i < j < registry.len() && (#[trigger] registry[i]).mac_addr is Some ==> registry[i].mac_addr
            != (#[trigger] registry[j]).mac_addr
}

proof fn lemma_registry_knows_seen(frames: Seq<Seq<u8>>, m: [u8; 6])
    ensures
        (exists|i: int| 0 <= i < registry_after(frames).len() && has_mac(#[trigger] registry_after(frames)[i], m))
            <==> seen_before(frames, frames.len() as int, m),
    decreases frames.len(),
{
    if frames.len() > 0 {
        let fs = frames.drop_last();
        let k = frames.len() - 1;
        lemma_registry_knows_seen(fs, m);
        let prev = registry_after(fs);
        let reg = registry_after(frames);
        assert(forall|j: int| 0 <= j < k ==> #[trigger] frames[j] == fs[j]);
        if seen_before(frames, frames.len() as int, m) {
            let j = choose|j: int|
                0 <= j < frames.len() && (#[trigger] dissect(frames[j]) matches Some(q) && has_mac(q, m));
            if j < k {
                assert(dissect(fs[j]) matches Some(q) && has_mac(q, m));
                assert(seen_before(fs, fs.len() as int, m));
                let i = choose|i: int| 0 <= i < prev.len() && has_mac(#[trigger] prev[i], m);
                assert(reg[i] == prev[i]);
            } else {
                if !(exists|i: int| 0 <= i < prev.len() && has_mac(#[trigger] prev[i], m)) {
                    assert(reg == prev.push(dissect(frames.last())->0));
                    assert(has_mac(reg[prev.len() as int], m));
                } else {
                    let i = choose|i: int| 0 <= i < prev.len() && has_mac(#[trigger] prev[i], m);
                    assert(reg[i] == prev[i]);
                }
            }
        }
        if exists|i: int| 0 <= i < reg.len() && has_mac(#[trigger] reg[i], m) {
            let i = choose|i: int| 0 <= i < reg.len() && has_mac(#[trigger] reg[i], m);
            if i < prev.len() {
                assert(reg[i] == prev[i]);
                let j = choose|j: int|
                    0 <= j < fs.len() && (#[trigger] dissect(fs[j]) matches Some(q) && has_mac(q, m));
                assert(dissect(frames[j]) matches Some(q) && has_mac(q, m));
            } else {
                assert(dissect(frames[k]) matches Some(q) && has_mac(q, m));
            }
        }
    }
}

/// Dedup invariant: whatever frames the discovery loop takes, its registry
/// never holds two records with the same hardware address.
pub proof fn lemma_registry_macs_unique(frames: Seq<Seq<u8>>)
    ensures
        macs_unique(registry_after(frames)),
    decreases frames.len(),
{
    if frames.len() > 0 {
        lemma_registry_macs_unique(frames.drop_last());
        let prev = registry_after(frames.drop_last());
        let reg = registry_after(frames);
        assert forall|i: int, j: int|
            0 <= i < j < reg.len() && (#[trigger] reg[i]).mac_addr is Some implies reg[i].mac_addr
                != (#[trigger] reg[j]).mac_addr by {
            if j >= prev.len() {
                assert(reg[i] == prev[i]);
                assert(!has_mac(prev[i], reg[j].mac_addr->0));
            } else {
                assert(reg[i] == prev[i] && reg[j] == prev[j]);
            }
        }
    }
}

/// Publication order: the records that the discovery loop publishes (exactly
/// the ones it inserts into its registry, in that order) are the first
/// sightings among the frames, in frame order: each hardware address once, at
/// its first occurrence, and every record without one.
pub proof fn lemma_registry_is_first_sightings(frames: Seq<Seq<u8>>)
    ensures
        registry_after(frames) == first_sightings(frames),
    decreases frames.len(),
{
    if frames.len() > 0 {
        let fs = frames.drop_last();
        let k = frames.len() - 1;
        lemma_registry_is_first_sightings(fs);
        match dissect(frames.last()) {
            Some(rec) => match rec.mac_addr {
                Some(m) => {
                    lemma_registry_knows_seen(fs, m);
                    assert(forall|j: int| 0 <= j < k ==> #[trigger] frames[j] == fs[j]);
                    assert(seen_before(frames, k, m) == seen_before(fs, fs.len() as int, m));
                },
                None => {},
            },
            None => {},
        }
    }
}

/// Where the discovery loop stands.
#[derive(Clone, Copy, PartialEq, Eq, Structural, Debug)]
pub enum LoopState {
    /// The capture source is not open yet.
    Idle,
    /// Frames are being taken.
    Running,
    /// Capture ended, failed, or the consumer went away.
    Terminated,
}

/// What the capture side reports to the discovery loop.
#[derive(Debug)]
pub enum CaptureEvent {
    /// A raw frame.
    Frame(Vec<u8>),
    /// The read timed out without a frame.
    Timeout,
    /// The capture source failed.
    CaptureFailed,
    /// The capture source has no more frames.
    CaptureEnded,
    /// The consumer has dropped its end of the discovery channel.
    PublishFailed,
}

/// What the discovery loop asks of its driver.
#[derive(Debug)]
pub enum LoopAction {
    /// Hand this newly discovered record to the consumer.
    Publish(DeviceInfo),
    /// Wait for the next event.
    Continue,
    /// Stop; this is a clean end.
    Finish,
    /// Stop; the capture failed and the caller should report it.
    Fail,
}

/// The decisions of the discovery loop: it owns the registry, dissects each
/// frame, and publishes each record that is new to the registry.
pub struct DiscoveryLoop {
    state: LoopState,
    registry: DeviceInfoList,
    frames: Ghost<Seq<Seq<u8>>>,
}

impl DiscoveryLoop {
    pub closed spec fn loop_state(&self) -> LoopState {
        self.state
    }

    /// The registry's records, in insertion order.
    pub closed spec fn records(&self) -> Seq<DeviceInfoView> {
        self.registry@
    }

    /// The frames taken since the loop started.
    pub closed spec fn frames(&self) -> Seq<Seq<u8>> {
        self.frames@
    }

    /// The registry is what the frames taken so far make of an empty one.
    pub open spec fn wf(&self) -> bool {
        self.records() == registry_after(self.frames())
    }

    /// A loop in the idle state, with an empty registry.
    pub fn new() -> (r: Self)
        ensures
            r.loop_state() == LoopState::Idle,
            r.frames() == Seq::<Seq<u8>>::empty(),
            r.wf(),
    {
        DiscoveryLoop { state: LoopState::Idle, registry: DeviceInfoList::new(), frames: Ghost(Seq::empty()) }
    }

    /// The capture source is open: frames may come.
    pub fn start(&mut self)
        requires
            old(self).loop_state() == LoopState::Idle,
        ensures
            final(self).loop_state() == LoopState::Running,
            final(self).frames() == old(self).frames(),
            final(self).records() == old(self).records(),
    {
        self.state = LoopState::Running;
    }

    pub fn state(&self) -> (r: LoopState)
        ensures
            r == self.loop_state(),
    {
        self.state
    }

    pub fn registry(&self) -> (r: &DeviceInfoList)
        ensures
            r@ == self.records(),
    {
        &self.registry
    }

    /// Takes one event while running. A frame is dissected; a record whose
    /// hardware address the registry already holds is dropped, any other is
    /// inserted and published. A timeout changes nothing. The end of the
    /// capture or a failed publication ends the loop cleanly; a capture failure
    /// ends it with an error.
    pub fn step(&mut self, event: CaptureEvent) -> (action: LoopAction)
        requires
            old(self).wf(),
            old(self).loop_state() == LoopState::Running,
        ensures
            final(self).wf(),
            macs_unique(final(self).records()),
            event matches CaptureEvent::Frame(f) ==> {
                &&& final(self).frames() == old(self).frames().push(f@)
                &&& final(self).loop_state() == LoopState::Running
                &&& match dissect(f@) {
                    Some(rec) => if is_new(old(self).records(), rec) {
                        action matches LoopAction::Publish(d) && d@ == rec && final(self).records()
                            == old(self).records().push(rec)
                    } else {
                        action is Continue && final(self).records() == old(self).records()
                    },
                    None => action is Continue && final(self).records() == old(self).records(),
                }
            },
            !(event is Frame) ==> final(self).frames() == old(self).frames() && final(self).records()
                == old(self).records(),
            event is Timeout ==> action is Continue && final(self).loop_state() == LoopState::Running,
            event is CaptureFailed ==> action is Fail && final(self).loop_state()
                == LoopState::Terminated,
            event is CaptureEnded ==> action is Finish && final(self).loop_state()
                == LoopState::Terminated,
            event is PublishFailed ==> action is Finish && final(self).loop_state()
                == LoopState::Terminated,
    {
        let action = match event {
            CaptureEvent::Frame(frame) => {
                let ghost prev = self.frames@;
                self.frames = Ghost(prev.push(frame@));
                assert(self.frames@.drop_last() == prev);
                match handle_packet(frame.as_slice()) {
                    Some(info) => {
                        let known = match info.mac_addr() {
                            Some(mac) => self.registry.find_by_mac(mac).is_some(),
                            None => false,
                        };
                        if known {
                            LoopAction::Continue
                        } else {
                            self.registry.push(info.clone());
                            LoopAction::Publish(info)
                        }
                    },
                    None => LoopAction::Continue,
                }
            },
            CaptureEvent::Timeout => LoopAction::Continue,
            CaptureEvent::CaptureFailed => {
                self.state = LoopState::Terminated;
                LoopAction::Fail
            },
            CaptureEvent::CaptureEnded => {
                self.state = LoopState::Terminated;
                LoopAction::Finish
            },
            CaptureEvent::PublishFailed => {
                self.state = LoopState::Terminated;
                LoopAction::Finish
            },
        };
        proof {
            lemma_registry_macs_unique(self.frames@);
        }
        action
    }
}

} // verus!

use vstd::prelude::*;

use super::device_info::{DeviceInfo, DeviceInfoView};
use vstd::std_specs::iter::IteratorSpec;

verus! {

/// True when `rec` has the hardware address `mac`.
pub open spec fn has_mac(rec: DeviceInfoView, mac: [u8; 6]) -> bool {
    rec.mac_addr == Some(mac)
}

/// The first position in `records` of a record with hardware address `mac`.
pub open spec fn is_first_with_mac(records: Seq<DeviceInfoView>, mac: [u8; 6], i: int) -> bool {
    &&& 0 <= i < records.len()
    &&& has_mac(records[i], mac)
    &&& forall|j: int| 0 <= j < i ==> !has_mac(#[trigger] records[j], mac)
}

/// The insertion-ordered store of discovered device records. It appends
/// without checking: keeping one record per hardware address is the caller's
/// part.
#[derive(Debug)]
pub struct DeviceInfoList {
    devices: Vec<DeviceInfo>,
}

impl View for DeviceInfoList {
    type V = Seq<DeviceInfoView>;

    closed spec fn view(&self) -> Seq<DeviceInfoView> {
        self.devices@.map_values(|d: DeviceInfo| d@)
    }
}

/// Equality of two hardware addresses, byte by byte.
fn same_mac(a: &[u8; 6], b: &[u8; 6]) -> (r: bool)
    ensures
        r == (*a == *b),
{
    let r = a[0] == b[0] && a[1] == b[1] && a[2] == b[2] && a[3] == b[3] && a[4] == b[4] && a[5]
        == b[5];
    if r {
        assert(*a =~= *b);
    }
    r
}

impl DeviceInfoList {
    pub fn new() -> (r: Self)
        ensures
            r@ == Seq::<DeviceInfoView>::empty(),
    {
        let r = DeviceInfoList { devices: Vec::new() };
        assert(r@ =~= Seq::<DeviceInfoView>::empty());
        r
    }

    /// Appends a record at the end.
    pub fn push(&mut self, info: DeviceInfo)
        ensures
            final(self)@ == old(self)@.push(info@),
    {
        self.devices.push(info);
        assert(self@ =~= old(self)@.push(info@));
    }

    pub fn len(&self) -> (r: usize)
        ensures
            r == self@.len(),
    {
        self.devices.len()
    }

    pub fn is_empty(&self) -> (r: bool)
        ensures
            r == (self@.len() == 0),
    {
        self.devices.len() == 0
    }

    /// The first record, in insertion order, with hardware address `mac`.
    pub fn find_by_mac(&self, mac: [u8; 6]) -> (r: Option<&DeviceInfo>)
        ensures
            r is None ==> forall|i: int| 0 <= i < self@.len() ==> !has_mac(#[trigger] self@[i], mac),
            r matches Some(d) ==> exists|i: int| is_first_with_mac(self@, mac, i) && self@[i] == d@,
    {
        let mut i: usize = 0;
        while i < self.devices.len()
            invariant
                i <= self.devices@.len(),
                forall|j: int| 0 <= j < i ==> !has_mac(#[trigger] self@[j], mac),
            decreases self.devices@.len() - i,
        {
            let d = &self.devices[i];
            match d.mac_addr() {
                Some(m) => {
                    if same_mac(&m, &mac) {
                        assert(is_first_with_mac(self@, mac, i as int));
                        return Some(d);
                    }
                },
                None => {},
            }
            i = i + 1;
        }
        None
    }

    pub fn as_slice(&self) -> (r: &[DeviceInfo])
        ensures
            r@.map_values(|d: DeviceInfo| d@) == self@,
    {
        self.devices.as_slice()
    }

    pub fn iter(&self) -> (r: std::slice::Iter<'_, DeviceInfo>)
        ensures
            r.remaining().map_values(|d: &DeviceInfo| d@) == self@,
    {
        self.devices.as_slice().iter()
    }

    /// The records, for changing them in place; their order and number stay.
    pub fn iter_mut(&mut self) -> (r: &mut [DeviceInfo])
        ensures
            r@.map_values(|d: DeviceInfo| d@) == old(self)@,
            final(self)@ == final(r)@.map_values(|d: DeviceInfo| d@),
    {
        self.devices.as_mut_slice()
    }
}

impl Default for DeviceInfoList {
    fn default() -> (r: Self)
        ensures
            r@ == Seq::<DeviceInfoView>::empty(),
    {
        DeviceInfoList::new()
    }
}

impl Clone for DeviceInfoList {
    fn clone(&self) -> (r: Self)
        ensures
            r@ == self@,
    {
        let mut devices: Vec<DeviceInfo> = Vec::new();
        let mut i: usize = 0;
        while i < self.devices.len()
            invariant
                i <= self.devices@.len(),
                devices@.len() == i,
                forall|j: int| 0 <= j < i ==> (#[trigger] devices@[j])@ == self.devices@[j]@,
            decreases self.devices@.len() - i,
        {
            devices.push(self.devices[i].clone());
            i = i + 1;
        }
        let r = DeviceInfoList { devices };
        assert(r@ =~= self@);
        r
    }
}

} // verus!

use vstd::prelude::*;

verus! {

/// The label stored for a device whose vendor is not known.
pub const DEFAULT_MAC_VENDOR: &'static str = "Unknown";

/// The upper-case hexadecimal digits, indexed by value.
pub open spec fn hex_digits() -> Seq<char> {
    seq!['0', '1', '2', '3', '4', '5', '6', '7', '8', '9', 'A', 'B', 'C', 'D', 'E', 'F']
}

/// Two upper-case hexadecimal digits for one byte.
pub open spec fn hex_byte(b: u8) -> Seq<char> {
    seq![hex_digits()[b as int / 16], hex_digits()[b as int % 16]]
}

/// The canonical text of a hardware address: `AA:BB:CC:00:11:22`.
pub open spec fn mac_text(m: [u8; 6]) -> Seq<char> {
    hex_byte(m[0]) + seq![':'] + hex_byte(m[1]) + seq![':'] + hex_byte(m[2]) + seq![':']
        + hex_byte(m[3]) + seq![':'] + hex_byte(m[4]) + seq![':'] + hex_byte(m[5])
}

/// The organization that the OUI database records for a hardware address text.
pub uninterp spec fn oui_organization(mac_text: Seq<char>) -> Option<Seq<char>>;

/// The label stored for a lookup outcome: the organization, or the sentinel.
pub open spec fn label_of(organization: Option<Seq<char>>) -> Seq<char> {
    match organization {
        Some(o) => o,
        None => DEFAULT_MAC_VENDOR@,
    }
}

/// The vendor label that belongs to a hardware address (or to its absence).
pub open spec fn vendor_of(mac: Option<[u8; 6]>) -> Seq<char> {
    match mac {
        Some(m) => label_of(oui_organization(mac_text(m))),
        None => DEFAULT_MAC_VENDOR@,
    }
}

/// Relies on std's `format!` with `{:02X}`: each byte as two upper-case
/// hexadecimal digits, the six pairs joined by colons.
#[verifier::external_body]
fn format_mac(mac: &[u8; 6]) -> (r: String)
    ensures
        r@ == mac_text(*mac),
{
    format!("{:02X}:{:02X}:{:02X}:{:02X}:{:02X}:{:02X}", mac[0], mac[1], mac[2], mac[3], mac[4], mac[5])
}

/// Relies on `oui_data::lookup` and `OuiData::organization`: the organization
/// recorded for the address prefix, if any. The lookup reads a fixed table, so
/// the outcome depends on the text alone. On ASCII text it does not panic.
#[verifier::external_body]
fn lookup_organization(mac_text: &str) -> (r: Option<String>)
    requires
        forall|i: int| 0 <= i < mac_text@.len() ==> (mac_text@[i] as u32) < 128,
    ensures
        r matches Some(s) ==> oui_organization(mac_text@) == Some(s@),
        r is None ==> oui_organization(mac_text@) is None,
{
    oui_data::lookup(mac_text).map(|rec| rec.organization().to_string())
}

/// What a device record holds, as plain values.
pub struct DeviceInfoView {
    pub mac_vendor: Seq<char>,
    pub mac_addr: Option<[u8; 6]>,
    pub ipv4_addrs: Seq<[u8; 4]>,
    pub ipv6_addrs: Seq<[u8; 16]>,
}

impl DeviceInfoView {
    /// The vendor label is the one that belongs to the hardware address.
    pub open spec fn wf(self) -> bool {
        self.mac_vendor == vendor_of(self.mac_addr)
    }
}

/// The identity of one discovered device.
#[derive(Debug)]
pub struct DeviceInfo {
    mac_vendor: String,
    mac_addr: Option<[u8; 6]>,
    ipv4_addrs: Vec<[u8; 4]>,
    ipv6_addrs: Vec<[u8; 16]>,
}

impl View for DeviceInfo {
    type V = DeviceInfoView;

    closed spec fn view(&self) -> DeviceInfoView {
        DeviceInfoView {
            mac_vendor: self.mac_vendor@,
            mac_addr: self.mac_addr,
            ipv4_addrs: self.ipv4_addrs@,
            ipv6_addrs: self.ipv6_addrs@,
        }
    }
}

proof fn lemma_hex_byte_ascii(b: u8)
    ensures
        hex_byte(b).len() == 2,
        forall|i: int| 0 <= i < 2 ==> (#[trigger] hex_byte(b)[i] as u32) < 128,
{
    let d = hex_digits();
    assert(forall|k: int| 0 <= k < 16 ==> (#[trigger] d[k] as u32) < 128) by {
        assert forall|k: int| 0 <= k < 16 implies (#[trigger] d[k] as u32) < 128 by {
            assert(d[0] == '0' && d[1] == '1' && d[2] == '2' && d[3] == '3');
            assert(d[4] == '4' && d[5] == '5' && d[6] == '6' && d[7] == '7');
            assert(d[8] == '8' && d[9] == '9' && d[10] == 'A' && d[11] == 'B');
            assert(d[12] == 'C' && d[13] == 'D' && d[14] == 'E' && d[15] == 'F');
        }
    }
}

proof fn lemma_mac_text_ascii(m: [u8; 6])
    ensures
        forall|i: int| 0 <= i < mac_text(m).len() ==> (#[trigger] mac_text(m)[i] as u32) < 128,
{
    lemma_hex_byte_ascii(m[0]);
    lemma_hex_byte_ascii(m[1]);
    lemma_hex_byte_ascii(m[2]);
    lemma_hex_byte_ascii(m[3]);
    lemma_hex_byte_ascii(m[4]);
    lemma_hex_byte_ascii(m[5]);
    let t = mac_text(m);
    assert(t.len() == 17);
    assert forall|i: int| 0 <= i < t.len() implies (#[trigger] t[i] as u32) < 128 by {
        if i % 3 == 2 {
            assert(t[i] == ':');
        }
    }
}

/// The label for a lookup outcome: the organization found, else the sentinel.
pub fn vendor_label(organization: Option<String>) -> (r: String)
    ensures
        r@ == label_of(
            match organization {
                Some(o) => Some(o@),
                None => None,
            },
        ),
{
    match organization {
        Some(o) => o,
        None => DEFAULT_MAC_VENDOR.to_owned(),
    }
}

impl DeviceInfo {
    /// A record with no hardware address, the sentinel vendor and no addresses.
    pub fn new() -> (r: Self)
        ensures
            r@.mac_addr is None,
            r@.mac_vendor == DEFAULT_MAC_VENDOR@,
            r@.ipv4_addrs.len() == 0,
            r@.ipv6_addrs.len() == 0,
            r@.wf(),
    {
        DeviceInfo {
            mac_vendor: DEFAULT_MAC_VENDOR.to_owned(),
            mac_addr: None,
            ipv4_addrs: Vec::new(),
            ipv6_addrs: Vec::new(),
        }
    }

    /// Sets the hardware address and resolves its vendor label, once; the
    /// address lists are kept.
    pub fn set_mac(self, mac: [u8; 6]) -> (r: Self)
        ensures
            r@ == (DeviceInfoView {
                mac_vendor: vendor_of(Some(mac)),
                mac_addr: Some(mac),
                ..self@
            }),
            r@.wf(),
    {
        let mut info = self;
        info.mac_addr = Some(mac);
        let mac_str = format_mac(&mac);
        proof {
            lemma_mac_text_ascii(mac);
        }
        info.mac_vendor = vendor_label(lookup_organization(mac_str.as_str()));
        info
    }

    /// Appends an IPv4 address; duplicates are kept.
    pub fn add_ipv4(&mut self, ip: [u8; 4])
        ensures
            final(self)@ == (DeviceInfoView { ipv4_addrs: old(self)@.ipv4_addrs.push(ip), ..old(self)@ }),
    {
        self.ipv4_addrs.push(ip);
    }

    /// Appends an IPv6 address; duplicates are kept.
    pub fn add_ipv6(&mut self, ip: [u8; 16])
        ensures
            final(self)@ == (DeviceInfoView { ipv6_addrs: old(self)@.ipv6_addrs.push(ip), ..old(self)@ }),
    {
        self.ipv6_addrs.push(ip);
    }

    pub fn mac_vendor(&self) -> (r: &str)
        ensures
            r@ == self@.mac_vendor,
    {
        self.mac_vendor.as_str()
    }

    pub fn mac_addr(&self) -> (r: Option<[u8; 6]>)
        ensures
            r == self@.mac_addr,
    {
        self.mac_addr
    }

    pub fn ipv4(&self) -> (r: &[[u8; 4]])
        ensures
            r@ == self@.ipv4_addrs,
    {
        self.ipv4_addrs.as_slice()
    }

    pub fn ipv6(&self) -> (r: &[[u8; 16]])
        ensures
            r@ == self@.ipv6_addrs,
    {
        self.ipv6_addrs.as_slice()
    }
}

impl Default for DeviceInfo {
    fn default() -> (r: Self)
        ensures
            r@.mac_addr is None,
            r@.mac_vendor == DEFAULT_MAC_VENDOR@,
            r@.ipv4_addrs.len() == 0,
            r@.ipv6_addrs.len() == 0,
    {
        DeviceInfo::new()
    }
}

impl Clone for DeviceInfo {
    fn clone(&self) -> (r: Self)
        ensures
            r@ == self@,
    {
        let mut ipv4_addrs: Vec<[u8; 4]> = Vec::new();
        let mut i: usize = 0;
        while i < self.ipv4_addrs.len()
            invariant
                i <= self.ipv4_addrs@.len(),
                ipv4_addrs@ == self.ipv4_addrs@.subrange(0, i as int),
            decreases self.ipv4_addrs@.len() - i,
        {
            ipv4_addrs.push(self.ipv4_addrs[i]);
            i = i + 1;
        }
        let mut ipv6_addrs: Vec<[u8; 16]> = Vec::new();
        let mut j: usize = 0;
        while j < self.ipv6_addrs.len()
            invariant
                j <= self.ipv6_addrs@.len(),
                ipv6_addrs@ == self.ipv6_addrs@.subrange(0, j as int),
            decreases self.ipv6_addrs@.len() - j,
        {
            ipv6_addrs.push(self.ipv6_addrs[j]);
            j = j + 1;
        }
        assert(ipv4_addrs@ =~= self.ipv4_addrs@);
        assert(ipv6_addrs@ =~= self.ipv6_addrs@);
        DeviceInfo {
            mac_vendor: self.mac_vendor.clone(),
            mac_addr: self.mac_addr,
            ipv4_addrs,
            ipv6_addrs,
        }
    }
}

/// The vendor label of a well-formed record is fixed by its hardware address
/// alone: two records with the same address carry the same label, whatever
/// protocol addresses each holds.
pub proof fn lemma_vendor_determined_by_mac(a: DeviceInfoView, b: DeviceInfoView)
    requires
        a.wf(),
        b.wf(),
        a.mac_addr == b.mac_addr,
    ensures
        a.mac_vendor == b.mac_vendor,
{
}

} // verus!

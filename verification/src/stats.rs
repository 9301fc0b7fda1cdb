//! Values that the collectors gather: disk information, network
//! statistics and the counters of a network device.
use vstd::prelude::*;
use crate::text::{dec, owned, push_str, u64_dec, i64_dec, dec_int};

verus! {

/// A piece of information about a disk.
pub enum DiskInfo {
    String(String),
    U32(u32),
    U64(u64),
    /// No information (shown as nothing).
    Empty,
}

impl crate::strmap::Dup for DiskInfo {
    fn dup(&self) -> (r: Self) {
        match self {
            DiskInfo::String(s) => DiskInfo::String(s.clone()),
            DiskInfo::U32(u) => DiskInfo::U32(*u),
            DiskInfo::U64(u) => DiskInfo::U64(*u),
            DiskInfo::Empty => DiskInfo::Empty,
        }
    }
}

/// The text of a piece of disk information.
pub open spec fn disk_info_text(d: DiskInfo) -> Seq<char> {
    match d {
        DiskInfo::String(s) => s@,
        DiskInfo::U32(u) => dec(u as nat),
        DiskInfo::U64(u) => dec(u as nat),
        DiskInfo::Empty => Seq::empty(),
    }
}

impl DiskInfo {
    /// The information as text: a string as it is, a number in decimal,
    /// nothing for none.
    pub fn to_string(&self) -> (r: String)
        ensures
            r@ == disk_info_text(*self),
    {
        match self {
            DiskInfo::String(s) => s.clone(),
            DiskInfo::U32(u) => u64_dec(*u as u64),
            DiskInfo::U64(u) => u64_dec(*u),
            DiskInfo::Empty => String::new(),
        }
    }
}

/// A network statistic.
pub enum NetCollectorStat {
    U64(u64),
    Vec(Vec<u64>),
    Bool(bool),
    I32(i32),
    String(String),
}

/// What a network statistic holds, as plain values.
pub enum NetStatView {
    U64(u64),
    Vec(Seq<u64>),
    Bool(bool),
    I32(i32),
    String(Seq<char>),
}

impl crate::strmap::DeepDup for NetCollectorStat {
    type D = NetStatView;

    open spec fn deep(&self) -> NetStatView {
        match self {
            NetCollectorStat::U64(u) => NetStatView::U64(*u),
            NetCollectorStat::Vec(v) => NetStatView::Vec(v@),
            NetCollectorStat::Bool(b) => NetStatView::Bool(*b),
            NetCollectorStat::I32(i) => NetStatView::I32(*i),
            NetCollectorStat::String(s) => NetStatView::String(s@),
        }
    }

    fn deep_dup(&self) -> (r: Self) {
        match self {
            NetCollectorStat::U64(u) => NetCollectorStat::U64(*u),
            NetCollectorStat::Vec(v) => {
                let w = v.clone();
                assert(w@ =~= v@);
                NetCollectorStat::Vec(w)
            },
            NetCollectorStat::Bool(b) => NetCollectorStat::Bool(*b),
            NetCollectorStat::I32(i) => NetCollectorStat::I32(*i),
            NetCollectorStat::String(s) => NetCollectorStat::String(s.clone()),
        }
    }
}

/// The numbers in decimal, separated by a comma and a space.
pub open spec fn joined(v: Seq<u64>) -> Seq<char>
    decreases v.len(),
{
    if v.len() == 0 {
        Seq::empty()
    } else if v.len() == 1 {
        dec(v[0] as nat)
    } else {
        joined(v.drop_last()) + ", "@ + dec(v.last() as nat)
    }
}

/// The text of a network statistic.
pub open spec fn stat_text(s: NetCollectorStat) -> Seq<char> {
    match s {
        NetCollectorStat::U64(u) => dec(u as nat),
        NetCollectorStat::Vec(v) => joined(v@),
        NetCollectorStat::Bool(b) => if b { "true"@ } else { "false"@ },
        NetCollectorStat::I32(i) => dec_int(i as int),
        NetCollectorStat::String(t) => t@,
    }
}

impl NetCollectorStat {
    /// The statistic as text: numbers in decimal (a list of them separated
    /// by `, `), a truth value as `true` or `false`, a string as it is.
    pub fn to_string(&self) -> (r: String)
        ensures
            r@ == stat_text(*self),
    {
        match self {
            NetCollectorStat::U64(u) => u64_dec(*u),
            NetCollectorStat::Vec(v) => {
                let mut r = String::new();
                let mut k: usize = 0;
                assert(v@.take(0) =~= Seq::<u64>::empty());
                while k < v.len()
                    invariant
                        k <= v.len(),
                        r@ == joined(v@.take(k as int)),
                    decreases v.len() - k,
                {
                    assert(v@.take(k + 1).drop_last() =~= v@.take(k as int));
                    if k > 0 {
                        push_str(&mut r, ", ");
                    }
                    let d = u64_dec(v[k]);
                    push_str(&mut r, d.as_str());
                    k = k + 1;
                }
                assert(v@.take(v.len() as int) =~= v@);
                r
            },
            NetCollectorStat::Bool(b) => if *b { owned("true") } else { owned("false") },
            NetCollectorStat::I32(i) => i64_dec(*i as i64),
            NetCollectorStat::String(t) => t.clone(),
        }
    }
}

/// The counters of a network device.
pub struct Network {
    device_name: String,
    total_bytes_received: u64,
    bytes_received: u64,
    total_bytes_transmitted: u64,
    bytes_transmitted: u64,
}

impl Network {
    /// The counters of device `device_name`.
    pub fn new(device_name: String, total_bytes_received: u64, bytes_received: u64, total_bytes_transmitted: u64, bytes_transmitted: u64) -> (n: Network)
        ensures
            n.device_name() == device_name@,
            n.total_bytes_received() == total_bytes_received,
            n.bytes_received() == bytes_received,
            n.total_bytes_transmitted() == total_bytes_transmitted,
            n.bytes_transmitted() == bytes_transmitted,
    {
        Network { device_name, total_bytes_received, bytes_received, total_bytes_transmitted, bytes_transmitted }
    }

    /// The device's name.
    pub closed spec fn device_name(&self) -> Seq<char> {
        self.device_name@
    }

    /// The bytes received in all.
    pub closed spec fn total_bytes_received(&self) -> u64 {
        self.total_bytes_received
    }

    /// The bytes received lately.
    pub closed spec fn bytes_received(&self) -> u64 {
        self.bytes_received
    }

    /// The bytes sent in all.
    pub closed spec fn total_bytes_transmitted(&self) -> u64 {
        self.total_bytes_transmitted
    }

    /// The bytes sent lately.
    pub closed spec fn bytes_transmitted(&self) -> u64 {
        self.bytes_transmitted
    }
}

/// The network device chosen after key `key`: the next one for `n`, the
/// one before for any other key, going round; nothing changes with fewer
/// than two devices.
pub open spec fn switched_nic(nic_i: i32, count: usize, next: bool) -> i32 {
    if count < 2 {
        nic_i
    } else {
        let i = nic_i + (if next { 1int } else { -1int });
        if i >= count {
            0
        } else if i < 0 {
            (count - 1) as i32
        } else {
            i as i32
        }
    }
}

/// The device index after key `key` among `count` devices (see
/// `switched_nic`).
pub fn switch_nic(nic_i: i32, count: usize, key: &str) -> (r: i32)
    requires
        count <= i32::MAX,
        nic_i < i32::MAX,
        nic_i > i32::MIN,
    ensures
        r == switched_nic(nic_i, count, key@ == "n"@),
{
    if count < 2 {
        return nic_i;
    }
    let next = crate::text::str_eq(key, "n");
    let i: i32 = if next { nic_i + 1 } else { nic_i - 1 };
    if i as i64 >= count as i64 {
        0
    } else if i < 0 {
        (count - 1) as i32
    } else {
        i
    }
}

} // verus!

//! The figures of the network collector: the devices and the one shown,
//! the statistics and texts per device and direction, and how the graphs
//! are scaled.
use vstd::prelude::*;
use crate::strmap::{StrMap, DeepDup, DupView};
use crate::stats::{NetCollectorStat, switched_nic, switch_nic};
use crate::netbox::NetBox;
use crate::settings::Config;
use crate::collector::{Collector, Collectors};
use crate::event::{Event, EventEnum};
use crate::text::owned;

verus! {

/// Value `k` of a table, if there is one.
fn table_get<V: DeepDup>(m: &StrMap<V>, k: &str) -> (r: Option<V>)
    ensures
        r is None <==> !m@.contains_key(k@),
        r matches Some(v) ==> v.deep() == m@[k@].deep(),
{
    match m.get(k) {
        Some(v) => Some(v.deep_dup()),
        None => None,
    }
}

/// `m` with entry `k2` of table `k1` set to `e`.
fn table_set_in<V: DeepDup>(m: &mut StrMap<StrMap<V>>, k1: String, k2: String, e: V)
    requires
        old(m)@.contains_key(k1@),
    ensures
        final(m).deep() == old(m).deep().insert(k1@, old(m)@[k1@].deep().insert(k2@, e.deep())),
{
    let ghost before = *m;
    let mut t = m.get(k1.as_str()).unwrap().deep_dup();
    let ghost t0 = t;
    t.insert(k2, e);
    assert(t.deep() =~= t0.deep().insert(k2@, e.deep()));
    let ghost k = k1@;
    m.insert(k1, t);
    assert(m.deep() =~= before.deep().insert(k, t.deep()));
}

/// `m` with entry `k3` of table `k2` of table `k1` set to `e`.
fn table_set_in_in<V: DeepDup>(m: &mut StrMap<StrMap<StrMap<V>>>, k1: String, k2: String, k3: String, e: V)
    requires
        old(m)@.contains_key(k1@),
        old(m)@[k1@]@.contains_key(k2@),
    ensures
        final(m).deep() == old(m).deep().insert(
            k1@,
            old(m)@[k1@].deep().insert(k2@, old(m)@[k1@]@[k2@].deep().insert(k3@, e.deep())),
        ),
{
    let mut t = m.get(k1.as_str()).unwrap().get(k2.as_str()).unwrap().deep_dup();
    let ghost t0 = t;
    t.insert(k3, e);
    assert(t.deep() =~= t0.deep().insert(k3@, e.deep()));
    table_set_in(m, k1, k2, t);
}

/// The device shown after key `key`, when there are at least two.
pub open spec fn nic_after(nics: Seq<Seq<char>>, nic_i: i32, key: Seq<char>) -> i32 {
    switched_nic(nic_i, nics.len() as usize, key == "n"@)
}

/// The view of an optional text.
pub open spec fn name_view(o: Option<String>) -> Option<Seq<char>> {
    match o {
        Some(s) => Some(s@),
        None => None,
    }
}

/// The table of graph scalings that every collector starts with.
pub open spec fn start_scale(n: i32) -> Map<Seq<char>, i32> {
    map!["download"@ => n, "upload"@ => n]
}

/// The figures of the network collector.
pub struct NetCollector {
    pub buffer: String,
    pub nics: Vec<String>,
    pub nic_i: i32,
    pub nic: Option<String>,
    pub new_nic: Option<String>,
    pub nic_error: bool,
    pub reset: bool,
    pub graph_raise: StrMap<i32>,
    pub graph_lower: StrMap<i32>,
    pub stats: StrMap<StrMap<StrMap<NetCollectorStat>>>,
    pub strings: StrMap<StrMap<StrMap<String>>>,
    pub switched: bool,
    pub net_min: StrMap<i32>,
    pub auto_min: bool,
    pub sync_top: i32,
    pub sync_string: String,
}

impl NetCollector {
    /// A collector drawing into the buffer of `netbox`, with no device
    /// known yet, graphs raised and lowered after 5 rounds, no least
    /// speed, and the automatic scaling of the configuration.
    pub fn new(netbox: &NetBox, config: &Config) -> (n: Self)
        ensures
            n.buffer@ == netbox@.buffer,
            n.nics@.len() == 0,
            n.nic_i == 0,
            n.nic is None,
            n.new_nic is None,
            !n.nic_error && !n.reset && !n.switched,
            n.graph_raise@ == start_scale(5),
            n.graph_lower@ == start_scale(5),
            n.stats@ == Map::<Seq<char>, StrMap<StrMap<NetCollectorStat>>>::empty(),
            n.strings@ == Map::<Seq<char>, StrMap<StrMap<String>>>::empty(),
            n.net_min@ == start_scale(-1i32),
            n.auto_min == config.net_auto,
            n.sync_top == 0,
            n.sync_string@.len() == 0,
    {
        let mut graph_raise: StrMap<i32> = StrMap::new();
        graph_raise.insert(owned("download"), 5);
        graph_raise.insert(owned("upload"), 5);
        let mut graph_lower: StrMap<i32> = StrMap::new();
        graph_lower.insert(owned("download"), 5);
        graph_lower.insert(owned("upload"), 5);
        let mut net_min: StrMap<i32> = StrMap::new();
        net_min.insert(owned("download"), -1);
        net_min.insert(owned("upload"), -1);
        assert(graph_raise@ =~= start_scale(5));
        assert(graph_lower@ =~= start_scale(5));
        assert(net_min@ =~= start_scale(-1i32));
        proof {
            reveal_strlit("");
        }
        NetCollector {
            buffer: netbox.get_buffer(),
            nics: Vec::new(),
            nic_i: 0,
            nic: None,
            new_nic: None,
            nic_error: false,
            reset: false,
            graph_raise,
            graph_lower,
            stats: StrMap::new(),
            strings: StrMap::new(),
            switched: false,
            net_min,
            auto_min: config.net_auto,
            sync_top: 0,
            sync_string: owned(""),
        }
    }

    /// Shows the next device for key `n`, the one before for any other key
    /// (going round), and asks `collector` for a round of the network
    /// collector that draws at once and redraws; nothing happens with
    /// fewer than two devices.
    pub fn switch(&mut self, key: String, collector: &mut Collector)
        requires
            old(self).nics@.len() <= i32::MAX,
            old(self).nics@.len() >= 2 ==> i32::MIN < old(self).nic_i < i32::MAX,
        ensures
            old(self).nics@.len() < 2 ==> *final(self) == *old(self) && *final(collector) == *old(collector),
            old(self).nics@.len() >= 2 ==> {
                let i = nic_after(crate::brshtop_box::views(&old(self).nics@), old(self).nic_i, key@);
                &&& *final(self) == (NetCollector {
                    nic_i: i,
                    new_nic: final(self).new_nic,
                    switched: true,
                    ..*old(self)
                })
                &&& name_view(final(self).new_nic) == Some(old(self).nics@[i as int]@)
                &&& *final(collector) == (Collector {
                    collect_interrupt: false,
                    proc_interrupt: false,
                    use_draw_list: true,
                    draw_now: true,
                    redraw: true,
                    only_draw: false,
                    collect_queue: final(collector).collect_queue,
                    collect_run: Event { t: EventEnum::Flag(true) },
                    ..*old(collector)
                })
                &&& final(collector).collect_queue@ == seq![Collectors::NetCollector]
            },
    {
        if self.nics.len() < 2 {
            return;
        }
        let i = switch_nic(self.nic_i, self.nics.len(), key.as_str());
        assert(crate::brshtop_box::views(&self.nics@).len() == self.nics@.len());
        self.nic_i = i;
        self.new_nic = Some(self.nics[i as usize].clone());
        self.switched = true;
        let queue = vec![Collectors::NetCollector];
        collector.collect(queue, true, false, false, true, false);
    }

    /// The name of the draw buffer.
    pub fn get_buffer(&self) -> (r: String)
        ensures
            r@ == self.buffer@,
    {
        self.buffer.clone()
    }

    /// Sets the name of the draw buffer.
    pub fn set_buffer(&mut self, buffer: String)
        ensures
            *final(self) == (NetCollector { buffer: final(self).buffer, ..*old(self) }),
            final(self).buffer@ == buffer@,
    {
        self.buffer = buffer;
    }

    /// Whether reading the devices failed.
    pub fn get_nic_error(&self) -> (r: bool)
        ensures
            r == self.nic_error,
    {
        self.nic_error
    }

    /// Sets whether reading the devices failed.
    pub fn set_nic_error(&mut self, nic_error: bool)
        ensures
            *final(self) == (NetCollector { nic_error: final(self).nic_error, ..*old(self) }),
            final(self).nic_error == nic_error,
    {
        self.nic_error = nic_error;
    }

    /// Whether the totals are shown from zero.
    pub fn get_reset(&self) -> (r: bool)
        ensures
            r == self.reset,
    {
        self.reset
    }

    /// Sets whether the totals are shown from zero.
    pub fn set_reset(&mut self, reset: bool)
        ensures
            *final(self) == (NetCollector { reset: final(self).reset, ..*old(self) }),
            final(self).reset == reset,
    {
        self.reset = reset;
    }

    /// A copy of the rounds before a graph is raised per direction.
    pub fn get_graph_raise(&self) -> (r: StrMap<i32>)
        ensures
            r@ == self.graph_raise@,
    {
        self.graph_raise.dup_view()
    }

    /// Replaces the rounds before a graph is raised per direction.
    pub fn set_graph_raise(&mut self, graph_raise: StrMap<i32>)
        ensures
            *final(self) == (NetCollector { graph_raise: final(self).graph_raise, ..*old(self) }),
            final(self).graph_raise@ == graph_raise@,
    {
        self.graph_raise = graph_raise;
    }

    /// The rounds before a graph is raised for direction `index`, if there is one.
    pub fn get_graph_raise_index(&self, index: String) -> (r: Option<i32>)
        ensures
            r == (if self.graph_raise@.contains_key(index@) { Some(self.graph_raise@[index@]) } else { None }),
    {
        match self.graph_raise.get(index.as_str()) {
            Some(v) => Some(*v),
            None => None,
        }
    }

    /// Sets the rounds before a graph is raised for direction `index`.
    pub fn set_graph_raise_index(&mut self, index: String, element: i32)
        ensures
            *final(self) == (NetCollector { graph_raise: final(self).graph_raise, ..*old(self) }),
            final(self).graph_raise@ == old(self).graph_raise@.insert(index@, element),
    {
        self.graph_raise.insert(index, element);
    }

    /// A copy of the rounds before a graph is lowered per direction.
    pub fn get_graph_lower(&self) -> (r: StrMap<i32>)
        ensures
            r@ == self.graph_lower@,
    {
        self.graph_lower.dup_view()
    }

    /// Replaces the rounds before a graph is lowered per direction.
    pub fn set_graph_lower(&mut self, graph_lower: StrMap<i32>)
        ensures
            *final(self) == (NetCollector { graph_lower: final(self).graph_lower, ..*old(self) }),
            final(self).graph_lower@ == graph_lower@,
    {
        self.graph_lower = graph_lower;
    }

    /// The rounds before a graph is lowered for direction `index`, if there is one.
    pub fn get_graph_lower_index(&self, index: String) -> (r: Option<i32>)
        ensures
            r == (if self.graph_lower@.contains_key(index@) { Some(self.graph_lower@[index@]) } else { None }),
    {
        match self.graph_lower.get(index.as_str()) {
            Some(v) => Some(*v),
            None => None,
        }
    }

    /// Sets the rounds before a graph is lowered for direction `index`.
    pub fn set_graph_lower_index(&mut self, index: String, element: i32)
        ensures
            *final(self) == (NetCollector { graph_lower: final(self).graph_lower, ..*old(self) }),
            final(self).graph_lower@ == old(self).graph_lower@.insert(index@, element),
    {
        self.graph_lower.insert(index, element);
    }

    /// A copy of the statistics per device, direction and name.
    pub fn get_stats(&self) -> (r: StrMap<StrMap<StrMap<NetCollectorStat>>>)
        ensures
            r.deep() == self.stats.deep(),
    {
        self.stats.deep_dup()
    }

    /// Replaces the statistics.
    pub fn set_stats(&mut self, stats: StrMap<StrMap<StrMap<NetCollectorStat>>>)
        ensures
            *final(self) == (NetCollector { stats: final(self).stats, ..*old(self) }),
            final(self).stats.deep() == stats.deep(),
    {
        self.stats = stats;
    }

    /// A copy of the statistics of device `index`, if there are any.
    pub fn get_stats_index(&self, index: String) -> (r: Option<StrMap<StrMap<NetCollectorStat>>>)
        ensures
            r is None <==> !self.stats@.contains_key(index@),
            r matches Some(t) ==> t.deep() == self.stats@[index@].deep(),
    {
        table_get(&self.stats, index.as_str())
    }

    /// Sets the statistics of device `index`.
    pub fn set_stats_index(&mut self, index: String, element: StrMap<StrMap<NetCollectorStat>>)
        ensures
            *final(self) == (NetCollector { stats: final(self).stats, ..*old(self) }),
            final(self).stats.deep() == old(self).stats.deep().insert(index@, element.deep()),
    {
        let ghost before = self.stats;
        let ghost k = index@;
        let ghost e = element.deep();
        self.stats.insert(index, element);
        assert(self.stats.deep() =~= before.deep().insert(k, e));
    }

    /// A copy of the statistics of device `index1` in direction `index2`, if
    /// there are any.
    pub fn get_stats_inner_index(&self, index1: String, index2: String) -> (r: Option<StrMap<NetCollectorStat>>)
        ensures
            r is None <==> !(self.stats@.contains_key(index1@) && self.stats@[index1@]@.contains_key(index2@)),
            r matches Some(t) ==> t.deep() == self.stats@[index1@]@[index2@].deep(),
    {
        match self.stats.get(index1.as_str()) {
            Some(t) => table_get(t, index2.as_str()),
            None => None,
        }
    }

    /// Sets the statistics of device `index1` in direction `index2`; the device
    /// has statistics already.
    pub fn set_stats_inner_index(&mut self, index1: String, index2: String, element: StrMap<NetCollectorStat>)
        requires
            old(self).stats@.contains_key(index1@),
        ensures
            *final(self) == (NetCollector { stats: final(self).stats, ..*old(self) }),
            final(self).stats.deep() == old(self).stats.deep().insert(index1@, old(self).stats@[index1@].deep().insert(index2@, element.deep())),
    {
        table_set_in(&mut self.stats, index1, index2, element);
    }

    /// The statistic named `index3` of device `index1` in direction
    /// `index2`, which is there.
    pub fn get_stats_inner_inner_index(&self, index1: String, index2: String, index3: String) -> (r: NetCollectorStat)
        requires
            self.stats@.contains_key(index1@),
            self.stats@[index1@]@.contains_key(index2@),
            self.stats@[index1@]@[index2@]@.contains_key(index3@),
        ensures
            r.deep() == self.stats@[index1@]@[index2@]@[index3@].deep(),
    {
        let t1 = self.stats.get(index1.as_str()).unwrap();
        let t2 = t1.get(index2.as_str()).unwrap();
        t2.get(index3.as_str()).unwrap().deep_dup()
    }

    /// Sets the statistic named `index3` of device `index1` in
    /// direction `index2`, which has statistics already.
    pub fn set_stats_inner_inner_index(&mut self, index1: String, index2: String, index3: String, element: NetCollectorStat)
        requires
            old(self).stats@.contains_key(index1@),
            old(self).stats@[index1@]@.contains_key(index2@),
        ensures
            *final(self) == (NetCollector { stats: final(self).stats, ..*old(self) }),
            final(self).stats.deep() == old(self).stats.deep().insert(
                index1@,
                old(self).stats@[index1@].deep().insert(index2@, old(self).stats@[index1@]@[index2@].deep().insert(index3@, element.deep())),
            ),
    {
        table_set_in_in(&mut self.stats, index1, index2, index3, element);
    }

    /// A copy of the texts per device, direction and name.
    pub fn get_strings(&self) -> (r: StrMap<StrMap<StrMap<String>>>)
        ensures
            r.deep() == self.strings.deep(),
    {
        self.strings.deep_dup()
    }

    /// Replaces the texts.
    pub fn set_strings(&mut self, strings: StrMap<StrMap<StrMap<String>>>)
        ensures
            *final(self) == (NetCollector { strings: final(self).strings, ..*old(self) }),
            final(self).strings.deep() == strings.deep(),
    {
        self.strings = strings;
    }

    /// A copy of the texts of device `index`, if there are any.
    pub fn get_strings_index(&self, index: String) -> (r: Option<StrMap<StrMap<String>>>)
        ensures
            r is None <==> !self.strings@.contains_key(index@),
            r matches Some(t) ==> t.deep() == self.strings@[index@].deep(),
    {
        table_get(&self.strings, index.as_str())
    }

    /// Sets the texts of device `index`.
    pub fn set_strings_index(&mut self, index: String, element: StrMap<StrMap<String>>)
        ensures
            *final(self) == (NetCollector { strings: final(self).strings, ..*old(self) }),
            final(self).strings.deep() == old(self).strings.deep().insert(index@, element.deep()),
    {
        let ghost before = self.strings;
        let ghost k = index@;
        let ghost e = element.deep();
        self.strings.insert(index, element);
        assert(self.strings.deep() =~= before.deep().insert(k, e));
    }

    /// A copy of the texts of device `index1` in direction `index2`, if
    /// there are any.
    pub fn get_strings_inner_index(&self, index1: String, index2: String) -> (r: Option<StrMap<String>>)
        ensures
            r is None <==> !(self.strings@.contains_key(index1@) && self.strings@[index1@]@.contains_key(index2@)),
            r matches Some(t) ==> t.deep() == self.strings@[index1@]@[index2@].deep(),
    {
        match self.strings.get(index1.as_str()) {
            Some(t) => table_get(t, index2.as_str()),
            None => None,
        }
    }

    /// Sets the texts of device `index1` in direction `index2`; the device
    /// has texts already.
    pub fn set_strings_inner_index(&mut self, index1: String, index2: String, element: StrMap<String>)
        requires
            old(self).strings@.contains_key(index1@),
        ensures
            *final(self) == (NetCollector { strings: final(self).strings, ..*old(self) }),
            final(self).strings.deep() == old(self).strings.deep().insert(index1@, old(self).strings@[index1@].deep().insert(index2@, element.deep())),
    {
        table_set_in(&mut self.strings, index1, index2, element);
    }

    /// The text named `index3` of device `index1` in direction
    /// `index2`, which is there.
    pub fn get_strings_inner_inner_index(&self, index1: String, index2: String, index3: String) -> (r: String)
        requires
            self.strings@.contains_key(index1@),
            self.strings@[index1@]@.contains_key(index2@),
            self.strings@[index1@]@[index2@]@.contains_key(index3@),
        ensures
            r.deep() == self.strings@[index1@]@[index2@]@[index3@].deep(),
    {
        let t1 = self.strings.get(index1.as_str()).unwrap();
        let t2 = t1.get(index2.as_str()).unwrap();
        t2.get(index3.as_str()).unwrap().deep_dup()
    }

    /// Sets the text named `index3` of device `index1` in
    /// direction `index2`, which has texts already.
    pub fn set_strings_inner_inner_index(&mut self, index1: String, index2: String, index3: String, element: String)
        requires
            old(self).strings@.contains_key(index1@),
            old(self).strings@[index1@]@.contains_key(index2@),
        ensures
            *final(self) == (NetCollector { strings: final(self).strings, ..*old(self) }),
            final(self).strings.deep() == old(self).strings.deep().insert(
                index1@,
                old(self).strings@[index1@].deep().insert(index2@, old(self).strings@[index1@]@[index2@].deep().insert(index3@, element.deep())),
            ),
    {
        table_set_in_in(&mut self.strings, index1, index2, index3, element);
    }

    /// Whether the device shown was switched.
    pub fn get_switched(&self) -> (r: bool)
        ensures
            r == self.switched,
    {
        self.switched
    }

    /// Sets whether the device shown was switched.
    pub fn set_switched(&mut self, switched: bool)
        ensures
            *final(self) == (NetCollector { switched: final(self).switched, ..*old(self) }),
            final(self).switched == switched,
    {
        self.switched = switched;
    }

    /// A copy of the least speed of a graph per direction.
    pub fn get_net_min(&self) -> (r: StrMap<i32>)
        ensures
            r@ == self.net_min@,
    {
        self.net_min.dup_view()
    }

    /// Replaces the least speed of a graph per direction.
    pub fn set_net_min(&mut self, net_min: StrMap<i32>)
        ensures
            *final(self) == (NetCollector { net_min: final(self).net_min, ..*old(self) }),
            final(self).net_min@ == net_min@,
    {
        self.net_min = net_min;
    }

    /// The least speed of a graph for direction `index`, if there is one.
    pub fn get_net_min_index(&self, index: String) -> (r: Option<i32>)
        ensures
            r == (if self.net_min@.contains_key(index@) { Some(self.net_min@[index@]) } else { None }),
    {
        match self.net_min.get(index.as_str()) {
            Some(v) => Some(*v),
            None => None,
        }
    }

    /// Sets the least speed of a graph for direction `index`.
    pub fn set_net_min_index(&mut self, index: String, element: i32)
        ensures
            *final(self) == (NetCollector { net_min: final(self).net_min, ..*old(self) }),
            final(self).net_min@ == old(self).net_min@.insert(index@, element),
    {
        self.net_min.insert(index, element);
    }

    /// Whether graphs are scaled by themselves.
    pub fn get_auto_min(&self) -> (r: bool)
        ensures
            r == self.auto_min,
    {
        self.auto_min
    }

    /// Sets whether graphs are scaled by themselves.
    pub fn set_auto_min(&mut self, auto_min: bool)
        ensures
            *final(self) == (NetCollector { auto_min: final(self).auto_min, ..*old(self) }),
            final(self).auto_min == auto_min,
    {
        self.auto_min = auto_min;
    }

    /// The top speed shared by both graphs.
    pub fn get_sync_top(&self) -> (r: i32)
        ensures
            r == self.sync_top,
    {
        self.sync_top
    }

    /// Sets the top speed shared by both graphs.
    pub fn set_sync_top(&mut self, sync_top: i32)
        ensures
            *final(self) == (NetCollector { sync_top: final(self).sync_top, ..*old(self) }),
            final(self).sync_top == sync_top,
    {
        self.sync_top = sync_top;
    }

    /// The text of the shared top speed.
    pub fn get_sync_string(&self) -> (r: String)
        ensures
            r@ == self.sync_string@,
    {
        self.sync_string.clone()
    }

    /// Sets the text of the shared top speed.
    pub fn set_sync_string(&mut self, sync_string: String)
        ensures
            *final(self) == (NetCollector { sync_string: final(self).sync_string, ..*old(self) }),
            final(self).sync_string@ == sync_string@,
    {
        self.sync_string = sync_string;
    }

}

} // verus!

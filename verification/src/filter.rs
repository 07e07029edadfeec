//! The packet filter: which incoming datagrams are passed on to the
//! application routes, in which form, and what the debug view records.

use vstd::prelude::*;
use crate::osc::{OscDatagram, MAX_DATAGRAM_LEN, osc_decode, osc_encode};

verus! {

/// The packet filter as configured by the user.
///
/// Each list entry is an OSC address and a flag of the editor; the flag
/// plays no part in filtering.
#[derive(Clone)]
pub struct PacketFilter {
    pub enabled: bool,
    pub filter_bad_packets: bool,
    pub wl_enabled: bool,
    pub address_wl: Vec<(String, bool)>,
    pub bl_enabled: bool,
    pub address_bl: Vec<(String, bool)>,
}

/// What filtering depends on: the four switches and the addresses of the
/// two lists.
pub struct FilterSpec {
    pub enabled: bool,
    pub filter_bad_packets: bool,
    pub wl_enabled: bool,
    pub bl_enabled: bool,
    pub whitelist: Seq<Seq<char>>,
    pub blacklist: Seq<Seq<char>>,
}

/// The addresses of a list of entries, in order.
pub open spec fn entry_names(entries: Seq<(String, bool)>) -> Seq<Seq<char>> {
    entries.map_values(|e: (String, bool)| e.0@)
}

impl View for PacketFilter {
    type V = FilterSpec;

    open spec fn view(&self) -> FilterSpec {
        FilterSpec {
            enabled: self.enabled,
            filter_bad_packets: self.filter_bad_packets,
            wl_enabled: self.wl_enabled,
            bl_enabled: self.bl_enabled,
            whitelist: entry_names(self.address_wl@),
            blacklist: entry_names(self.address_bl@),
        }
    }
}

/// In which form a datagram that passes the filter is passed on.
#[derive(PartialEq, Eq, Structural, Clone, Copy, Debug)]
pub enum Forwarding {
    /// The received buffer as it is.
    Raw,
    /// The encoding of the decoded packet, without trailing bytes.
    Reencoded,
}

/// What the filter does with a datagram.
#[derive(PartialEq, Eq, Structural, Clone, Copy, Debug)]
pub enum Outcome {
    /// Passed on to the routes.
    Pass(Forwarding),
    /// Dropped, and recorded as dropped.
    Drop,
    /// Neither passed on nor recorded: a bundle while an address list is on.
    Ignore,
}

/// How the debug view records an incoming datagram.
#[derive(PartialEq, Eq, Structural, Clone, Copy, Debug)]
pub enum Verdict {
    Allowed,
    Dropped,
}

/// Whether a message address is let through while an address list is on:
/// the whitelist, when on, decides alone; otherwise the blacklist does.
pub open spec fn admitted(f: FilterSpec, address: Seq<char>) -> bool {
    if f.wl_enabled {
        f.whitelist.contains(address)
    } else {
        !f.blacklist.contains(address)
    }
}

/// What the filter `f` does with a datagram that `decoded` describes
/// (see `osc_decode`).
pub open spec fn filter_outcome(f: FilterSpec, decoded: Option<Option<Seq<char>>>) -> Outcome {
    if !f.enabled {
        Outcome::Pass(Forwarding::Raw)
    } else if f.wl_enabled || f.bl_enabled {
        match decoded {
            None => if f.filter_bad_packets {
                Outcome::Drop
            } else {
                Outcome::Pass(Forwarding::Raw)
            },
            Some(None) => Outcome::Ignore,
            Some(Some(address)) => if admitted(f, address) {
                Outcome::Pass(Forwarding::Reencoded)
            } else {
                Outcome::Drop
            },
        }
    } else if f.filter_bad_packets {
        match decoded {
            Some(_) => Outcome::Pass(Forwarding::Reencoded),
            None => Outcome::Drop,
        }
    } else {
        Outcome::Pass(Forwarding::Raw)
    }
}

/// The bytes passed on for a datagram `bytes` with outcome `o`.
pub open spec fn forwarded_bytes(o: Outcome, bytes: Seq<u8>) -> Option<Seq<u8>> {
    match o {
        Outcome::Pass(Forwarding::Raw) => Some(bytes),
        Outcome::Pass(Forwarding::Reencoded) => Some(osc_encode(bytes)),
        _ => None,
    }
}

/// How the debug view records a datagram with outcome `o`, if at all.
pub open spec fn recorded_verdict(o: Outcome) -> Option<Verdict> {
    match o {
        Outcome::Pass(_) => Some(Verdict::Allowed),
        Outcome::Drop => Some(Verdict::Dropped),
        Outcome::Ignore => None,
    }
}


/// A disabled filter passes every datagram on as it was received.
pub proof fn law_disabled_filter_passes_raw(f: FilterSpec, decoded: Option<Option<Seq<char>>>)
    requires
        !f.enabled,
    ensures
        filter_outcome(f, decoded) == Outcome::Pass(Forwarding::Raw),
{
}

/// With the filter on and bad packets filtered, a datagram that does not
/// decode is never passed on.
pub proof fn law_bad_packets_never_pass(f: FilterSpec)
    requires
        f.enabled,
        f.filter_bad_packets,
    ensures
        filter_outcome(f, None) == Outcome::Drop,
{
}

/// With the filter on and bad packets let through, a datagram that does not
/// decode is passed on unchanged.
pub proof fn law_bad_packets_pass_raw(f: FilterSpec)
    requires
        f.enabled,
        !f.filter_bad_packets,
    ensures
        filter_outcome(f, None) == Outcome::Pass(Forwarding::Raw),
{
}

/// A datagram is passed on re-encoded only if it decoded.
pub proof fn law_reencoded_only_when_decoded(f: FilterSpec, decoded: Option<Option<Seq<char>>>)
    ensures
        filter_outcome(f, decoded) == Outcome::Pass(Forwarding::Reencoded) ==> decoded is Some,
{
}

/// The debug view records a datagram as allowed exactly when it is passed
/// on, and records nothing only for a bundle while an address list is on.
pub proof fn law_verdict_follows_forwarding(f: FilterSpec, decoded: Option<Option<Seq<char>>>, bytes: Seq<u8>)
    ensures
        recorded_verdict(filter_outcome(f, decoded)) == Some(Verdict::Allowed)
            <==> forwarded_bytes(filter_outcome(f, decoded), bytes) is Some,
        recorded_verdict(filter_outcome(f, decoded)) is None
            <==> (f.enabled && (f.wl_enabled || f.bl_enabled) && decoded == Some(None::<Seq<char>>)),
{
}

/// While the whitelist is on, a decoded message passes exactly when its
/// address is on the whitelist, and it passes re-encoded.
pub proof fn law_whitelist_admits_listed(f: FilterSpec, address: Seq<char>)
    requires
        f.enabled,
        f.wl_enabled,
    ensures
        filter_outcome(f, Some(Some(address))) == (if f.whitelist.contains(address) {
            Outcome::Pass(Forwarding::Reencoded)
        } else {
            Outcome::Drop
        }),
{
}

/// While only the blacklist is on, a decoded message passes exactly when its
/// address is not on the blacklist, and it passes re-encoded.
pub proof fn law_blacklist_rejects_listed(f: FilterSpec, address: Seq<char>)
    requires
        f.enabled,
        !f.wl_enabled,
        f.bl_enabled,
    ensures
        filter_outcome(f, Some(Some(address))) == (if f.blacklist.contains(address) {
            Outcome::Drop
        } else {
            Outcome::Pass(Forwarding::Reencoded)
        }),
{
}

/// While the whitelist is on, the blacklist and its switch change nothing.
pub proof fn law_whitelist_overrides_blacklist(f: FilterSpec, g: FilterSpec, decoded: Option<Option<Seq<char>>>)
    requires
        f.wl_enabled,
        g.enabled == f.enabled,
        g.filter_bad_packets == f.filter_bad_packets,
        g.wl_enabled == f.wl_enabled,
        g.whitelist == f.whitelist,
    ensures
        filter_outcome(g, decoded) == filter_outcome(f, decoded),
{
}

/// A whitelist and a blacklist of the same addresses split decoded messages
/// the opposite way: what one passes, the other drops.
pub proof fn law_lists_are_complementary(f: FilterSpec, g: FilterSpec, address: Seq<char>)
    requires
        f.enabled && g.enabled,
        f.wl_enabled,
        !g.wl_enabled && g.bl_enabled,
        f.whitelist == g.blacklist,
    ensures
        (filter_outcome(f, Some(Some(address))) is Pass) <==> (filter_outcome(g, Some(Some(address))) == Outcome::Drop),
{
}

/// Adding addresses to the whitelist never stops a datagram that passed.
pub proof fn law_whitelist_growth_keeps_passing(f: FilterSpec, g: FilterSpec, decoded: Option<Option<Seq<char>>>)
    requires
        g.enabled == f.enabled,
        g.filter_bad_packets == f.filter_bad_packets,
        g.wl_enabled == f.wl_enabled,
        g.bl_enabled == f.bl_enabled,
        g.blacklist == f.blacklist,
        forall|a: Seq<char>| f.whitelist.contains(a) ==> g.whitelist.contains(a),
        filter_outcome(f, decoded) is Pass,
    ensures
        filter_outcome(g, decoded) == filter_outcome(f, decoded),
{
}

/// Adding addresses to the blacklist never lets through a datagram that
/// did not pass.
pub proof fn law_blacklist_growth_keeps_blocking(f: FilterSpec, g: FilterSpec, decoded: Option<Option<Seq<char>>>)
    requires
        g.enabled == f.enabled,
        g.filter_bad_packets == f.filter_bad_packets,
        g.wl_enabled == f.wl_enabled,
        g.bl_enabled == f.bl_enabled,
        g.whitelist == f.whitelist,
        forall|a: Seq<char>| f.blacklist.contains(a) ==> g.blacklist.contains(a),
        !(filter_outcome(f, decoded) is Pass),
    ensures
        filter_outcome(g, decoded) == filter_outcome(f, decoded),
{
}

/// The flags that list entries carry play no part in filtering: two filters
/// that differ only in them decide alike.
pub proof fn law_entry_flags_ignored(a: PacketFilter, b: PacketFilter, decoded: Option<Option<Seq<char>>>)
    requires
        a.enabled == b.enabled,
        a.filter_bad_packets == b.filter_bad_packets,
        a.wl_enabled == b.wl_enabled,
        a.bl_enabled == b.bl_enabled,
        a.address_wl@.len() == b.address_wl@.len(),
        a.address_bl@.len() == b.address_bl@.len(),
        forall|i: int| 0 <= i < a.address_wl@.len() ==> #[trigger] a.address_wl@[i].0@ == b.address_wl@[i].0@,
        forall|i: int| 0 <= i < a.address_bl@.len() ==> #[trigger] a.address_bl@[i].0@ == b.address_bl@[i].0@,
    ensures
        a@ == b@,
        filter_outcome(a@, decoded) == filter_outcome(b@, decoded),
{
    assert(entry_names(a.address_wl@) =~= entry_names(b.address_wl@));
    assert(entry_names(a.address_bl@) =~= entry_names(b.address_bl@));
}

/// Filters whose whitelists hold the same addresses, and whose blacklists
/// hold the same addresses, decide alike, whatever the order or repetition
/// of the entries.
pub proof fn law_same_address_sets_decide_alike(f: FilterSpec, g: FilterSpec, decoded: Option<Option<Seq<char>>>)
    requires
        g.enabled == f.enabled,
        g.filter_bad_packets == f.filter_bad_packets,
        g.wl_enabled == f.wl_enabled,
        g.bl_enabled == f.bl_enabled,
        forall|a: Seq<char>| f.whitelist.contains(a) <==> g.whitelist.contains(a),
        forall|a: Seq<char>| f.blacklist.contains(a) <==> g.blacklist.contains(a),
    ensures
        filter_outcome(g, decoded) == filter_outcome(f, decoded),
{
}

/// With the filter on, neither list switched on and bad packets let
/// through, every datagram, message, bundle or bad packet alike, is passed
/// on exactly as received and recorded as allowed, whatever addresses the
/// two lists hold.
pub proof fn law_no_list_passes_everything_raw(f: FilterSpec, decoded: Option<Option<Seq<char>>>, bytes: Seq<u8>)
    requires
        f.enabled,
        !f.wl_enabled,
        !f.bl_enabled,
        !f.filter_bad_packets,
    ensures
        filter_outcome(f, decoded) == Outcome::Pass(Forwarding::Raw),
        forwarded_bytes(filter_outcome(f, decoded), bytes) == Some(bytes),
        recorded_verdict(filter_outcome(f, decoded)) == Some(Verdict::Allowed),
{
}

/// With the filter on, neither list switched on and bad packets filtered,
/// every datagram that decodes, message or bundle, is passed on as the
/// encoding of its packet, whatever addresses the two lists hold, and every
/// other one is dropped.
pub proof fn law_no_list_filters_only_bad_packets(f: FilterSpec, decoded: Option<Option<Seq<char>>>, bytes: Seq<u8>)
    requires
        f.enabled,
        !f.wl_enabled,
        !f.bl_enabled,
        f.filter_bad_packets,
    ensures
        decoded is Some ==> filter_outcome(f, decoded) == Outcome::Pass(Forwarding::Reencoded)
            && forwarded_bytes(filter_outcome(f, decoded), bytes) == Some(osc_encode(bytes))
            && recorded_verdict(filter_outcome(f, decoded)) == Some(Verdict::Allowed),
        decoded is None ==> filter_outcome(f, decoded) == Outcome::Drop
            && forwarded_bytes(filter_outcome(f, decoded), bytes) is None
            && recorded_verdict(filter_outcome(f, decoded)) == Some(Verdict::Dropped),
{
}

/// While a list is switched on, a bundle is neither passed on nor recorded.
pub proof fn law_list_mode_ignores_bundles(f: FilterSpec, bytes: Seq<u8>)
    requires
        f.enabled,
        f.wl_enabled || f.bl_enabled,
    ensures
        filter_outcome(f, Some(None)) == Outcome::Ignore,
        forwarded_bytes(filter_outcome(f, Some(None)), bytes) is None,
        recorded_verdict(filter_outcome(f, Some(None))) is None,
{
}

/// A message that a list lets through goes out as the encoding of its
/// packet, one it stops goes nowhere; the two are recorded as allowed and
/// dropped.
pub proof fn law_list_mode_message_bytes(f: FilterSpec, address: Seq<char>, bytes: Seq<u8>)
    requires
        f.enabled,
        f.wl_enabled || f.bl_enabled,
    ensures
        admitted(f, address) ==> forwarded_bytes(filter_outcome(f, Some(Some(address))), bytes) == Some(osc_encode(bytes))
            && recorded_verdict(filter_outcome(f, Some(Some(address)))) == Some(Verdict::Allowed),
        !admitted(f, address) ==> forwarded_bytes(filter_outcome(f, Some(Some(address))), bytes) is None
            && recorded_verdict(filter_outcome(f, Some(Some(address)))) == Some(Verdict::Dropped),
{
}

/// Raw forwarding hands on the received bytes themselves, and a disabled
/// filter records everything as allowed.
pub proof fn law_disabled_filter_forwards_received_bytes(f: FilterSpec, decoded: Option<Option<Seq<char>>>, bytes: Seq<u8>)
    requires
        !f.enabled,
    ensures
        forwarded_bytes(filter_outcome(f, decoded), bytes) == Some(bytes),
        recorded_verdict(filter_outcome(f, decoded)) == Some(Verdict::Allowed),
{
}

/// A debug record says what the filter did: none is made without a
/// listener; a record carries the outcome's verdict, and the decoded
/// packet, decoded from the very bytes, exactly when they decode.
pub proof fn law_debug_record_contents(debug: Option<IncomingDebug>, o: Outcome, bytes: Seq<u8>, debugging: bool)
    requires
        debug_matches(debug, o, bytes, debugging),
    ensures
        !debugging ==> debug is None,
        debugging && o != Outcome::Ignore ==> debug is Some,
        o == Outcome::Ignore ==> debug is None,
        debug matches Some(d) ==> {
            &&& (o is Pass ==> d.verdict == Verdict::Allowed)
            &&& (o == Outcome::Drop ==> d.verdict == Verdict::Dropped)
            &&& (d.packet is Some <==> osc_decode(bytes) is Some)
            &&& (d.packet matches Some(p) ==> p@ == bytes)
        },
{
}

/// The view of a packet filter holds its switches and, in order, the
/// addresses of its two lists.
pub proof fn law_filter_view_holds_addresses(pf: PacketFilter)
    ensures
        pf@.enabled == pf.enabled,
        pf@.filter_bad_packets == pf.filter_bad_packets,
        pf@.wl_enabled == pf.wl_enabled,
        pf@.bl_enabled == pf.bl_enabled,
        pf@.whitelist.len() == pf.address_wl@.len(),
        pf@.blacklist.len() == pf.address_bl@.len(),
        forall|i: int| 0 <= i < pf.address_wl@.len() ==> #[trigger] pf@.whitelist[i] == pf.address_wl@[i].0@,
        forall|i: int| 0 <= i < pf.address_bl@.len() ==> #[trigger] pf@.blacklist[i] == pf.address_bl@[i].0@,
{
}

/// The view of optional bytes.
pub open spec fn opt_bytes(v: Option<Vec<u8>>) -> Option<Seq<u8>> {
    match v {
        Some(v) => Some(v@),
        None => None,
    }
}

/// The list of addresses of one filter list.
pub struct AddressList {
    addresses: Vec<String>,
}

impl View for AddressList {
    type V = Seq<Seq<char>>;

    closed spec fn view(&self) -> Seq<Seq<char>> {
        self.addresses@.map_values(|s: String| s@)
    }
}

impl AddressList {
    /// The addresses of `entries`, in order, whatever their flags.
    pub fn from_entries(entries: &Vec<(String, bool)>) -> (res: AddressList)
        ensures
            res@ == entry_names(entries@),
    {
        let mut addresses: Vec<String> = Vec::new();
        let mut i: usize = 0;
        while i < entries.len()
            invariant
                i <= entries@.len(),
                addresses@.len() == i,
                forall|j: int| 0 <= j < i ==> #[trigger] addresses@[j]@ == entries@[j].0@,
            decreases entries@.len() - i,
        {
            addresses.push(entries[i].0.clone());
            i = i + 1;
        }
        let res = AddressList { addresses };
        assert(res@ =~= entry_names(entries@));
        res
    }

    /// Whether `address` is on the list.
    pub fn contains(&self, address: &String) -> (res: bool)
        ensures
            res == self@.contains(address@),
    {
        let mut i: usize = 0;
        while i < self.addresses.len()
            invariant
                i <= self.addresses@.len(),
                forall|j: int| 0 <= j < i ==> #[trigger] self.addresses@[j]@ != address@,
            decreases self.addresses@.len() - i,
        {
            if self.addresses[i] == *address {
                assert(self@[i as int] == address@);
                return true;
            }
            i = i + 1;
        }
        assert forall|j: int| 0 <= j < self@.len() implies self@[j] != address@ by {
            assert(self.addresses@[j]@ != address@);
        }
        false
    }
}

/// The record of an incoming datagram for the debug view.
pub struct IncomingDebug {
    pub verdict: Verdict,
    /// The decoded packet, when the datagram decoded.
    pub packet: Option<OscDatagram>,
}

/// What becomes of one incoming datagram.
pub struct Routing {
    /// The bytes to pass on to every route, if any.
    pub forward: Option<Vec<u8>>,
    /// The record for the debug view, if one is due.
    pub debug: Option<IncomingDebug>,
}

/// The packet filter ready for use: its address lists taken out once.
pub struct FilterRules {
    enabled: bool,
    filter_bad_packets: bool,
    wl_enabled: bool,
    bl_enabled: bool,
    whitelist: AddressList,
    blacklist: AddressList,
}

impl View for FilterRules {
    type V = FilterSpec;

    closed spec fn view(&self) -> FilterSpec {
        FilterSpec {
            enabled: self.enabled,
            filter_bad_packets: self.filter_bad_packets,
            wl_enabled: self.wl_enabled,
            bl_enabled: self.bl_enabled,
            whitelist: self.whitelist@,
            blacklist: self.blacklist@,
        }
    }
}

/// The record due for a datagram: none when not debugging or when the
/// outcome records nothing; otherwise the verdict, and the decoded packet
/// exactly when the datagram decoded.
pub open spec fn debug_matches(
    debug: Option<IncomingDebug>,
    o: Outcome,
    bytes: Seq<u8>,
    debugging: bool,
) -> bool {
    match debug {
        None => !debugging || recorded_verdict(o) is None,
        Some(d) => {
            &&& debugging
            &&& recorded_verdict(o) == Some(d.verdict)
            &&& (d.packet is Some <==> osc_decode(bytes) is Some)
            &&& (d.packet matches Some(p) ==> p@ == bytes)
        },
    }
}

impl FilterRules {
    /// Takes the address lists out of `pf`.
    pub fn new(pf: &PacketFilter) -> (res: FilterRules)
        ensures
            res@ == pf@,
    {
        FilterRules {
            enabled: pf.enabled,
            filter_bad_packets: pf.filter_bad_packets,
            wl_enabled: pf.wl_enabled,
            bl_enabled: pf.bl_enabled,
            whitelist: AddressList::from_entries(&pf.address_wl),
            blacklist: AddressList::from_entries(&pf.address_bl),
        }
    }

    fn record(&self, verdict: Verdict, packet: Option<OscDatagram>, debugging: bool) -> (res: Option<IncomingDebug>)
        ensures
            debugging ==> (res matches Some(d) && d.verdict == verdict && d.packet == packet),
            !debugging ==> res is None,
    {
        if debugging {
            Some(IncomingDebug { verdict, packet })
        } else {
            None
        }
    }

    /// Decides what becomes of the datagram held in `buf`, a receive
    /// buffer of at most `MAX_DATAGRAM_LEN` bytes; `debugging`
    /// says whether a debug view is listening.
    pub fn route_datagram(&self, buf: &[u8], debugging: bool) -> (res: Routing)
        requires
            buf@.len() <= MAX_DATAGRAM_LEN,
        ensures
            opt_bytes(res.forward) == forwarded_bytes(filter_outcome(self@, osc_decode(buf@)), buf@),
            debug_matches(res.debug, filter_outcome(self@, osc_decode(buf@)), buf@, debugging),
    {
        if !self.enabled {
            let debug = if debugging {
                Some(IncomingDebug { verdict: Verdict::Allowed, packet: OscDatagram::decode(buf) })
            } else {
                None
            };
            Routing { forward: Some(vstd::slice::slice_to_vec(buf)), debug }
        } else if self.wl_enabled || self.bl_enabled {
            match OscDatagram::decode(buf) {
                Some(d) => {
                    let pass: Option<bool> = match d.address() {
                        Some(address) => if self.wl_enabled {
                            Some(self.whitelist.contains(address))
                        } else {
                            Some(!self.blacklist.contains(address))
                        },
                        None => None,
                    };
                    match pass {
                        Some(true) => {
                            let bytes = d.reencode();
                            Routing {
                                forward: Some(bytes),
                                debug: self.record(Verdict::Allowed, Some(d), debugging),
                            }
                        },
                        Some(false) => Routing {
                            forward: None,
                            debug: self.record(Verdict::Dropped, Some(d), debugging),
                        },
                        None => Routing { forward: None, debug: None },
                    }
                },
                None => if !self.filter_bad_packets {
                    Routing {
                        forward: Some(vstd::slice::slice_to_vec(buf)),
                        debug: self.record(Verdict::Allowed, None, debugging),
                    }
                } else {
                    Routing { forward: None, debug: self.record(Verdict::Dropped, None, debugging) }
                },
            }
        } else if self.filter_bad_packets {
            match OscDatagram::decode(buf) {
                Some(d) => {
                    let bytes = d.reencode();
                    Routing {
                        forward: Some(bytes),
                        debug: self.record(Verdict::Allowed, Some(d), debugging),
                    }
                },
                None => Routing { forward: None, debug: self.record(Verdict::Dropped, None, debugging) },
            }
        } else {
            let debug = if debugging {
                Some(IncomingDebug { verdict: Verdict::Allowed, packet: OscDatagram::decode(buf) })
            } else {
                None
            };
            Routing { forward: Some(vstd::slice::slice_to_vec(buf)), debug }
        }
    }
}

} // verus!

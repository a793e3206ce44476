//! The proxy pool: endpoints with availability, timed recovery and random selection.

use vstd::prelude::*;
use vstd::set_lib::{lemma_int_range, lemma_len_subset, lemma_subset_equality, set_int_range};
use crate::text::{chars_of, same_chars, starts_at};

verus! {

#[derive(Debug, Clone, Copy, PartialEq, Eq, Structural)]
pub enum ProxyProtocol {
    HTTP,
    HTTPS,
    SOCKS5,
    Unknown,
}

/// Availability of one endpoint. `last_failure` is a reading, in seconds, of a monotonic clock.
#[derive(Debug, Clone, Copy, PartialEq, Eq, Structural)]
pub struct ProxyStatus {
    pub available: bool,
    pub last_failure: Option<u64>,
    pub protocol: ProxyProtocol,
}

#[derive(Debug)]
pub struct ProxyEndpoint {
    pub address: String,
    pub status: ProxyStatus,
}

/// What the pool reports about one endpoint.
#[derive(Debug)]
pub struct ProxyReport {
    pub address: String,
    pub protocol: ProxyProtocol,
    pub normalized: String,
    pub has_scheme: bool,
}

/// The proxy pool. Addresses are unique; no endpoint is ever removed, and an
/// unavailable one becomes available again once `unavailable_duration` seconds have
/// passed since its last failure.
#[derive(Debug)]
pub struct ProxyManager {
    proxies: Vec<ProxyEndpoint>,
    unavailable_duration: u64,
}

pub open spec fn has_prefix(s: Seq<char>, p: Seq<char>) -> bool {
    starts_at(s, 0, p)
}

/// The address names its scheme.
pub open spec fn has_scheme(s: Seq<char>) -> bool {
    has_prefix(s, "http://"@) || has_prefix(s, "https://"@) || has_prefix(s, "socks5://"@)
        || has_prefix(s, "socks://"@)
}

/// The text after the last `:` (empty when there is none).
pub open spec fn port_text(s: Seq<char>) -> Seq<char> {
    match crate::text::rfind_char(s, ':') {
        Some(p) => s.skip(p + 1),
        None => Seq::empty(),
    }
}

/// Protocol read from a scheme prefix, else guessed from the port number.
pub open spec fn protocol_of(s: Seq<char>) -> ProxyProtocol {
    if has_prefix(s, "http://"@) {
        ProxyProtocol::HTTP
    } else if has_prefix(s, "https://"@) {
        ProxyProtocol::HTTPS
    } else if has_prefix(s, "socks5://"@) || has_prefix(s, "socks://"@) {
        ProxyProtocol::SOCKS5
    } else if port_text(s) == "1080"@ || port_text(s) == "9050"@ {
        ProxyProtocol::SOCKS5
    } else if port_text(s) == "8080"@ || port_text(s) == "3128"@ || port_text(s) == "80"@ {
        ProxyProtocol::HTTP
    } else if port_text(s) == "443"@ {
        ProxyProtocol::HTTPS
    } else {
        ProxyProtocol::HTTP
    }
}

pub open spec fn scheme_for(p: ProxyProtocol) -> Seq<char> {
    match p {
        ProxyProtocol::HTTPS => "https://"@,
        ProxyProtocol::SOCKS5 => "socks5://"@,
        _ => "http://"@,
    }
}

/// `addr` with a scheme: unchanged when it has one, else prefixed by the one of `p`.
pub open spec fn normalized_with(addr: Seq<char>, p: ProxyProtocol) -> Seq<char> {
    if has_scheme(addr) { addr } else { scheme_for(p) + addr }
}

/// The status after reinstatement at time `now`.
pub open spec fn reinstated(st: ProxyStatus, now: u64, cooldown: u64) -> ProxyStatus {
    if !st.available && st.last_failure is Some && now >= st.last_failure->0
        && now - st.last_failure->0 >= cooldown {
        ProxyStatus { available: true, last_failure: None, protocol: st.protocol }
    } else {
        st
    }
}

pub open spec fn count_available(s: Seq<ProxyEndpoint>) -> nat
    decreases s.len(),
{
    if s.len() == 0 {
        0
    } else {
        count_available(s.drop_last()) + if s.last().status.available { 1nat } else { 0nat }
    }
}

/// Position of the endpoint whose address is `addr`.
pub open spec fn index_of(s: Seq<ProxyEndpoint>, addr: Seq<char>) -> Option<int> {
    if exists|i: int| 0 <= i < s.len() && (#[trigger] s[i]).address@ == addr {
        Some(choose|i: int| 0 <= i < s.len() && (#[trigger] s[i]).address@ == addr)
    } else {
        None
    }
}

/// `a` is among the first `n` addresses of `list`.
pub open spec fn listed(list: Seq<String>, n: int, a: Seq<char>) -> bool {
    exists|k: int| 0 <= k < n && k < list.len() && (#[trigger] list[k])@ == a
}

/// Some endpoint has address `a`.
pub open spec fn pooled(s: Seq<ProxyEndpoint>, a: Seq<char>) -> bool {
    exists|k: int| 0 <= k < s.len() && (#[trigger] s[k]).address@ == a
}

pub open spec fn unique_addresses(s: Seq<ProxyEndpoint>) -> bool {
    forall|i: int, j: int|
        0 <= i < s.len() && 0 <= j < s.len() && i != j ==> (#[trigger] s[i]).address@ != (#[trigger] s[j]).address@
}

/// Relies on rand's `SliceRandom::choose` with `thread_rng()`: `None` for an empty
/// slice, else one of its elements.
#[verifier::external_body]
fn choose_one(candidates: &Vec<usize>) -> (r: Option<usize>)
    ensures
        candidates@.len() == 0 <==> r is None,
        r is Some ==> candidates@.contains(r->0),
{
    rand::seq::SliceRandom::choose(candidates.as_slice(), &mut rand::thread_rng()).copied()
}

fn prefixed(s: &Vec<char>, p: &str) -> (r: bool)
    ensures
        r == has_prefix(s@, p@),
{
    let pc = chars_of(p);
    crate::text::matches_at(s, 0, &pc)
}

fn port_chars(s: &Vec<char>) -> (r: Vec<char>)
    ensures
        r@ == port_text(s@),
{
    let n = s.len();
    match crate::text::rfind(s, ':') {
        Some(p) => {
            let r = crate::text::slice_chars(s, p + 1, n);
            assert(r@ =~= s@.skip(p + 1));
            r
        },
        None => Vec::new(),
    }
}

fn is_port(port: &Vec<char>, p: &str) -> (r: bool)
    ensures
        r == (port@ == p@),
{
    let pc = chars_of(p);
    same_chars(port, &pc)
}

fn scheme_present(s: &Vec<char>) -> (r: bool)
    ensures
        r == has_scheme(s@),
{
    prefixed(s, "http://") || prefixed(s, "https://") || prefixed(s, "socks5://") || prefixed(s, "socks://")
}

fn normalized_address(addr: &str, p: ProxyProtocol) -> (r: String)
    ensures
        r@ == normalized_with(addr@, p),
{
    let cs = chars_of(addr);
    if scheme_present(&cs) {
        return String::from_str(addr);
    }
    let scheme = match p {
        ProxyProtocol::HTTPS => "https://",
        ProxyProtocol::SOCKS5 => "socks5://",
        _ => "http://",
    };
    String::from_str(scheme).concat(addr)
}

impl ProxyManager {
    pub closed spec fn endpoints(&self) -> Seq<ProxyEndpoint> {
        self.proxies@
    }

    pub closed spec fn cooldown(&self) -> u64 {
        self.unavailable_duration
    }

    pub open spec fn wf(&self) -> bool {
        unique_addresses(self.endpoints())
    }

    /// The address list, each once in order of first appearance, all available.
    pub fn new(proxy_list: Option<Vec<String>>, unavailable_duration_hours: u64) -> (r: Self)
        ensures
            r.wf(),
            r.cooldown() == if unavailable_duration_hours > u64::MAX / 3600 { u64::MAX } else {
                (unavailable_duration_hours * 3600) as u64
            },
            proxy_list is None ==> r.endpoints().len() == 0,
            proxy_list is Some ==> forall|a: Seq<char>|
                #![trigger listed(proxy_list->0@, proxy_list->0@.len() as int, a)]
                #![trigger pooled(r.endpoints(), a)]
                listed(proxy_list->0@, proxy_list->0@.len() as int, a) <==> pooled(r.endpoints(), a),
            forall|i: int| 0 <= i < r.endpoints().len() ==> (#[trigger] r.endpoints()[i]).status
                == (ProxyStatus {
                    available: true,
                    last_failure: None,
                    protocol: protocol_of(r.endpoints()[i].address@),
                }),
    {
        let mut proxies: Vec<ProxyEndpoint> = Vec::new();
        if let Some(list) = &proxy_list {
            let mut i: usize = 0;
            while i < list.len()
                invariant
                    proxy_list == Some(*list),
                    i <= list@.len(),
                    unique_addresses(proxies@),
                    forall|a: Seq<char>| #![trigger listed(list@, i as int, a)] #![trigger pooled(proxies@, a)]
                        listed(list@, i as int, a) <==> pooled(proxies@, a),
                    forall|k: int| 0 <= k < proxies@.len() ==> (#[trigger] proxies@[k]).status
                        == (ProxyStatus {
                            available: true,
                            last_failure: None,
                            protocol: protocol_of(proxies@[k].address@),
                        }),
                decreases list@.len() - i,
            {
                let addr = &list[i];
                if Self::position(&proxies, addr.as_str()).is_none() {
                    let protocol = Self::detect_proxy_protocol(addr.as_str());
                    let ghost before = proxies@;
                    proxies.push(ProxyEndpoint {
                        address: addr.clone(),
                        status: ProxyStatus { available: true, last_failure: None, protocol },
                    });
                    assert forall|a: Seq<char>| #![trigger listed(list@, i + 1, a)] #![trigger pooled(proxies@, a)]
                        listed(list@, i + 1, a) <==> pooled(proxies@, a) by {
                        if listed(list@, i + 1, a) {
                            let k = choose|k: int| 0 <= k < i + 1 && k < list@.len() && (#[trigger] list@[k])@ == a;
                            if k < i {
                                assert(listed(list@, i as int, a));
                                assert(pooled(before, a));
                                let m = choose|m: int| 0 <= m < before.len() && (#[trigger] before[m]).address@ == a;
                                assert(proxies@[m] == before[m]);
                            } else {
                                assert(proxies@[before.len() as int].address@ == a);
                            }
                        }
                        if pooled(proxies@, a) {
                            let k = choose|k: int| 0 <= k < proxies@.len() && (#[trigger] proxies@[k]).address@ == a;
                            if k < before.len() {
                                assert(before[k] == proxies@[k]);
                                assert(pooled(before, a));
                            } else {
                                assert(list@[i as int]@ == a);
                            }
                        }
                    }
                    assert(unique_addresses(proxies@)) by {
                        assert forall|x: int, y: int| 0 <= x < proxies@.len() && 0 <= y < proxies@.len() && x != y
                            implies (#[trigger] proxies@[x]).address@ != (#[trigger] proxies@[y]).address@ by {
                            if x < before.len() && y < before.len() {
                                assert(before[x] == proxies@[x] && before[y] == proxies@[y]);
                            } else if x < before.len() {
                                assert(before[x] == proxies@[x]);
                            } else if y < before.len() {
                                assert(before[y] == proxies@[y]);
                            }
                        }
                    }
                } else {
                    assert forall|a: Seq<char>| #![trigger listed(list@, i + 1, a)] #![trigger pooled(proxies@, a)]
                        listed(list@, i + 1, a) <==> pooled(proxies@, a) by {
                        if listed(list@, i + 1, a) {
                            let k = choose|k: int| 0 <= k < i + 1 && k < list@.len() && (#[trigger] list@[k])@ == a;
                            if k < i {
                                assert(listed(list@, i as int, a));
                            } else {
                                                assert(pooled(proxies@, a));
                            }
                        }
                        if pooled(proxies@, a) {
                            assert(listed(list@, i as int, a));
                        }
                    }
                }
                i = i + 1;
            }
        }
        let unavailable_duration = if unavailable_duration_hours > u64::MAX / 3600 {
            u64::MAX
        } else {
            unavailable_duration_hours * 3600
        };
        ProxyManager { proxies, unavailable_duration }
    }

    /// Position of `addr` in `v`.
    fn position(v: &Vec<ProxyEndpoint>, addr: &str) -> (r: Option<usize>)
        ensures
            r is Some ==> r->0 < v@.len() && v@[r->0 as int].address@ == addr@,
            r is Some ==> pooled(v@, addr@),
            r is None ==> index_of(v@, addr@) is None,
            r is None ==> !pooled(v@, addr@),
    {
        let a = chars_of(addr);
        let mut i: usize = 0;
        while i < v.len()
            invariant
                a@ == addr@,
                i <= v@.len(),
                forall|k: int| 0 <= k < i ==> (#[trigger] v@[k]).address@ != addr@,
            decreases v@.len() - i,
        {
            let c = chars_of(v[i].address.as_str());
            if same_chars(&c, &a) {
                return Some(i);
            }
            i = i + 1;
        }
        None
    }

    /// Reinstates every endpoint whose cooldown has elapsed, then picks one of the
    /// available endpoints at random; `None` when none is available.
    pub fn get_random_proxy(&mut self, now: u64) -> (r: Option<String>)
        requires
            old(self).wf(),
        ensures
            final(self).wf(),
            final(self).cooldown() == old(self).cooldown(),
            final(self).endpoints().len() == old(self).endpoints().len(),
            forall|i: int| 0 <= i < old(self).endpoints().len() ==> {
                &&& (#[trigger] final(self).endpoints()[i]).address == old(self).endpoints()[i].address
                &&& final(self).endpoints()[i].status == reinstated(old(self).endpoints()[i].status, now, old(self).cooldown())
            },
            r is None <==> (forall|i: int| 0 <= i < final(self).endpoints().len()
                ==> !(#[trigger] final(self).endpoints()[i]).status.available),
            r is Some ==> exists|i: int| 0 <= i < final(self).endpoints().len()
                && (#[trigger] final(self).endpoints()[i]).status.available
                && final(self).endpoints()[i].address@ == r->0@,
    {
        let ghost start = self.proxies@;
        let mut i: usize = 0;
        let mut candidates: Vec<usize> = Vec::new();
        while i < self.proxies.len()
            invariant
                self.unavailable_duration == old(self).unavailable_duration,
                start == old(self).proxies@,
                self.proxies@.len() == start.len(),
                i <= start.len(),
                forall|k: int| 0 <= k < start.len() ==> (#[trigger] self.proxies@[k]).address == start[k].address,
                forall|k: int| 0 <= k < i ==> (#[trigger] self.proxies@[k]).status == reinstated(start[k].status, now, self.unavailable_duration),
                forall|k: int| i <= k < start.len() ==> (#[trigger] self.proxies@[k]).status == start[k].status,
                forall|k: int| 0 <= k < candidates@.len() ==> (#[trigger] candidates@[k]) < i && self.proxies@[candidates@[k] as int].status.available,
                forall|k: int| 0 <= k < i && (#[trigger] self.proxies@[k]).status.available ==> candidates@.contains(k as usize),
            decreases start.len() - i,
        {
            let st = self.proxies[i].status;
            let mut ns = st;
            if !st.available {
                if let Some(t) = st.last_failure {
                    if now >= t && now - t >= self.unavailable_duration {
                        ns = ProxyStatus { available: true, last_failure: None, protocol: st.protocol };
                    }
                }
            }
            let ghost mid = self.proxies@;
            let addr = self.proxies[i].address.clone();
            self.proxies.set(i, ProxyEndpoint { address: addr, status: ns });
            if ns.available {
                let ghost cb = candidates@;
                candidates.push(i);
                assert forall|k: int| 0 <= k < i + 1 && (#[trigger] self.proxies@[k]).status.available implies candidates@.contains(k as usize) by {
                    if k < i {
                        assert(cb.contains(k as usize));
                        let m = choose|m: int| 0 <= m < cb.len() && cb[m] == k as usize;
                        assert(candidates@[m] == k as usize);
                    } else {
                        assert(candidates@[cb.len() as int] == i);
                    }
                }
            }
            i = i + 1;
        }
        proof {
            assert(unique_addresses(self.proxies@)) by {
                assert forall|a: int, b: int| 0 <= a < self.proxies@.len() && 0 <= b < self.proxies@.len() && a != b
                    implies (#[trigger] self.proxies@[a]).address@ != (#[trigger] self.proxies@[b]).address@ by {
                    assert(start[a].address@ != start[b].address@);
                }
            }
        }
        match choose_one(&candidates) {
            Some(k) => {
                let ghost m = choose|m: int| 0 <= m < candidates@.len() && candidates@[m] == k;
                assert(candidates@[m] == k);
                Some(self.proxies[k].address.clone())
            },
            None => {
                assert forall|k: int| 0 <= k < self.proxies@.len() implies !(#[trigger] self.proxies@[k]).status.available by {
                    if self.proxies@[k].status.available {
                        assert(candidates@.contains(k as usize));
                    }
                }
                None
            },
        }
    }

    /// Records a failure of `proxy` at time `now`: it becomes unavailable.
    pub fn mark_proxy_unavailable(&mut self, proxy: &str, now: u64)
        requires
            old(self).wf(),
        ensures
            final(self).wf(),
            final(self).cooldown() == old(self).cooldown(),
            final(self).endpoints().len() == old(self).endpoints().len(),
            forall|i: int| 0 <= i < old(self).endpoints().len() ==> {
                &&& (#[trigger] final(self).endpoints()[i]).address == old(self).endpoints()[i].address
                &&& final(self).endpoints()[i].status == if old(self).endpoints()[i].address@ == proxy@ {
                    ProxyStatus {
                        available: false,
                        last_failure: Some(now),
                        protocol: old(self).endpoints()[i].status.protocol,
                    }
                } else {
                    old(self).endpoints()[i].status
                }
            },
    {
        match Self::position(&self.proxies, proxy) {
            Some(k) => {
                let st = self.proxies[k].status;
                let addr = self.proxies[k].address.clone();
                let ghost before = self.proxies@;
                self.proxies.set(k, ProxyEndpoint {
                    address: addr,
                    status: ProxyStatus { available: false, last_failure: Some(now), protocol: st.protocol },
                });
                assert forall|i: int| 0 <= i < before.len() && i != k implies before[i].address@ != proxy@ by {
                    assert(before[i].address@ != before[k as int].address@);
                }
                assert(unique_addresses(self.proxies@)) by {
                    assert forall|a: int, b: int| 0 <= a < self.proxies@.len() && 0 <= b < self.proxies@.len() && a != b
                        implies (#[trigger] self.proxies@[a]).address@ != (#[trigger] self.proxies@[b]).address@ by {
                        assert(before[a].address@ != before[b].address@);
                    }
                }
            },
            None => {
                assert forall|i: int| 0 <= i < self.proxies@.len() implies (#[trigger] self.proxies@[i]).address@ != proxy@ by {
                    if self.proxies@[i].address@ == proxy@ {
                        assert(index_of(self.proxies@, proxy@) is Some);
                    }
                }
            },
        }
    }

    /// (available, total).
    pub fn get_proxy_count(&self) -> (r: (usize, usize))
        ensures
            r.0 == count_available(self.endpoints()),
            r.1 == self.endpoints().len(),
    {
        let mut n: usize = 0;
        let mut i: usize = 0;
        while i < self.proxies.len()
            invariant
                i <= self.proxies@.len(),
                n == count_available(self.proxies@.subrange(0, i as int)),
                n <= i,
            decreases self.proxies@.len() - i,
        {
            assert(self.proxies@.subrange(0, i + 1).drop_last() =~= self.proxies@.subrange(0, i as int));
            if self.proxies[i].status.available {
                n = n + 1;
            }
            i = i + 1;
        }
        assert(self.proxies@.subrange(0, i as int) =~= self.proxies@);
        (n, self.proxies.len())
    }

    /// The protocol stored for `proxy`, or `Unknown` when it is not in the pool.
    pub fn get_proxy_protocol(&self, proxy: &str) -> (r: ProxyProtocol)
        requires
            self.wf(),
        ensures
            index_of(self.endpoints(), proxy@) is None ==> r == ProxyProtocol::Unknown,
            forall|i: int| 0 <= i < self.endpoints().len() && (#[trigger] self.endpoints()[i]).address@ == proxy@
                ==> r == self.endpoints()[i].status.protocol,
    {
        match Self::position(&self.proxies, proxy) {
            Some(k) => {
                assert forall|i: int| 0 <= i < self.proxies@.len() && (#[trigger] self.proxies@[i]).address@ == proxy@
                    implies i == k by {
                    if i != k {
                        assert(self.proxies@[i].address@ != self.proxies@[k as int].address@);
                    }
                }
                self.proxies[k].status.protocol
            },
            None => {
                assert forall|i: int| 0 <= i < self.proxies@.len() implies (#[trigger] self.proxies@[i]).address@ != proxy@ by {
                    if self.proxies@[i].address@ == proxy@ {
                        assert(index_of(self.proxies@, proxy@) is Some);
                    }
                }
                ProxyProtocol::Unknown
            },
        }
    }

    /// Protocol of an address (see `protocol_of`).
    pub fn detect_proxy_protocol(proxy_url: &str) -> (r: ProxyProtocol)
        ensures
            r == protocol_of(proxy_url@),
    {
        let s = chars_of(proxy_url);
        let port = port_chars(&s);
        if prefixed(&s, "http://") {
            ProxyProtocol::HTTP
        } else if prefixed(&s, "https://") {
            ProxyProtocol::HTTPS
        } else if prefixed(&s, "socks5://") || prefixed(&s, "socks://") {
            ProxyProtocol::SOCKS5
        } else if is_port(&port, "1080") || is_port(&port, "9050") {
            ProxyProtocol::SOCKS5
        } else if is_port(&port, "8080") || is_port(&port, "3128") || is_port(&port, "80") {
            ProxyProtocol::HTTP
        } else if is_port(&port, "443") {
            ProxyProtocol::HTTPS
        } else {
            ProxyProtocol::HTTP
        }
    }

    /// `proxy_url` with a scheme: unchanged when it has one, else prefixed by the scheme
    /// of its stored protocol (HTTP when unknown).
    pub fn normalize_proxy_url(&self, proxy_url: &str) -> (r: String)
        requires
            self.wf(),
        ensures
            r@ == normalized_with(proxy_url@, match index_of(self.endpoints(), proxy_url@) {
                Some(i) => self.endpoints()[i].status.protocol,
                None => ProxyProtocol::Unknown,
            }),
    {
        let p = self.get_proxy_protocol(proxy_url);
        normalized_address(proxy_url, p)
    }

    /// One report per endpoint, in pool order: its protocol, its address with a scheme,
    /// and whether the configured address named one.
    pub fn debug_proxy_list(&self) -> (r: Vec<ProxyReport>)
        ensures
            r@.len() == self.endpoints().len(),
            forall|i: int| 0 <= i < r@.len() ==> {
                let e = #[trigger] self.endpoints()[i];
                &&& r@[i].address@ == e.address@
                &&& r@[i].protocol == e.status.protocol
                &&& r@[i].normalized@ == normalized_with(e.address@, e.status.protocol)
                &&& r@[i].has_scheme == has_scheme(e.address@)
            },
    {
        let mut out: Vec<ProxyReport> = Vec::new();
        let mut i: usize = 0;
        while i < self.proxies.len()
            invariant
                i <= self.proxies@.len(),
                out@.len() == i,
                forall|k: int| 0 <= k < i ==> {
                    let e = #[trigger] self.proxies@[k];
                    &&& out@[k].address@ == e.address@
                    &&& out@[k].protocol == e.status.protocol
                    &&& out@[k].normalized@ == normalized_with(e.address@, e.status.protocol)
                    &&& out@[k].has_scheme == has_scheme(e.address@)
                },
            decreases self.proxies@.len() - i,
        {
            let e = &self.proxies[i];
            let cs = chars_of(e.address.as_str());
            out.push(ProxyReport {
                address: e.address.clone(),
                protocol: e.status.protocol,
                normalized: normalized_address(e.address.as_str(), e.status.protocol),
                has_scheme: scheme_present(&cs),
            });
            i = i + 1;
        }
        out
    }

    /// Makes every endpoint available again and forgets its failures.
    pub fn reset_all_proxies(&mut self)
        requires
            old(self).wf(),
        ensures
            final(self).wf(),
            final(self).cooldown() == old(self).cooldown(),
            final(self).endpoints().len() == old(self).endpoints().len(),
            forall|i: int| 0 <= i < old(self).endpoints().len() ==> {
                &&& (#[trigger] final(self).endpoints()[i]).address == old(self).endpoints()[i].address
                &&& final(self).endpoints()[i].status == (ProxyStatus {
                    available: true,
                    last_failure: None,
                    protocol: old(self).endpoints()[i].status.protocol,
                })
            },
    {
        let ghost start = self.proxies@;
        let mut i: usize = 0;
        while i < self.proxies.len()
            invariant
                self.unavailable_duration == old(self).unavailable_duration,
                start == old(self).proxies@,
                self.proxies@.len() == start.len(),
                i <= start.len(),
                forall|k: int| 0 <= k < start.len() ==> (#[trigger] self.proxies@[k]).address == start[k].address,
                forall|k: int| 0 <= k < i ==> (#[trigger] self.proxies@[k]).status == (ProxyStatus {
                    available: true, last_failure: None, protocol: start[k].status.protocol }),
                forall|k: int| i <= k < start.len() ==> (#[trigger] self.proxies@[k]).status == start[k].status,
            decreases start.len() - i,
        {
            let st = self.proxies[i].status;
            let addr = self.proxies[i].address.clone();
            self.proxies.set(i, ProxyEndpoint {
                address: addr,
                status: ProxyStatus { available: true, last_failure: None, protocol: st.protocol },
            });
            i = i + 1;
        }
        proof {
            assert forall|a: int, b: int| 0 <= a < self.proxies@.len() && 0 <= b < self.proxies@.len() && a != b
                implies (#[trigger] self.proxies@[a]).address@ != (#[trigger] self.proxies@[b]).address@ by {
                assert(start[a].address@ != start[b].address@);
            }
        }
    }
}

/// One round of a tier through the pool at `clock`: every endpoint is reinstated if its
/// cooldown has elapsed, an available endpoint `k` is picked, and the request through it
/// fails in transport, so it is marked unavailable.
pub open spec fn failed_round(before: Seq<ProxyEndpoint>, after: Seq<ProxyEndpoint>, k: int, cooldown: u64, clock: u64) -> bool {
    &&& after.len() == before.len()
    &&& 0 <= k < before.len()
    &&& reinstated(before[k].status, clock, cooldown).available
    &&& forall|i: int| 0 <= i < before.len() ==> {
        &&& (#[trigger] after[i]).address == before[i].address
        &&& after[i].status == if i == k {
            ProxyStatus { available: false, last_failure: Some(clock), protocol: before[k].status.protocol }
        } else {
            reinstated(before[i].status, clock, cooldown)
        }
    }
}

pub open spec fn unavailable_indices(s: Seq<ProxyEndpoint>) -> Set<int> {
    Set::new(|i: int| 0 <= i < s.len() && !s[i].status.available)
}

proof fn lemma_rounds_mark_distinct(states: Seq<Seq<ProxyEndpoint>>, picks: Seq<int>, cooldown: u64, clock: u64, k: int)
    requires
        states.len() == picks.len() + 1,
        0 <= k < states.len(),
        cooldown > 0,
        forall|i: int| 0 <= i < states[0].len() ==> (#[trigger] states[0][i]).status.available,
        forall|r: int| 0 <= r < picks.len() ==> failed_round(#[trigger] states[r], states[r + 1], picks[r], cooldown, clock),
    ensures
        states[k].len() == states[0].len(),
        unavailable_indices(states[k]).finite(),
        unavailable_indices(states[k]).len() == k,
        forall|i: int| 0 <= i < states[k].len() && !(#[trigger] states[k][i]).status.available
            ==> states[k][i].status.last_failure == Some(clock),
    decreases k,
{
    let n = states[0].len() as int;
    lemma_int_range(0, n);
    if k == 0 {
        assert(unavailable_indices(states[0]) =~= Set::<int>::empty());
    } else {
        lemma_rounds_mark_distinct(states, picks, cooldown, clock, k - 1);
        let prev = states[k - 1];
        let next = states[k];
        let p = picks[k - 1];
        assert(failed_round(prev, next, p, cooldown, clock));
        assert(prev[p].status.available);
        assert forall|i: int| 0 <= i < prev.len() && i != p implies (#[trigger] next[i]).status.available == prev[i].status.available by {
            if !prev[i].status.available {
                assert(prev[i].status.last_failure == Some(clock));
            }
        }
        assert(unavailable_indices(next) =~= unavailable_indices(prev).insert(p));
        assert(!unavailable_indices(prev).contains(p));
        assert forall|i: int| 0 <= i < next.len() && !(#[trigger] next[i]).status.available
            implies next[i].status.last_failure == Some(clock) by {
            if i != p {
                assert(!prev[i].status.available);
            }
        }
    }
    assert(unavailable_indices(states[k]).subset_of(set_int_range(0, states[k].len() as int)));
    lemma_int_range(0, states[k].len() as int);
    lemma_len_subset(unavailable_indices(states[k]), set_int_range(0, states[k].len() as int));
}

/// With every endpoint of a pool of `n` available, `n` rounds whose requests all fail in
/// transport (within one cooldown window, here at one clock reading) leave every endpoint
/// unavailable; once the cooldown has elapsed, reinstatement makes each of them
/// available, and so a possible pick, again.
pub proof fn lemma_transport_failures_exhaust_pool(states: Seq<Seq<ProxyEndpoint>>, picks: Seq<int>, cooldown: u64, clock: u64, later: u64)
    requires
        states.len() == picks.len() + 1,
        picks.len() == states[0].len(),
        cooldown > 0,
        later >= clock,
        later - clock >= cooldown,
        forall|i: int| 0 <= i < states[0].len() ==> (#[trigger] states[0][i]).status.available,
        forall|r: int| 0 <= r < picks.len() ==> failed_round(#[trigger] states[r], states[r + 1], picks[r], cooldown, clock),
    ensures
        forall|i: int| 0 <= i < states[0].len() ==> !(#[trigger] states[picks.len() as int][i]).status.available,
        forall|i: int| 0 <= i < states[0].len() ==> reinstated((#[trigger] states[picks.len() as int][i]).status, later, cooldown).available,
{
    let n = picks.len() as int;
    lemma_rounds_mark_distinct(states, picks, cooldown, clock, n);
    let last = states[n];
    lemma_int_range(0, n);
    assert(unavailable_indices(last).subset_of(set_int_range(0, n)));
    lemma_subset_equality(unavailable_indices(last), set_int_range(0, n));
    assert forall|i: int| 0 <= i < states[0].len() implies !(#[trigger] states[n][i]).status.available by {
        assert(set_int_range(0, n).contains(i));
        assert(unavailable_indices(last).contains(i));
    }
}

/// `get_random_proxy` at `clock` handing out endpoint `k`, followed by
/// `mark_proxy_unavailable` of that address at the same clock, is one failed round.
pub proof fn lemma_pick_and_mark_is_failed_round(before: ProxyManager, mid: ProxyManager, after: ProxyManager, k: int, clock: u64)
    requires
        before.wf(),
        mid.endpoints().len() == before.endpoints().len(),
        forall|i: int| 0 <= i < before.endpoints().len() ==> {
            &&& (#[trigger] mid.endpoints()[i]).address == before.endpoints()[i].address
            &&& mid.endpoints()[i].status == reinstated(before.endpoints()[i].status, clock, before.cooldown())
        },
        0 <= k < mid.endpoints().len(),
        mid.endpoints()[k].status.available,
        after.endpoints().len() == mid.endpoints().len(),
        forall|i: int| 0 <= i < mid.endpoints().len() ==> {
            &&& (#[trigger] after.endpoints()[i]).address == mid.endpoints()[i].address
            &&& after.endpoints()[i].status == if mid.endpoints()[i].address@ == mid.endpoints()[k].address@ {
                ProxyStatus { available: false, last_failure: Some(clock), protocol: mid.endpoints()[i].status.protocol }
            } else {
                mid.endpoints()[i].status
            }
        },
    ensures
        failed_round(before.endpoints(), after.endpoints(), k, before.cooldown(), clock),
{
    let b = before.endpoints();
    assert forall|i: int| 0 <= i < b.len() && i != k implies (#[trigger] mid.endpoints()[i]).address@ != mid.endpoints()[k].address@ by {
        assert(b[i].address@ != b[k].address@);
    }
}

/// Some endpoint is available.
pub open spec fn any_available(s: Seq<ProxyEndpoint>) -> bool {
    exists|i: int| 0 <= i < s.len() && (#[trigger] s[i]).status.available
}

/// A positive count of available endpoints means one of them is available.
pub proof fn lemma_positive_count_has_available(s: Seq<ProxyEndpoint>)
    requires
        count_available(s) > 0,
    ensures
        any_available(s),
    decreases s.len(),
{
    if s.last().status.available {
        assert(s[s.len() - 1].status.available);
    } else {
        lemma_positive_count_has_available(s.drop_last());
        let i = choose|i: int| 0 <= i < s.drop_last().len() && (#[trigger] s.drop_last()[i]).status.available;
        assert(s[i] == s.drop_last()[i]);
    }
}

} // verus!

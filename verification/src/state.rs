//! The snapshot of security-relevant system settings that baselines hold and
//! drift detection compares.

use vstd::prelude::*;
use crate::text::{views, str_eq};

verus! {

/// One snapshot of every monitored signal.
#[derive(Debug, Clone)]
pub struct SystemState {
    pub dns_servers: Vec<String>,
    pub hosts_hash: String,
    pub arp_table: Vec<String>,
    pub wifi_ssid: String,
    pub proxy_settings: Vec<String>,
    pub network_devices: Vec<String>,
    pub network_adapters: Vec<String>,
    pub listening_ports: Vec<String>,
    pub startup_entries: Vec<String>,
    pub firewall_profiles: Vec<String>,
    pub scheduled_tasks: Vec<String>,
    pub services_list: Vec<String>,
    pub defender_status: String,
    pub secure_boot: String,
    pub login_failures: String,
    pub suspicious_processes: Vec<String>,
    pub root_cas: Vec<String>,
    pub bt_devices: Vec<String>,
    pub hid_devices: Vec<String>,
    pub installed_software: Vec<String>,
    pub fake_extensions: Vec<String>,
    pub unicode_bidi_files: Vec<String>,
    pub homoglyph_domains: Vec<String>,
    pub uac_status: String,
    pub windows_update_status: String,
    pub system_restore_status: String,
    pub event_log_status: String,
    pub smart_screen_status: String,
    pub vpn_status: String,
    pub ipv6_status: String,
    pub wifi_profile_status: String,
    pub doh_status: String,
    pub laps_status: String,
    pub dhcp_server: String,
    pub bitlocker_status: String,
    pub credential_guard_status: String,
    pub rdp_status: String,
}

/// The character contents of a snapshot.
pub ghost struct StateView {
    pub dns_servers: Seq<Seq<char>>,
    pub hosts_hash: Seq<char>,
    pub arp_table: Seq<Seq<char>>,
    pub wifi_ssid: Seq<char>,
    pub proxy_settings: Seq<Seq<char>>,
    pub network_devices: Seq<Seq<char>>,
    pub network_adapters: Seq<Seq<char>>,
    pub listening_ports: Seq<Seq<char>>,
    pub startup_entries: Seq<Seq<char>>,
    pub firewall_profiles: Seq<Seq<char>>,
    pub scheduled_tasks: Seq<Seq<char>>,
    pub services_list: Seq<Seq<char>>,
    pub defender_status: Seq<char>,
    pub secure_boot: Seq<char>,
    pub login_failures: Seq<char>,
    pub suspicious_processes: Seq<Seq<char>>,
    pub root_cas: Seq<Seq<char>>,
    pub bt_devices: Seq<Seq<char>>,
    pub hid_devices: Seq<Seq<char>>,
    pub installed_software: Seq<Seq<char>>,
    pub fake_extensions: Seq<Seq<char>>,
    pub unicode_bidi_files: Seq<Seq<char>>,
    pub homoglyph_domains: Seq<Seq<char>>,
    pub uac_status: Seq<char>,
    pub windows_update_status: Seq<char>,
    pub system_restore_status: Seq<char>,
    pub event_log_status: Seq<char>,
    pub smart_screen_status: Seq<char>,
    pub vpn_status: Seq<char>,
    pub ipv6_status: Seq<char>,
    pub wifi_profile_status: Seq<char>,
    pub doh_status: Seq<char>,
    pub laps_status: Seq<char>,
    pub dhcp_server: Seq<char>,
    pub bitlocker_status: Seq<char>,
    pub credential_guard_status: Seq<char>,
    pub rdp_status: Seq<char>,
}

impl View for SystemState {
    type V = StateView;

    open spec fn view(&self) -> StateView {
        StateView {
            dns_servers: views(self.dns_servers@),
            hosts_hash: self.hosts_hash@,
            arp_table: views(self.arp_table@),
            wifi_ssid: self.wifi_ssid@,
            proxy_settings: views(self.proxy_settings@),
            network_devices: views(self.network_devices@),
            network_adapters: views(self.network_adapters@),
            listening_ports: views(self.listening_ports@),
            startup_entries: views(self.startup_entries@),
            firewall_profiles: views(self.firewall_profiles@),
            scheduled_tasks: views(self.scheduled_tasks@),
            services_list: views(self.services_list@),
            defender_status: self.defender_status@,
            secure_boot: self.secure_boot@,
            login_failures: self.login_failures@,
            suspicious_processes: views(self.suspicious_processes@),
            root_cas: views(self.root_cas@),
            bt_devices: views(self.bt_devices@),
            hid_devices: views(self.hid_devices@),
            installed_software: views(self.installed_software@),
            fake_extensions: views(self.fake_extensions@),
            unicode_bidi_files: views(self.unicode_bidi_files@),
            homoglyph_domains: views(self.homoglyph_domains@),
            uac_status: self.uac_status@,
            windows_update_status: self.windows_update_status@,
            system_restore_status: self.system_restore_status@,
            event_log_status: self.event_log_status@,
            smart_screen_status: self.smart_screen_status@,
            vpn_status: self.vpn_status@,
            ipv6_status: self.ipv6_status@,
            wifi_profile_status: self.wifi_profile_status@,
            doh_status: self.doh_status@,
            laps_status: self.laps_status@,
            dhcp_server: self.dhcp_server@,
            bitlocker_status: self.bitlocker_status@,
            credential_guard_status: self.credential_guard_status@,
            rdp_status: self.rdp_status@,
        }
    }
}

/// A copy of a list of strings.
pub fn copy_strings(v: &Vec<String>) -> (r: Vec<String>)
    ensures
        views(r@) == views(v@),
{
    let mut r: Vec<String> = Vec::new();
    let mut i: usize = 0;
    while i < v.len()
        invariant
            i <= v@.len(),
            views(r@) == views(v@.subrange(0, i as int)),
        decreases v@.len() - i,
    {
        let ghost prev = r@;
        let c = v[i].clone();
        assert(c@ == v@[i as int]@);
        r.push(c);
        proof {
            assert(views(r@) =~= views(prev).push(v@[i as int]@));
            assert(views(v@.subrange(0, i + 1)) =~= views(v@.subrange(0, i as int)).push(v@[i as int]@));
        }
        i = i + 1;
    }
    proof {
        assert(v@.subrange(0, i as int) =~= v@);
    }
    r
}

/// Whether two lists hold the same strings in the same order.
pub fn strings_eq(a: &Vec<String>, b: &Vec<String>) -> (r: bool)
    ensures
        r == (views(a@) == views(b@)),
{
    if a.len() != b.len() {
        proof {
            assert(views(a@).len() != views(b@).len());
        }
        return false;
    }
    let mut i: usize = 0;
    while i < a.len()
        invariant
            a@.len() == b@.len(),
            i <= a@.len(),
            forall|j: int| 0 <= j < i ==> a@[j]@ == b@[j]@,
        decreases a@.len() - i,
    {
        if !str_eq(a[i].as_str(), b[i].as_str()) {
            proof {
                assert(views(a@)[i as int] != views(b@)[i as int]);
            }
            return false;
        }
        i = i + 1;
    }
    proof {
        assert(views(a@) =~= views(b@));
    }
    true
}

impl SystemState {
    /// A field-for-field copy.
    pub fn duplicate(&self) -> (r: SystemState)
        ensures
            r@ == self@,
    {
        SystemState {
            dns_servers: copy_strings(&self.dns_servers),
            hosts_hash: self.hosts_hash.clone(),
            arp_table: copy_strings(&self.arp_table),
            wifi_ssid: self.wifi_ssid.clone(),
            proxy_settings: copy_strings(&self.proxy_settings),
            network_devices: copy_strings(&self.network_devices),
            network_adapters: copy_strings(&self.network_adapters),
            listening_ports: copy_strings(&self.listening_ports),
            startup_entries: copy_strings(&self.startup_entries),
            firewall_profiles: copy_strings(&self.firewall_profiles),
            scheduled_tasks: copy_strings(&self.scheduled_tasks),
            services_list: copy_strings(&self.services_list),
            defender_status: self.defender_status.clone(),
            secure_boot: self.secure_boot.clone(),
            login_failures: self.login_failures.clone(),
            suspicious_processes: copy_strings(&self.suspicious_processes),
            root_cas: copy_strings(&self.root_cas),
            bt_devices: copy_strings(&self.bt_devices),
            hid_devices: copy_strings(&self.hid_devices),
            installed_software: copy_strings(&self.installed_software),
            fake_extensions: copy_strings(&self.fake_extensions),
            unicode_bidi_files: copy_strings(&self.unicode_bidi_files),
            homoglyph_domains: copy_strings(&self.homoglyph_domains),
            uac_status: self.uac_status.clone(),
            windows_update_status: self.windows_update_status.clone(),
            system_restore_status: self.system_restore_status.clone(),
            event_log_status: self.event_log_status.clone(),
            smart_screen_status: self.smart_screen_status.clone(),
            vpn_status: self.vpn_status.clone(),
            ipv6_status: self.ipv6_status.clone(),
            wifi_profile_status: self.wifi_profile_status.clone(),
            doh_status: self.doh_status.clone(),
            laps_status: self.laps_status.clone(),
            dhcp_server: self.dhcp_server.clone(),
            bitlocker_status: self.bitlocker_status.clone(),
            credential_guard_status: self.credential_guard_status.clone(),
            rdp_status: self.rdp_status.clone(),
        }
    }
}

} // verus!

verus! {

// ============================================
// LIST HELPERS
// ============================================

/// `Seq` of one element when `c` holds, empty otherwise.
pub open spec fn opt_item<T>(c: bool, x: T) -> Seq<T> {
    if c { seq![x] } else { Seq::empty() }
}

/// `s` with `x` appended when `c` holds.
pub open spec fn push_opt<T>(s: Seq<T>, c: bool, x: T) -> Seq<T> {
    if c { s.push(x) } else { s }
}

/// Some entry of `l` differs from `s`.
pub open spec fn any_other_than(l: Seq<Seq<char>>, s: Seq<char>) -> bool {
    exists|i: int| 0 <= i < l.len() && l[i] != s
}

/// Some entry of `l` contains `w`.
pub open spec fn any_containing(l: Seq<Seq<char>>, w: Seq<char>) -> bool {
    exists|i: int| 0 <= i < l.len() && crate::text::contains(l[i], w)
}

/// Whether some entry of `v` differs from `s`.
pub fn any_other_than_exec(v: &Vec<String>, s: &str) -> (r: bool)
    ensures
        r == any_other_than(views(v@), s@),
{
    let mut i: usize = 0;
    while i < v.len()
        invariant
            i <= v@.len(),
            forall|j: int| 0 <= j < i ==> v@[j]@ == s@,
        decreases v@.len() - i,
    {
        if !str_eq(v[i].as_str(), s) {
            proof {
                assert(views(v@)[i as int] != s@);
            }
            return true;
        }
        i = i + 1;
    }
    proof {
        assert forall|j: int| 0 <= j < views(v@).len() implies !(views(v@)[j] != s@) by {
            assert(views(v@)[j] == v@[j]@);
        }
    }
    false
}

/// Whether some entry of `v` contains `w`.
pub fn any_containing_exec(v: &Vec<String>, w: &str) -> (r: bool)
    ensures
        r == any_containing(views(v@), w@),
{
    let mut i: usize = 0;
    while i < v.len()
        invariant
            i <= v@.len(),
            forall|j: int| 0 <= j < i ==> !crate::text::contains(v@[j]@, w@),
        decreases v@.len() - i,
    {
        if crate::text::str_contains(v[i].as_str(), w) {
            proof {
                assert(views(v@)[i as int] == v@[i as int]@);
            }
            return true;
        }
        i = i + 1;
    }
    proof {
        assert forall|j: int| 0 <= j < views(v@).len() implies !crate::text::contains(views(v@)[j], w@) by {
            assert(views(v@)[j] == v@[j]@);
        }
    }
    false
}

/// The contents of a list of string pairs.
pub open spec fn pair_views(v: Seq<(String, String)>) -> Seq<(Seq<char>, Seq<char>)> {
    v.map_values(|p: (String, String)| (p.0@, p.1@))
}

/// Appends `(cat, msg)` when `c` holds.
pub fn push_pair_if(d: &mut Vec<(String, String)>, c: bool, cat: &str, msg: String)
    ensures
        pair_views(final(d)@) == push_opt(pair_views(old(d)@), c, (cat@, msg@)),
{
    if c {
        d.push((crate::text::owned(cat), msg));
        proof {
            assert(pair_views(d@) =~= pair_views(old(d)@).push((cat@, msg@)));
        }
    }
}

/// `prefix` followed by `value`, as a new string.
pub fn prefixed(prefix: &str, value: &String) -> (r: String)
    ensures
        r@ == prefix@ + value@,
{
    let mut r = crate::text::owned(prefix);
    crate::text::append(&mut r, value.as_str());
    r
}

} // verus!

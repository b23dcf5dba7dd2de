//! Device-information packages (battery, connectivity, network, package
//! information, haptics): how the values read from the Android system
//! services become the packages' results.

use vstd::prelude::*;
use crate::strings::{decimal, push_char, push_decimal, str_eq};

verus! {

/// Battery charging state.
#[derive(Copy, Clone, Debug, PartialEq, Eq)]
pub enum BatteryState {
    Charging,
    Discharging,
    Full,
    Unknown,
}

/// `BatteryManager.BATTERY_STATUS_CHARGING`.
pub const BATTERY_STATUS_CHARGING: i32 = 2;
/// `BatteryManager.BATTERY_STATUS_DISCHARGING`.
pub const BATTERY_STATUS_DISCHARGING: i32 = 3;
/// `BatteryManager.BATTERY_STATUS_NOT_CHARGING`.
pub const BATTERY_STATUS_NOT_CHARGING: i32 = 4;
/// `BatteryManager.BATTERY_STATUS_FULL`.
pub const BATTERY_STATUS_FULL: i32 = 5;

/// The `level`, `scale` and `status` extras of the sticky battery broadcast.
#[derive(Copy, Clone, Debug, PartialEq, Eq)]
pub struct BatteryReading {
    pub level: i32,
    pub scale: i32,
    pub status: i32,
}

/// Integer division rounding toward zero, as Rust's `/` does.
pub open spec fn trunc_div(n: int, d: int) -> int {
    if n >= 0 {
        n / d
    } else {
        -((-n) / d)
    }
}

/// Battery level in percent: `level * 100 / scale`, or -1 when nothing was
/// read or the scale is not positive.
pub open spec fn spec_battery_level(reading: Option<BatteryReading>) -> int {
    match reading {
        Some(b) => if b.scale > 0 { trunc_div(b.level * 100, b.scale as int) } else { -1 },
        None => -1,
    }
}

/// Battery level in percent from the broadcast's extras (`None` when the
/// broadcast could not be read).
pub fn battery_level(reading: Option<BatteryReading>) -> (r: i32)
    requires
        reading matches Some(b) ==> (b.scale > 0 ==> i32::MIN <= b.level * 100 <= i32::MAX),
    ensures
        r == spec_battery_level(reading),
{
    match reading {
        None => -1,
        Some(b) => {
            if b.scale > 0 {
                let n: i64 = (b.level as i64) * 100;
                let d: i64 = b.scale as i64;
                let q: i64 = if n >= 0 { n / d } else { -((-n) / d) };
                proof {
                    let ni: int = n as int;
                    let di: int = d as int;
                    if ni >= 0 {
                        assert(0 <= ni / di <= ni) by (nonlinear_arith)
                            requires
                                ni >= 0,
                                di >= 1,
                        ;
                    } else {
                        assert(0 <= (-ni) / di <= -ni) by (nonlinear_arith)
                            requires
                                -ni >= 0,
                                di >= 1,
                        ;
                    }
                }
                q as i32
            } else {
                -1
            }
        },
    }
}

/// The charging state a status extra names.
pub open spec fn spec_battery_state(reading: Option<BatteryReading>) -> BatteryState {
    match reading {
        None => BatteryState::Unknown,
        Some(b) => if b.status == BATTERY_STATUS_CHARGING {
            BatteryState::Charging
        } else if b.status == BATTERY_STATUS_DISCHARGING || b.status == BATTERY_STATUS_NOT_CHARGING {
            BatteryState::Discharging
        } else if b.status == BATTERY_STATUS_FULL {
            BatteryState::Full
        } else {
            BatteryState::Unknown
        },
    }
}

/// Charging state from the broadcast's extras.
pub fn battery_state(reading: Option<BatteryReading>) -> (r: BatteryState)
    ensures
        r == spec_battery_state(reading),
{
    match reading {
        None => BatteryState::Unknown,
        Some(b) => {
            if b.status == BATTERY_STATUS_CHARGING {
                BatteryState::Charging
            } else if b.status == BATTERY_STATUS_DISCHARGING || b.status == BATTERY_STATUS_NOT_CHARGING {
                BatteryState::Discharging
            } else if b.status == BATTERY_STATUS_FULL {
                BatteryState::Full
            } else {
                BatteryState::Unknown
            }
        },
    }
}

/// Network connectivity.
#[derive(Copy, Clone, Debug, PartialEq, Eq)]
pub enum ConnectivityStatus {
    Wifi,
    Cellular,
    /// No active, connected network.
    Offline,
}

/// `ConnectivityManager.TYPE_MOBILE`.
pub const TYPE_MOBILE: i32 = 0;
/// `ConnectivityManager.TYPE_WIFI`.
pub const TYPE_WIFI: i32 = 1;

/// Connectivity from the active network's `isConnected()` (`None` when
/// there is no active network or a query failed) and `getType()`: mobile
/// is cellular, any other connected type (Wi-Fi, Ethernet …) counts as
/// Wi-Fi.
pub fn check_connectivity(connected: Option<bool>, network_type: Option<i32>) -> (r: ConnectivityStatus)
    ensures
        r == match (connected, network_type) {
            (Some(true), Some(t)) => if t == TYPE_MOBILE { ConnectivityStatus::Cellular } else { ConnectivityStatus::Wifi },
            _ => ConnectivityStatus::Offline,
        },
{
    match connected {
        Some(true) => match network_type {
            Some(t) => if t == TYPE_MOBILE { ConnectivityStatus::Cellular } else { ConnectivityStatus::Wifi },
            None => ConnectivityStatus::Offline,
        },
        _ => ConnectivityStatus::Offline,
    }
}

/// Wi-Fi details of the current connection.
#[derive(Clone, Debug, PartialEq, Eq)]
pub struct NetworkInfo {
    pub wifi_name: Option<String>,
    pub wifi_bssid: Option<String>,
    pub wifi_ip: Option<String>,
}

impl Default for NetworkInfo {
    fn default() -> (n: Self)
        ensures
            n.wifi_name is None && n.wifi_bssid is None && n.wifi_ip is None,
    {
        NetworkInfo { wifi_name: None, wifi_bssid: None, wifi_ip: None }
    }
}

/// Number of leading `"` characters.
pub open spec fn leading_quotes(s: Seq<char>) -> nat
    decreases s.len(),
{
    if s.len() > 0 && s[0] == '"' {
        1 + leading_quotes(s.drop_first())
    } else {
        0
    }
}

/// Number of trailing `"` characters.
pub open spec fn trailing_quotes(s: Seq<char>) -> nat
    decreases s.len(),
{
    if s.len() > 0 && s.last() == '"' {
        1 + trailing_quotes(s.drop_last())
    } else {
        0
    }
}

/// `s` without its leading and trailing `"` characters.
pub open spec fn trim_quotes(s: Seq<char>) -> Seq<char> {
    let rest = s.subrange(leading_quotes(s) as int, s.len() as int);
    rest.subrange(0, rest.len() - trailing_quotes(rest))
}

proof fn lemma_leading_quotes(s: Seq<char>, i: int)
    requires
        0 <= i <= s.len(),
        forall|j: int| 0 <= j < i ==> s[j] == '"',
        i == s.len() || s[i] != '"',
    ensures
        leading_quotes(s) == i,
        leading_quotes(s) <= s.len(),
    decreases i,
{
    if i > 0 {
        lemma_leading_quotes(s.drop_first(), i - 1);
    }
}

proof fn lemma_trailing_quotes(s: Seq<char>, k: int)
    requires
        0 <= k <= s.len(),
        forall|j: int| s.len() - k <= j < s.len() ==> s[j] == '"',
        k == s.len() || s[s.len() - k - 1] != '"',
    ensures
        trailing_quotes(s) == k,
    decreases k,
{
    if k > 0 {
        lemma_trailing_quotes(s.drop_last(), k - 1);
    }
}

fn trimmed_quotes(s: &str) -> (r: String)
    ensures
        r@ == trim_quotes(s@),
{
    let n = s.unicode_len();
    let mut a: usize = 0;
    while a < n && s.get_char(a) == '"'
        invariant
            n == s@.len(),
            a <= n,
            forall|j: int| 0 <= j < a ==> s@[j] == '"',
        decreases n - a,
    {
        a = a + 1;
    }
    proof {
        lemma_leading_quotes(s@, a as int);
    }
    let mut b: usize = n;
    while b > a && s.get_char(b - 1) == '"'
        invariant
            n == s@.len(),
            a <= b <= n,
            forall|j: int| b <= j < n ==> s@[j] == '"',
        decreases b - a,
    {
        b = b - 1;
    }
    proof {
        let rest = s@.subrange(a as int, n as int);
        lemma_trailing_quotes(rest, (n - b) as int);
        assert(rest.subrange(0, rest.len() - (n - b)) =~= s@.subrange(a as int, b as int));
    }
    let t = s.substring_char(a, b);
    String::from_str(t)
}

/// Dotted-quad text of the IPv4 address that `WifiInfo.getIpAddress()`
/// returns (lowest byte first).
pub open spec fn ip_text(ip: i32) -> Seq<char> {
    decimal((ip & 0xFF) as nat) + seq!['.'] + decimal(((ip >> 8) & 0xFF) as nat) + seq!['.']
        + decimal(((ip >> 16) & 0xFF) as nat) + seq!['.'] + decimal(((ip >> 24) & 0xFF) as nat)
}

/// The view of an optional string.
pub open spec fn opt_text(o: Option<String>) -> Option<Seq<char>> {
    match o {
        Some(s) => Some(s@),
        None => None,
    }
}

fn byte_of(ip: i32, shift: u32) -> (b: u32)
    requires
        shift == 0 || shift == 8 || shift == 16 || shift == 24,
    ensures
        b == ((ip >> shift) & 0xFF),
        b < 256,
{
    let v = (ip >> shift) & 0xFF;
    assert(0 <= v < 256) by (bit_vector)
        requires
            v == (ip >> shift) & 0xFF,
    ;
    v as u32
}

/// Wi-Fi details from `WifiInfo`: the SSID without surrounding quotes
/// unless empty or `<unknown ssid>`, the BSSID unless empty or the
/// `02:00:00:00:00:00` placeholder, and the address unless 0.  A `None`
/// argument is a value that could not be read.
pub fn get_network_info(ssid: Option<String>, bssid: Option<String>, ip: Option<i32>) -> (r: NetworkInfo)
    ensures
        opt_text(r.wifi_name) == match ssid {
            Some(s) => if trim_quotes(s@).len() > 0 && trim_quotes(s@) != "<unknown ssid>"@ { Some(trim_quotes(s@)) } else { None },
            None => None,
        },
        opt_text(r.wifi_bssid) == match bssid {
            Some(b) => if b@.len() > 0 && b@ != "02:00:00:00:00:00"@ { Some(b@) } else { None },
            None => None,
        },
        opt_text(r.wifi_ip) == match ip {
            Some(a) => if a != 0 { Some(ip_text(a)) } else { None },
            None => None,
        },
{
    let mut info = NetworkInfo::default();
    match ssid {
        Some(s) => {
            let t = trimmed_quotes(s.as_str());
            if t.as_str().unicode_len() > 0 && !str_eq(t.as_str(), "<unknown ssid>") {
                info.wifi_name = Some(t);
            }
        },
        None => {},
    }
    match bssid {
        Some(b) => {
            if b.as_str().unicode_len() > 0 && !str_eq(b.as_str(), "02:00:00:00:00:00") {
                info.wifi_bssid = Some(b);
            }
        },
        None => {},
    }
    match ip {
        Some(a) => {
            if a != 0 {
                let mut text = String::new();
                push_decimal(&mut text, byte_of(a, 0));
                push_char(&mut text, '.');
                push_decimal(&mut text, byte_of(a, 8));
                push_char(&mut text, '.');
                push_decimal(&mut text, byte_of(a, 16));
                push_char(&mut text, '.');
                push_decimal(&mut text, byte_of(a, 24));
                assert((a & 0xFF) == (a >> 0) & 0xFF) by (bit_vector);
                assert(text@ =~= ip_text(a));
                info.wifi_ip = Some(text);
            }
        },
        None => {},
    }
    info
}

/// Decimal text of a signed integer.
pub open spec fn signed_decimal(n: int) -> Seq<char> {
    if n < 0 {
        seq!['-'] + decimal((-n) as nat)
    } else {
        decimal(n as nat)
    }
}

/// Application identity.
#[derive(Clone, Debug, PartialEq, Eq)]
pub struct PackageInfo {
    pub app_name: String,
    pub package_name: String,
    pub version: String,
    pub build_number: String,
}

/// Package information from what the package manager returned: a missing
/// label, version name or version code becomes the empty string; the build
/// number is the version code in decimal.
pub fn get_package_info(app_name: Option<String>, package_name: String, version: Option<String>, version_code: Option<i32>) -> (r: PackageInfo)
    ensures
        r.app_name@ == match app_name { Some(a) => a@, None => Seq::<char>::empty() },
        r.package_name@ == package_name@,
        r.version@ == match version { Some(v) => v@, None => Seq::<char>::empty() },
        r.build_number@ == match version_code { Some(c) => signed_decimal(c as int), None => Seq::<char>::empty() },
{
    let app_name = match app_name {
        Some(a) => a,
        None => String::new(),
    };
    let version = match version {
        Some(v) => v,
        None => String::new(),
    };
    let mut build_number = String::new();
    match version_code {
        Some(c) => {
            if c < 0 {
                push_char(&mut build_number, '-');
                let m: i64 = -(c as i64);
                push_decimal(&mut build_number, m as u32);
            } else {
                push_decimal(&mut build_number, c as u32);
            }
            assert(build_number@ =~= signed_decimal(c as int));
        },
        None => {},
    }
    PackageInfo { app_name, package_name, version, build_number }
}

/// Haptic feedback strengths.
#[derive(Copy, Clone, Debug, PartialEq, Eq)]
pub enum HapticFeedback {
    Light,
    Medium,
    Heavy,
    Selection,
    Success,
    Warning,
    Error,
}

/// `HapticFeedbackConstants.LONG_PRESS`.
pub const LONG_PRESS: i32 = 0;
/// `HapticFeedbackConstants.VIRTUAL_KEY`.
pub const VIRTUAL_KEY: i32 = 1;
/// `HapticFeedbackConstants.KEYBOARD_TAP`.
pub const KEYBOARD_TAP: i32 = 3;

/// The `performHapticFeedback` constant for a feedback strength: light,
/// medium and success are a virtual-key tap, heavy, warning and error a
/// long press, selection a keyboard tap.
pub fn haptic_feedback(feedback: HapticFeedback) -> (c: i32)
    ensures
        c == match feedback {
            HapticFeedback::Light | HapticFeedback::Medium | HapticFeedback::Success => VIRTUAL_KEY,
            HapticFeedback::Heavy | HapticFeedback::Warning | HapticFeedback::Error => LONG_PRESS,
            HapticFeedback::Selection => KEYBOARD_TAP,
        },
{
    match feedback {
        HapticFeedback::Light => VIRTUAL_KEY,
        HapticFeedback::Medium => VIRTUAL_KEY,
        HapticFeedback::Heavy => LONG_PRESS,
        HapticFeedback::Selection => KEYBOARD_TAP,
        HapticFeedback::Success => VIRTUAL_KEY,
        HapticFeedback::Warning => LONG_PRESS,
        HapticFeedback::Error => LONG_PRESS,
    }
}

/// A level between zero and the scale reads as a percentage between 0 and
/// 100, a full battery as 100 and an empty one as 0.
pub proof fn lemma_battery_level_is_percent(b: BatteryReading)
    requires
        b.scale > 0,
        0 <= b.level <= b.scale,
    ensures
        0 <= spec_battery_level(Some(b)) <= 100,
        b.level == b.scale ==> spec_battery_level(Some(b)) == 100,
        b.level == 0 ==> spec_battery_level(Some(b)) == 0,
{
    let n: int = b.level * 100;
    let d: int = b.scale as int;
    assert(0 <= n / d <= 100) by (nonlinear_arith)
        requires
            0 <= b.level <= d,
            n == b.level * 100,
            d > 0,
    ;
    assert(b.level == d ==> n / d == 100) by (nonlinear_arith)
        requires
            n == b.level * 100,
            d > 0,
    ;
}

proof fn lemma_trim_quotes_ends(s: Seq<char>)
    ensures
        leading_quotes(s) <= s.len(),
        trim_quotes(s).len() > 0 ==> trim_quotes(s)[0] != '"' && trim_quotes(s).last() != '"',
    decreases s.len(),
{
    lemma_leading_quotes_bound(s);
    let rest = s.subrange(leading_quotes(s) as int, s.len() as int);
    lemma_trailing_quotes_bound(rest);
    let t = trim_quotes(s);
    if t.len() > 0 {
        lemma_leading_quotes_stop(s);
        assert(t[0] == rest[0]);
        lemma_trailing_quotes_stop(rest);
        assert(t.last() == rest[rest.len() - trailing_quotes(rest) - 1]);
    }
}

proof fn lemma_leading_quotes_bound(s: Seq<char>)
    ensures
        leading_quotes(s) <= s.len(),
    decreases s.len(),
{
    if s.len() > 0 && s[0] == '"' {
        lemma_leading_quotes_bound(s.drop_first());
    }
}

proof fn lemma_trailing_quotes_bound(s: Seq<char>)
    ensures
        trailing_quotes(s) <= s.len(),
    decreases s.len(),
{
    if s.len() > 0 && s.last() == '"' {
        lemma_trailing_quotes_bound(s.drop_last());
    }
}

proof fn lemma_leading_quotes_stop(s: Seq<char>)
    ensures
        leading_quotes(s) < s.len() ==> s[leading_quotes(s) as int] != '"',
    decreases s.len(),
{
    if s.len() > 0 && s[0] == '"' {
        lemma_leading_quotes_stop(s.drop_first());
    }
}

proof fn lemma_trailing_quotes_stop(s: Seq<char>)
    ensures
        trailing_quotes(s) < s.len() ==> s[s.len() - trailing_quotes(s) - 1] != '"',
    decreases s.len(),
{
    if s.len() > 0 && s.last() == '"' {
        lemma_trailing_quotes_stop(s.drop_last());
    }
}

/// Trimming the quotes of a network name a second time changes nothing.
pub proof fn lemma_trim_quotes_idempotent(s: Seq<char>)
    ensures
        trim_quotes(trim_quotes(s)) == trim_quotes(s),
{
    lemma_trim_quotes_ends(s);
    let t = trim_quotes(s);
    if t.len() > 0 {
        lemma_leading_quotes(t, 0);
        lemma_trailing_quotes(t, 0);
    } else {
        lemma_leading_quotes(t, 0);
        lemma_trailing_quotes(t, 0);
    }
    assert(trim_quotes(t) =~= t);
}

/// Each status that `BatteryManager` names maps to its own state, for any
/// level and scale: charging (2) to `Charging`, discharging (3) and
/// not-charging (4) to `Discharging`, full (5) to `Full`; `Unknown` comes
/// exactly for any other status or when no broadcast was read.  Only the
/// status decides the state.
pub proof fn lemma_battery_state_by_status(b: BatteryReading, other: BatteryReading)
    ensures
        spec_battery_state(None) == BatteryState::Unknown,
        b.status == 2 ==> spec_battery_state(Some(b)) == BatteryState::Charging,
        b.status == 3 ==> spec_battery_state(Some(b)) == BatteryState::Discharging,
        b.status == 4 ==> spec_battery_state(Some(b)) == BatteryState::Discharging,
        b.status == 5 ==> spec_battery_state(Some(b)) == BatteryState::Full,
        (spec_battery_state(Some(b)) == BatteryState::Unknown) <==> !(2 <= b.status <= 5),
        b.status == other.status ==> spec_battery_state(Some(b)) == spec_battery_state(Some(other)),
{
}

} // verus!

//! Coarse geo blocking: a rough table from address ranges to country tags, and
//! a list of tags to block. The table is a heuristic, not a geolocation
//! database.

use crate::address::IpAddress;
use vstd::prelude::*;
use vstd::string::StringExecFns;

verus! {

/// The upper-case form that `str::to_uppercase` gives a text.
pub uninterp spec fn uppercased(text: Seq<char>) -> Seq<char>;

/// Upper-cases a text with `str::to_uppercase`.
///
/// Not proved: that the result is `uppercased` of the text, that is, that it
/// depends on the text alone.
#[verifier::external_body]
fn uppercase(text: &str) -> (r: String)
    ensures
        r@ == uppercased(text@),
{
    text.to_uppercase()
}

/// The texts that a list of strings holds.
pub open spec fn texts(list: Seq<String>) -> Seq<Seq<char>> {
    list.map_values(|s: String| s@)
}

/// The tag of the range that an address falls in, by its first octet.
pub open spec fn country_tag(ip: IpAddress) -> Seq<char> {
    match ip {
        IpAddress::V4(bits) => {
            let octet = bits / 0x100_0000;
            if 46 <= octet <= 47 {
                "RU"@
            } else if 58 <= octet <= 61 {
                "CN"@
            } else if octet == 91 {
                "IN"@
            } else if octet == 185 {
                "IR"@
            } else if octet == 192 || octet == 172 || octet == 10 {
                "PRIVATE"@
            } else if octet == 127 {
                "LOCAL"@
            } else if 1 <= octet <= 45 {
                "US"@
            } else if 128 <= octet <= 184 {
                "EU"@
            } else {
                "OTHER"@
            }
        },
        IpAddress::V6(_) => "V6"@,
    }
}

/// The label under which a tag is shown: a flag and a name for the tags of the
/// table, a white flag and the tag itself for any other.
pub open spec fn flag_label(code: Seq<char>) -> Seq<char> {
    if code == "CN"@ {
        "🇨🇳 Chine"@
    } else if code == "RU"@ {
        "🇷🇺 Russie"@
    } else if code == "IR"@ {
        "🇮🇷 Iran"@
    } else if code == "US"@ {
        "🇺🇸 USA"@
    } else if code == "EU"@ {
        "🇪🇺 Europe"@
    } else if code == "IN"@ {
        "🇮🇳 Inde"@
    } else if code == "PRIVATE"@ {
        "🏠 Privé"@
    } else if code == "LOCAL"@ {
        "💻 Local"@
    } else if code == "V6"@ {
        "🌐 IPv6"@
    } else {
        "🏳️ "@ + code
    }
}

/// The geo layer's policy: whether it is on, and the tags it blocks, in the
/// order in which they were added.
pub struct GeoPolicy {
    pub enabled: bool,
    pub blocked: Seq<Seq<char>>,
}

impl GeoPolicy {
    /// Whether the policy blocks an address: the layer is on and the
    /// address's tag is among the blocked ones.
    pub open spec fn blocks(self, ip: IpAddress) -> bool {
        self.enabled && self.blocked.contains(country_tag(ip))
    }

    /// The policy with one more tag blocked; unchanged where it is blocked
    /// already.
    pub open spec fn with_country(self, code: Seq<char>) -> GeoPolicy {
        if self.blocked.contains(code) {
            self
        } else {
            GeoPolicy { enabled: self.enabled, blocked: self.blocked.push(code) }
        }
    }

    /// The policy with the blocked tags replaced by the high-risk baseline.
    pub open spec fn with_threat_baseline(self) -> GeoPolicy {
        GeoPolicy { enabled: self.enabled, blocked: seq!["CN"@, "RU"@, "IR"@] }
    }
}

/// Blocking a tag twice is blocking it once.
pub proof fn lemma_block_country_is_idempotent(policy: GeoPolicy, code: Seq<char>)
    ensures
        policy.with_country(code).with_country(code) == policy.with_country(code),
        policy.with_country(code).blocked.contains(code),
        policy.with_country(code).enabled == policy.enabled,
{
    if !policy.blocked.contains(code) {
        let pushed = policy.blocked.push(code);
        assert(pushed[pushed.len() - 1] == code);
    }
}

/// Blocking one more tag lifts no block: what was blocked stays blocked.
pub proof fn lemma_block_country_keeps_blocks(policy: GeoPolicy, code: Seq<char>, ip: IpAddress)
    requires
        policy.blocks(ip),
    ensures
        policy.with_country(code).blocks(ip),
{
    if !policy.blocked.contains(code) {
        let tag = country_tag(ip);
        let i = choose|i: int| 0 <= i < policy.blocked.len() && policy.blocked[i] == tag;
        assert(policy.blocked.push(code)[i] == tag);
    }
}

fn same_text(a: &str, b: &str) -> (r: bool)
    ensures
        r == (a@ == b@),
{
    let left = a.to_owned();
    let right = b.to_owned();
    left == right
}

fn contains_text(list: &Vec<String>, text: &String) -> (r: bool)
    ensures
        r == texts(list@).contains(text@),
{
    let mut i: usize = 0;
    while i < list.len()
        invariant
            i <= list.len(),
            forall|j: int| 0 <= j < i ==> #[trigger] texts(list@)[j] != text@,
        decreases list.len() - i,
    {
        if list[i] == *text {
            assert(texts(list@)[i as int] == text@);
            return true;
        }
        i += 1;
    }
    false
}

#[derive(Clone, Debug)]
pub struct SimpleGeoFirewall {
    enabled: bool,
    blocked_countries: Vec<String>,
}

impl View for SimpleGeoFirewall {
    type V = GeoPolicy;

    closed spec fn view(&self) -> GeoPolicy {
        GeoPolicy { enabled: self.enabled, blocked: texts(self.blocked_countries@) }
    }
}

impl SimpleGeoFirewall {
    /// A geo layer that blocks the given tags, each taken in upper case.
    pub fn new(blocked_countries: Vec<String>, enabled: bool) -> (geo: SimpleGeoFirewall)
        ensures
            geo@.enabled == enabled,
            geo@.blocked == blocked_countries@.map_values(|s: String| uppercased(s@)),
    {
        let mut upper: Vec<String> = Vec::new();
        let mut i: usize = 0;
        while i < blocked_countries.len()
            invariant
                i <= blocked_countries.len(),
                upper@.len() == i,
                forall|j: int|
                    0 <= j < i ==> (#[trigger] upper@[j])@ == uppercased(blocked_countries@[j]@),
            decreases blocked_countries.len() - i,
        {
            upper.push(uppercase(blocked_countries[i].as_str()));
            i += 1;
        }
        let geo = SimpleGeoFirewall { enabled, blocked_countries: upper };
        assert(geo@.blocked =~= blocked_countries@.map_values(|s: String| uppercased(s@)));
        geo
    }

    /// Whether the address is to be blocked for the range it falls in.
    pub fn should_block(&self, ip: IpAddress) -> (r: bool)
        ensures
            r == self@.blocks(ip),
    {
        if !self.enabled {
            return false;
        }
        if let Some(country) = self.get_country_code(ip) {
            if contains_text(&self.blocked_countries, &country) {
                return true;
            }
        }
        false
    }

    /// The tag of the range that the address falls in. Every address has one.
    pub fn get_country_code(&self, ip: IpAddress) -> (r: Option<String>)
        ensures
            r matches Some(tag) && tag@ == country_tag(ip),
    {
        match ip {
            IpAddress::V4(bits) => {
                let octet: u32 = bits / 0x100_0000;
                if 46 <= octet && octet <= 47 {
                    Some("RU".to_owned())
                } else if 58 <= octet && octet <= 61 {
                    Some("CN".to_owned())
                } else if octet == 91 {
                    Some("IN".to_owned())
                } else if octet == 185 {
                    Some("IR".to_owned())
                } else if octet == 192 || octet == 172 || octet == 10 {
                    Some("PRIVATE".to_owned())
                } else if octet == 127 {
                    Some("LOCAL".to_owned())
                } else if 1 <= octet && octet <= 45 {
                    Some("US".to_owned())
                } else if 128 <= octet && octet <= 184 {
                    Some("EU".to_owned())
                } else {
                    Some("OTHER".to_owned())
                }
            },
            IpAddress::V6(_) => Some("V6".to_owned()),
        }
    }

    /// The label under which a tag is shown.
    pub fn get_flag(&self, country_code: &str) -> (r: String)
        ensures
            r@ == flag_label(country_code@),
    {
        if same_text(country_code, "CN") {
            "🇨🇳 Chine".to_owned()
        } else if same_text(country_code, "RU") {
            "🇷🇺 Russie".to_owned()
        } else if same_text(country_code, "IR") {
            "🇮🇷 Iran".to_owned()
        } else if same_text(country_code, "US") {
            "🇺🇸 USA".to_owned()
        } else if same_text(country_code, "EU") {
            "🇪🇺 Europe".to_owned()
        } else if same_text(country_code, "IN") {
            "🇮🇳 Inde".to_owned()
        } else if same_text(country_code, "PRIVATE") {
            "🏠 Privé".to_owned()
        } else if same_text(country_code, "LOCAL") {
            "💻 Local".to_owned()
        } else if same_text(country_code, "V6") {
            "🌐 IPv6".to_owned()
        } else {
            "🏳️ ".to_owned().concat(country_code)
        }
    }

    /// Blocks one more tag, taken in upper case. Blocking a tag twice is
    /// blocking it once.
    pub fn block_country(&mut self, country_code: &str)
        ensures
            final(self)@ == old(self)@.with_country(uppercased(country_code@)),
    {
        self.block_tag(uppercase(country_code));
    }

    /// Blocks one more tag, taken as it is.
    pub fn block_tag(&mut self, tag: String)
        ensures
            final(self)@ == old(self)@.with_country(tag@),
    {
        if !contains_text(&self.blocked_countries, &tag) {
            self.blocked_countries.push(tag);
            assert(final(self)@.blocked =~= old(self)@.blocked.push(tag@));
        }
    }

    /// Replaces the blocked tags by the high-risk baseline: CN, RU, IR.
    pub fn enable_threat_protection(&mut self)
        ensures
            final(self)@ == old(self)@.with_threat_baseline(),
    {
        let mut baseline: Vec<String> = Vec::new();
        baseline.push("CN".to_owned());
        baseline.push("RU".to_owned());
        baseline.push("IR".to_owned());
        self.blocked_countries = baseline;
        assert(final(self)@.blocked =~= seq!["CN"@, "RU"@, "IR"@]);
    }

    pub fn is_enabled(&self) -> (r: bool)
        ensures
            r == self@.enabled,
    {
        self.enabled
    }
}

} // verus!

//! Trust classification of senders against static allow-lists.

use crate::settings::{list_at, list_setting};
use crate::text::{chars_of, contains_char, same_text, string_of, texts};
use config::Config;
use vstd::prelude::*;

verus! {

/// The permission tier of a sender. A VIP may do whatever a trusted sender
/// may.
#[derive(Clone, Copy, Debug, PartialEq, Eq, Structural)]
pub enum TrustTier {
    Anonymous,
    Trusted,
    Vip,
}

impl TrustTier {
    /// The place of a tier in the order Anonymous < Trusted < VIP.
    pub open spec fn rank(self) -> nat {
        match self {
            TrustTier::Anonymous => 0,
            TrustTier::Trusted => 1,
            TrustTier::Vip => 2,
        }
    }

    /// The place of the tier in the order of tiers.
    pub fn level(self) -> (n: u8)
        ensures
            n == self.rank(),
    {
        match self {
            TrustTier::Anonymous => 0,
            TrustTier::Trusted => 1,
            TrustTier::Vip => 2,
        }
    }

    /// Whether the tier is Trusted or above.
    pub fn at_least_trusted(self) -> (b: bool)
        ensures
            b == (self.rank() >= 1),
    {
        match self {
            TrustTier::Anonymous => false,
            _ => true,
        }
    }

    /// Whether the tier is VIP.
    pub fn is_vip(self) -> (b: bool)
        ensures
            b == (self == TrustTier::Vip),
    {
        match self {
            TrustTier::Vip => true,
            _ => false,
        }
    }
}

/// The position of the first colon of `s` at or after `i`, or the length of
/// `s` where there is none.
pub open spec fn colon_index(s: Seq<char>, i: int) -> int
    decreases s.len() - i,
{
    if i < 0 || i >= s.len() {
        s.len() as int
    } else if s[i] == ':' {
        i
    } else {
        colon_index(s, i + 1)
    }
}

/// An identity has the form `@local:domain`: it starts with `@` and holds a
/// colon.
pub open spec fn is_identity(s: Seq<char>) -> bool {
    s.len() > 0 && s[0] == '@' && colon_index(s, 0) < s.len()
}

/// The home authority of an identity: what follows its first colon.
pub open spec fn domain_suffix(s: Seq<char>) -> Seq<char> {
    s.subrange(colon_index(s, 0) + 1, s.len() as int)
}

/// An allow-list entry with an `@` names one identity; any other entry names
/// a domain and matches every identity of that domain.
pub open spec fn entry_matches(entry: Seq<char>, id: Seq<char>) -> bool {
    if entry.contains('@') {
        entry == id
    } else {
        entry == domain_suffix(id)
    }
}

/// Whether some entry of an allow-list matches the identity.
pub open spec fn list_matches(list: Seq<Seq<char>>, id: Seq<char>) -> bool {
    exists|i: int| 0 <= i < list.len() && entry_matches(#[trigger] list[i], id)
}

/// The tier of an identity: VIP if the VIP list matches it, else Trusted if
/// the Trusted list does, else Anonymous.
pub open spec fn tier_of(id: Seq<char>, vip: Seq<Seq<char>>, trusted: Seq<Seq<char>>) -> TrustTier {
    if list_matches(vip, id) {
        TrustTier::Vip
    } else if list_matches(trusted, id) {
        TrustTier::Trusted
    } else {
        TrustTier::Anonymous
    }
}

/// A protocol participant's identifier, `@local:domain`, with its domain
/// kept beside it.
pub struct Identity {
    id: String,
    domain: String,
}

impl View for Identity {
    type V = Seq<char>;

    closed spec fn view(&self) -> Seq<char> {
        self.id@
    }
}

impl Identity {
    #[verifier::type_invariant]
    spec fn inv(&self) -> bool {
        is_identity(self.id@) && self.domain@ == domain_suffix(self.id@)
    }

    /// Accepts a text of the form `@local:domain` and nothing else.
    pub fn new(id: &str) -> (r: Option<Identity>)
        ensures
            match r {
                Some(x) => is_identity(id@) && x@ == id@,
                None => !is_identity(id@),
            },
    {
        let cs = chars_of(id);
        let n = cs.len();
        if n == 0 || cs[0] != '@' {
            return None;
        }
        let mut i: usize = 0;
        while i < n && cs[i] != ':'
            invariant
                cs@ == id@,
                n == cs@.len(),
                i <= n,
                colon_index(id@, 0) == colon_index(id@, i as int),
            decreases n - i,
        {
            i += 1;
        }
        if i == n {
            return None;
        }
        let domain = string_of(&cs, i + 1, n);
        Some(Identity { id: String::from_str(id), domain })
    }

    /// The whole identifier.
    pub fn as_str(&self) -> (s: &str)
        ensures
            s@ == self@,
            is_identity(self@),
    {
        proof {
            use_type_invariant(self);
        }
        self.id.as_str()
    }

    /// The home authority: what follows the first colon.
    pub fn domain(&self) -> (s: &str)
        ensures
            s@ == domain_suffix(self@),
    {
        proof {
            use_type_invariant(self);
        }
        self.domain.as_str()
    }
}

impl Clone for Identity {
    fn clone(&self) -> (r: Identity)
        ensures
            r@ == self@,
    {
        proof {
            use_type_invariant(self);
        }
        Identity { id: self.id.clone(), domain: self.domain.clone() }
    }
}

/// The static allow-lists: each entry is a whole identity or a bare domain.
pub struct AllowLists {
    pub vip: Vec<String>,
    pub trusted: Vec<String>,
}

/// Whether one allow-list entry matches the identity.
pub fn entry_is_match(entry: &str, id: &Identity) -> (b: bool)
    ensures
        b == entry_matches(entry@, id@),
{
    if contains_char(entry, '@') {
        same_text(entry, id.as_str())
    } else {
        same_text(entry, id.domain())
    }
}

/// Whether any entry of the list matches the identity.
pub fn is_user_matched(id: &Identity, allowed: &Vec<String>) -> (b: bool)
    ensures
        b == list_matches(texts(allowed@), id@),
{
    let mut i: usize = 0;
    while i < allowed.len()
        invariant
            i <= allowed@.len(),
            forall|k: int| 0 <= k < i ==> !entry_matches(#[trigger] texts(allowed@)[k], id@),
        decreases allowed@.len() - i,
    {
        if entry_is_match(allowed[i].as_str(), id) {
            proof {
                assert(entry_matches(texts(allowed@)[i as int], id@));
            }
            return true;
        }
        i += 1;
    }
    false
}

/// The key of the VIP list in a configuration.
pub const VIP_KEY: &'static str = "users.vip";

/// The key of the Trusted list in a configuration.
pub const TRUSTED_KEY: &'static str = "users.trusted";

/// Whether the list under a key of the configuration matches the identity.
pub fn is_user_matched_with_config(id: &Identity, config: &Config, key: &str) -> (b: bool)
    ensures
        b == list_matches(list_at(*config, key@), id@),
{
    let allowed = list_setting(config, key);
    is_user_matched(id, &allowed)
}

/// Whether the VIP list of the configuration matches the identity.
pub fn is_user_vip(id: &Identity, config: &Config) -> (b: bool)
    ensures
        b == list_matches(list_at(*config, VIP_KEY@), id@),
{
    is_user_matched_with_config(id, config, VIP_KEY)
}

/// Whether the identity is Trusted or more under the configuration: its
/// VIP list or its Trusted list matches the identity.
pub fn is_user_trusted(id: &Identity, config: &Config) -> (b: bool)
    ensures
        b == (tier_of(id@, list_at(*config, VIP_KEY@), list_at(*config, TRUSTED_KEY@)).rank()
            >= 1),
{
    is_user_matched_with_config(id, config, VIP_KEY) || is_user_matched_with_config(
        id,
        config,
        TRUSTED_KEY,
    )
}

/// A VIP is trusted: whoever the VIP list matches is Trusted or more,
/// whatever the Trusted list holds.
pub proof fn lemma_vip_implies_trusted(id: Seq<char>, vip: Seq<Seq<char>>, trusted: Seq<Seq<char>>)
    ensures
        list_matches(vip, id) ==> tier_of(id, vip, trusted) == TrustTier::Vip,
        tier_of(id, vip, trusted) == TrustTier::Vip ==> tier_of(id, vip, trusted).rank() >= 1,
        tier_of(id, vip, trusted).rank() >= 1 <==> list_matches(vip, id) || list_matches(
            trusted,
            id,
        ),
{
}

/// The allow-lists of a configuration.
pub fn allow_lists(config: &Config) -> (l: AllowLists)
    ensures
        texts(l.vip@) == list_at(*config, VIP_KEY@),
        texts(l.trusted@) == list_at(*config, TRUSTED_KEY@),
{
    AllowLists { vip: list_setting(config, VIP_KEY), trusted: list_setting(config, TRUSTED_KEY) }
}

/// Whether the identity is Trusted and no more.
pub fn is_user_trusted_not_vip(id: &Identity, lists: &AllowLists) -> (b: bool)
    ensures
        b == (tier_of(id@, texts(lists.vip@), texts(lists.trusted@)) == TrustTier::Trusted),
{
    !is_user_matched(id, &lists.vip) && is_user_matched(id, &lists.trusted)
}

/// The tier of the identity under the two lists.
pub fn classify(id: &Identity, lists: &AllowLists) -> (t: TrustTier)
    ensures
        t == tier_of(id@, texts(lists.vip@), texts(lists.trusted@)),
{
    if is_user_matched(id, &lists.vip) {
        TrustTier::Vip
    } else if is_user_matched(id, &lists.trusted) {
        TrustTier::Trusted
    } else {
        TrustTier::Anonymous
    }
}

/// Classification depends on nothing but the text of the identity and of
/// the lists: asked again with the same texts, it gives the same tier.
pub proof fn lemma_classify_repeatable(a: Identity, b: Identity, x: AllowLists, y: AllowLists)
    requires
        a@ == b@,
        texts(x.vip@) == texts(y.vip@),
        texts(x.trusted@) == texts(y.trusted@),
    ensures
        tier_of(a@, texts(x.vip@), texts(x.trusted@)) == tier_of(
            b@,
            texts(y.vip@),
            texts(y.trusted@),
        ),
{
}

/// With no entries in either list every identity is Anonymous.
pub proof fn lemma_empty_lists_anonymous(id: Seq<char>)
    ensures
        tier_of(id, Seq::empty(), Seq::empty()) == TrustTier::Anonymous,
{
}

} // verus!

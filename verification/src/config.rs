//! Server configuration state: which media-center family a
//! configuration speaks to, the users it knows, the address it
//! normalises, and the device id it mints once and keeps.  Reading and
//! writing the configuration file happens outside this crate.

use vstd::prelude::*;

use vstd::multiset::Multiset;

verus! {

/// The server families one shared contract covers.
#[derive(Clone, Copy, Debug, PartialEq, Eq, Structural)]
pub enum MediaCenterType {
    Jellyfin,
    Emby,
    Plex,
}

impl MediaCenterType {
    /// The name a server family is shown under.
    pub fn label(&self) -> (r: &'static str)
        ensures
            r@ == match *self {
                MediaCenterType::Jellyfin => "Jellyfin"@,
                MediaCenterType::Emby => "Emby"@,
                MediaCenterType::Plex => "Plex"@,
            },
    {
        match self {
            MediaCenterType::Jellyfin => "Jellyfin",
            MediaCenterType::Emby => "Emby",
            MediaCenterType::Plex => "Plex",
        }
    }
}

/// The slots of a configuration a prompt or an update can address.
#[derive(Clone, Copy, Debug, PartialEq, Eq, Structural)]
pub enum Objective {
    DeviceID,
    Address,
    MediaCenterType,
    ServerName,
    Users,
    SearchLocalInstance,
    User,
}

/// The values a media-center backend stores while it runs.
#[derive(Clone, Copy, Debug, PartialEq, Eq, Structural)]
pub enum MediaCenterValues {
    Header,
    SessionID,
    PlaybackInfo,
}

/// One saved user of a server: the token that authenticates it and the
/// identity it maps to.
#[derive(Clone, Debug, PartialEq)]
pub struct UserConfig {
    pub access_token: String,
    pub username: String,
    pub user_id: String,
}

/// The server-specific part of a configuration: the device id this
/// client identifies as, the normalised address, and the known users
/// with the active one in front.
#[derive(Clone, Debug, PartialEq)]
pub struct ServerConfig {
    pub device_id: String,
    pub address: String,
    pub users: Vec<UserConfig>,
}

/// A username and password pair collected at a login prompt.
#[derive(Clone, Debug, PartialEq)]
pub struct UserCredentials {
    pub username: String,
    pub password: String,
}

/// The answer a local server gives to a discovery broadcast.
#[derive(Clone, Debug, PartialEq)]
pub struct UDPAnswer {
    pub Address: String,
    pub Name: String,
}

/// Whether the characters of `prefix` open the string `s`.
pub open spec fn spec_starts_with(s: Seq<char>, prefix: Seq<char>) -> bool {
    prefix.len() <= s.len() && s.subrange(0, prefix.len() as int) == prefix
}

/// Whether an address already carries a scheme.
pub open spec fn spec_has_scheme(s: Seq<char>) -> bool {
    spec_starts_with(s, "http://"@) || spec_starts_with(s, "https://"@)
}

/// The address as stored: ending in `/`, and opening with `http://`
/// unless a scheme is already there.
pub open spec fn spec_normalized_address(s: Seq<char>) -> Seq<char> {
    let with_slash = if s.len() > 0 && s.last() == '/' {
        s
    } else {
        s.push('/')
    };
    if spec_has_scheme(s) {
        with_slash
    } else {
        "http://"@ + with_slash
    }
}

/// Whether the characters of `prefix` open the string `s`.
fn starts_with(s: &str, prefix: &str) -> (r: bool)
    ensures
        r == spec_starts_with(s@, prefix@),
{
    let slen = s.unicode_len();
    let plen = prefix.unicode_len();
    if plen > slen {
        return false;
    }
    let mut k: usize = 0;
    while k < plen
        invariant
            0 <= k <= plen == prefix@.len(),
            plen <= slen == s@.len(),
            forall|j: int| 0 <= j < k ==> s@[j] == prefix@[j],
        decreases plen - k,
    {
        if s.get_char(k) != prefix.get_char(k) {
            proof {
                assert(s@.subrange(0, prefix@.len() as int)[k as int] != prefix@[k as int]);
            }
            return false;
        }
        k += 1;
    }
    proof {
        assert(s@.subrange(0, prefix@.len() as int) =~= prefix@);
    }
    true
}

/// Normalises an address the user entered: a trailing slash is added
/// when missing, and a plain host gets the `http://` scheme.
pub fn normalize_address(address: &str) -> (r: String)
    ensures
        r@ == spec_normalized_address(address@),
{
    let len = address.unicode_len();
    let mut with_slash = String::from_str(address);
    if len == 0 || address.get_char(len - 1) != '/' {
        with_slash.append("/");
        proof {
            reveal_strlit("/");
            assert("/"@ =~= seq!['/']);
            assert(with_slash@ =~= address@.push('/'));
        }
    }
    if starts_with(address, "http://") || starts_with(address, "https://") {
        with_slash
    } else {
        let mut r = String::from_str("http://");
        r.append(with_slash.as_str());
        r
    }
}

/// The address a backend actually talks to: an Emby server is spoken
/// to under its `emby/` prefix, the others at the address itself.
pub fn backend_address(address: &str, center: MediaCenterType) -> (r: String)
    ensures
        r@ == if center is Emby {
            address@ + "emby/"@
        } else {
            address@
        },
{
    let mut r = String::from_str(address);
    match center {
        MediaCenterType::Emby => {
            r.append("emby/");
        },
        _ => {},
    }
    r
}

impl ServerConfig {
    /// The stored views of the users' access tokens.
    pub open spec fn spec_token_views(users: Seq<UserConfig>) -> Seq<Seq<char>> {
        users.map_values(|u: UserConfig| u.access_token@)
    }

    /// The active user is the one in front, when any user is known.
    pub fn get_active_user_index(&self) -> (r: Option<usize>)
        ensures
            r == if self.users@.len() > 0 {
                Some(0usize)
            } else {
                None::<usize>
            },
    {
        if self.users.len() > 0 {
            Some(0)
        } else {
            None
        }
    }

    /// The position of the user a token addresses: the first match, or
    /// the front when no user holds the token.
    pub open spec fn spec_user_index(users: Seq<UserConfig>, token: Seq<char>) -> int {
        if exists|k: int| 0 <= k < users.len() && users[k].access_token@ == token {
            choose|k: int|
                0 <= k < users.len() && users[k].access_token@ == token && (forall|j: int|
                    0 <= j < k ==> users[j].access_token@ != token)
        } else {
            0
        }
    }

    /// Moves the user holding this access token to the front, making
    /// it the active one, and keeps the others in their order; with no
    /// match the first user stays active.
    #[verifier::rlimit(60)]
    pub fn set_active_user(&mut self, identifier: &String)
        requires
            old(self).users@.len() > 0,
        ensures
            final(self).device_id == old(self).device_id,
            final(self).address == old(self).address,
            ({
                let k = Self::spec_user_index(old(self).users@, identifier@);
                &&& 0 <= k < old(self).users@.len()
                &&& final(self).users@ == seq![old(self).users@[k]] + old(self).users@.remove(k)
            }),
            final(self).users@.to_multiset() == old(self).users@.to_multiset(),
            (exists|k: int|
                0 <= k < old(self).users@.len() && old(self).users@[k].access_token@
                    == identifier@) ==> final(self).users@[0].access_token@ == identifier@,
    {
        let mut index: usize = 0;
        let mut k: usize = 0;
        let mut found = false;
        while k < self.users.len()
            invariant
                0 <= k <= self.users@.len(),
                !found ==> index == 0 && (forall|j: int|
                    0 <= j < k ==> self.users@[j].access_token@ != identifier@),
                found ==> index < k && self.users@[index as int].access_token@ == identifier@
                    && (forall|j: int|
                    0 <= j < index ==> self.users@[j].access_token@ != identifier@),
            decreases self.users@.len() - k,
        {
            if !found && self.users[k].access_token == *identifier {
                index = k;
                found = true;
            }
            k += 1;
        }
        let ghost users0 = self.users@;
        proof {
            if found {
                let k0 = index as int;
                assert(exists|k: int|
                    0 <= k < users0.len() && users0[k].access_token@ == identifier@);
                let kc = Self::spec_user_index(users0, identifier@);
                assert(0 <= kc < users0.len() && users0[kc].access_token@ == identifier@ && (
                forall|j: int| 0 <= j < kc ==> users0[j].access_token@ != identifier@)) by {
                    assert(0 <= k0 < users0.len() && users0[k0].access_token@ == identifier@
                        && (forall|j: int|
                        0 <= j < k0 ==> users0[j].access_token@ != identifier@));
                }
                if kc < k0 {
                    assert(users0[kc].access_token@ != identifier@);
                } else if kc > k0 {
                    assert(users0[k0].access_token@ != identifier@);
                }
                assert(kc == k0);
            } else {
                assert(!(exists|k: int|
                    0 <= k < users0.len() && users0[k].access_token@ == identifier@));
                assert(Self::spec_user_index(users0, identifier@) == 0);
            }
        }
        let chosen = self.users.remove(index);
        self.users.insert(0, chosen);
        proof {
            assert(self.users@ =~= seq![users0[index as int]] + users0.remove(index as int));
            lemma_multiset_remove_insert(users0, index as int);
        }
    }

    /// Forgets the user holding this access token; the rest keep their
    /// order.
    pub fn remove_user(&mut self, identifier: &String)
        ensures
            final(self).device_id == old(self).device_id,
            final(self).address == old(self).address,
            (exists|k: int|
                0 <= k < old(self).users@.len() && old(self).users@[k].access_token@
                    == identifier@ && (forall|j: int|
                    0 <= j < k ==> old(self).users@[j].access_token@ != identifier@)
                    && final(self).users@ == old(self).users@.remove(k)) || ((forall|k: int|
                0 <= k < old(self).users@.len() ==> old(self).users@[k].access_token@
                    != identifier@) && final(self).users@ == old(self).users@),
    {
        let mut k: usize = 0;
        while k < self.users.len()
            invariant
                0 <= k <= self.users@.len(),
                self.users@ == old(self).users@,
                self.device_id == old(self).device_id,
                self.address == old(self).address,
                forall|j: int| 0 <= j < k ==> self.users@[j].access_token@ != identifier@,
            decreases self.users@.len() - k,
        {
            if self.users[k].access_token == *identifier {
                let _ = self.users.remove(k);
                return ;
            }
            k += 1;
        }
    }
}

/// Moving an element to the front keeps the multiset of users.
proof fn lemma_multiset_remove_insert(users: Seq<UserConfig>, index: int)
    requires
        0 <= index < users.len(),
    ensures
        (seq![users[index]] + users.remove(index)).to_multiset() == users.to_multiset(),
{
    let u = users[index];
    let rest = users.remove(index);
    vstd::seq_lib::lemma_multiset_commutative(seq![u], rest);
    users.to_multiset_ensures();
    assert(seq![u] =~= Seq::<UserConfig>::empty().push(u));
    Seq::<UserConfig>::empty().to_multiset_ensures();
    assert(seq![u].to_multiset() =~= Multiset::<UserConfig>::empty().insert(u));
    assert(rest.to_multiset() =~= users.to_multiset().remove(u));
    assert(users.contains(u));
    assert(users.to_multiset().count(u) > 0);
    assert((seq![u] + rest).to_multiset() =~= users.to_multiset());
}

/// Relies on uuid::Uuid::new_v4 and its hyphenated display form: a
/// fresh random identifier always prints as 36 characters.
#[verifier::external_body]
fn fresh_device_id() -> (r: String)
    ensures
        r@.len() == 36,
{
    uuid::Uuid::new_v4().to_string()
}

impl ServerConfig {
    /// The device id of this configuration: the stored one when it is
    /// set, else a freshly minted identifier that is stored for good.
    pub fn get_device_id(&mut self) -> (r: String)
        ensures
            final(self).address == old(self).address,
            final(self).users == old(self).users,
            r@ == final(self).device_id@,
            old(self).device_id@.len() > 0 ==> final(self).device_id == old(self).device_id,
            old(self).device_id@.len() == 0 ==> final(self).device_id@.len() == 36,
    {
        if self.device_id.as_str().unicode_len() > 0 {
            return self.device_id.clone();
        }
        let id = fresh_device_id();
        self.device_id = id.clone();
        id
    }
}

} // verus!

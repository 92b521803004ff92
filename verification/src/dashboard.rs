//! The page on which a user connects with Trakt.

use crate::remux::{DeviceAuthStartDto, MediaTrackerDto};
use crate::text::{digits, digits_text, join, same_text};
use vstd::prelude::*;

verus! {

/// The shortest time between two questions how a login stands, in seconds.
pub const MIN_POLL_SECS: u64 = 5;

/// An addon that is set up.
#[derive(Debug, PartialEq, Eq)]
pub struct AddonDto {
    pub id: u128,
    pub kind: String,
}

/// What the page knows. `error` holds what is shown to the user, and `refresh` counts how often
/// the page is read again.
#[derive(Debug)]
pub struct PageState {
    pub addons: Vec<AddonDto>,
    pub connections: Vec<MediaTrackerDto>,
    pub user_id: Option<u128>,
    pub loading: bool,
    pub error: Option<String>,
    pub user_code: Option<String>,
    pub verification_url: Option<String>,
    pub connecting: bool,
    pub syncing: bool,
    pub refresh: u32,
}

/// The first addon that is the one for Trakt.
pub open spec fn trakt_addon(addons: Seq<AddonDto>) -> Option<u128>
    decreases addons.len(),
{
    if addons.len() == 0 {
        None
    } else if addons[0].kind@ == "trakt"@ {
        Some(addons[0].id)
    } else {
        trakt_addon(addons.drop_first())
    }
}

/// Whether the user is connected.
pub open spec fn is_connected(connections: Seq<MediaTrackerDto>) -> bool {
    exists|i: int| 0 <= i < connections.len() && (#[trigger] connections[i]).status@ == "connected"@
}

/// What the page shows.
#[derive(Debug, PartialEq, Eq)]
pub enum Shown {
    Loading,
    /// That the user is connected, and a way to synchronise.
    Connected { addon_id: u128, syncing: bool },
    /// The code that the user enters on a page of Trakt, and where that is.
    Code { code: String, url: Option<String> },
    /// A way to connect.
    Connect { addon_id: u128, connecting: bool },
    /// That there is no addon for Trakt.
    NoAddon,
}

impl PageState {
    /// A page of which nothing is known.
    pub fn new() -> (r: PageState)
        ensures
            r.addons@.len() == 0,
            r.connections@.len() == 0,
            r.user_id is None,
            r.loading,
            r.error is None,
            r.user_code is None,
            r.verification_url is None,
            !r.connecting,
            !r.syncing,
            r.refresh == 0,
    {
        PageState {
            addons: Vec::new(),
            connections: Vec::new(),
            user_id: None,
            loading: true,
            error: None,
            user_code: None,
            verification_url: None,
            connecting: false,
            syncing: false,
            refresh: 0,
        }
    }

    /// Begins to read the page: who the user is has to be found out.
    pub fn load(&mut self)
        ensures
            *final(self) == (PageState { loading: true, ..*old(self) }),
    {
        self.loading = true;
    }

    /// Goes on reading the page when it has been found out who the user is: the addons and the
    /// trackers of this user have to be read, or there is nothing more to do.
    pub fn user_found(&mut self, reply: Result<u128, String>) -> (r: Option<u128>)
        ensures
            match reply {
                Ok(id) => r == Some(id) && *final(self) == (PageState {
                    user_id: Some(id),
                    ..*old(self)
                }),
                Err(text) => r is None && *final(self) == (PageState {
                    error: Some(text),
                    loading: false,
                    ..*old(self)
                }),
            },
    {
        match reply {
            Ok(id) => {
                self.user_id = Some(id);
                Some(id)
            },
            Err(text) => {
                self.error = Some(text);
                self.loading = false;
                None
            },
        }
    }

    /// Ends reading the page. What has been read is taken over only if all of it could be.
    pub fn lists_loaded(
        &mut self,
        addons: Result<Vec<AddonDto>, String>,
        connections: Result<Vec<MediaTrackerDto>, String>,
    )
        ensures
            *final(self) == match (addons, connections) {
                (Ok(addons), Ok(connections)) => PageState {
                    addons,
                    connections,
                    error: None,
                    loading: false,
                    ..*old(self)
                },
                (Err(text), _) => PageState { error: Some(text), loading: false, ..*old(self) },
                (_, Err(text)) => PageState { error: Some(text), loading: false, ..*old(self) },
            },
    {
        match (addons, connections) {
            (Ok(addons), Ok(connections)) => {
                self.addons = addons;
                self.connections = connections;
                self.error = None;
            },
            (Err(text), _) => {
                self.error = Some(text);
            },
            (_, Err(text)) => {
                self.error = Some(text);
            },
        }
        self.loading = false;
    }

    fn trakt(&self) -> (r: Option<u128>)
        ensures
            r == trakt_addon(self.addons@),
    {
        assert(self.addons@.skip(0) =~= self.addons@);
        for i in 0..self.addons.len()
            invariant
                trakt_addon(self.addons@) == trakt_addon(self.addons@.skip(i as int)),
        {
            if same_text(self.addons[i].kind.as_str(), "trakt") {
                return Some(self.addons[i].id);
            }
            assert(self.addons@.skip(i as int).drop_first() =~= self.addons@.skip(i + 1));
        }
        None
    }

    fn connected(&self) -> (r: bool)
        ensures
            r == is_connected(self.connections@),
    {
        for i in 0..self.connections.len()
            invariant
                forall|k: int|
                    0 <= k < i ==> (#[trigger] self.connections@[k]).status@ != "connected"@,
        {
            if same_text(self.connections[i].status.as_str(), "connected") {
                return true;
            }
        }
        false
    }

    /// What the page shows.
    pub open spec fn shown_spec(self) -> Shown {
        if self.loading {
            Shown::Loading
        } else {
            match trakt_addon(self.addons@) {
                None => Shown::NoAddon,
                Some(addon_id) => if is_connected(self.connections@) {
                    Shown::Connected { addon_id, syncing: self.syncing }
                } else {
                    match self.user_code {
                        Some(code) => Shown::Code { code, url: self.verification_url },
                        None => Shown::Connect { addon_id, connecting: self.connecting },
                    }
                },
            }
        }
    }

    /// What the page shows.
    pub fn shown(&self) -> (r: Shown)
        ensures
            r == self.shown_spec(),
    {
        if self.loading {
            return Shown::Loading;
        }
        match self.trakt() {
            None => Shown::NoAddon,
            Some(addon_id) => {
                if self.connected() {
                    return Shown::Connected { addon_id, syncing: self.syncing };
                }
                match &self.user_code {
                    Some(code) => Shown::Code {
                        code: code.clone(),
                        url: match &self.verification_url {
                            Some(url) => Some(url.clone()),
                            None => None,
                        },
                    },
                    None => Shown::Connect { addon_id, connecting: self.connecting },
                }
            },
        }
    }

    /// The user asks to synchronise: this user has to be, or nothing.
    pub fn sync_clicked(&mut self) -> (r: Option<u128>)
        ensures
            r == old(self).user_id,
            *final(self) == if r is Some {
                PageState { syncing: true, ..*old(self) }
            } else {
                *old(self)
            },
    {
        if self.user_id.is_some() {
            self.syncing = true;
        }
        self.user_id
    }

    /// The user has been synchronised, or could not be.
    pub fn synced(&mut self, reply: Result<usize, String>)
        requires
            old(self).refresh < u32::MAX,
        ensures
            *final(self) == (PageState {
                error: final(self).error,
                syncing: false,
                refresh: (old(self).refresh + 1) as u32,
                ..*old(self)
            }),
            final(self).error matches Some(text) && text@ == match reply {
                Ok(applied) => "Imported "@ + digits(applied as nat) + " items"@,
                Err(why) => why@,
            },
    {
        self.error = Some(
            match reply {
                Ok(applied) => {
                    let n: u64 = applied as u64;
                    join(join("Imported ", digits_text(n).as_str()).as_str(), " items")
                },
                Err(text) => text,
            },
        );
        self.syncing = false;
        self.refresh = self.refresh + 1;
    }

    /// The user asks to connect: this user has to be, or nothing.
    pub fn connect_clicked(&mut self) -> (r: Option<u128>)
        ensures
            r == old(self).user_id,
            *final(self) == if r is Some {
                PageState { connecting: true, error: None, ..*old(self) }
            } else {
                *old(self)
            },
    {
        if self.user_id.is_some() {
            self.connecting = true;
            self.error = None;
        }
        self.user_id
    }

    /// A device login has been started, or could not be: with this token it has to be asked how
    /// the login stands, each time after so many seconds, or there is nothing more to do.
    pub fn login_begun(&mut self, reply: Result<DeviceAuthStartDto, String>) -> (r: Option<
        (String, u64),
    >)
        ensures
            match reply {
                Ok(start) => r == Some((start.poll_token, poll_interval(start.interval_seconds)))
                    && *final(self) == (PageState {
                    user_code: Some(start.user_code),
                    verification_url: Some(start.verification_url),
                    ..*old(self)
                }),
                Err(text) => r is None && *final(self) == (PageState {
                    error: Some(text),
                    connecting: false,
                    ..*old(self)
                }),
            },
    {
        match reply {
            Ok(start) => {
                self.user_code = Some(start.user_code);
                self.verification_url = Some(start.verification_url);
                let interval: u64 = if start.interval_seconds < MIN_POLL_SECS {
                    MIN_POLL_SECS
                } else {
                    start.interval_seconds
                };
                Some((start.poll_token, interval))
            },
            Err(text) => {
                self.error = Some(text);
                self.connecting = false;
                None
            },
        }
    }

    /// It has been asked how the login stands. Says whether it has to be asked again.
    pub fn login_polled(&mut self, reply: Result<String, String>) -> (r: bool)
        requires
            old(self).refresh < u32::MAX,
        ensures
            match reply {
                Ok(status) => if status@ == "approved"@ {
                    !r && *final(self) == (PageState {
                        user_code: None,
                        connecting: false,
                        refresh: (old(self).refresh + 1) as u32,
                        ..*old(self)
                    })
                } else if status@ == "denied"@ {
                    !r && *final(self) == (PageState {
                        user_code: None,
                        connecting: false,
                        error: final(self).error,
                        ..*old(self)
                    }) && (final(self).error matches Some(text) && text@
                        == "Trakt login was denied or expired."@)
                } else {
                    r && *final(self) == *old(self)
                },
                Err(text) => !r && *final(self) == (PageState {
                    error: Some(text),
                    connecting: false,
                    ..*old(self)
                }),
            },
    {
        match reply {
            Ok(status) => {
                if same_text(status.as_str(), "approved") {
                    self.user_code = None;
                    self.connecting = false;
                    self.refresh = self.refresh + 1;
                    false
                } else if same_text(status.as_str(), "denied") {
                    self.error = Some("Trakt login was denied or expired.".to_string());
                    self.user_code = None;
                    self.connecting = false;
                    false
                } else {
                    true
                }
            },
            Err(text) => {
                self.error = Some(text);
                self.connecting = false;
                false
            },
        }
    }
}

/// How long to wait between two questions: as Trakt asks for it, but five seconds at least.
pub open spec fn poll_interval(interval_seconds: u64) -> u64 {
    if interval_seconds < MIN_POLL_SECS {
        MIN_POLL_SECS
    } else {
        interval_seconds
    }
}

/// An interval in milliseconds, for a timer that takes 32 bits: of the seconds only the lowest 32
/// bits count.
pub fn timer_millis(interval: u64) -> (r: u32)
    requires
        (interval % 0x1_0000_0000) * 1000 <= u32::MAX,
    ensures
        r == (interval % 0x1_0000_0000) * 1000,
{
    let secs: u32 = (interval % 0x1_0000_0000) as u32;
    secs * 1000
}

/// While the page is read nothing else is shown, and once the user is connected they are not asked
/// to connect again.
pub proof fn lemma_connected_is_not_asked(s: PageState)
    requires
        is_connected(s.connections@),
    ensures
        !(s.shown_spec() is Connect),
        !(s.shown_spec() is Code),
        s.loading ==> s.shown_spec() is Loading,
{
}

/// What the page shows follows from what it knows. While it is read, that. Without an addon for
/// Trakt, that there is none. A user who is connected can synchronise, one who has a code sees it and
/// where to enter it, and any other can connect, each with the addon that is the one for Trakt.
pub proof fn lemma_shown_as_known(s: PageState)
    ensures
        match s.shown_spec() {
            Shown::Loading => s.loading,
            Shown::NoAddon => !s.loading && forall|i: int|
                0 <= i < s.addons@.len() ==> (#[trigger] s.addons@[i]).kind@ != "trakt"@,
            Shown::Connected { addon_id, syncing } => {
                &&& !s.loading
                &&& is_trakt_addon(s.addons@, addon_id)
                &&& syncing == s.syncing
                &&& exists|i: int|
                    0 <= i < s.connections@.len() && (#[trigger] s.connections@[i]).status@
                        == "connected"@
            },
            Shown::Code { code, url } => {
                &&& !s.loading
                &&& s.user_code == Some(code) && url == s.verification_url
                &&& forall|i: int|
                    0 <= i < s.connections@.len() ==> (#[trigger] s.connections@[i]).status@
                        != "connected"@
            },
            Shown::Connect { addon_id, connecting } => {
                &&& !s.loading
                &&& is_trakt_addon(s.addons@, addon_id)
                &&& connecting == s.connecting && s.user_code is None
                &&& forall|i: int|
                    0 <= i < s.connections@.len() ==> (#[trigger] s.connections@[i]).status@
                        != "connected"@
            },
        },
{
    lemma_first_for_trakt(s.addons@);
}

/// Whether this is the id of an addon for Trakt, and none before it is one.
pub open spec fn is_trakt_addon(addons: Seq<AddonDto>, id: u128) -> bool {
    exists|i: int|
        #![trigger addons[i]]
        0 <= i < addons.len() && addons[i].id == id && addons[i].kind@ == "trakt"@ && forall|j: int|
            0 <= j < i ==> (#[trigger] addons[j]).kind@ != "trakt"@
}

proof fn lemma_first_for_trakt(addons: Seq<AddonDto>)
    ensures
        match trakt_addon(addons) {
            Some(id) => is_trakt_addon(addons, id),
            None => forall|i: int|
                0 <= i < addons.len() ==> (#[trigger] addons[i]).kind@ != "trakt"@,
        },
    decreases addons.len(),
{
    if addons.len() > 0 && addons[0].kind@ != "trakt"@ {
        let rest = addons.drop_first();
        lemma_first_for_trakt(rest);
        assert(forall|j: int| 0 < j < addons.len() ==> addons[j] == rest[j - 1]);
        if let Some(id) = trakt_addon(rest) {
            let k = choose|i: int|
                #![trigger rest[i]]
                0 <= i < rest.len() && rest[i].id == id && rest[i].kind@ == "trakt"@ && forall|j: int|
                    0 <= j < i ==> (#[trigger] rest[j]).kind@ != "trakt"@;
            assert(addons[k + 1] == rest[k]);
        }
    } else if addons.len() > 0 {
        assert(addons[0].id == trakt_addon(addons)->0);
    }
}

/// Trakt is asked as rarely as it wants to be, and at most every five seconds.
pub proof fn lemma_asked_rarely(interval_seconds: u64)
    ensures
        poll_interval(interval_seconds) >= 5,
        poll_interval(interval_seconds) >= interval_seconds,
        poll_interval(interval_seconds) == 5 || poll_interval(interval_seconds) == interval_seconds,
{
}

/// Whether the page knows the same addons, connections and user as before.
pub open spec fn knows_the_same(s: PageState, t: PageState) -> bool {
    s.addons == t.addons && s.connections == t.connections && s.user_id == t.user_id
}

/// The page is being read until it is known who the user is and what they have, or that it cannot
/// be known. What could not be read is told and leaves what was known as it was. What could be read
/// takes its place.
pub proof fn lemma_page_is_read(
    s: &mut PageState,
    found: Result<u128, String>,
    id: Option<u128>,
    t: &mut PageState,
    addons: Result<Vec<AddonDto>, String>,
    connections: Result<Vec<MediaTrackerDto>, String>,
    u: &mut PageState,
)
    requires
        call_ensures(PageState::user_found, (s, found), id),
        call_ensures(PageState::lists_loaded, (t, addons, connections), ()),
        call_ensures(PageState::load, (u,), ()),
    ensures
        final(u).loading && knows_the_same(*final(u), *old(u)) && final(u).error == old(u).error,
        match found {
            Ok(user) => id == Some(user) && final(s).user_id == Some(user) && final(s).loading
                == old(s).loading && final(s).error == old(s).error,
            Err(text) => id is None && !final(s).loading && final(s).error == Some(text)
                && knows_the_same(*final(s), *old(s)),
        },
        !final(t).loading,
        final(t).user_id == old(t).user_id,
        addons is Ok && connections is Ok ==> final(t).addons == addons->Ok_0
            && final(t).connections == connections->Ok_0 && final(t).error is None,
        addons is Err || connections is Err ==> knows_the_same(*final(t), *old(t)),
        addons matches Err(text) ==> final(t).error == Some(text),
        addons is Ok ==> (connections matches Err(text) ==> final(t).error == Some(text)),
        final(t).user_code == old(t).user_code && final(t).connecting == old(t).connecting,
        final(t).syncing == old(t).syncing && final(t).refresh == old(t).refresh,
{
}

/// Only for a user who is known anything is begun. A synchronisation is under way until it has ended,
/// and then says how much was brought in, or what went wrong, and the page is read again.
pub proof fn lemma_synchronised_on_the_page(
    s: &mut PageState,
    user: Option<u128>,
    t: &mut PageState,
    reply: Result<usize, String>,
)
    requires
        call_ensures(PageState::sync_clicked, (s,), user),
        call_ensures(PageState::synced, (t, reply), ()),
        old(t).refresh < u32::MAX,
    ensures
        user == old(s).user_id,
        user is Some ==> final(s).syncing,
        user is None ==> *final(s) == *old(s),
        knows_the_same(*final(s), *old(s)) && final(s).refresh == old(s).refresh,
        !final(t).syncing,
        final(t).refresh == old(t).refresh + 1,
        knows_the_same(*final(t), *old(t)) && final(t).user_code == old(t).user_code,
        final(t).error matches Some(text) && match reply {
            Ok(n) => text@ == "Imported "@ + digits(n as nat) + " items"@,
            Err(why) => text@ == why@,
        },
{
}

/// To connect, the user is shown the code and where to enter it, and Trakt is asked with the token
/// for that login. It is asked until the login is approved or denied, or cannot be asked for: then
/// the user is no longer connecting. Once it is approved the page is read again, and what went wrong
/// is told.
pub proof fn lemma_connected_on_the_page(
    s: &mut PageState,
    user: Option<u128>,
    t: &mut PageState,
    begun: Result<DeviceAuthStartDto, String>,
    asks: Option<(String, u64)>,
    u: &mut PageState,
    status: Result<String, String>,
    again: bool,
)
    requires
        call_ensures(PageState::connect_clicked, (s,), user),
        call_ensures(PageState::login_begun, (t, begun), asks),
        call_ensures(PageState::login_polled, (u, status), again),
        old(u).refresh < u32::MAX,
    ensures
        user == old(s).user_id,
        user is Some ==> final(s).connecting && final(s).error is None,
        user is None ==> *final(s) == *old(s),
        knows_the_same(*final(s), *old(s)),
        match begun {
            Ok(start) => {
                &&& asks matches Some(a) && a.0 == start.poll_token && a.1 >= 5 && a.1
                    >= start.interval_seconds && (a.1 == 5 || a.1 == start.interval_seconds)
                &&& final(t).user_code == Some(start.user_code)
                &&& final(t).verification_url == Some(start.verification_url)
                &&& final(t).connecting == old(t).connecting && final(t).error == old(t).error
            },
            Err(text) => asks is None && !final(t).connecting && final(t).error == Some(text)
                && final(t).user_code == old(t).user_code,
        },
        knows_the_same(*final(t), *old(t)),
        knows_the_same(*final(u), *old(u)),
        again <==> (status matches Ok(text) && text@ != "approved"@ && text@ != "denied"@),
        again ==> *final(u) == *old(u),
        !again ==> !final(u).connecting,
        status matches Ok(text) ==> !again ==> final(u).user_code is None,
        final(u).refresh == old(u).refresh + (if status matches Ok(text) && text@ == "approved"@ {
            1int
        } else {
            0int
        }),
        status matches Ok(text) ==> text@ == "approved"@ ==> final(u).error == old(u).error,
        status matches Ok(text) ==> text@ == "denied"@ ==> (final(u).error matches Some(told)
            && told@ == "Trakt login was denied or expired."@),
        status matches Err(why) ==> final(u).error == Some(why) && final(u).user_code
            == old(u).user_code,
{
    reveal_strlit("approved");
    reveal_strlit("denied");
    assert("approved"@.len() == 8 && "denied"@.len() == 6);
}

} // verus!

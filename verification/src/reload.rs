//! Live-reload signalling: a level-triggered "rebuild occurred" flag that a
//! poll consumes, and the clients that have requested the entry page.

use vstd::prelude::*;
use vstd::string::StringExecFns;

verus! {

/// What a `ReloadState` holds, as mathematical values.
pub struct ReloadView {
    /// A rebuild has happened that no poll has seen yet.
    pub pending: bool,
    /// The observed client addresses, in first-seen order.
    pub clients: Seq<Seq<char>>,
}

impl ReloadView {
    /// The state a new session starts in.
    pub open spec fn initial() -> ReloadView {
        ReloadView { pending: false, clients: Seq::empty() }
    }

    /// The state after a rebuild is announced.
    pub open spec fn notified(self) -> ReloadView {
        ReloadView { pending: true, clients: self.clients }
    }

    /// The state after a poll has read the flag.
    pub open spec fn consumed(self) -> ReloadView {
        ReloadView { pending: false, clients: self.clients }
    }

    /// The state after `client` asked for the entry page.
    pub open spec fn observing(self, client: Seq<char>) -> ReloadView {
        ReloadView { pending: self.pending, clients: observe(self.clients, client) }
    }

    /// No client is listed twice.
    pub open spec fn well_formed(self) -> bool {
        self.clients.no_duplicates()
    }
}

/// `clients` with `client` recorded: appended unless it is already listed.
pub open spec fn observe(clients: Seq<Seq<char>>, client: Seq<char>) -> Seq<Seq<char>> {
    if clients.contains(client) {
        clients
    } else {
        clients.push(client)
    }
}

/// `client` is listed in `clients` exactly once.
pub open spec fn listed_once(clients: Seq<Seq<char>>, client: Seq<char>) -> bool {
    clients.to_multiset().count(client) == 1
}

/// The reload flag and the observed clients of one server session.
#[derive(Debug)]
pub struct ReloadState {
    pending_flag: bool,
    observed_clients: Vec<String>,
}

impl View for ReloadState {
    type V = ReloadView;

    closed spec fn view(&self) -> ReloadView {
        ReloadView { pending: self.pending_flag, clients: self.observed_clients.deep_view() }
    }
}

impl ReloadState {
    /// The invariant of every `ReloadState`: no client is listed twice.
    #[verifier::type_invariant]
    pub closed spec fn is_valid(&self) -> bool {
        self.observed_clients.deep_view().no_duplicates()
    }

    /// What the invariant says of the view.
    pub proof fn lemma_valid_is_well_formed(&self)
        requires
            self.is_valid(),
        ensures
            self@.well_formed(),
    {
    }

    /// A state with the flag clear and no client observed.
    pub fn new() -> (state: ReloadState)
        ensures
            state@ == ReloadView::initial(),
    {
        let state = ReloadState { pending_flag: false, observed_clients: Vec::new() };
        assert(state.observed_clients.deep_view() =~= Seq::empty());
        state
    }

    /// Records that a rebuild happened. The flag is a level, not a counter:
    /// several rebuilds before the next poll leave it simply set.
    pub fn notify_rebuild(&mut self)
        ensures
            final(self)@ == old(self)@.notified(),
    {
        proof {
            use_type_invariant(&*self);
        }
        self.pending_flag = true;
    }

    /// Reads the flag and clears it in one step.
    pub fn take_pending(&mut self) -> (was_pending: bool)
        ensures
            was_pending == old(self)@.pending,
            final(self)@ == old(self)@.consumed(),
    {
        proof {
            use_type_invariant(&*self);
        }
        let was_pending = self.pending_flag;
        self.pending_flag = false;
        was_pending
    }

    /// Whether a rebuild is waiting to be seen.
    pub fn is_pending(&self) -> (pending: bool)
        ensures
            pending == self@.pending,
    {
        self.pending_flag
    }

    /// Whether `client` has been observed.
    pub fn has_client(&self, client: &str) -> (found: bool)
        ensures
            found == self@.clients.contains(client@),
    {
        let n = self.observed_clients.len();
        let mut i: usize = 0;
        while i < n
            invariant
                i <= n,
                n == self.observed_clients.len(),
                forall|j: int| 0 <= j < i ==> self.observed_clients.deep_view()[j] != client@,
            decreases n - i,
        {
            if crate::text::text_eq(self.observed_clients[i].as_str(), client) {
                assert(self.observed_clients.deep_view()[i as int] == client@);
                return true;
            }
            i += 1;
        }
        false
    }

    /// Records `client`, once: a client already listed is not listed again.
    pub fn observe_client(&mut self, client: &str)
        ensures
            final(self)@ == old(self)@.observing(client@),
            final(self)@.well_formed(),
            listed_once(final(self)@.clients, client@),
    {
        proof {
            use_type_invariant(&*self);
            lemma_observed_exactly_once(self@.clients, client@);
        }
        if !self.has_client(client) {
            let ghost before = self.observed_clients.deep_view();
            let mut clients: Vec<String> = Vec::new();
            assert(clients.deep_view() =~= Seq::empty());
            std::mem::swap(&mut self.observed_clients, &mut clients);
            clients.push(String::from_str(client));
            assert(clients.deep_view() =~= before.push(client@));
            std::mem::swap(&mut self.observed_clients, &mut clients);
        }
    }

    /// How many distinct clients have been observed.
    pub fn client_count(&self) -> (n: usize)
        ensures
            n == self@.clients.len(),
    {
        self.observed_clients.len()
    }

    /// The observed clients, in first-seen order and without repetition.
    pub fn observed_clients(&self) -> (clients: &Vec<String>)
        ensures
            clients.deep_view() == self@.clients,
            self@.well_formed(),
    {
        proof {
            use_type_invariant(self);
        }
        &self.observed_clients
    }
}

impl Default for ReloadState {
    fn default() -> (state: ReloadState)
        ensures
            state@ == ReloadView::initial(),
    {
        ReloadState::new()
    }
}

/// Recording a client keeps the list free of repetition and leaves the
/// client listed exactly once.
pub proof fn lemma_observed_exactly_once(clients: Seq<Seq<char>>, client: Seq<char>)
    requires
        clients.no_duplicates(),
    ensures
        observe(clients, client).no_duplicates(),
        listed_once(observe(clients, client), client),
{
    let after = observe(clients, client);
    assert(after.contains(client)) by {
        if !clients.contains(client) {
            assert(after[clients.len() as int] == client);
        }
    }
    after.to_multiset_ensures();
    after.lemma_multiset_has_no_duplicates();
}

/// Recording a client a second time changes nothing.
pub proof fn lemma_observe_idempotent(clients: Seq<Seq<char>>, client: Seq<char>)
    ensures
        observe(observe(clients, client), client) == observe(clients, client),
{
    let once = observe(clients, client);
    if !clients.contains(client) {
        assert(once[clients.len() as int] == client);
    }
}

/// Rebuilds do not queue up: announcing a second rebuild before a poll has
/// read the first leaves the state as the first left it, and one poll then
/// clears the flag.
pub proof fn lemma_rebuilds_do_not_queue(state: ReloadView)
    ensures
        state.notified().notified() == state.notified(),
        state.notified().pending,
        !state.notified().consumed().pending,
        state.consumed().consumed() == state.consumed(),
{
}

/// Recording a client never drops or reorders the clients seen before.
pub proof fn lemma_observe_keeps_order(clients: Seq<Seq<char>>, client: Seq<char>)
    ensures
        clients.is_prefix_of(observe(clients, client)),
{
}

} // verus!

//! When settings are written: each registration keeps a queue of persist
//! requests, and a tick drains it and asks for one write when it held any.
use vstd::prelude::*;
use crate::settings::{Settingable, SettingsConfig};

verus! {

/// A request to persist: for one settings type, or for all of them.
#[derive(Debug, Clone, Copy, PartialEq, Eq, Structural)]
pub enum PersistRequest {
    This,
    All,
}

/// A write to perform: the directory to create and the file to fill.
pub struct PersistJob {
    pub directory: String,
    pub path: String,
}

/// The persist state of one registered settings type: where it is kept
/// and the requests queued since the last tick.
pub struct Registration {
    directory: String,
    path: String,
    pending: Vec<PersistRequest>,
}

/// What a registration is: its directory, its file, and its queue.
pub struct RegistrationView {
    pub directory: Seq<char>,
    pub path: Seq<char>,
    pub pending: Seq<PersistRequest>,
}

impl View for Registration {
    type V = RegistrationView;

    closed spec fn view(&self) -> RegistrationView {
        RegistrationView { directory: self.directory@, path: self.path@, pending: self.pending@ }
    }
}

/// A registration after one signal of each of `requests`, in order.
pub open spec fn signalled(r: RegistrationView, requests: Seq<PersistRequest>) -> RegistrationView
    decreases requests.len(),
{
    if requests.len() == 0 {
        r
    } else {
        let before = signalled(r, requests.drop_last());
        RegistrationView { pending: before.pending.push(requests.last()), ..before }
    }
}

/// A write is asked for exactly when a request came: a registration that a
/// tick left drained, signalled with `requests`, is dirty at the next tick
/// if and only if `requests` is not empty; its file stays its own.
pub proof fn lemma_write_iff_signalled(drained: RegistrationView, requests: Seq<PersistRequest>)
    requires
        drained.pending.len() == 0,
    ensures
        signalled(drained, requests).pending.len() > 0 <==> requests.len() > 0,
        signalled(drained, requests).pending.len() == requests.len(),
        signalled(drained, requests).directory == drained.directory,
        signalled(drained, requests).path == drained.path,
    decreases requests.len(),
{
    if requests.len() > 0 {
        lemma_write_iff_signalled(drained, requests.drop_last());
    }
}

impl Registration {
    /// A registration for the settings kept at `config`, with nothing queued.
    pub fn new<S: Settingable>(config: &SettingsConfig<S>) -> (r: Self)
        ensures
            r@.directory == config.spec_directory(),
            r@.path == config.spec_path(),
            r@.pending.len() == 0,
    {
        Registration::new_at(config.directory(), config.path())
    }

    /// A registration for the settings file `path` in `directory`, with
    /// nothing queued.
    pub fn new_at(directory: &str, path: &str) -> (r: Self)
        ensures
            r@.directory == directory@,
            r@.path == path@,
            r@.pending.len() == 0,
    {
        Registration { directory: directory.to_owned(), path: path.to_owned(), pending: Vec::new() }
    }

    /// Queues `request`.
    pub fn signal(&mut self, request: PersistRequest)
        ensures
            final(self)@.directory == old(self)@.directory,
            final(self)@.path == old(self)@.path,
            final(self)@.pending == old(self)@.pending.push(request),
            final(self)@ == signalled(old(self)@, seq![request]),
    {
        self.pending.push(request);
        proof {
            let none = seq![request].drop_last();
            assert(none =~= Seq::<PersistRequest>::empty());
            assert(signalled(old(self)@, none) == old(self)@);
        }
    }

    /// Whether a request is queued.
    pub fn is_dirty(&self) -> (r: bool)
        ensures
            r == (self@.pending.len() > 0),
    {
        self.pending.len() > 0
    }

    /// One tick: drains the queue and, where it held any request, however
    /// many and of whichever kind, hands back one write of this
    /// registration's own file.
    pub fn tick(&mut self) -> (r: Option<PersistJob>)
        ensures
            final(self)@.directory == old(self)@.directory,
            final(self)@.path == old(self)@.path,
            final(self)@.pending.len() == 0,
            r is Some <==> old(self)@.pending.len() > 0,
            r matches Some(job) ==> job.directory@ == old(self)@.directory
                && job.path@ == old(self)@.path,
    {
        let dirty = self.is_dirty();
        self.pending.clear();
        if dirty {
            Some(PersistJob { directory: self.directory.clone(), path: self.path.clone() })
        } else {
            None
        }
    }
}

/// All registered settings types, each under the handle that `register`
/// gave it.
pub struct PersistController {
    registrations: Vec<Registration>,
}

impl View for PersistController {
    type V = Seq<RegistrationView>;

    closed spec fn view(&self) -> Seq<RegistrationView> {
        self.registrations@.map_values(|r: Registration| r@)
    }
}

impl PersistController {
    /// A controller with nothing registered.
    pub fn new() -> (r: Self)
        ensures
            r@.len() == 0,
    {
        PersistController { registrations: Vec::new() }
    }

    /// The number of registrations.
    pub fn len(&self) -> (r: usize)
        ensures
            r == self@.len(),
    {
        self.registrations.len()
    }

    /// Registers the settings kept at `config` and returns its handle.
    pub fn register<S: Settingable>(&mut self, config: &SettingsConfig<S>) -> (r: usize)
        ensures
            r == old(self)@.len(),
            final(self)@.len() == old(self)@.len() + 1,
            forall|i: int| 0 <= i < r ==> final(self)@[i] == old(self)@[i],
            final(self)@[r as int].directory == config.spec_directory(),
            final(self)@[r as int].path == config.spec_path(),
            final(self)@[r as int].pending.len() == 0,
    {
        let handle = self.registrations.len();
        self.registrations.push(Registration::new(config));
        assert(final(self)@ =~= old(self)@.push(self.registrations@[handle as int]@));
        handle
    }

    /// Queues a request to persist the settings type under `handle`; no
    /// other registration changes.
    pub fn signal_persist(&mut self, handle: usize)
        requires
            handle < old(self)@.len(),
        ensures
            final(self)@.len() == old(self)@.len(),
            forall|i: int| 0 <= i < old(self)@.len() && i != handle ==> final(self)@[i] == old(self)@[i],
            final(self)@[handle as int].directory == old(self)@[handle as int].directory,
            final(self)@[handle as int].path == old(self)@[handle as int].path,
            final(self)@[handle as int].pending == old(self)@[handle as int].pending.push(PersistRequest::This),
    {
        let mut registration = self.registrations.remove(handle);
        registration.signal(PersistRequest::This);
        self.registrations.insert(handle, registration);
        assert(final(self)@ =~= old(self)@.update(handle as int, registration@));
    }

    /// Queues a request to persist every registered settings type.
    pub fn signal_persist_all(&mut self)
        ensures
            final(self)@.len() == old(self)@.len(),
            forall|i: int| 0 <= i < old(self)@.len() ==> (#[trigger] final(self)@[i]).directory == old(self)@[i].directory
                && final(self)@[i].path == old(self)@[i].path
                && final(self)@[i].pending == old(self)@[i].pending.push(PersistRequest::All),
    {
        let n = self.registrations.len();
        let mut k: usize = 0;
        while k < n
            invariant
                n == old(self)@.len(),
                k <= n,
                self@.len() == n,
                forall|i: int| 0 <= i < k ==> (#[trigger] self@[i]).directory == old(self)@[i].directory
                    && self@[i].path == old(self)@[i].path
                    && self@[i].pending == old(self)@[i].pending.push(PersistRequest::All),
                forall|i: int| k <= i < n ==> #[trigger] self@[i] == old(self)@[i],
            decreases n - k,
        {
            let ghost before = self@;
            let mut registration = self.registrations.remove(k);
            assert(registration@ == before[k as int]);
            registration.signal(PersistRequest::All);
            self.registrations.insert(k, registration);
            assert(self@ =~= before.update(k as int, registration@));
            k = k + 1;
        }
    }

    /// One tick of the settings type under `handle`: drains its queue and
    /// hands back a write of its own file where the queue held any
    /// request. No other registration is read or changed.
    pub fn tick(&mut self, handle: usize) -> (r: Option<PersistJob>)
        requires
            handle < old(self)@.len(),
        ensures
            final(self)@.len() == old(self)@.len(),
            forall|i: int| 0 <= i < old(self)@.len() && i != handle ==> final(self)@[i] == old(self)@[i],
            final(self)@[handle as int].directory == old(self)@[handle as int].directory,
            final(self)@[handle as int].path == old(self)@[handle as int].path,
            final(self)@[handle as int].pending.len() == 0,
            r is Some <==> old(self)@[handle as int].pending.len() > 0,
            r matches Some(job) ==> job.directory@ == old(self)@[handle as int].directory
                && job.path@ == old(self)@[handle as int].path,
    {
        let mut registration = self.registrations.remove(handle);
        let job = registration.tick();
        self.registrations.insert(handle, registration);
        assert(final(self)@ =~= old(self)@.update(handle as int, registration@));
        job
    }
}

} // verus!

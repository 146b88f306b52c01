//! The session lifecycle: building a wallet client by one of three
//! strategies, tearing the session down, and answering the pure existence
//! query.
//!
//! Building a client takes a fixed sequence of collaborator calls — construct
//! the configuration, construct or load the client, for a fresh wallet fetch
//! its seed phrase, start the persistent monitor — and every one of them is
//! disk or network work the bridge cannot perform itself. The protocol is
//! therefore split: [`begin`] and [`step`] make every decision and say in
//! each [`InitAction`] what the host must do next, and the host reports each
//! outcome back as an [`InitEvent`]. Any failure is terminal for the attempt
//! and leaves the store exactly as it was; only the final monitor-started
//! step publishes the new handle, replacing whatever the store held.

use vstd::prelude::*;
use crate::error::{render_error, BridgeError};
use crate::store::{spec_minted, spec_published, SessionHandle, SessionStore};
use vstd::pervasive::unreached;
use vstd::string::StringExecFns;

verus! {

/// How many blocks below the current chain tip a fresh wallet starts its
/// scan: a safety margin against racing the tip.
pub const SCAN_MARGIN: u64 = 100;

/// The scan height of a fresh wallet: the margin below the tip, clamped at
/// the genesis height.
pub open spec fn spec_scan_start(latest_height: u64) -> u64 {
    if latest_height >= SCAN_MARGIN {
        (latest_height - SCAN_MARGIN) as u64
    } else {
        0
    }
}

/// The three ways a session can be brought up: a fresh wallet, a wallet
/// restored from a mnemonic phrase, and a wallet loaded from disk. Each
/// carries what the collaborator needs for its part.
pub enum InitRequest {
    New { server_uri: String },
    FromPhrase { server_uri: String, seed_phrase: String, birthday: u64, overwrite: bool },
    Existing { server_uri: String },
}

impl InitRequest {
    /// The server address every strategy hands to the configuration step.
    pub open spec fn spec_server_uri(&self) -> Seq<char> {
        match self {
            InitRequest::New { server_uri } => server_uri@,
            InitRequest::FromPhrase { server_uri, .. } => server_uri@,
            InitRequest::Existing { server_uri } => server_uri@,
        }
    }

    /// The mnemonic a restore request carries.
    pub open spec fn spec_seed_phrase(&self) -> Seq<char> {
        match self {
            InitRequest::FromPhrase { seed_phrase, .. } => seed_phrase@,
            _ => Seq::empty(),
        }
    }

    /// The birthday height a restore request carries.
    pub open spec fn spec_birthday(&self) -> u64 {
        match self {
            InitRequest::FromPhrase { birthday, .. } => *birthday,
            _ => 0,
        }
    }

    /// The overwrite flag a restore request carries, passed through to the
    /// collaborator unchanged.
    pub open spec fn spec_overwrite(&self) -> bool {
        match self {
            InitRequest::FromPhrase { overwrite, .. } => *overwrite,
            _ => false,
        }
    }
}

/// Where an initialization attempt stands: which collaborator outcome it is
/// waiting for. `AwaitMonitor` already carries the minted handle and the
/// reply owed on success (the seed phrase for a fresh wallet, `"OK"`
/// otherwise).
pub enum InitStage {
    AwaitConfig,
    AwaitClient,
    AwaitSeed,
    AwaitMonitor { handle: SessionHandle, payload: String },
    Finished,
}

impl InitStage {
    /// The handle waiting to be published.
    pub open spec fn spec_monitor_handle(&self) -> SessionHandle {
        match self {
            InitStage::AwaitMonitor { handle, .. } => *handle,
            _ => arbitrary(),
        }
    }

    /// The reply owed once the monitor runs.
    pub open spec fn spec_monitor_payload(&self) -> Seq<char> {
        match self {
            InitStage::AwaitMonitor { payload, .. } => payload@,
            _ => Seq::empty(),
        }
    }
}

/// One initialization attempt: the request it serves and where it stands.
pub struct InitFlow {
    pub request: InitRequest,
    pub stage: InitStage,
}

/// What the host must do next: perform the named collaborator call and
/// report its outcome, or hand the finished reply back to the caller.
pub enum InitAction {
    BuildConfig { server_uri: String },
    BuildNewClient { start_height: u64 },
    BuildClientFromPhrase { seed_phrase: String, birthday: u64, overwrite: bool },
    LoadClientFromDisk,
    FetchSeed,
    StartMonitor { handle: SessionHandle },
    Finish { reply: String },
}

/// The outcome of one collaborator call, reported by the host. A failure
/// carries the collaborator's message, which the bridge flattens into the
/// textual error channel.
pub enum InitEvent {
    ConfigBuilt { latest_height: u64 },
    ConfigFailed { message: String },
    ClientBuilt,
    ClientFailed { message: String },
    SeedFetched { seed: String },
    SeedFailed { message: String },
    MonitorStarted,
}

impl InitEvent {
    /// The chain tip a successful configuration step reports.
    pub open spec fn spec_latest_height(&self) -> u64 {
        match self {
            InitEvent::ConfigBuilt { latest_height } => *latest_height,
            _ => 0,
        }
    }

    /// The seed phrase a successful seed fetch reports.
    pub open spec fn spec_seed(&self) -> Seq<char> {
        match self {
            InitEvent::SeedFetched { seed } => seed@,
            _ => Seq::empty(),
        }
    }

    /// The collaborator's message when a step failed.
    pub open spec fn spec_failure_message(&self) -> Seq<char> {
        match self {
            InitEvent::ConfigFailed { message } => message@,
            InitEvent::ClientFailed { message } => message@,
            InitEvent::SeedFailed { message } => message@,
            _ => Seq::empty(),
        }
    }
}

impl InitFlow {
    /// The events the flow can take next; anything else is a host error.
    pub open spec fn accepts(&self, event: InitEvent) -> bool {
        match self.stage {
            InitStage::AwaitConfig => event is ConfigBuilt || event is ConfigFailed,
            InitStage::AwaitClient => event is ClientBuilt || event is ClientFailed,
            InitStage::AwaitSeed => event is SeedFetched || event is SeedFailed,
            InitStage::AwaitMonitor { .. } => event is MonitorStarted,
            InitStage::Finished => false,
        }
    }

    /// Well-formedness against the store the flow runs against: only a fresh
    /// wallet fetches a seed, and a handle waiting to be published was minted
    /// by that store and is not what its slot currently holds.
    pub open spec fn wf(&self, store: SessionStore) -> bool {
        match self.stage {
            InitStage::AwaitSeed => self.request is New,
            InitStage::AwaitMonitor { handle, .. } => handle.id < store.next_id
                && (store.slot matches Some(g) ==> g != handle),
            _ => true,
        }
    }
}

/// A terminal transition: the attempt is over and the reply is the flattened
/// form of the given failure message.
pub open spec fn spec_failed(r: (InitFlow, InitAction), message: Seq<char>) -> bool {
    r.0.stage is Finished && (r.1 matches InitAction::Finish { reply } && reply@ == "Error: "@
        + message)
}

/// Opens an initialization attempt: every strategy first has the host build
/// the configuration against the requested server.
pub fn begin(request: InitRequest) -> (r: (InitFlow, InitAction))
    ensures
        r.0.request == request,
        r.0.stage is AwaitConfig,
        r.1 matches InitAction::BuildConfig { server_uri } && server_uri@
            == request.spec_server_uri(),
{
    let server_uri = match &request {
        InitRequest::New { server_uri } => server_uri.clone(),
        InitRequest::FromPhrase { server_uri, .. } => server_uri.clone(),
        InitRequest::Existing { server_uri } => server_uri.clone(),
    };
    (InitFlow { request, stage: InitStage::AwaitConfig }, InitAction::BuildConfig { server_uri })
}

/// Takes one reported outcome and decides what happens next.
///
/// On a failure the attempt finishes with the flattened error and the store
/// is left exactly as it was, prior session included. A built client is
/// given a freshly minted handle; once the host reports the monitor running,
/// that handle — and no other — is published, replacing whatever the slot
/// held before.
pub fn step(flow: InitFlow, event: InitEvent, store: &mut SessionStore) -> (r: (
    InitFlow,
    InitAction,
))
    requires
        old(store).wf(),
        old(store).next_id < u64::MAX,
        flow.wf(*old(store)),
        flow.accepts(event),
    ensures
        r.0.request == flow.request,
        final(store).wf(),
        r.0.wf(*final(store)),
        // configuration built: pick the construction step of the strategy
        flow.stage is AwaitConfig && event is ConfigBuilt ==> (
            *final(store) == *old(store)
            && r.0.stage is AwaitClient
            && (flow.request is New ==> (r.1 matches InitAction::BuildNewClient { start_height }
                && start_height == spec_scan_start(event.spec_latest_height())))
            && (flow.request is FromPhrase ==> (r.1 matches InitAction::BuildClientFromPhrase {
                seed_phrase,
                birthday,
                overwrite,
            } && seed_phrase@ == flow.request.spec_seed_phrase()
                && birthday == flow.request.spec_birthday()
                && overwrite == flow.request.spec_overwrite()))
            && (flow.request is Existing ==> r.1 is LoadClientFromDisk)
        ),
        flow.stage is AwaitConfig && event is ConfigFailed ==> (
            *final(store) == *old(store) && spec_failed(r, event.spec_failure_message())
        ),
        // client built: a fresh wallet still owes its seed; the others mint
        flow.stage is AwaitClient && event is ClientBuilt && flow.request is New ==> (
            *final(store) == *old(store) && r.0.stage is AwaitSeed && r.1 is FetchSeed
        ),
        flow.stage is AwaitClient && event is ClientBuilt && !(flow.request is New) ==> (
            *final(store) == spec_minted(*old(store)).0
            && r.0.stage is AwaitMonitor
            && r.0.stage.spec_monitor_handle() == spec_minted(*old(store)).1
            && r.0.stage.spec_monitor_payload() == "OK"@
            && (r.1 matches InitAction::StartMonitor { handle } && handle == spec_minted(
                *old(store),
            ).1)
        ),
        flow.stage is AwaitClient && event is ClientFailed ==> (
            *final(store) == *old(store) && spec_failed(r, event.spec_failure_message())
        ),
        // seed fetched: the fresh wallet mints and owes the seed as reply
        flow.stage is AwaitSeed && event is SeedFetched ==> (
            *final(store) == spec_minted(*old(store)).0
            && r.0.stage is AwaitMonitor
            && r.0.stage.spec_monitor_handle() == spec_minted(*old(store)).1
            && r.0.stage.spec_monitor_payload() == event.spec_seed()
            && (r.1 matches InitAction::StartMonitor { handle } && handle == spec_minted(
                *old(store),
            ).1)
        ),
        flow.stage is AwaitSeed && event is SeedFailed ==> (
            *final(store) == *old(store) && spec_failed(r, event.spec_failure_message())
        ),
        // monitor running: publish the minted handle, replacing any prior one
        flow.stage is AwaitMonitor && event is MonitorStarted ==> (
            *final(store) == spec_published(*old(store), flow.stage.spec_monitor_handle())
            && final(store).slot == Some(flow.stage.spec_monitor_handle())
            && (old(store).slot matches Some(g) ==> g != flow.stage.spec_monitor_handle())
            && r.0.stage is Finished
            && (r.1 matches InitAction::Finish { reply } && reply@
                == flow.stage.spec_monitor_payload())
        ),
{
    let InitFlow { request, stage } = flow;
    match stage {
        InitStage::AwaitConfig => match event {
            InitEvent::ConfigBuilt { latest_height } => {
                let action = match &request {
                    InitRequest::New { .. } => {
                        let start_height: u64 = if latest_height >= SCAN_MARGIN {
                            latest_height - SCAN_MARGIN
                        } else {
                            0
                        };
                        InitAction::BuildNewClient { start_height }
                    },
                    InitRequest::FromPhrase { seed_phrase, birthday, overwrite, .. } => {
                        InitAction::BuildClientFromPhrase {
                            seed_phrase: seed_phrase.clone(),
                            birthday: *birthday,
                            overwrite: *overwrite,
                        }
                    },
                    InitRequest::Existing { .. } => InitAction::LoadClientFromDisk,
                };
                (InitFlow { request, stage: InitStage::AwaitClient }, action)
            },
            InitEvent::ConfigFailed { message } => {
                let reply = render_error(&BridgeError::Configuration { message });
                (InitFlow { request, stage: InitStage::Finished }, InitAction::Finish { reply })
            },
            _ => unreached(),
        },
        InitStage::AwaitClient => match event {
            InitEvent::ClientBuilt => {
                if matches!(request, InitRequest::New { .. }) {
                    (InitFlow { request, stage: InitStage::AwaitSeed }, InitAction::FetchSeed)
                } else {
                    let handle = store.mint();
                    let payload = String::from_str("OK");
                    (
                        InitFlow { request, stage: InitStage::AwaitMonitor { handle, payload } },
                        InitAction::StartMonitor { handle },
                    )
                }
            },
            InitEvent::ClientFailed { message } => {
                let error = if matches!(request, InitRequest::Existing { .. }) {
                    BridgeError::Disk { message }
                } else {
                    BridgeError::Construction { message }
                };
                let reply = render_error(&error);
                (InitFlow { request, stage: InitStage::Finished }, InitAction::Finish { reply })
            },
            _ => unreached(),
        },
        InitStage::AwaitSeed => match event {
            InitEvent::SeedFetched { seed } => {
                let handle = store.mint();
                (
                    InitFlow { request, stage: InitStage::AwaitMonitor { handle, payload: seed } },
                    InitAction::StartMonitor { handle },
                )
            },
            InitEvent::SeedFailed { message } => {
                let reply = render_error(&BridgeError::Collaborator { message });
                (InitFlow { request, stage: InitStage::Finished }, InitAction::Finish { reply })
            },
            _ => unreached(),
        },
        InitStage::AwaitMonitor { handle, payload } => match event {
            InitEvent::MonitorStarted => {
                store.set(handle);
                (
                    InitFlow { request, stage: InitStage::Finished },
                    InitAction::Finish { reply: payload },
                )
            },
            _ => unreached(),
        },
        InitStage::Finished => unreached(),
    }
}

/// Reports whether persisted wallet state exists on disk, as the collaborator
/// found it. A pure query: the store is read at most, never changed, and the
/// answer does not depend on it.
pub open spec fn spec_wallet_exists(store: SessionStore, persisted_on_disk: bool) -> bool {
    persisted_on_disk
}

/// The existence check of the call surface.
pub fn wallet_exists(store: &SessionStore, persisted_on_disk: bool) -> (r: bool)
    ensures
        r == spec_wallet_exists(*store, persisted_on_disk),
{
    persisted_on_disk
}

/// Tears the session down: empties the slot unconditionally, whatever it
/// held, and always acknowledges with `"OK"`.
pub fn deinitialize(store: &mut SessionStore) -> (r: String)
    ensures
        *final(store) == crate::store::spec_cleared(*old(store)),
        final(store).slot is None,
        final(store).wf(),
        r@ == "OK"@,
{
    store.clear();
    crate::error::ok_reply()
}

} // verus!

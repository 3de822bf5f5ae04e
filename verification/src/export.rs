//! One run of the export: which step follows which, and what each answer leads to. The steps
//! themselves (the login, the escrow, CloudKit) are carried out by the caller, who hands back what
//! came of them.

use vstd::prelude::*;

use crate::encoding::{sha256, sha256_digest};
use crate::logging::Checkpoint;
use crate::pipeline::{
    account_ids, account_of, bad_index, beacon_views, check_index, clone_devices, device_of,
    device_views, join_error, join_retries, join_verdict, joined, login_error, login_verdict,
    spd_entries, AccountIds, AccountView, AuthError, AuthFailure, BeaconExport, BeaconView,
    DeviceInfo, DeviceView, ErrorView, ExportOpts, Interact, JoinFailure, JoinFailureView,
    PipelineError, FAKE_SERIAL, MAX_JOIN_ATTEMPTS, TRUST_CIRCLE_SIGNATURE,
};
use crate::property_list::{value_entries, Entries};
use crate::records::{
    all_datable, assemble, assembled, change_views, law_each_accessory_has_its_own_name,
    law_every_change_is_planned, triage_all, triages, ChangeHeader, ChangeView, RecordNames,
    RecordNamesView, Records, RecordsView, Triage,
};
use crate::text::same_text;

verus! {

/// The escrow proxy to use where the account's configuration names none.
pub const DEFAULT_ESCROW_HOST: &'static str = "https://p97-escrowproxy.icloud.com:443";

/// What a run is waiting for.
#[derive(Clone, Copy, Debug, PartialEq, Eq, Structural)]
pub enum Stage {
    Login,
    Delegate,
    SetUp,
    Bottles,
    Device,
    Passcode,
    Join,
    Report,
    Container,
    ZoneKeys,
    Sync,
    Decode,
    Finished,
}

/// An escrow bottle: the serial of its device, and the metadata that the device recorded.
pub struct Bottle {
    pub serial: String,
    pub metadata: plist::Value,
}

/// An escrow bottle.
pub struct BottleView {
    pub serial: Seq<char>,
    pub entries: Entries,
}

impl View for Bottle {
    type V = BottleView;

    open spec fn view(&self) -> BottleView {
        BottleView { serial: self.serial@, entries: value_entries(self.metadata) }
    }
}

/// The bottles of a list.
pub open spec fn bottle_views(bottles: Seq<Bottle>) -> Seq<BottleView> {
    bottles.map_values(|b: Bottle| b@)
}

/// What came of a step.
pub enum Event {
    /// The login went through, and left these server-provided data.
    LoggedIn { spd: Option<plist::Dictionary> },
    LoginFailed { error: AuthError },
    /// The delegates came, with or without the one for MobileMe.
    Delegates { mobileme: bool },
    DelegatesFailed { text: String },
    /// The clients were set up, or the CloudKit state could not be made; the account's
    /// configuration names an escrow proxy, or the default one was used.
    ClientsSetUp { cloudkit: bool, host_named: bool },
    BottlesFetched { bottles: Vec<Bottle> },
    BottlesFailed { text: String },
    /// The position of the device that the user picked.
    DeviceChosen { choice: Result<usize, PipelineError> },
    PasscodeGiven { passcode: Result<String, PipelineError> },
    Joined,
    /// The join failed, with the last checkpoint that it had reached.
    JoinFailed { failure: JoinFailure, reached: Option<Checkpoint> },
    /// The user was told that the join failed for the device that was picked.
    Reported,
    ContainerOpened,
    ContainerFailed { text: String },
    ZoneKeysFetched,
    ZoneKeysFailed { text: String },
    /// The zones came, each with its changes.
    Synced { zones: Vec<Vec<ChangeHeader>> },
    /// The sync failed; Apple may have asked for a reset.
    SyncFailed { text: String, reset: bool },
    RecordsDecoded { records: Records },
    /// The records before the change at this position were decoded, and that one was not.
    DecodingFailed { at: usize, text: String },
}

/// What came of a step.
pub enum EventView {
    LoggedIn { spd: Option<Entries> },
    LoginFailed { kind: AuthFailure, text: Seq<char> },
    Delegates { mobileme: bool },
    DelegatesFailed { text: Seq<char> },
    ClientsSetUp { cloudkit: bool, host_named: bool },
    BottlesFetched { bottles: Seq<BottleView> },
    BottlesFailed { text: Seq<char> },
    DeviceChosen { choice: Result<nat, ErrorView> },
    PasscodeGiven { passcode: Result<Seq<char>, ErrorView> },
    Joined,
    JoinFailed { failure: JoinFailureView },
    Reported,
    ContainerOpened,
    ContainerFailed { text: Seq<char> },
    ZoneKeysFetched,
    ZoneKeysFailed { text: Seq<char> },
    Synced { zones: Seq<Seq<ChangeView>> },
    SyncFailed { text: Seq<char>, reset: bool },
    RecordsDecoded { records: RecordsView },
    DecodingFailed { at: nat, text: Seq<char> },
}

impl View for Event {
    type V = EventView;

    open spec fn view(&self) -> EventView {
        match self {
            Event::LoggedIn { spd } => EventView::LoggedIn { spd: spd_entries(*spd) },
            Event::LoginFailed { error } => EventView::LoginFailed {
                kind: error.kind,
                text: error.text@,
            },
            Event::Delegates { mobileme } => EventView::Delegates { mobileme: *mobileme },
            Event::DelegatesFailed { text } => EventView::DelegatesFailed { text: text@ },
            Event::ClientsSetUp { cloudkit, host_named } => EventView::ClientsSetUp {
                cloudkit: *cloudkit,
                host_named: *host_named,
            },
            Event::BottlesFetched { bottles } => EventView::BottlesFetched {
                bottles: bottle_views(bottles@),
            },
            Event::BottlesFailed { text } => EventView::BottlesFailed { text: text@ },
            Event::DeviceChosen { choice } => EventView::DeviceChosen {
                choice: match choice {
                    Ok(i) => Ok(*i as nat),
                    Err(e) => Err(e@),
                },
            },
            Event::PasscodeGiven { passcode } => EventView::PasscodeGiven {
                passcode: match passcode {
                    Ok(p) => Ok(p@),
                    Err(e) => Err(e@),
                },
            },
            Event::Joined => EventView::Joined,
            Event::JoinFailed { failure, reached } => EventView::JoinFailed {
                failure: failure.at(*reached),
            },
            Event::Reported => EventView::Reported,
            Event::ContainerOpened => EventView::ContainerOpened,
            Event::ContainerFailed { text } => EventView::ContainerFailed { text: text@ },
            Event::ZoneKeysFetched => EventView::ZoneKeysFetched,
            Event::ZoneKeysFailed { text } => EventView::ZoneKeysFailed { text: text@ },
            Event::Synced { zones } => EventView::Synced {
                zones: zones@.map_values(|z: Vec<ChangeHeader>| change_views(z@)),
            },
            Event::SyncFailed { text, reset } => EventView::SyncFailed {
                text: text@,
                reset: *reset,
            },
            Event::RecordsDecoded { records } => EventView::RecordsDecoded {
                records: records@,
            },
            Event::DecodingFailed { at, text } => EventView::DecodingFailed {
                at: *at as nat,
                text: text@,
            },
        }
    }
}

impl EventView {
    /// Whether every pairing date among decoded records is one that can be written.
    pub open spec fn datable(self) -> bool {
        match self {
            EventView::RecordsDecoded { records } => all_datable(records.masters),
            _ => true,
        }
    }
}

/// What is to be done next.
pub enum Action {
    /// Sign in, with the password's digest in place of the password.
    Login { apple_id: String, password_hash: Vec<u8>, anisette_url: String },
    FetchDelegates,
    /// Set up the keychain and CloudKit clients.
    SetUp { dsid: String, adsid: String, fallback_host: &'static str },
    FetchBottles,
    /// Let the user pick one of these devices.
    ChooseDevice { devices: Vec<DeviceInfo> },
    /// Tell the user that the join failed for the device that was picked. Nothing is asked yet.
    Report { error: &'static str, detail: String },
    /// Ask for the passcode of the device at this position.
    AskPasscode { index: usize },
    /// Join with the bottle at this position of the list that was fetched.
    Join { bottle: usize, passcode: String },
    OpenContainer,
    FetchZoneKeys,
    Sync,
    /// Decode the records of the first zone, as the entry for each change says.
    Decode { plan: Vec<Triage> },
    /// The run is over.
    Finish { result: Result<Vec<BeaconExport>, PipelineError> },
    /// The event answers nothing that was asked: nothing changes.
    Ignore,
}

/// What is to be done next.
pub enum ActionView {
    Login { apple_id: Seq<char>, password_hash: Seq<u8>, anisette_url: Seq<char> },
    FetchDelegates,
    SetUp { dsid: Seq<char>, adsid: Seq<char>, fallback_host: Seq<char> },
    FetchBottles,
    ChooseDevice { devices: Seq<DeviceView> },
    Report { error: Seq<char>, detail: Seq<char> },
    AskPasscode { index: int },
    Join { bottle: int, passcode: Seq<char> },
    OpenContainer,
    FetchZoneKeys,
    Sync,
    Decode { plan: Seq<Triage> },
    Finish { result: Result<Seq<BeaconView>, ErrorView> },
    Ignore,
}

impl View for Action {
    type V = ActionView;

    open spec fn view(&self) -> ActionView {
        match self {
            Action::Login { apple_id, password_hash, anisette_url } => ActionView::Login {
                apple_id: apple_id@,
                password_hash: password_hash@,
                anisette_url: anisette_url@,
            },
            Action::FetchDelegates => ActionView::FetchDelegates,
            Action::SetUp { dsid, adsid, fallback_host } => ActionView::SetUp {
                dsid: dsid@,
                adsid: adsid@,
                fallback_host: fallback_host@,
            },
            Action::FetchBottles => ActionView::FetchBottles,
            Action::ChooseDevice { devices } => ActionView::ChooseDevice {
                devices: device_views(devices@),
            },
            Action::Report { error, detail } => ActionView::Report {
                error: error@,
                detail: detail@,
            },
            Action::AskPasscode { index } => ActionView::AskPasscode { index: *index as int },
            Action::Join { bottle, passcode } => ActionView::Join {
                bottle: *bottle as int,
                passcode: passcode@,
            },
            Action::OpenContainer => ActionView::OpenContainer,
            Action::FetchZoneKeys => ActionView::FetchZoneKeys,
            Action::Sync => ActionView::Sync,
            Action::Decode { plan } => ActionView::Decode { plan: plan@ },
            Action::Finish { result } => ActionView::Finish {
                result: match result {
                    Ok(beacons) => Ok(beacon_views(beacons@)),
                    Err(e) => Err(e@),
                },
            },
            Action::Ignore => ActionView::Ignore,
        }
    }
}

/// A run of the export.
pub struct Export {
    stage: Stage,
    names: RecordNames,
    account: AccountIds,
    devices: Vec<DeviceInfo>,
    bottles: Vec<usize>,
    attempt: usize,
    chosen: usize,
    detail: String,
    resynced: bool,
    changes: Vec<ChangeHeader>,
}

/// A run of the export: what it waits for, the identifiers of the account, the devices that were
/// offered, where the bottle of each stands in the list that was fetched, which attempt at a
/// device is under way, which device was picked last, what the user is told of the last failed
/// join, whether the sync was repeated, and the changes that it brought.
pub struct ExportView {
    pub stage: Stage,
    pub names: RecordNamesView,
    pub account: AccountView,
    pub devices: Seq<DeviceView>,
    pub bottles: Seq<int>,
    pub attempt: int,
    pub chosen: int,
    pub detail: Seq<char>,
    pub resynced: bool,
    pub changes: Seq<ChangeView>,
}

impl View for Export {
    type V = ExportView;

    closed spec fn view(&self) -> ExportView {
        ExportView {
            stage: self.stage,
            names: self.names@,
            account: self.account@,
            devices: device_views(self.devices@),
            bottles: self.bottles@.map_values(|i: usize| i as int),
            attempt: self.attempt as int,
            chosen: self.chosen as int,
            detail: self.detail@,
            resynced: self.resynced,
            changes: change_views(self.changes@),
        }
    }
}

impl ExportView {
    /// Whether the run waits for an answer about a device.
    pub open spec fn joining(self) -> bool {
        ||| self.stage == Stage::Device
        ||| self.stage == Stage::Passcode
        ||| self.stage == Stage::Join
        ||| self.stage == Stage::Report
    }

    /// What holds of every run: each device has its bottle; while a device is sought there is one
    /// to offer and an attempt to spend; and a picked device is one of those offered.
    pub open spec fn valid(self) -> bool {
        &&& self.devices.len() == self.bottles.len()
        &&& self.joining() ==> self.devices.len() > 0 && 1 <= self.attempt <= MAX_JOIN_ATTEMPTS
        &&& self.stage == Stage::Passcode || self.stage == Stage::Join ==> 0 <= self.chosen
            < self.devices.len()
    }
}

/// The positions of the bottles that are not this tool's own.
pub open spec fn usable(bottles: Seq<BottleView>) -> Seq<int>
    decreases bottles.len(),
{
    if bottles.len() == 0 {
        Seq::empty()
    } else if bottles.last().serial != FAKE_SERIAL@ {
        usable(bottles.drop_last()).push(bottles.len() - 1)
    } else {
        usable(bottles.drop_last())
    }
}

/// The devices of the bottles at these positions.
pub open spec fn devices_at(bottles: Seq<BottleView>, positions: Seq<int>) -> Seq<DeviceView> {
    positions.map_values(|i: int| device_of(bottles[i].serial, bottles[i].entries))
}

/// The run is over.
pub open spec fn over(s: ExportView, result: Result<Seq<BeaconView>, ErrorView>) -> (
    ExportView,
    ActionView,
) {
    (ExportView { stage: Stage::Finished, ..s }, ActionView::Finish { result })
}

/// The run is over, with a failure of Apple's.
pub open spec fn apple_failed(s: ExportView, text: Seq<char>) -> (ExportView, ActionView) {
    over(s, Err(ErrorView::Apple(text)))
}

/// The run goes on with another stage.
pub open spec fn onward(s: ExportView, stage: Stage, action: ActionView) -> (
    ExportView,
    ActionView,
) {
    (ExportView { stage, ..s }, action)
}

/// What follows on the login.
pub open spec fn after_login(s: ExportView, e: EventView) -> (ExportView, ActionView) {
    match e {
        EventView::LoggedIn { spd } => match account_of(spd) {
            Ok(account) => onward(
                ExportView { account, ..s },
                Stage::Delegate,
                ActionView::FetchDelegates,
            ),
            Err(error) => over(s, Err(error)),
        },
        EventView::LoginFailed { kind, text } => over(s, Err(login_verdict(kind, text))),
        _ => (s, ActionView::Ignore),
    }
}

/// What follows on the delegates.
pub open spec fn after_delegates(s: ExportView, e: EventView) -> (ExportView, ActionView) {
    match e {
        EventView::Delegates { mobileme } => if mobileme {
            onward(
                s,
                Stage::SetUp,
                ActionView::SetUp {
                    dsid: s.account.dsid,
                    adsid: s.account.adsid,
                    fallback_host: DEFAULT_ESCROW_HOST@,
                },
            )
        } else {
            apple_failed(s, "No MobileMe delegate returned"@)
        },
        EventView::DelegatesFailed { text } => apple_failed(
            s,
            "MobileMe delegate failed: "@ + text,
        ),
        _ => (s, ActionView::Ignore),
    }
}

/// What follows on the clients.
pub open spec fn after_set_up(s: ExportView, e: EventView) -> (ExportView, ActionView) {
    match e {
        EventView::ClientsSetUp { cloudkit, host_named: _ } => if cloudkit {
            onward(s, Stage::Bottles, ActionView::FetchBottles)
        } else {
            apple_failed(s, "Failed to create CloudKitState"@)
        },
        _ => (s, ActionView::Ignore),
    }
}

/// What follows on the bottles: the devices of those that are not this tool's own are offered.
pub open spec fn after_bottles(s: ExportView, e: EventView) -> (ExportView, ActionView) {
    match e {
        EventView::BottlesFetched { bottles } => {
            let positions = usable(bottles);
            let devices = devices_at(bottles, positions);
            if positions.len() == 0 {
                over(s, Err(ErrorView::NoBottles))
            } else {
                onward(
                    ExportView { devices, bottles: positions, attempt: 1, ..s },
                    Stage::Device,
                    ActionView::ChooseDevice { devices },
                )
            }
        },
        EventView::BottlesFailed { text } => apple_failed(
            s,
            "Fetching escrow bottles failed: "@ + text,
        ),
        _ => (s, ActionView::Ignore),
    }
}

/// What follows on the choice of a device.
pub open spec fn after_choice(s: ExportView, e: EventView) -> (ExportView, ActionView) {
    match e {
        EventView::DeviceChosen { choice } => match choice {
            Ok(index) => if index < s.devices.len() {
                onward(
                    ExportView { chosen: index as int, ..s },
                    Stage::Passcode,
                    ActionView::AskPasscode { index: index as int },
                )
            } else {
                over(s, Err(bad_index(index, s.devices.len())))
            },
            Err(error) => over(s, Err(error)),
        },
        _ => (s, ActionView::Ignore),
    }
}

/// What follows on the passcode.
pub open spec fn after_passcode(s: ExportView, e: EventView) -> (ExportView, ActionView) {
    match e {
        EventView::PasscodeGiven { passcode } => match passcode {
            Ok(p) => onward(
                s,
                Stage::Join,
                ActionView::Join { bottle: s.bottles[s.chosen], passcode: p },
            ),
            Err(error) => over(s, Err(error)),
        },
        _ => (s, ActionView::Ignore),
    }
}

/// What follows on the join: a signature that failed is a matter of the device that was picked, so
/// the user is told, to be asked for another one, while that can help.
pub open spec fn after_join(s: ExportView, e: EventView) -> (ExportView, ActionView) {
    match e {
        EventView::Joined => onward(s, Stage::Container, ActionView::OpenContainer),
        EventView::JoinFailed { failure } => {
            let verdict = join_verdict(failure, s.devices.len());
            if join_retries(failure, s.attempt as nat, s.devices.len()) {
                onward(
                    ExportView { attempt: s.attempt + 1, detail: verdict.message(), ..s },
                    Stage::Report,
                    ActionView::Report {
                        error: TRUST_CIRCLE_SIGNATURE@,
                        detail: verdict.message(),
                    },
                )
            } else {
                over(s, Err(verdict))
            }
        },
        _ => (s, ActionView::Ignore),
    }
}

/// What follows once the user has been told of a failed join: only then another device is asked
/// for, out of the same list.
pub open spec fn after_report(s: ExportView, e: EventView) -> (ExportView, ActionView) {
    match e {
        EventView::Reported => onward(
            s,
            Stage::Device,
            ActionView::ChooseDevice { devices: s.devices },
        ),
        _ => (s, ActionView::Ignore),
    }
}

/// What follows on the CloudKit container.
pub open spec fn after_container(s: ExportView, e: EventView) -> (ExportView, ActionView) {
    match e {
        EventView::ContainerOpened => onward(s, Stage::ZoneKeys, ActionView::FetchZoneKeys),
        EventView::ContainerFailed { text } => apple_failed(
            s,
            "CloudKit container init failed: "@ + text,
        ),
        _ => (s, ActionView::Ignore),
    }
}

/// What follows on the keys of the zone.
pub open spec fn after_zone_keys(s: ExportView, e: EventView) -> (ExportView, ActionView) {
    match e {
        EventView::ZoneKeysFetched => onward(s, Stage::Sync, ActionView::Sync),
        EventView::ZoneKeysFailed { text } => apple_failed(
            s,
            "Zone encryption config failed: "@ + text,
        ),
        _ => (s, ActionView::Ignore),
    }
}

/// What follows on the sync: it is repeated once where Apple asks for a reset.
pub open spec fn after_sync(s: ExportView, e: EventView) -> (ExportView, ActionView) {
    match e {
        EventView::Synced { zones } => if zones.len() == 0 {
            apple_failed(s, "CloudKit returned no BeaconStore zone"@)
        } else {
            onward(
                ExportView { changes: zones[0], ..s },
                Stage::Decode,
                ActionView::Decode { plan: triages(zones[0], s.names) },
            )
        },
        EventView::SyncFailed { text, reset } => if reset && !s.resynced {
            onward(ExportView { resynced: true, ..s }, Stage::Sync, ActionView::Sync)
        } else {
            apple_failed(s, "CloudKit fetch failed: "@ + text)
        },
        _ => (s, ActionView::Ignore),
    }
}

/// What follows on the decoded records.
pub open spec fn after_decoding(s: ExportView, e: EventView) -> (ExportView, ActionView) {
    match e {
        EventView::RecordsDecoded { records } => over(s, Ok(assembled(records))),
        EventView::DecodingFailed { at: _, text } => apple_failed(s, "PCS keys failed: "@ + text),
        _ => (s, ActionView::Ignore),
    }
}

/// What a run does on an event: where it goes, and what is to be done next. An event that answers
/// nothing that was asked changes nothing.
pub open spec fn transition(s: ExportView, e: EventView) -> (ExportView, ActionView) {
    match s.stage {
        Stage::Login => after_login(s, e),
        Stage::Delegate => after_delegates(s, e),
        Stage::SetUp => after_set_up(s, e),
        Stage::Bottles => after_bottles(s, e),
        Stage::Device => after_choice(s, e),
        Stage::Passcode => after_passcode(s, e),
        Stage::Join => after_join(s, e),
        Stage::Report => after_report(s, e),
        Stage::Container => after_container(s, e),
        Stage::ZoneKeys => after_zone_keys(s, e),
        Stage::Sync => after_sync(s, e),
        Stage::Decode => after_decoding(s, e),
        Stage::Finished => (s, ActionView::Ignore),
    }
}

/// A run before its first step.
pub open spec fn fresh(names: RecordNamesView) -> ExportView {
    ExportView {
        stage: Stage::Login,
        names,
        account: AccountView { dsid: Seq::empty(), adsid: Seq::empty() },
        devices: Seq::empty(),
        bottles: Seq::empty(),
        attempt: 0,
        chosen: 0,
        detail: Seq::empty(),
        resynced: false,
        changes: Seq::empty(),
    }
}

/// The positions of the bottles that are not this tool's own, and their devices.
pub(crate) fn usable_devices(bottles: &Vec<Bottle>) -> (r: (Vec<usize>, Vec<DeviceInfo>))
    ensures
        r.0@.map_values(|i: usize| i as int) == usable(bottle_views(bottles@)),
        device_views(r.1@) == devices_at(
            bottle_views(bottles@),
            usable(bottle_views(bottles@)),
        ),
        r.1@.len() <= bottles@.len(),
{
    let ghost views = bottle_views(bottles@);
    let mut positions: Vec<usize> = Vec::new();
    let mut devices: Vec<DeviceInfo> = Vec::new();
    assert(positions@.map_values(|i: usize| i as int) =~= usable(views.take(0)));
    assert(device_views(devices@) =~= devices_at(views, usable(views.take(0))));
    for k in 0..bottles.len()
        invariant
            views == bottle_views(bottles@),
            positions@.map_values(|i: usize| i as int) == usable(views.take(k as int)),
            device_views(devices@) == devices_at(views, usable(views.take(k as int))),
            devices@.len() <= k,
    {
        let ghost so_far = usable(views.take(k as int));
        let ghost positions_before = positions@;
        let ghost devices_before = devices@;
        assert(views.take(k + 1).drop_last() =~= views.take(k as int));
        assert(views.take(k + 1).last() == bottles@[k as int]@);
        let bottle = &bottles[k];
        if !same_text(bottle.serial.as_str(), FAKE_SERIAL) {
            let device = DeviceInfo::from_metadata(bottle.serial.as_str(), &bottle.metadata);
            positions.push(k);
            devices.push(device);
            assert(positions@.map_values(|i: usize| i as int) =~= positions_before.map_values(
                |i: usize| i as int,
            ).push(k as int));
            assert(device_views(devices@) =~= device_views(devices_before).push(device@));
            assert(devices_at(views, so_far.push(k as int)) =~= devices_at(views, so_far).push(
                device@,
            ));
        }
    }
    assert(views.take(views.len() as int) =~= views);
    (positions, devices)
}

impl Export {
    #[verifier::type_invariant]
    spec fn sound(self) -> bool {
        self@.valid()
    }

    /// Begins a run: the first step is the login.
    pub fn start(opts: &ExportOpts, names: RecordNames) -> (r: (Export, Action))
        ensures
            r.0@ == fresh(names@),
            r.1@ == (ActionView::Login {
                apple_id: opts.apple_id@,
                password_hash: sha256(vstd::utf8::encode_utf8(opts.password@)),
                anisette_url: opts.anisette_url@,
            }),
    {
        let export = Export {
            stage: Stage::Login,
            names,
            account: AccountIds { dsid: String::new(), adsid: String::new() },
            devices: Vec::new(),
            bottles: Vec::new(),
            attempt: 0,
            chosen: 0,
            detail: String::new(),
            resynced: false,
            changes: Vec::new(),
        };
        assert(export@.changes =~= Seq::empty());
        assert(export@.devices =~= Seq::empty());
        assert(export@.bottles =~= Seq::empty());
        let action = Action::Login {
            apple_id: opts.apple_id.clone(),
            password_hash: sha256_digest(opts.password.as_str().as_bytes()),
            anisette_url: opts.anisette_url.clone(),
        };
        (export, action)
    }

    /// What the run waits for.
    pub fn stage(&self) -> (r: Stage)
        ensures
            r == self@.stage,
            self@.valid(),
    {
        proof {
            use_type_invariant(self);
        }
        self.stage
    }

    /// The names of the record types.
    pub fn names(&self) -> (r: &RecordNames)
        ensures
            r@ == self@.names,
    {
        &self.names
    }

    /// The devices that were offered.
    pub fn devices(&self) -> (r: &Vec<DeviceInfo>)
        ensures
            device_views(r@) == self@.devices,
    {
        &self.devices
    }

    /// Which attempt at a device is under way.
    pub fn attempt(&self) -> (r: usize)
        ensures
            r == self@.attempt,
    {
        self.attempt
    }

    /// The position of the device that was picked last.
    pub fn chosen(&self) -> (r: usize)
        ensures
            r == self@.chosen,
    {
        self.chosen
    }

    /// Whether the sync was repeated.
    pub fn resynced(&self) -> (r: bool)
        ensures
            r == self@.resynced,
    {
        self.resynced
    }

    /// The changes that the sync brought.
    pub fn changes(&self) -> (r: &Vec<ChangeHeader>)
        ensures
            change_views(r@) == self@.changes,
    {
        &self.changes
    }

    fn over(self, result: Result<Vec<BeaconExport>, PipelineError>) -> (r: (Export, Action))
        ensures
            (r.0@, r.1@) == over(
                self@,
                match result {
                    Ok(beacons) => Ok(beacon_views(beacons@)),
                    Err(e) => Err(e@),
                },
            ),
    {
        proof {
            use_type_invariant(&self);
        }
        (Export { stage: Stage::Finished, ..self }, Action::Finish { result })
    }

    fn apple_failed(self, start: &str, text: &str) -> (r: (Export, Action))
        ensures
            (r.0@, r.1@) == apple_failed(self@, start@ + text@),
    {
        let message = joined(start, text);
        self.over(Err(PipelineError::Apple(message)))
    }

    fn onward(self, stage: Stage, action: Action) -> (r: (Export, Action))
        requires
            stage != Stage::Device && stage != Stage::Passcode && stage != Stage::Join && stage
                != Stage::Report,
        ensures
            (r.0@, r.1@) == onward(self@, stage, action@),
    {
        proof {
            use_type_invariant(&self);
        }
        (Export { stage, ..self }, action)
    }

    fn on_login(self, event: Event) -> (r: (Export, Action))
        ensures
            (r.0@, r.1@) == after_login(self@, event@),
    {
        proof {
            use_type_invariant(&self);
        }
        match event {
            Event::LoggedIn { spd } => match account_ids(&spd) {
                Ok(account) => {
                    let next = Export { stage: Stage::Delegate, account, ..self };
                    (next, Action::FetchDelegates)
                },
                Err(error) => self.over(Err(error)),
            },
            Event::LoginFailed { error } => {
                let failure = login_error(&error);
                self.over(Err(failure))
            },
            _ => (self, Action::Ignore),
        }
    }

    fn on_delegates(self, event: Event) -> (r: (Export, Action))
        ensures
            (r.0@, r.1@) == after_delegates(self@, event@),
    {
        match event {
            Event::Delegates { mobileme } => {
                if mobileme {
                    let action = Action::SetUp {
                        dsid: self.account.dsid.clone(),
                        adsid: self.account.adsid.clone(),
                        fallback_host: DEFAULT_ESCROW_HOST,
                    };
                    self.onward(Stage::SetUp, action)
                } else {
                    self.over(
                        Err(PipelineError::Apple("No MobileMe delegate returned".to_string())),
                    )
                }
            },
            Event::DelegatesFailed { text } => self.apple_failed(
                "MobileMe delegate failed: ",
                text.as_str(),
            ),
            _ => (self, Action::Ignore),
        }
    }

    fn on_set_up(self, event: Event) -> (r: (Export, Action))
        ensures
            (r.0@, r.1@) == after_set_up(self@, event@),
    {
        match event {
            Event::ClientsSetUp { cloudkit, host_named: _ } => {
                if cloudkit {
                    self.onward(Stage::Bottles, Action::FetchBottles)
                } else {
                    self.over(
                        Err(PipelineError::Apple("Failed to create CloudKitState".to_string())),
                    )
                }
            },
            _ => (self, Action::Ignore),
        }
    }

    fn on_bottles(self, event: Event) -> (r: (Export, Action))
        ensures
            (r.0@, r.1@) == after_bottles(self@, event@),
    {
        match event {
            Event::BottlesFetched { bottles } => {
                let (positions, devices) = usable_devices(&bottles);
                assert(positions@.map_values(|i: usize| i as int).len() == positions@.len());
                assert(device_views(devices@).len() == devices@.len());
                if positions.len() == 0 {
                    self.over(Err(PipelineError::NoBottles))
                } else {
                    let offered = clone_devices(devices.as_slice());
                    let next = Export {
                        stage: Stage::Device,
                        devices,
                        bottles: positions,
                        attempt: 1,
                        ..self
                    };
                    (next, Action::ChooseDevice { devices: offered })
                }
            },
            Event::BottlesFailed { text } => self.apple_failed(
                "Fetching escrow bottles failed: ",
                text.as_str(),
            ),
            _ => (self, Action::Ignore),
        }
    }

    fn on_choice(self, event: Event) -> (r: (Export, Action))
        requires
            self@.stage == Stage::Device,
        ensures
            (r.0@, r.1@) == after_choice(self@, event@),
    {
        proof {
            use_type_invariant(&self);
        }
        match event {
            Event::DeviceChosen { choice } => match choice {
                Ok(index) => match check_index(index, self.devices.len()) {
                    Ok(chosen) => {
                        let next = Export { stage: Stage::Passcode, chosen, ..self };
                        (next, Action::AskPasscode { index: chosen })
                    },
                    Err(error) => self.over(Err(error)),
                },
                Err(error) => self.over(Err(error)),
            },
            _ => (self, Action::Ignore),
        }
    }

    fn on_passcode(self, event: Event) -> (r: (Export, Action))
        requires
            self@.stage == Stage::Passcode,
        ensures
            (r.0@, r.1@) == after_passcode(self@, event@),
    {
        proof {
            use_type_invariant(&self);
        }
        match event {
            Event::PasscodeGiven { passcode } => match passcode {
                Ok(passcode) => {
                    let bottle = self.bottles[self.chosen];
                    (Export { stage: Stage::Join, ..self }, Action::Join { bottle, passcode })
                },
                Err(error) => self.over(Err(error)),
            },
            _ => (self, Action::Ignore),
        }
    }

    fn on_join(self, event: Event) -> (r: (Export, Action))
        requires
            self@.stage == Stage::Join,
        ensures
            (r.0@, r.1@) == after_join(self@, event@),
    {
        proof {
            use_type_invariant(&self);
        }
        match event {
            Event::Joined => self.onward(Stage::Container, Action::OpenContainer),
            Event::JoinFailed { failure, reached } => {
                let error = join_error(&failure, &reached, self.devices.len());
                if failure.bad_msg && self.attempt < MAX_JOIN_ATTEMPTS && self.devices.len() >= 2 {
                    let detail = error.message();
                    let action = Action::Report {
                        error: TRUST_CIRCLE_SIGNATURE,
                        detail: detail.clone(),
                    };
                    let attempt = self.attempt + 1;
                    (Export { stage: Stage::Report, attempt, detail, ..self }, action)
                } else {
                    self.over(Err(error))
                }
            },
            _ => (self, Action::Ignore),
        }
    }

    fn on_report(self, event: Event) -> (r: (Export, Action))
        requires
            self@.stage == Stage::Report,
        ensures
            (r.0@, r.1@) == after_report(self@, event@),
    {
        proof {
            use_type_invariant(&self);
        }
        match event {
            Event::Reported => {
                let devices = clone_devices(self.devices.as_slice());
                (Export { stage: Stage::Device, ..self }, Action::ChooseDevice { devices })
            },
            _ => (self, Action::Ignore),
        }
    }

    fn on_container(self, event: Event) -> (r: (Export, Action))
        ensures
            (r.0@, r.1@) == after_container(self@, event@),
    {
        match event {
            Event::ContainerOpened => self.onward(Stage::ZoneKeys, Action::FetchZoneKeys),
            Event::ContainerFailed { text } => self.apple_failed(
                "CloudKit container init failed: ",
                text.as_str(),
            ),
            _ => (self, Action::Ignore),
        }
    }

    fn on_zone_keys(self, event: Event) -> (r: (Export, Action))
        ensures
            (r.0@, r.1@) == after_zone_keys(self@, event@),
    {
        match event {
            Event::ZoneKeysFetched => self.onward(Stage::Sync, Action::Sync),
            Event::ZoneKeysFailed { text } => self.apple_failed(
                "Zone encryption config failed: ",
                text.as_str(),
            ),
            _ => (self, Action::Ignore),
        }
    }

    fn on_sync(self, event: Event) -> (r: (Export, Action))
        ensures
            (r.0@, r.1@) == after_sync(self@, event@),
    {
        proof {
            use_type_invariant(&self);
        }
        match event {
            Event::Synced { zones } => {
                if zones.len() == 0 {
                    self.over(
                        Err(
                            PipelineError::Apple(
                                "CloudKit returned no BeaconStore zone".to_string(),
                            ),
                        ),
                    )
                } else {
                    let mut zones = zones;
                    let changes = zones.remove(0);
                    let plan = triage_all(&changes, &self.names);
                    (Export { stage: Stage::Decode, changes, ..self }, Action::Decode { plan })
                }
            },
            Event::SyncFailed { text, reset } => {
                if reset && !self.resynced {
                    (Export { stage: Stage::Sync, resynced: true, ..self }, Action::Sync)
                } else {
                    self.apple_failed("CloudKit fetch failed: ", text.as_str())
                }
            },
            _ => (self, Action::Ignore),
        }
    }

    fn on_decoding(self, event: Event) -> (r: (Export, Action))
        requires
            event@.datable(),
        ensures
            (r.0@, r.1@) == after_decoding(self@, event@),
    {
        match event {
            Event::RecordsDecoded { records } => {
                let beacons = assemble(records);
                self.over(Ok(beacons))
            },
            Event::DecodingFailed { at: _, text } => self.apple_failed(
                "PCS keys failed: ",
                text.as_str(),
            ),
            _ => (self, Action::Ignore),
        }
    }

    /// Lets the user pick one of the devices, where a run waits for that, and says what came of it.
    /// At any other stage nobody is asked.
    pub fn choose_device<I: Interact + ?Sized>(&self, io: &I) -> (r: Option<Event>)
        ensures
            r is Some <==> self@.stage == Stage::Device,
            r is Some ==> exists|offered: &[DeviceInfo], choice: Result<usize, PipelineError>|
                #![trigger call_ensures(I::choose_bottle, (io, offered), choice)]
                {
                    &&& device_views(offered@) == self@.devices
                    &&& call_ensures(I::choose_bottle, (io, offered), choice)
                    &&& r->0 == (Event::DeviceChosen { choice })
                },
    {
        if self.stage != Stage::Device {
            return None;
        }
        let offered = self.devices.as_slice();
        let choice = io.choose_bottle(offered);
        assert(device_views(offered@) == self@.devices);
        assert(call_ensures(I::choose_bottle, (io, offered), choice));
        Some(Event::DeviceChosen { choice })
    }

    /// Tells the user why the join failed for the device that was picked, where a run waits for
    /// that. At any other stage nobody is told. The question for another device comes later, once
    /// the run has taken in that the user was told.
    pub fn report_failure<I: Interact + ?Sized>(&self, io: &I) -> (r: Option<Event>)
        ensures
            r is Some <==> self@.stage == Stage::Report,
            r is Some ==> r->0 == Event::Reported && exists|error: &'static str, detail: &str|
                #![trigger call_ensures(I::join_retryable, (io, error, detail), ())]
                {
                    &&& error@ == TRUST_CIRCLE_SIGNATURE@
                    &&& detail@ == self@.detail
                    &&& call_ensures(I::join_retryable, (io, error, detail), ())
                },
    {
        if self.stage != Stage::Report {
            return None;
        }
        let detail = self.detail.as_str();
        io.join_retryable(TRUST_CIRCLE_SIGNATURE, detail);
        assert(call_ensures(I::join_retryable, (io, TRUST_CIRCLE_SIGNATURE, detail), ()));
        Some(Event::Reported)
    }

    /// Asks for the passcode of the device that was picked, where a run waits for that, and says
    /// what came of it. At any other stage nobody is asked.
    pub fn ask_passcode<I: Interact + ?Sized>(&self, io: &I) -> (r: Option<Event>)
        ensures
            r is Some <==> self@.stage == Stage::Passcode,
            r is Some ==> exists|passcode: Result<String, PipelineError>|
                #![trigger call_ensures(I::get_passcode, (io,), passcode)]
                {
                    &&& call_ensures(I::get_passcode, (io,), passcode)
                    &&& r->0 == (Event::PasscodeGiven { passcode })
                },
    {
        if self.stage != Stage::Passcode {
            return None;
        }
        let passcode = io.get_passcode();
        assert(call_ensures(I::get_passcode, (io,), passcode));
        Some(Event::PasscodeGiven { passcode })
    }

    /// Takes in what came of a step, and says what is to be done next.
    pub fn step(self, event: Event) -> (r: (Export, Action))
        requires
            event@.datable(),
        ensures
            (r.0@, r.1@) == transition(self@, event@),
    {
        match self.stage {
            Stage::Login => self.on_login(event),
            Stage::Delegate => self.on_delegates(event),
            Stage::SetUp => self.on_set_up(event),
            Stage::Bottles => self.on_bottles(event),
            Stage::Device => self.on_choice(event),
            Stage::Passcode => self.on_passcode(event),
            Stage::Join => self.on_join(event),
            Stage::Report => self.on_report(event),
            Stage::Container => self.on_container(event),
            Stage::ZoneKeys => self.on_zone_keys(event),
            Stage::Sync => self.on_sync(event),
            Stage::Decode => self.on_decoding(event),
            Stage::Finished => (self, Action::Ignore),
        }
    }
}

/// What a run says is to be done, event by event.
pub open spec fn actions(s: ExportView, events: Seq<EventView>) -> Seq<ActionView>
    decreases events.len(),
{
    if events.len() == 0 {
        Seq::empty()
    } else {
        let (next, action) = transition(s, events[0]);
        seq![action] + actions(next, events.drop_first())
    }
}

/// How many of these are joins.
pub open spec fn joins(done: Seq<ActionView>) -> nat
    decreases done.len(),
{
    if done.len() == 0 {
        0
    } else {
        (if done[0] is Join {
            1nat
        } else {
            0
        }) + joins(done.drop_first())
    }
}

/// How many of these are syncs.
pub open spec fn syncs(done: Seq<ActionView>) -> nat
    decreases done.len(),
{
    if done.len() == 0 {
        0
    } else {
        (if done[0] is Sync {
            1nat
        } else {
            0
        }) + syncs(done.drop_first())
    }
}

impl ExportView {
    /// How many joins a run may still ask for.
    pub open spec fn joins_left(self) -> int {
        match self.stage {
            Stage::Login | Stage::Delegate | Stage::SetUp | Stage::Bottles =>
                MAX_JOIN_ATTEMPTS as int,
            Stage::Report | Stage::Device | Stage::Passcode => MAX_JOIN_ATTEMPTS - self.attempt + 1,
            Stage::Join => MAX_JOIN_ATTEMPTS - self.attempt,
            _ => 0,
        }
    }

    /// How many syncs a run may still ask for.
    pub open spec fn syncs_left(self) -> int {
        match self.stage {
            Stage::Decode | Stage::Finished => 0,
            Stage::Sync => if self.resynced {
                0
            } else {
                1
            },
            _ => 2,
        }
    }
}

/// A run starts out valid, and stays so whatever happens.
pub proof fn law_runs_stay_valid(names: RecordNamesView, s: ExportView, e: EventView)
    ensures
        fresh(names).valid(),
        s.valid() ==> transition(s, e).0.valid(),
{
    match e {
        EventView::BottlesFetched { bottles } => {
            assert(devices_at(bottles, usable(bottles)).len() == usable(bottles).len());
        },
        _ => {},
    }
}

/// However a run goes, no more joins are asked for than there are attempts, and the sync is
/// repeated once at most.
pub proof fn law_attempts_are_bounded(names: RecordNamesView, events: Seq<EventView>)
    ensures
        joins(actions(fresh(names), events)) <= MAX_JOIN_ATTEMPTS,
        syncs(actions(fresh(names), events)) <= 2,
{
    law_runs_stay_valid(names, fresh(names), EventView::Joined);
    lemma_attempts_left(fresh(names), events);
}

proof fn lemma_attempts_left(s: ExportView, events: Seq<EventView>)
    requires
        s.valid(),
    ensures
        joins(actions(s, events)) <= s.joins_left(),
        syncs(actions(s, events)) <= s.syncs_left(),
    decreases events.len(),
{
    if events.len() > 0 {
        let (next, action) = transition(s, events[0]);
        let rest = actions(next, events.drop_first());
        law_runs_stay_valid(s.names, s, events[0]);
        lemma_attempts_left(next, events.drop_first());
        assert((seq![action] + rest)[0] == action);
        assert((seq![action] + rest).drop_first() =~= rest);
    }
}

/// A run that is over stays over: nothing is done for it any more.
pub proof fn law_finished_is_final(s: ExportView, e: EventView, result: Result<
    Seq<BeaconView>,
    ErrorView,
>)
    ensures
        transition(s, e).1 == (ActionView::Finish { result }) ==> transition(s, e).0.stage
            == Stage::Finished,
        s.stage == Stage::Finished ==> transition(s, e) == (s, ActionView::Ignore),
{
}

/// The user is told of a failed join exactly where a signature check failed, an attempt is left,
/// and there is another device; once they have been told, they are asked for another one. The same
/// devices are then offered again, and the login is kept.
pub proof fn law_only_a_failed_signature_is_retried(s: ExportView, e: EventView)
    requires
        s.valid(),
    ensures
        transition(s, e).1 is Report <==> {
            &&& s.stage == Stage::Join
            &&& s.attempt < MAX_JOIN_ATTEMPTS
            &&& s.devices.len() >= 2
            &&& e matches EventView::JoinFailed { failure }
            &&& failure.bad_msg
        },
        transition(s, e).1 is Report ==> {
            let told = transition(s, e).0;
            let (next, asked) = transition(told, EventView::Reported);
            &&& transition(s, e).1 == (ActionView::Report {
                error: TRUST_CIRCLE_SIGNATURE@,
                detail: told.detail,
            })
            &&& told.stage == Stage::Report
            &&& asked == (ActionView::ChooseDevice { devices: s.devices })
            &&& next.stage == Stage::Device
            &&& next.attempt == s.attempt + 1
            &&& next.devices == s.devices && next.bottles == s.bottles && next.account == s.account
        },
{
}

/// What a user sees of a run: the questions for a device, the joins and the reports, in order.
pub open spec fn dialogue(done: Seq<ActionView>) -> Seq<ActionView>
    decreases done.len(),
{
    if done.len() == 0 {
        Seq::empty()
    } else {
        let rest = dialogue(done.drop_first());
        if done[0] is ChooseDevice || done[0] is Join || done[0] is Report {
            seq![done[0]] + rest
        } else {
            rest
        }
    }
}

/// Whether an action is the one whose turn it is: a question for a device, then a join, then a
/// report, and so on.
pub open spec fn in_turn(action: ActionView, turn: int) -> bool {
    if turn % 3 == 0 {
        action is ChooseDevice
    } else if turn % 3 == 1 {
        action is Join
    } else {
        action is Report
    }
}

impl ExportView {
    /// How many questions, joins and reports lie behind a run that may still come to one.
    pub open spec fn turns(self) -> int {
        match self.stage {
            Stage::Report => 3 * (self.attempt - 1),
            Stage::Device | Stage::Passcode => 3 * (self.attempt - 1) + 1,
            Stage::Join => 3 * (self.attempt - 1) + 2,
            _ => 0,
        }
    }

    /// Whether a question for a device, a join or a report can still come.
    pub open spec fn may_ask(self) -> bool {
        match self.stage {
            Stage::Login | Stage::Delegate | Stage::SetUp | Stage::Bottles => true,
            _ => self.joining(),
        }
    }
}

/// However a run goes, the user is asked for a device, the join is made, and the user is told of
/// its failure, strictly in that order: between one join and the next lie exactly one report and,
/// after it, exactly one question, out of the same devices. There are three joins and two reports
/// at most.
pub proof fn law_one_report_before_each_retry(names: RecordNamesView, events: Seq<EventView>)
    ensures
        ({
            let seen = dialogue(actions(fresh(names), events));
            &&& seen.len() <= 3 * MAX_JOIN_ATTEMPTS - 1
            &&& forall|k: int| 0 <= k < seen.len() ==> in_turn(#[trigger] seen[k], k)
            &&& forall|i: int, k: int|
                0 <= i < seen.len() && 0 <= k < seen.len() && #[trigger] seen[i] is ChooseDevice
                    && #[trigger] seen[k] is ChooseDevice ==> seen[i] == seen[k]
        }),
{
    law_runs_stay_valid(names, fresh(names), EventView::Joined);
    lemma_turns(fresh(names), events);
}

proof fn lemma_turns(s: ExportView, events: Seq<EventView>)
    requires
        s.valid(),
    ensures
        ({
            let seen = dialogue(actions(s, events));
            &&& !s.may_ask() ==> seen.len() == 0
            &&& s.turns() + seen.len() <= 3 * MAX_JOIN_ATTEMPTS - 1
            &&& forall|k: int| 0 <= k < seen.len() ==> in_turn(#[trigger] seen[k], s.turns() + k)
            &&& s.joining() ==> forall|k: int|
                0 <= k < seen.len() && #[trigger] seen[k] is ChooseDevice ==> seen[k] == (
                ActionView::ChooseDevice { devices: s.devices })
            &&& forall|i: int, k: int|
                0 <= i < seen.len() && 0 <= k < seen.len() && #[trigger] seen[i] is ChooseDevice
                    && #[trigger] seen[k] is ChooseDevice ==> seen[i] == seen[k]
        }),
    decreases events.len(),
{
    if events.len() > 0 {
        let (next, action) = transition(s, events[0]);
        let rest = actions(next, events.drop_first());
        law_runs_stay_valid(s.names, s, events[0]);
        lemma_turns(next, events.drop_first());
        assert((seq![action] + rest)[0] == action);
        assert((seq![action] + rest).drop_first() =~= rest);
        let after = dialogue(rest);
        let seen = dialogue(actions(s, events));
        if action is ChooseDevice || action is Join || action is Report {
            assert(seen == seq![action] + after);
            assert(next.turns() == s.turns() + 1);
            assert forall|k: int| 0 <= k < seen.len() implies in_turn(
                #[trigger] seen[k],
                s.turns() + k,
            ) by {
                if k > 0 {
                    assert(seen[k] == after[k - 1]);
                }
            }
            assert forall|k: int|
                0 <= k < seen.len() && #[trigger] seen[k] is ChooseDevice implies seen[k] == (
            ActionView::ChooseDevice { devices: next.devices }) by {
                if k > 0 {
                    assert(seen[k] == after[k - 1]);
                }
            }
        } else {
            assert(seen == after);
        }
    }
}

/// What a run comes to when a device is picked, its passcode given, and the join fails.
pub open spec fn failed_round(
    s: ExportView,
    index: nat,
    passcode: Seq<char>,
    failure: JoinFailureView,
) -> (ExportView, ActionView) {
    let picked = transition(s, EventView::DeviceChosen { choice: Ok(index) }).0;
    let given = transition(picked, EventView::PasscodeGiven { passcode: Ok(passcode) }).0;
    transition(given, EventView::JoinFailed { failure })
}

/// Three failed signature checks, whatever devices are picked, spend the attempt: the first two
/// are reported and followed by another question, and the third ends the run.
pub proof fn law_three_failed_signatures_end_the_run(
    s: ExportView,
    picks: Seq<nat>,
    passcodes: Seq<Seq<char>>,
    failures: Seq<JoinFailureView>,
)
    requires
        s.valid(),
        s.stage == Stage::Device,
        s.attempt == 1,
        s.devices.len() >= 2,
        picks.len() == 3 && passcodes.len() == 3 && failures.len() == 3,
        forall|i: int| 0 <= i < 3 ==> #[trigger] picks[i] < s.devices.len(),
        forall|i: int| 0 <= i < 3 ==> (#[trigger] failures[i]).bad_msg,
    ensures
        ({
            let first = failed_round(s, picks[0], passcodes[0], failures[0]);
            let again = transition(first.0, EventView::Reported);
            let second = failed_round(again.0, picks[1], passcodes[1], failures[1]);
            let last = transition(second.0, EventView::Reported);
            let third = failed_round(last.0, picks[2], passcodes[2], failures[2]);
            &&& first.1 is Report && second.1 is Report
            &&& again.1 == (ActionView::ChooseDevice { devices: s.devices })
            &&& last.1 == (ActionView::ChooseDevice { devices: s.devices })
            &&& third.1 == (ActionView::Finish {
                result: Err(join_verdict(failures[2], s.devices.len())),
            })
            &&& join_verdict(failures[2], s.devices.len()) is TrustCircleSignature
        }),
{
    assert(picks[0] < s.devices.len() && picks[1] < s.devices.len() && picks[2] < s.devices.len());
    assert(failures[0].bad_msg && failures[1].bad_msg && failures[2].bad_msg);
}

/// A failed join that does not lead to another device ends the run, with the verdict on it.
pub proof fn law_other_join_failures_end_the_run(s: ExportView, failure: JoinFailureView)
    requires
        s.stage == Stage::Join,
        !(transition(s, EventView::JoinFailed { failure }).1 is Report),
    ensures
        transition(s, EventView::JoinFailed { failure }) == over(
            s,
            Err(join_verdict(failure, s.devices.len())),
        ),
{
}

/// The positions of the usable bottles are in order, and they are exactly those of the bottles
/// that are not this tool's own.
pub proof fn lemma_usable(bottles: Seq<BottleView>)
    ensures
        forall|k: int|
            0 <= k < usable(bottles).len() ==> 0 <= #[trigger] usable(bottles)[k] < bottles.len()
                && bottles[usable(bottles)[k]].serial != FAKE_SERIAL@,
        forall|i: int, k: int|
            0 <= i < k < usable(bottles).len() ==> #[trigger] usable(bottles)[i]
                < #[trigger] usable(bottles)[k],
        forall|p: int|
            0 <= p < bottles.len() && (#[trigger] bottles[p]).serial != FAKE_SERIAL@
                ==> usable(bottles).contains(p),
    decreases bottles.len(),
{
    if bottles.len() > 0 {
        let rest = bottles.drop_last();
        lemma_usable(rest);
        assert forall|p: int|
            0 <= p < bottles.len() && (#[trigger] bottles[p]).serial
                != FAKE_SERIAL@ implies usable(bottles).contains(p) by {
            if p < rest.len() {
                assert(rest[p] == bottles[p]);
                let k = choose|k: int| 0 <= k < usable(rest).len() && usable(rest)[k] == p;
                assert(usable(bottles)[k] == p);
            } else {
                assert(usable(bottles)[usable(rest).len() as int] == p);
            }
        }
    }
}

/// The devices offered are those of the bottles that are not this tool's own: none of them is left
/// out, none is offered twice, and this tool's own device is never offered.
pub proof fn law_every_usable_device_is_offered(s: ExportView, bottles: Seq<BottleView>)
    requires
        s.stage == Stage::Bottles,
    ensures
        ({
            let next = transition(s, EventView::BottlesFetched { bottles }).0;
            let action = transition(s, EventView::BottlesFetched { bottles }).1;
            let none = forall|p: int|
                0 <= p < bottles.len() ==> (#[trigger] bottles[p]).serial == FAKE_SERIAL@;
            &&& action is ChooseDevice <==> !none
            &&& none ==> action == (ActionView::Finish { result: Err(ErrorView::NoBottles) })
            &&& action is ChooseDevice ==> {
                &&& action == (ActionView::ChooseDevice { devices: next.devices })
                &&& next.devices.len() == next.bottles.len()
                &&& forall|k: int|
                    #![trigger next.devices[k]]
                    0 <= k < next.devices.len() ==> {
                        &&& 0 <= next.bottles[k] < bottles.len()
                        &&& next.devices[k].serial == bottles[next.bottles[k]].serial
                        &&& next.devices[k].serial != FAKE_SERIAL@
                    }
                &&& forall|i: int, k: int|
                    0 <= i < k < next.bottles.len() ==> #[trigger] next.bottles[i]
                        < #[trigger] next.bottles[k]
                &&& forall|p: int|
                    0 <= p < bottles.len() && (#[trigger] bottles[p]).serial != FAKE_SERIAL@
                        ==> next.bottles.contains(p)
            }
        }),
{
    lemma_usable(bottles);
    let positions = usable(bottles);
    if positions.len() > 0 {
        assert(bottles[positions[0]].serial != FAKE_SERIAL@);
    }
}

/// The passcode goes to the bottle of the device that was picked: the index counts the devices
/// that were offered, not the bottles that were fetched.
pub proof fn law_join_opens_the_chosen_bottle(s: ExportView, index: nat, passcode: Seq<char>)
    requires
        s.stage == Stage::Device,
        index < s.devices.len(),
    ensures
        ({
            let (asked, ask) = transition(s, EventView::DeviceChosen { choice: Ok(index) });
            let (_, join) = transition(asked, EventView::PasscodeGiven { passcode: Ok(passcode) });
            &&& ask == (ActionView::AskPasscode { index: index as int })
            &&& join == (ActionView::Join { bottle: s.bottles[index as int], passcode })
        }),
{
}

/// Whether one run knows all that another knows: the two differ in what they wait for alone.
pub open spec fn knows_the_same(s: ExportView, t: ExportView) -> bool {
    &&& t.names == s.names
    &&& t.account == s.account
    &&& t.devices == s.devices
    &&& t.bottles == s.bottles
    &&& t.attempt == s.attempt
    &&& t.chosen == s.chosen
    &&& t.detail == s.detail
    &&& t.resynced == s.resynced
    &&& t.changes == s.changes
}

/// Whether a run ends with this failure, and forgets nothing.
pub open spec fn ends_with(s: ExportView, e: EventView, error: ErrorView) -> bool {
    let (next, action) = transition(s, e);
    &&& next.stage == Stage::Finished
    &&& knows_the_same(s, next)
    &&& action matches ActionView::Finish { result } && result is Err && result->Err_0 == error
}

/// Decoded records end the run with one export for each master record: as many of them, each at
/// its own place, with the stable identifier, the model and all the key material of that record.
pub proof fn law_every_master_record_is_exported(s: ExportView, records: RecordsView)
    requires
        s.stage == Stage::Decode,
    ensures
        ({
            let (next, action) = transition(s, EventView::RecordsDecoded { records });
            &&& next.stage == Stage::Finished
            &&& knows_the_same(s, next)
            &&& action matches ActionView::Finish { result } && result is Ok && {
                let exports = result->Ok_0;
                &&& exports.len() == records.masters.len()
                &&& forall|i: int|
                    0 <= i < records.masters.len() ==> {
                        let b = #[trigger] exports[i];
                        let m = records.masters[i].record;
                        &&& b.identifier == m.stable_identifier
                        &&& b.model == m.model
                        &&& b.private_key == m.private_key
                        &&& b.shared_secret == m.shared_secret
                        &&& b.secondary_shared_secret == m.shared_secret_2
                        &&& b.secure_locations_shared_secret == m.secure_locations_shared_secret
                        &&& b.public_key == Some(m.public_key)
                        &&& b.pairing_date is Some <==> m.pairing_date is Some
                    }
            }
        }),
{
}

/// The exports that a run ends with carry the names of their own accessories: where one naming
/// record is associated with a master record, its name and emoji; and where none is, a name made
/// from the stable identifier.
pub proof fn law_every_export_is_named(s: ExportView, records: RecordsView, i: int)
    requires
        s.stage == Stage::Decode,
        records.distinct(),
        0 <= i < records.masters.len(),
    ensures
        ({
            let action = transition(s, EventView::RecordsDecoded { records }).1;
            &&& action matches ActionView::Finish { result } && result is Ok && {
                let b = result->Ok_0[i];
                let f = records.masters[i];
                &&& forall|j: int|
                    0 <= j < records.namings.len() && (
                    #[trigger] records.namings[j]).associated_beacon == f.id ==> b.name
                        == records.namings[j].name && b.emoji == records.namings[j].emoji
                &&& (forall|j: int|
                    0 <= j < records.namings.len() ==> (
                    #[trigger] records.namings[j]).associated_beacon != f.id) ==> b.name
                    == "Unknown-"@ + f.record.stable_identifier && b.emoji.len() == 0
            }
        }),
{
    law_each_accessory_has_its_own_name(records, i);
}

/// A login that went through goes on with the delegates of the account that it named; one that
/// did not name it, or that failed, ends the run.
pub proof fn law_what_a_login_leads_to(
    s: ExportView,
    spd: Option<Entries>,
    kind: AuthFailure,
    text: Seq<char>,
)
    requires
        s.stage == Stage::Login,
    ensures
        ({
            let e = EventView::LoggedIn { spd };
            let (next, action) = transition(s, e);
            match account_of(spd) {
                Ok(account) => {
                    &&& action is FetchDelegates
                    &&& next.stage == Stage::Delegate
                    &&& next.account == account
                    &&& knows_the_same(ExportView { account, ..s }, next)
                },
                Err(error) => ends_with(s, e, error),
            }
        }),
        ends_with(s, EventView::LoginFailed { kind, text }, login_verdict(kind, text)),
{
}

/// With the MobileMe delegate the clients are set up for the account, and then the bottles are
/// fetched; where a part is missing or a request fails, the run ends and says which.
pub proof fn law_what_the_delegates_lead_to(
    s: ExportView,
    mobileme: bool,
    cloudkit: bool,
    host_named: bool,
    text: Seq<char>,
)
    ensures
        s.stage == Stage::Delegate ==> {
            let e = EventView::Delegates { mobileme };
            let (next, action) = transition(s, e);
            &&& mobileme ==> {
                &&& next.stage == Stage::SetUp
                &&& knows_the_same(s, next)
                &&& action == (ActionView::SetUp {
                    dsid: s.account.dsid,
                    adsid: s.account.adsid,
                    fallback_host: "https://p97-escrowproxy.icloud.com:443"@,
                })
            }
            &&& !mobileme ==> ends_with(s, e, ErrorView::Apple("No MobileMe delegate returned"@))
            &&& ends_with(
                s,
                EventView::DelegatesFailed { text },
                ErrorView::Apple("MobileMe delegate failed: "@ + text),
            )
        },
        s.stage == Stage::SetUp ==> {
            let e = EventView::ClientsSetUp { cloudkit, host_named };
            let (next, action) = transition(s, e);
            &&& cloudkit ==> action is FetchBottles && next.stage == Stage::Bottles
                && knows_the_same(s, next)
            &&& !cloudkit ==> ends_with(s, e, ErrorView::Apple("Failed to create CloudKitState"@))
        },
        s.stage == Stage::Bottles ==> ends_with(
            s,
            EventView::BottlesFailed { text },
            ErrorView::Apple("Fetching escrow bottles failed: "@ + text),
        ),
{
}

/// Each device that is offered is the device of its bottle: its serial, and the name and the model
/// that its metadata give. The first device to be asked for is the first attempt, and nothing that
/// was known of the account is lost.
pub proof fn law_each_offered_device_is_that_of_its_bottle(
    s: ExportView,
    bottles: Seq<BottleView>,
    k: int,
)
    requires
        s.stage == Stage::Bottles,
    ensures
        ({
            let e = EventView::BottlesFetched { bottles };
            let (next, action) = transition(s, e);
            &&& (forall|p: int|
                0 <= p < bottles.len() ==> (#[trigger] bottles[p]).serial == "F2LZN0FAKE00"@)
                ==> ends_with(s, e, ErrorView::NoBottles)
            &&& action matches ActionView::ChooseDevice { devices } ==> {
                &&& next.stage == Stage::Device
                &&& next.attempt == 1
                &&& next.devices == devices
                &&& knows_the_same(
                    ExportView { devices, bottles: next.bottles, attempt: 1, ..s },
                    next,
                )
                &&& 0 <= k < devices.len() ==> {
                    let bottle = bottles[next.bottles[k]];
                    &&& devices[k] == device_of(bottle.serial, bottle.entries)
                    &&& devices[k].serial == bottle.serial
                }
            }
        }),
{
    lemma_usable(bottles);
    let positions = usable(bottles);
    if positions.len() > 0 {
        assert(bottles[positions[0]].serial != FAKE_SERIAL@);
    }
}

/// A choice out of the list leads to the question for the passcode of that device, and to the join
/// with its bottle; a choice that is none of them, or an answer that never came, ends the run.
pub proof fn law_what_a_choice_leads_to(
    s: ExportView,
    index: nat,
    error: ErrorView,
    passcode: Seq<char>,
)
    ensures
        s.stage == Stage::Device ==> {
            let e = EventView::DeviceChosen { choice: Ok(index) };
            let (next, action) = transition(s, e);
            &&& index < s.devices.len() ==> {
                &&& next.stage == Stage::Passcode
                &&& next.chosen == index
                &&& knows_the_same(ExportView { chosen: index as int, ..s }, next)
                &&& action == (ActionView::AskPasscode { index: index as int })
            }
            &&& index >= s.devices.len() ==> ends_with(s, e, bad_index(index, s.devices.len()))
            &&& ends_with(s, EventView::DeviceChosen { choice: Err(error) }, error)
        },
        s.stage == Stage::Passcode ==> {
            let (next, action) = transition(
                s,
                EventView::PasscodeGiven { passcode: Ok(passcode) },
            );
            &&& next.stage == Stage::Join
            &&& knows_the_same(s, next)
            &&& action == (ActionView::Join { bottle: s.bottles[s.chosen], passcode })
            &&& ends_with(s, EventView::PasscodeGiven { passcode: Err(error) }, error)
        },
{
}

/// A join that went through opens the container; one that failed is told to the user where another
/// device can help, in the words of its verdict, and ends the run where it cannot.
pub proof fn law_what_a_join_leads_to(s: ExportView, failure: JoinFailureView)
    requires
        s.valid(),
    ensures
        s.stage == Stage::Join ==> {
            let (next, action) = transition(s, EventView::Joined);
            &&& action is OpenContainer
            &&& next.stage == Stage::Container
            &&& knows_the_same(s, next)
        },
        s.stage == Stage::Join ==> {
            let e = EventView::JoinFailed { failure };
            let (next, action) = transition(s, e);
            let verdict = join_verdict(failure, s.devices.len());
            if failure.bad_msg && s.attempt < 3 && s.devices.len() >= 2 {
                &&& next.stage == Stage::Report
                &&& next.attempt == s.attempt + 1
                &&& next.detail == verdict.message()
                &&& knows_the_same(
                    ExportView { attempt: s.attempt + 1, detail: verdict.message(), ..s },
                    next,
                )
                &&& action == (ActionView::Report {
                    error: "trust_circle_signature"@,
                    detail: verdict.message(),
                })
            } else {
                ends_with(s, e, verdict)
            }
        },
        s.stage == Stage::Report ==> {
            let (next, action) = transition(s, EventView::Reported);
            &&& next.stage == Stage::Device
            &&& knows_the_same(s, next)
            &&& action == (ActionView::ChooseDevice { devices: s.devices })
        },
{
}

/// Inside the circle the container, the keys of the zone and its records follow one another; the
/// sync is repeated where Apple asks for a reset for the first time. Each failure ends the run, and
/// says what failed.
pub proof fn law_what_cloudkit_leads_to(s: ExportView, text: Seq<char>, reset: bool)
    ensures
        s.stage == Stage::Container ==> {
            let (next, action) = transition(s, EventView::ContainerOpened);
            &&& action is FetchZoneKeys && next.stage == Stage::ZoneKeys
            &&& knows_the_same(s, next)
            &&& ends_with(
                s,
                EventView::ContainerFailed { text },
                ErrorView::Apple("CloudKit container init failed: "@ + text),
            )
        },
        s.stage == Stage::ZoneKeys ==> {
            let (next, action) = transition(s, EventView::ZoneKeysFetched);
            &&& action is Sync && next.stage == Stage::Sync
            &&& knows_the_same(s, next)
            &&& ends_with(
                s,
                EventView::ZoneKeysFailed { text },
                ErrorView::Apple("Zone encryption config failed: "@ + text),
            )
        },
        s.stage == Stage::Sync ==> {
            let e = EventView::SyncFailed { text, reset };
            let (next, action) = transition(s, e);
            &&& reset && !s.resynced ==> {
                &&& action is Sync && next.stage == Stage::Sync && next.resynced
                &&& knows_the_same(ExportView { resynced: true, ..s }, next)
            }
            &&& !reset || s.resynced ==> ends_with(
                s,
                e,
                ErrorView::Apple("CloudKit fetch failed: "@ + text),
            )
        },
{
}

/// The zone that came first is decoded, every change of it as its header says; a sync without a
/// zone ends the run, and so do records that could not be decoded.
pub proof fn law_what_a_sync_leads_to(
    s: ExportView,
    zones: Seq<Seq<ChangeView>>,
    at: nat,
    text: Seq<char>,
)
    ensures
        s.stage == Stage::Sync ==> {
            let e = EventView::Synced { zones };
            let (next, action) = transition(s, e);
            &&& zones.len() == 0 ==> ends_with(
                s,
                e,
                ErrorView::Apple("CloudKit returned no BeaconStore zone"@),
            )
            &&& zones.len() > 0 ==> {
                &&& next.stage == Stage::Decode
                &&& next.changes == zones[0]
                &&& knows_the_same(ExportView { changes: zones[0], ..s }, next)
                &&& action matches ActionView::Decode { plan } && {
                    &&& plan.len() == zones[0].len()
                    &&& forall|i: int|
                        0 <= i < zones[0].len() ==> {
                            let c = zones[0][i];
                            let typed = c.identifier is Some && c.has_record && c.record_type
                                is Some;
                            let t = c.record_type->0;
                            &&& (#[trigger] plan[i]) == Triage::Malformed <==> c.identifier is None
                                || (c.has_record && c.record_type is None)
                            &&& plan[i] == Triage::Master <==> typed && t == s.names.master
                            &&& plan[i] == Triage::Naming <==> typed && t == s.names.naming && t
                                != s.names.master
                            &&& plan[i] == Triage::Alignment <==> typed && t == s.names.alignment
                                && t != s.names.master && t != s.names.naming
                            &&& plan[i] == Triage::Shared <==> typed && t == s.names.shared && t
                                != s.names.master && t != s.names.naming && t != s.names.alignment
                        }
                }
            }
        },
        s.stage == Stage::Decode ==> ends_with(
            s,
            EventView::DecodingFailed { at, text },
            ErrorView::Apple("PCS keys failed: "@ + text),
        ),
{
    if zones.len() > 0 {
        law_every_change_is_planned(zones[0], s.names);
    }
}

/// An event is an answer to what the run waits for, or it is ignored and changes nothing.
pub proof fn law_only_answers_are_taken(s: ExportView, e: EventView)
    ensures
        ({
            let asked = match e {
                EventView::LoggedIn { .. } | EventView::LoginFailed { .. } => Stage::Login,
                EventView::Delegates { .. } | EventView::DelegatesFailed { .. } => Stage::Delegate,
                EventView::ClientsSetUp { .. } => Stage::SetUp,
                EventView::BottlesFetched { .. } | EventView::BottlesFailed { .. } =>
                    Stage::Bottles,
                EventView::DeviceChosen { .. } => Stage::Device,
                EventView::PasscodeGiven { .. } => Stage::Passcode,
                EventView::Joined | EventView::JoinFailed { .. } => Stage::Join,
                EventView::Reported => Stage::Report,
                EventView::ContainerOpened | EventView::ContainerFailed { .. } => Stage::Container,
                EventView::ZoneKeysFetched | EventView::ZoneKeysFailed { .. } => Stage::ZoneKeys,
                EventView::Synced { .. } | EventView::SyncFailed { .. } => Stage::Sync,
                EventView::RecordsDecoded { .. } | EventView::DecodingFailed { .. } =>
                    Stage::Decode,
            };
            &&& s.stage != asked <==> transition(s, e).1 is Ignore
            &&& s.stage != asked ==> transition(s, e).0 == s
        }),
{
}

/// A run begins at the login, knows of nothing, and has the names that it was given.
pub proof fn law_a_run_begins_at_the_login(names: RecordNamesView)
    ensures
        ({
            let s = fresh(names);
            &&& s.stage == Stage::Login
            &&& s.names == names
            &&& s.account.dsid.len() == 0 && s.account.adsid.len() == 0
            &&& s.devices.len() == 0 && s.bottles.len() == 0
            &&& s.attempt == 0 && s.chosen == 0
            &&& s.detail.len() == 0
            &&& !s.resynced
            &&& s.changes.len() == 0
        }),
{
}

/// An event is seen as what it is, with all that it carries: every bottle with its serial and its
/// metadata, and every zone with every one of its changes.
pub proof fn law_an_event_is_seen_in_full(e: Event)
    ensures
        match e {
            Event::LoggedIn { spd } => e@ == (EventView::LoggedIn { spd: spd_entries(spd) }),
            Event::LoginFailed { error } => e@ == (EventView::LoginFailed {
                kind: error.kind,
                text: error.text@,
            }),
            Event::Delegates { mobileme } => e@ == (EventView::Delegates { mobileme }),
            Event::DelegatesFailed { text } => e@ == (EventView::DelegatesFailed { text: text@ }),
            Event::ClientsSetUp { cloudkit, host_named } => e@ == (EventView::ClientsSetUp {
                cloudkit,
                host_named,
            }),
            Event::BottlesFetched { bottles } => e@ matches EventView::BottlesFetched {
                bottles: seen,
            } && {
                &&& seen.len() == bottles@.len()
                &&& forall|i: int|
                    0 <= i < bottles@.len() ==> {
                        &&& (#[trigger] seen[i]).serial == bottles@[i].serial@
                        &&& seen[i].entries == value_entries(bottles@[i].metadata)
                    }
            },
            Event::BottlesFailed { text } => e@ == (EventView::BottlesFailed { text: text@ }),
            Event::DeviceChosen { choice: Ok(index) } => e@ == (EventView::DeviceChosen {
                choice: Ok(index as nat),
            }),
            Event::DeviceChosen { choice: Err(error) } => e@ == (EventView::DeviceChosen {
                choice: Err(error@),
            }),
            Event::PasscodeGiven { passcode: Ok(p) } => e@ == (EventView::PasscodeGiven {
                passcode: Ok(p@),
            }),
            Event::PasscodeGiven { passcode: Err(error) } => e@ == (EventView::PasscodeGiven {
                passcode: Err(error@),
            }),
            Event::Joined => e@ is Joined,
            Event::JoinFailed { failure, reached } => e@ matches EventView::JoinFailed {
                failure: seen,
            } && seen == failure.at(reached),
            Event::Reported => e@ is Reported,
            Event::ContainerOpened => e@ is ContainerOpened,
            Event::ContainerFailed { text } => e@ == (EventView::ContainerFailed { text: text@ }),
            Event::ZoneKeysFetched => e@ is ZoneKeysFetched,
            Event::ZoneKeysFailed { text } => e@ == (EventView::ZoneKeysFailed { text: text@ }),
            Event::Synced { zones } => e@ matches EventView::Synced { zones: seen } && {
                &&& seen.len() == zones@.len()
                &&& forall|i: int|
                    0 <= i < zones@.len() ==> #[trigger] seen[i] == change_views(zones@[i]@)
            },
            Event::SyncFailed { text, reset } => e@ == (EventView::SyncFailed {
                text: text@,
                reset,
            }),
            Event::RecordsDecoded { records } => e@ == (EventView::RecordsDecoded {
                records: records@,
            }),
            Event::DecodingFailed { at, text } => e@ == (EventView::DecodingFailed {
                at: at as nat,
                text: text@,
            }),
        },
        e@.datable() <==> (e matches Event::RecordsDecoded { records } ==> forall|i: int|
            0 <= i < records@.masters.len() ==> (
            #[trigger] records@.masters[i]).record.datable()),
{
}

/// An action is seen as what it is, with all that it carries: every device that is offered, every
/// entry of a plan, and every export of a result.
pub proof fn law_an_action_is_seen_in_full(a: Action)
    ensures
        match a {
            Action::Login { apple_id, password_hash, anisette_url } => a@ == (ActionView::Login {
                apple_id: apple_id@,
                password_hash: password_hash@,
                anisette_url: anisette_url@,
            }),
            Action::FetchDelegates => a@ is FetchDelegates,
            Action::SetUp { dsid, adsid, fallback_host } => a@ == (ActionView::SetUp {
                dsid: dsid@,
                adsid: adsid@,
                fallback_host: fallback_host@,
            }),
            Action::FetchBottles => a@ is FetchBottles,
            Action::ChooseDevice { devices } => a@ matches ActionView::ChooseDevice {
                devices: seen,
            } && {
                &&& seen.len() == devices@.len()
                &&& forall|i: int| 0 <= i < devices@.len() ==> #[trigger] seen[i] == devices@[i]@
            },
            Action::Report { error, detail } => a@ == (ActionView::Report {
                error: error@,
                detail: detail@,
            }),
            Action::AskPasscode { index } => a@ == (ActionView::AskPasscode {
                index: index as int,
            }),
            Action::Join { bottle, passcode } => a@ == (ActionView::Join {
                bottle: bottle as int,
                passcode: passcode@,
            }),
            Action::OpenContainer => a@ is OpenContainer,
            Action::FetchZoneKeys => a@ is FetchZoneKeys,
            Action::Sync => a@ is Sync,
            Action::Decode { plan } => a@ == (ActionView::Decode { plan: plan@ }),
            Action::Finish { result: Ok(beacons) } => a@ matches ActionView::Finish {
                result,
            } && result is Ok && {
                &&& result->Ok_0.len() == beacons@.len()
                &&& forall|i: int|
                    0 <= i < beacons@.len() ==> #[trigger] result->Ok_0[i] == beacons@[i]@
            },
            Action::Finish { result: Err(error) } => a@ == (ActionView::Finish {
                result: Err::<Seq<BeaconView>, ErrorView>(error@),
            }),
            Action::Ignore => a@ is Ignore,
        },
{
}

} // verus!

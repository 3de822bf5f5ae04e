//! The log of a run: the lines that are written when it begins and on each event, and that no
//! secret reaches them.

use vstd::prelude::*;

use crate::export::{
    bottle_views, devices_at, fresh, transition, usable, usable_devices, ActionView, BottleView,
    Event, EventView, Export, ExportView, Stage,
};
use crate::logging::Checkpoint;
use crate::pipeline::{
    account_ids, account_of, choice_line, choice_text, device_line, device_line_text, device_views,
    failing_signature, join_retries, joined, log_line, log_line_text, sanitize, sanitized,
    DeviceInfo, DeviceView, ExportOpts, JoinFailure, JoinFailureView, OptsView, MAX_JOIN_ATTEMPTS,
};
use crate::records::{
    change_views, triage, triage_of, triages, ChangeHeader, ChangeView, RecordNames,
    RecordNamesView, Records, RecordsView, Triage,
};
use crate::text::{decimal, push_decimal, texts};

verus! {

/// What is noted beside an event, for the log: how long the run has taken and how long the step
/// took, both in seconds, and the error of a failed step with the name of its variant.
pub struct Noted {
    pub elapsed: String,
    pub spent: String,
    pub debug: String,
}

/// What is noted beside an event.
pub struct NotedView {
    pub elapsed: Seq<char>,
    pub spent: Seq<char>,
    pub debug: Seq<char>,
}

impl View for Noted {
    type V = NotedView;

    open spec fn view(&self) -> NotedView {
        NotedView { elapsed: self.elapsed@, spent: self.spent@, debug: self.debug@ }
    }
}

/// Messages, one after the other.
pub type Messages = Seq<Seq<char>>;

/// The message of a failure that is described by `what`.
pub open spec fn failed(step: Seq<char>, n: NotedView, what: Seq<char>) -> Seq<char> {
    "!! FAILED at "@ + step + " after "@ + n.elapsed + "s: "@ + what
}

/// The message of a failure that came with an error: its words, and the name of its variant, for
/// unrelated errors may have the same words.
pub open spec fn failed_with(step: Seq<char>, n: NotedView, text: Seq<char>) -> Seq<char> {
    failed(step, n, text + " ["@ + n.debug + "]"@)
}

/// The messages of the beginning.
pub open spec fn opening(anisette_url: Seq<char>) -> Messages {
    seq![
        "[1/7] Connecting to anisette server ("@ + anisette_url + ")..."@,
        "[2/7] Logging in to Apple ID..."@,
    ]
}

/// The messages on the outcome of the login.
pub open spec fn login_messages(e: EventView, n: NotedView) -> Messages {
    match e {
        EventView::LoggedIn { spd } => match account_of(spd) {
            Ok(account) => seq![
                "  Logged in (dsid="@ + account.dsid + ") after "@ + n.elapsed + "s"@,
                "[3/7] Fetching MobileMe delegate..."@,
            ],
            Err(error) => seq![failed("[2/7] login"@, n, error.message())],
        },
        EventView::LoginFailed { kind: _, text } => seq![failed_with("[2/7] login"@, n, text)],
        _ => Seq::empty(),
    }
}

/// The messages on the delegates.
pub open spec fn delegate_messages(e: EventView, n: NotedView) -> Messages {
    match e {
        EventView::Delegates { mobileme } => if mobileme {
            seq!["[4/7] Setting up CloudKit & Keychain..."@]
        } else {
            seq![failed("[3/7] MobileMe delegate"@, n, "No MobileMe delegate returned"@)]
        },
        EventView::DelegatesFailed { text } => seq![
            failed_with("[3/7] MobileMe delegate"@, n, text),
        ],
        _ => Seq::empty(),
    }
}

/// The messages on the clients.
pub open spec fn set_up_messages(e: EventView, n: NotedView) -> Messages {
    match e {
        EventView::ClientsSetUp { cloudkit, host_named } => {
            let outcome = if cloudkit {
                "[5/7] Joining iCloud Keychain trust circle..."@
            } else {
                failed("[4/7] CloudKit setup"@, n, "Failed to create CloudKitState"@)
            };
            if host_named {
                seq![outcome]
            } else {
                seq!["  (escrowProxyUrl not in MobileMe config, using default)"@, outcome]
            }
        },
        _ => Seq::empty(),
    }
}

/// The line for each device of a list.
pub open spec fn device_messages(devices: Seq<DeviceView>) -> Messages {
    Seq::new(devices.len(), |i: int| device_line_text(i as nat, devices[i]))
}

/// How many bottles there are, and how many of them can be used: that none can be used reads
/// differently where Apple sent none at all.
pub open spec fn bottles_message(returned: nat, usable: nat) -> Seq<char> {
    "  Escrow bottles: "@ + decimal(returned) + " returned, "@ + decimal(usable)
        + " usable (dropped "@ + decimal((returned - usable) as nat) + " of our own)"@
}

/// The messages on the bottles.
pub open spec fn bottle_messages(e: EventView, n: NotedView) -> Messages {
    match e {
        EventView::BottlesFetched { bottles } => {
            let devices = devices_at(bottles, usable(bottles));
            let counts = bottles_message(bottles.len(), devices.len());
            if devices.len() == 0 {
                seq![counts, failed("[5/7] escrow bottles"@, n, "no usable bottles"@)]
            } else {
                seq![counts, "  Found "@ + decimal(devices.len()) + " usable device(s):"@]
                    + device_messages(devices)
            }
        },
        EventView::BottlesFailed { text } => seq![
            failed_with("[5/7] fetch escrow bottles"@, n, text),
        ],
        _ => Seq::empty(),
    }
}

/// The messages on the choice of one of so many devices.
pub open spec fn choice_messages(e: EventView, n: NotedView, devices: nat) -> Messages {
    match e {
        EventView::DeviceChosen { choice } => match choice {
            Ok(index) => if index < devices {
                Seq::empty()
            } else {
                seq![
                    "!! FAILED at [5/7] device choice: index "@ + decimal(index)
                        + " out of range 0-"@ + decimal(last_of(devices)),
                ]
            },
            Err(error) => seq![failed_with("[5/7] device choice"@, n, error.message())],
        },
        _ => Seq::empty(),
    }
}

/// The last index of a list, or zero where it is empty.
pub open spec fn last_of(len: nat) -> nat {
    if len == 0 {
        0
    } else {
        (len - 1) as nat
    }
}

/// The messages on the passcode of the picked device: its length, never the passcode.
pub open spec fn passcode_messages(s: ExportView, e: EventView, n: NotedView) -> Messages {
    match e {
        EventView::PasscodeGiven { passcode } => match passcode {
            Ok(p) => seq![choice_text(s.chosen as nat, s.devices[s.chosen], p.len())],
            Err(error) => seq![failed_with("[5/7] passcode input"@, n, error.message())],
        },
        _ => Seq::empty(),
    }
}

/// The messages on a failed signature check: how far the join got, which signature failed, and
/// what follows.
pub open spec fn signature_messages(f: JoinFailureView, attempt: nat, devices: nat) -> Messages {
    let reached = match f.reached {
        Some(start) => seq!["   last keychain checkpoint: \""@ + start + "\""@],
        None => Seq::empty(),
    };
    let site = match f.check {
        Some(what) => "   => signature check failed on "@ + what
            + " — NOT a rejected passcode (the bottle had already decrypted)"@,
        None =>
            "   => BadMsg at a point with no expected signature check; not one of the known join sites"@,
    };
    let next = if join_retries(f, attempt, devices) {
        "   => asking for another device (attempt "@ + decimal(attempt + 1) + "/"@ + decimal(
            MAX_JOIN_ATTEMPTS as nat,
        ) + ")"@
    } else if devices < 2 {
        "   => no retry (only one trusted device); ending the attempt"@
    } else {
        "   => no retry (attempts spent); ending the attempt"@
    };
    reached + seq![site, next]
}

/// The messages on the outcome of a join.
pub open spec fn join_messages(s: ExportView, e: EventView, n: NotedView) -> Messages {
    match e {
        EventView::Joined => seq![
            "  Joined keychain trust circle in "@ + n.spent + "s!"@,
            "[6/7] Fetching FindMy accessories from CloudKit..."@,
        ],
        EventView::JoinFailed { failure } => {
            let first = "!! FAILED at [5/7] join trust circle after "@ + n.elapsed + "s ("@
                + n.spent + "s in the join): "@ + failure.text + " ["@ + failure.debug + "]"@;
            if failure.bad_msg {
                seq![first] + signature_messages(failure, s.attempt as nat, s.devices.len())
            } else {
                seq![first]
            }
        },
        _ => Seq::empty(),
    }
}

/// The messages on the CloudKit container.
pub open spec fn container_messages(e: EventView, n: NotedView) -> Messages {
    match e {
        EventView::ContainerFailed { text } => seq![
            failed_with("[6/7] CloudKit container init"@, n, text),
        ],
        _ => Seq::empty(),
    }
}

/// The messages on the keys of the zone.
pub open spec fn zone_key_messages(e: EventView, n: NotedView) -> Messages {
    match e {
        EventView::ZoneKeysFailed { text } => seq![
            failed_with("[6/7] zone encryption config"@, n, text),
        ],
        _ => Seq::empty(),
    }
}

/// The messages on the sync. One that is repeated has not failed.
pub open spec fn sync_messages(e: EventView, n: NotedView, resynced: bool) -> Messages {
    match e {
        EventView::Synced { zones } => if zones.len() == 0 {
            seq![failed("[6/7] CloudKit fetch"@, n, "CloudKit returned no BeaconStore zone"@)]
        } else {
            seq!["  CloudKit returned "@ + decimal(zones[0].len()) + " change(s)"@]
        },
        EventView::SyncFailed { text, reset } => if reset && !resynced {
            seq!["  CloudKit sync asked for a reset; retrying once"@]
        } else {
            seq![failed_with("[6/7] CloudKit fetch"@, n, text)]
        },
        _ => Seq::empty(),
    }
}

/// The message on a change that is passed over, if there is one: which part a malformed one lacks,
/// and, for who asked for details, that a shared accessory is not exported.
pub open spec fn change_message(c: ChangeView, names: RecordNamesView, debug: bool) -> Option<
    Seq<char>,
> {
    match c.identifier {
        None => Some("  skipping a change with no record identifier"@),
        Some(id) => if triage_of(c, names) == Triage::Malformed {
            Some("  skipping change "@ + sanitized(id) + ": record has no type"@)
        } else if debug && triage_of(c, names) == Triage::Shared {
            Some("  [debug] Shared beacon id="@ + sanitized(id) + " (not exported)"@)
        } else {
            None
        },
    }
}

/// The messages on the changes that are passed over.
pub open spec fn change_messages(
    changes: Seq<ChangeView>,
    names: RecordNamesView,
    debug: bool,
) -> Messages
    decreases changes.len(),
{
    if changes.len() == 0 {
        Seq::empty()
    } else {
        let before = change_messages(changes.drop_last(), names, debug);
        match change_message(changes.last(), names, debug) {
            Some(message) => before.push(message),
            None => before,
        }
    }
}

/// How many changes are malformed.
pub open spec fn malformed(changes: Seq<ChangeView>, names: RecordNamesView) -> nat
    decreases changes.len(),
{
    if changes.len() == 0 {
        0
    } else {
        malformed(changes.drop_last(), names) + (if triage_of(changes.last(), names)
            == Triage::Malformed {
            1nat
        } else {
            0
        })
    }
}

/// The changes before position `at`.
pub open spec fn changes_before(changes: Seq<ChangeView>, at: nat) -> Seq<ChangeView> {
    if at < changes.len() {
        changes.take(at as int)
    } else {
        changes
    }
}

/// The messages on the records that were decoded: an export that succeeds with nothing in it is
/// the hardest failure to read from outside, so their counts are told.
pub open spec fn record_messages(records: RecordsView, n: NotedView) -> Messages {
    let told = seq![
        "  Records decrypted: "@ + decimal(records.masters.len()) + " master, "@ + decimal(
            records.namings.len(),
        ) + " naming, "@ + decimal(records.alignments.len()) + " alignment"@,
        "[7/7] Assembling "@ + decimal(records.masters.len()) + " accessory export(s)... (total "@
            + n.elapsed + "s)"@,
    ];
    if records.masters.len() == 0 {
        told.push(
            "!! WARNING: export succeeded with zero accessories — the caller will report a connected account with no tags"@,
        )
    } else {
        told
    }
}

/// How many changes were skipped, where any were.
pub open spec fn skip_messages(skipped: nat) -> Messages {
    if skipped == 0 {
        Seq::empty()
    } else {
        seq!["  Skipped "@ + decimal(skipped) + " malformed change(s) from CloudKit"@]
    }
}

/// The messages on the outcome of the decoding.
pub open spec fn decoding_messages(
    s: ExportView,
    e: EventView,
    n: NotedView,
    debug: bool,
) -> Messages {
    match e {
        EventView::RecordsDecoded { records } => change_messages(s.changes, s.names, debug)
            + skip_messages(malformed(s.changes, s.names)) + record_messages(records, n),
        EventView::DecodingFailed { at, text } => change_messages(
            changes_before(s.changes, at),
            s.names,
            debug,
        ).push(failed_with("[6/7] PCS record keys"@, n, text)),
        _ => Seq::empty(),
    }
}

/// The messages of a run on an event: what came of the step, and which one is next.
pub open spec fn messages(s: ExportView, e: EventView, n: NotedView, debug: bool) -> Messages {
    match s.stage {
        Stage::Login => login_messages(e, n),
        Stage::Delegate => delegate_messages(e, n),
        Stage::SetUp => set_up_messages(e, n),
        Stage::Bottles => bottle_messages(e, n),
        Stage::Device => choice_messages(e, n, s.devices.len()),
        Stage::Passcode => passcode_messages(s, e, n),
        Stage::Join => join_messages(s, e, n),
        Stage::Report => Seq::empty(),
        Stage::Container => container_messages(e, n),
        Stage::ZoneKeys => zone_key_messages(e, n),
        Stage::Sync => sync_messages(e, n, s.resynced),
        Stage::Decode => decoding_messages(s, e, n, debug),
        Stage::Finished => Seq::empty(),
    }
}

/// The log lines of a run for these messages.
pub open spec fn lines(opts: OptsView, messages: Messages) -> Messages {
    messages.map_values(|m: Seq<char>| log_line_text(opts.apple_id, opts.session_id, m))
}

/// The log lines of a run from a state on, over these events.
pub open spec fn lines_over(
    opts: OptsView,
    s: ExportView,
    events: Seq<EventView>,
    noted: Seq<NotedView>,
) -> Messages
    decreases events.len(),
{
    if events.len() == 0 {
        Seq::empty()
    } else {
        lines(opts, messages(s, events[0], noted[0], opts.debug)) + lines_over(
            opts,
            transition(s, events[0]).0,
            events.drop_first(),
            noted.drop_first(),
        )
    }
}

/// All the log lines of a run: those of its beginning, and those on each event.
pub open spec fn run_lines(
    opts: OptsView,
    names: RecordNamesView,
    events: Seq<EventView>,
    noted: Seq<NotedView>,
) -> Messages {
    lines(opts, opening(opts.anisette_url)) + lines_over(opts, fresh(names), events, noted)
}

fn say(out: &mut Vec<String>, message: String)
    ensures
        texts(final(out)@) == texts(old(out)@).push(message@),
{
    out.push(message);
    assert(texts(out@) =~= texts(old(out)@).push(message@));
}

fn failure(step: &str, n: &Noted, what: &str) -> (r: String)
    ensures
        r@ == failed(step@, n@, what@),
{
    let mut out = "!! FAILED at ".to_string();
    out.append(step);
    out.append(" after ");
    out.append(n.elapsed.as_str());
    out.append("s: ");
    out.append(what);
    out
}

fn failure_with(step: &str, n: &Noted, text: &str) -> (r: String)
    ensures
        r@ == failed_with(step@, n@, text@),
{
    let mut what = text.to_string();
    what.append(" [");
    what.append(n.debug.as_str());
    what.append("]");
    failure(step, n, what.as_str())
}

/// `before`, the number `n`, and `after`.
fn counted(before: &str, n: usize, after: &str) -> (r: String)
    ensures
        r@ == before@ + decimal(n as nat) + after@,
{
    let mut out = before.to_string();
    push_decimal(&mut out, n as u64);
    out.append(after);
    out
}

fn report_login(out: &mut Vec<String>, event: &Event, n: &Noted)
    ensures
        texts(final(out)@) == texts(old(out)@) + login_messages(event@, n@),
{
    match event {
        Event::LoggedIn { spd } => match account_ids(spd) {
            Ok(account) => {
                let mut line = joined("  Logged in (dsid=", account.dsid.as_str());
                line.append(") after ");
                line.append(n.elapsed.as_str());
                line.append("s");
                say(out, line);
                say(out, "[3/7] Fetching MobileMe delegate...".to_string());
            },
            Err(error) => say(out, failure("[2/7] login", n, error.message().as_str())),
        },
        Event::LoginFailed { error } => {
            say(out, failure_with("[2/7] login", n, error.text.as_str()));
        },
        _ => {},
    }
    assert(texts(out@) =~= texts(old(out)@) + login_messages(event@, n@));
}

fn report_delegates(out: &mut Vec<String>, event: &Event, n: &Noted)
    ensures
        texts(final(out)@) == texts(old(out)@) + delegate_messages(event@, n@),
{
    match event {
        Event::Delegates { mobileme } => {
            if *mobileme {
                say(out, "[4/7] Setting up CloudKit & Keychain...".to_string());
            } else {
                let what = "No MobileMe delegate returned";
                say(out, failure("[3/7] MobileMe delegate", n, what));
            }
        },
        Event::DelegatesFailed { text } => {
            say(out, failure_with("[3/7] MobileMe delegate", n, text.as_str()));
        },
        _ => {},
    }
    assert(texts(out@) =~= texts(old(out)@) + delegate_messages(event@, n@));
}

fn report_set_up(out: &mut Vec<String>, event: &Event, n: &Noted)
    ensures
        texts(final(out)@) == texts(old(out)@) + set_up_messages(event@, n@),
{
    match event {
        Event::ClientsSetUp { cloudkit, host_named } => {
            if !*host_named {
                say(out, "  (escrowProxyUrl not in MobileMe config, using default)".to_string());
            }
            if *cloudkit {
                say(out, "[5/7] Joining iCloud Keychain trust circle...".to_string());
            } else {
                let what = "Failed to create CloudKitState";
                say(out, failure("[4/7] CloudKit setup", n, what));
            }
        },
        _ => {},
    }
    assert(texts(out@) =~= texts(old(out)@) + set_up_messages(event@, n@));
}

fn report_devices(out: &mut Vec<String>, devices: &Vec<DeviceInfo>)
    ensures
        texts(final(out)@) == texts(old(out)@) + device_messages(device_views(devices@)),
{
    let ghost before = texts(out@);
    let ghost all = device_messages(device_views(devices@));
    assert(texts(out@) =~= before + all.take(0));
    for i in 0..devices.len()
        invariant
            all == device_messages(device_views(devices@)),
            texts(out@) == before + all.take(i as int),
    {
        let line = device_line(i, &devices[i]);
        assert(line@ == all[i as int]);
        say(out, line);
        assert(texts(out@) =~= before + all.take(i + 1));
    }
    assert(all.take(devices@.len() as int) =~= all);
}

fn report_bottles(out: &mut Vec<String>, event: &Event, n: &Noted)
    ensures
        texts(final(out)@) == texts(old(out)@) + bottle_messages(event@, n@),
{
    let ghost before = texts(out@);
    match event {
        Event::BottlesFetched { bottles } => {
            let (_, devices) = usable_devices(bottles);
            assert(device_views(devices@).len() == devices@.len());
            assert(bottle_views(bottles@).len() == bottles@.len());
            let mut counts = counted("  Escrow bottles: ", bottles.len(), " returned, ");
            push_decimal(&mut counts, devices.len() as u64);
            counts.append(" usable (dropped ");
            push_decimal(&mut counts, (bottles.len() - devices.len()) as u64);
            counts.append(" of our own)");
            say(out, counts);
            if devices.len() == 0 {
                say(out, failure("[5/7] escrow bottles", n, "no usable bottles"));
            } else {
                say(out, counted("  Found ", devices.len(), " usable device(s):"));
                report_devices(out, &devices);
            }
        },
        Event::BottlesFailed { text } => {
            say(out, failure_with("[5/7] fetch escrow bottles", n, text.as_str()));
        },
        _ => {},
    }
    assert(texts(out@) =~= before + bottle_messages(event@, n@));
}

fn report_choice(out: &mut Vec<String>, event: &Event, n: &Noted, devices: usize)
    ensures
        texts(final(out)@) == texts(old(out)@) + choice_messages(event@, n@, devices as nat),
{
    match event {
        Event::DeviceChosen { choice } => match choice {
            Ok(index) => {
                if *index >= devices {
                    let last: usize = if devices == 0 {
                        0
                    } else {
                        devices - 1
                    };
                    let mut line = counted(
                        "!! FAILED at [5/7] device choice: index ",
                        *index,
                        " out of range 0-",
                    );
                    push_decimal(&mut line, last as u64);
                    say(out, line);
                }
            },
            Err(error) => {
                say(out, failure_with("[5/7] device choice", n, error.message().as_str()));
            },
        },
        _ => {},
    }
    assert(texts(out@) =~= texts(old(out)@) + choice_messages(event@, n@, devices as nat));
}

fn report_passcode(out: &mut Vec<String>, run: &Export, event: &Event, n: &Noted)
    requires
        run@.stage == Stage::Passcode,
        run@.valid(),
    ensures
        texts(final(out)@) == texts(old(out)@) + passcode_messages(run@, event@, n@),
{
    match event {
        Event::PasscodeGiven { passcode } => match passcode {
            Ok(p) => {
                let devices = run.devices();
                let chosen = run.chosen();
                assert(device_views(devices@)[chosen as int] == devices@[chosen as int]@);
                say(out, choice_line(chosen, &devices[chosen], p.as_str()));
            },
            Err(error) => {
                say(out, failure_with("[5/7] passcode input", n, error.message().as_str()));
            },
        },
        _ => {},
    }
    assert(texts(out@) =~= texts(old(out)@) + passcode_messages(run@, event@, n@));
}

fn report_signature(
    out: &mut Vec<String>,
    f: &JoinFailure,
    reached: &Option<Checkpoint>,
    attempt: usize,
    devices: usize,
)
    requires
        attempt <= MAX_JOIN_ATTEMPTS,
        f.bad_msg,
    ensures
        texts(final(out)@) == texts(old(out)@) + signature_messages(
            f.at(*reached),
            attempt as nat,
            devices as nat,
        ),
{
    if let Some(c) = reached {
        let mut line = joined("   last keychain checkpoint: \"", c.prefix());
        line.append("\"");
        say(out, line);
    }
    match failing_signature(reached) {
        Some(what) => {
            let mut line = joined("   => signature check failed on ", what);
            line.append(" — NOT a rejected passcode (the bottle had already decrypted)");
            say(out, line);
        },
        None => {
            say(
                out,
                "   => BadMsg at a point with no expected signature check; not one of the known join sites".to_string(),
            );
        },
    }
    if attempt < MAX_JOIN_ATTEMPTS && devices >= 2 {
        let mut line = counted("   => asking for another device (attempt ", attempt + 1, "/");
        push_decimal(&mut line, MAX_JOIN_ATTEMPTS as u64);
        line.append(")");
        say(out, line);
    } else if devices < 2 {
        say(out, "   => no retry (only one trusted device); ending the attempt".to_string());
    } else {
        say(out, "   => no retry (attempts spent); ending the attempt".to_string());
    }
    assert(texts(out@) =~= texts(old(out)@) + signature_messages(
        f.at(*reached),
        attempt as nat,
        devices as nat,
    ));
}

fn report_join(out: &mut Vec<String>, run: &Export, event: &Event, n: &Noted)
    requires
        run@.stage == Stage::Join,
        run@.valid(),
    ensures
        texts(final(out)@) == texts(old(out)@) + join_messages(run@, event@, n@),
{
    let ghost before = texts(out@);
    match event {
        Event::Joined => {
            let mut line = joined("  Joined keychain trust circle in ", n.spent.as_str());
            line.append("s!");
            say(out, line);
            say(out, "[6/7] Fetching FindMy accessories from CloudKit...".to_string());
        },
        Event::JoinFailed { failure, reached } => {
            let start = "!! FAILED at [5/7] join trust circle after ";
            let mut line = joined(start, n.elapsed.as_str());
            line.append("s (");
            line.append(n.spent.as_str());
            line.append("s in the join): ");
            line.append(failure.text.as_str());
            line.append(" [");
            line.append(failure.debug.as_str());
            line.append("]");
            say(out, line);
            if failure.bad_msg {
                let devices = run.devices();
                assert(device_views(devices@).len() == devices@.len());
                report_signature(out, failure, reached, run.attempt(), devices.len());
            }
        },
        _ => {},
    }
    assert(texts(out@) =~= before + join_messages(run@, event@, n@));
}

fn report_container(out: &mut Vec<String>, event: &Event, n: &Noted)
    ensures
        texts(final(out)@) == texts(old(out)@) + container_messages(event@, n@),
{
    match event {
        Event::ContainerFailed { text } => {
            say(out, failure_with("[6/7] CloudKit container init", n, text.as_str()));
        },
        _ => {},
    }
    assert(texts(out@) =~= texts(old(out)@) + container_messages(event@, n@));
}

fn report_zone_keys(out: &mut Vec<String>, event: &Event, n: &Noted)
    ensures
        texts(final(out)@) == texts(old(out)@) + zone_key_messages(event@, n@),
{
    match event {
        Event::ZoneKeysFailed { text } => {
            say(out, failure_with("[6/7] zone encryption config", n, text.as_str()));
        },
        _ => {},
    }
    assert(texts(out@) =~= texts(old(out)@) + zone_key_messages(event@, n@));
}

fn report_sync(out: &mut Vec<String>, event: &Event, n: &Noted, resynced: bool)
    ensures
        texts(final(out)@) == texts(old(out)@) + sync_messages(event@, n@, resynced),
{
    match event {
        Event::Synced { zones } => {
            if zones.len() == 0 {
                let what = "CloudKit returned no BeaconStore zone";
                say(out, failure("[6/7] CloudKit fetch", n, what));
            } else {
                assert(change_views(zones@[0]@).len() == zones@[0]@.len());
                say(out, counted("  CloudKit returned ", zones[0].len(), " change(s)"));
            }
        },
        Event::SyncFailed { text, reset } => {
            if *reset && !resynced {
                say(out, "  CloudKit sync asked for a reset; retrying once".to_string());
            } else {
                say(out, failure_with("[6/7] CloudKit fetch", n, text.as_str()));
            }
        },
        _ => {},
    }
    assert(texts(out@) =~= texts(old(out)@) + sync_messages(event@, n@, resynced));
}

fn message_on_change(c: &ChangeHeader, names: &RecordNames, debug: bool) -> (r: Option<String>)
    ensures
        match r {
            Some(m) => change_message(c@, names@, debug) == Some(m@),
            None => change_message(c@, names@, debug) is None,
        },
{
    match &c.identifier {
        None => Some("  skipping a change with no record identifier".to_string()),
        Some(id) => match triage(c, names) {
            Triage::Malformed => {
                let mut line = joined("  skipping change ", sanitize(id.as_str()).as_str());
                line.append(": record has no type");
                Some(line)
            },
            Triage::Shared => {
                if debug {
                    let mut line = joined(
                        "  [debug] Shared beacon id=",
                        sanitize(id.as_str()).as_str(),
                    );
                    line.append(" (not exported)");
                    Some(line)
                } else {
                    None
                }
            },
            _ => None,
        },
    }
}

/// Reports on the first `count` changes. Says how many of them are malformed.
fn report_changes(
    out: &mut Vec<String>,
    changes: &Vec<ChangeHeader>,
    names: &RecordNames,
    count: usize,
    debug: bool,
) -> (r: usize)
    requires
        count <= changes@.len(),
    ensures
        texts(final(out)@) == texts(old(out)@) + change_messages(
            change_views(changes@).take(count as int),
            names@,
            debug,
        ),
        r == malformed(change_views(changes@).take(count as int), names@),
{
    let ghost before = texts(out@);
    let ghost views = change_views(changes@);
    let mut skipped: usize = 0;
    assert(texts(out@) =~= before + change_messages(views.take(0), names@, debug));
    for i in 0..count
        invariant
            count <= changes@.len(),
            views == change_views(changes@),
            skipped <= i,
            skipped == malformed(views.take(i as int), names@),
            texts(out@) == before + change_messages(views.take(i as int), names@, debug),
    {
        assert(views.take(i + 1).drop_last() =~= views.take(i as int));
        assert(views.take(i + 1).last() == changes@[i as int]@);
        if triage(&changes[i], names) == Triage::Malformed {
            skipped += 1;
        }
        if let Some(line) = message_on_change(&changes[i], names, debug) {
            say(out, line);
        }
        assert(texts(out@) =~= before + change_messages(views.take(i + 1), names@, debug));
    }
    skipped
}

fn report_records(out: &mut Vec<String>, records: &Records, n: &Noted)
    ensures
        texts(final(out)@) == texts(old(out)@) + record_messages(records@, n@),
{
    let masters = records.masters.len();
    let mut line = counted("  Records decrypted: ", masters, " master, ");
    push_decimal(&mut line, records.namings.len() as u64);
    line.append(" naming, ");
    push_decimal(&mut line, records.alignments.len() as u64);
    line.append(" alignment");
    say(out, line);
    let mut line = counted("[7/7] Assembling ", masters, " accessory export(s)... (total ");
    line.append(n.elapsed.as_str());
    line.append("s)");
    say(out, line);
    if masters == 0 {
        say(
            out,
            "!! WARNING: export succeeded with zero accessories — the caller will report a connected account with no tags".to_string(),
        );
    }
    assert(texts(out@) =~= texts(old(out)@) + record_messages(records@, n@));
}

fn report_decoding(out: &mut Vec<String>, run: &Export, event: &Event, n: &Noted, debug: bool)
    ensures
        texts(final(out)@) == texts(old(out)@) + decoding_messages(run@, event@, n@, debug),
{
    let ghost before = texts(out@);
    let changes = run.changes();
    let names = run.names();
    let ghost views = change_views(changes@);
    assert(views.take(views.len() as int) =~= views);
    match event {
        Event::RecordsDecoded { records } => {
            let skipped = report_changes(out, changes, names, changes.len(), debug);
            if skipped > 0 {
                let line = counted("  Skipped ", skipped, " malformed change(s) from CloudKit");
                say(out, line);
            }
            report_records(out, records, n);
        },
        Event::DecodingFailed { at, text } => {
            let count: usize = if *at < changes.len() {
                *at
            } else {
                changes.len()
            };
            report_changes(out, changes, names, count, debug);
            say(out, failure_with("[6/7] PCS record keys", n, text.as_str()));
        },
        _ => {},
    }
    assert(texts(out@) =~= before + decoding_messages(run@, event@, n@, debug));
}

/// Makes log lines of messages.
fn lined(opts: &ExportOpts, said: &Vec<String>) -> (r: Vec<String>)
    ensures
        texts(r@) == lines(opts@, texts(said@)),
{
    let mut out: Vec<String> = Vec::new();
    for i in 0..said.len()
        invariant
            out@.len() == i,
            forall|k: int|
                0 <= k < i ==> (#[trigger] out@[k])@ == log_line_text(
                    opts@.apple_id,
                    opts@.session_id,
                    said@[k]@,
                ),
    {
        let session = opts.session_id.as_str();
        out.push(log_line(opts.apple_id.as_str(), session, said[i].as_str()));
    }
    assert(texts(out@) =~= lines(opts@, texts(said@)));
    out
}

/// The log lines of the beginning of a run.
pub fn opening_lines(opts: &ExportOpts) -> (r: Vec<String>)
    ensures
        texts(r@) == lines(opts@, opening(opts@.anisette_url)),
{
    let mut said: Vec<String> = Vec::new();
    let mut line = joined("[1/7] Connecting to anisette server (", opts.anisette_url.as_str());
    line.append(")...");
    say(&mut said, line);
    say(&mut said, "[2/7] Logging in to Apple ID...".to_string());
    assert(texts(said@) =~= opening(opts@.anisette_url));
    lined(opts, &said)
}

/// The log lines of a run on an event. To be asked for before the run takes the event in.
pub fn lines_on(opts: &ExportOpts, run: &Export, event: &Event, n: &Noted) -> (r: Vec<String>)
    ensures
        texts(r@) == lines(opts@, messages(run@, event@, n@, opts@.debug)),
{
    let mut said: Vec<String> = Vec::new();
    match run.stage() {
        Stage::Login => report_login(&mut said, event, n),
        Stage::Delegate => report_delegates(&mut said, event, n),
        Stage::SetUp => report_set_up(&mut said, event, n),
        Stage::Bottles => report_bottles(&mut said, event, n),
        Stage::Device => {
            let devices = run.devices();
            assert(device_views(devices@).len() == devices@.len());
            report_choice(&mut said, event, n, devices.len());
        },
        Stage::Passcode => report_passcode(&mut said, run, event, n),
        Stage::Join => report_join(&mut said, run, event, n),
        Stage::Report => {},
        Stage::Container => report_container(&mut said, event, n),
        Stage::ZoneKeys => report_zone_keys(&mut said, event, n),
        Stage::Sync => report_sync(&mut said, event, n, run.resynced()),
        Stage::Decode => report_decoding(&mut said, run, event, n, opts.debug),
        Stage::Finished => {},
    }
    assert(texts(said@) =~= messages(run@, event@, n@, opts@.debug));
    lined(opts, &said)
}

/// Whether two events differ in nothing but the text of a passcode of the same length.
pub open spec fn same_but_secret(a: EventView, b: EventView) -> bool {
    match (a, b) {
        (
            EventView::PasscodeGiven { passcode: Ok(p) },
            EventView::PasscodeGiven { passcode: Ok(q) },
        ) => p.len() == q.len(),
        _ => a == b,
    }
}

/// Whether two runs are asked for the same but for the password.
pub open spec fn same_but_password(a: OptsView, b: OptsView) -> bool {
    a == OptsView { password: a.password, ..b }
}

proof fn lemma_secrets_stay_out(
    a: OptsView,
    b: OptsView,
    s: ExportView,
    events: Seq<EventView>,
    others: Seq<EventView>,
    noted: Seq<NotedView>,
)
    requires
        same_but_password(a, b),
        events.len() == others.len(),
        forall|i: int| 0 <= i < events.len() ==> same_but_secret(#[trigger] events[i], others[i]),
    ensures
        lines_over(a, s, events, noted) == lines_over(b, s, others, noted),
    decreases events.len(),
{
    if events.len() > 0 {
        assert(same_but_secret(events[0], others[0]));
        assert(transition(s, events[0]).0 == transition(s, others[0]).0);
        assert(messages(s, events[0], noted[0], a.debug) == messages(
            s,
            others[0],
            noted[0],
            b.debug,
        ));
        assert(lines(a, messages(s, events[0], noted[0], a.debug)) =~= lines(
            b,
            messages(s, others[0], noted[0], b.debug),
        ));
        let (rest, other_rest) = (events.drop_first(), others.drop_first());
        assert forall|i: int| 0 <= i < rest.len() implies same_but_secret(
            #[trigger] rest[i],
            other_rest[i],
        ) by {
            assert(same_but_secret(events[i + 1], others[i + 1]));
        }
        lemma_secrets_stay_out(
            a,
            b,
            transition(s, events[0]).0,
            rest,
            other_rest,
            noted.drop_first(),
        );
    }
}

/// No secret reaches the log of a run. Two runs that agree on everything but the text of the
/// password, of the 2FA code and of the passcodes, write the same lines: the password and the code
/// go into none of them, and of a passcode only the number of its characters does.
pub proof fn law_secrets_stay_out_of_the_log(
    a: OptsView,
    b: OptsView,
    names: RecordNamesView,
    events: Seq<EventView>,
    others: Seq<EventView>,
    noted: Seq<NotedView>,
)
    requires
        same_but_password(a, b),
        events.len() == others.len(),
        forall|i: int| 0 <= i < events.len() ==> same_but_secret(#[trigger] events[i], others[i]),
    ensures
        run_lines(a, names, events, noted) == run_lines(b, names, others, noted),
{
    lemma_secrets_stay_out(a, b, fresh(names), events, others, noted);
    assert(lines(a, opening(a.anisette_url)) =~= lines(b, opening(b.anisette_url)));
}

/// Whether a message tells of a failure.
pub open spec fn tells_of_failure(message: Seq<char>) -> bool {
    "!! FAILED at "@.is_prefix_of(message)
}

proof fn lemma_tells(start: Seq<char>, rest: Seq<char>)
    requires
        tells_of_failure(start),
    ensures
        tells_of_failure(start + rest),
{
    let mark = "!! FAILED at "@;
    assert((start + rest).subrange(0, mark.len() as int) =~= start.subrange(0, mark.len() as int));
}

proof fn lemma_failed_tells(step: Seq<char>, n: NotedView, what: Seq<char>)
    ensures
        tells_of_failure(failed(step, n, what)),
{
    let mark = "!! FAILED at "@;
    assert(mark.subrange(0, mark.len() as int) =~= mark);
    lemma_tells(mark, step);
    lemma_tells(mark + step, " after "@);
    lemma_tells(mark + step + " after "@, n.elapsed);
    lemma_tells(mark + step + " after "@ + n.elapsed, "s: "@);
    lemma_tells(mark + step + " after "@ + n.elapsed + "s: "@, what);
}

/// Failures are logged where they happen: an event that ends a run without accessories leaves a
/// line that says so.
pub proof fn law_every_failure_is_logged(s: ExportView, e: EventView, n: NotedView, debug: bool)
    requires
        s.valid(),
        transition(s, e).1 matches ActionView::Finish { result } && result is Err,
    ensures
        exists|i: int|
            0 <= i < messages(s, e, n, debug).len() && tells_of_failure(
                #[trigger] messages(s, e, n, debug)[i],
            ),
{
    let all = messages(s, e, n, debug);
    assert forall|step: Seq<char>, what: Seq<char>| tells_of_failure(
        #[trigger] failed(step, n, what),
    ) by {
        lemma_failed_tells(step, n, what);
    }
    reveal_strlit("!! FAILED at ");
    let out_of_range = "!! FAILED at [5/7] device choice: index "@;
    let join = "!! FAILED at [5/7] join trust circle after "@;
    reveal_strlit("!! FAILED at [5/7] device choice: index ");
    reveal_strlit("!! FAILED at [5/7] join trust circle after ");
    assert(tells_of_failure(out_of_range)) by {
        assert(out_of_range.subrange(0, 13) =~= "!! FAILED at "@);
    }
    assert(tells_of_failure(join)) by {
        assert(join.subrange(0, 13) =~= "!! FAILED at "@);
    }
    match e {
        EventView::ClientsSetUp { .. } | EventView::BottlesFetched { .. } => {
            assert(tells_of_failure(all.last()));
        },
        EventView::DecodingFailed { .. } => {
            assert(tells_of_failure(all.last()));
        },
        EventView::DeviceChosen { choice: Ok(index) } => {
            let devices = s.devices.len();
            lemma_tells(out_of_range, decimal(index));
            lemma_tells(out_of_range + decimal(index), " out of range 0-"@);
            lemma_tells(
                out_of_range + decimal(index) + " out of range 0-"@,
                decimal(last_of(devices)),
            );
            assert(tells_of_failure(all[0]));
        },
        EventView::JoinFailed { failure } => {
            let a = join + n.elapsed;
            let b = a + "s ("@;
            let c = b + n.spent;
            let d = c + "s in the join): "@;
            let f = d + failure.text;
            let g = f + " ["@;
            let h = g + failure.debug;
            lemma_tells(join, n.elapsed);
            lemma_tells(a, "s ("@);
            lemma_tells(b, n.spent);
            lemma_tells(c, "s in the join): "@);
            lemma_tells(d, failure.text);
            lemma_tells(f, " ["@);
            lemma_tells(g, failure.debug);
            lemma_tells(h, "]"@);
            assert(tells_of_failure(all[0]));
        },
        _ => {
            assert(tells_of_failure(all[0]));
        },
    }
}

/// The line of a failure: the step, the time that the run had taken, and what failed.
pub open spec fn failure_line(step: Seq<char>, elapsed: Seq<char>, what: Seq<char>) -> Seq<char> {
    "!! FAILED at "@ + step + " after "@ + elapsed + "s: "@ + what
}

/// The line of a failure that came with an error, told in its words and with its variant.
pub open spec fn error_line(step: Seq<char>, n: NotedView, text: Seq<char>) -> Seq<char> {
    "!! FAILED at "@ + step + " after "@ + n.elapsed + "s: "@ + (text + " ["@ + n.debug + "]"@)
}

/// Each message of a run is one line of the log, in order, with the Apple ID and the tag of the
/// run.
pub proof fn law_each_message_is_a_line(opts: OptsView, said: Messages, i: int)
    ensures
        lines(opts, said).len() == said.len(),
        0 <= i < said.len() ==> lines(opts, said)[i] == log_line_text(
            opts.apple_id,
            opts.session_id,
            said[i],
        ),
{
}

/// A run begins with two lines: the anisette server that it turns to, and the login.
pub proof fn law_what_is_said_at_the_beginning(anisette_url: Seq<char>)
    ensures
        opening(anisette_url).len() == 2,
        opening(anisette_url)[0] == "[1/7] Connecting to anisette server ("@ + anisette_url
            + ")..."@,
        opening(anisette_url)[1] == "[2/7] Logging in to Apple ID..."@,
{
}

/// What is said of the login: the number of the account and the step that is next, or what failed.
pub proof fn law_what_is_said_of_the_login(
    s: ExportView,
    e: EventView,
    n: NotedView,
    debug: bool,
)
    requires
        s.stage == Stage::Login,
    ensures
        ({
            let m = messages(s, e, n, debug);
            match e {
                EventView::LoggedIn { spd } => match account_of(spd) {
                    Ok(account) => {
                        &&& m.len() == 2
                        &&& m[0] == "  Logged in (dsid="@ + account.dsid + ") after "@ + n.elapsed
                            + "s"@
                        &&& m[1] == "[3/7] Fetching MobileMe delegate..."@
                    },
                    Err(error) => m.len() == 1 && m[0] == failure_line(
                        "[2/7] login"@,
                        n.elapsed,
                        error.message(),
                    ),
                },
                EventView::LoginFailed { kind: _, text } => m.len() == 1 && m[0] == error_line(
                    "[2/7] login"@,
                    n,
                    text,
                ),
                _ => m.len() == 0,
            }
        }),
{
}

/// What is said of the delegates and of the clients.
pub proof fn law_what_is_said_of_the_clients(
    s: ExportView,
    e: EventView,
    n: NotedView,
    debug: bool,
)
    ensures
        s.stage == Stage::Delegate ==> {
            let m = messages(s, e, n, debug);
            match e {
                EventView::Delegates { mobileme } => {
                    &&& m.len() == 1
                    &&& mobileme ==> m[0] == "[4/7] Setting up CloudKit & Keychain..."@
                    &&& !mobileme ==> m[0] == failure_line(
                        "[3/7] MobileMe delegate"@,
                        n.elapsed,
                        "No MobileMe delegate returned"@,
                    )
                },
                EventView::DelegatesFailed { text } => m.len() == 1 && m[0] == error_line(
                    "[3/7] MobileMe delegate"@,
                    n,
                    text,
                ),
                _ => m.len() == 0,
            }
        },
        s.stage == Stage::SetUp ==> {
            let m = messages(s, e, n, debug);
            match e {
                EventView::ClientsSetUp { cloudkit, host_named } => {
                    &&& host_named ==> m.len() == 1
                    &&& !host_named ==> m.len() == 2 && m[0]
                        == "  (escrowProxyUrl not in MobileMe config, using default)"@
                    &&& cloudkit ==> m.last() == "[5/7] Joining iCloud Keychain trust circle..."@
                    &&& !cloudkit ==> m.last() == failure_line(
                        "[4/7] CloudKit setup"@,
                        n.elapsed,
                        "Failed to create CloudKitState"@,
                    )
                },
                _ => m.len() == 0,
            }
        },
{
}

/// What is said of the bottles: how many came, how many can be used and how many were dropped, and
/// then one line for each device that is offered, in the order in which they are offered.
pub proof fn law_what_is_said_of_the_bottles(
    s: ExportView,
    e: EventView,
    n: NotedView,
    debug: bool,
)
    requires
        s.stage == Stage::Bottles,
    ensures
        ({
            let m = messages(s, e, n, debug);
            let counts = |all: nat, ours: nat, theirs: nat|
                "  Escrow bottles: "@ + decimal(all) + " returned, "@ + decimal(theirs)
                    + " usable (dropped "@ + decimal(ours) + " of our own)"@;
            match e {
                EventView::BottlesFetched { bottles } => match transition(s, e).1 {
                    ActionView::ChooseDevice { devices } => {
                        &&& devices.len() <= bottles.len()
                        &&& m.len() == 2 + devices.len()
                        &&& m[0] == counts(
                            bottles.len(),
                            (bottles.len() - devices.len()) as nat,
                            devices.len(),
                        )
                        &&& m[1] == "  Found "@ + decimal(devices.len()) + " usable device(s):"@
                        &&& forall|k: int|
                            0 <= k < devices.len() ==> #[trigger] m[2 + k] == device_line_text(
                                k as nat,
                                devices[k],
                            )
                    },
                    _ => {
                        &&& m.len() == 2
                        &&& m[0] == counts(bottles.len(), bottles.len(), 0)
                        &&& m[1] == failure_line(
                            "[5/7] escrow bottles"@,
                            n.elapsed,
                            "no usable bottles"@,
                        )
                    },
                },
                EventView::BottlesFailed { text } => m.len() == 1 && m[0] == error_line(
                    "[5/7] fetch escrow bottles"@,
                    n,
                    text,
                ),
                _ => m.len() == 0,
            }
        }),
{
    if let EventView::BottlesFetched { bottles } = e {
        lemma_usable_count(bottles);
        let devices = devices_at(bottles, usable(bottles));
        let m = messages(s, e, n, debug);
        if devices.len() > 0 {
            assert forall|k: int| 0 <= k < devices.len() implies #[trigger] m[2 + k]
                == device_line_text(k as nat, devices[k]) by {
                assert(m[2 + k] == device_messages(devices)[k]);
            }
        }
    }
}

/// No more bottles can be used than there are.
proof fn lemma_usable_count(bottles: Seq<BottleView>)
    ensures
        usable(bottles).len() <= bottles.len(),
    decreases bottles.len(),
{
    if bottles.len() > 0 {
        lemma_usable_count(bottles.drop_last());
    }
}

/// What is said of a choice and of a passcode: a choice that is none of the devices, by its number
/// and the last one that there is; of a passcode, the picked device and how many characters it has;
/// and of an input that never came, why.
pub proof fn law_what_is_said_of_the_inputs(
    s: ExportView,
    e: EventView,
    n: NotedView,
    debug: bool,
)
    ensures
        s.stage == Stage::Device ==> {
            let m = messages(s, e, n, debug);
            match e {
                EventView::DeviceChosen { choice: Ok(index) } => {
                    &&& index < s.devices.len() ==> m.len() == 0
                    &&& index >= s.devices.len() ==> m.len() == 1 && m[0]
                        == "!! FAILED at [5/7] device choice: index "@ + decimal(index)
                        + " out of range 0-"@ + decimal(
                        if s.devices.len() == 0 {
                            0
                        } else {
                            (s.devices.len() - 1) as nat
                        },
                    )
                },
                EventView::DeviceChosen { choice: Err(error) } => m.len() == 1 && m[0]
                    == error_line("[5/7] device choice"@, n, error.message()),
                _ => m.len() == 0,
            }
        },
        s.stage == Stage::Passcode ==> {
            let m = messages(s, e, n, debug);
            match e {
                EventView::PasscodeGiven { passcode: Ok(p) } => m.len() == 1 && m[0] == choice_text(
                    s.chosen as nat,
                    s.devices[s.chosen],
                    p.len(),
                ),
                EventView::PasscodeGiven { passcode: Err(error) } => m.len() == 1 && m[0]
                    == error_line("[5/7] passcode input"@, n, error.message()),
                _ => m.len() == 0,
            }
        },
{
}

/// What is said of a join: the time that it took, or its failure in its own words; and of a failed
/// signature check also the last checkpoint, the signature, and whether another device is asked
/// for.
pub proof fn law_what_is_said_of_a_join(s: ExportView, e: EventView, n: NotedView, debug: bool)
    requires
        s.stage == Stage::Join,
        s.valid(),
    ensures
        ({
            let m = messages(s, e, n, debug);
            match e {
                EventView::Joined => {
                    &&& m.len() == 2
                    &&& m[0] == "  Joined keychain trust circle in "@ + n.spent + "s!"@
                    &&& m[1] == "[6/7] Fetching FindMy accessories from CloudKit..."@
                },
                EventView::JoinFailed { failure } => {
                    let first = "!! FAILED at [5/7] join trust circle after "@ + n.elapsed
                        + "s ("@ + n.spent + "s in the join): "@ + failure.text + " ["@
                        + failure.debug + "]"@;
                    let site = if failure.check is Some {
                        "   => signature check failed on "@ + failure.check->0
                            + " — NOT a rejected passcode (the bottle had already decrypted)"@
                    } else {
                        "   => BadMsg at a point with no expected signature check; not one of the known join sites"@
                    };
                    let next = if s.devices.len() < 2 {
                        "   => no retry (only one trusted device); ending the attempt"@
                    } else if s.attempt < 3 {
                        "   => asking for another device (attempt "@ + decimal(
                            (s.attempt + 1) as nat,
                        ) + "/"@ + decimal(3) + ")"@
                    } else {
                        "   => no retry (attempts spent); ending the attempt"@
                    };
                    &&& m[0] == first
                    &&& !failure.bad_msg ==> m.len() == 1
                    &&& failure.bad_msg && failure.reached is Some ==> {
                        &&& m.len() == 4
                        &&& m[1] == "   last keychain checkpoint: \""@ + failure.reached->0 + "\""@
                        &&& m[2] == site
                        &&& m[3] == next
                    }
                    &&& failure.bad_msg && failure.reached is None ==> {
                        &&& m.len() == 3
                        &&& m[1] == site
                        &&& m[2] == next
                    }
                },
                _ => m.len() == 0,
            }
        }),
{
}

/// What is said of CloudKit: what failed, that a sync is repeated, or how many changes it brought.
pub proof fn law_what_is_said_of_cloudkit(s: ExportView, e: EventView, n: NotedView, debug: bool)
    ensures
        s.stage == Stage::Report || s.stage == Stage::Finished ==> messages(
            s,
            e,
            n,
            debug,
        ).len() == 0,
        s.stage == Stage::Container ==> {
            let m = messages(s, e, n, debug);
            match e {
                EventView::ContainerFailed { text } => m.len() == 1 && m[0] == error_line(
                    "[6/7] CloudKit container init"@,
                    n,
                    text,
                ),
                _ => m.len() == 0,
            }
        },
        s.stage == Stage::ZoneKeys ==> {
            let m = messages(s, e, n, debug);
            match e {
                EventView::ZoneKeysFailed { text } => m.len() == 1 && m[0] == error_line(
                    "[6/7] zone encryption config"@,
                    n,
                    text,
                ),
                _ => m.len() == 0,
            }
        },
        s.stage == Stage::Sync ==> {
            let m = messages(s, e, n, debug);
            match e {
                EventView::Synced { zones } => {
                    &&& m.len() == 1
                    &&& zones.len() > 0 ==> m[0] == "  CloudKit returned "@ + decimal(
                        zones[0].len(),
                    ) + " change(s)"@
                    &&& zones.len() == 0 ==> m[0] == failure_line(
                        "[6/7] CloudKit fetch"@,
                        n.elapsed,
                        "CloudKit returned no BeaconStore zone"@,
                    )
                },
                EventView::SyncFailed { text, reset } => {
                    &&& m.len() == 1
                    &&& reset && !s.resynced ==> m[0]
                        == "  CloudKit sync asked for a reset; retrying once"@
                    &&& !reset || s.resynced ==> m[0] == error_line(
                        "[6/7] CloudKit fetch"@,
                        n,
                        text,
                    )
                },
                _ => m.len() == 0,
            }
        },
{
}

/// Every change is counted and told of by itself, wherever it stands: one that is malformed, with
/// the part that it lacks; and one that is shared, where details were asked for.
pub proof fn law_each_change_is_told_by_itself(
    first: Seq<ChangeView>,
    then: Seq<ChangeView>,
    c: ChangeView,
    names: RecordNamesView,
    debug: bool,
)
    ensures
        change_messages(Seq::empty(), names, debug).len() == 0,
        malformed(Seq::empty(), names) == 0,
        change_messages(first + then, names, debug) == change_messages(first, names, debug)
            + change_messages(then, names, debug),
        malformed(first + then, names) == malformed(first, names) + malformed(then, names),
        ({
            let m = change_messages(seq![c], names, debug);
            let what = triages(seq![c], names)[0];
            &&& malformed(seq![c], names) == (if what == Triage::Malformed {
                1nat
            } else {
                0
            })
            &&& c.identifier is None ==> m.len() == 1 && m[0]
                == "  skipping a change with no record identifier"@
            &&& c.identifier matches Some(id) ==> {
                &&& what == Triage::Malformed ==> m.len() == 1 && m[0] == "  skipping change "@
                    + sanitized(id) + ": record has no type"@
                &&& what == Triage::Shared && debug ==> m.len() == 1 && m[0]
                    == "  [debug] Shared beacon id="@ + sanitized(id) + " (not exported)"@
                &&& what == Triage::Shared && !debug ==> m.len() == 0
                &&& what != Triage::Malformed && what != Triage::Shared ==> m.len() == 0
            }
        }),
    decreases then.len(),
{
    assert(seq![c].drop_last() =~= Seq::empty());
    assert(seq![c].last() == c);
    reveal_with_fuel(change_messages, 2);
    reveal_with_fuel(malformed, 2);
    if then.len() == 0 {
        assert(first + then =~= first);
        assert(change_messages(first, names, debug) =~= change_messages(first, names, debug)
            + change_messages(then, names, debug));
    } else {
        law_each_change_is_told_by_itself(first, then.drop_last(), c, names, debug);
        assert((first + then).drop_last() =~= first + then.drop_last());
        assert((first + then).last() == then.last());
        assert(change_messages(first + then, names, debug) =~= change_messages(first, names, debug)
            + change_messages(then, names, debug));
    }
}

/// What is said of the records: of each change that was passed over, of how many were malformed,
/// and of how many records of each kind there are; an export without accessories is warned of. Of
/// records that could not be decoded the failure is told, after the changes before it.
pub proof fn law_what_is_said_of_the_records(
    s: ExportView,
    records: RecordsView,
    at: nat,
    text: Seq<char>,
    n: NotedView,
    debug: bool,
)
    requires
        s.stage == Stage::Decode,
    ensures
        ({
            let m = messages(s, EventView::RecordsDecoded { records }, n, debug);
            let passed = change_messages(s.changes, s.names, debug);
            let skipped = malformed(s.changes, s.names);
            let k = passed.len() as int;
            let j = if skipped == 0 {
                k
            } else {
                k + 1
            };
            &&& m.take(k) == passed
            &&& skipped > 0 ==> m[k] == "  Skipped "@ + decimal(skipped)
                + " malformed change(s) from CloudKit"@
            &&& m[j] == "  Records decrypted: "@ + decimal(records.masters.len()) + " master, "@
                + decimal(records.namings.len()) + " naming, "@ + decimal(
                records.alignments.len(),
            ) + " alignment"@
            &&& m[j + 1] == "[7/7] Assembling "@ + decimal(records.masters.len())
                + " accessory export(s)... (total "@ + n.elapsed + "s)"@
            &&& records.masters.len() > 0 ==> m.len() == j + 2
            &&& records.masters.len() == 0 ==> m.len() == j + 3 && m[j + 2]
                == "!! WARNING: export succeeded with zero accessories — the caller will report a connected account with no tags"@
        }),
        ({
            let m = messages(s, EventView::DecodingFailed { at, text }, n, debug);
            let seen = s.changes.take(
                if at <= s.changes.len() {
                    at as int
                } else {
                    s.changes.len() as int
                },
            );
            &&& m.len() > 0
            &&& m.drop_last() == change_messages(seen, s.names, debug)
            &&& m.last() == error_line("[6/7] PCS record keys"@, n, text)
        }),
{
    let m = messages(s, EventView::RecordsDecoded { records }, n, debug);
    let passed = change_messages(s.changes, s.names, debug);
    assert(m.take(passed.len() as int) =~= passed);
    let f = messages(s, EventView::DecodingFailed { at, text }, n, debug);
    assert(s.changes.take(s.changes.len() as int) =~= s.changes);
    assert(f.drop_last() =~= change_messages(changes_before(s.changes, at), s.names, debug));
}

/// Nothing is said of records by an event that brings none.
pub proof fn law_only_records_are_told_of(s: ExportView, e: EventView, n: NotedView, debug: bool)
    requires
        s.stage == Stage::Decode,
        !(e is RecordsDecoded),
        !(e is DecodingFailed),
    ensures
        messages(s, e, n, debug).len() == 0,
{
}

/// What is noted beside an event is seen in full.
pub proof fn law_what_is_noted_is_seen_in_full(n: Noted)
    ensures
        n@.elapsed == n.elapsed@,
        n@.spent == n.spent@,
        n@.debug == n.debug@,
{
}

} // verus!

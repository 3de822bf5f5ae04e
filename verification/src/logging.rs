//! The log: which records are printed, how a line looks, and how far a trust-circle join got.
//!
//! rustpush's keychain module logs decrypted keychain contents beside the lines that say where a
//! join stands. So its records below `warn` are printed only where they are on an allowlist, and
//! the last join checkpoint seen is kept for each export, so that a failed signature check can be
//! named.

use vstd::prelude::*;

use crate::text::{starts_with, trim};

verus! {

/// The level of a log record, from the most to the least severe.
#[derive(Clone, Copy, Debug, PartialEq, Eq, Structural)]
pub enum Level {
    Error,
    Warn,
    Info,
    Debug,
    Trace,
}

impl Level {
    /// The position of the level, from 1 for the most severe.
    pub open spec fn rank(self) -> int {
        match self {
            Level::Error => 1,
            Level::Warn => 2,
            Level::Info => 3,
            Level::Debug => 4,
            Level::Trace => 5,
        }
    }

    /// The name of the level, filled up with blanks to five characters.
    pub open spec fn padded_name(self) -> Seq<char> {
        match self {
            Level::Error => "ERROR"@,
            Level::Warn => "WARN "@,
            Level::Info => "INFO "@,
            Level::Debug => "DEBUG"@,
            Level::Trace => "TRACE"@,
        }
    }

    /// The name of the level, filled up with blanks to five characters.
    pub fn padded(self) -> (r: &'static str)
        ensures
            r@ == self.padded_name(),
    {
        match self {
            Level::Error => "ERROR",
            Level::Warn => "WARN ",
            Level::Info => "INFO ",
            Level::Debug => "DEBUG",
            Level::Trace => "TRACE",
        }
    }
}

/// The module whose records below `warn` are subject to the allowlist.
pub const KEYCHAIN_TARGET: &'static str = "rustpush::icloud::keychain";

/// The filter in force where the environment sets none: dependencies at `warn`, this crate's own
/// records at `info`, and the keychain module at `debug`, where the allowlist takes over.
pub const DEFAULT_FILTER: &'static str =
    "warn,export_findmy=info,rustpush::icloud::keychain=debug";

/// How many checkpoints there are.
pub const CHECKPOINT_COUNT: usize = 7;

/// One known-safe line of the keychain module, and the signature check, if any, that follows it
/// directly in a trust-circle join.
#[derive(Clone, Copy)]
pub struct Checkpoint {
    prefix: &'static str,
    verifies: Option<&'static str>,
}

/// The text of an optional string.
pub open spec fn text_of(s: Option<&str>) -> Option<Seq<char>> {
    match s {
        Some(t) => Some(t@),
        None => None,
    }
}

impl Checkpoint {
    /// What the message begins with.
    pub closed spec fn start(self) -> Seq<char> {
        self.prefix@
    }

    /// The signature that is checked next, if one is.
    pub closed spec fn check(self) -> Option<Seq<char>> {
        text_of(self.verifies)
    }

    /// The beginning of the message that was matched, for the operator's log line.
    pub fn prefix(&self) -> (r: &'static str)
        ensures
            r@ == self.start(),
    {
        self.prefix
    }

    /// What a failed signature check straight after this checkpoint means, or `None` where the
    /// join checks no signature there.
    pub fn verifies(&self) -> (r: Option<&'static str>)
        ensures
            text_of(r) == self.check(),
    {
        self.verifies
    }
}

/// What the message of each checkpoint begins with, in the order in which a join walks them.
pub open spec fn checkpoint_start(i: int) -> Seq<char> {
    if i == 0 {
        "Available as "@
    } else if i == 1 {
        "Self vouching as "@
    } else if i == 2 {
        "Entering on key "@
    } else if i == 3 {
        "Joining with "@
    } else if i == 4 {
        "Deriving trust from peer "@
    } else if i == 5 {
        "Synced Trust!"@
    } else {
        "Joining clique"@
    }
}

/// The signature that a join checks right after each checkpoint, if it checks one.
pub open spec fn checkpoint_check(i: int) -> Option<Seq<char>> {
    if i == 0 {
        Some(
            "the escrow bottle's owning peer (its peer-key signature, or that peer's dynamic info)"@,
        )
    } else if i == 2 {
        Some("a TLK share's signature, from the peer that sent it"@)
    } else if i == 4 {
        Some("the sponsoring peer's dynamic info, while deriving trust"@)
    } else {
        None
    }
}

/// The checkpoint at position `i` of the order in which a join walks them.
pub fn checkpoint(i: usize) -> (r: Checkpoint)
    requires
        i < CHECKPOINT_COUNT,
    ensures
        r.start() == checkpoint_start(i as int),
        r.check() == checkpoint_check(i as int),
{
    if i == 0 {
        // The escrow blob decrypted, so the passcode was right. Two checks follow with no line
        // between them, so they share an entry.
        Checkpoint {
            prefix: "Available as ",
            verifies: Some(
                "the escrow bottle's owning peer (its peer-key signature, or that peer's dynamic info)",
            ),
        }
    } else if i == 1 {
        // Vouching only signs; nothing is verified before the shares are fetched.
        Checkpoint { prefix: "Self vouching as ", verifies: None }
    } else if i == 2 {
        // Printed once for each share, right before that share's signature is checked.
        Checkpoint {
            prefix: "Entering on key ",
            verifies: Some("a TLK share's signature, from the peer that sent it"),
        }
    } else if i == 3 {
        Checkpoint { prefix: "Joining with ", verifies: None }
    } else if i == 4 {
        Checkpoint {
            prefix: "Deriving trust from peer ",
            verifies: Some("the sponsoring peer's dynamic info, while deriving trust"),
        }
    } else if i == 5 {
        Checkpoint { prefix: "Synced Trust!", verifies: None }
    } else {
        Checkpoint { prefix: "Joining clique", verifies: None }
    }
}

/// The first checkpoint from position `from` on whose beginning `message` has.
pub open spec fn first_checkpoint(message: Seq<char>, from: int) -> Option<int>
    decreases CHECKPOINT_COUNT - from,
{
    if from < 0 || from >= CHECKPOINT_COUNT {
        None
    } else if checkpoint_start(from).is_prefix_of(message) {
        Some(from)
    } else {
        first_checkpoint(message, from + 1)
    }
}

/// The checkpoint that `message` is, by its beginning, or `None` if it is none.
pub fn classify(message: &str) -> (r: Option<usize>)
    ensures
        match r {
            Some(i) => i < CHECKPOINT_COUNT && first_checkpoint(message@, 0) == Some(i as int),
            None => first_checkpoint(message@, 0) is None,
        },
{
    let mut i: usize = 0;
    while i < CHECKPOINT_COUNT
        invariant
            i <= CHECKPOINT_COUNT,
            first_checkpoint(message@, 0) == first_checkpoint(message@, i as int),
        decreases CHECKPOINT_COUNT - i,
    {
        let c = checkpoint(i);
        if starts_with(message, c.prefix()) {
            return Some(i);
        }
        i += 1;
    }
    None
}

/// Whether `message` is one of the two lines of the escrow lookup that are safe to print though
/// they say nothing of where a join stands.
pub open spec fn safe_diagnostic(message: Seq<char>) -> bool {
    ||| "Escrow lookup returned "@.is_prefix_of(message)
    ||| "Escrow metadata schema mismatch: "@.is_prefix_of(message)
}

/// Whether a keychain line that is no checkpoint is nonetheless safe to print.
pub fn is_safe_diagnostic(message: &str) -> (r: bool)
    ensures
        r == safe_diagnostic(message@),
{
    starts_with(message, "Escrow lookup returned ") || starts_with(
        message,
        "Escrow metadata schema mismatch: ",
    )
}

/// Whether a record is subject to the keychain allowlist: of that module, and below `warn`.
pub open spec fn keychain_detail(target: Seq<char>, level: Level) -> bool {
    KEYCHAIN_TARGET@.is_prefix_of(target) && level.rank() > Level::Warn.rank()
}

/// Whether a record is subject to the keychain allowlist: of that module, and below `warn`.
pub fn is_keychain_detail(target: &str, level: Level) -> (r: bool)
    ensures
        r == keychain_detail(target@, level),
{
    starts_with(target, KEYCHAIN_TARGET) && level != Level::Error && level != Level::Warn
}

/// What the log keeps of one export: its session tag, and the last checkpoint that it reached.
pub struct LogScope {
    session: String,
    reached: Option<usize>,
}

impl LogScope {
    /// The tag that the lines of this export carry.
    pub closed spec fn tag(self) -> Seq<char> {
        self.session@
    }

    /// The position of the last checkpoint reached, if any was.
    pub closed spec fn position(self) -> Option<int> {
        match self.reached {
            Some(i) => Some(i as int),
            None => None,
        }
    }

    #[verifier::type_invariant]
    spec fn in_range(self) -> bool {
        self.reached is Some ==> self.reached->0 < CHECKPOINT_COUNT
    }
}

/// The tag of an optional scope: `-` outside any export.
pub open spec fn session_tag(slot: Option<LogScope>) -> Seq<char> {
    match slot {
        Some(scope) => scope.tag(),
        None => "-"@,
    }
}

/// The position of the last checkpoint of an optional scope.
pub open spec fn slot_position(slot: Option<LogScope>) -> Option<int> {
    match slot {
        Some(scope) => scope.position(),
        None => None,
    }
}

/// A scope for one export: its own tag, and no checkpoint reached yet.
pub fn scope(tag: String) -> (r: LogScope)
    ensures
        r.tag() == tag@,
        r.position() is None,
{
    LogScope { session: tag, reached: None }
}

/// The session tag of the export that runs in `slot`, or `-` outside one.
pub fn current_session(slot: &Option<LogScope>) -> (r: String)
    ensures
        r@ == session_tag(*slot),
{
    match slot {
        Some(scope) => scope.session.clone(),
        None => "-".to_string(),
    }
}

/// The last checkpoint that the export in `slot` reached, or `None` if it reached none.
pub fn last_checkpoint(slot: &Option<LogScope>) -> (r: Option<Checkpoint>)
    ensures
        r is Some == slot_position(*slot) is Some,
        r is Some ==> {
            &&& 0 <= slot_position(*slot)->0 < CHECKPOINT_COUNT
            &&& r->0.start() == checkpoint_start(slot_position(*slot)->0)
            &&& r->0.check() == checkpoint_check(slot_position(*slot)->0)
        },
{
    match slot {
        Some(scope) => {
            proof {
                use_type_invariant(scope);
            }
            match scope.reached {
                Some(i) => Some(checkpoint(i)),
                None => None,
            }
        },
        None => None,
    }
}

/// Records that checkpoint `idx` was reached, if `slot` holds an export.
pub fn note_checkpoint(slot: &mut Option<LogScope>, idx: usize)
    requires
        idx < CHECKPOINT_COUNT,
    ensures
        (*final(slot)) is Some == (*old(slot)) is Some,
        session_tag(*final(slot)) == session_tag(*old(slot)),
        slot_position(*final(slot)) == (if (*old(slot)) is Some {
            Some(idx as int)
        } else {
            None
        }),
{
    match slot.take() {
        Some(scope) => {
            *slot = Some(LogScope { session: scope.session, reached: Some(idx) });
        },
        None => {},
    }
}

/// The filter to run with: the environment's, unless it is unset or blank. A variable that is
/// present but empty would otherwise silence the whole log.
pub fn filter_from_env<'a>(var: Option<&'a str>) -> (r: &'a str)
    ensures
        r@ == (match var {
            Some(v) => if crate::text::trimmed(v@).len() > 0 {
                v@
            } else {
                DEFAULT_FILTER@
            },
            None => DEFAULT_FILTER@,
        }),
{
    match var {
        Some(v) => {
            let t = trim(v);
            if !t.as_str().is_empty() {
                v
            } else {
                DEFAULT_FILTER
            }
        },
        None => DEFAULT_FILTER,
    }
}

/// Whether a record is written at all: whatever the filter in force, a keychain record below
/// `warn` is written only where it is a checkpoint or a safe diagnostic.
pub open spec fn admitted(target: Seq<char>, level: Level, message: Seq<char>) -> bool {
    keychain_detail(target, level) ==> first_checkpoint(message, 0) is Some || safe_diagnostic(
        message,
    )
}

/// The line for a record, with its line end.
pub open spec fn record_line(
    session: Seq<char>,
    level: Level,
    target: Seq<char>,
    message: Seq<char>,
) -> Seq<char> {
    "[sess="@ + session + "] "@ + level.padded_name() + " "@ + target + " > "@ + message + "\n"@
}

/// The position of `slot` once a record went by: a checkpoint of the keychain module moves it.
pub open spec fn position_after(
    slot: Option<LogScope>,
    target: Seq<char>,
    level: Level,
    message: Seq<char>,
) -> Option<int> {
    if slot is Some && keychain_detail(target, level) && first_checkpoint(message, 0) is Some {
        first_checkpoint(message, 0)
    } else {
        slot_position(slot)
    }
}

/// Renders one record: returns what is to be written, nothing at all for a dropped record, and
/// records the checkpoint that the record may be.
pub fn format_record(
    slot: &mut Option<LogScope>,
    target: &str,
    level: Level,
    message: &str,
) -> (r: String)
    ensures
        r@ == (if admitted(target@, level, message@) {
            record_line(session_tag(*old(slot)), level, target@, message@)
        } else {
            Seq::empty()
        }),
        (*final(slot)) is Some == (*old(slot)) is Some,
        session_tag(*final(slot)) == session_tag(*old(slot)),
        slot_position(*final(slot)) == position_after(*old(slot), target@, level, message@),
{
    if is_keychain_detail(target, level) {
        match classify(message) {
            Some(idx) => {
                note_checkpoint(slot, idx);
            },
            None => {
                if !is_safe_diagnostic(message) {
                    return String::new();
                }
            },
        }
    }
    let mut line = "[sess=".to_string();
    line.append(current_session(slot).as_str());
    line.append("] ");
    line.append(level.padded());
    line.append(" ");
    line.append(target);
    line.append(" > ");
    line.append(message);
    line.append("\n");
    line
}

/// The characters at the first three places of the beginnings on the allowlist, and of the line
/// that carries keychain contents.
proof fn lemma_literals()
    ensures
        checkpoint_start(0).len() > 2 && checkpoint_start(0)[0] == 'A',
        checkpoint_start(1).len() > 2 && checkpoint_start(1)[0] == 'S' && checkpoint_start(1)[1]
            == 'e',
        checkpoint_start(2).len() > 2 && checkpoint_start(2)[0] == 'E' && checkpoint_start(2)[1]
            == 'n',
        checkpoint_start(3).len() > 8 && checkpoint_start(3)[0] == 'J' && checkpoint_start(3)[8]
            == 'w',
        checkpoint_start(4).len() > 2 && checkpoint_start(4)[0] == 'D',
        checkpoint_start(5).len() > 2 && checkpoint_start(5)[0] == 'S' && checkpoint_start(5)[1]
            == 'y',
        checkpoint_start(6).len() > 8 && checkpoint_start(6)[0] == 'J' && checkpoint_start(6)[8]
            == 'c',
        "Escrow lookup returned "@.len() > 2 && "Escrow lookup returned "@[0] == 'E'
            && "Escrow lookup returned "@[1] == 's',
        "Escrow metadata schema mismatch: "@.len() > 2 && "Escrow metadata schema mismatch: "@[0]
            == 'E' && "Escrow metadata schema mismatch: "@[1] == 's',
        "data "@.len() > 2 && "data "@[0] == 'd',
{
    reveal_strlit("Available as ");
    reveal_strlit("Self vouching as ");
    reveal_strlit("Entering on key ");
    reveal_strlit("Joining with ");
    reveal_strlit("Deriving trust from peer ");
    reveal_strlit("Synced Trust!");
    reveal_strlit("Joining clique");
    reveal_strlit("Escrow lookup returned ");
    reveal_strlit("Escrow metadata schema mismatch: ");
    reveal_strlit("data ");
}

/// A prefix agrees with the whole at each of its places.
proof fn lemma_prefix_at(p: Seq<char>, m: Seq<char>, k: int)
    requires
        p.is_prefix_of(m),
        0 <= k < p.len(),
    ensures
        m[k] == p[k],
{
    assert(m.subrange(0, p.len() as int)[k] == p[k]);
}

/// A message is at most one checkpoint: the one found is the only one whose beginning it has.
pub proof fn law_one_checkpoint(message: Seq<char>, i: int)
    requires
        0 <= i < CHECKPOINT_COUNT,
    ensures
        first_checkpoint(message, 0) == Some(i) <==> checkpoint_start(i).is_prefix_of(message),
{
    lemma_literals();
    reveal_with_fuel(first_checkpoint, 8);
    assert forall|j: int, k: int|
        0 <= j < CHECKPOINT_COUNT && 0 <= k < CHECKPOINT_COUNT && #[trigger] checkpoint_start(
            j,
        ).is_prefix_of(message) && #[trigger] checkpoint_start(k).is_prefix_of(message) implies j
        == k by {
        lemma_prefix_at(checkpoint_start(j), message, 0);
        lemma_prefix_at(checkpoint_start(k), message, 0);
        lemma_prefix_at(checkpoint_start(j), message, 1);
        lemma_prefix_at(checkpoint_start(k), message, 1);
        if j == 3 || j == 6 {
            lemma_prefix_at(checkpoint_start(j), message, 8);
        }
        if k == 3 || k == 6 {
            lemma_prefix_at(checkpoint_start(k), message, 8);
        }
    }
}

/// The escrow diagnostics are printed without claiming a join position: neither is a checkpoint,
/// so the position of the export stays as it was.
pub proof fn law_diagnostics_claim_no_position(
    slot: Option<LogScope>,
    target: Seq<char>,
    level: Level,
    message: Seq<char>,
)
    requires
        safe_diagnostic(message),
    ensures
        admitted(target, level, message),
        position_after(slot, target, level, message) == slot_position(slot),
{
    lemma_literals();
    reveal_with_fuel(first_checkpoint, 8);
    if "Escrow lookup returned "@.is_prefix_of(message) {
        lemma_prefix_at("Escrow lookup returned "@, message, 0);
        lemma_prefix_at("Escrow lookup returned "@, message, 1);
    } else {
        lemma_prefix_at("Escrow metadata schema mismatch: "@, message, 0);
        lemma_prefix_at("Escrow metadata schema mismatch: "@, message, 1);
    }
    assert forall|i: int| 0 <= i < CHECKPOINT_COUNT implies !(
    #[trigger] checkpoint_start(i)).is_prefix_of(message) by {
        if checkpoint_start(i).is_prefix_of(message) {
            lemma_prefix_at(checkpoint_start(i), message, 0);
            lemma_prefix_at(checkpoint_start(i), message, 1);
        }
    }
}

/// Decrypted keychain contents are never written: a line of the keychain module that begins with
/// `data ` is dropped at every level below `warn`, whatever filter is in force.
pub proof fn law_keychain_contents_are_dropped(
    target: Seq<char>,
    level: Level,
    message: Seq<char>,
)
    requires
        KEYCHAIN_TARGET@.is_prefix_of(target),
        level.rank() > Level::Warn.rank(),
        "data "@.is_prefix_of(message),
    ensures
        !admitted(target, level, message),
{
    lemma_literals();
    reveal_with_fuel(first_checkpoint, 8);
    lemma_prefix_at("data "@, message, 0);
    assert forall|i: int| 0 <= i < CHECKPOINT_COUNT implies !(
    #[trigger] checkpoint_start(i)).is_prefix_of(message) by {
        if checkpoint_start(i).is_prefix_of(message) {
            lemma_prefix_at(checkpoint_start(i), message, 0);
        }
    }
    if "Escrow lookup returned "@.is_prefix_of(message) {
        lemma_prefix_at("Escrow lookup returned "@, message, 0);
    }
    if "Escrow metadata schema mismatch: "@.is_prefix_of(message) {
        lemma_prefix_at("Escrow metadata schema mismatch: "@, message, 0);
    }
}

/// Warnings and errors are always written, and so is every record of another module: the
/// allowlist touches neither.
pub proof fn law_allowlist_touches_only_keychain_detail(
    target: Seq<char>,
    level: Level,
    message: Seq<char>,
)
    requires
        level.rank() <= Level::Warn.rank() || !KEYCHAIN_TARGET@.is_prefix_of(target),
    ensures
        admitted(target, level, message),
{
}

/// A log record that went by.
pub struct RecordView {
    pub target: Seq<char>,
    pub level: Level,
    pub message: Seq<char>,
}

impl RecordView {
    /// The checkpoint that the record is, if it is one.
    pub open spec fn checkpoint(self) -> Option<int> {
        if keychain_detail(self.target, self.level) {
            first_checkpoint(self.message, 0)
        } else {
            None
        }
    }
}

/// The position of an export once these records went by, one after the other.
pub open spec fn position_over(start: Option<int>, records: Seq<RecordView>) -> Option<int>
    decreases records.len(),
{
    if records.len() == 0 {
        start
    } else {
        let before = position_over(start, records.drop_last());
        match records.last().checkpoint() {
            Some(i) => Some(i),
            None => before,
        }
    }
}

/// What a failed join reports is the last checkpoint that its export reached: of all the records
/// that went by, the last one that is a checkpoint decides, and where none is, the position stays
/// as it was. One record moves the position of an export as `format_record` does.
pub proof fn law_the_last_checkpoint_is_reported(
    slot: Option<LogScope>,
    records: Seq<RecordView>,
    k: int,
)
    requires
        slot is Some,
        -1 <= k < records.len(),
        k >= 0 ==> records[k].checkpoint() is Some,
        forall|i: int| k < i < records.len() ==> (#[trigger] records[i]).checkpoint() is None,
    ensures
        position_over(slot_position(slot), records) == (if k >= 0 {
            records[k].checkpoint()
        } else {
            slot_position(slot)
        }),
        records.len() == 1 ==> position_over(slot_position(slot), records) == position_after(
            slot,
            records[0].target,
            records[0].level,
            records[0].message,
        ),
    decreases records.len(),
{
    if records.len() > 0 {
        let rest = records.drop_last();
        if k < rest.len() {
            assert forall|i: int| k < i < rest.len() implies (
            #[trigger] rest[i]).checkpoint() is None by {
                assert(records[i].checkpoint() is None);
            }
            law_the_last_checkpoint_is_reported(slot, rest, k);
        }
        reveal_with_fuel(position_over, 2);
    }
}

/// Which keychain lines are written: of the keychain module, whatever its submodule, a record at
/// `info`, `debug` or `trace` is written exactly where it begins with one of nine known phrases; and
/// every other record is written.
pub proof fn law_the_allowlist(target: Seq<char>, level: Level, message: Seq<char>)
    ensures
        ({
            let detail = "rustpush::icloud::keychain"@.is_prefix_of(target) && (level is Info
                || level is Debug || level is Trace);
            let known = {
                ||| "Available as "@.is_prefix_of(message)
                ||| "Self vouching as "@.is_prefix_of(message)
                ||| "Entering on key "@.is_prefix_of(message)
                ||| "Joining with "@.is_prefix_of(message)
                ||| "Deriving trust from peer "@.is_prefix_of(message)
                ||| "Synced Trust!"@.is_prefix_of(message)
                ||| "Joining clique"@.is_prefix_of(message)
                ||| "Escrow lookup returned "@.is_prefix_of(message)
                ||| "Escrow metadata schema mismatch: "@.is_prefix_of(message)
            };
            &&& keychain_detail(target, level) <==> detail
            &&& admitted(target, level, message) <==> !detail || known
        }),
{
    reveal_with_fuel(first_checkpoint, 8);
}

/// What a keychain line is a checkpoint of goes by how it begins, and a failed signature check
/// after it is named by it: three of the seven stand right before a check.
pub proof fn law_checkpoints_go_by_their_beginning(message: Seq<char>)
    ensures
        ({
            let is = |start: Seq<char>, i: int|
                start.is_prefix_of(message) <==> first_checkpoint(message, 0) == Some(i);
            &&& is("Available as "@, 0)
            &&& is("Self vouching as "@, 1)
            &&& is("Entering on key "@, 2)
            &&& is("Joining with "@, 3)
            &&& is("Deriving trust from peer "@, 4)
            &&& is("Synced Trust!"@, 5)
            &&& is("Joining clique"@, 6)
            &&& first_checkpoint(message, 0) matches Some(i) ==> 0 <= i < 7
        }),
        CHECKPOINT_COUNT == 7,
        checkpoint_check(0) == Some(
            "the escrow bottle's owning peer (its peer-key signature, or that peer's dynamic info)"@,
        ),
        checkpoint_check(2) == Some("a TLK share's signature, from the peer that sent it"@),
        checkpoint_check(4) == Some("the sponsoring peer's dynamic info, while deriving trust"@),
        forall|i: int| i != 0 && i != 2 && i != 4 ==> #[trigger] checkpoint_check(i) is None,
{
    reveal_with_fuel(first_checkpoint, 8);
    law_one_checkpoint(message, 0);
    law_one_checkpoint(message, 1);
    law_one_checkpoint(message, 2);
    law_one_checkpoint(message, 3);
    law_one_checkpoint(message, 4);
    law_one_checkpoint(message, 5);
    law_one_checkpoint(message, 6);
}

/// The position of an export moves on a checkpoint of the keychain module below `warn`, to that
/// checkpoint, and on nothing else; outside an export there is no position and no tag.
pub proof fn law_only_a_checkpoint_moves_the_position(
    slot: Option<LogScope>,
    target: Seq<char>,
    level: Level,
    message: Seq<char>,
)
    ensures
        ({
            let after = position_after(slot, target, level, message);
            let detail = "rustpush::icloud::keychain"@.is_prefix_of(target) && (level is Info
                || level is Debug || level is Trace);
            let reached = first_checkpoint(message, 0);
            &&& slot is Some && detail && reached is Some ==> after == reached
            &&& slot is Some && !(detail && reached is Some) ==> after == slot->0.position()
            &&& slot is None ==> after is None && slot_position(slot) is None && session_tag(slot)
                == "-"@
            &&& slot matches Some(scope) ==> slot_position(slot) == scope.position()
                && session_tag(slot) == scope.tag()
        }),
{
}

/// A line holds its tag, its level, its target and its message whole, in this order: the level in
/// five places, and one line end, at the end.
pub proof fn law_a_record_line_holds_its_parts(
    session: Seq<char>,
    level: Level,
    target: Seq<char>,
    message: Seq<char>,
)
    ensures
        ({
            let line = record_line(session, level, target, message);
            let a = session.len() as int;
            let t = target.len() as int;
            let m = message.len() as int;
            &&& line.len() == a + t + m + 18
            &&& line.subrange(0, 6) == "[sess="@
            &&& line.subrange(6, 6 + a) == session
            &&& line.subrange(6 + a, 8 + a) == "] "@
            &&& line.subrange(8 + a, 13 + a) == level.padded_name()
            &&& line[13 + a] == ' '
            &&& line.subrange(14 + a, 14 + a + t) == target
            &&& line.subrange(14 + a + t, 17 + a + t) == " > "@
            &&& line.subrange(17 + a + t, 17 + a + t + m) == message
            &&& line.last() == '\n'
        }),
        Level::Error.padded_name() == "ERROR"@,
        Level::Warn.padded_name() == "WARN "@,
        Level::Info.padded_name() == "INFO "@,
        Level::Debug.padded_name() == "DEBUG"@,
        Level::Trace.padded_name() == "TRACE"@,
        Level::Error.rank() < Level::Warn.rank() < Level::Info.rank() < Level::Debug.rank()
            < Level::Trace.rank(),
        DEFAULT_FILTER@ == "warn,export_findmy=info,rustpush::icloud::keychain=debug"@,
{
    reveal_strlit("[sess=");
    reveal_strlit("] ");
    reveal_strlit("ERROR");
    reveal_strlit("WARN ");
    reveal_strlit("INFO ");
    reveal_strlit("DEBUG");
    reveal_strlit("TRACE");
    reveal_strlit(" ");
    reveal_strlit(" > ");
    reveal_strlit("\n");
    let line = record_line(session, level, target, message);
    let a = session.len() as int;
    let t = target.len() as int;
    let m = message.len() as int;
    assert(line.subrange(0, 6) =~= "[sess="@);
    assert(line.subrange(6, 6 + a) =~= session);
    assert(line.subrange(6 + a, 8 + a) =~= "] "@);
    assert(line.subrange(8 + a, 13 + a) =~= level.padded_name());
    assert(line.subrange(14 + a, 14 + a + t) =~= target);
    assert(line.subrange(14 + a + t, 17 + a + t) =~= " > "@);
    assert(line.subrange(17 + a + t, 17 + a + t + m) =~= message);
}

} // verus!

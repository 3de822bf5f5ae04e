//! The CloudKit records of an export: which changes are decoded, and how the accessories are put
//! together from what was decoded.

use vstd::prelude::*;

use crate::pipeline::{beacon_views, bytes_of, joined, BeaconExport, BeaconView};
use crate::text::same_text;
use crate::timestamp::{
    rfc3339_moment, rfc3339_secs, utc_text, whole_seconds, LAST_RFC3339_SECOND, LAST_SECOND,
};

verus! {

/// The names of the record types, as the CloudKit schema spells them.
pub struct RecordNames {
    pub master: String,
    pub naming: String,
    pub alignment: String,
    pub shared: String,
}

/// The names of the record types.
pub struct RecordNamesView {
    pub master: Seq<char>,
    pub naming: Seq<char>,
    pub alignment: Seq<char>,
    pub shared: Seq<char>,
}

impl View for RecordNames {
    type V = RecordNamesView;

    open spec fn view(&self) -> RecordNamesView {
        RecordNamesView {
            master: self.master@,
            naming: self.naming@,
            alignment: self.alignment@,
            shared: self.shared@,
        }
    }
}

/// What is known of one change before its record is decoded.
pub struct ChangeHeader {
    /// The name of the record.
    pub identifier: Option<String>,
    /// Whether the change carries a record.
    pub has_record: bool,
    /// The type of that record.
    pub record_type: Option<String>,
}

/// What is known of one change before its record is decoded.
pub struct ChangeView {
    pub identifier: Option<Seq<char>>,
    pub has_record: bool,
    pub record_type: Option<Seq<char>>,
}

impl View for ChangeHeader {
    type V = ChangeView;

    open spec fn view(&self) -> ChangeView {
        ChangeView {
            identifier: crate::pipeline::string_of(self.identifier),
            has_record: self.has_record,
            record_type: crate::pipeline::string_of(self.record_type),
        }
    }
}

/// What is to be done with one change.
#[derive(Clone, Copy, Debug, PartialEq, Eq, Structural)]
pub enum Triage {
    /// It has no identifier, or its record no type: it is skipped, and counted.
    Malformed,
    /// It carries nothing that is exported.
    Ignored,
    /// Its record is the master record of an accessory.
    Master,
    /// Its record names an accessory.
    Naming,
    /// Its record aligns the keys of an accessory.
    Alignment,
    /// Its record is an accessory that someone else shares: it is not exported.
    Shared,
}

/// What is to be done with a change: one malformed change does not end an export.
pub open spec fn triage_of(change: ChangeView, names: RecordNamesView) -> Triage {
    if change.identifier is None {
        Triage::Malformed
    } else if !change.has_record {
        Triage::Ignored
    } else {
        match change.record_type {
            None => Triage::Malformed,
            Some(t) => if t == names.master {
                Triage::Master
            } else if t == names.naming {
                Triage::Naming
            } else if t == names.alignment {
                Triage::Alignment
            } else if t == names.shared {
                Triage::Shared
            } else {
                Triage::Ignored
            },
        }
    }
}

/// Decides what is to be done with a change.
pub fn triage(change: &ChangeHeader, names: &RecordNames) -> (r: Triage)
    ensures
        r == triage_of(change@, names@),
{
    if change.identifier.is_none() {
        return Triage::Malformed;
    }
    if !change.has_record {
        return Triage::Ignored;
    }
    match &change.record_type {
        None => Triage::Malformed,
        Some(t) => {
            if same_text(t.as_str(), names.master.as_str()) {
                Triage::Master
            } else if same_text(t.as_str(), names.naming.as_str()) {
                Triage::Naming
            } else if same_text(t.as_str(), names.alignment.as_str()) {
                Triage::Alignment
            } else if same_text(t.as_str(), names.shared.as_str()) {
                Triage::Shared
            } else {
                Triage::Ignored
            }
        },
    }
}

/// What is to be done with each change of a zone.
pub open spec fn triages(changes: Seq<ChangeView>, names: RecordNamesView) -> Seq<Triage> {
    changes.map_values(|c: ChangeView| triage_of(c, names))
}

/// The headers of a list of changes.
pub open spec fn change_views(changes: Seq<ChangeHeader>) -> Seq<ChangeView> {
    changes.map_values(|c: ChangeHeader| c@)
}

/// Decides what is to be done with each change of a zone.
pub fn triage_all(changes: &Vec<ChangeHeader>, names: &RecordNames) -> (r: Vec<Triage>)
    ensures
        r@ == triages(change_views(changes@), names@),
{
    let mut out: Vec<Triage> = Vec::new();
    for i in 0..changes.len()
        invariant
            out@ == triages(change_views(changes@), names@).take(i as int),
    {
        out.push(triage(&changes[i], names));
        assert(out@ =~= triages(change_views(changes@), names@).take(i + 1));
    }
    assert(out@ =~= triages(change_views(changes@), names@));
    out
}

/// The master record of an accessory: its key material.
pub struct MasterRecord {
    pub stable_identifier: String,
    pub model: String,
    pub private_key: Vec<u8>,
    pub shared_secret: Vec<u8>,
    pub shared_secret_2: Option<Vec<u8>>,
    pub secure_locations_shared_secret: Option<Vec<u8>>,
    pub public_key: Vec<u8>,
    /// When the accessory was paired, in nanoseconds since 1970.
    pub pairing_date: Option<i128>,
}

/// The texts and bytes of a master record.
pub struct MasterView {
    pub stable_identifier: Seq<char>,
    pub model: Seq<char>,
    pub private_key: Seq<u8>,
    pub shared_secret: Seq<u8>,
    pub shared_secret_2: Option<Seq<u8>>,
    pub secure_locations_shared_secret: Option<Seq<u8>>,
    pub public_key: Seq<u8>,
    pub pairing_date: Option<int>,
}

impl View for MasterRecord {
    type V = MasterView;

    open spec fn view(&self) -> MasterView {
        MasterView {
            stable_identifier: self.stable_identifier@,
            model: self.model@,
            private_key: self.private_key@,
            shared_secret: self.shared_secret@,
            shared_secret_2: bytes_of(self.shared_secret_2),
            secure_locations_shared_secret: bytes_of(self.secure_locations_shared_secret),
            public_key: self.public_key@,
            pairing_date: match self.pairing_date {
                Some(n) => Some(n as int),
                None => None,
            },
        }
    }
}

impl MasterView {
    /// Whether the pairing date, if there is one, is a date that chrono's calendar holds.
    pub open spec fn datable(self) -> bool {
        match self.pairing_date {
            Some(n) => whole_seconds(n) <= LAST_SECOND,
            None => true,
        }
    }
}

/// The record that names an accessory. It refers to the accessory by the CloudKit name of its
/// master record, not by the stable identifier.
pub struct NamingRecord {
    pub associated_beacon: String,
    pub name: String,
    pub emoji: String,
}

/// The texts of a naming record.
pub struct NamingView {
    pub associated_beacon: Seq<char>,
    pub name: Seq<char>,
    pub emoji: Seq<char>,
}

impl View for NamingRecord {
    type V = NamingView;

    open spec fn view(&self) -> NamingView {
        NamingView {
            associated_beacon: self.associated_beacon@,
            name: self.name@,
            emoji: self.emoji@,
        }
    }
}

/// One decoded record.
pub enum Decoded {
    /// A master record, with the CloudKit name of its record.
    Master { id: String, record: MasterRecord },
    /// A naming record.
    Naming { record: NamingRecord },
    /// An alignment record: the CloudKit name of the master record that it belongs to.
    Alignment { beacon: String },
}

/// One decoded record.
pub enum DecodedView {
    Master { id: Seq<char>, record: MasterView },
    Naming { record: NamingView },
    Alignment { beacon: Seq<char> },
}

impl View for Decoded {
    type V = DecodedView;

    open spec fn view(&self) -> DecodedView {
        match self {
            Decoded::Master { id, record } => DecodedView::Master { id: id@, record: record@ },
            Decoded::Naming { record } => DecodedView::Naming { record: record@ },
            Decoded::Alignment { beacon } => DecodedView::Alignment { beacon: beacon@ },
        }
    }
}

/// The decoded records of a list.
pub open spec fn decoded_views(records: Seq<Decoded>) -> Seq<DecodedView> {
    records.map_values(|d: Decoded| d@)
}

/// A master record under its CloudKit name.
pub struct Filed {
    pub id: String,
    pub record: MasterRecord,
}

/// A master record under its CloudKit name.
pub struct FiledView {
    pub id: Seq<char>,
    pub record: MasterView,
}

/// The records of one export, each kind under the name that it is found by; a later record of the
/// same name takes the place of an earlier one.
pub struct Records {
    pub masters: Vec<Filed>,
    pub namings: Vec<NamingRecord>,
    pub alignments: Vec<String>,
}

/// The records of one export.
pub struct RecordsView {
    pub masters: Seq<FiledView>,
    pub namings: Seq<NamingView>,
    pub alignments: Seq<Seq<char>>,
}

impl View for Records {
    type V = RecordsView;

    open spec fn view(&self) -> RecordsView {
        RecordsView {
            masters: self.masters@.map_values(
                |f: Filed| FiledView { id: f.id@, record: f.record@ },
            ),
            namings: self.namings@.map_values(|n: NamingRecord| n@),
            alignments: self.alignments@.map_values(|a: String| a@),
        }
    }
}

impl RecordsView {
    /// Whether no two records of a kind are found by the same name.
    pub open spec fn distinct(self) -> bool {
        &&& forall|i: int, j: int|
            0 <= i < j < self.masters.len() ==> (#[trigger] self.masters[i]).id != (
            #[trigger] self.masters[j]).id
        &&& forall|i: int, j: int|
            0 <= i < j < self.namings.len() ==> (#[trigger] self.namings[i]).associated_beacon != (
            #[trigger] self.namings[j]).associated_beacon
        &&& self.alignments.no_duplicates()
    }
}

/// The position of the first master record with the name `id`, or how many there are.
pub open spec fn master_position(masters: Seq<FiledView>, id: Seq<char>) -> int
    decreases masters.len(),
{
    if masters.len() == 0 {
        0
    } else if masters[0].id == id {
        0
    } else {
        1 + master_position(masters.skip(1), id)
    }
}

/// The position of the first naming record for the master record `id`, or how many there are.
pub open spec fn naming_position(namings: Seq<NamingView>, id: Seq<char>) -> int
    decreases namings.len(),
{
    if namings.len() == 0 {
        0
    } else if namings[0].associated_beacon == id {
        0
    } else {
        1 + naming_position(namings.skip(1), id)
    }
}

/// The records, once one more has been taken in.
pub open spec fn absorbed(records: RecordsView, d: DecodedView) -> RecordsView {
    match d {
        DecodedView::Master { id, record } => {
            let at = master_position(records.masters, id);
            let filed = FiledView { id, record };
            RecordsView {
                masters: if at < records.masters.len() {
                    records.masters.update(at, filed)
                } else {
                    records.masters.push(filed)
                },
                ..records
            }
        },
        DecodedView::Naming { record } => {
            let at = naming_position(records.namings, record.associated_beacon);
            RecordsView {
                namings: if at < records.namings.len() {
                    records.namings.update(at, record)
                } else {
                    records.namings.push(record)
                },
                ..records
            }
        },
        DecodedView::Alignment { beacon } => {
            RecordsView {
                alignments: if records.alignments.contains(beacon) {
                    records.alignments
                } else {
                    records.alignments.push(beacon)
                },
                ..records
            }
        },
    }
}

/// No records.
pub open spec fn no_records() -> RecordsView {
    RecordsView { masters: Seq::empty(), namings: Seq::empty(), alignments: Seq::empty() }
}

/// The records that a list of decoded ones leaves, taken in one after the other.
pub open spec fn collected(list: Seq<DecodedView>) -> RecordsView
    decreases list.len(),
{
    if list.len() == 0 {
        no_records()
    } else {
        absorbed(collected(list.drop_last()), list.last())
    }
}

proof fn lemma_master_position(masters: Seq<FiledView>, id: Seq<char>, at: int)
    requires
        0 <= at <= masters.len(),
        forall|j: int| 0 <= j < at ==> (#[trigger] masters[j]).id != id,
        at == masters.len() || masters[at].id == id,
    ensures
        master_position(masters, id) == at,
    decreases masters.len(),
{
    if at > 0 {
        let rest = masters.skip(1);
        assert forall|j: int| 0 <= j < at - 1 implies (#[trigger] rest[j]).id != id by {
            assert(rest[j] == masters[j + 1]);
        }
        if at < masters.len() {
            assert(rest[at - 1] == masters[at]);
        }
        lemma_master_position(rest, id, at - 1);
        assert(masters[0].id != id);
    }
}

proof fn lemma_naming_position(namings: Seq<NamingView>, id: Seq<char>, at: int)
    requires
        0 <= at <= namings.len(),
        forall|j: int| 0 <= j < at ==> (#[trigger] namings[j]).associated_beacon != id,
        at == namings.len() || namings[at].associated_beacon == id,
    ensures
        naming_position(namings, id) == at,
    decreases namings.len(),
{
    if at > 0 {
        let rest = namings.skip(1);
        assert forall|j: int| 0 <= j < at - 1 implies (#[trigger] rest[j]).associated_beacon
            != id by {
            assert(rest[j] == namings[j + 1]);
        }
        if at < namings.len() {
            assert(rest[at - 1] == namings[at]);
        }
        lemma_naming_position(rest, id, at - 1);
        assert(namings[0].associated_beacon != id);
    }
}

impl Records {
    /// No records.
    pub fn new() -> (r: Self)
        ensures
            r@ == no_records(),
            r@.distinct(),
    {
        let r = Records { masters: Vec::new(), namings: Vec::new(), alignments: Vec::new() };
        assert(r@.masters =~= Seq::empty());
        assert(r@.namings =~= Seq::empty());
        assert(r@.alignments =~= Seq::empty());
        r
    }

    fn find_master(&self, id: &str) -> (r: usize)
        ensures
            r == master_position(self@.masters, id@),
            r <= self.masters@.len(),
    {
        let mut i: usize = 0;
        while i < self.masters.len()
            invariant
                i <= self.masters@.len(),
                forall|j: int| 0 <= j < i ==> (#[trigger] self@.masters[j]).id != id@,
            decreases self.masters@.len() - i,
        {
            if same_text(self.masters[i].id.as_str(), id) {
                proof {
                    lemma_master_position(self@.masters, id@, i as int);
                }
                return i;
            }
            i += 1;
        }
        proof {
            lemma_master_position(self@.masters, id@, i as int);
        }
        i
    }

    fn find_naming(&self, id: &str) -> (r: usize)
        ensures
            r == naming_position(self@.namings, id@),
            r <= self.namings@.len(),
    {
        let mut i: usize = 0;
        while i < self.namings.len()
            invariant
                i <= self.namings@.len(),
                forall|j: int|
                    0 <= j < i ==> (#[trigger] self@.namings[j]).associated_beacon != id@,
            decreases self.namings@.len() - i,
        {
            if same_text(self.namings[i].associated_beacon.as_str(), id) {
                proof {
                    lemma_naming_position(self@.namings, id@, i as int);
                }
                return i;
            }
            i += 1;
        }
        proof {
            lemma_naming_position(self@.namings, id@, i as int);
        }
        i
    }

    fn has_alignment(&self, beacon: &str) -> (r: bool)
        ensures
            r == self@.alignments.contains(beacon@),
    {
        let mut i: usize = 0;
        while i < self.alignments.len()
            invariant
                i <= self.alignments@.len(),
                forall|j: int| 0 <= j < i ==> #[trigger] self@.alignments[j] != beacon@,
            decreases self.alignments@.len() - i,
        {
            if same_text(self.alignments[i].as_str(), beacon) {
                assert(self@.alignments[i as int] == beacon@);
                return true;
            }
            i += 1;
        }
        false
    }

    /// Takes in one more record.
    pub fn absorb(&mut self, d: Decoded)
        ensures
            final(self)@ == absorbed(old(self)@, d@),
            old(self)@.distinct() ==> final(self)@.distinct(),
    {
        let ghost before = self@;
        match d {
            Decoded::Master { id, record } => {
                let at = self.find_master(id.as_str());
                let filed = Filed { id, record };
                if at < self.masters.len() {
                    self.masters.set(at, filed);
                } else {
                    self.masters.push(filed);
                }
            },
            Decoded::Naming { record } => {
                let at = self.find_naming(record.associated_beacon.as_str());
                if at < self.namings.len() {
                    self.namings.set(at, record);
                } else {
                    self.namings.push(record);
                }
            },
            Decoded::Alignment { beacon } => {
                if !self.has_alignment(beacon.as_str()) {
                    self.alignments.push(beacon);
                }
            },
        }
        assert(self@.masters =~= absorbed(before, d@).masters);
        assert(self@.namings =~= absorbed(before, d@).namings);
        assert(self@.alignments =~= absorbed(before, d@).alignments);
        proof {
            lemma_absorbed_distinct(before, d@);
        }
    }
}

/// Takes in a list of records, one after the other.
pub fn collect(list: Vec<Decoded>) -> (r: Records)
    ensures
        r@ == collected(decoded_views(list@)),
        r@.distinct(),
{
    let ghost views = decoded_views(list@);
    let mut records = Records::new();
    assert(views.take(0) =~= Seq::empty());
    for d in it: list
        invariant
            it.seq() == list@,
            views == decoded_views(list@),
            records@ == collected(views.take(it.index())),
            records@.distinct(),
    {
        proof {
            let n = it.index();
            assert(views.take(n + 1).drop_last() =~= views.take(n));
            assert(views.take(n + 1).last() == d@);
        }
        records.absorb(d);
    }
    assert(views.take(views.len() as int) =~= views);
    records
}

/// The naming record for the master record `id`, if there is one.
pub open spec fn naming_for(namings: Seq<NamingView>, id: Seq<char>) -> Option<NamingView> {
    let at = naming_position(namings, id);
    if at < namings.len() {
        Some(namings[at])
    } else {
        None
    }
}

/// The export of one accessory: the key material of its master record, and its name and emoji, or
/// a name made from the stable identifier where no record names it.
pub open spec fn beacon_of(record: MasterView, naming: Option<NamingView>) -> BeaconView {
    BeaconView {
        identifier: record.stable_identifier,
        name: match naming {
            Some(n) => n.name,
            None => "Unknown-"@ + record.stable_identifier,
        },
        emoji: match naming {
            Some(n) => n.emoji,
            None => Seq::empty(),
        },
        model: record.model,
        private_key: record.private_key,
        shared_secret: record.shared_secret,
        secondary_shared_secret: record.shared_secret_2,
        secure_locations_shared_secret: record.secure_locations_shared_secret,
        public_key: Some(record.public_key),
        pairing_date: match record.pairing_date {
            Some(n) => Some(utc_text(whole_seconds(n))),
            None => None,
        },
    }
}

/// The export of each accessory.
pub open spec fn assembled(records: RecordsView) -> Seq<BeaconView> {
    records.masters.map_values(
        |f: FiledView| beacon_of(f.record, naming_for(records.namings, f.id)),
    )
}

/// Whether the pairing date of an export reads back as the whole second of its master record's.
pub open spec fn reads_back(b: BeaconView, record: MasterView) -> bool {
    match record.pairing_date {
        Some(n) => {
            &&& b.pairing_date is Some
            &&& rfc3339_moment(b.pairing_date->0) == Some((whole_seconds(n), 0int))
        },
        None => b.pairing_date is None,
    }
}

/// Whether RFC 3339 can write the pairing date of a master record, if it has one: it can through
/// the year 9999.
pub open spec fn in_rfc3339(record: MasterView) -> bool {
    match record.pairing_date {
        Some(n) => whole_seconds(n) <= LAST_RFC3339_SECOND,
        None => true,
    }
}

/// Moves a master record and its naming, if there is one, into an export.
pub fn beacon_export(m: MasterRecord, naming: Option<&NamingRecord>) -> (r: BeaconExport)
    requires
        m@.datable(),
    ensures
        r@ == beacon_of(
            m@,
            match naming {
                Some(n) => Some(n@),
                None => None,
            },
        ),
        in_rfc3339(m@) ==> reads_back(r@, m@),
{
    let (name, emoji) = match naming {
        Some(n) => (n.name.clone(), n.emoji.clone()),
        None => (joined("Unknown-", m.stable_identifier.as_str()), String::new()),
    };
    let pairing_date = match m.pairing_date {
        Some(n) => Some(rfc3339_secs(n)),
        None => None,
    };
    BeaconExport {
        identifier: m.stable_identifier,
        name,
        emoji,
        model: m.model,
        private_key: m.private_key,
        shared_secret: m.shared_secret,
        secondary_shared_secret: m.shared_secret_2,
        secure_locations_shared_secret: m.secure_locations_shared_secret,
        public_key: Some(m.public_key),
        pairing_date,
    }
}

/// Whether every pairing date is a date that chrono's calendar holds.
pub open spec fn all_datable(masters: Seq<FiledView>) -> bool {
    forall|i: int| 0 <= i < masters.len() ==> (#[trigger] masters[i]).record.datable()
}

/// Whether the pairing date of a master record, if it has one, can be written.
pub fn datable(m: &MasterRecord) -> (r: bool)
    ensures
        r == m@.datable(),
{
    match m.pairing_date {
        Some(n) => n < 0 || n / 1_000_000_000 <= LAST_SECOND as i128,
        None => true,
    }
}

/// Puts the accessories together, in the order in which their master records first came.
pub fn assemble(records: Records) -> (r: Vec<BeaconExport>)
    requires
        all_datable(records@.masters),
    ensures
        beacon_views(r@) == assembled(records@),
        forall|i: int|
            0 <= i < r@.len() && in_rfc3339(records@.masters[i].record) ==> reads_back(
                (#[trigger] r@[i])@,
                records@.masters[i].record,
            ),
{
    let ghost view = records@;
    let keyed = Records { masters: Vec::new(), namings: records.namings, alignments: Vec::new() };
    assert(keyed@.namings == view.namings);
    let masters = records.masters;
    let ghost filed = masters@;
    let mut out: Vec<BeaconExport> = Vec::new();
    assert(beacon_views(out@) =~= assembled(view).take(0));
    for f in it: masters
        invariant
            it.seq() == filed,
            all_datable(view.masters),
            view.masters == filed.map_values(
                |f: Filed| FiledView { id: f.id@, record: f.record@ },
            ),
            keyed@.namings == view.namings,
            beacon_views(out@) == assembled(view).take(it.index()),
            out@.len() == it.index(),
            forall|i: int|
                0 <= i < out@.len() && in_rfc3339(view.masters[i].record) ==> reads_back(
                    (#[trigger] out@[i])@,
                    view.masters[i].record,
                ),
    {
        let ghost n = it.index();
        assert(view.masters[n] == FiledView { id: f.id@, record: f.record@ });
        let at = keyed.find_naming(f.id.as_str());
        let naming = if at < keyed.namings.len() {
            assert(keyed@.namings[at as int] == keyed.namings@[at as int]@);
            Some(&keyed.namings[at])
        } else {
            None
        };
        let export = beacon_export(f.record, naming);
        assert(export@ == assembled(view)[n]);
        let ghost before = out@;
        out.push(export);
        assert(beacon_views(out@) =~= assembled(view).take(n + 1)) by {
            assert(beacon_views(out@) =~= beacon_views(before).push(export@));
        }
    }
    assert(assembled(view).take(filed.len() as int) =~= assembled(view));
    out
}

proof fn lemma_position_bounds(masters: Seq<FiledView>, id: Seq<char>)
    ensures
        0 <= master_position(masters, id) <= masters.len(),
        forall|j: int|
            0 <= j < master_position(masters, id) ==> (#[trigger] masters[j]).id != id,
        master_position(masters, id) < masters.len() ==> masters[master_position(masters, id)].id
            == id,
    decreases masters.len(),
{
    if masters.len() > 0 && masters[0].id != id {
        let rest = masters.skip(1);
        lemma_position_bounds(rest, id);
        assert forall|j: int| 0 <= j < master_position(masters, id) implies (
        #[trigger] masters[j]).id != id by {
            if j > 0 {
                assert(rest[j - 1] == masters[j]);
            }
        }
        if master_position(masters, id) < masters.len() {
            assert(rest[master_position(rest, id)] == masters[master_position(masters, id)]);
        }
    }
}

proof fn lemma_naming_bounds(namings: Seq<NamingView>, id: Seq<char>)
    ensures
        0 <= naming_position(namings, id) <= namings.len(),
        forall|j: int|
            0 <= j < naming_position(namings, id) ==> (#[trigger] namings[j]).associated_beacon
                != id,
        naming_position(namings, id) < namings.len() ==> namings[naming_position(
            namings,
            id,
        )].associated_beacon == id,
    decreases namings.len(),
{
    if namings.len() > 0 && namings[0].associated_beacon != id {
        let rest = namings.skip(1);
        lemma_naming_bounds(rest, id);
        assert forall|j: int| 0 <= j < naming_position(namings, id) implies (
        #[trigger] namings[j]).associated_beacon != id by {
            if j > 0 {
                assert(rest[j - 1] == namings[j]);
            }
        }
        if naming_position(namings, id) < namings.len() {
            assert(rest[naming_position(rest, id)] == namings[naming_position(namings, id)]);
        }
    }
}

proof fn lemma_absorbed_distinct(records: RecordsView, d: DecodedView)
    ensures
        records.distinct() ==> absorbed(records, d).distinct(),
{
    match d {
        DecodedView::Master { id, .. } => lemma_position_bounds(records.masters, id),
        DecodedView::Naming { record } => {
            lemma_naming_bounds(records.namings, record.associated_beacon);
        },
        DecodedView::Alignment { .. } => {},
    }
}

/// Every accessory is exported once: no two master records that are kept have the same name, a
/// kept one is one that was decoded, and the name of each decoded one is kept.
pub proof fn law_each_master_record_once(list: Seq<DecodedView>)
    ensures
        forall|i: int, j: int|
            0 <= i < j < collected(list).masters.len() ==> (#[trigger] collected(
                list,
            ).masters[i]).id != (#[trigger] collected(list).masters[j]).id,
        forall|i: int|
            0 <= i < collected(list).masters.len() ==> list.contains(
                DecodedView::Master {
                    id: (#[trigger] collected(list).masters[i]).id,
                    record: collected(list).masters[i].record,
                },
            ),
        forall|k: int|
            0 <= k < list.len() && (#[trigger] list[k]) is Master ==> exists|i: int|
                0 <= i < collected(list).masters.len() && (#[trigger] collected(list).masters[i]).id
                    == list[k]->Master_id,
    decreases list.len(),
{
    if list.len() > 0 {
        let front = list.drop_last();
        let old = collected(front);
        law_each_master_record_once(front);
        let new = collected(list);
        match list.last() {
            DecodedView::Master { id, record } => {
                let at = master_position(old.masters, id);
                lemma_position_bounds(old.masters, id);
                assert forall|i: int| 0 <= i < new.masters.len() implies list.contains(
                    DecodedView::Master {
                        id: (#[trigger] new.masters[i]).id,
                        record: new.masters[i].record,
                    },
                ) by {
                    if i == at {
                        assert(list[list.len() - 1] == DecodedView::Master { id, record });
                    } else {
                        assert(new.masters[i] == old.masters[i]);
                        let d = DecodedView::Master {
                            id: old.masters[i].id,
                            record: old.masters[i].record,
                        };
                        assert(front.contains(d));
                        let k = choose|k: int| 0 <= k < front.len() && front[k] == d;
                        assert(list[k] == d);
                    }
                }
                assert forall|k: int| 0 <= k < list.len() && (#[trigger] list[k]) is Master implies exists|
                    i: int,
                |
                    0 <= i < new.masters.len() && (#[trigger] new.masters[i]).id
                        == list[k]->Master_id by {
                    if k == list.len() - 1 {
                        assert(new.masters[at].id == id);
                    } else {
                        assert(front[k] == list[k]);
                        let i = choose|i: int|
                            0 <= i < old.masters.len() && (#[trigger] old.masters[i]).id
                                == list[k]->Master_id;
                        assert(new.masters[i].id == old.masters[i].id);
                    }
                }
            },
            _ => {
                assert(new.masters == old.masters);
                assert forall|i: int| 0 <= i < new.masters.len() implies list.contains(
                    DecodedView::Master {
                        id: (#[trigger] new.masters[i]).id,
                        record: new.masters[i].record,
                    },
                ) by {
                    let d = DecodedView::Master {
                        id: old.masters[i].id,
                        record: old.masters[i].record,
                    };
                    assert(front.contains(d));
                    let k = choose|k: int| 0 <= k < front.len() && front[k] == d;
                    assert(list[k] == d);
                }
                assert forall|k: int| 0 <= k < list.len() && (#[trigger] list[k]) is Master implies exists|
                    i: int,
                |
                    0 <= i < new.masters.len() && (#[trigger] new.masters[i]).id
                        == list[k]->Master_id by {
                    assert(front[k] == list[k]);
                    let i = choose|i: int|
                        0 <= i < old.masters.len() && (#[trigger] old.masters[i]).id
                            == list[k]->Master_id;
                    assert(new.masters[i].id == list[k]->Master_id);
                }
            },
        }
    }
}

/// Every name is kept once: no two naming records that are kept are for the same accessory, a kept
/// one is one that was decoded, and each accessory that a decoded one names keeps a name.
pub proof fn law_each_naming_record_once(list: Seq<DecodedView>)
    ensures
        forall|i: int, j: int|
            0 <= i < j < collected(list).namings.len() ==> (#[trigger] collected(
                list,
            ).namings[i]).associated_beacon != (#[trigger] collected(
                list,
            ).namings[j]).associated_beacon,
        forall|i: int|
            0 <= i < collected(list).namings.len() ==> list.contains(
                DecodedView::Naming { record: #[trigger] collected(list).namings[i] },
            ),
        forall|k: int|
            0 <= k < list.len() && (#[trigger] list[k]) is Naming ==> exists|i: int|
                0 <= i < collected(list).namings.len() && (#[trigger] collected(
                    list,
                ).namings[i]).associated_beacon == list[k]->Naming_record.associated_beacon,
    decreases list.len(),
{
    if list.len() > 0 {
        let front = list.drop_last();
        let old = collected(front);
        let new = collected(list);
        law_each_naming_record_once(front);
        let added = match list.last() {
            DecodedView::Naming { record } => naming_position(
                old.namings,
                record.associated_beacon,
            ),
            _ => -1,
        };
        if list.last() is Naming {
            lemma_naming_bounds(old.namings, list.last()->Naming_record.associated_beacon);
        }
        assert forall|i: int| 0 <= i < new.namings.len() implies list.contains(
            DecodedView::Naming { record: #[trigger] new.namings[i] },
        ) by {
            let d = DecodedView::Naming { record: new.namings[i] };
            if i == added {
                assert(list[list.len() - 1] == d);
            } else {
                assert(new.namings[i] == old.namings[i]);
                assert(front.contains(d));
                let k = choose|k: int| 0 <= k < front.len() && front[k] == d;
                assert(list[k] == d);
            }
        }
        assert forall|k: int|
            0 <= k < list.len() && (#[trigger] list[k]) is Naming implies exists|i: int|
            0 <= i < new.namings.len() && (#[trigger] new.namings[i]).associated_beacon
                == list[k]->Naming_record.associated_beacon by {
            if k == list.len() - 1 {
                assert(new.namings[added].associated_beacon
                    == list[k]->Naming_record.associated_beacon);
            } else {
                assert(front[k] == list[k]);
                let i = choose|i: int|
                    0 <= i < old.namings.len() && (#[trigger] old.namings[i]).associated_beacon
                        == list[k]->Naming_record.associated_beacon;
                assert(new.namings[i].associated_beacon == old.namings[i].associated_beacon);
            }
        }
    }
}

/// It does not matter whether an accessory or its name comes first, nor where the alignments
/// stand: the same records are kept.
pub proof fn law_order_of_kinds_does_not_matter(
    records: RecordsView,
    a: DecodedView,
    b: DecodedView,
)
    requires
        a is Master && !(b is Master) || a is Naming && !(b is Naming) || a is Alignment && !(
        b is Alignment),
    ensures
        absorbed(absorbed(records, a), b) == absorbed(absorbed(records, b), a),
{
}

/// Every export carries the key material of its own master record, unchanged.
pub proof fn law_key_material_is_kept(records: RecordsView, i: int)
    requires
        0 <= i < records.masters.len(),
    ensures
        assembled(records).len() == records.masters.len(),
        assembled(records)[i].identifier == records.masters[i].record.stable_identifier,
        assembled(records)[i].private_key == records.masters[i].record.private_key,
        assembled(records)[i].shared_secret == records.masters[i].record.shared_secret,
        assembled(records)[i].secondary_shared_secret == records.masters[i].record.shared_secret_2,
        assembled(records)[i].secure_locations_shared_secret
            == records.masters[i].record.secure_locations_shared_secret,
        assembled(records)[i].public_key == Some(records.masters[i].record.public_key),
{
}

/// Lists are seen as they are: nothing is added, left out or moved.
pub proof fn law_lists_are_seen_in_full(
    changes: Seq<ChangeHeader>,
    decoded: Seq<Decoded>,
    records: Records,
)
    ensures
        change_views(changes).len() == changes.len(),
        forall|i: int|
            0 <= i < changes.len() ==> {
                let c = #[trigger] change_views(changes)[i];
                &&& c.identifier == match changes[i].identifier {
                    Some(t) => Some(t@),
                    None => None,
                }
                &&& c.record_type == match changes[i].record_type {
                    Some(t) => Some(t@),
                    None => None,
                }
                &&& c.has_record == changes[i].has_record
            },
        decoded_views(decoded).len() == decoded.len(),
        forall|i: int| 0 <= i < decoded.len() ==> #[trigger] decoded_views(decoded)[i]
            == decoded[i]@,
        records@.masters.len() == records.masters@.len(),
        forall|i: int|
            0 <= i < records.masters@.len() ==> {
                let f = #[trigger] records@.masters[i];
                f.id == records.masters@[i].id@ && f.record == records.masters@[i].record@
            },
        records@.namings.len() == records.namings@.len(),
        forall|i: int|
            0 <= i < records.namings@.len() ==> #[trigger] records@.namings[i]
                == records.namings@[i]@,
        records@.alignments.len() == records.alignments@.len(),
        forall|i: int|
            0 <= i < records.alignments@.len() ==> #[trigger] records@.alignments[i]
                == records.alignments@[i]@,
{
}

/// A record is seen with every one of its fields.
pub proof fn law_records_are_seen_in_full(m: MasterRecord, n: NamingRecord, d: Decoded)
    ensures
        m@.stable_identifier == m.stable_identifier@,
        m@.model == m.model@,
        m@.private_key == m.private_key@,
        m@.shared_secret == m.shared_secret@,
        m@.public_key == m.public_key@,
        m@.shared_secret_2 == match m.shared_secret_2 {
            Some(b) => Some(b@),
            None => None,
        },
        m@.secure_locations_shared_secret == match m.secure_locations_shared_secret {
            Some(b) => Some(b@),
            None => None,
        },
        m@.pairing_date == match m.pairing_date {
            Some(t) => Some(t as int),
            None => None,
        },
        n@.associated_beacon == n.associated_beacon@,
        n@.name == n.name@,
        n@.emoji == n.emoji@,
        match d {
            Decoded::Master { id, record } => d@ == (DecodedView::Master {
                id: id@,
                record: record@,
            }),
            Decoded::Naming { record } => d@ == (DecodedView::Naming { record: record@ }),
            Decoded::Alignment { beacon } => d@ == (DecodedView::Alignment { beacon: beacon@ }),
        },
{
}

/// Every change of a zone is looked at, wherever it stands: the plan has one entry for each, and
/// that entry goes by the change alone. A record of a type that is exported is decoded as what it
/// is; a change without an identifier, or a record without a type, is malformed; anything else is
/// passed over.
pub proof fn law_every_change_is_planned(changes: Seq<ChangeView>, names: RecordNamesView)
    ensures
        triages(changes, names).len() == changes.len(),
        forall|i: int|
            0 <= i < changes.len() ==> {
                let c = changes[i];
                let what = #[trigger] triages(changes, names)[i];
                let typed = c.identifier is Some && c.has_record && c.record_type is Some;
                let t = c.record_type->0;
                &&& what == Triage::Malformed <==> c.identifier is None || (c.has_record
                    && c.record_type is None)
                &&& what == Triage::Master <==> typed && t == names.master
                &&& what == Triage::Naming <==> typed && t == names.naming && t != names.master
                &&& what == Triage::Alignment <==> typed && t == names.alignment && t
                    != names.master && t != names.naming
                &&& what == Triage::Shared <==> typed && t == names.shared && t != names.master
                    && t != names.naming && t != names.alignment
            },
{
}

/// Of the records of the same name, the last one that was decoded is the one that is kept.
pub proof fn law_the_last_record_is_kept(list: Seq<DecodedView>, k: int)
    requires
        0 <= k < list.len(),
    ensures
        match list[k] {
            DecodedView::Master { id, record } => (forall|j: int|
                k < j < list.len() ==> !(#[trigger] list[j] matches DecodedView::Master {
                    id: other,
                    ..
                } && other == id)) ==> collected(list).masters.contains(FiledView { id, record }),
            DecodedView::Naming { record } => (forall|j: int|
                k < j < list.len() ==> !(#[trigger] list[j] matches DecodedView::Naming {
                    record: other,
                } && other.associated_beacon == record.associated_beacon))
                ==> collected(list).namings.contains(record),
            DecodedView::Alignment { beacon } => collected(list).alignments.contains(beacon),
        },
    decreases list.len(),
{
    let front = list.drop_last();
    let old = collected(front);
    let new = collected(list);
    match list.last() {
        DecodedView::Master { id, .. } => lemma_position_bounds(old.masters, id),
        DecodedView::Naming { record } => {
            lemma_naming_bounds(old.namings, record.associated_beacon);
        },
        _ => {},
    }
    if k == list.len() - 1 {
        match list[k] {
            DecodedView::Master { id, record } => {
                let at = master_position(old.masters, id);
                assert(new.masters[at] == FiledView { id, record });
            },
            DecodedView::Naming { record } => {
                let at = naming_position(old.namings, record.associated_beacon);
                assert(new.namings[at] == record);
            },
            DecodedView::Alignment { beacon } => {
                if !old.alignments.contains(beacon) {
                    assert(new.alignments[old.alignments.len() as int] == beacon);
                }
            },
        }
    } else {
        law_the_last_record_is_kept(front, k);
        assert(front[k] == list[k]);
        assert forall|j: int| 0 <= j < front.len() implies #[trigger] front[j] == list[j] by {}
        let end = list.len() - 1;
        match list[k] {
            DecodedView::Master { id, record } => {
                if forall|j: int|
                    k < j < list.len() ==> !(#[trigger] list[j] matches DecodedView::Master {
                        id: other,
                        ..
                    } && other == id) {
                    assert(!(list[end] matches DecodedView::Master { id: other, .. } && other
                        == id));
                    let f = FiledView { id, record };
                    assert(old.masters.contains(f));
                    let i = choose|i: int| 0 <= i < old.masters.len() && old.masters[i] == f;
                    assert(new.masters[i] == f);
                }
            },
            DecodedView::Naming { record } => {
                if forall|j: int|
                    k < j < list.len() ==> !(#[trigger] list[j] matches DecodedView::Naming {
                        record: other,
                    } && other.associated_beacon == record.associated_beacon) {
                    assert(!(list[end] matches DecodedView::Naming { record: other }
                        && other.associated_beacon == record.associated_beacon));
                    assert(old.namings.contains(record));
                    let i = choose|i: int|
                        0 <= i < old.namings.len() && old.namings[i] == record;
                    assert(new.namings[i] == record);
                }
            },
            DecodedView::Alignment { beacon } => {
                let i = choose|i: int|
                    0 <= i < old.alignments.len() && old.alignments[i] == beacon;
                assert(new.alignments[i] == beacon);
            },
        }
    }
}

/// An alignment that is kept is one that was decoded, and none is kept twice.
pub proof fn law_each_alignment_once(list: Seq<DecodedView>)
    ensures
        collected(list).alignments.no_duplicates(),
        forall|i: int|
            0 <= i < collected(list).alignments.len() ==> list.contains(
                DecodedView::Alignment { beacon: #[trigger] collected(list).alignments[i] },
            ),
    decreases list.len(),
{
    if list.len() > 0 {
        let front = list.drop_last();
        let old = collected(front);
        let new = collected(list);
        law_each_alignment_once(front);
        assert forall|i: int| 0 <= i < new.alignments.len() implies list.contains(
            DecodedView::Alignment { beacon: #[trigger] new.alignments[i] },
        ) by {
            let d = DecodedView::Alignment { beacon: new.alignments[i] };
            if i < old.alignments.len() {
                assert(new.alignments[i] == old.alignments[i]);
                assert(front.contains(d));
                let k = choose|k: int| 0 <= k < front.len() && front[k] == d;
                assert(list[k] == d);
            } else {
                assert(list[list.len() - 1] == d);
            }
        }
    }
}

/// An accessory has the name and the emoji of its own naming record, the one whose associated
/// beacon is the name of its master record; where there is none, its name is made from its stable
/// identifier.
pub proof fn law_each_accessory_has_its_own_name(records: RecordsView, i: int)
    requires
        records.distinct(),
        0 <= i < records.masters.len(),
    ensures
        forall|j: int|
            0 <= j < records.namings.len() && (#[trigger] records.namings[j]).associated_beacon
                == records.masters[i].id ==> {
                &&& assembled(records)[i].name == records.namings[j].name
                &&& assembled(records)[i].emoji == records.namings[j].emoji
            },
        (forall|j: int|
            0 <= j < records.namings.len() ==> (#[trigger] records.namings[j]).associated_beacon
                != records.masters[i].id) ==> {
            &&& assembled(records)[i].name == "Unknown-"@
                + records.masters[i].record.stable_identifier
            &&& assembled(records)[i].emoji.len() == 0
        },
{
    lemma_naming_bounds(records.namings, records.masters[i].id);
}

/// The records of one export hold no two of a kind under one name exactly where they are distinct.
pub proof fn law_distinct_records(records: RecordsView)
    ensures
        records.distinct() <==> {
            &&& forall|i: int, j: int|
                0 <= i < records.masters.len() && 0 <= j < records.masters.len() && (
                #[trigger] records.masters[i]).id == (#[trigger] records.masters[j]).id ==> i == j
            &&& forall|i: int, j: int|
                0 <= i < records.namings.len() && 0 <= j < records.namings.len() && (
                #[trigger] records.namings[i]).associated_beacon == (
                #[trigger] records.namings[j]).associated_beacon ==> i == j
            &&& records.alignments.no_duplicates()
        },
{
}

/// Every export carries the model of its own master record and the second in which the accessory
/// was paired, where that is known.
pub proof fn law_model_and_date_are_kept(records: RecordsView, i: int)
    requires
        0 <= i < records.masters.len(),
    ensures
        assembled(records)[i].model == records.masters[i].record.model,
        match records.masters[i].record.pairing_date {
            Some(nanos) => assembled(records)[i].pairing_date == Some(
                utc_text(
                    if nanos < 0 {
                        0
                    } else {
                        nanos / 1_000_000_000
                    },
                ),
            ),
            None => assembled(records)[i].pairing_date is None,
        },
        records.masters[i].record.datable() <==> (records.masters[i].record.pairing_date matches
        Some(nanos) ==> nanos / 1_000_000_000 <= LAST_SECOND),
        in_rfc3339(records.masters[i].record) <==> (records.masters[i].record.pairing_date matches
        Some(nanos) ==> nanos / 1_000_000_000 <= LAST_RFC3339_SECOND),
{
}

/// The names of the record types are seen each as what it is.
pub proof fn law_record_names_are_seen_in_full(names: RecordNames)
    ensures
        names@.master == names.master@,
        names@.naming == names.naming@,
        names@.alignment == names.alignment@,
        names@.shared == names.shared@,
{
}

} // verus!

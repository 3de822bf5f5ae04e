//! The property list that is written for an accessory.

use vstd::prelude::*;

use crate::encoding::base64_text;
use crate::json::Member;
use crate::pipeline::{bytes_of, BeaconExport, BeaconView};
use crate::property_list::{
    date_entry, dictionary_entries, empty_dictionary, into_value, put, value_entries, Content,
    Entries, Entry,
};
use crate::records::{reads_back, MasterView};
use crate::server::beacon_members;
use crate::timestamp::{parse_rfc3339, rfc3339_moment, whole_seconds};

verus! {

/// `entries`, with the bytes under `key` where there are any.
pub open spec fn with_data(entries: Entries, key: Seq<char>, bytes: Option<Seq<u8>>) -> Entries {
    match bytes {
        Some(b) => entries.insert(key, Entry::Data(b)),
        None => entries,
    }
}

/// `entries`, with the pairing date where there is one that can be read.
pub open spec fn with_date(entries: Entries, date: Option<Seq<char>>) -> Entries {
    match date {
        Some(text) => match rfc3339_moment(text) {
            Some(moment) => entries.insert("pairingDate"@, date_entry(moment.0, moment.1)),
            None => entries,
        },
        None => entries,
    }
}

/// What the property list of an accessory holds.
pub open spec fn beacon_entries(b: BeaconView) -> Entries {
    let keys = Entries::empty().insert("privateKey"@, Entry::Data(b.private_key)).insert(
        "sharedSecret"@,
        Entry::Data(b.shared_secret),
    );
    let keys = with_data(keys, "secondarySharedSecret"@, b.secondary_shared_secret);
    let keys = with_data(keys, "secureLocationsSharedSecret"@, b.secure_locations_shared_secret);
    let keys = with_data(keys, "publicKey"@, b.public_key);
    let named = keys.insert("identifier"@, Entry::Text(b.identifier)).insert(
        "model"@,
        Entry::Text(b.model),
    );
    with_date(named, b.pairing_date).insert("name"@, Entry::Text(b.name)).insert(
        "emoji"@,
        Entry::Text(b.emoji),
    )
}

/// A copy of some bytes.
fn copy_bytes(bytes: &Vec<u8>) -> (r: Vec<u8>)
    ensures
        r@ == bytes@,
{
    let mut out: Vec<u8> = Vec::new();
    for i in 0..bytes.len()
        invariant
            out@ == bytes@.take(i as int),
    {
        out.push(bytes[i]);
        assert(out@ =~= bytes@.take(i + 1));
    }
    assert(bytes@.take(bytes@.len() as int) =~= bytes@);
    out
}

fn put_data(d: &mut plist::Dictionary, key: &str, bytes: &Option<Vec<u8>>)
    ensures
        dictionary_entries(*final(d)) == with_data(
            dictionary_entries(*old(d)),
            key@,
            bytes_of(*bytes),
        ),
{
    match bytes {
        Some(b) => put(d, key, Content::Data(copy_bytes(b))),
        None => {},
    }
}

/// The property list of an accessory. A pairing date that cannot be read is left out.
pub fn beacon_to_plist(b: &BeaconExport) -> (r: plist::Value)
    ensures
        value_entries(r) == beacon_entries(b@),
{
    let mut dict = empty_dictionary();
    put(&mut dict, "privateKey", Content::Data(copy_bytes(&b.private_key)));
    put(&mut dict, "sharedSecret", Content::Data(copy_bytes(&b.shared_secret)));
    put_data(&mut dict, "secondarySharedSecret", &b.secondary_shared_secret);
    put_data(&mut dict, "secureLocationsSharedSecret", &b.secure_locations_shared_secret);
    put_data(&mut dict, "publicKey", &b.public_key);
    put(&mut dict, "identifier", Content::Text(b.identifier.clone()));
    put(&mut dict, "model", Content::Text(b.model.clone()));
    if let Some(text) = &b.pairing_date {
        if let Some((secs, nanos)) = parse_rfc3339(text.as_str()) {
            put(&mut dict, "pairingDate", Content::Date(secs, nanos));
        }
    }
    put(&mut dict, "name", Content::Text(b.name.clone()));
    put(&mut dict, "emoji", Content::Text(b.emoji.clone()));
    into_value(dict)
}

/// The keys of the property list are pairwise different, and so are the members of the JSON object.
proof fn lemma_keys_differ()
    ensures
        "privateKey"@.len() == 10 && "privateKey"@[0] == 'p' && "privateKey"@[1] == 'r',
        "sharedSecret"@.len() == 12,
        "secondarySharedSecret"@.len() == 21,
        "secureLocationsSharedSecret"@.len() == 27,
        "publicKey"@.len() == 9,
        "identifier"@.len() == 10 && "identifier"@[0] == 'i',
        "model"@.len() == 5 && "model"@[0] == 'm',
        "pairingDate"@.len() == 11,
        "name"@.len() == 4,
        "emoji"@.len() == 5 && "emoji"@[0] == 'e',
        "private_key"@.len() == 11,
        "shared_secret"@.len() == 13,
        "secondary_shared_secret"@.len() == 23,
        "secure_locations_shared_secret"@.len() == 30,
        "public_key"@.len() == 10 && "public_key"@[0] == 'p',
        "pairing_date"@.len() == 12,
{
    reveal_strlit("privateKey");
    reveal_strlit("sharedSecret");
    reveal_strlit("secondarySharedSecret");
    reveal_strlit("secureLocationsSharedSecret");
    reveal_strlit("publicKey");
    reveal_strlit("identifier");
    reveal_strlit("model");
    reveal_strlit("pairingDate");
    reveal_strlit("name");
    reveal_strlit("emoji");
    reveal_strlit("private_key");
    reveal_strlit("shared_secret");
    reveal_strlit("secondary_shared_secret");
    reveal_strlit("secure_locations_shared_secret");
    reveal_strlit("public_key");
    reveal_strlit("pairing_date");
}

/// Whether `member` is the Base64 text of the bytes under `key`, or `null` where there are none.
pub open spec fn same_key_material(entries: Entries, key: Seq<char>, member: Member) -> bool {
    match member {
        Member::Text(text) => entries.contains_key(key) && match entries[key] {
            Entry::Data(bytes) => text == base64_text(bytes),
            _ => false,
        },
        Member::Null => !entries.contains_key(key),
        _ => false,
    }
}

/// The API returns the same key material as the property list holds, in Base64, and the same names.
pub proof fn law_api_and_plist_agree(b: BeaconView)
    ensures
        ({
            let json = beacon_members(b);
            let list = beacon_entries(b);
            &&& same_key_material(list, "privateKey"@, json["private_key"@])
            &&& same_key_material(list, "sharedSecret"@, json["shared_secret"@])
            &&& same_key_material(
                list,
                "secondarySharedSecret"@,
                json["secondary_shared_secret"@],
            )
            &&& same_key_material(
                list,
                "secureLocationsSharedSecret"@,
                json["secure_locations_shared_secret"@],
            )
            &&& same_key_material(list, "publicKey"@, json["public_key"@])
            &&& json["identifier"@] == Member::Text(b.identifier) && list["identifier"@]
                == Entry::Text(b.identifier)
            &&& json["name"@] == Member::Text(b.name) && list["name"@] == Entry::Text(b.name)
            &&& json["emoji"@] == Member::Text(b.emoji) && list["emoji"@] == Entry::Text(b.emoji)
            &&& json["model"@] == Member::Text(b.model) && list["model"@] == Entry::Text(b.model)
        }),
{
    lemma_keys_differ();
}

/// A pairing date that reads back as the second in which the accessory was paired reaches the
/// property list as that second.
pub proof fn law_pairing_date_reaches_the_plist(b: BeaconView, record: MasterView)
    ensures
        reads_back(b, record) ==> match record.pairing_date {
            Some(n) => {
                &&& beacon_entries(b).contains_key("pairingDate"@)
                &&& beacon_entries(b)["pairingDate"@] == Entry::Date(whole_seconds(n), 0)
            },
            None => !beacon_entries(b).contains_key("pairingDate"@),
        },
{
    lemma_keys_differ();
}

/// The property list of an accessory holds each of its keys under its own name, and nothing else:
/// an optional key is there exactly where the accessory has it.
pub proof fn law_the_plist_holds_every_key(b: BeaconView, key: Seq<char>)
    ensures
        ({
            let list = beacon_entries(b);
            let has = |k: Seq<char>, e: Entry| list.contains_key(k) && list[k] == e;
            let may_have = |k: Seq<char>, bytes: Option<Seq<u8>>|
                match bytes {
                    Some(bytes) => list.contains_key(k) && list[k] == Entry::Data(bytes),
                    None => !list.contains_key(k),
                };
            &&& has("privateKey"@, Entry::Data(b.private_key))
            &&& has("sharedSecret"@, Entry::Data(b.shared_secret))
            &&& may_have("secondarySharedSecret"@, b.secondary_shared_secret)
            &&& may_have("secureLocationsSharedSecret"@, b.secure_locations_shared_secret)
            &&& may_have("publicKey"@, b.public_key)
            &&& has("identifier"@, Entry::Text(b.identifier))
            &&& has("model"@, Entry::Text(b.model))
            &&& has("name"@, Entry::Text(b.name))
            &&& has("emoji"@, Entry::Text(b.emoji))
            &&& list.contains_key("pairingDate"@) <==> b.pairing_date is Some && rfc3339_moment(
                b.pairing_date->0,
            ) is Some
            &&& list.contains_key(key) ==> {
                ||| key == "privateKey"@
                ||| key == "sharedSecret"@
                ||| key == "secondarySharedSecret"@
                ||| key == "secureLocationsSharedSecret"@
                ||| key == "publicKey"@
                ||| key == "identifier"@
                ||| key == "model"@
                ||| key == "pairingDate"@
                ||| key == "name"@
                ||| key == "emoji"@
            }
        }),
{
    lemma_keys_differ();
}

/// A pairing date that can be read is the moment that the text names, less than a second of
/// nanoseconds after its second: a leap second counts as the second after it.
pub proof fn law_the_plist_date_is_the_moment(b: BeaconView)
    requires
        b.pairing_date is Some,
        rfc3339_moment(b.pairing_date->0) is Some,
    ensures
        match beacon_entries(b)["pairingDate"@] {
            Entry::Date(secs, nanos) => {
                let moment = rfc3339_moment(b.pairing_date->0)->0;
                &&& 0 <= nanos < 1_000_000_000
                &&& secs * 1_000_000_000 + nanos == moment.0 * 1_000_000_000 + moment.1
            },
            _ => false,
        },
{
    lemma_keys_differ();
}

} // verus!

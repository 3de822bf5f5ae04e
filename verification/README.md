# export_findmy

Exports the keys of Find My accessories from iCloud: to `.plist` files from the command line, or
through a small REST API.

The rules of the export are a library, verified with [Verus](https://github.com/verus-lang/verus).
The program around it signs in to Apple, reads and writes files, and serves HTTP.

| Module | What it states |
|--------|----------------|
| `export` | one run as a state machine: which step follows which, what each answer leads to, and how often a join or a sync is repeated |
| `pipeline` | devices, accessories, errors, and what a failed login or join means for the user |
| `records` | which CloudKit changes are decoded, and how accessories are put together |
| `run_log` | the log lines of a run, and that no secret reaches them |
| `accessory` | the property list of an accessory, and that the API returns the same key material |
| `server` | the steps of a session, the answer to each request, and what becomes of the session |
| `sessions` | the sessions that are open, those that lapsed, and the reaping of idle ones |
| `logging` | which log records are written, and how far a trust-circle join got |
| `device`, `cli` | the device that the tool signs in as; the command line |
| `ids`, `encoding`, `timestamp`, `property_list`, `json`, `text` | identifiers, Base64 and digests, dates, property lists, JSON objects, text |

Contracts are stated over views: the texts as sequences of characters, the collections as sequences
and maps. Proof functions whose names begin with `law_` state what holds of several functions
together.

What is not proved is said where it is used: the functions marked `external_body`, and the
`assume_specification` items, call std and the outside crates, and their comments say what is
claimed of each.

//! The blob store: the decisions and report strings of the write, read and
//! delete paths.
//!
//! The caller owns the filesystem.  It hands in what it observed — whether
//! a location exists, whether it holds an entry, a stored file's size and
//! name, the current time — and carries out the actions decided here: the
//! engine itself never touches a path it has not derived from a validated
//! key, and never decides from anything but the values given to it.

use vstd::prelude::*;

use crate::errors::FileError;
use crate::key::{hashed, spec_key};
use crate::location::{is_valid_key, resolve, spec_resolve, validate_key};
use crate::policy::{
    is_expired, render_days, render_mb, spec_days_num, spec_days_str, spec_effective_size,
    spec_expired, spec_mb_str, MAX_BYTES,
};
use crate::timefmt::{format_rfc3339, rfc3339_of, valid_ts};

verus! {

/// What must happen to a location before a fresh blob is saved there.
#[derive(Debug, PartialEq, Eq, Structural)]
pub enum NewPlan {
    /// The location already holds an entry: attach to it; nothing is
    /// written.
    AttachExisting,
    /// The location exists but is empty — a prior failed or partial
    /// writer — so it is removed before the save (self-healing).
    RemoveEmptyThenFresh,
    /// The location does not exist yet.
    Fresh,
}

/// The outcome the write path decides on.
#[derive(Debug)]
pub enum SaveAction {
    /// Respond with the text and perform no write: the blob is a
    /// duplicate, or over the size ceiling.
    Respond(String),
    /// Create the location, write the payload into the file of the given
    /// name inside it, and respond with the report on success.
    Write { filename: String, response: String },
}

/// A handle on one blob: its location under the storage root, and — only
/// while this process is writing it — its creation time and payload.
pub struct File {
    /// The blob's location under the storage root.
    pub path: String,
    /// The digits-only key naming the location.
    pub key: String,
    /// Time of creation, kept while this process creates the blob.
    pub time: Option<i64>,
    /// The payload, held in memory only while being written.
    pub data: Option<Vec<u8>>,
}

/// The payload length a handle carries.
pub open spec fn spec_data_len(f: File) -> nat {
    match f.data {
        Some(d) => d@.len(),
        None => 0,
    }
}

/// The creation time a handle carries.
pub open spec fn spec_time(f: File) -> int {
    match f.time {
        Some(t) => t as int,
        None => 0,
    }
}

/// The three-line report on a stored blob: its retrieval address, its size
/// in millions of bytes, and its remaining retention in days.
pub open spec fn spec_info(
    url: Seq<char>,
    key: Seq<char>,
    size: nat,
    created: int,
    now: int,
) -> Seq<char> {
    "\nURL: "@ + url + "?file="@ + key + "\nFile size: "@ + spec_mb_str(size)
        + "M\nDays remaining: "@ + spec_days_str(
        spec_days_num(size, created, now),
        spec_effective_size(size),
    ) + "\n"@
}

/// The duplicate-upload response: informational text followed by the
/// existing blob's report.
pub open spec fn spec_already_uploaded(
    url: Seq<char>,
    key: Seq<char>,
    size: nat,
    created: int,
    now: int,
) -> Seq<char> {
    "Someone has already uploaded this file before. No need to recreate it.\r"@ + spec_info(
        url,
        key,
        size,
        created,
        now,
    )
}

/// The advisory for a buffer over the size ceiling; deliberately not an
/// error.
pub open spec fn spec_too_fat() -> Seq<char> {
    "I don't accept fat files. file_size > 150m"@
}

impl File {
    /// Whether the handle's location is well-formed under the given root:
    /// named by a valid key, placed directly under the root.
    pub open spec fn wf(&self, root: Seq<char>) -> bool {
        is_valid_key(self.key@) && self.path@ == spec_resolve(root, self.key@)
    }

    /// Addresses a content buffer: derives its key, resolves its location
    /// under the root, and decides from the caller's observation of that
    /// location whether this is a duplicate to attach to, a leftover empty
    /// location to remove first, or a fresh write.
    pub fn new(
        data: Vec<u8>,
        root: &str,
        now: i64,
        location_exists: bool,
        location_has_entry: bool,
    ) -> (r: (File, NewPlan))
        ensures
            r.0.key@ == spec_key(data@),
            r.0.path@ == spec_resolve(root@, spec_key(data@)),
            r.0.wf(root@),
            location_exists && location_has_entry ==> (r.0.time is None && r.0.data is None
                && r.1 == NewPlan::AttachExisting),
            !(location_exists && location_has_entry) ==> (r.0.time == Some(now) && (
            r.0.data matches Some(d) && d@ == data@) && r.1 == (
            if location_exists {
                NewPlan::RemoveEmptyThenFresh
            } else {
                NewPlan::Fresh
            })),
    {
        let key = hashed(&data);
        let path = resolve(root, key.as_str());
        if location_exists && location_has_entry {
            (File { path, key, time: None, data: None }, NewPlan::AttachExisting)
        } else if location_exists {
            (File { path, key, time: Some(now), data: Some(data) }, NewPlan::RemoveEmptyThenFresh)
        } else {
            (File { path, key, time: Some(now), data: Some(data) }, NewPlan::Fresh)
        }
    }

    /// Attaches to an already-stored blob: a handle that carries no
    /// payload and no in-memory creation time.
    pub fn at(path: String, key: String) -> (f: File)
        ensures
            f.path@ == path@,
            f.key@ == key@,
            f.time is None,
            f.data is None,
    {
        File { path, key, time: None, data: None }
    }

    /// The write path's decision.  A location that exists is a duplicate:
    /// the response repeats the stored blob's report (built from the size
    /// and creation time the caller observed there) and nothing is
    /// written.  A payload over the ceiling draws the advisory and nothing
    /// is written.  Otherwise the payload is to be written into a file
    /// named by the creation time, and the response reports on the new
    /// blob.
    pub fn save(
        &self,
        location_exists: bool,
        stored_size: u64,
        stored_created: i64,
        now: i64,
        url: &str,
    ) -> (r: SaveAction)
        requires
            !location_exists ==> self.data is Some && self.time is Some && valid_ts(
                spec_time(*self),
            ),
        ensures
            location_exists ==> (r matches SaveAction::Respond(msg) && msg@
                == spec_already_uploaded(
                url@,
                self.key@,
                stored_size as nat,
                stored_created as int,
                now as int,
            )),
            !location_exists && spec_data_len(*self) > MAX_BYTES ==> (r
                matches SaveAction::Respond(msg) && msg@ == spec_too_fat()),
            !location_exists && spec_data_len(*self) <= MAX_BYTES ==> (r
                matches SaveAction::Write { filename, response } && filename@ == rfc3339_of(
                spec_time(*self),
            ) && response@ == spec_info(
                url@,
                self.key@,
                spec_data_len(*self),
                spec_time(*self),
                now as int,
            )),
    {
        if location_exists {
            let mut msg = "Someone has already uploaded this file before. No need to recreate it.\r".to_owned();
            let report = self.info(stored_size, stored_created, now, url);
            msg.append(report.as_str());
            SaveAction::Respond(msg)
        } else {
            let len = self.data.as_ref().unwrap().len();
            if len > MAX_BYTES {
                SaveAction::Respond("I don't accept fat files. file_size > 150m".to_owned())
            } else {
                let t = self.time.unwrap();
                let filename = format_rfc3339(t);
                let response = self.info(len as u64, t, now, url);
                SaveAction::Write { filename, response }
            }
        }
    }

    /// Whether the blob at this location has aged out and is to be
    /// removed; the caller then deletes the whole location.
    pub fn delete_over(&self, stored_size: u64, stored_created: i64, now: i64) -> (r: bool)
        ensures
            r == spec_expired(stored_size as nat, stored_created as int, now as int),
    {
        is_expired(stored_size, stored_created, now)
    }

    /// The read path: the blob is the single file found by listing the
    /// location, so the caller hands in the first entry it saw; an absent
    /// or empty location reads as not-found.  On success, the full path of
    /// the file to stream back.
    pub fn named_file(&self, first_entry: Option<&str>) -> (r: Result<String, FileError>)
        ensures
            first_entry matches Some(name) ==> (r matches Ok(p) && p@ == spec_resolve(
                self.path@,
                name@,
            )),
            first_entry is None ==> (r matches Err(e) && e is NotFound),
    {
        match first_entry {
            Some(name) => Ok(resolve(self.path.as_str(), name)),
            None => Err(FileError::NotFound),
        }
    }

    /// The three-line report on this blob, from the stored size and
    /// creation time the caller observed.
    pub fn info(&self, stored_size: u64, created: i64, now: i64, url: &str) -> (r: String)
        ensures
            r@ == spec_info(url@, self.key@, stored_size as nat, created as int, now as int),
    {
        let mut s = "\nURL: ".to_owned();
        s.append(url);
        s.append("?file=");
        s.append(self.key.as_str());
        s.append("\nFile size: ");
        let mb = render_mb(stored_size);
        s.append(mb.as_str());
        s.append("M\nDays remaining: ");
        let days = render_days(stored_size, created, now);
        s.append(days.as_str());
        s.append("\n");
        proof {
            assert(s@ =~= spec_info(
                url@,
                self.key@,
                stored_size as nat,
                created as int,
                now as int,
            ));
        }
        s
    }
}

/// The read path's validation boundary: a user-supplied key is checked
/// against the safe character class before anything else, and an input
/// outside it is rejected as not-found — no location is even produced for
/// it, so nothing outside the storage root can ever be touched.
pub fn lookup(raw_key: &str, root: &str) -> (r: Result<File, FileError>)
    ensures
        is_valid_key(raw_key@) ==> (r matches Ok(f) && f.path@ == spec_resolve(root@, raw_key@)
            && f.key@ == raw_key@ && f.time is None && f.data is None && f.wf(root@)),
        !is_valid_key(raw_key@) ==> (r matches Err(e) && e is NotFound),
{
    if validate_key(raw_key) {
        let path = resolve(root, raw_key);
        Ok(File::at(path, raw_key.to_owned()))
    } else {
        Err(FileError::NotFound)
    }
}

/// The read path's existence gate: a location the filesystem does not
/// show — absent, or vanished since — reads as not-found.
pub fn found(f: File, location_exists: bool) -> (r: Result<File, FileError>)
    ensures
        location_exists ==> (r matches Ok(g) && g == f),
        !location_exists ==> (r matches Err(e) && e is NotFound),
{
    if location_exists {
        Ok(f)
    } else {
        Err(FileError::NotFound)
    }
}

} // verus!

use vstd::prelude::*;
use serde_json::Value;
use crate::cid::Cid;
use crate::ipld::Ipld;
use crate::ipld::map_get;
use crate::ipld::spec_get;
use crate::json;
use crate::json::json_text_of;
use crate::json::json_value_of;
use crate::timestamp::Timestamp;
use crate::timestamp::nanos_in_range;

verus! {

/// What a record holds, field by field: the mathematical reading that the
/// contracts of this module speak of.
pub ghost struct ObjectView {
    /// Nanoseconds since the Unix epoch at creation.
    pub created_at: i128,
    /// Nanoseconds since the Unix epoch at the last update.
    pub updated_at: i128,
    /// The binary form of the content-identifier link.
    pub data: Seq<u8>,
    /// The structured-metadata value.
    pub metadata: Value,
}

/// What went wrong while decoding a wire value, at the level the
/// contracts speak of: the first validation step that failed, with the
/// key it failed on where one is involved.
pub ghost enum WireFault {
    /// The wire value's top-level shape is not a map.
    NotMap,
    /// The entry under this key is absent or holds the wrong node kind.
    MissingMapMember { key: Seq<char> },
    /// An integer timestamp lies outside the representable range.
    InvalidDateTime,
    /// The metadata text does not parse as a structured value.
    SerdeJson,
}

/// Why a wire value failed to decode into a record.
#[derive(Debug)]
pub enum ObjectIpldError {
    /// An integer timestamp lies outside the representable datetime
    /// range.
    InvalidDateTime,
    /// The entry under the carried key is absent or holds the wrong node
    /// kind.
    MissingMapMember(String),
    /// The metadata text does not parse as a structured value; the
    /// parser's own error is carried along.
    SerdeJson(serde_json::Error),
    /// The wire value's top-level shape is not a map.
    NotMap,
}

impl ObjectIpldError {
    /// The validation step this error reports, with the key read
    /// mathematically.
    pub open spec fn fault(self) -> WireFault {
        match self {
            ObjectIpldError::InvalidDateTime => WireFault::InvalidDateTime,
            ObjectIpldError::MissingMapMember(k) => WireFault::MissingMapMember { key: k@ },
            ObjectIpldError::SerdeJson(_) => WireFault::SerdeJson,
            ObjectIpldError::NotMap => WireFault::NotMap,
        }
    }
}

/// A versioned, content-addressable record: a timestamped lifecycle, a
/// link to externally stored content, and a free-form structured
/// annotation.
#[derive(Debug, PartialEq, Eq)]
pub struct Object {
    created_at: Timestamp,
    updated_at: Timestamp,
    data: Cid,
    metadata: Value,
}

impl View for Object {
    type V = ObjectView;

    closed spec fn view(&self) -> ObjectView {
        ObjectView {
            created_at: self.created_at.spec_nanos(),
            updated_at: self.updated_at.spec_nanos(),
            data: self.data@,
            metadata: self.metadata,
        }
    }
}

impl Object {
    /// A record is well formed when both its timestamps lie in the
    /// representable datetime range.
    pub open spec fn wf(self) -> bool {
        nanos_in_range(self@.created_at) && nanos_in_range(self@.updated_at)
    }

    /// The creation timestamp.
    pub fn created_at(&self) -> (r: &Timestamp)
        ensures
            r.spec_nanos() == self@.created_at,
    {
        &self.created_at
    }

    /// The last-update timestamp.
    pub fn updated_at(&self) -> (r: &Timestamp)
        ensures
            r.spec_nanos() == self@.updated_at,
    {
        &self.updated_at
    }

    /// The content-identifier link.
    pub fn data(&self) -> (r: &Cid)
        ensures
            r@ == self@.data,
    {
        &self.data
    }

    /// The structured-metadata value.
    pub fn metadata(&self) -> (r: &Value)
        ensures
            *r == self@.metadata,
    {
        &self.metadata
    }

    /// Builds a record from its four fields.
    pub fn new(created_at: Timestamp, updated_at: Timestamp, data: Cid, metadata: Value) -> (r: Object)
        ensures
            r@.created_at == created_at.spec_nanos(),
            r@.updated_at == updated_at.spec_nanos(),
            r@.data == data@,
            r@.metadata == metadata,
    {
        Object { created_at, updated_at, data, metadata }
    }

    /// Replaces what is given, leaves the rest, and stamps the given
    /// time as the moment of the update. The creation timestamp never
    /// changes, and the update timestamp does not go backward as long as
    /// the given time is at or past the record's last update.
    pub fn update_at(&mut self, now: Timestamp, data: Option<Cid>, metadata: Option<Value>)
        ensures
            final(self)@.created_at == old(self)@.created_at,
            final(self)@.updated_at == now.spec_nanos(),
            final(self)@.data == (match data {
                Some(c) => c@,
                None => old(self)@.data,
            }),
            final(self)@.metadata == (match metadata {
                Some(v) => v,
                None => old(self)@.metadata,
            }),
            now.spec_nanos() >= old(self)@.updated_at ==> final(self)@.updated_at
                >= old(self)@.updated_at,
            old(self).wf() && now.is_valid() ==> final(self).wf(),
    {
        self.updated_at = now;
        match data {
            Some(cid) => self.data = cid,
            None => {},
        }
        match metadata {
            Some(value) => self.metadata = value,
            None => {},
        }
    }

    /// Replaces what is given, leaves the rest, and stamps the current
    /// wall-clock time as the moment of the update. The creation
    /// timestamp never changes; the new update timestamp is whatever the
    /// clock read, known only to lie in the representable range.
    pub fn update(&mut self, data: Option<Cid>, metadata: Option<Value>)
        ensures
            final(self)@.created_at == old(self)@.created_at,
            nanos_in_range(final(self)@.updated_at),
            final(self)@.data == (match data {
                Some(c) => c@,
                None => old(self)@.data,
            }),
            final(self)@.metadata == (match metadata {
                Some(v) => v,
                None => old(self)@.metadata,
            }),
            old(self).wf() ==> final(self).wf(),
    {
        let now = Timestamp::now();
        self.update_at(now, data, metadata);
    }
}

/// The integer under `key` in a wire map's entries, when the entry is
/// present and holds an integer node.
pub open spec fn int_entry(m: Seq<(String, Ipld)>, key: Seq<char>) -> Option<i128> {
    match spec_get(m, key) {
        Some(Ipld::Integer(n)) => Some(n),
        _ => None,
    }
}

/// The link under `key` in a wire map's entries, by its binary form,
/// when the entry is present and holds a link node.
pub open spec fn link_entry(m: Seq<(String, Ipld)>, key: Seq<char>) -> Option<Seq<u8>> {
    match spec_get(m, key) {
        Some(Ipld::Link(c)) => Some(c@),
        _ => None,
    }
}

/// The text under `key` in a wire map's entries, when the entry is
/// present and holds a text node.
pub open spec fn text_entry(m: Seq<(String, Ipld)>, key: Seq<char>) -> Option<Seq<char>> {
    match spec_get(m, key) {
        Some(Ipld::Text(s)) => Some(s@),
        _ => None,
    }
}

/// What decoding a wire map's entries yields: the record's reading on
/// success, else the first validation step that failed. The steps run in
/// a fixed order — presence and node kind of all four keys, key by key;
/// then the two timestamps' ranges, creation first; then the metadata
/// parse — and the first violation wins. Entries under other keys play
/// no part.
pub open spec fn spec_decode_entries(m: Seq<(String, Ipld)>) -> Result<ObjectView, WireFault> {
    match int_entry(m, "created_at"@) {
        None => Err(WireFault::MissingMapMember { key: "created_at"@ }),
        Some(created_at) => match int_entry(m, "updated_at"@) {
            None => Err(WireFault::MissingMapMember { key: "updated_at"@ }),
            Some(updated_at) => match link_entry(m, "data"@) {
                None => Err(WireFault::MissingMapMember { key: "data"@ }),
                Some(data) => match text_entry(m, "metadata"@) {
                    None => Err(WireFault::MissingMapMember { key: "metadata"@ }),
                    Some(text) => if !nanos_in_range(created_at) {
                        Err(WireFault::InvalidDateTime)
                    } else if !nanos_in_range(updated_at) {
                        Err(WireFault::InvalidDateTime)
                    } else {
                        match json_value_of(text) {
                            None => Err(WireFault::SerdeJson),
                            Some(metadata) => Ok(ObjectView {
                                created_at,
                                updated_at,
                                data,
                                metadata,
                            }),
                        }
                    },
                },
            },
        },
    }
}

/// What decoding a wire value yields: a non-map shape is rejected
/// outright, a map is decoded entry by entry.
pub open spec fn spec_decode(v: Ipld) -> Result<ObjectView, WireFault> {
    match v {
        Ipld::Dict(entries) => spec_decode_entries(entries@),
        _ => Err(WireFault::NotMap),
    }
}

/// A wire value that is not a map never decodes: the decoder reports
/// the not-a-map fault.
pub proof fn lemma_non_map_rejected(v: Ipld)
    requires
        !(v matches Ipld::Dict(_)),
    ensures
        spec_decode(v) == Err::<ObjectView, WireFault>(WireFault::NotMap),
{
}

/// The creation-timestamp entry is present, an integer, and in range.
pub open spec fn created_entry_ok(m: Seq<(String, Ipld)>) -> bool {
    int_entry(m, "created_at"@) matches Some(c) && nanos_in_range(c)
}

/// The update-timestamp entry is present, an integer, and in range.
pub open spec fn updated_entry_ok(m: Seq<(String, Ipld)>) -> bool {
    int_entry(m, "updated_at"@) matches Some(u) && nanos_in_range(u)
}

/// All four entries are present with their expected node kinds.
pub open spec fn entries_present(m: Seq<(String, Ipld)>) -> bool {
    &&& int_entry(m, "created_at"@) is Some
    &&& int_entry(m, "updated_at"@) is Some
    &&& link_entry(m, "data"@) is Some
    &&& text_entry(m, "metadata"@) is Some
}

/// A wire map without a usable entry under one of the four keys decodes
/// to the missing-member fault for the first such key — whatever the
/// entries' values, since presence and kind are checked before anything
/// is validated.
pub proof fn lemma_missing_member_rejected(m: Seq<(String, Ipld)>)
    ensures
        int_entry(m, "created_at"@) is None ==> spec_decode_entries(m)
            == Err::<ObjectView, WireFault>(WireFault::MissingMapMember { key: "created_at"@ }),
        int_entry(m, "created_at"@) is Some && int_entry(m, "updated_at"@) is None
            ==> spec_decode_entries(m)
            == Err::<ObjectView, WireFault>(WireFault::MissingMapMember { key: "updated_at"@ }),
        int_entry(m, "created_at"@) is Some && int_entry(m, "updated_at"@) is Some
            && link_entry(m, "data"@) is None ==> spec_decode_entries(m)
            == Err::<ObjectView, WireFault>(WireFault::MissingMapMember { key: "data"@ }),
        int_entry(m, "created_at"@) is Some && int_entry(m, "updated_at"@) is Some
            && link_entry(m, "data"@) is Some && text_entry(m, "metadata"@) is None
            ==> spec_decode_entries(m)
            == Err::<ObjectView, WireFault>(WireFault::MissingMapMember { key: "metadata"@ }),
{
}

/// Type strictness for the data link: a wire map whose `data` entry
/// holds any node kind but a link — a plain text node, say — never
/// decodes to a record.
pub proof fn lemma_wrong_kind_rejected(m: Seq<(String, Ipld)>)
    requires
        spec_get(m, "data"@) matches Some(n) && !(n matches Ipld::Link(_)),
    ensures
        spec_decode_entries(m) is Err,
{
}

/// An integer timestamp outside the representable range decodes to the
/// invalid-datetime fault, once all four entries are present — the
/// creation timestamp checked first, the update timestamp once the
/// creation one passes.
pub proof fn lemma_out_of_range_rejected(m: Seq<(String, Ipld)>)
    ensures
        entries_present(m) && (int_entry(m, "created_at"@) matches Some(c)
            && !nanos_in_range(c)) ==> spec_decode_entries(m)
            == Err::<ObjectView, WireFault>(WireFault::InvalidDateTime),
        entries_present(m) && created_entry_ok(m) && (int_entry(m, "updated_at"@)
            matches Some(u) && !nanos_in_range(u)) ==> spec_decode_entries(m)
            == Err::<ObjectView, WireFault>(WireFault::InvalidDateTime),
{
}

/// A metadata text that does not parse as a structured value decodes to
/// the parse fault, once every earlier check passes.
pub proof fn lemma_malformed_metadata_rejected(m: Seq<(String, Ipld)>)
    ensures
        entries_present(m) && created_entry_ok(m) && updated_entry_ok(m)
            && (text_entry(m, "metadata"@) matches Some(t) && json_value_of(t) is None)
            ==> spec_decode_entries(m)
            == Err::<ObjectView, WireFault>(WireFault::SerdeJson),
{
}

/// `r` is the canonical wire form of a record reading `o`: a four-entry
/// map holding the two timestamps as integer nodes, the data link as a
/// link node, and the metadata as its compact text.
pub open spec fn encodes(r: Ipld, o: ObjectView) -> bool {
    &&& r matches Ipld::Dict(entries)
    &&& entries@.len() == 4
    &&& entries@[0].0@ == "created_at"@
    &&& entries@[0].1 matches Ipld::Integer(n) && n == o.created_at
    &&& entries@[1].0@ == "updated_at"@
    &&& entries@[1].1 matches Ipld::Integer(n) && n == o.updated_at
    &&& entries@[2].0@ == "data"@
    &&& entries@[2].1 matches Ipld::Link(c) && c@ == o.data
    &&& entries@[3].0@ == "metadata"@
    &&& entries@[3].1 matches Ipld::Text(s) && s@ == json_text_of(o.metadata)
}

impl Object {
    /// Encodes the record into its canonical wire form. Encoding never
    /// fails, and the wire form of a well-formed record decodes back to
    /// the record whenever the parser accepts the metadata's printed
    /// text; a metadata value printed beyond the parser's recursion
    /// depth limit is the one case where decoding reports the parse
    /// fault instead.
    pub fn to_ipld(&self) -> (r: Ipld)
        ensures
            encodes(r, self@),
            self.wf() && json_value_of(json_text_of(self@.metadata)) is Some
                ==> spec_decode(r) == Ok::<ObjectView, WireFault>(self@),
            self.wf() && json_value_of(json_text_of(self@.metadata)) is None
                ==> spec_decode(r) == Err::<ObjectView, WireFault>(WireFault::SerdeJson),
    {
        let mut entries: Vec<(String, Ipld)> = Vec::new();
        entries.push(("created_at".to_owned(), Ipld::Integer(self.created_at.nanos())));
        entries.push(("updated_at".to_owned(), Ipld::Integer(self.updated_at.nanos())));
        entries.push(("data".to_owned(), Ipld::Link(self.data.clone())));
        let text = json::to_text(&self.metadata);
        entries.push(("metadata".to_owned(), Ipld::Text(text)));
        let r = Ipld::Dict(entries);
        proof {
            reveal_strlit("created_at");
            reveal_strlit("updated_at");
            reveal_strlit("data");
            reveal_strlit("metadata");
            assert("created_at"@.len() == 10 && "updated_at"@.len() == 10
                && "data"@.len() == 4 && "metadata"@.len() == 8);
            assert("created_at"@[0] == 'c' && "updated_at"@[0] == 'u');
            assert("created_at"@ != "updated_at"@ && "created_at"@ != "data"@
                && "created_at"@ != "metadata"@ && "updated_at"@ != "data"@
                && "updated_at"@ != "metadata"@ && "data"@ != "metadata"@);
            crate::ipld::lemma_get_at(entries@, "created_at"@, 0);
            crate::ipld::lemma_get_at(entries@, "updated_at"@, 1);
            crate::ipld::lemma_get_at(entries@, "data"@, 2);
            crate::ipld::lemma_get_at(entries@, "metadata"@, 3);
        }
        r
    }

    /// Decodes a wire value into a record, validating its shape
    /// strictly: the value must be a map whose four entries are present
    /// with the expected node kinds, the timestamps must lie in the
    /// representable range, and the metadata text must parse. The first
    /// violation wins, and on success the record holds exactly the
    /// decoded field values. Entries under keys other than the four are
    /// ignored: presence and kind of the required fields are what the
    /// shape demands.
    pub fn from_ipld(v: &Ipld) -> (r: Result<Object, ObjectIpldError>)
        ensures
            match r {
                Ok(o) => spec_decode(*v) == Ok::<ObjectView, WireFault>(o@) && o.wf(),
                Err(e) => spec_decode(*v) == Err::<ObjectView, WireFault>(e.fault()),
            },
    {
        let entries = match v {
            Ipld::Dict(entries) => entries,
            _ => {
                return Err(ObjectIpldError::NotMap);
            },
        };

        let created_key = "created_at".to_owned();
        let created_nanos: i128 = match map_get(entries, &created_key) {
            Some(node) => match node {
                Ipld::Integer(n) => *n,
                _ => {
                    return Err(ObjectIpldError::MissingMapMember(created_key));
                },
            },
            None => {
                return Err(ObjectIpldError::MissingMapMember(created_key));
            },
        };
        let updated_key = "updated_at".to_owned();
        let updated_nanos: i128 = match map_get(entries, &updated_key) {
            Some(node) => match node {
                Ipld::Integer(n) => *n,
                _ => {
                    return Err(ObjectIpldError::MissingMapMember(updated_key));
                },
            },
            None => {
                return Err(ObjectIpldError::MissingMapMember(updated_key));
            },
        };
        let data_key = "data".to_owned();
        let data = match map_get(entries, &data_key) {
            Some(node) => match node {
                Ipld::Link(cid) => cid.clone(),
                _ => {
                    return Err(ObjectIpldError::MissingMapMember(data_key));
                },
            },
            None => {
                return Err(ObjectIpldError::MissingMapMember(data_key));
            },
        };

        let metadata_key = "metadata".to_owned();
        let metadata_text = match map_get(entries, &metadata_key) {
            Some(node) => match node {
                Ipld::Text(s) => s,
                _ => {
                    return Err(ObjectIpldError::MissingMapMember(metadata_key));
                },
            },
            None => {
                return Err(ObjectIpldError::MissingMapMember(metadata_key));
            },
        };
        let created_at = match Timestamp::from_nanos(created_nanos) {
            Some(t) => t,
            None => {
                return Err(ObjectIpldError::InvalidDateTime);
            },
        };
        let updated_at = match Timestamp::from_nanos(updated_nanos) {
            Some(t) => t,
            None => {
                return Err(ObjectIpldError::InvalidDateTime);
            },
        };

        let metadata = match json::parse(metadata_text.as_str()) {
            Ok(value) => value,
            Err(e) => {
                return Err(ObjectIpldError::SerdeJson(e));
            },
        };

        Ok(Object { created_at, updated_at, data, metadata })
    }
}

impl Default for Object {
    /// A fresh record: both timestamps read from the clock at one
    /// instant, an empty content identifier, null metadata.
    fn default() -> (r: Self)
        ensures
            r.wf(),
            r@.created_at == r@.updated_at,
            r@.data == Seq::<u8>::empty(),
            Some(r@.metadata) == json::json_value_of("null"@),
    {
        let now = Timestamp::now();
        Object {
            created_at: now,
            updated_at: now,
            data: Cid::empty(),
            metadata: json::null_value(),
        }
    }
}

} // verus!

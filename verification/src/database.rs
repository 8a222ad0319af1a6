//! The store of per-server settings.
//!
//! The store is a list of records, one per server, in the order in which the
//! servers were read from the backing file or, after that, first configured;
//! no server has two records. Its view is the
//! mapping from server id to announcement channel. A server without a record
//! and one whose channel is `None` look the same through [`Database::get`].
//!
//! The store is written through: every change hands back the text that the
//! caller saves to the backing file. A change stays in memory even where
//! saving it fails afterwards.

use crate::text::str_eq;
use std::collections::BTreeMap;
use vstd::prelude::*;

verus! {

/// The settings of one server.
#[derive(Clone, Debug, PartialEq, Eq)]
pub struct ServerData {
    /// The channel that announcements go to, if any.
    pub announcement_channel: Option<String>,
}

impl DeepView for ServerData {
    type V = Option<Seq<char>>;

    open spec fn deep_view(&self) -> Option<Seq<char>> {
        self.announcement_channel.deep_view()
    }
}

impl View for ServerData {
    type V = Option<Seq<char>>;

    open spec fn view(&self) -> Option<Seq<char>> {
        self.deep_view()
    }
}

impl ServerData {
    /// The settings of a server that was never configured.
    pub fn empty() -> (data: Self)
        ensures
            data@ is None,
    {
        Self { announcement_channel: None }
    }

    /// A copy with the same channel.
    pub fn duplicate(&self) -> (copy: Self)
        ensures
            copy@ == self@,
    {
        match &self.announcement_channel {
            Some(channel) => Self { announcement_channel: Some(channel.clone()) },
            None => Self { announcement_channel: None },
        }
    }
}

/// Why the store could not do what was asked.
#[derive(Clone, Copy, Debug, PartialEq, Eq, Structural)]
pub enum StoreError {
    /// The backing file could not be written.
    IoFailed,
    /// The backing file does not hold a mapping of servers.
    Corrupted,
}

impl StoreError {
    /// What the user is told of the error.
    pub fn message(self) -> (text: &'static str)
        ensures
            text@ == match self {
                StoreError::IoFailed => IO_FAILED@,
                StoreError::Corrupted => CORRUPTED@,
            },
    {
        match self {
            StoreError::IoFailed => IO_FAILED,
            StoreError::Corrupted => CORRUPTED,
        }
    }
}

/// What is said where the backing file could not be written.
pub const IO_FAILED: &'static str = "Failed to save database";

/// What is said where the backing file is malformed.
pub const CORRUPTED: &'static str = "Failed to load database from file";

/// How the store came up.
#[derive(Clone, Copy, Debug, PartialEq, Eq, Structural)]
pub enum Startup {
    /// The backing file held a mapping, which was taken over.
    Loaded,
    /// There was no backing file; the store starts empty.
    Created,
    /// The backing file was malformed; the store starts empty.
    Recovered,
}

/// Whether some record is about server `id`.
pub open spec fn has_key(records: Seq<(Seq<char>, Option<Seq<char>>)>, id: Seq<char>) -> bool {
    exists|i: int| 0 <= i < records.len() && (#[trigger] records[i]).0 == id
}

/// Whether no server has two records.
pub open spec fn distinct_keys(records: Seq<(Seq<char>, Option<Seq<char>>)>) -> bool {
    forall|i: int, j: int|
        0 <= i < j < records.len() ==> (#[trigger] records[i]).0 != (#[trigger] records[j]).0
}

/// The position of a record about server `id`.
pub open spec fn index_of(records: Seq<(Seq<char>, Option<Seq<char>>)>, id: Seq<char>) -> int {
    choose|i: int| 0 <= i < records.len() && (#[trigger] records[i]).0 == id
}

/// The records after the channel of server `id` is set: its record is
/// replaced where it stands, or a new record is added at the end.
pub open spec fn upsert(
    records: Seq<(Seq<char>, Option<Seq<char>>)>,
    id: Seq<char>,
    channel: Option<Seq<char>>,
) -> Seq<(Seq<char>, Option<Seq<char>>)> {
    if has_key(records, id) {
        records.update(index_of(records, id), (id, channel))
    } else {
        records.push((id, channel))
    }
}

/// The mapping after a run of writes, made one after the other: each write
/// sets the channel of one server.
pub open spec fn applied(
    m: Map<Seq<char>, Option<Seq<char>>>,
    writes: Seq<(Seq<char>, Option<Seq<char>>)>,
) -> Map<Seq<char>, Option<Seq<char>>>
    decreases writes.len(),
{
    if writes.len() == 0 {
        m
    } else {
        applied(m, writes.drop_last()).insert(writes.last().0, writes.last().1)
    }
}

/// The mapping that a list of records stands for; of two records about one
/// server the later counts.
pub open spec fn map_of(records: Seq<(Seq<char>, Option<Seq<char>>)>) -> Map<
    Seq<char>,
    Option<Seq<char>>,
> {
    applied(Map::empty(), records)
}

/// What a reader sees of server `id` in a mapping: its channel, or `None`
/// where the server is not in it.
pub open spec fn config_of(m: Map<Seq<char>, Option<Seq<char>>>, id: Seq<char>) -> Option<
    Seq<char>,
> {
    if m.contains_key(id) {
        m[id]
    } else {
        None
    }
}

/// A channel that was set is the channel that is read back, `None` as well,
/// and no other server is touched.
pub proof fn lemma_set_then_get(
    before: Map<Seq<char>, Option<Seq<char>>>,
    server_id: Seq<char>,
    channel: Option<Seq<char>>,
    other: Seq<char>,
)
    ensures
        config_of(before.insert(server_id, channel), server_id) == channel,
        other != server_id ==> config_of(before.insert(server_id, channel), other) == config_of(
            before,
            other,
        ),
{
}

/// A server that was never configured and one whose channel was taken away
/// look the same to every reader.
pub proof fn lemma_absent_is_disabled(
    m: Map<Seq<char>, Option<Seq<char>>>,
    server_id: Seq<char>,
    reader: Seq<char>,
)
    ensures
        config_of(m.insert(server_id, None), reader) == config_of(m.remove(server_id), reader),
{
}

/// After a run of writes the mapping holds the servers it held before and
/// those that were written.
pub proof fn lemma_applied_domain(
    m: Map<Seq<char>, Option<Seq<char>>>,
    writes: Seq<(Seq<char>, Option<Seq<char>>)>,
    id: Seq<char>,
)
    ensures
        applied(m, writes).contains_key(id) <==> m.contains_key(id) || has_key(writes, id),
    decreases writes.len(),
{
    if writes.len() > 0 {
        let front = writes.drop_last();
        lemma_applied_domain(m, front, id);
        if has_key(writes, id) {
            let i = index_of(writes, id);
            if i < writes.len() - 1 {
                assert(front[i].0 == id);
            }
        }
        if has_key(front, id) {
            let i = index_of(front, id);
            assert(writes[i].0 == id);
        }
        if writes.last().0 == id {
            assert(writes[writes.len() - 1].0 == id);
        }
    }
}

/// Writes to different servers do not disturb each other: after a run of
/// writes, no two of them to the same server, every one of them is in the
/// mapping, in whatever order they were made.
pub proof fn lemma_distinct_writes_kept(
    m: Map<Seq<char>, Option<Seq<char>>>,
    writes: Seq<(Seq<char>, Option<Seq<char>>)>,
    i: int,
)
    requires
        distinct_keys(writes),
        0 <= i < writes.len(),
    ensures
        applied(m, writes).contains_key(writes[i].0),
        applied(m, writes)[writes[i].0] == writes[i].1,
        config_of(applied(m, writes), writes[i].0) == writes[i].1,
    decreases writes.len(),
{
    let front = writes.drop_last();
    if i < writes.len() - 1 {
        assert(front[i] == writes[i]);
        assert(distinct_keys(front)) by {
            assert forall|a: int, b: int| 0 <= a < b < front.len() implies (#[trigger] front[a]).0
                != (#[trigger] front[b]).0 by {
                assert(front[a] == writes[a] && front[b] == writes[b]);
            }
        }
        lemma_distinct_writes_kept(m, front, i);
        assert(writes[i].0 != writes[writes.len() - 1].0);
    }
}

/// Setting a channel keeps the servers apart and changes the mapping at
/// that one server.
pub proof fn lemma_upsert(
    records: Seq<(Seq<char>, Option<Seq<char>>)>,
    id: Seq<char>,
    channel: Option<Seq<char>>,
)
    requires
        distinct_keys(records),
    ensures
        distinct_keys(upsert(records, id, channel)),
        map_of(upsert(records, id, channel)) == map_of(records).insert(id, channel),
    decreases records.len(),
{
    let after = upsert(records, id, channel);
    if has_key(records, id) {
        let i = index_of(records, id);
        assert forall|a: int, b: int| 0 <= a < b < after.len() implies (#[trigger] after[a]).0
            != (#[trigger] after[b]).0 by {
            assert(after[a].0 == records[a].0 && after[b].0 == records[b].0);
        }
        let front = records.drop_last();
        assert(distinct_keys(front)) by {
            assert forall|a: int, b: int| 0 <= a < b < front.len() implies (#[trigger] front[a]).0
                != (#[trigger] front[b]).0 by {
                assert(front[a] == records[a] && front[b] == records[b]);
            }
        }
        if i == records.len() - 1 {
            assert(after.drop_last() =~= front);
            assert(map_of(after) =~= map_of(records).insert(id, channel));
        } else {
            assert(front[i].0 == id);
            assert(has_key(front, id));
            let k = index_of(front, id);
            assert(records[k].0 == id);
            assert(k == i);
            lemma_upsert(front, id, channel);
            assert(after.drop_last() =~= upsert(front, id, channel));
            assert(after.last() == records.last());
            assert(records.last().0 != id) by {
                assert(records[i].0 != records[records.len() - 1].0);
            }
            assert(map_of(after) =~= map_of(records).insert(id, channel));
        }
    } else {
        assert(after.drop_last() =~= records);
        assert forall|a: int, b: int| 0 <= a < b < after.len() implies (#[trigger] after[a]).0
            != (#[trigger] after[b]).0 by {
            if b < records.len() {
                assert(after[a] == records[a] && after[b] == records[b]);
            } else {
                assert(after[a] == records[a]);
            }
        }
    }
}

/// What `serde_json::from_str` makes of a text read as a JSON object whose
/// members are objects whose members are strings or `null`: the members in
/// the order of their names, or `None` where the text is no such object.
pub uninterp spec fn parsed_document(text: Seq<char>) -> Option<
    Seq<(Seq<char>, Seq<(Seq<char>, Option<Seq<char>>)>)>,
>;

/// The JSON text that `serde_json::to_string` writes for an object with the
/// given members, each an object of strings and `null`s; `None` where it
/// reports an error.
pub uninterp spec fn rendered_document(
    document: Seq<(Seq<char>, Seq<(Seq<char>, Option<Seq<char>>)>)>,
) -> Option<Seq<char>>;

/// Whether no two members of the document, and no two members of any of its
/// objects, have the same name.
pub open spec fn well_keyed(
    document: Seq<(Seq<char>, Seq<(Seq<char>, Option<Seq<char>>)>)>,
) -> bool {
    &&& forall|i: int, j: int|
        0 <= i < j < document.len() ==> (#[trigger] document[i]).0 != (#[trigger] document[j]).0
    &&& forall|i: int, a: int, b: int|
        0 <= i < document.len() && 0 <= a < b < document[i].1.len() ==> (
        #[trigger] document[i].1[a]).0 != (#[trigger] document[i].1[b]).0
}

/// `serde_json::from_str`, asked for a map of maps of optional strings. The
/// result is named by [`parsed_document`]; an error of the parser, whatever
/// its kind, comes back as `None`.
#[verifier::external_body]
fn parse_document(text: &str) -> (document: Option<Vec<(String, Vec<(String, Option<String>)>)>>)
    ensures
        document.deep_view() == parsed_document(text@),
{
    let parsed: Result<BTreeMap<String, BTreeMap<String, Option<String>>>, serde_json::Error> =
        serde_json::from_str(text);
    match parsed {
        Ok(servers) => Some(
            servers.into_iter().map(|(id, fields)| (id, fields.into_iter().collect())).collect(),
        ),
        Err(_) => None,
    }
}

/// `serde_json::to_string`, given a map of maps of optional strings. The
/// result is named by [`rendered_document`]. Names must not repeat: a map
/// keeps one member per name.
#[verifier::external_body]
fn render_document(document: &Vec<(String, Vec<(String, Option<String>)>)>) -> (text: Option<
    String,
>)
    requires
        well_keyed(document.deep_view()),
    ensures
        text.deep_view() == rendered_document(document.deep_view()),
{
    let servers: BTreeMap<&String, BTreeMap<&String, &Option<String>>> = document.iter().map(
        |(id, fields)| (id, fields.iter().map(|(name, value)| (name, value)).collect()),
    ).collect();
    serde_json::to_string(&servers).ok()
}

/// The name under which a server's object holds its announcement channel.
pub open spec fn channel_field() -> Seq<char> {
    "announcement_channel"@
}

/// The JSON document that stands for the records: one member per server,
/// named by the server's id, holding the channel under [`channel_field`].
pub open spec fn document_of(records: Seq<(Seq<char>, Option<Seq<char>>)>) -> Seq<
    (Seq<char>, Seq<(Seq<char>, Option<Seq<char>>)>),
> {
    Seq::new(records.len(), |i: int| (records[i].0, seq![(channel_field(), records[i].1)]))
}

/// The value of the last member called `name`, or `None` where there is no
/// such member.
pub open spec fn field_value(fields: Seq<(Seq<char>, Option<Seq<char>>)>, name: Seq<char>) -> Option<
    Seq<char>,
>
    decreases fields.len(),
{
    if fields.len() == 0 {
        None
    } else if fields.last().0 == name {
        fields.last().1
    } else {
        field_value(fields.drop_last(), name)
    }
}

/// The records that a document stands for: each member sets the channel of
/// the server it is named after, in the order of the document. Members of a
/// server's object other than the channel are passed over.
pub open spec fn loaded(document: Seq<(Seq<char>, Seq<(Seq<char>, Option<Seq<char>>)>)>) -> Seq<
    (Seq<char>, Option<Seq<char>>),
>
    decreases document.len(),
{
    if document.len() == 0 {
        Seq::empty()
    } else {
        upsert(
            loaded(document.drop_last()),
            document.last().0,
            field_value(document.last().1, channel_field()),
        )
    }
}

/// The store: the settings of every server that was configured.
pub struct Database {
    entries: Vec<(String, ServerData)>,
}

impl View for Database {
    type V = Map<Seq<char>, Option<Seq<char>>>;

    /// The mapping from server id to announcement channel.
    open spec fn view(&self) -> Map<Seq<char>, Option<Seq<char>>> {
        map_of(self.records())
    }
}

impl Database {
    /// No server has two records.
    #[verifier::type_invariant]
    spec fn distinct(&self) -> bool {
        distinct_keys(self.entries.deep_view())
    }

    /// The records of the store, in the order in which the servers were
    /// read from the backing file or first configured.
    pub closed spec fn records(&self) -> Seq<(Seq<char>, Option<Seq<char>>)> {
        self.entries.deep_view()
    }

    /// An empty store.
    pub fn new() -> (db: Self)
        ensures
            db.records() == Seq::<(Seq<char>, Option<Seq<char>>)>::empty(),
            db@ == Map::<Seq<char>, Option<Seq<char>>>::empty(),
    {
        let db = Database { entries: Vec::new() };
        assert(db.entries.deep_view() =~= Seq::empty());
        db
    }

    /// The position of the record about server `id`.
    fn position(&self, id: &str) -> (at: Option<usize>)
        ensures
            match at {
                Some(i) => i < self.entries.len() && self.records()[i as int].0 == id@ && i
                    == index_of(self.records(), id@) && has_key(self.records(), id@),
                None => !has_key(self.records(), id@),
            },
    {
        proof {
            use_type_invariant(self);
        }
        let mut i: usize = 0;
        while i < self.entries.len()
            invariant
                i <= self.entries.len(),
                distinct_keys(self.records()),
                forall|k: int| 0 <= k < i ==> (#[trigger] self.records()[k]).0 != id@,
            decreases self.entries.len() - i,
        {
            if str_eq(self.entries[i].0.as_str(), id) {
                proof {
                    let k = index_of(self.records(), id@);
                    assert(self.records()[i as int].0 == id@);
                    assert(k == i);
                }
                return Some(i);
            }
            i += 1;
        }
        None
    }

    /// The settings of server `server_id`; those of [`ServerData::empty`]
    /// where the server was never configured.
    pub fn get(&self, server_id: &str) -> (data: ServerData)
        ensures
            data@ == config_of(self@, server_id@),
    {
        proof {
            use_type_invariant(self);
            lemma_applied_domain(Map::empty(), self.records(), server_id@);
        }
        match self.position(server_id) {
            Some(i) => {
                proof {
                    lemma_distinct_writes_kept(Map::empty(), self.records(), i as int);
                }
                self.entries[i].1.duplicate()
            },
            None => ServerData::empty(),
        }
    }

    /// Sets the channel of a server in memory.
    fn put(&mut self, server_id: String, channel_id: Option<String>)
        ensures
            final(self).records() == upsert(
                old(self).records(),
                server_id@,
                channel_id.deep_view(),
            ),
            final(self)@ == old(self)@.insert(server_id@, channel_id.deep_view()),
    {
        proof {
            use_type_invariant(&*self);
            lemma_upsert(self.records(), server_id@, channel_id.deep_view());
        }
        let ghost before = self.records();
        let ghost id = server_id@;
        let ghost channel = channel_id.deep_view();
        let at = self.position(server_id.as_str());
        let mut entries: Vec<(String, ServerData)> = Vec::new();
        assert(entries.deep_view() =~= Seq::empty());
        core::mem::swap(&mut self.entries, &mut entries);
        match at {
            Some(i) => {
                entries.set(i, (server_id, ServerData { announcement_channel: channel_id }));
                assert(entries.deep_view() =~= before.update(i as int, (id, channel)));
            },
            None => {
                entries.push((server_id, ServerData { announcement_channel: channel_id }));
                assert(entries.deep_view() =~= before.push((id, channel)));
            },
        }
        self.entries = entries;
    }

    /// The JSON document that stands for the store: see [`document_of`].
    pub fn to_document(&self) -> (document: Vec<(String, Vec<(String, Option<String>)>)>)
        ensures
            document.deep_view() == document_of(self.records()),
            well_keyed(document.deep_view()),
    {
        proof {
            use_type_invariant(self);
        }
        let mut document: Vec<(String, Vec<(String, Option<String>)>)> = Vec::new();
        let mut i: usize = 0;
        while i < self.entries.len()
            invariant
                i <= self.entries.len(),
                document.deep_view() == document_of(self.records()).take(i as int),
            decreases self.entries.len() - i,
        {
            let ghost before = document.deep_view();
            let data = self.entries[i].1.duplicate();
            let mut fields: Vec<(String, Option<String>)> = Vec::new();
            fields.push(("announcement_channel".to_owned(), data.announcement_channel));
            assert(fields.deep_view() =~= seq![(channel_field(), self.records()[i as int].1)]);
            document.push((self.entries[i].0.clone(), fields));
            assert(document.deep_view() =~= before.push(document_of(self.records())[i as int]));
            i += 1;
            assert(document.deep_view() =~= document_of(self.records()).take(i as int));
        }
        assert(document_of(self.records()).take(self.entries.len() as int) =~= document_of(
            self.records(),
        ));
        document
    }

    /// The JSON text of the store, as it is kept in the backing file.
    /// `Err(StoreError::IoFailed)` where the serializer reports an error.
    pub fn encode(&self) -> (text: Result<String, StoreError>)
        ensures
            match text {
                Ok(t) => rendered_document(document_of(self.records())) == Some(t@),
                Err(e) => e == StoreError::IoFailed && rendered_document(
                    document_of(self.records()),
                ) is None,
            },
    {
        let document = self.to_document();
        match render_document(&document) {
            Some(t) => Ok(t),
            None => Err(StoreError::IoFailed),
        }
    }

    /// Sets the announcement channel of a server, or takes it away with
    /// `None`, and hands back the text to save in the backing file.
    ///
    /// The change is made in memory whatever becomes of the text: where the
    /// result is an error, or the caller cannot save the text, readers see
    /// the new channel all the same.
    pub fn set_announcement_channel(&mut self, server_id: String, channel_id: Option<String>) -> (saved:
        Result<String, StoreError>)
        ensures
            final(self).records() == upsert(
                old(self).records(),
                server_id@,
                channel_id.deep_view(),
            ),
            final(self)@ == old(self)@.insert(server_id@, channel_id.deep_view()),
            match saved {
                Ok(text) => rendered_document(document_of(final(self).records())) == Some(text@),
                Err(e) => e == StoreError::IoFailed && rendered_document(
                    document_of(final(self).records()),
                ) is None,
            },
    {
        self.put(server_id, channel_id);
        self.encode()
    }

    /// A copy of every record, in the order of the store.
    pub fn get_data(&self) -> (snapshot: Vec<(String, ServerData)>)
        ensures
            snapshot.deep_view() == self.records(),
            distinct_keys(snapshot.deep_view()),
            map_of(snapshot.deep_view()) == self@,
    {
        proof {
            use_type_invariant(self);
        }
        let mut snapshot: Vec<(String, ServerData)> = Vec::new();
        let mut i: usize = 0;
        while i < self.entries.len()
            invariant
                i <= self.entries.len(),
                snapshot.deep_view() == self.records().take(i as int),
            decreases self.entries.len() - i,
        {
            let ghost before = snapshot.deep_view();
            snapshot.push((self.entries[i].0.clone(), self.entries[i].1.duplicate()));
            assert(snapshot.deep_view() =~= before.push(self.records()[i as int]));
            i += 1;
            assert(snapshot.deep_view() =~= self.records().take(i as int));
        }
        assert(self.records().take(self.entries.len() as int) =~= self.records());
        snapshot
    }

    /// The store that a JSON document stands for: see [`loaded`].
    pub fn from_document(document: &Vec<(String, Vec<(String, Option<String>)>)>) -> (db: Self)
        ensures
            db.records() == loaded(document.deep_view()),
    {
        let mut db = Database::new();
        let mut i: usize = 0;
        assert(document.deep_view().take(0) =~= Seq::empty());
        while i < document.len()
            invariant
                i <= document.len(),
                db.records() == loaded(document.deep_view().take(i as int)),
            decreases document.len() - i,
        {
            let ghost part = document.deep_view().take(i + 1);
            assert(part.drop_last() =~= document.deep_view().take(i as int));
            let channel = channel_of(&document[i].1);
            db.put(document[i].0.clone(), channel);
            i += 1;
        }
        assert(document.deep_view().take(document.len() as int) =~= document.deep_view());
        db
    }

    /// Reads the text of a backing file. `Err(StoreError::Corrupted)` where
    /// the text is not a JSON object of objects of strings and `null`s.
    pub fn decode(text: &str) -> (db: Result<Self, StoreError>)
        ensures
            match db {
                Ok(d) => parsed_document(text@) matches Some(document) && d.records() == loaded(
                    document,
                ),
                Err(e) => e == StoreError::Corrupted && parsed_document(text@) is None,
            },
    {
        match parse_document(text) {
            Some(document) => Ok(Database::from_document(&document)),
            None => Err(StoreError::Corrupted),
        }
    }

    /// Brings the store up from what the backing file holds: `None` where
    /// there is no file. A missing or malformed file gives an empty store.
    pub fn restore(contents: Option<&str>) -> (started: (Self, Startup))
        ensures
            match contents {
                None => started.1 == Startup::Created && started.0.records() == Seq::<
                    (Seq<char>, Option<Seq<char>>),
                >::empty(),
                Some(text) => match parsed_document(text@) {
                    Some(document) => started.1 == Startup::Loaded && started.0.records()
                        == loaded(document),
                    None => started.1 == Startup::Recovered && started.0.records() == Seq::<
                        (Seq<char>, Option<Seq<char>>),
                    >::empty(),
                },
            },
    {
        match contents {
            None => (Database::new(), Startup::Created),
            Some(text) => match Database::decode(text) {
                Ok(db) => (db, Startup::Loaded),
                Err(_) => (Database::new(), Startup::Recovered),
            },
        }
    }
}

/// The channel among the members of a server's object.
fn channel_of(fields: &Vec<(String, Option<String>)>) -> (channel: Option<String>)
    ensures
        channel.deep_view() == field_value(fields.deep_view(), channel_field()),
{
    let mut i: usize = fields.len();
    assert(fields.deep_view().take(fields.len() as int) =~= fields.deep_view());
    while i > 0
        invariant
            i <= fields.len(),
            field_value(fields.deep_view(), channel_field()) == field_value(
                fields.deep_view().take(i as int),
                channel_field(),
            ),
        decreases i,
    {
        i -= 1;
        let ghost part = fields.deep_view().take(i + 1);
        assert(part.drop_last() =~= fields.deep_view().take(i as int));
        assert(part.last() == fields.deep_view()[i as int]);
        if str_eq(fields[i].0.as_str(), "announcement_channel") {
            return match &fields[i].1 {
                Some(channel) => Some(channel.clone()),
                None => None,
            };
        }
    }
    None
}

impl Startup {
    /// What has to be written to the backing file after this start: the
    /// empty mapping where the file was missing or malformed, nothing where
    /// it was taken over.
    pub fn rewrite(self) -> (contents: Option<&'static str>)
        ensures
            match contents {
                Some(text) => self != Startup::Loaded && text@ == "{}"@,
                None => self == Startup::Loaded,
            },
    {
        match self {
            Startup::Loaded => None,
            _ => Some("{}"),
        }
    }
}

} // verus!

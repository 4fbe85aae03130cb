//! The bulk import pipeline: the records of a historical archive, the
//! reconstruction of their text, the size gate, and the counting loop that
//! feeds them through the duplicate store.

use crate::fingerprint::fingerprint_of;
use crate::store::{record_map, record_outcome, Recorded, Store, StoreError};
use crate::text::{decimal_of, decimal_string, format_size, size_binary_of};
use vstd::prelude::*;

verus! {

/// The default cap on a bulk import archive's declared size: 50 MiB.
pub fn default_max_import_size() -> (r: u32)
    ensures
        r == 52428800u32,
{
    50 * 1024 * 1024
}

/// One annotated chunk of an imported message's text.
pub enum ImportTextChunk {
    Simple(String),
    Typed { text: String },
}

impl ImportTextChunk {
    /// The chunk's characters, its annotation ignored.
    pub open spec fn spec_text(&self) -> Seq<char> {
        match self {
            ImportTextChunk::Simple(t) => t@,
            ImportTextChunk::Typed { text } => text@,
        }
    }

    /// The chunk's text, its annotation ignored.
    pub fn as_str(&self) -> (r: &str)
        ensures
            r@ == self.spec_text(),
    {
        match self {
            ImportTextChunk::Simple(text) => text.as_str(),
            ImportTextChunk::Typed { text } => text.as_str(),
        }
    }
}

/// The text of the chunks, concatenated in order.
pub open spec fn chunks_text(chunks: Seq<ImportTextChunk>) -> Seq<char>
    decreases chunks.len(),
{
    if chunks.len() == 0 {
        Seq::<char>::empty()
    } else {
        chunks_text(chunks.drop_last()) + chunks.last().spec_text()
    }
}

/// An imported message's text: one plain string, or chunks whose texts are
/// concatenated in order to reconstruct the logical text.
pub enum ImportText {
    Simple(String),
    Chunked(Vec<ImportTextChunk>),
}

impl ImportText {
    /// The logical text.
    pub open spec fn spec_text(&self) -> Seq<char> {
        match self {
            ImportText::Simple(t) => t@,
            ImportText::Chunked(cs) => chunks_text(cs@),
        }
    }

    /// Reconstructs the logical text without consuming the value.
    pub fn reconstruct(&self) -> (r: String)
        ensures
            r@ == self.spec_text(),
    {
        match self {
            ImportText::Simple(t) => t.clone(),
            ImportText::Chunked(chunks) => {
                let mut out = String::new();
                let mut i: usize = 0;
                while i < chunks.len()
                    invariant
                        i <= chunks.len(),
                        out@ == chunks_text(chunks@.take(i as int)),
                    decreases chunks.len() - i,
                {
                    out.append(chunks[i].as_str());
                    proof {
                        assert(chunks@.take(i as int + 1).drop_last() =~= chunks@.take(i as int));
                        assert(chunks@.take(i as int + 1).last() == chunks@[i as int]);
                    }
                    i = i + 1;
                }
                proof {
                    assert(chunks@.take(chunks@.len() as int) =~= chunks@);
                }
                out
            },
        }
    }

    /// Reconstructs the logical text.
    pub fn moo(self) -> (r: String)
        ensures
            r@ == self.spec_text(),
    {
        let r = self.reconstruct();
        r
    }
}

/// One record of a bulk archive: a type tag and the message text.  Only
/// records tagged `message` participate in dedup.
pub struct ImportMessage {
    pub kind: String,
    pub text: ImportText,
}

impl ImportMessage {
    /// Whether this record participates in dedup.
    pub open spec fn is_message(&self) -> bool {
        self.kind@ == "message"@
    }
}

/// The store contents after importing the records in order: each
/// message-typed record's text is recorded if its fingerprint was absent;
/// records with any other tag change nothing.
pub open spec fn import_map(
    m: Map<Seq<u8>, Seq<u8>>,
    channel_id: i64,
    msgs: Seq<ImportMessage>,
) -> Map<Seq<u8>, Seq<u8>>
    decreases msgs.len(),
{
    if msgs.len() == 0 {
        m
    } else {
        let prev = import_map(m, channel_id, msgs.drop_last());
        if msgs.last().is_message() {
            record_map(prev, fingerprint_of(channel_id, msgs.last().text.spec_text()))
        } else {
            prev
        }
    }
}

/// How many records the import counts: the message-typed records whose
/// fingerprint was new when their turn came.  Repeats inside the archive and
/// texts seen before the import count nothing.
pub open spec fn import_count(
    m: Map<Seq<u8>, Seq<u8>>,
    channel_id: i64,
    msgs: Seq<ImportMessage>,
) -> nat
    decreases msgs.len(),
{
    if msgs.len() == 0 {
        0
    } else {
        let prev_map = import_map(m, channel_id, msgs.drop_last());
        let prev_count = import_count(m, channel_id, msgs.drop_last());
        if msgs.last().is_message() && record_outcome(
            prev_map,
            fingerprint_of(channel_id, msgs.last().text.spec_text()),
        ) == Recorded::New {
            prev_count + 1
        } else {
            prev_count
        }
    }
}

/// Feeds the records of a parsed archive through the duplicate store in
/// order and counts the newly recorded ones.  Duplicates are silently
/// excluded from the count, and nothing is ever deleted: the import returns
/// only a count.  A store failure aborts the remaining records; what earlier
/// records recorded stays recorded.
pub fn import_messages(store: &mut Store, channel_id: i64, records: &Vec<ImportMessage>) -> (r:
    Result<usize, StoreError>)
    ensures
        match r {
            Ok(n) => final(store)@ == import_map(old(store)@, channel_id, records@) && n
                == import_count(old(store)@, channel_id, records@),
            Err(_) => true,
        },
{
    let ghost m0 = store@;
    let msg_kind: String = "message".to_owned();
    let mut count: usize = 0;
    let mut i: usize = 0;
    while i < records.len()
        invariant
            i <= records.len(),
            count <= i,
            msg_kind@ == "message"@,
            store@ == import_map(m0, channel_id, records@.take(i as int)),
            count == import_count(m0, channel_id, records@.take(i as int)),
        decreases records.len() - i,
    {
        proof {
            assert(records@.take(i as int + 1).drop_last() =~= records@.take(i as int));
            assert(records@.take(i as int + 1).last() == records@[i as int]);
        }
        let record = &records[i];
        if record.kind == msg_kind {
            let text = record.text.reconstruct();
            match store.record_if_new(channel_id, text.as_str()) {
                Ok(Recorded::New) => {
                    count = count + 1;
                },
                Ok(_) => {},
                Err(e) => {
                    return Err(e);
                },
            }
        }
        i = i + 1;
    }
    proof {
        assert(records@.take(records@.len() as int) =~= records@);
    }
    Ok(count)
}

/// The reply naming the declared size and the greatest accepted size, both
/// rendered with a binary prefix.
pub open spec fn size_reply(declared_size: u32, max_size: u32) -> Seq<char> {
    "Come on, there's no way I'll import a "@ + size_binary_of(declared_size as u64) + "B file (my limit is "@
        + size_binary_of(max_size as u64) + "B)"@
}

/// The size gate of the import pipeline: an archive whose declared size is
/// over the configured maximum is turned away with the size-comparison
/// reply, and nothing of it is to be fetched or parsed; any other archive
/// passes.
pub fn check_import_size(declared_size: u32, max_size: u32) -> (r: Option<String>)
    ensures
        r is Some <==> declared_size > max_size,
        declared_size > max_size ==> r->Some_0@ == size_reply(declared_size, max_size),
{
    if declared_size > max_size {
        let mut s: String = "Come on, there's no way I'll import a ".to_owned();
        s.append(format_size(declared_size as u64).as_str());
        s.append("B file (my limit is ");
        s.append(format_size(max_size as u64).as_str());
        s.append("B)");
        Some(s)
    } else {
        None
    }
}

/// The reply reporting how many messages an import newly recorded.
pub open spec fn import_reply(count: u64) -> Seq<char> {
    "Sucessfully imported "@ + decimal_of(count) + " messages (excluding duplicates)"@
}

/// Builds the reply reporting a finished import's count.
pub fn import_success_reply(count: u64) -> (r: String)
    ensures
        r@ == import_reply(count),
{
    let mut s: String = "Sucessfully imported ".to_owned();
    s.append(decimal_string(count).as_str());
    s.append(" messages (excluding duplicates)");
    s
}

/// The reply reporting a structural parse failure of an archive.
pub open spec fn parse_failure_text(err: Seq<char>) -> Seq<char> {
    "Failed to parse your import, sorry :(\nError: "@ + err
}

/// Builds the reply for an archive that did not parse; the structural error
/// description is passed through to the invoker.
pub fn parse_failure_reply(error_text: &str) -> (r: String)
    ensures
        r@ == parse_failure_text(error_text@),
{
    let mut s: String = "Failed to parse your import, sorry :(\nError: ".to_owned();
    s.append(error_text);
    s
}

} // verus!

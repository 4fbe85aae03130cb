//! The laws of the gatekeeper, proved over the store model and the decision
//! table: first sight is unique, channels are independent, overrides win
//! over organic traffic, and an import counts exactly the distinct new
//! fingerprints.

use crate::engine::{
    spec_assess, spec_dedup_action, Content, DedupAction, Event, ReplyTarget, SpecAssessment,
};
use crate::fingerprint::fingerprint_of;
use crate::import::{import_count, import_map, ImportMessage};
use crate::store::{
    allow_map, forbid_map, marker_of, record_map, record_outcome, Marker, Recorded,
};
use vstd::prelude::*;

verus! {

/// A pair is new exactly once: recording (channel, text) in a store that
/// does not hold its fingerprint reports `New`; recording the same pair
/// again reports a repeat of a seen entry and leaves the store as it is,
/// however often it is repeated.
pub proof fn lemma_first_record_new_then_repeat(
    m: Map<Seq<u8>, Seq<u8>>,
    channel_id: i64,
    text: Seq<char>,
)
    ensures
        ({
            let fp = fingerprint_of(channel_id, text);
            let m1 = record_map(m, fp);
            !m.contains_key(fp) ==> record_outcome(m, fp) == Recorded::New && record_outcome(
                m1,
                fp,
            ) == Recorded::RepeatSeen && record_map(m1, fp) == m1
        }),
{
}

/// Channels are independent: as long as the two fingerprints differ (the
/// hash makes a clash overwhelmingly unlikely, but nothing here rules it
/// out), recording a text under one channel leaves the same text under the
/// other channel unseen.
pub proof fn lemma_channels_independent(
    m: Map<Seq<u8>, Seq<u8>>,
    first_channel: i64,
    second_channel: i64,
    text: Seq<char>,
)
    ensures
        ({
            let fp1 = fingerprint_of(first_channel, text);
            let fp2 = fingerprint_of(second_channel, text);
            (fp1 != fp2 && marker_of(m, fp2) == Marker::Unseen) ==> marker_of(
                record_map(m, fp1),
                fp2,
            ) == Marker::Unseen
        }),
{
}

/// An allowed text is never deleted: after an allow override, organic
/// traffic with the same text is reported as a repeat of an allowed entry,
/// the engine keeps the message standing, and the store does not change.
pub proof fn lemma_allowed_is_never_deleted(
    m: Map<Seq<u8>, Seq<u8>>,
    channel_id: i64,
    text: Seq<char>,
)
    ensures
        ({
            let fp = fingerprint_of(channel_id, text);
            let m1 = allow_map(m, fp);
            record_outcome(m1, fp) == Recorded::RepeatAllowed && spec_dedup_action(
                record_outcome(m1, fp),
            ) == DedupAction::Keep && record_map(m1, fp) == m1
        }),
{
}

/// A forbidden text is deleted on first live occurrence: after a forbid
/// override, the first ordinary message with that text is a repeat of a
/// seen entry and the engine deletes it, even though the text was never
/// organically sent.
pub proof fn lemma_forbidden_is_deleted_on_first_sight(
    m: Map<Seq<u8>, Seq<u8>>,
    channel_id: i64,
    text: Seq<char>,
)
    ensures
        ({
            let fp = fingerprint_of(channel_id, text);
            let m1 = forbid_map(m, fp);
            record_outcome(m1, fp) == Recorded::RepeatSeen && spec_dedup_action(
                record_outcome(m1, fp),
            ) == DedupAction::Delete
        }),
{
}

/// A reply to non-text content is no override, whatever its own text says:
/// under the default configuration the engine sends it through normal
/// dedup as ordinary text.
pub proof fn lemma_non_text_reply_is_no_override(
    channel_id: i64,
    message_id: i64,
    sender: i64,
    chat_is_private: bool,
    text: String,
)
    ensures
        ({
            let e = (Event {
                channel_id,
                message_id,
                sender: Some(sender),
                chat_is_private,
                content: Content::Text { text, reply_target: Some(ReplyTarget::NonText) },
            });
            spec_assess(e, false) == (SpecAssessment::Dedup { text: text@ })
        }),
{
}

/// The store never deletes entries: every operation leaves every previously
/// recorded fingerprint recorded, whichever fingerprint it touches.
pub proof fn lemma_store_is_append_only(
    m: Map<Seq<u8>, Seq<u8>>,
    fp: Seq<u8>,
    other: Seq<u8>,
)
    ensures
        m.contains_key(other) ==> record_map(m, fp).contains_key(other),
        m.contains_key(other) ==> allow_map(m, fp).contains_key(other),
        m.contains_key(other) ==> forbid_map(m, fp).contains_key(other),
{
}

/// Ordinary traffic never downgrades an allowed entry: recording any
/// fingerprint leaves every allowed fingerprint allowed; only an explicit
/// forbid override can take that marker away.
pub proof fn lemma_traffic_never_downgrades_allowed(
    m: Map<Seq<u8>, Seq<u8>>,
    fp: Seq<u8>,
    other: Seq<u8>,
)
    ensures
        marker_of(m, other) == Marker::Allowed ==> marker_of(record_map(m, fp), other)
            == Marker::Allowed,
{
}

/// The fingerprints of the message-typed records of an archive, under one
/// channel.
pub open spec fn message_fingerprints(channel_id: i64, msgs: Seq<ImportMessage>) -> Set<Seq<u8>>
    decreases msgs.len(),
{
    if msgs.len() == 0 {
        Set::<Seq<u8>>::empty()
    } else {
        let rest = message_fingerprints(channel_id, msgs.drop_last());
        if msgs.last().is_message() {
            rest.insert(fingerprint_of(channel_id, msgs.last().text.spec_text()))
        } else {
            rest
        }
    }
}

/// After an import, the store holds exactly what it held before plus the
/// fingerprints of the archive's message-typed records.
pub proof fn lemma_import_map_dom(m: Map<Seq<u8>, Seq<u8>>, channel_id: i64, msgs: Seq<ImportMessage>)
    ensures
        import_map(m, channel_id, msgs).dom() =~= m.dom().union(
            message_fingerprints(channel_id, msgs),
        ),
    decreases msgs.len(),
{
    if msgs.len() == 0 {
    } else {
        lemma_import_map_dom(m, channel_id, msgs.drop_last());
    }
}

/// What an import counts: exactly the distinct fingerprints of the
/// archive's message-typed records that the store did not hold before the
/// import began.  Repeats inside the archive and texts seen before count
/// nothing; the import takes no moderation action at all.
pub proof fn lemma_import_counts_new_distinct(
    m: Map<Seq<u8>, Seq<u8>>,
    channel_id: i64,
    msgs: Seq<ImportMessage>,
)
    ensures
        message_fingerprints(channel_id, msgs).finite(),
        import_count(m, channel_id, msgs) == message_fingerprints(channel_id, msgs).difference(
            m.dom(),
        ).len(),
    decreases msgs.len(),
{
    let d = m.dom();
    if msgs.len() == 0 {
        assert(message_fingerprints(channel_id, msgs).difference(d) =~= Set::<Seq<u8>>::empty());
    } else {
        let rest = msgs.drop_last();
        lemma_import_counts_new_distinct(m, channel_id, rest);
        lemma_import_map_dom(m, channel_id, rest);
        let sp = message_fingerprints(channel_id, rest);
        vstd::set::axiom_set_difference_finite(sp, d);
        if msgs.last().is_message() {
            let fp = fingerprint_of(channel_id, msgs.last().text.spec_text());
            let prev_map = import_map(m, channel_id, rest);
            if record_outcome(prev_map, fp) == Recorded::New {
                assert(!prev_map.contains_key(fp));
                assert(!d.contains(fp) && !sp.contains(fp));
                assert(sp.insert(fp).difference(d) =~= sp.difference(d).insert(fp));
                assert(!sp.difference(d).contains(fp));
            } else {
                assert(prev_map.contains_key(fp));
                assert(sp.insert(fp).difference(d) =~= sp.difference(d));
            }
        }
    }
}

} // verus!

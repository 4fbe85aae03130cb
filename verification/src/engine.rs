//! The decision engine: what to do with one inbound message, before any
//! transport side effect, and the store-touching steps that follow.

use crate::fingerprint::fingerprint_of;
use crate::store::{
    allow_map, forbid_map, record_map, record_outcome, Recorded, Store, StoreError,
};
use crate::text::{trim_text, trimmed_of};
use vstd::prelude::*;

verus! {

/// What a reply points back at: the replied-to message's plain text, or
/// content that is not plain text.
pub enum ReplyTarget {
    Text(String),
    NonText,
}

/// The content of an inbound message, reduced to what the engine reads.
pub enum Content {
    Text { text: String, reply_target: Option<ReplyTarget> },
    Document { declared_size: u32, caption: Option<String> },
    Unsupported,
}

/// An inbound message event as the transport hands it over.
pub struct Event {
    pub channel_id: i64,
    pub message_id: i64,
    pub sender: Option<i64>,
    pub chat_is_private: bool,
    pub content: Content,
}

/// What the engine decided to do with an event, stated over the characters
/// of the texts involved.
pub enum SpecAssessment {
    Ignore,
    Dedup { text: Seq<char> },
    Override { allow: bool, target_text: Seq<char> },
    Import { declared_size: u32 },
}

/// What the engine decided to do with an event, before any authorization
/// check or store access.
pub enum Assessment {
    /// Nothing to do: no sender to attribute the message to, unsupported
    /// media, a caption that is no command, or an exempted reply.
    Ignore,
    /// Ordinary text: run it through the duplicate store.
    Dedup { text: String },
    /// An admin override of the replied-to text; needs authorization.
    Override { allow: bool, target_text: String },
    /// An admin bulk import of the attached archive; needs authorization.
    Import { declared_size: u32 },
}

/// The characters-level reading of an assessment.
pub open spec fn assessment_view(a: Assessment) -> SpecAssessment {
    match a {
        Assessment::Ignore => SpecAssessment::Ignore,
        Assessment::Dedup { text } => SpecAssessment::Dedup { text: text@ },
        Assessment::Override { allow, target_text } => SpecAssessment::Override {
            allow,
            target_text: target_text@,
        },
        Assessment::Import { declared_size } => SpecAssessment::Import { declared_size },
    }
}

/// The decision table of the engine.
///
/// A message without a sender is ignored entirely.  A text that replies to a
/// plain-text message and whose own text, trimmed, is exactly `/allow` or
/// `/forbid` is an override of the replied-to text.  Any other reply is
/// exempt from dedup when the configuration says so, and ordinary text
/// otherwise; a reply to non-text content is never an override, whatever its
/// own text says.  A document whose caption, trimmed, is exactly `/import`
/// is a bulk import; any other document, and any other media, is ignored.
pub open spec fn spec_assess(e: Event, exempt_replies: bool) -> SpecAssessment {
    if e.sender is None {
        SpecAssessment::Ignore
    } else {
        match e.content {
            Content::Text { text, reply_target } => match reply_target {
                Some(ReplyTarget::Text(target)) => {
                    if trimmed_of(text@) == "/allow"@ {
                        SpecAssessment::Override { allow: true, target_text: target@ }
                    } else if trimmed_of(text@) == "/forbid"@ {
                        SpecAssessment::Override { allow: false, target_text: target@ }
                    } else if exempt_replies {
                        SpecAssessment::Ignore
                    } else {
                        SpecAssessment::Dedup { text: text@ }
                    }
                },
                Some(ReplyTarget::NonText) => {
                    if exempt_replies {
                        SpecAssessment::Ignore
                    } else {
                        SpecAssessment::Dedup { text: text@ }
                    }
                },
                None => SpecAssessment::Dedup { text: text@ },
            },
            Content::Document { declared_size, caption } => match caption {
                Some(c) => if trimmed_of(c@) == "/import"@ {
                    SpecAssessment::Import { declared_size }
                } else {
                    SpecAssessment::Ignore
                },
                None => SpecAssessment::Ignore,
            },
            Content::Unsupported => SpecAssessment::Ignore,
        }
    }
}

/// Decides what to do with one inbound event; no store access and no side
/// effect happens here.
pub fn assess(e: &Event, exempt_replies: bool) -> (a: Assessment)
    ensures
        assessment_view(a) == spec_assess(*e, exempt_replies),
{
    match &e.sender {
        None => Assessment::Ignore,
        Some(_) => match &e.content {
            Content::Text { text, reply_target } => match reply_target {
                Some(ReplyTarget::Text(target)) => {
                    let trimmed = trim_text(text.as_str());
                    let allow_command: String = "/allow".to_owned();
                    let forbid_command: String = "/forbid".to_owned();
                    if trimmed == allow_command {
                        Assessment::Override { allow: true, target_text: target.clone() }
                    } else if trimmed == forbid_command {
                        Assessment::Override { allow: false, target_text: target.clone() }
                    } else if exempt_replies {
                        Assessment::Ignore
                    } else {
                        Assessment::Dedup { text: text.clone() }
                    }
                },
                Some(ReplyTarget::NonText) => {
                    if exempt_replies {
                        Assessment::Ignore
                    } else {
                        Assessment::Dedup { text: text.clone() }
                    }
                },
                None => Assessment::Dedup { text: text.clone() },
            },
            Content::Document { declared_size, caption } => match caption {
                Some(c) => {
                    let trimmed = trim_text(c.as_str());
                    let import_command: String = "/import".to_owned();
                    if trimmed == import_command {
                        Assessment::Import { declared_size: *declared_size }
                    } else {
                        Assessment::Ignore
                    }
                },
                None => Assessment::Ignore,
            },
            Content::Unsupported => Assessment::Ignore,
        },
    }
}

/// Whether the acting user may run admin-only operations here: a private
/// one-to-one channel always authorizes; in a multi-member channel the
/// transport's capability lookup decides.
pub fn is_privileged(chat_is_private: bool, can_delete_messages: bool) -> (r: bool)
    ensures
        r == (chat_is_private || can_delete_messages),
{
    chat_is_private || can_delete_messages
}

/// Whether deciding authorization needs the transport's membership lookup:
/// only a multi-member channel does.
pub fn needs_capability_lookup(chat_is_private: bool) -> (r: bool)
    ensures
        r == !chat_is_private,
{
    !chat_is_private
}

/// The short reply sent to an unauthorized attempt at an admin command.
pub fn rejection_reply() -> (r: String)
    ensures
        r@ == "Nice try"@,
{
    "Nice try".to_owned()
}

/// The moderation action the engine takes on ordinary text: leave it
/// standing, or delete it.
#[derive(Clone, Copy, Debug, PartialEq, Eq, Structural)]
pub enum DedupAction {
    Keep,
    Delete,
}

/// Which record outcome leads to deletion: only a repeat of a seen entry; a
/// first occurrence and a repeat of an allowed entry both stand.
pub open spec fn spec_dedup_action(rec: Recorded) -> DedupAction {
    match rec {
        Recorded::RepeatSeen => DedupAction::Delete,
        Recorded::New => DedupAction::Keep,
        Recorded::RepeatAllowed => DedupAction::Keep,
    }
}

/// Runs ordinary text through the duplicate store: records it if new, and
/// says whether the live message must be deleted.  Exactly the repeats of
/// seen text are deleted; new text and explicitly allowed text stand.
pub fn handle_dedup(store: &mut Store, channel_id: i64, text: &str) -> (r: Result<
    DedupAction,
    StoreError,
>)
    ensures
        match r {
            Ok(act) => final(store)@ == record_map(old(store)@, fingerprint_of(channel_id, text@))
                && act == spec_dedup_action(
                record_outcome(old(store)@, fingerprint_of(channel_id, text@)),
            ),
            Err(_) => true,
        },
{
    match store.record_if_new(channel_id, text) {
        Ok(rec) => match rec {
            Recorded::RepeatSeen => Ok(DedupAction::Delete),
            Recorded::New => Ok(DedupAction::Keep),
            Recorded::RepeatAllowed => Ok(DedupAction::Keep),
        },
        Err(e) => Err(e),
    }
}

/// The outcome of an attempted override.
#[derive(Clone, Copy, Debug, PartialEq, Eq, Structural)]
pub enum OverrideOutcome {
    /// The override was applied to the store.
    Applied,
    /// The actor was not authorized: nothing changed, and the rejection
    /// reply is owed.
    Rejected,
}

/// Applies an admin override to the replied-to text if the actor is
/// authorized.  An unauthorized attempt changes nothing and is rejected; an
/// authorized one marks the fingerprint allowed or seen as asked.
pub fn handle_override(
    store: &mut Store,
    authorized: bool,
    allow: bool,
    channel_id: i64,
    target_text: &str,
) -> (r: Result<OverrideOutcome, StoreError>)
    ensures
        !authorized ==> r is Ok && r->Ok_0 == OverrideOutcome::Rejected && final(store)@
            == old(store)@,
        authorized ==> match r {
            Ok(o) => o == OverrideOutcome::Applied && final(store)@ == (if allow {
                allow_map(old(store)@, fingerprint_of(channel_id, target_text@))
            } else {
                forbid_map(old(store)@, fingerprint_of(channel_id, target_text@))
            }),
            Err(_) => true,
        },
{
    if !authorized {
        Ok(OverrideOutcome::Rejected)
    } else if allow {
        match store.set_allowed(channel_id, target_text) {
            Ok(_) => Ok(OverrideOutcome::Applied),
            Err(e) => Err(e),
        }
    } else {
        match store.set_forbidden(channel_id, target_text) {
            Ok(_) => Ok(OverrideOutcome::Applied),
            Err(e) => Err(e),
        }
    }
}

} // verus!

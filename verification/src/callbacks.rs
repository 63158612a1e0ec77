//! Parsing of interactive callback data: the prefixed directives a button
//! press delivers — engine and response-mode selection, conversation
//! switching, and approval resolution.  Anything unrecognized is ignored.

use vstd::prelude::*;

use crate::text::{has_prefix, parse_u64, spec_has_prefix, spec_parse_u64};

verus! {

/// What a callback directive asks for.
pub enum CallbackAction {
    /// Select a speech-synthesis engine for the user.
    SetTts { engine: String },
    /// Select a response mode for the user.
    SetMode { mode: String },
    /// Switch the user's active conversation; the identifier stays opaque.
    OpenConversation { conversation: String },
    /// Approve the approval request with this id.
    Approve { id: u64 },
    /// Deny the approval request with this id.
    Deny { id: u64 },
    /// No recognized directive; nothing happens.
    Ignored,
}

/// Parse callback data into the action it asks for.  Each directive is its
/// prefix followed by its payload; an approval directive whose id is not a
/// valid number is ignored, as is anything without a known prefix.
pub fn parse_callback(data: &str) -> (r: CallbackAction)
    ensures
        ({
            let d = data@;
            match r {
                CallbackAction::SetTts { engine } => spec_has_prefix(d, "set_tts:"@) && engine@
                    == d.skip(8),
                CallbackAction::SetMode { mode } => spec_has_prefix(d, "set_mode:"@) && mode@
                    == d.skip(9),
                CallbackAction::OpenConversation { conversation } => spec_has_prefix(d, "conv:"@)
                    && conversation@ == d.skip(5),
                CallbackAction::Approve { id } => spec_has_prefix(d, "approve:"@) && spec_parse_u64(
                    d.skip(8),
                ) == Some(id),
                CallbackAction::Deny { id } => spec_has_prefix(d, "deny:"@) && spec_parse_u64(
                    d.skip(5),
                ) == Some(id),
                CallbackAction::Ignored => {
                    &&& !spec_has_prefix(d, "set_tts:"@)
                    &&& !spec_has_prefix(d, "set_mode:"@)
                    &&& !spec_has_prefix(d, "conv:"@)
                    &&& (spec_has_prefix(d, "approve:"@) ==> spec_parse_u64(d.skip(8)) is None)
                    &&& (spec_has_prefix(d, "deny:"@) ==> spec_parse_u64(d.skip(5)) is None)
                },
            }
        }),
{
    proof {
        reveal_strlit("set_tts:");
        reveal_strlit("set_mode:");
        reveal_strlit("conv:");
        reveal_strlit("approve:");
        reveal_strlit("deny:");
    }
    let len = data.unicode_len();
    if has_prefix(data, "set_tts:") {
        let payload = data.substring_char(8, len);
        proof {
            assert(payload@ =~= data@.skip(8));
        }
        return CallbackAction::SetTts { engine: payload.to_owned() };
    }
    if has_prefix(data, "set_mode:") {
        let payload = data.substring_char(9, len);
        proof {
            assert(payload@ =~= data@.skip(9));
        }
        return CallbackAction::SetMode { mode: payload.to_owned() };
    }
    if has_prefix(data, "conv:") {
        let payload = data.substring_char(5, len);
        proof {
            assert(payload@ =~= data@.skip(5));
        }
        return CallbackAction::OpenConversation { conversation: payload.to_owned() };
    }
    if has_prefix(data, "approve:") {
        let payload = data.substring_char(8, len);
        proof {
            assert(payload@ =~= data@.skip(8));
            assert(data@.take(8)[0] == data@[0]);
            if spec_has_prefix(data@, "deny:"@) {
                assert(data@.take(5)[0] == data@[0]);
            }
        }
        return match parse_u64(payload) {
            Some(id) => CallbackAction::Approve { id },
            None => CallbackAction::Ignored,
        };
    }
    if has_prefix(data, "deny:") {
        let payload = data.substring_char(5, len);
        proof {
            assert(payload@ =~= data@.skip(5));
        }
        return match parse_u64(payload) {
            Some(id) => CallbackAction::Deny { id },
            None => CallbackAction::Ignored,
        };
    }
    CallbackAction::Ignored
}

} // verus!

//! The callback correlator: validates the payload received when an inline
//! keyboard button is pressed, and decides the reply and whether the
//! callback query is acknowledged.
//!
//! The check is structural only: a payload splits on the delimiter into
//! exactly a choice and an identifier, but nothing remembers which
//! identifiers were issued, so no referential check is possible.

use vstd::prelude::*;
use vstd::string::*;
use crate::text::{count_char, join_with, lemma_split_join, lemma_split_len,
    lemma_split_parts_no_delim, split_at_char, split_str, views_of};

verus! {

/// The fixed reply for a payload without the two-part shape.
pub open spec fn invalid_callback_text() -> Seq<char> {
    "<b>Error:</b> Invalid callback. This callback is not working and possibly won't work either."@
}

/// A well-formed payload holds exactly one delimiter, so it splits into
/// exactly two parts.
pub open spec fn wellformed_payload(s: Seq<char>) -> bool {
    count_char(s, crate::DELIMITER) == 1
}

/// What the correlator decides for one received payload: the reply to send
/// back, and whether to acknowledge the callback query.
pub struct CallbackDecision {
    pub reply: String,
    pub acknowledge: bool,
}

/// Splits a payload into its choice and identifier halves, exactly when it
/// has the two-part shape; the two halves joined by the delimiter restore
/// the payload.
pub fn split_payload(payload: &str) -> (r: Option<(String, String)>)
    ensures
        match r {
            Some(p) => wellformed_payload(payload@) && p.0@ + seq![crate::DELIMITER] + p.1@
                == payload@ && count_char(p.0@, crate::DELIMITER) == 0 && count_char(
                p.1@,
                crate::DELIMITER,
            ) == 0,
            None => !wellformed_payload(payload@),
        },
{
    let mut parts = split_str(payload, crate::DELIMITER);
    proof {
        lemma_split_len(payload@, crate::DELIMITER);
        assert(views_of(parts@).len() == parts@.len());
    }
    if parts.len() == 2 {
        let ghost sp = split_at_char(payload@, crate::DELIMITER);
        let id_half = parts.pop().unwrap();
        let choice_half = parts.pop().unwrap();
        proof {
            assert(choice_half@ == sp[0]);
            assert(id_half@ == sp[1]);
            lemma_split_parts_no_delim(payload@, crate::DELIMITER);
            lemma_split_join(payload@, crate::DELIMITER);
            assert(join_with(sp, crate::DELIMITER) == sp[0] + seq![crate::DELIMITER] + join_with(
                sp.skip(1),
                crate::DELIMITER,
            ));
            assert(sp.skip(1).len() == 1);
            assert(sp.skip(1)[0] == sp[1]);
            assert(join_with(sp.skip(1), crate::DELIMITER) == sp.skip(1)[0]);
        }
        Some((choice_half, id_half))
    } else {
        None
    }
}

/// Validates one received callback payload: a well-formed payload is
/// echoed verbatim and the callback is acknowledged; anything else gets
/// the fixed invalid-callback reply and no acknowledgement.
pub fn handle_callback(payload: &str) -> (r: CallbackDecision)
    ensures
        wellformed_payload(payload@) ==> r.reply@ == payload@ && r.acknowledge,
        !wellformed_payload(payload@) ==> r.reply@ == invalid_callback_text() && !r.acknowledge,
{
    let split = split_payload(payload);
    match split {
        Some(_) => CallbackDecision { reply: String::from_str(payload), acknowledge: true },
        None => CallbackDecision {
            reply: String::from_str(
                "<b>Error:</b> Invalid callback. This callback is not working and possibly won't work either.",
            ),
            acknowledge: false,
        },
    }
}

} // verus!

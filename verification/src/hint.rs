//! Hint streaming: one LLM completion becomes an incremental sequence of
//! delta events, one per whitespace-delimited token, closed by exactly one
//! empty `done` delta that shares the same hint id.
use vstd::prelude::*;

use crate::models::HintDeltaEvent;
use crate::text::{push_char, split_ws, tokens_of};

verus! {

/// The event source tag every hint delta carries.
pub open spec fn hint_source() -> Seq<char> {
    "llm"@
}

/// Turns hint text into its full delta sequence: for each token one
/// non-done delta carrying the token plus a trailing space, then exactly
/// one final delta with empty payload and `done == true`, all sharing
/// `hint_id`. The caller paces their delivery.
pub fn hint_deltas(hint_id: &String, session_id: &String, hint: &str) -> (r: Vec<HintDeltaEvent>)
    ensures
        r@.len() == tokens_of(hint@).len() + 1,
        forall|i: int|
            0 <= i < tokens_of(hint@).len() ==> {
                let e = #[trigger] r@[i];
                &&& e.id@ == hint_id@
                &&& e.session_id@ == session_id@
                &&& e.delta@ == tokens_of(hint@)[i].push(' ')
                &&& !e.done
                &&& e.source@ == hint_source()
            },
        r@.last().id@ == hint_id@,
        r@.last().session_id@ == session_id@,
        r@.last().delta@ == Seq::<char>::empty(),
        r@.last().done,
        r@.last().source@ == hint_source(),
{
    let tokens = split_ws(hint);
    let mut out: Vec<HintDeltaEvent> = Vec::new();
    let mut i: usize = 0;
    while i < tokens.len()
        invariant
            tokens.deep_view() == tokens_of(hint@),
            i <= tokens@.len(),
            out@.len() == i,
            forall|j: int|
                0 <= j < i ==> {
                    let e = #[trigger] out@[j];
                    &&& e.id@ == hint_id@
                    &&& e.session_id@ == session_id@
                    &&& e.delta@ == tokens_of(hint@)[j].push(' ')
                    &&& !e.done
                    &&& e.source@ == hint_source()
                },
        decreases tokens@.len() - i,
    {
        let mut delta = tokens[i].clone();
        push_char(&mut delta, ' ');
        proof {
            assert(tokens.deep_view()[i as int] == tokens@[i as int]@);
        }
        out.push(
            HintDeltaEvent {
                id: hint_id.clone(),
                session_id: session_id.clone(),
                delta,
                done: false,
                source: String::from_str("llm"),
            },
        );
        i += 1;
    }
    proof {
        assert(tokens@.len() == tokens.deep_view().len());
    }
    out.push(
        HintDeltaEvent {
            id: hint_id.clone(),
            session_id: session_id.clone(),
            delta: String::new(),
            done: true,
            source: String::from_str("llm"),
        },
    );
    out
}

} // verus!

//! The JSON wire encoding of state-update messages.
//!
//! One message type goes over the realtime endpoint:
//! `{"message_type":<tag>,"current_state":{"num_slides":<n|null>,
//! "deleted_slides":<list|null>}}`.  The spec functions here define that
//! text exactly; the encoder is proved to produce it.

use vstd::prelude::*;
use crate::message::ServerMessage;
use crate::text::{append_decimal, spec_decimal};

verus! {

/// Characters that go into a JSON string unescaped.  Every message tag the
/// protocol defines is made of these.
pub open spec fn json_safe(s: Seq<char>) -> bool {
    forall|i: int| 0 <= i < s.len() ==> s[i] != '"' && s[i] != '\\'
}

/// The encoding of an optional count: its decimal digits, or `null`.
pub open spec fn spec_json_opt_count(o: Option<u16>) -> Seq<char> {
    match o {
        Option::None => ("null")@,
        Option::Some(n) => spec_decimal(n as nat),
    }
}

/// The comma-separated items of a JSON list of numbers.
pub open spec fn spec_json_items(s: Seq<u16>) -> Seq<char>
    decreases s.len(),
{
    if s.len() == 0 {
        Seq::<char>::empty()
    } else if s.len() == 1 {
        spec_decimal(s[0] as nat)
    } else {
        spec_json_items(s.drop_last()) + (",")@ + spec_decimal(s.last() as nat)
    }
}

/// A JSON list of numbers.
pub open spec fn spec_json_list(s: Seq<u16>) -> Seq<char> {
    ("[")@ + spec_json_items(s) + ("]")@
}

/// The encoding of an optional list: a JSON list, or `null`.
pub open spec fn spec_json_opt_list(o: Option<Seq<u16>>) -> Seq<char> {
    match o {
        Option::None => ("null")@,
        Option::Some(s) => spec_json_list(s),
    }
}

/// The full wire text of a message with tag `tag` and the two payload
/// fields.
pub open spec fn spec_message_json(tag: Seq<char>, num: Option<u16>, del: Option<Seq<u16>>) -> Seq<
    char,
> {
    ("{\"message_type\":\"")@ + tag + ("\",\"current_state\":{\"num_slides\":")@
        + spec_json_opt_count(num) + (",\"deleted_slides\":")@ + spec_json_opt_list(del) + ("}}")@
}

impl ServerMessage {
    /// The wire text of this message.
    pub open spec fn json(self) -> Seq<char> {
        spec_message_json(self.message_type@, self.current_state.num_slides, self.deleted_view())
    }
}

/// Extending a list by one item extends its encoded items by a comma (past
/// the first item) and the new item's digits.
proof fn lemma_json_items_step(v: Seq<u16>, i: int)
    requires
        0 <= i < v.len(),
    ensures
        i == 0 ==> spec_json_items(v.take(1)) == spec_decimal(v[0] as nat),
        i > 0 ==> spec_json_items(v.take(i + 1)) == spec_json_items(v.take(i)) + (",")@
            + spec_decimal(v[i] as nat),
{
    let t = v.take(i + 1);
    if i == 0 {
        assert(t.len() == 1);
        assert(t[0] == v[0]);
    } else {
        assert(t.drop_last() =~= v.take(i));
        assert(t.last() == v[i]);
    }
}

/// Append the JSON list of `items` to `s`.
pub fn append_json_list(s: &mut String, items: &Vec<u16>)
    ensures
        final(s)@ == old(s)@ + spec_json_list(items@),
{
    s.append("[");
    let mut i: usize = 0;
    while i < items.len()
        invariant
            i <= items.len(),
            s@ == old(s)@ + ("[")@ + spec_json_items(items@.take(i as int)),
        decreases items.len() - i,
    {
        if i > 0 {
            s.append(",");
        }
        append_decimal(s, items[i] as u64);
        proof {
            lemma_json_items_step(items@, i as int);
            if i == 0 {
                assert(spec_json_items(items@.take(0)) =~= Seq::<char>::empty());
                assert(old(s)@ + ("[")@ + spec_json_items(items@.take(0)) + spec_decimal(
                    items@[0] as nat,
                ) =~= old(s)@ + ("[")@ + spec_json_items(items@.take(1)));
            } else {
                assert(old(s)@ + ("[")@ + spec_json_items(items@.take(i as int)) + (",")@
                    + spec_decimal(items@[i as int] as nat) =~= old(s)@ + ("[")@ + spec_json_items(
                    items@.take(i + 1),
                ));
            }
        }
        i = i + 1;
    }
    s.append("]");
    proof {
        assert(items@.take(items@.len() as int) =~= items@);
        assert(old(s)@ + ("[")@ + spec_json_items(items@) + ("]")@ =~= old(s)@ + spec_json_list(
            items@,
        ));
    }
}

/// Encode a message as its exact wire text.
pub fn encode_message(m: &ServerMessage) -> (r: String)
    requires
        json_safe(m.message_type@),
    ensures
        r@ == m.json(),
{
    let mut s = String::from_str("{\"message_type\":\"");
    s.append(m.message_type.as_str());
    s.append("\",\"current_state\":{\"num_slides\":");
    match m.current_state.num_slides {
        Option::None => {
            s.append("null");
        },
        Option::Some(n) => {
            append_decimal(&mut s, n as u64);
        },
    }
    s.append(",\"deleted_slides\":");
    match &m.current_state.deleted_slides {
        Option::None => {
            s.append("null");
        },
        Option::Some(v) => {
            append_json_list(&mut s, v);
        },
    }
    s.append("}}");
    proof {
        assert(s@ =~= m.json());
    }
    s
}

} // verus!

//! Decoding of the packed 32-bit bus-location identifier into its dotted
//! human-readable form.
//!
//! The identifier packs, from the most significant end, the root-port
//! number (the top eight bits) and then one four-bit group per hub level.
//! The rendering is `<root>-<first hub nibble>`, followed by `.<nibble>`
//! for each further hub nibble up to but not including the first all-zero
//! nibble.  The rendering is one-directional: nothing re-encodes it.

use vstd::prelude::*;

use crate::text::dec_of;
use crate::text::dec_str;

verus! {

/// The `i`-th four-bit hub group of a packed location identifier, counted
/// from the most significant group below the root-port byte.  There are six
/// such groups in a 32-bit identifier.
pub open spec fn hub_nibble(id: u32, i: int) -> u32 {
    if i == 0 {
        (id / 0x100000) % 16
    } else if i == 1 {
        (id / 0x10000) % 16
    } else if i == 2 {
        (id / 0x1000) % 16
    } else if i == 3 {
        (id / 0x100) % 16
    } else if i == 4 {
        (id / 0x10) % 16
    } else {
        id % 16
    }
}

/// The dotted continuation of the rendering from hub group `i` on: empty at
/// the first all-zero group, else a dot, the group in decimal, and the rest.
pub open spec fn location_tail(id: u32, i: int) -> Seq<char>
    decreases 6 - i,
{
    if i < 0 || i >= 6 || hub_nibble(id, i) == 0 {
        Seq::<char>::empty()
    } else {
        seq!['.'] + dec_of(hub_nibble(id, i) as nat) + location_tail(id, i + 1)
    }
}

/// The full dotted rendering of a packed location identifier: the root-port
/// number, a dash, the first hub group, and the dotted continuation.
pub open spec fn location_string_of(id: u32) -> Seq<char> {
    dec_of((id / 0x1000000) as nat) + seq!['-'] + dec_of(hub_nibble(id, 0) as nat)
        + location_tail(id, 1)
}

/// The `i`-th four-bit hub group of `id`, executable form.
fn hub_nibble_at(id: u32, i: u32) -> (r: u32)
    requires
        i < 6,
    ensures
        r == hub_nibble(id, i as int),
        r < 16,
{
    match i {
        0 => (id / 0x100000) % 16,
        1 => (id / 0x10000) % 16,
        2 => (id / 0x1000) % 16,
        3 => (id / 0x100) % 16,
        4 => (id / 0x10) % 16,
        _ => id % 16,
    }
}

/// Decodes a packed location identifier into its dotted rendering.  The
/// value is always renderable, so the result is always present; an
/// identifier with no hub groups set decodes to `<root>-0`.
pub fn location_to_string(location_id: u32) -> (r: Option<String>)
    ensures
        r matches Some(s) && s@ == location_string_of(location_id),
{
    let mut s = dec_str(location_id / 0x1000000);
    s.append("-");
    let first = hub_nibble_at(location_id, 0);
    let first_str = dec_str(first);
    s.append(first_str.as_str());
    proof {
        reveal_strlit("-");
        assert("-"@ =~= seq!['-']);
        assert(s@ =~= dec_of((location_id / 0x1000000) as nat) + seq!['-'] + dec_of(
            hub_nibble(location_id, 0) as nat,
        ));
    }
    let mut i: u32 = 1;
    while i < 6
        invariant
            1 <= i <= 6,
            location_string_of(location_id) == s@ + location_tail(location_id, i as int),
        ensures
            location_string_of(location_id) == s@ + location_tail(location_id, i as int),
            i >= 6 || hub_nibble(location_id, i as int) == 0,
        decreases 6 - i,
    {
        let nib = hub_nibble_at(location_id, i);
        if nib == 0 {
            break;
        }
        s.append(".");
        let nib_str = dec_str(nib);
        s.append(nib_str.as_str());
        proof {
            reveal_strlit(".");
            assert("."@ =~= seq!['.']);
            assert(location_tail(location_id, i as int) == seq!['.'] + dec_of(
                hub_nibble(location_id, i as int) as nat,
            ) + location_tail(location_id, i as int + 1));
            assert(location_string_of(location_id) =~= s@ + location_tail(
                location_id,
                i as int + 1,
            ));
        }
        i += 1;
    }
    proof {
        assert(location_tail(location_id, i as int) =~= Seq::<char>::empty());
        assert(s@ =~= location_string_of(location_id));
    }
    Some(s)
}

/// Decoding is deterministic: two renderings of the same packed location
/// identifier are the same text, on this call and on every repeated call.
pub proof fn lemma_location_decode_deterministic(id: u32, a: Seq<char>, b: Seq<char>)
    requires
        a == location_string_of(id),
        b == location_string_of(id),
    ensures
        a == b,
{
}

} // verus!

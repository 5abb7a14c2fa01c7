//! What the client does with the packets of the other players.

use vstd::prelude::*;

verus! {

/// Something that happened at one player's table.
#[derive(Debug, Clone, PartialEq, Eq)]
pub enum Event {
    ChatMessage(String),
}

/// The unit that players send each other.
#[derive(Debug, Clone, PartialEq, Eq)]
pub struct EventPacket {
    pub event: Event,
}

/// The packets that decoded, in the order they came.
pub open spec fn decoded_packets(s: Seq<Option<EventPacket>>) -> Seq<EventPacket>
    decreases s.len(),
{
    if s.len() == 0 {
        Seq::empty()
    } else {
        match s[0] {
            Some(p) => seq![p] + decoded_packets(s.drop_first()),
            None => decoded_packets(s.drop_first()),
        }
    }
}

/// The text of a chat message event.
pub open spec fn event_text(e: Event) -> Seq<char> {
    match e {
        Event::ChatMessage(m) => m@,
    }
}

/// The room is usable once at least one other player is connected.
pub fn room_is_ok(connected_peers: usize) -> (ok: bool)
    ensures
        ok == (connected_peers > 0),
{
    connected_peers > 0
}

/// Keeps the packets that decoded, in order, and drops the others.
pub fn receive(decoded: Vec<Option<EventPacket>>) -> (packets: Vec<EventPacket>)
    ensures
        packets@ == decoded_packets(decoded@),
{
    let ghost all = decoded@;
    let mut packets: Vec<EventPacket> = Vec::new();
    let mut rest = decoded;
    proof {
        assert(packets@ + decoded_packets(rest@) =~= decoded_packets(all));
    }
    while rest.len() > 0
        invariant
            packets@ + decoded_packets(rest@) == decoded_packets(all),
        decreases rest.len(),
    {
        let ghost before = rest@;
        let item = rest.remove(0);
        proof {
            assert(rest@ =~= before.drop_first());
        }
        match item {
            Some(packet) => {
                let ghost p = packet;
                packets.push(packet);
                proof {
                    assert(packets@ + decoded_packets(rest@) =~= (packets@.drop_last())
                        + (seq![p] + decoded_packets(rest@)));
                }
            },
            None => {},
        }
    }
    proof {
        assert(packets@ + decoded_packets(rest@) =~= packets@);
    }
    packets
}

/// The chat messages carried by the packets, in order.
pub fn chat_messages(packets: Vec<EventPacket>) -> (messages: Vec<String>)
    ensures
        messages.len() == packets.len(),
        forall|i: int| 0 <= i < packets.len() ==> #[trigger] messages[i]@ == event_text(
            packets[i].event,
        ),
        forall|i: int|
            0 <= i < packets.len() ==> (packets[i].event matches Event::ChatMessage(m)
                && #[trigger] messages[i]@ == m@),
{
    let ghost all = packets@;
    let mut messages: Vec<String> = Vec::new();
    let mut rest = packets;
    while rest.len() > 0
        invariant
            messages.len() + rest.len() == all.len(),
            rest@ == all.subrange(messages.len() as int, all.len() as int),
            forall|i: int| 0 <= i < messages.len() ==> #[trigger] messages[i]@ == event_text(
                all[i].event,
            ),
        decreases rest.len(),
    {
        let packet = rest.remove(0);
        proof {
            assert(packet == all[messages.len() as int]);
            assert(rest@ =~= all.subrange(messages.len() + 1, all.len() as int));
        }
        match packet.event {
            Event::ChatMessage(message) => {
                messages.push(message);
            },
        }
    }
    messages
}

/// The text of a chat message is the whole string it carries.
pub proof fn event_text_is_whole_message(m: String)
    ensures
        event_text(Event::ChatMessage(m)) == m@,
{
}

/// Keeping the decoded packets of two runs of packets one after the other
/// gives the decoded packets of the first, then those of the second.
pub proof fn decoded_packets_of_concatenation(s: Seq<Option<EventPacket>>, t: Seq<Option<EventPacket>>)
    ensures
        decoded_packets(s + t) == decoded_packets(s) + decoded_packets(t),
    decreases s.len(),
{
    if s.len() == 0 {
        assert(s + t =~= t);
        assert(decoded_packets(s) + decoded_packets(t) =~= decoded_packets(t));
    } else {
        assert((s + t).drop_first() =~= s.drop_first() + t);
        decoded_packets_of_concatenation(s.drop_first(), t);
        match s[0] {
            Some(p) => {
                assert(decoded_packets(s + t) == seq![p] + decoded_packets(s.drop_first() + t));
                assert(seq![p] + (decoded_packets(s.drop_first()) + decoded_packets(t)) =~= (seq![p]
                    + decoded_packets(s.drop_first())) + decoded_packets(t));
            },
            None => {},
        }
    }
}

/// A packet that decoded is kept, and one that did not is dropped.
pub proof fn decoded_packets_of_one(p: EventPacket)
    ensures
        decoded_packets(seq![Some(p)]) == seq![p],
        decoded_packets(seq![None::<EventPacket>]).len() == 0,
        decoded_packets(Seq::<Option<EventPacket>>::empty()).len() == 0,
{
    let none = Seq::<Option<EventPacket>>::empty();
    assert(decoded_packets(none) =~= Seq::<EventPacket>::empty());
    assert(seq![Some(p)].drop_first() =~= none);
    assert(seq![None::<EventPacket>].drop_first() =~= none);
    assert(seq![Some(p)][0] == Some(p));
    assert(seq![None::<EventPacket>][0] == None::<EventPacket>);
    assert(decoded_packets(seq![Some(p)]) == seq![p] + decoded_packets(none));
    assert(seq![p] + Seq::<EventPacket>::empty() =~= seq![p]);
}

/// Every packet that decoded is kept and nothing else: the result holds as
/// many packets as the input holds decoded ones, and the k-th of them.
pub proof fn decoded_packets_keeps_every_decoded(s: Seq<Option<EventPacket>>, i: int)
    requires
        0 <= i < s.len(),
        s[i] is Some,
    ensures
        decoded_packets(s).len() == decoded_packets(s.take(i)).len() + 1 + decoded_packets(
            s.skip(i + 1),
        ).len(),
        decoded_packets(s)[decoded_packets(s.take(i)).len() as int] == s[i]->0,
{
    assert(s =~= s.take(i) + (seq![s[i]] + s.skip(i + 1)));
    decoded_packets_of_concatenation(s.take(i), seq![s[i]] + s.skip(i + 1));
    decoded_packets_of_concatenation(seq![s[i]], s.skip(i + 1));
    decoded_packets_of_one(s[i]->0);
}

} // verus!

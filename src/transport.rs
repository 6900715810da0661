use vstd::prelude::*;

use crate::dispatch::callback_for;
use crate::events::{key_for_code, Event, KeyboardEvent};
use crate::modifiers::mods_of;
use crate::translate::{translate, translation, Action, NativeEvent};

verus! {

/// The queue contents after `e` is offered to a queue holding `q`:
/// `Event::Nothing` is dropped at the boundary, anything else joins the back.
pub open spec fn offered(q: Seq<Event>, e: Event) -> Seq<Event> {
    if e is Nothing {
        q
    } else {
        q.push(e)
    }
}

/// The events that one poll cycle over the notifications `ns` forwards, in
/// the order the notifications came.
pub open spec fn forwarded(ns: Seq<NativeEvent>) -> Seq<Event>
    decreases ns.len(),
{
    if ns.len() == 0 {
        Seq::empty()
    } else {
        offered(forwarded(ns.drop_last()), translation(ns.last()))
    }
}

/// Whether no element of `q` is `Event::Nothing`.
pub open spec fn all_meaningful(q: Seq<Event>) -> bool {
    forall|i: int| 0 <= i < q.len() ==> !(#[trigger] q[i] is Nothing)
}

/// A first-in first-out queue of events that never holds `Event::Nothing`.
pub struct EventQueue {
    items: Vec<Event>,
}

impl View for EventQueue {
    type V = Seq<Event>;

    closed spec fn view(&self) -> Seq<Event> {
        self.items@
    }
}

impl EventQueue {
    /// Every queue that this type's operations build is well formed.
    pub open spec fn wf(&self) -> bool {
        all_meaningful(self@)
    }

    pub fn new() -> (r: EventQueue)
        ensures
            r@ == Seq::<Event>::empty(),
            r.wf(),
    {
        EventQueue { items: Vec::new() }
    }

    pub fn len(&self) -> (r: usize)
        ensures
            r == self@.len(),
    {
        self.items.len()
    }

    pub fn is_empty(&self) -> (r: bool)
        ensures
            r == (self@.len() == 0),
    {
        self.items.len() == 0
    }

    /// Offers `e` to the queue: it joins the back unless it is
    /// `Event::Nothing`, which is dropped.
    pub fn push(&mut self, e: Event)
        requires
            old(self).wf(),
        ensures
            final(self).wf(),
            final(self)@ == offered(old(self)@, e),
    {
        match e {
            Event::Nothing => {},
            _ => {
                self.items.push(e);
            },
        }
    }

    /// Takes the event at the front, or `None` when the queue is empty.
    pub fn pop(&mut self) -> (r: Option<Event>)
        requires
            old(self).wf(),
        ensures
            final(self).wf(),
            old(self)@.len() == 0 ==> r is None && final(self)@ == old(self)@,
            old(self)@.len() > 0 ==> r == Some(old(self)@[0]) && final(self)@ == old(
                self,
            )@.subrange(1, old(self)@.len() as int),
            r matches Some(e) ==> !(e is Nothing),
    {
        if self.items.len() == 0 {
            None
        } else {
            let e = self.items.remove(0);
            proof {
                assert(self.items@ =~= old(self).items@.subrange(1, old(self).items@.len() as int));
            }
            Some(e)
        }
    }

    /// Translates one poll cycle's notifications, in order, and offers each
    /// result to the queue.
    pub fn push_all(&mut self, ns: &Vec<NativeEvent>)
        requires
            old(self).wf(),
        ensures
            final(self).wf(),
            final(self)@ == old(self)@ + forwarded(ns@),
    {
        let mut i: usize = 0;
        while i < ns.len()
            invariant
                i <= ns@.len(),
                self.wf(),
                self@ == old(self)@ + forwarded(ns@.subrange(0, i as int)),
            decreases ns@.len() - i,
        {
            let e = translate(ns[i]);
            proof {
                let pre = ns@.subrange(0, i as int);
                let next = ns@.subrange(0, i + 1);
                assert(next.drop_last() =~= pre);
                assert(forwarded(next) == offered(forwarded(pre), e));
                if !(e is Nothing) {
                    assert((old(self)@ + forwarded(pre)).push(e) =~= old(self)@ + forwarded(
                        pre,
                    ).push(e));
                }
            }
            self.push(e);
            i = i + 1;
        }
        proof {
            assert(ns@.subrange(0, ns@.len() as int) =~= ns@);
        }
    }
}

/// Whether `idx` places each element of `out` on a notification of `ns` that
/// translates to it, with positions strictly increasing, and reaches every
/// notification whose translation is not `Event::Nothing`.
pub open spec fn is_order_embedding(out: Seq<Event>, ns: Seq<NativeEvent>, idx: Seq<int>) -> bool {
    &&& idx.len() == out.len()
    &&& forall|i: int|
        0 <= i < idx.len() ==> 0 <= #[trigger] idx[i] < ns.len() && out[i] == translation(
            ns[idx[i]],
        )
    &&& forall|i: int, j: int| 0 <= i < j < idx.len() ==> idx[i] < idx[j]
    &&& forall|j: int|
        0 <= j < ns.len() && !(#[trigger] translation(ns[j]) is Nothing) ==> exists|i: int|
            0 <= i < idx.len() && idx[i] == j
}

/// The positions in `ns` of the notifications whose events are forwarded.
pub open spec fn forwarded_positions(ns: Seq<NativeEvent>) -> Seq<int>
    decreases ns.len(),
{
    if ns.len() == 0 {
        Seq::empty()
    } else if translation(ns.last()) is Nothing {
        forwarded_positions(ns.drop_last())
    } else {
        forwarded_positions(ns.drop_last()).push(ns.len() - 1)
    }
}

proof fn lemma_positions_embed(ns: Seq<NativeEvent>)
    ensures
        is_order_embedding(forwarded(ns), ns, forwarded_positions(ns)),
    decreases ns.len(),
{
    if ns.len() > 0 {
        let p = ns.drop_last();
        lemma_positions_embed(p);
        let out = forwarded(ns);
        let idx = forwarded_positions(ns);
        let idx0 = forwarded_positions(p);
        assert forall|k: int| 0 <= k < p.len() implies p[k] == ns[k] by {}
        assert forall|j: int|
            0 <= j < ns.len() && !(#[trigger] translation(ns[j]) is Nothing) implies exists|i: int|
            0 <= i < idx.len() && idx[i] == j by {
            if j < p.len() {
                assert(translation(p[j]) == translation(ns[j]));
                let i = choose|i: int| 0 <= i < idx0.len() && idx0[i] == j;
                assert(idx[i] == j);
            } else {
                assert(idx[idx.len() - 1] == j);
            }
        }
    }
}

/// Order preservation: the events that one poll cycle forwards are the
/// translations of its notifications, in the order the notifications came,
/// leaving out exactly those that translate to `Event::Nothing`.
pub proof fn lemma_forwarding_preserves_order(ns: Seq<NativeEvent>)
    ensures
        exists|idx: Seq<int>| is_order_embedding(forwarded(ns), ns, idx),
{
    lemma_positions_embed(ns);
}

/// `Event::Nothing` never reaches a callback: no poll cycle forwards it, and
/// no callback handles it.
pub proof fn lemma_nothing_never_delivered(ns: Seq<NativeEvent>)
    ensures
        all_meaningful(forwarded(ns)),
        callback_for(Event::Nothing) is None,
    decreases ns.len(),
{
    if ns.len() > 0 {
        lemma_nothing_never_delivered(ns.drop_last());
    }
}

/// A press of the key with native code `code` followed by `k` auto-repeat
/// notifications of it, all with the modifier mask `mask`.
pub open spec fn press_then_repeats(code: i32, mask: i32, k: nat) -> Seq<NativeEvent> {
    Seq::new(
        k + 1,
        |i: int|
            if i == 0 {
                NativeEvent::Key(code, Action::Press, mask)
            } else {
                NativeEvent::Key(code, Action::Repeat, mask)
            },
    )
}

/// Repeat semantics: a press followed by `k` auto-repeats of the same key
/// forwards one press with repeat indicator 0, then `k` presses with repeat
/// indicator 1 (the indicator says "this is a repeat", it does not count).
pub proof fn lemma_repeat_indicator(code: i32, mask: i32, k: nat)
    ensures
        forwarded(press_then_repeats(code, mask, k)) == seq![
            Event::Keyboard(KeyboardEvent::Press(key_for_code(code), mods_of(mask), 0)),
        ] + Seq::new(
            k,
            |i: int| Event::Keyboard(KeyboardEvent::Press(key_for_code(code), mods_of(mask), 1)),
        ),
    decreases k,
{
    let ns = press_then_repeats(code, mask, k);
    let press = Event::Keyboard(KeyboardEvent::Press(key_for_code(code), mods_of(mask), 0));
    let repeat = Event::Keyboard(KeyboardEvent::Press(key_for_code(code), mods_of(mask), 1));
    if k == 0 {
        assert(ns.drop_last() =~= Seq::<NativeEvent>::empty());
        assert(forwarded(ns.drop_last()) == Seq::<Event>::empty());
        assert(ns.last() == NativeEvent::Key(code, Action::Press, mask));
        assert(translation(ns.last()) == press);
        assert(forwarded(ns) =~= seq![press] + Seq::new(0, |i: int| repeat));
    } else {
        let k0 = (k - 1) as nat;
        lemma_repeat_indicator(code, mask, k0);
        assert(ns.drop_last() =~= press_then_repeats(code, mask, k0));
        assert(ns.last() == NativeEvent::Key(code, Action::Repeat, mask));
        assert(forwarded(ns) =~= seq![press] + Seq::new(k, |i: int| repeat));
    }
}

} // verus!

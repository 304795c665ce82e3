use vstd::prelude::*;
use vstd::arithmetic::div_mod::{
    lemma_add_mod_noop_right, lemma_mod_self_0, lemma_small_mod,
};
use vstd::seq_lib::lemma_multiset_commutative;

use std::collections::VecDeque;

use super::app::{AppKind, AppSlot};
use crate::pixel_display::pixel_display::{same_shape, PixelDisplay};

verus! {

/// A discrete user-input event, produced by the input debouncer and
/// consumed by the launcher and the active app.
#[derive(Clone, Copy, Debug, PartialEq, Eq, Structural)]
pub enum Input {
    Next,
    Prev,
    Pressed,
    Held,
}

/// One forward rotation step of a sequence: the head moves to the
/// tail and everything else shifts up one place.
pub open spec fn rot1<T>(s: Seq<T>) -> Seq<T> {
    s.subrange(1, s.len() as int).push(s[0])
}

/// One backward rotation step: the tail moves to the head.
pub open spec fn rot_back<T>(s: Seq<T>) -> Seq<T> {
    seq![s[s.len() - 1]] + s.subrange(0, s.len() - 1)
}

/// `n` forward rotation steps.
pub open spec fn rot_n<T>(s: Seq<T>, n: nat) -> Seq<T>
    decreases n,
{
    if n == 0 {
        s
    } else {
        rot1(rot_n(s, (n - 1) as nat))
    }
}

/// What one rotation step does: every element moves up one place,
/// modulo the length, and the collection of elements is unchanged.
pub proof fn lemma_rot1_props<T>(s: Seq<T>)
    requires
        s.len() >= 1,
    ensures
        rot1(s).len() == s.len(),
        forall|i: int| 0 <= i < s.len() ==> rot1(s)[i] == s[(i + 1) % (s.len() as int)],
        rot1(s).to_multiset() == s.to_multiset(),
{
    let n = s.len() as int;
    assert forall|i: int| 0 <= i < n implies rot1(s)[i] == s[(i + 1) % n] by {
        if i < n - 1 {
            lemma_small_mod((i + 1) as nat, n as nat);
        } else {
            lemma_mod_self_0(n);
        }
    }
    let head = s.subrange(0, 1);
    let rest = s.subrange(1, n);
    assert(s =~= head + rest);
    lemma_multiset_commutative(head, rest);
    assert(rot1(s) =~= rest + head);
    lemma_multiset_commutative(rest, head);
    assert(head.to_multiset().add(rest.to_multiset()) =~= rest.to_multiset().add(
        head.to_multiset(),
    ));
}

/// Rotation closure: after `n` rotation steps the element at any
/// position `i` is the one that started at position `(i + n)`
/// modulo the length — in particular the head is the element that
/// started at position `n` modulo the length — and the collection
/// of elements is unchanged.
pub proof fn lemma_rotation_closure<T>(s: Seq<T>, n: nat)
    requires
        s.len() >= 1,
    ensures
        rot_n(s, n).len() == s.len(),
        forall|i: int| 0 <= i < s.len() ==> rot_n(s, n)[i] == s[(i + n) % (s.len() as int)],
        rot_n(s, n).to_multiset() == s.to_multiset(),
    decreases n,
{
    let len = s.len() as int;
    if n == 0 {
        assert forall|i: int| 0 <= i < len implies rot_n(s, n)[i] == s[(i + n) % len] by {
            lemma_small_mod(i as nat, len as nat);
        }
    } else {
        let prev = rot_n(s, (n - 1) as nat);
        lemma_rotation_closure(s, (n - 1) as nat);
        lemma_rot1_props(prev);
        assert forall|i: int| 0 <= i < len implies rot_n(s, n)[i] == s[(i + n) % len] by {
            assert(rot_n(s, n)[i] == prev[(i + 1) % len]);
            assert(prev[(i + 1) % len] == s[((i + 1) % len + (n - 1)) % len]);
            lemma_add_mod_noop_right(n - 1, i + 1, len);
            assert(((n - 1) + (i + 1) % len) % len == ((n - 1) + (i + 1)) % len);
        }
    }
}

/// The lifecycle bookkeeping one rotation step performs, from the
/// rotation's old slots to its new ones: the old head sits at the
/// tail with exactly one more deactivation, the new head — the old
/// second slot, or the old head itself when it is alone — has
/// exactly one more activation, and every slot in between moved up
/// one place untouched. No other lifecycle call happened.
pub open spec fn rotated_lifecycle<'a>(before: Seq<AppSlot<'a>>, after: Seq<AppSlot<'a>>) -> bool {
    let n = before.len() as int;
    &&& after.len() == n
    &&& (n == 1 ==> after[0].enable_count@ == before[0].enable_count@ + 1 && after[0].disable_count@
        == before[0].disable_count@ + 1)
    &&& (n > 1 ==> after[0].enable_count@ == before[1].enable_count@ + 1 && after[0].disable_count@
        == before[1].disable_count@ && after[n - 1].enable_count@ == before[0].enable_count@
        && after[n - 1].disable_count@ == before[0].disable_count@ + 1 && (forall|i: int|
        1 <= i < n - 1 ==> after[i] == before[i + 1]))
}

/// What a dispatch that does not rotate leaves alone: every slot's
/// lifecycle record — no activation or deactivation anywhere — and
/// every slot but the head entirely.
pub open spec fn lifecycle_untouched<'a>(before: Seq<AppSlot<'a>>, after: Seq<AppSlot<'a>>) -> bool {
    &&& after.len() == before.len()
    &&& (forall|i: int|
        0 <= i < before.len() ==> (#[trigger] after[i]).enabled == before[i].enabled
            && after[i].enable_count == before[i].enable_count
            && after[i].disable_count == before[i].disable_count)
    &&& after == before.update(0, after[0])
}

/// The launcher: an ordered rotation of at least one app, of which
/// exactly the head is active. A `Held` event rotates; every other
/// event is forwarded to the active app; drawing always renders
/// the active app.
pub struct Launcher<'a> {
    pub apps: VecDeque<AppSlot<'a>>,
}

impl<'a> Launcher<'a> {
    /// The identity tags of the rotation, in order.
    pub open spec fn ids(&self) -> Seq<int> {
        self.apps@.map(|i: int, a: AppSlot<'a>| a.tag@)
    }

    /// The app kinds of the rotation, in order.
    pub open spec fn kinds(&self) -> Seq<AppKind> {
        self.apps@.map(|i: int, a: AppSlot<'a>| a.kind_spec())
    }

    /// The launcher's invariant: the rotation is never empty, every
    /// app is well formed, exactly the head is enabled, the head
    /// has seen one more activation than deactivations, and every
    /// other app has seen exactly as many.
    pub open spec fn inv(&self) -> bool {
        &&& self.apps@.len() >= 1
        &&& (forall|i: int| 0 <= i < self.apps@.len() ==> (#[trigger] self.apps@[i]).wf())
        &&& self.apps@[0].enabled@
        &&& self.apps@[0].enable_count@ == self.apps@[0].disable_count@ + 1
        &&& (forall|i: int| 1 <= i < self.apps@.len() ==> !(#[trigger] self.apps@[i]).enabled@)
        &&& (forall|i: int|
            1 <= i < self.apps@.len() ==> (#[trigger] self.apps@[i]).enable_count@
                == self.apps@[i].disable_count@)
    }

    /// Builds the launcher over the registered apps, none of which
    /// has seen a lifecycle call yet, numbers them in registration
    /// order, and activates the first: the one explicit `enable`
    /// at construction.
    pub fn new(apps: VecDeque<AppSlot<'a>>) -> (r: Launcher<'a>)
        requires
            apps@.len() >= 1,
            forall|i: int| 0 <= i < apps@.len() ==> (#[trigger] apps@[i]).wf(),
            forall|i: int| 0 <= i < apps@.len() ==> !(#[trigger] apps@[i]).enabled@,
            forall|i: int|
                0 <= i < apps@.len() ==> (#[trigger] apps@[i]).enable_count@
                    == apps@[i].disable_count@,
        ensures
            r.inv(),
            r.apps@.len() == apps@.len(),
            r.ids() == Seq::new(apps@.len(), |i: int| i),
            r.kinds() == apps@.map(|i: int, a: AppSlot<'a>| a.kind_spec()),
            // Exactly one activation happened, on the first app.
            r.apps@[0].enabled@,
            r.apps@[0].enable_count@ == apps@[0].enable_count@ + 1,
            r.apps@[0].disable_count@ == apps@[0].disable_count@,
            // No other app received any lifecycle call.
            forall|i: int|
                1 <= i < apps@.len() ==> (#[trigger] r.apps@[i]).enable_count
                    == apps@[i].enable_count && r.apps@[i].disable_count
                    == apps@[i].disable_count && !r.apps@[i].enabled@
                    && r.apps@[i].app == apps@[i].app,
    {
        let ghost orig = apps@;
        let mut rest = apps;
        let mut tagged: VecDeque<AppSlot<'a>> = VecDeque::new();
        let mut i: usize = 0;
        #[verifier::loop_isolation(false)]
        while rest.len() > 0
            invariant
                i == tagged@.len(),
                i + rest@.len() == orig.len(),
                rest@ == orig.subrange(i as int, orig.len() as int),
                forall|k: int| 0 <= k < i ==> (#[trigger] tagged@[k]).tag@ == k,
                forall|k: int| 0 <= k < i ==> (#[trigger] tagged@[k]).wf(),
                forall|k: int| 0 <= k < i ==> !(#[trigger] tagged@[k]).enabled@,
                forall|k: int|
                    0 <= k < i ==> (#[trigger] tagged@[k]).enable_count
                        == orig[k].enable_count && tagged@[k].disable_count
                        == orig[k].disable_count,
                forall|k: int| 0 <= k < i ==> (#[trigger] tagged@[k]).app == orig[k].app,
                forall|k: int|
                    0 <= k < i ==> (#[trigger] tagged@[k]).kind_spec() == orig[k].kind_spec(),
            decreases rest@.len(),
        {
            let mut slot = rest.pop_front().unwrap();
            proof {
                assert(slot == orig[i as int]);
                assert(rest@ =~= orig.subrange(i as int + 1, orig.len() as int));
            }
            slot.tag = Ghost(i as int);
            tagged.push_back(slot);
            i = tagged.len();
        }
        let mut head = tagged.pop_front().unwrap();
        head.enable();
        tagged.push_front(head);
        let r = Launcher { apps: tagged };
        proof {
            assert(r.ids() =~= Seq::new(orig.len(), |i: int| i));
            assert(r.kinds() =~= orig.map(|i: int, a: AppSlot<'a>| a.kind_spec()));
        }
        r
    }

    /// How many apps are registered.
    pub fn len(&self) -> (r: usize)
        ensures
            r == self.apps@.len(),
    {
        self.apps.len()
    }

    /// Which kind of app is active.
    pub fn active_kind(&self) -> (r: AppKind)
        requires
            self.inv(),
        ensures
            r == self.kinds()[0],
    {
        self.apps[0].kind()
    }

    /// Renders the active app.
    pub fn draw(&mut self, display: &mut PixelDisplay)
        requires
            old(self).inv(),
        ensures
            final(self).inv(),
            same_shape(*old(display), *final(display)),
            final(self).ids() == old(self).ids(),
            final(self).kinds() == old(self).kinds(),
            // Only the head may have changed, and nobody's
            // lifecycle record did.
            lifecycle_untouched(old(self).apps@, final(self).apps@),
            // The active app did render: the frame's log grew.
            old(display).ops@.is_prefix_of(final(display).ops@),
            final(display).ops@.len() > old(display).ops@.len(),
    {
        let ghost s = self.apps@;
        let mut head = self.apps.pop_front().unwrap();
        head.draw(display);
        self.apps.push_front(head);
        proof {
            assert(self.apps@ =~= s.update(0, self.apps@[0]));
            assert(self.ids() =~= old(self).ids());
            assert(self.kinds() =~= old(self).kinds());
        }
    }

    /// Dispatches one input event: a `Held` rotates the apps — the
    /// sole path on which the active app changes — and every other
    /// event goes, unmodified, to the active app.
    pub fn handle_input(&mut self, input: Input)
        requires
            old(self).inv(),
        ensures
            final(self).inv(),
            final(self).apps@.len() == old(self).apps@.len(),
            (input == Input::Held ==> final(self).ids() == rot1(old(self).ids())
                && final(self).kinds() == rot1(old(self).kinds())),
            (input != Input::Held ==> final(self).ids() == old(self).ids() && final(self).kinds()
                == old(self).kinds()),
            // A Held performs exactly one deactivation (old head)
            // and one activation (new head); anything else performs
            // none, and touches no slot but the head.
            (input == Input::Held ==> rotated_lifecycle(old(self).apps@, final(self).apps@)),
            (input != Input::Held ==> lifecycle_untouched(old(self).apps@, final(self).apps@)),
    {
        match input {
            Input::Held => self.switch_app(),
            _ => {
                let ghost s = self.apps@;
                let mut head = self.apps.pop_front().unwrap();
                head.input(input);
                self.apps.push_front(head);
                proof {
                    assert(self.apps@ =~= s.update(0, self.apps@[0]));
                    assert(self.ids() =~= old(self).ids());
                    assert(self.kinds() =~= old(self).kinds());
                }
            },
        }
    }

    /// One rotation step: the head is deactivated and moved to the
    /// tail, and the new head is activated.
    fn switch_app(&mut self)
        requires
            old(self).inv(),
        ensures
            final(self).inv(),
            final(self).apps@.len() == old(self).apps@.len(),
            final(self).ids() == rot1(old(self).ids()),
            final(self).kinds() == rot1(old(self).kinds()),
            rotated_lifecycle(old(self).apps@, final(self).apps@),
    {
        let ghost s = self.apps@;
        let mut old_head = self.apps.pop_front().unwrap();
        old_head.disable();
        let ghost oh = old_head;
        self.apps.push_back(old_head);
        proof {
            assert(self.apps@ =~= s.subrange(1, s.len() as int) + seq![oh]);
        }
        let mut new_head = self.apps.pop_front().unwrap();
        proof {
            if s.len() > 1 {
                assert(new_head == s[1]);
            } else {
                assert(new_head == oh);
            }
        }
        new_head.enable();
        let ghost nh = new_head;
        self.apps.push_front(new_head);
        proof {
            assert(self.apps@[0] == nh);
            if s.len() > 1 {
                assert(self.apps@[s.len() - 1] == oh);
                assert(forall|i: int| 1 <= i < s.len() - 1 ==> self.apps@[i] == s[i + 1]);
            }
            assert(self.ids() =~= rot1(old(self).ids()));
            assert(self.kinds() =~= rot1(old(self).kinds()));
        }
    }
}

/// Lifecycle pairing: under the launcher's invariant, every app's
/// count of `enable` calls is within one of its count of `disable`
/// calls, and never below it — so no app is ever disabled before
/// it was enabled, and the two hooks strictly alternate.
pub proof fn lemma_lifecycle_pairing<'a>(l: &Launcher<'a>, i: int)
    requires
        l.inv(),
        0 <= i < l.apps@.len(),
    ensures
        l.apps@[i].disable_count@ <= l.apps@[i].enable_count@,
        l.apps@[i].enable_count@ <= l.apps@[i].disable_count@ + 1,
{
}

} // verus!

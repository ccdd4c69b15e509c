//! The shared device-status record.
//!
//! `Status` is the record that the event loop and both background loops read
//! and write (under one exclusive lock, owned by the embedding program).  It
//! carries the current and previous strip color, the wall-clock second of the
//! last mutation, and the subscription flag, together with the static
//! identity fields that only appear in the serialized report.
//!
//! Invariant kept by the mutators: `current_color` is always the most
//! recently accepted color (or the construction-time color), `last_color` is
//! always the value `current_color` held immediately before, and
//! `last_changed` moves on, and only on, a mutation of `current_color` or
//! `is_subscribed`.
//!
//! Each mutator comes in two forms: a pure one that takes the timestamp as an
//! argument and is specified exactly, and the clocked form matching the
//! device code, which reads the wall clock and propagates its failure.

use crate::clock::{wall_clock_seconds, ClockError};
use crate::led::RgbColor;
use vstd::prelude::*;

verus! {

/// The device-status record; see the module documentation.
#[derive(Clone, Copy)]
pub struct Status {
    pub client_name: &'static str,
    pub num_strip_leds: usize,
    pub change_color_topic: &'static str,
    pub last_changed: u64,
    pub current_color: RgbColor,
    pub last_color: RgbColor,
    pub is_subscribed: bool,
}

/// One mutation of the mutable part of a `Status`, paired with the clock
/// reading that stamps it.  Used to state properties of whole mutation
/// sequences.
pub enum StatusMutation {
    ApplyColor(RgbColor),
    SetSubscribed(bool),
}

impl Status {
    /// What `set_new_status_at` does: record `new_color`, keep the color it
    /// replaces in `last_color`, and stamp the mutation with `now`.
    pub open spec fn apply_color_spec(self, new_color: RgbColor, now: u64) -> Status {
        Status {
            last_changed: now,
            current_color: new_color,
            last_color: self.current_color,
            ..self
        }
    }

    /// What `set_is_subscribed_at` does: record the flag and stamp the
    /// mutation with `now`.
    pub open spec fn set_subscribed_spec(self, is_subscribed: bool, now: u64) -> Status {
        Status { last_changed: now, is_subscribed, ..self }
    }

    /// One step of a mutation sequence.
    pub open spec fn mutate_spec(self, m: StatusMutation, now: u64) -> Status {
        match m {
            StatusMutation::ApplyColor(c) => self.apply_color_spec(c, now),
            StatusMutation::SetSubscribed(b) => self.set_subscribed_spec(b, now),
        }
    }

    pub fn new(
        client_name: &'static str,
        num_strip_leds: usize,
        change_color_topic: &'static str,
    ) -> (s: Status)
        ensures
            s.client_name == client_name,
            s.num_strip_leds == num_strip_leds,
            s.change_color_topic == change_color_topic,
            s.last_changed == 0,
            s.current_color == ((0u8, 0u8, 0u8)),
            s.last_color == ((0u8, 0u8, 0u8)),
            s.is_subscribed == false,
    {
        Status {
            client_name,
            num_strip_leds,
            change_color_topic,
            last_changed: 0,
            current_color: (0, 0, 0),
            last_color: (0, 0, 0),
            is_subscribed: false,
        }
    }

    /// Accept a color: the replaced color moves to `last_color` and the
    /// mutation is stamped with the given wall-clock second.
    pub fn set_new_status_at(&mut self, new_color: RgbColor, now: u64)
        ensures
            *final(self) == old(self).apply_color_spec(new_color, now),
    {
        self.last_changed = now;
        self.last_color = self.current_color;
        self.current_color = new_color;
    }

    /// Record the subscription flag, stamped with the given wall-clock
    /// second.
    pub fn set_is_subscribed_at(&mut self, is_subscribed: bool, now: u64)
        ensures
            *final(self) == old(self).set_subscribed_spec(is_subscribed, now),
    {
        self.last_changed = now;
        self.is_subscribed = is_subscribed;
    }

    /// Stamp the record with the current wall clock.  The reading is not
    /// constrained, so only the shape of the change is pinned; a clock
    /// failure is propagated and leaves the record untouched.
    fn update_last_changed(&mut self) -> (r: Result<(), ClockError>)
        ensures
            r is Ok ==> *final(self) == (Status {
                last_changed: final(self).last_changed,
                ..*old(self)
            }),
            r is Err ==> *final(self) == *old(self),
    {
        match wall_clock_seconds() {
            Ok(now) => {
                self.last_changed = now;
                Ok(())
            },
            Err(e) => Err(e),
        }
    }

    /// Accept a color, stamping the mutation with the wall clock.  The clock
    /// reading is not constrained, so on success everything except the new
    /// timestamp value is pinned; a clock failure is propagated and leaves
    /// the record untouched.
    pub fn set_new_status(&mut self, new_color: RgbColor) -> (r: Result<(), ClockError>)
        ensures
            r is Ok ==> *final(self) == old(self).apply_color_spec(
                new_color,
                final(self).last_changed,
            ),
            r is Err ==> *final(self) == *old(self),
    {
        match self.update_last_changed() {
            Ok(()) => {
                self.last_color = self.current_color;
                self.current_color = new_color;
                Ok(())
            },
            Err(e) => Err(e),
        }
    }

    /// The serialized status report, ready to be enqueued on the broker.
    pub fn to_message(self) -> (r: Vec<u8>)
        ensures
            r@ == crate::codec::spec_status_json(self),
    {
        crate::codec::encode_status(&self)
    }

    /// Record the subscription flag, stamping the mutation with the wall
    /// clock; a clock failure is propagated and leaves the record untouched.
    pub fn set_is_subscribed(&mut self, is_subscribed: bool) -> (r: Result<(), ClockError>)
        ensures
            r is Ok ==> *final(self) == old(self).set_subscribed_spec(
                is_subscribed,
                final(self).last_changed,
            ),
            r is Err ==> *final(self) == *old(self),
    {
        match self.update_last_changed() {
            Ok(()) => {
                self.is_subscribed = is_subscribed;
                Ok(())
            },
            Err(e) => Err(e),
        }
    }
}

/// The status after a whole sequence of stamped mutations, first first.
pub open spec fn apply_mutations(s: Status, ms: Seq<(StatusMutation, u64)>) -> Status
    decreases ms.len(),
{
    if ms.len() == 0 {
        s
    } else {
        apply_mutations(s.mutate_spec(ms[0].0, ms[0].1), ms.drop_first())
    }
}

/// Peeling the last mutation off a sequence.
pub proof fn lemma_apply_mutations_push(s: Status, ms: Seq<(StatusMutation, u64)>, m: (StatusMutation, u64))
    ensures
        apply_mutations(s, ms.push(m)) == apply_mutations(s, ms).mutate_spec(m.0, m.1),
    decreases ms.len(),
{
    if ms.len() == 0 {
        assert(ms.push(m)[0] == m);
        assert(ms.push(m).drop_first() =~= ms);
        assert(apply_mutations(s.mutate_spec(m.0, m.1), ms) == s.mutate_spec(m.0, m.1));
    } else {
        assert(ms.push(m)[0] == ms[0]);
        assert(ms.push(m).drop_first() =~= ms.drop_first().push(m));
        lemma_apply_mutations_push(s.mutate_spec(ms[0].0, ms[0].1), ms.drop_first(), m);
        assert(apply_mutations(s, ms.push(m)) == apply_mutations(
            s.mutate_spec(ms[0].0, ms[0].1),
            ms.drop_first().push(m),
        ));
    }
}

/// After `k` mutations, `last_changed` is the stamp of the `k`-th mutation
/// (or the initial stamp when `k == 0`).
pub proof fn lemma_last_changed_after(s: Status, ms: Seq<(StatusMutation, u64)>, k: int)
    requires
        0 <= k <= ms.len(),
    ensures
        apply_mutations(s, ms.take(k)).last_changed == if k == 0 {
            s.last_changed
        } else {
            ms[k - 1].1
        },
    decreases k,
{
    if k > 0 {
        lemma_last_changed_after(s, ms, k - 1);
        assert(ms.take(k) =~= ms.take(k - 1).push(ms[k - 1]));
        lemma_apply_mutations_push(s, ms.take(k - 1), ms[k - 1]);
    }
}

/// A clock source is monotonic over a mutation sequence when each stamp is at
/// least the previous one, and the first is at least the initial stamp.
pub open spec fn stamps_monotonic(s: Status, ms: Seq<(StatusMutation, u64)>) -> bool {
    &&& ms.len() > 0 ==> ms[0].1 >= s.last_changed
    &&& forall|i: int| 0 < i < ms.len() ==> (#[trigger] ms[i]).1 >= ms[i - 1].1
}

/// `last_changed` is monotonically non-decreasing across any sequence of
/// status mutations, assuming a monotonic clock source: after any two
/// prefixes of the sequence, the longer prefix never shows an earlier
/// `last_changed` than the shorter one.
pub proof fn lemma_last_changed_monotonic(
    s: Status,
    ms: Seq<(StatusMutation, u64)>,
    j: int,
    k: int,
)
    requires
        stamps_monotonic(s, ms),
        0 <= j <= k <= ms.len(),
    ensures
        apply_mutations(s, ms.take(j)).last_changed <= apply_mutations(s, ms.take(k)).last_changed,
    decreases k - j,
{
    if j < k {
        lemma_last_changed_monotonic(s, ms, j, k - 1);
        lemma_last_changed_after(s, ms, k - 1);
        lemma_last_changed_after(s, ms, k);
    }
}

/// The status after a whole sequence of stamped color commands, first first.
pub open spec fn apply_colors(s: Status, cmds: Seq<(RgbColor, u64)>) -> Status
    decreases cmds.len(),
{
    if cmds.len() == 0 {
        s
    } else {
        apply_colors(s.apply_color_spec(cmds[0].0, cmds[0].1), cmds.drop_first())
    }
}

/// Peeling the last command off a sequence.
pub proof fn lemma_apply_colors_push(s: Status, cmds: Seq<(RgbColor, u64)>, c: (RgbColor, u64))
    ensures
        apply_colors(s, cmds.push(c)) == apply_colors(s, cmds).apply_color_spec(c.0, c.1),
    decreases cmds.len(),
{
    if cmds.len() == 0 {
        assert(cmds.push(c)[0] == c);
        assert(cmds.push(c).drop_first() =~= cmds);
        assert(apply_colors(s.apply_color_spec(c.0, c.1), cmds) == s.apply_color_spec(c.0, c.1));
    } else {
        assert(cmds.push(c)[0] == cmds[0]);
        assert(cmds.push(c).drop_first() =~= cmds.drop_first().push(c));
        lemma_apply_colors_push(s.apply_color_spec(cmds[0].0, cmds[0].1), cmds.drop_first(), c);
        assert(apply_colors(s, cmds.push(c)) == apply_colors(
            s.apply_color_spec(cmds[0].0, cmds[0].1),
            cmds.drop_first().push(c),
        ));
    }
}

/// For any sequence of accepted color commands, the previous color after
/// command `k` equals the current color after command `k - 1`; for `k == 1`
/// that is the current color of the starting status, i.e. the initial color.
pub proof fn lemma_previous_color_tracks_current(
    s: Status,
    cmds: Seq<(RgbColor, u64)>,
    k: int,
)
    requires
        1 <= k <= cmds.len(),
    ensures
        apply_colors(s, cmds.take(k)).last_color == apply_colors(
            s,
            cmds.take(k - 1),
        ).current_color,
{
    assert(cmds.take(k) =~= cmds.take(k - 1).push(cmds[k - 1]));
    lemma_apply_colors_push(s, cmds.take(k - 1), cmds[k - 1]);
}

} // verus!

//! The connection-lifecycle state machine.
//!
//! `MessageController` reacts to the broker's lifecycle and data events: it
//! starts and stops the two background loops in lockstep with the connection
//! state, reflects the state on the indicator LED, and applies incoming
//! color commands to the shared status and the strip.
//!
//! The controller itself performs no I/O.  Each event handler returns the
//! list of [`Action`] values the embedding program must perform, in order;
//! the two background loops are modelled as functions over the sequence of
//! values they would observe, one entry per iteration (each iteration of the
//! real loop is one lock-protected critical section).  The embedding program
//! owns the threads, the locks, the sleeps, and the broker client, and hands
//! the outcomes back in as plain values.
//!
//! On a color command the shared status is updated before the strip action
//! is handed out, so a concurrent status publish always reflects a color at
//! least as new as what is about to be displayed, never older.
//!
//! Two consecutive `Connected` events without an intervening `Disconnected`
//! are deduplicated: the second one is ignored, so no overlapping pair of
//! background loops is ever spawned for one connection (idempotent-connect
//! policy).
//!
//! Cancellation is cooperative: each loop checks the stop signal at the top
//! of an iteration and never mid-sleep, so cancellation latency is bounded
//! by one full sleep or backoff interval.  That trade-off is accepted; the
//! loops always finish their current critical section cleanly.

use crate::clock::{wall_clock_seconds, ClockError};
use crate::codec::{decode_color_command, spec_decode_color, spec_status_json};
use crate::led::{IndicatorLedConfig, Led, RgbColor};
use crate::status::Status;
use vstd::prelude::*;

verus! {

/// One event from the broker connection's event source.
pub enum MqttEvent {
    /// The broker connection came up.
    Connected,
    /// The broker connection went down.
    Disconnected,
    /// A message arrived; the topic is absent for fragmented deliveries.
    Received { id: u32, topic: Option<String>, payload: Vec<u8> },
    /// The transport reported an error; treated like a disconnect.
    Error,
    /// Any other event; informational only.
    Other,
}

/// The controller's connection state.  Subscription progress is tracked
/// separately, by the status record's `is_subscribed` flag.
#[derive(Clone, Copy, PartialEq, Eq, Structural, Debug)]
pub enum ConnectionState {
    Disconnected,
    Connected,
}

/// An effect the embedding program must perform, in list order.
#[derive(Clone, Copy, PartialEq, Eq, Debug)]
pub enum Action {
    /// Show this color on the indicator LED.
    SetIndicator(RgbColor),
    /// Show this color on the LED strip.
    SetStrip(RgbColor),
    /// Start one publish-loop task for this connection.
    SpawnPublishLoop,
    /// Start one subscribe-loop task for this connection.
    SpawnSubscribeLoop,
}

/// Delivery guarantee requested for a broker operation.
#[derive(Clone, Copy, PartialEq, Eq, Structural, Debug)]
pub enum QosLevel {
    AtMostOnce,
    AtLeastOnce,
    ExactlyOnce,
}

/// One `enqueue` call the publish loop asks the broker client to perform.
pub struct EnqueueRequest {
    pub topic: &'static str,
    pub qos: QosLevel,
    pub retain: bool,
    pub payload: Vec<u8>,
}

/// What one iteration of the real publish loop observes: the stop signal,
/// the status snapshot read under the lock, and whether the broker accepted
/// the enqueue.
#[derive(Clone, Copy)]
pub struct PublishTick {
    pub stop: bool,
    pub status: Status,
    pub enqueue_ok: bool,
}

/// Why the publish loop ended.
#[derive(Clone, Copy, PartialEq, Eq, Structural, Debug)]
pub enum PublishOutcome {
    /// The cancellation signal was observed; not an error.
    Stopped,
    /// An enqueue failed; the loop surfaces it and relies on the next
    /// `Connected` event for a restart.
    Failed,
    /// The observation sequence ended with the loop still running.
    Pending,
}

/// What one iteration of the real subscribe loop observes: the stop signal,
/// whether the subscribe call succeeded, and the wall clock at the success.
#[derive(Clone, Copy)]
pub struct SubscribeTick {
    pub stop: bool,
    pub subscribe_ok: bool,
    pub now: u64,
}

/// Why the subscribe loop ended.
#[derive(Clone, Copy, PartialEq, Eq, Structural, Debug)]
pub enum SubscribeOutcome {
    /// The cancellation signal was observed; not an error.
    Cancelled,
    /// The subscribe handshake succeeded and the status records it.
    Subscribed,
    /// The observation sequence ended with the loop still retrying.
    Pending,
}

/// The connection-lifecycle controller; see the module documentation.
pub struct MessageController {
    pub status: Status,
    pub publish_status_interval_s: u32,
    pub publish_topic: &'static str,
    pub subscribe_topic: &'static str,
    pub indicator_led: Led,
    pub led_strip: Led,
    pub indicator_led_config: IndicatorLedConfig,
    pub stop_signal: bool,
    pub connection_state: ConnectionState,
}

/// Whether the event is a message for some topic other than the command
/// topic (or for no topic at all).
pub open spec fn received_for_other_topic(pre: MessageController, event: MqttEvent) -> bool {
    match event {
        MqttEvent::Received { id, topic, payload } => match topic {
            Option::Some(t) => t@ != pre.subscribe_topic@,
            Option::None => true,
        },
        _ => false,
    }
}

/// Whether the event is a message for the command topic whose payload is not
/// in the command grammar.
pub open spec fn received_malformed(pre: MessageController, event: MqttEvent) -> bool {
    match event {
        MqttEvent::Received { id, topic, payload } => match topic {
            Option::Some(t) => t@ == pre.subscribe_topic@ && spec_decode_color(payload@) is None,
            Option::None => false,
        },
        _ => false,
    }
}

/// Whether the event is a command-topic message carrying the color `c`.
pub open spec fn received_command(pre: MessageController, event: MqttEvent, c: RgbColor) -> bool {
    match event {
        MqttEvent::Received { id, topic, payload } => match topic {
            Option::Some(t) => t@ == pre.subscribe_topic@ && spec_decode_color(payload@) == Some(
                c,
            ),
            Option::None => false,
        },
        _ => false,
    }
}

/// One transition of the state machine: the controller after the event, and
/// the actions handed out for it, stamped with `now` where a color command
/// is accepted.
pub open spec fn spec_step(pre: MessageController, event: MqttEvent, now: u64) -> (
    MessageController,
    Seq<Action>,
) {
    match event {
        MqttEvent::Connected => {
            if pre.connection_state is Connected {
                (pre, Seq::empty())
            } else {
                (
                    MessageController {
                        stop_signal: false,
                        connection_state: ConnectionState::Connected,
                        ..pre
                    },
                    seq![
                        Action::SetIndicator(pre.indicator_led_config.message_broker_connection),
                        Action::SpawnPublishLoop,
                        Action::SpawnSubscribeLoop,
                    ],
                )
            }
        },
        MqttEvent::Disconnected => (
            MessageController {
                stop_signal: true,
                connection_state: ConnectionState::Disconnected,
                ..pre
            },
            seq![Action::SetIndicator(pre.indicator_led_config.wifi_connection)],
        ),
        MqttEvent::Error => (
            MessageController {
                stop_signal: true,
                connection_state: ConnectionState::Disconnected,
                ..pre
            },
            seq![Action::SetIndicator(pre.indicator_led_config.wifi_connection)],
        ),
        MqttEvent::Received { id, topic, payload } => match topic {
            Option::Some(t) => {
                if t@ == pre.subscribe_topic@ {
                    match spec_decode_color(payload@) {
                        Option::Some(c) => (
                            MessageController { status: pre.status.apply_color_spec(c, now), ..pre },
                            seq![Action::SetStrip(c)],
                        ),
                        Option::None => (pre, Seq::empty()),
                    }
                } else {
                    (pre, Seq::empty())
                }
            },
            Option::None => (pre, Seq::empty()),
        },
        MqttEvent::Other => (pre, Seq::empty()),
    }
}

impl MessageController {
    /// A controller for one broker session: not yet connected, stop signal
    /// clear, with the standard indicator palette.
    pub fn new(
        status: Status,
        publish_status_interval_s: u32,
        publish_topic: &'static str,
        subscribe_topic: &'static str,
        indicator_led: Led,
        led_strip: Led,
    ) -> (c: MessageController)
        ensures
            c.status == status,
            c.publish_status_interval_s == publish_status_interval_s,
            c.publish_topic == publish_topic,
            c.subscribe_topic == subscribe_topic,
            c.indicator_led == indicator_led,
            c.led_strip == led_strip,
            c.indicator_led_config.disconnected == ((255u8, 0u8, 0u8)),
            c.indicator_led_config.wifi_connection == ((255u8, 50u8, 0u8)),
            c.indicator_led_config.message_broker_connection == ((0u8, 20u8, 20u8)),
            c.stop_signal == false,
            c.connection_state is Disconnected,
    {
        MessageController {
            status,
            publish_status_interval_s,
            publish_topic,
            subscribe_topic,
            indicator_led,
            led_strip,
            indicator_led_config: IndicatorLedConfig::new(),
            stop_signal: false,
            connection_state: ConnectionState::Disconnected,
        }
    }

    /// Handles one event, stamping an accepted color command with `now`.
    /// Returns the actions the embedding program must perform, in order; the
    /// status is already updated when a strip action is handed out.
    ///
    /// A message for another topic, a malformed payload, and a repeated
    /// `Connected` all leave the controller unchanged and hand out nothing.
    pub fn handle_event_at(&mut self, event: &MqttEvent, now: u64) -> (actions: Vec<Action>)
        ensures
            *final(self) == spec_step(*old(self), *event, now).0,
            actions@ == spec_step(*old(self), *event, now).1,
            received_for_other_topic(*old(self), *event) ==> *final(self) == *old(self)
                && actions@.len() == 0,
            received_malformed(*old(self), *event) ==> *final(self) == *old(self)
                && actions@.len() == 0,
            old(self).connection_state is Connected && *event is Connected ==> *final(self)
                == *old(self) && actions@.len() == 0,
    {
        let mut actions: Vec<Action> = Vec::new();
        match event {
            MqttEvent::Connected => {
                if !(self.connection_state == ConnectionState::Connected) {
                    self.stop_signal = false;
                    self.connection_state = ConnectionState::Connected;
                    actions.push(
                        Action::SetIndicator(self.indicator_led_config.message_broker_connection),
                    );
                    actions.push(Action::SpawnPublishLoop);
                    actions.push(Action::SpawnSubscribeLoop);
                    proof {
                        assert(actions@ =~= spec_step(*old(self), *event, now).1);
                    }
                }
            },
            MqttEvent::Disconnected => {
                self.stop_signal = true;
                self.connection_state = ConnectionState::Disconnected;
                actions.push(Action::SetIndicator(self.indicator_led_config.wifi_connection));
                proof {
                    assert(actions@ =~= spec_step(*old(self), *event, now).1);
                }
            },
            MqttEvent::Error => {
                self.stop_signal = true;
                self.connection_state = ConnectionState::Disconnected;
                actions.push(Action::SetIndicator(self.indicator_led_config.wifi_connection));
                proof {
                    assert(actions@ =~= spec_step(*old(self), *event, now).1);
                }
            },
            MqttEvent::Received { id: _, topic, payload } => {
                if let Option::Some(t) = topic {
                    let own_topic: String = self.subscribe_topic.to_owned();
                    if *t == own_topic {
                        match decode_color_command(payload.as_slice()) {
                            Ok(c) => {
                                self.status.set_new_status_at(c, now);
                                actions.push(Action::SetStrip(c));
                                proof {
                                    assert(actions@ =~= spec_step(*old(self), *event, now).1);
                                }
                            },
                            Err(_) => {},
                        }
                    }
                }
            },
            MqttEvent::Other => {},
        }
        actions
    }

    /// Handles one event, stamping an accepted color command with the wall
    /// clock.  Only an accepted command reads the clock; its failure is
    /// propagated (the timestamp invariant cannot be kept without it) and
    /// leaves the controller unchanged.  On success the transition is the
    /// one `spec_step` states for the clock value the new status carries.
    pub fn handle_event(&mut self, event: &MqttEvent) -> (r: Result<Vec<Action>, ClockError>)
        ensures
            r matches Ok(actions) ==> *final(self) == spec_step(
                *old(self),
                *event,
                final(self).status.last_changed,
            ).0 && actions@ == spec_step(*old(self), *event, final(self).status.last_changed).1,
            r is Err ==> *final(self) == *old(self) && exists|c: RgbColor|
                received_command(*old(self), *event, c),
    {
        let mut needs_clock: bool = false;
        let ghost mut commanded: RgbColor = (0, 0, 0);
        match event {
            MqttEvent::Received { id: _, topic, payload } => {
                if let Option::Some(t) = topic {
                    let own_topic: String = self.subscribe_topic.to_owned();
                    if *t == own_topic {
                        match decode_color_command(payload.as_slice()) {
                            Ok(c) => {
                                needs_clock = true;
                                proof {
                                    commanded = c;
                                }
                            },
                            Err(_) => {},
                        }
                    }
                }
            },
            _ => {},
        }
        proof {
            if needs_clock {
                assert(received_command(*old(self), *event, commanded));
            }
        }
        if needs_clock {
            match wall_clock_seconds() {
                Ok(now) => Ok(self.handle_event_at(event, now)),
                Err(e) => Err(e),
            }
        } else {
            Ok(self.handle_event_at(event, 0))
        }
    }
}

/// The controller after a whole event sequence, and every action handed out
/// along the way, in order; `nows[k]` is the clock stamp for event `k`.
pub open spec fn spec_run(
    pre: MessageController,
    events: Seq<MqttEvent>,
    nows: Seq<u64>,
) -> (MessageController, Seq<Action>)
    decreases events.len(),
{
    if events.len() == 0 {
        (pre, Seq::empty())
    } else {
        let stepped = spec_step(pre, events[0], nows[0]);
        let rest = spec_run(stepped.0, events.drop_first(), nows.drop_first());
        (rest.0, stepped.1 + rest.1)
    }
}

/// Peeling the last event off a run.
pub proof fn lemma_spec_run_push(
    pre: MessageController,
    events: Seq<MqttEvent>,
    nows: Seq<u64>,
    e: MqttEvent,
    n: u64,
)
    requires
        events.len() == nows.len(),
    ensures
        spec_run(pre, events.push(e), nows.push(n)).0 == spec_step(
            spec_run(pre, events, nows).0,
            e,
            n,
        ).0,
        spec_run(pre, events.push(e), nows.push(n)).1 == spec_run(pre, events, nows).1 + spec_step(
            spec_run(pre, events, nows).0,
            e,
            n,
        ).1,
    decreases events.len(),
{
    if events.len() == 0 {
        assert(events.push(e)[0] == e);
        assert(nows.push(n)[0] == n);
        assert(events.push(e).drop_first() =~= events);
        assert(nows.push(n).drop_first() =~= nows);
        assert(spec_run(spec_step(pre, e, n).0, events, nows).0 == spec_step(pre, e, n).0);
        assert(spec_step(pre, e, n).1 + Seq::<Action>::empty() =~= spec_step(pre, e, n).1);
        assert(Seq::<Action>::empty() + spec_step(pre, e, n).1 =~= spec_step(pre, e, n).1);
    } else {
        assert(events.push(e)[0] == events[0]);
        assert(nows.push(n)[0] == nows[0]);
        assert(events.push(e).drop_first() =~= events.drop_first().push(e));
        assert(nows.push(n).drop_first() =~= nows.drop_first().push(n));
        let mid = spec_step(pre, events[0], nows[0]).0;
        lemma_spec_run_push(mid, events.drop_first(), nows.drop_first(), e, n);
        assert(spec_run(pre, events.push(e), nows.push(n)).0 == spec_run(
            mid,
            events.drop_first().push(e),
            nows.drop_first().push(n),
        ).0);
        assert(spec_step(pre, events[0], nows[0]).1 + (spec_run(
            mid,
            events.drop_first(),
            nows.drop_first(),
        ).1 + spec_step(spec_run(pre, events, nows).0, e, n).1) =~= (spec_step(
            pre,
            events[0],
            nows[0],
        ).1 + spec_run(mid, events.drop_first(), nows.drop_first()).1) + spec_step(
            spec_run(pre, events, nows).0,
            e,
            n,
        ).1);
    }
}

impl MessageController {
    /// Handles a whole event sequence with explicit clock stamps, collecting
    /// every action handed out, in order.
    pub fn run_events_at(&mut self, events: &Vec<MqttEvent>, nows: &Vec<u64>) -> (actions: Vec<
        Action,
    >)
        requires
            nows@.len() == events@.len(),
        ensures
            *final(self) == spec_run(*old(self), events@, nows@).0,
            actions@ == spec_run(*old(self), events@, nows@).1,
    {
        let mut actions: Vec<Action> = Vec::new();
        let mut i: usize = 0;
        while i < events.len()
            invariant
                i <= events@.len(),
                nows@.len() == events@.len(),
                *self == spec_run(*old(self), events@.take(i as int), nows@.take(i as int)).0,
                actions@ == spec_run(*old(self), events@.take(i as int), nows@.take(i as int)).1,
            decreases events@.len() - i,
        {
            let mut step_actions = self.handle_event_at(&events[i], nows[i]);
            actions.append(&mut step_actions);
            proof {
                assert(events@.take(i as int + 1) =~= events@.take(i as int).push(
                    events@[i as int],
                ));
                assert(nows@.take(i as int + 1) =~= nows@.take(i as int).push(nows@[i as int]));
                lemma_spec_run_push(
                    *old(self),
                    events@.take(i as int),
                    nows@.take(i as int),
                    events@[i as int],
                    nows@[i as int],
                );
            }
            i = i + 1;
        }
        proof {
            assert(events@.take(events@.len() as int) =~= events@);
            assert(nows@.take(nows@.len() as int) =~= nows@);
        }
        actions
    }

    /// The session loop: consumes the connection's whole event sequence in
    /// order, stamping accepted color commands with the wall clock, and
    /// collects every action handed out.  A clock failure ends the session
    /// early with the actions handed out so far and the error; the state
    /// then reflects the events handled before the failing one.
    pub fn start_listening_loop(&mut self, events: Vec<MqttEvent>) -> (r: (
        Vec<Action>,
        Result<(), ClockError>,
    ))
        ensures
            r.1 is Ok ==> exists|nows: Seq<u64>|
                nows.len() == events@.len() && *final(self) == spec_run(
                    *old(self),
                    events@,
                    nows,
                ).0 && r.0@ == spec_run(*old(self), events@, nows).1,
            r.1 is Err ==> exists|k: int, nows: Seq<u64>, c: RgbColor|
                0 <= k < events@.len() && nows.len() == k && *final(self) == spec_run(
                    *old(self),
                    events@.take(k),
                    nows,
                ).0 && r.0@ == spec_run(*old(self), events@.take(k), nows).1 && received_command(
                    spec_run(*old(self), events@.take(k), nows).0,
                    events@[k],
                    c,
                ),
    {
        let ghost mut wit: Seq<u64> = Seq::empty();
        let mut actions: Vec<Action> = Vec::new();
        let mut i: usize = 0;
        while i < events.len()
            invariant
                i <= events@.len(),
                wit.len() == i,
                *self == spec_run(*old(self), events@.take(i as int), wit).0,
                actions@ == spec_run(*old(self), events@.take(i as int), wit).1,
            decreases events@.len() - i,
        {
            match self.handle_event(&events[i]) {
                Ok(mut step_actions) => {
                    let ghost stamp = self.status.last_changed;
                    actions.append(&mut step_actions);
                    proof {
                        assert(events@.take(i as int + 1) =~= events@.take(i as int).push(
                            events@[i as int],
                        ));
                        lemma_spec_run_push(
                            *old(self),
                            events@.take(i as int),
                            wit,
                            events@[i as int],
                            stamp,
                        );
                        wit = wit.push(stamp);
                    }
                },
                Err(e) => {
                    proof {
                        let c = choose|c: RgbColor| received_command(*self, events@[i as int], c);
                        assert(received_command(
                            spec_run(*old(self), events@.take(i as int), wit).0,
                            events@[i as int],
                            c,
                        ));
                    }
                    return (actions, Err(e));
                },
            }
            i = i + 1;
        }
        proof {
            assert(events@.take(events@.len() as int) =~= events@);
        }
        (actions, Ok(()))
    }
}

/// The publish request for one status report: the serialized snapshot,
/// enqueued at-least-once and not retained.
pub fn make_status_publish(topic: &'static str, status: &Status) -> (r: EnqueueRequest)
    ensures
        r.topic == topic,
        r.qos == QosLevel::AtLeastOnce,
        r.retain == false,
        r.payload@ == spec_status_json(*status),
{
    EnqueueRequest {
        topic,
        qos: QosLevel::AtLeastOnce,
        retain: false,
        payload: status.to_message(),
    }
}

impl MessageController {
    /// The publish loop over what its iterations observe, one tick per
    /// iteration of the real loop (which then sleeps for the publish
    /// interval).  Each iteration first checks the cancellation signal and
    /// returns at once when it is set — so a cancellation is honored within
    /// one interval, and is never an error; otherwise it enqueues the
    /// serialized status snapshot and stops on an enqueue failure.
    ///
    /// Returns every enqueue request issued, in order, and why the loop
    /// ended.
    pub fn start_publish_loop(&self, ticks: &Vec<PublishTick>) -> (r: (
        Vec<EnqueueRequest>,
        PublishOutcome,
    ))
        ensures
            r.0@.len() <= ticks@.len(),
            forall|i: int|
                0 <= i < r.0@.len() ==> (#[trigger] r.0@[i]).topic == self.publish_topic
                    && r.0@[i].qos == QosLevel::AtLeastOnce && r.0@[i].retain == false
                    && r.0@[i].payload@ == spec_status_json(ticks@[i].status),
            forall|i: int| 0 <= i < r.0@.len() ==> !(#[trigger] ticks@[i]).stop,
            r.1 is Stopped ==> r.0@.len() < ticks@.len() && ticks@[r.0@.len() as int].stop && (
            forall|i: int| 0 <= i < r.0@.len() ==> (#[trigger] ticks@[i]).enqueue_ok),
            r.1 is Failed ==> r.0@.len() >= 1 && !ticks@[r.0@.len() - 1].enqueue_ok && (forall|
                i: int,
            |
                0 <= i < r.0@.len() - 1 ==> (#[trigger] ticks@[i]).enqueue_ok),
            r.1 is Pending ==> r.0@.len() == ticks@.len() && (forall|i: int|
                0 <= i < r.0@.len() ==> (#[trigger] ticks@[i]).enqueue_ok),
            forall|k: int|
                0 <= k < ticks@.len() && (#[trigger] ticks@[k]).stop ==> r.0@.len() <= k && !(r.1
                    is Pending),
    {
        let mut requests: Vec<EnqueueRequest> = Vec::new();
        let mut i: usize = 0;
        while i < ticks.len()
            invariant
                i <= ticks@.len(),
                requests@.len() == i,
                forall|t: int|
                    0 <= t < i ==> (#[trigger] requests@[t]).topic == self.publish_topic
                        && requests@[t].qos == QosLevel::AtLeastOnce && requests@[t].retain
                        == false && requests@[t].payload@ == spec_status_json(ticks@[t].status),
                forall|t: int| 0 <= t < i ==> !(#[trigger] ticks@[t]).stop,
                forall|t: int| 0 <= t < i ==> (#[trigger] ticks@[t]).enqueue_ok,
            decreases ticks@.len() - i,
        {
            let tick = &ticks[i];
            if tick.stop {
                return (requests, PublishOutcome::Stopped);
            }
            requests.push(make_status_publish(self.publish_topic, &tick.status));
            if !tick.enqueue_ok {
                return (requests, PublishOutcome::Failed);
            }
            i = i + 1;
        }
        (requests, PublishOutcome::Pending)
    }

    /// The subscribe loop over what its iterations observe, one tick per
    /// iteration of the real loop (which sleeps for the backoff interval
    /// after a failed attempt).  Each iteration first checks the
    /// cancellation signal and returns at once when it is set — so a
    /// cancellation is honored within one backoff interval, and is never an
    /// error; otherwise it attempts the subscribe, retrying without bound on
    /// failure, and on success records the subscription in the status,
    /// stamped with that tick's clock value.
    ///
    /// Returns how many failed attempts preceded the end, and why the loop
    /// ended.
    pub fn subscribe(&mut self, ticks: &Vec<SubscribeTick>) -> (r: (usize, SubscribeOutcome))
        ensures
            r.0 <= ticks@.len(),
            forall|i: int|
                0 <= i < r.0 ==> !(#[trigger] ticks@[i]).stop && !ticks@[i].subscribe_ok,
            r.1 is Cancelled ==> r.0 < ticks@.len() && ticks@[r.0 as int].stop && *final(self)
                == *old(self),
            r.1 is Subscribed ==> r.0 < ticks@.len() && !ticks@[r.0 as int].stop
                && ticks@[r.0 as int].subscribe_ok && *final(self) == (MessageController {
                status: old(self).status.set_subscribed_spec(true, ticks@[r.0 as int].now),
                ..*old(self)
            }),
            r.1 is Pending ==> r.0 == ticks@.len() && *final(self) == *old(self),
            forall|k: int|
                0 <= k < ticks@.len() && (#[trigger] ticks@[k]).stop ==> r.0 <= k && !(r.1
                    is Pending),
    {
        let mut i: usize = 0;
        while i < ticks.len()
            invariant
                i <= ticks@.len(),
                *self == *old(self),
                forall|t: int|
                    0 <= t < i ==> !(#[trigger] ticks@[t]).stop && !ticks@[t].subscribe_ok,
            decreases ticks@.len() - i,
        {
            let tick = &ticks[i];
            if tick.stop {
                return (i, SubscribeOutcome::Cancelled);
            }
            if tick.subscribe_ok {
                self.status.set_is_subscribed_at(true, tick.now);
                return (i, SubscribeOutcome::Subscribed);
            }
            i = i + 1;
        }
        (i, SubscribeOutcome::Pending)
    }
}

} // verus!

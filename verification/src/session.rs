//! The lifecycle of one viewer's connection to the feed.
//!
//! Acquiring a session subscribes the viewer and announces that they joined.
//! Releasing it announces that they left. However often a session is
//! released, and by whatever path, it announces the leave once.

use vstd::prelude::*;
use vstd::string::StringExecFns;
use tokio::sync::broadcast::{Receiver, Sender};
use crate::content::{construct_message, message_of, Message, MessageView};
use crate::hub::{publish, receiver_count, subscribe};
use crate::text::{decimal, decimal_string};

verus! {

/// The sender of presence announcements and of replies about the registry.
pub const SYSTEM: &'static str = "System";

/// What is said between a viewer's name and the count when they join.
pub const JOINED: &'static str = " joined. Users currently online: ";

/// What is said between a viewer's name and the count when they leave.
pub const LEFT: &'static str = " left. Users currently online: ";

/// A session as the contracts see it.
pub ghost struct SessionView {
    pub name: Seq<char>,
    /// Whether the leave is still to be announced.
    pub active: bool,
}

/// The text that announces that `name` joined when `count` viewers are
/// subscribed, `name` among them.
pub open spec fn joined_text(name: Seq<char>, count: nat) -> Seq<char> {
    name + JOINED@ + decimal(count)
}

/// How many viewers stay when one of `count` leaves.
pub open spec fn remaining(count: nat) -> nat {
    if count >= 1 {
        (count - 1) as nat
    } else {
        0
    }
}

/// The text that announces that `name` left when `count` viewers were
/// subscribed, `name` still among them.
pub open spec fn left_text(name: Seq<char>, count: nat) -> Seq<char> {
    name + LEFT@ + decimal(remaining(count))
}

/// The announcement that `name` joined: viewers are notified of it.
pub open spec fn joined_message(name: Seq<char>, count: nat, sent_date: int) -> MessageView {
    message_of(joined_text(name, count), SYSTEM@, true, sent_date)
}

/// The announcement that `name` left: viewers are not notified of it.
pub open spec fn left_message(name: Seq<char>, count: nat, sent_date: int) -> MessageView {
    message_of(left_text(name, count), SYSTEM@, false, sent_date)
}

/// Whether `m` announces that `name` joined, for some count of viewers.
pub open spec fn announces_join(m: MessageView, name: Seq<char>) -> bool {
    exists|count: nat| m == #[trigger] joined_message(name, count, m.sent_date)
}

/// Whether `m` announces that `name` left, for some count of viewers.
pub open spec fn announces_leave(m: MessageView, name: Seq<char>) -> bool {
    exists|count: nat| m == #[trigger] left_message(name, count, m.sent_date)
}

/// The session after a release.
pub open spec fn released(s: SessionView) -> SessionView {
    SessionView { active: false, ..s }
}

/// What a run of releases announces of the session `s`. Each release finds
/// some number of subscribers, given in `counts`; a release announces the
/// leave where the session is active, and nothing where it is not.
pub open spec fn announced_by_releases(s: SessionView, counts: Seq<nat>) -> Seq<Seq<char>>
    decreases counts.len(),
{
    if counts.len() == 0 {
        Seq::empty()
    } else {
        (if s.active {
            seq![left_text(s.name, counts[0])]
        } else {
            Seq::empty()
        }) + announced_by_releases(released(s), counts.drop_first())
    }
}

/// What the whole life of a session announces: the join, when it is acquired
/// among `joined_among` subscribers, then what its releases announce.
pub open spec fn announced_by_lifecycle(
    name: Seq<char>,
    joined_among: nat,
    counts: Seq<nat>,
) -> Seq<Seq<char>> {
    seq![joined_text(name, joined_among)] + announced_by_releases(
        SessionView { name, active: true },
        counts,
    )
}

/// One viewer's connection: who it is, and whether the leave is still to be
/// announced.
pub struct Session {
    name: String,
    hub: Sender<Message>,
    active: bool,
}

impl View for Session {
    type V = SessionView;

    closed spec fn view(&self) -> SessionView {
        SessionView { name: self.name@, active: self.active }
    }
}

/// Builds the announcement that `name` joined when `count` viewers are
/// subscribed, `name` among them.
pub fn join_announcement(name: &str, count: usize) -> (m: Message)
    ensures
        m@ == joined_message(name@, count as nat, m.sent_date as int),
{
    let mut text = String::new();
    text.append(name);
    text.append(JOINED);
    text.append(decimal_string(count).as_str());
    assert(text@ =~= joined_text(name@, count as nat));
    construct_message(text.as_str(), SYSTEM, true)
}

/// Builds the announcement that `name` left. `count` is the number of
/// subscribers while `name` is still one of them; the announcement gives the
/// number that stay.
pub fn leave_announcement(name: &str, count: usize) -> (m: Message)
    ensures
        m@ == left_message(name@, count as nat, m.sent_date as int),
{
    let stay: usize = if count >= 1 {
        count - 1
    } else {
        0
    };
    let mut text = String::new();
    text.append(name);
    text.append(LEFT);
    text.append(decimal_string(stay).as_str());
    assert(text@ =~= left_text(name@, count as nat));
    construct_message(text.as_str(), SYSTEM, false)
}

impl Session {
    /// Binds a viewer to the hub: subscribes, counts the subscribers, the new
    /// one among them, and publishes the announcement that the viewer joined.
    /// Returns the session, the subscriber, and the announcement as it was
    /// published.
    pub fn acquire(name: String, hub: Sender<Message>) -> (r: (
        Session,
        Receiver<Message>,
        Message,
    ))
        ensures
            r.0@ == (SessionView { name: name@, active: true }),
            announces_join(r.2@, name@),
    {
        let subscriber = subscribe(&hub);
        let count = receiver_count(&hub);
        let announcement = join_announcement(name.as_str(), count);
        publish(&hub, announcement.clone());
        assert(announcement@ == joined_message(name@, count as nat, announcement@.sent_date));
        (Session { name, hub, active: true }, subscriber, announcement)
    }

    /// The viewer's name.
    pub fn name(&self) -> (r: &str)
        ensures
            r@ == self@.name,
    {
        self.name.as_str()
    }

    /// Whether the leave is still to be announced.
    pub fn is_active(&self) -> (r: bool)
        ensures
            r == self@.active,
    {
        self.active
    }

    /// Ends the session. The first call counts the subscribers, publishes the
    /// announcement that the viewer left and returns it; every later call does
    /// nothing and returns `None`.
    pub fn release(&mut self) -> (r: Option<Message>)
        ensures
            final(self)@ == released(old(self)@),
            r is Some <==> old(self)@.active,
            r is Some ==> announces_leave(r->0@, old(self)@.name),
    {
        if !self.active {
            return None;
        }
        self.active = false;
        let count = receiver_count(&self.hub);
        let announcement = leave_announcement(self.name.as_str(), count);
        publish(&self.hub, announcement.clone());
        assert(announcement@ == left_message(self@.name, count as nat, announcement@.sent_date));
        Some(announcement)
    }
}

/// A session that was released announces nothing more, however often it is
/// released again.
pub proof fn lemma_released_stays_silent(s: SessionView, counts: Seq<nat>)
    requires
        !s.active,
    ensures
        announced_by_releases(s, counts) == Seq::<Seq<char>>::empty(),
    decreases counts.len(),
{
    if counts.len() > 0 {
        lemma_released_stays_silent(released(s), counts.drop_first());
        assert(Seq::<Seq<char>>::empty() + Seq::<Seq<char>>::empty() =~= Seq::<
            Seq<char>,
        >::empty());
    }
}

/// A session that is acquired and then released, once or more often,
/// announces one join and one leave, in that order. The leave gives the number
/// of subscribers that the first release found, less the one that leaves:
/// where that number is what it was at the join, one fewer than the join gave.
pub proof fn lemma_one_join_one_leave(name: Seq<char>, joined_among: nat, counts: Seq<nat>)
    requires
        counts.len() >= 1,
    ensures
        announced_by_lifecycle(name, joined_among, counts) == seq![
            joined_text(name, joined_among),
            left_text(name, counts[0]),
        ],
        counts[0] == joined_among && joined_among >= 1 ==> left_text(name, counts[0]) == name
            + LEFT@ + decimal((joined_among - 1) as nat),
{
    let acquired = SessionView { name, active: true };
    lemma_released_stays_silent(released(acquired), counts.drop_first());
    assert(announced_by_releases(acquired, counts) =~= seq![left_text(name, counts[0])]);
    assert(announced_by_lifecycle(name, joined_among, counts) =~= seq![
        joined_text(name, joined_among),
        left_text(name, counts[0]),
    ]);
}

} // verus!

//! The feed adapter: what a subscriber's stream hands out becomes what a
//! viewer is sent.
//!
//! A subscriber that falls behind is told so by the hub and goes on with the
//! next message. The adapter passes every message on in the order in which it
//! came and drops the signals of lag.

use vstd::prelude::*;
use vstd::string::StringExecFns;
use vstd::utf8::encode_utf8;
use crate::content::{Message, MessageView};
use crate::text::{chars_of, string_of};

verus! {

/// The longest contents, in bytes, that are their own preview.
pub const PREVIEW_BYTES: usize = 40;

/// How many characters of longer contents a preview keeps.
pub const PREVIEW_CHARS: usize = 37;

/// What ends a preview that was cut.
pub const ELLIPSIS: &'static str = "...";

/// What a subscriber's stream hands out.
#[derive(Debug)]
pub enum StreamItem {
    /// A message that was published.
    Delivered(Message),
    /// The subscriber fell behind and missed this many messages.
    Lagged(u64),
}

/// A stream item as the contracts see it.
pub ghost enum StreamItemView {
    Delivered(MessageView),
    Lagged(int),
}

impl View for StreamItem {
    type V = StreamItemView;

    open spec fn view(&self) -> StreamItemView {
        match *self {
            StreamItem::Delivered(m) => StreamItemView::Delivered(m@),
            StreamItem::Lagged(n) => StreamItemView::Lagged(n as int),
        }
    }
}

/// What a viewer is sent for one message.
#[derive(Debug)]
pub struct FeedEvent {
    /// Who sent the message.
    pub sender: String,
    /// The message itself.
    pub message: Message,
    /// A short form of the contents, for a notification.
    pub preview: String,
    /// Whether the viewer is to be notified.
    pub notify: bool,
}

/// A feed event as the contracts see it.
pub ghost struct FeedEventView {
    pub sender: Seq<char>,
    pub message: MessageView,
    pub preview: Seq<char>,
    pub notify: bool,
}

impl View for FeedEvent {
    type V = FeedEventView;

    open spec fn view(&self) -> FeedEventView {
        FeedEventView {
            sender: self.sender@,
            message: self.message@,
            preview: self.preview@,
            notify: self.notify,
        }
    }
}

/// The preview of contents: the contents themselves where they take at most
/// `PREVIEW_BYTES` bytes in UTF-8, otherwise their first `PREVIEW_CHARS`
/// characters, or all of them if there are fewer, and an ellipsis.
pub open spec fn preview_of(contents: Seq<char>) -> Seq<char> {
    if encode_utf8(contents).len() <= PREVIEW_BYTES {
        contents
    } else if contents.len() <= PREVIEW_CHARS {
        contents + ELLIPSIS@
    } else {
        contents.take(PREVIEW_CHARS as int) + ELLIPSIS@
    }
}

/// The event that a message is sent as.
pub open spec fn event_of(m: MessageView) -> FeedEventView {
    FeedEventView {
        sender: m.sender,
        message: m,
        preview: preview_of(m.contents),
        notify: m.should_notify,
    }
}

/// What the adapter makes of one stream item: the event of a message, nothing
/// of a signal of lag.
pub open spec fn passed_on(item: StreamItemView) -> Option<FeedEventView> {
    match item {
        StreamItemView::Delivered(m) => Some(event_of(m)),
        StreamItemView::Lagged(_) => None,
    }
}

/// What the adapter makes of a run of stream items: the events of its
/// messages, in their order.
pub open spec fn forwarded(items: Seq<StreamItemView>) -> Seq<FeedEventView>
    decreases items.len(),
{
    if items.len() == 0 {
        Seq::empty()
    } else {
        let before = forwarded(items.drop_last());
        match passed_on(items.last()) {
            Some(event) => before.push(event),
            None => before,
        }
    }
}

/// Builds the preview of contents.
pub fn preview(contents: &str) -> (r: String)
    ensures
        r@ == preview_of(contents@),
{
    if contents.as_bytes().len() <= PREVIEW_BYTES {
        contents.to_owned()
    } else {
        let v = chars_of(contents);
        let kept: usize = if v.len() <= PREVIEW_CHARS {
            v.len()
        } else {
            PREVIEW_CHARS
        };
        let mut r = string_of(&v, 0, kept);
        assert(v@.subrange(0, v.len() as int) =~= v@);
        r.append(ELLIPSIS);
        r
    }
}

/// Turns one stream item into what the viewer is sent: the event of a
/// message, or `None` for a signal of lag, after which the stream goes on.
pub fn feed_event(item: StreamItem) -> (r: Option<FeedEvent>)
    ensures
        match r {
            Some(event) => passed_on(item@) == Some(event@),
            None => passed_on(item@) is None,
        },
{
    match item {
        StreamItem::Delivered(message) => {
            let sender = message.sender.clone();
            let preview = preview(message.contents.as_str());
            let notify = message.should_notify;
            Some(FeedEvent { sender, message, preview, notify })
        },
        StreamItem::Lagged(_) => None,
    }
}

/// A subscriber that never lags is sent every message, in the order in which
/// the messages came.
pub proof fn lemma_every_message_forwarded(items: Seq<StreamItemView>)
    requires
        forall|i: int| 0 <= i < items.len() ==> (#[trigger] items[i]) is Delivered,
    ensures
        forwarded(items).len() == items.len(),
        forall|i: int|
            0 <= i < items.len() ==> (#[trigger] forwarded(items)[i]).message == items[i]->Delivered_0,
    decreases items.len(),
{
    if items.len() > 0 {
        lemma_every_message_forwarded(items.drop_last());
    }
}

/// Lag ends nothing: what is forwarded of a run of items is what is forwarded
/// of its first part, then what is forwarded of the rest.
pub proof fn lemma_forwarded_in_order(first: Seq<StreamItemView>, rest: Seq<StreamItemView>)
    ensures
        forwarded(first + rest) == forwarded(first) + forwarded(rest),
    decreases rest.len(),
{
    if rest.len() == 0 {
        assert(first + rest =~= first);
        assert(forwarded(first) + forwarded(rest) =~= forwarded(first));
    } else {
        lemma_forwarded_in_order(first, rest.drop_last());
        assert((first + rest).drop_last() =~= first + rest.drop_last());
        assert((first + rest).last() == rest.last());
        match passed_on(rest.last()) {
            Some(event) => {
                assert(forwarded(first + rest) =~= forwarded(first) + forwarded(rest));
            },
            None => {},
        }
    }
}

/// A signal of lag adds nothing to what is forwarded and takes nothing away.
pub proof fn lemma_lag_is_dropped(items: Seq<StreamItemView>, missed: int)
    ensures
        forwarded(items.push(StreamItemView::Lagged(missed))) == forwarded(items),
{
    assert(items.push(StreamItemView::Lagged(missed)).drop_last() =~= items);
}

} // verus!

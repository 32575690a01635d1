//! Read-only projection of one item of a room's timeline.

use vstd::prelude::*;

verus! {

/// What an event of the timeline holds.
pub enum EventContent {
    /// A message, with its body text.
    Message { body: String },
    /// Anything else (sticker, poll, redacted or undecryptable event), with a
    /// text that describes it.
    Other { description: String },
}

/// An item that stands between events rather than for one.
pub enum VirtualItem {
    /// A date divider, at a time in milliseconds since the Unix epoch.
    DateDivider { millis: u64 },
    /// The user's read marker.
    ReadMarker,
    /// The start of the room's history.
    TimelineStart,
}

/// One item of a room's timeline.
pub enum TimelineItem {
    Event {
        /// Absent while a local echo has not been sent.
        event_id: Option<String>,
        content: EventContent,
        /// Origin time, in milliseconds since the Unix epoch.
        timestamp_millis: u64,
    },
    Virtual { item: VirtualItem },
}

pub open spec fn digit_char(d: nat) -> char {
    if d == 0 {
        '0'
    } else if d == 1 {
        '1'
    } else if d == 2 {
        '2'
    } else if d == 3 {
        '3'
    } else if d == 4 {
        '4'
    } else if d == 5 {
        '5'
    } else if d == 6 {
        '6'
    } else if d == 7 {
        '7'
    } else if d == 8 {
        '8'
    } else {
        '9'
    }
}

/// The decimal digits of `n`, most significant first.
pub open spec fn decimal_of(n: nat) -> Seq<char>
    decreases n,
{
    if n < 10 {
        seq![digit_char(n)]
    } else {
        decimal_of(n / 10) + seq![digit_char(n % 10)]
    }
}

fn digit_str(d: u64) -> (r: &'static str)
    requires
        d < 10,
    ensures
        r@ == seq![digit_char(d as nat)],
{
    proof {
        reveal_strlit("0");
        reveal_strlit("1");
        reveal_strlit("2");
        reveal_strlit("3");
        reveal_strlit("4");
        reveal_strlit("5");
        reveal_strlit("6");
        reveal_strlit("7");
        reveal_strlit("8");
        reveal_strlit("9");
    }
    if d == 0 {
        "0"
    } else if d == 1 {
        "1"
    } else if d == 2 {
        "2"
    } else if d == 3 {
        "3"
    } else if d == 4 {
        "4"
    } else if d == 5 {
        "5"
    } else if d == 6 {
        "6"
    } else if d == 7 {
        "7"
    } else if d == 8 {
        "8"
    } else {
        "9"
    }
}

/// `n` in decimal.
pub fn decimal(n: u64) -> (r: String)
    ensures
        r@ == decimal_of(n as nat),
{
    let mut s = String::from_str(digit_str(n % 10));
    let mut rest = n / 10;
    while rest > 0
        invariant
            rest > 0 ==> decimal_of(n as nat) == decimal_of(rest as nat) + s@,
            rest == 0 ==> decimal_of(n as nat) == s@,
        decreases rest,
    {
        let d = digit_str(rest % 10);
        proof {
            assert(decimal_of(rest as nat) == if rest < 10 {
                seq![digit_char(rest as nat)]
            } else {
                decimal_of((rest / 10) as nat) + seq![digit_char((rest % 10) as nat)]
            });
            if rest < 10 {
                assert(rest % 10 == rest);
            }
        }
        let ghost old_s = s@;
        s = String::from_str(d).concat(s.as_str());
        proof {
            if rest >= 10 {
                assert(decimal_of((rest / 10) as nat) + seq![digit_char((rest % 10) as nat)] + old_s
                    =~= decimal_of((rest / 10) as nat) + s@);
            } else {
                assert(seq![digit_char((rest % 10) as nat)] + old_s =~= s@);
            }
        }
        rest = rest / 10;
    }
    s
}

/// The ISO 8601 text of a time given in milliseconds since the Unix epoch.
pub uninterp spec fn iso8601_text(millis: int) -> Seq<char>;

/// The last millisecond chrono can represent: 262142-12-31T23:59:59.999 UTC.
pub const MAX_MILLIS: u64 = 8_210_266_876_799_999;

/// Relies on chrono: `DateTime::<Utc>::from_timestamp_millis`, `None` only
/// out of its range (which holds every time from the epoch to `MAX_MILLIS`),
/// formatted with `%+` (ISO 8601 / RFC 3339).
#[verifier::external_body]
fn iso8601_of_millis(millis: i64) -> (r: Option<String>)
    ensures
        0 <= millis <= MAX_MILLIS ==> r is Some,
        r matches Some(s) ==> s@ == iso8601_text(millis as int),
{
    chrono::DateTime::<chrono::Utc>::from_timestamp_millis(millis).map(|dt| dt.format("%+").to_string())
}

impl TimelineItem {
    /// The text of the item, as `body` gives it.
    pub open spec fn body_text(&self) -> Seq<char> {
        match self {
            TimelineItem::Event { content, .. } => match content {
                EventContent::Message { body } => body@,
                EventContent::Other { description } => description@,
            },
            TimelineItem::Virtual { item } => match item {
                VirtualItem::DateDivider { millis } => decimal_of(*millis as nat),
                VirtualItem::ReadMarker => seq!['R', 'e', 'a', 'd', 'm', 'a', 'r', 'k', 'e', 'r'],
                VirtualItem::TimelineStart => seq![
                    'T',
                    'i',
                    'm',
                    'e',
                    'l',
                    'i',
                    'n',
                    'e',
                    's',
                    't',
                    'a',
                    'r',
                    't',
                ],
            },
        }
    }

    /// The event's identifier; empty for a virtual item or an unsent event.
    pub fn id(&self) -> (r: String)
        ensures
            r@ == match self {
                TimelineItem::Event { event_id: Some(id), .. } => id@,
                _ => Seq::<char>::empty(),
            },
    {
        match self {
            TimelineItem::Event { event_id: Some(id), .. } => id.clone(),
            _ => String::new(),
        }
    }

    /// The body of a message, the description of another event, the day of
    /// a date divider in milliseconds, or the name of another virtual item.
    pub fn body(&self) -> (r: String)
        ensures
            r@ == self.body_text(),
    {
        proof {
            reveal_strlit("Readmarker");
            reveal_strlit("Timelinestart");
        }
        match self {
            TimelineItem::Event { content, .. } => match content {
                EventContent::Message { body } => body.clone(),
                EventContent::Other { description } => description.clone(),
            },
            TimelineItem::Virtual { item } => match item {
                VirtualItem::DateDivider { millis } => decimal(*millis),
                VirtualItem::ReadMarker => String::from_str("Readmarker"),
                VirtualItem::TimelineStart => String::from_str("Timelinestart"),
            },
        }
    }

    /// The event's origin time in ISO 8601; empty for a virtual item, or
    /// where the time lies beyond `MAX_MILLIS`.
    pub fn timestamp(&self) -> (r: String)
        ensures
            r@ == match self {
                TimelineItem::Event { timestamp_millis, .. } => if *timestamp_millis <= MAX_MILLIS {
                    iso8601_text(*timestamp_millis as int)
                } else {
                    Seq::<char>::empty()
                },
                TimelineItem::Virtual { .. } => Seq::<char>::empty(),
            },
    {
        match self {
            TimelineItem::Event { timestamp_millis, .. } => {
                if *timestamp_millis > MAX_MILLIS {
                    return String::new();
                }
                match iso8601_of_millis(*timestamp_millis as i64) {
                    Some(s) => s,
                    None => String::new(),
                }
            },
            TimelineItem::Virtual { .. } => String::new(),
        }
    }
}

} // verus!

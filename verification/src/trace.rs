//! Tracing: timing events and putting them into lines of text. Writing
//! the lines is left to the caller.

use crate::text::{decimal, decimal_digits};
use crate::time::{instant_now, nanos_between, nanos_since_epoch};
use vstd::prelude::*;

verus! {

/// Why a line of the trace was not written.
#[derive(Debug)]
pub enum TraceWriteError {
    /// Writing failed.
    Io(std::io::Error),
    /// Only a part of the line was written.
    Incomplete,
}

/// What one write of a line of `len` bytes comes to, given what the write
/// returned: the line counts as written only if all of it was taken in
/// that one write.
pub open spec fn written_once(written: Result<usize, std::io::Error>, len: usize) -> Result<
    (),
    TraceWriteError,
> {
    match written {
        Err(error) => Err(TraceWriteError::Io(error)),
        Ok(n) => if n != len {
            Err(TraceWriteError::Incomplete)
        } else {
            Ok(())
        },
    }
}

/// Judges the one write of a line of `len` bytes that returned `written`.
pub fn write_once(written: Result<usize, std::io::Error>, len: usize) -> (r: Result<
    (),
    TraceWriteError,
>)
    ensures
        r == written_once(written, len),
{
    match written {
        Err(error) => Err(TraceWriteError::Io(error)),
        Ok(n) => if n != len {
            Err(TraceWriteError::Incomplete)
        } else {
            Ok(())
        },
    }
}

/// An event with the times at which it started and ended.
#[derive(Debug)]
pub struct Metadata<E> {
    pub start: std::time::Instant,
    pub end: std::time::Instant,
    pub event: E,
}

/// The timing of an event that has started.
#[derive(Debug)]
pub struct EventTiming {
    pub start: std::time::Instant,
}

impl EventTiming {
    /// Start timing.
    pub fn start() -> (r: EventTiming) {
        EventTiming { start: instant_now() }
    }

    /// Finish timing `event`.
    pub fn finish<E>(self, event: E) -> (r: Metadata<E>)
        ensures
            r.start == self.start,
            r.event == event,
    {
        Metadata { start: self.start, end: instant_now(), event }
    }
}

/// Start timing an event if tracing is on.
pub fn start(tracing: bool) -> (r: Option<EventTiming>)
    ensures
        r.is_some() == tracing,
{
    if tracing {
        Some(EventTiming::start())
    } else {
        None
    }
}

/// Finish the timing of `event` if tracing is on: gives the event with its
/// times, to be put into a line. With tracing on the timing must be there.
pub fn finish<E>(tracing: bool, timing: Option<EventTiming>, event: E) -> (r: Option<Metadata<E>>)
    requires
        tracing ==> timing.is_some(),
    ensures
        r.is_some() == tracing,
        r matches Some(timed) ==> timed.event == event && timed.start == timing.unwrap().start,
{
    if tracing {
        match timing {
            Some(timing) => Some(timing.finish(event)),
            None => None,
        }
    } else {
        None
    }
}

/// The text of the attributes `pairs` without the braces around it: each
/// name and value in quotes with a colon between, and commas between the
/// pairs.
pub open spec fn attribute_list(pairs: Seq<(String, String)>) -> Seq<char>
    decreases pairs.len(),
{
    if pairs.len() == 0 {
        Seq::empty()
    } else {
        let pair = pairs.last();
        let one = "\""@ + pair.0@ + "\":\""@ + pair.1@ + "\""@;
        if pairs.len() == 1 {
            one
        } else {
            attribute_list(pairs.drop_last()) + ","@ + one
        }
    }
}

/// The text of the attributes `pairs`.
pub open spec fn attributes_text(pairs: Seq<(String, String)>) -> Seq<char> {
    "{"@ + attribute_list(pairs) + "}"@
}

/// Writes the attributes `pairs` of an event.
pub fn write_attributes(pairs: &Vec<(String, String)>) -> (r: String)
    ensures
        r@ == attributes_text(pairs@),
{
    let mut text = String::from_str("{");
    let mut i: usize = 0;
    while i < pairs.len()
        invariant
            i <= pairs@.len(),
            text@ == "{"@ + attribute_list(pairs@.subrange(0, i as int)),
        decreases pairs@.len() - i,
    {
        let ghost before = text@;
        let ghost done = pairs@.subrange(0, i as int);
        let ghost next = pairs@.subrange(0, i + 1);
        if i > 0 {
            text.append(",");
        }
        text.append("\"");
        text.append(pairs[i].0.as_str());
        text.append("\":\"");
        text.append(pairs[i].1.as_str());
        text.append("\"");
        proof {
            assert(next.drop_last() =~= done);
            assert(next.last() == pairs@[i as int]);
            let one = "\""@ + pairs@[i as int].0@ + "\":\""@ + pairs@[i as int].1@ + "\""@;
            if i == 0 {
                assert(attribute_list(done) =~= Seq::<char>::empty());
                assert(text@ =~= "{"@ + one);
            } else {
                assert(text@ =~= "{"@ + (attribute_list(done) + ","@ + one));
            }
        }
        i = i + 1;
    }
    proof {
        assert(pairs@.subrange(0, i as int) =~= pairs@);
    }
    text.append("}");
    text
}

/// The line of the trace for one event: the stream it belongs to, its
/// description, the nanoseconds from the epoch of the trace to its start
/// and to its end, and its attributes.
pub open spec fn event_line_text(
    stream_id: u32,
    description: Seq<char>,
    start: u64,
    end: u64,
    attributes: Seq<char>,
) -> Seq<char> {
    "{\"stream_id\":"@ + decimal_digits(stream_id as nat) + ",\"description\":\""@ + description
        + "\",\"start\":"@ + decimal_digits(start as nat) + ",\"end\":"@ + decimal_digits(
        end as nat,
    ) + ",\"attributes\":"@ + attributes + "}\n"@
}

/// Writes the line of the trace for one event.
pub fn event_line(stream_id: u32, description: &str, start: u64, end: u64, attributes: &str) -> (r:
    String)
    ensures
        r@ == event_line_text(stream_id, description@, start, end, attributes@),
{
    let mut line = String::from_str("{\"stream_id\":");
    let id = decimal(stream_id as u64);
    line.append(id.as_str());
    line.append(",\"description\":\"");
    line.append(description);
    line.append("\",\"start\":");
    let from = decimal(start);
    line.append(from.as_str());
    line.append(",\"end\":");
    let to = decimal(end);
    line.append(to.as_str());
    line.append(",\"attributes\":");
    line.append(attributes);
    line.append("}\n");
    line
}

/// The first line of a trace: the time at which it was begun, as `text`
/// gives it.
pub fn metadata_line(timestamp: &str) -> (r: String)
    ensures
        r@ == "{\"timestamp\":\""@ + timestamp@ + "\"}\n"@,
{
    let mut line = String::from_str("{\"timestamp\":\"");
    line.append(timestamp);
    line.append("\"}\n");
    line
}

/// Writes the line of the trace for the timed event `timed` of the stream
/// `stream_id`, whose times count from `epoch`.
pub fn append<E>(
    epoch: &std::time::Instant,
    stream_id: u32,
    description: &str,
    timed: &Metadata<E>,
    attributes: &str,
) -> (r: String)
    ensures
        r@ == event_line_text(
            stream_id,
            description@,
            nanos_between(timed.start, *epoch),
            nanos_between(timed.end, *epoch),
            attributes@,
        ),
{
    let start = nanos_since_epoch(epoch, &timed.start);
    let end = nanos_since_epoch(epoch, &timed.end);
    event_line(stream_id, description, start, end, attributes)
}

} // verus!
